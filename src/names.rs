//! Finding a country by its English name, or by one of the alternate names
//! that are recognized for a few countries.

use vstd::prelude::*;
use vstd::utf8::{encode_utf8, encode_utf8_decode_utf8};
use crate::country::{Country, name_of};
use crate::table::{TABLE_LEN, table_entry, table_position, table_row, lemma_table_covers};

verus! {

/// The alternate names that are recognized besides the countries' own names.
pub open spec fn alias_of(s: Seq<char>) -> Option<Country> {
    if s == "Micronesia"@ {
        Some(Country::FM)
    } else if s == "United Kingdom of Great Britain"@ {
        Some(Country::GB)
    } else if s == "Iran"@ {
        Some(Country::IR)
    } else if s == "Macedonia"@ {
        Some(Country::MK)
    } else if s == "Tanzania"@ {
        Some(Country::TZ)
    } else if s == "Venezuela"@ {
        Some(Country::VE)
    } else {
        None
    }
}

/// The first country, from position `i` of the code table on, whose name is
/// `s`; past the end of the table, the country of which `s` is an alternate
/// name.
pub open spec fn named_from(s: Seq<char>, i: int) -> Option<Country>
    decreases TABLE_LEN - i,
{
    if i >= TABLE_LEN || i < 1 {
        alias_of(s)
    } else if table_entry(i) != Country::Unspecified && name_of(table_entry(i)) == s {
        Some(table_entry(i))
    } else {
        named_from(s, i + 1)
    }
}

/// The name table: every country (but `Unspecified`) under its own name, and
/// a few countries under an alternate name as well; matching is exact and
/// case-sensitive.
pub open spec fn country_named(s: Seq<char>) -> Option<Country> {
    named_from(s, 1)
}

/// What the name table gives is a country of that name or of that alternate
/// name; where it gives nothing, no country has the name.
pub proof fn lemma_country_named(s: Seq<char>, i: int)
    requires
        1 <= i <= TABLE_LEN,
    ensures
        named_from(s, i) matches Some(c) ==> (c != Country::Unspecified && name_of(c) == s)
            || alias_of(s) == Some(c),
        named_from(s, i) is None ==> alias_of(s) is None && forall|c: Country|
            i <= table_position(c) ==> #[trigger] name_of(c) != s,
    decreases TABLE_LEN - i,
{
    if i < TABLE_LEN {
        lemma_country_named(s, i + 1);
        let e = table_entry(i);
        assert forall|c: Country| i <= table_position(c) && named_from(s, i) is None implies
            #[trigger] name_of(c) != s by {
            lemma_table_covers(c);
            if table_position(c) == i {
                assert(c == e);
            }
        }
    } else {
        assert forall|c: Country| i <= table_position(c) implies #[trigger] name_of(c) != s by {
            lemma_table_covers(c);
        }
    }
}

/// Whether two strings hold the same characters, compared byte for byte.
pub fn str_eq(a: &str, b: &str) -> (r: bool)
    ensures
        r == (a@ == b@),
{
    let x = a.as_bytes();
    let y = b.as_bytes();
    proof {
        encode_utf8_decode_utf8(a@);
        encode_utf8_decode_utf8(b@);
    }
    if x.len() != y.len() {
        return false;
    }
    let mut i: usize = 0;
    while i < x.len()
        invariant
            i <= x@.len(),
            x@.len() == y@.len(),
            x@ == encode_utf8(a@),
            y@ == encode_utf8(b@),
            forall|j: int| 0 <= j < i ==> x@[j] == y@[j],
        decreases x@.len() - i,
    {
        if x[i] != y[i] {
            return false;
        }
        i = i + 1;
    }
    assert(x@ =~= y@);
    true
}

impl Country {
    /// Finds the country of a name in the name table: exact and
    /// case-sensitive, with the recognized alternate names included. An
    /// unknown name gives `None`.
    pub fn from_name(s: &str) -> (r: Option<Country>)
        ensures
            r == country_named(s@),
            r matches Some(c) ==> (c != Country::Unspecified && name_of(c) == s@)
                || alias_of(s@) == Some(c),
            r is None ==> alias_of(s@) is None && forall|c: Country|
                c != Country::Unspecified ==> #[trigger] name_of(c) != s@,
    {
        proof {
            lemma_country_named(s@, 1);
            assert forall|c: Country| c != Country::Unspecified implies 1 <= #[trigger] table_position(c) by {
                lemma_table_covers(c);
                lemma_table_covers(Country::Unspecified);
            }
        }
        let mut i: usize = 1;
        while i < TABLE_LEN
            invariant
                1 <= i <= TABLE_LEN,
                named_from(s@, i as int) == country_named(s@),
            decreases TABLE_LEN - i,
        {
            let c = table_row(i);
            proof {
                lemma_table_covers(c);
            }
            if str_eq(s, c.name()) {
                return Some(c);
            }
            i = i + 1;
        }
        if str_eq(s, "Micronesia") {
            return Some(Country::FM);
        }
        if str_eq(s, "United Kingdom of Great Britain") {
            return Some(Country::GB);
        }
        if str_eq(s, "Iran") {
            return Some(Country::IR);
        }
        if str_eq(s, "Macedonia") {
            return Some(Country::MK);
        }
        if str_eq(s, "Tanzania") {
            return Some(Country::TZ);
        }
        if str_eq(s, "Venezuela") {
            return Some(Country::VE);
        }
        None
    }
}

} // verus!
