//! Reading a country from its alpha-2 code.

use vstd::prelude::*;
use vstd::utf8::{encode_utf8, encode_utf8_decode_utf8};
use crate::country::{Country, code_of};
use crate::table::{TABLE_LEN, table_entry, table_key, search, pair_key, lemma_code_shape, lemma_alpha2_bytes, lemma_codes_unique};

verus! {

/// The error of reading a country from text.
#[derive(Debug, PartialEq, Eq)]
pub enum CountryParseError {
    /// The text is no country's alpha-2 code; it is carried as it was given.
    InvalidCountryCode(String),
}

impl CountryParseError {
    /// A short description of the error.
    pub fn description(&self) -> (r: &'static str)
        ensures
            r@ == "error parsing country code"@,
    {
        "error parsing country code"
    }
}

/// The country whose alpha-2 code is `s`, if there is one.
pub open spec fn country_with_code(s: Seq<char>) -> Option<Country> {
    if exists|c: Country| code_of(c) == s {
        Some(choose|c: Country| code_of(c) == s)
    } else {
        None
    }
}

/// A country whose code is `s` is the country with code `s`.
proof fn lemma_country_with_code(c: Country, s: Seq<char>)
    requires
        code_of(c) == s,
    ensures
        country_with_code(s) == Some(c),
{
    let d = choose|d: Country| code_of(d) == s;
    lemma_codes_unique(c, d);
}

/// Reading back the code of any country gives that country.
pub proof fn lemma_parse_format(c: Country)
    ensures
        country_with_code(code_of(c)) == Some(c),
{
    lemma_country_with_code(c, code_of(c));
}

/// Every key of the code table reads as a country whose code is that key.
pub proof fn lemma_format_parse(i: int)
    requires
        0 <= i < TABLE_LEN,
    ensures
        country_with_code(table_key(i)) matches Some(c) && code_of(c) == table_key(i),
{
    lemma_country_with_code(table_entry(i), table_key(i));
}

impl Country {
    /// Reads a country from its alpha-2 code, compared byte for byte with
    /// the codes of the table: no trimming and no case folding. The empty
    /// string reads as `Unspecified`.
    pub fn parse(s: &str) -> (r: Result<Country, CountryParseError>)
        ensures
            match r {
                Ok(c) => country_with_code(s@) == Some(c),
                Err(CountryParseError::InvalidCountryCode(t)) => {
                    &&& country_with_code(s@) is None
                    &&& t@ == s@
                },
            },
    {
        let b = s.as_bytes();
        proof {
            encode_utf8_decode_utf8(s@);
        }
        if b.len() == 0 {
            proof {
                assert(s@ =~= code_of(Country::Unspecified));
                lemma_country_with_code(Country::Unspecified, s@);
            }
            return Ok(Country::Unspecified);
        }
        if b.len() == 2 {
            let k = (b[0] as u32) * 256 + (b[1] as u32);
            if let Some(c) = search(k) {
                proof {
                    lemma_code_shape(c);
                    lemma_alpha2_bytes(code_of(c));
                    assert(b@ =~= encode_utf8(code_of(c)));
                    encode_utf8_decode_utf8(code_of(c));
                    lemma_country_with_code(c, s@);
                }
                return Ok(c);
            }
        }
        proof {
            assert forall|c: Country| code_of(c) != s@ by {
                lemma_code_shape(c);
                if c != Country::Unspecified && code_of(c) == s@ {
                    lemma_alpha2_bytes(code_of(c));
                    assert(pair_key(code_of(c)) == (b@[0] as u32) * 256 + (b@[1] as u32));
                }
            }
        }
        Err(CountryParseError::InvalidCountryCode(s.to_owned()))
    }
}

impl std::str::FromStr for Country {
    type Err = CountryParseError;

    fn from_str(s: &str) -> (r: Result<Country, CountryParseError>)
        ensures
            match r {
                Ok(c) => country_with_code(s@) == Some(c),
                Err(CountryParseError::InvalidCountryCode(t)) => {
                    &&& country_with_code(s@) is None
                    &&& t@ == s@
                },
            },
    {
        Country::parse(s)
    }
}

} // verus!
