//! The code table: every country keyed by its alpha-2 code, in strictly
//! increasing order of the code, and the parsing of codes by binary search
//! over it.

use vstd::prelude::*;
use vstd::utf8::{encode_utf8, is_ascii_chars, is_ascii_chars_encode_utf8};
use crate::country::{Country, code_of};

verus! {

/// The number of entries of the code table: one per country.
pub const TABLE_LEN: usize = 250;

/// The country at position `i` of the code table.
pub open spec fn table_entry(i: int) -> Country {
    if i == 0 {
        Country::Unspecified
    } else if i == 1 {
        Country::AD
    } else if i == 2 {
        Country::AE
    } else if i == 3 {
        Country::AF
    } else if i == 4 {
        Country::AG
    } else if i == 5 {
        Country::AI
    } else if i == 6 {
        Country::AL
    } else if i == 7 {
        Country::AM
    } else if i == 8 {
        Country::AO
    } else if i == 9 {
        Country::AQ
    } else if i == 10 {
        Country::AR
    } else if i == 11 {
        Country::AS
    } else if i == 12 {
        Country::AT
    } else if i == 13 {
        Country::AU
    } else if i == 14 {
        Country::AW
    } else if i == 15 {
        Country::AX
    } else if i == 16 {
        Country::AZ
    } else if i == 17 {
        Country::BA
    } else if i == 18 {
        Country::BB
    } else if i == 19 {
        Country::BD
    } else if i == 20 {
        Country::BE
    } else if i == 21 {
        Country::BF
    } else if i == 22 {
        Country::BG
    } else if i == 23 {
        Country::BH
    } else if i == 24 {
        Country::BI
    } else if i == 25 {
        Country::BJ
    } else if i == 26 {
        Country::BL
    } else if i == 27 {
        Country::BM
    } else if i == 28 {
        Country::BN
    } else if i == 29 {
        Country::BO
    } else if i == 30 {
        Country::BQ
    } else if i == 31 {
        Country::BR
    } else if i == 32 {
        Country::BS
    } else if i == 33 {
        Country::BT
    } else if i == 34 {
        Country::BV
    } else if i == 35 {
        Country::BW
    } else if i == 36 {
        Country::BY
    } else if i == 37 {
        Country::BZ
    } else if i == 38 {
        Country::CA
    } else if i == 39 {
        Country::CC
    } else if i == 40 {
        Country::CD
    } else if i == 41 {
        Country::CF
    } else if i == 42 {
        Country::CG
    } else if i == 43 {
        Country::CH
    } else if i == 44 {
        Country::CI
    } else if i == 45 {
        Country::CK
    } else if i == 46 {
        Country::CL
    } else if i == 47 {
        Country::CM
    } else if i == 48 {
        Country::CN
    } else if i == 49 {
        Country::CO
    } else if i == 50 {
        Country::CR
    } else if i == 51 {
        Country::CU
    } else if i == 52 {
        Country::CV
    } else if i == 53 {
        Country::CW
    } else if i == 54 {
        Country::CX
    } else if i == 55 {
        Country::CY
    } else if i == 56 {
        Country::CZ
    } else if i == 57 {
        Country::DE
    } else if i == 58 {
        Country::DJ
    } else if i == 59 {
        Country::DK
    } else if i == 60 {
        Country::DM
    } else if i == 61 {
        Country::DO
    } else if i == 62 {
        Country::DZ
    } else if i == 63 {
        Country::EC
    } else if i == 64 {
        Country::EE
    } else if i == 65 {
        Country::EG
    } else if i == 66 {
        Country::EH
    } else if i == 67 {
        Country::ER
    } else if i == 68 {
        Country::ES
    } else if i == 69 {
        Country::ET
    } else if i == 70 {
        Country::FI
    } else if i == 71 {
        Country::FJ
    } else if i == 72 {
        Country::FK
    } else if i == 73 {
        Country::FM
    } else if i == 74 {
        Country::FO
    } else if i == 75 {
        Country::FR
    } else if i == 76 {
        Country::GA
    } else if i == 77 {
        Country::GB
    } else if i == 78 {
        Country::GD
    } else if i == 79 {
        Country::GE
    } else if i == 80 {
        Country::GF
    } else if i == 81 {
        Country::GG
    } else if i == 82 {
        Country::GH
    } else if i == 83 {
        Country::GI
    } else if i == 84 {
        Country::GL
    } else if i == 85 {
        Country::GM
    } else if i == 86 {
        Country::GN
    } else if i == 87 {
        Country::GP
    } else if i == 88 {
        Country::GQ
    } else if i == 89 {
        Country::GR
    } else if i == 90 {
        Country::GS
    } else if i == 91 {
        Country::GT
    } else if i == 92 {
        Country::GU
    } else if i == 93 {
        Country::GW
    } else if i == 94 {
        Country::GY
    } else if i == 95 {
        Country::HK
    } else if i == 96 {
        Country::HM
    } else if i == 97 {
        Country::HN
    } else if i == 98 {
        Country::HR
    } else if i == 99 {
        Country::HT
    } else if i == 100 {
        Country::HU
    } else if i == 101 {
        Country::ID
    } else if i == 102 {
        Country::IE
    } else if i == 103 {
        Country::IL
    } else if i == 104 {
        Country::IM
    } else if i == 105 {
        Country::IN
    } else if i == 106 {
        Country::IO
    } else if i == 107 {
        Country::IQ
    } else if i == 108 {
        Country::IR
    } else if i == 109 {
        Country::IS
    } else if i == 110 {
        Country::IT
    } else if i == 111 {
        Country::JE
    } else if i == 112 {
        Country::JM
    } else if i == 113 {
        Country::JO
    } else if i == 114 {
        Country::JP
    } else if i == 115 {
        Country::KE
    } else if i == 116 {
        Country::KG
    } else if i == 117 {
        Country::KH
    } else if i == 118 {
        Country::KI
    } else if i == 119 {
        Country::KM
    } else if i == 120 {
        Country::KN
    } else if i == 121 {
        Country::KP
    } else if i == 122 {
        Country::KR
    } else if i == 123 {
        Country::KW
    } else if i == 124 {
        Country::KY
    } else if i == 125 {
        Country::KZ
    } else if i == 126 {
        Country::LA
    } else if i == 127 {
        Country::LB
    } else if i == 128 {
        Country::LC
    } else if i == 129 {
        Country::LI
    } else if i == 130 {
        Country::LK
    } else if i == 131 {
        Country::LR
    } else if i == 132 {
        Country::LS
    } else if i == 133 {
        Country::LT
    } else if i == 134 {
        Country::LU
    } else if i == 135 {
        Country::LV
    } else if i == 136 {
        Country::LY
    } else if i == 137 {
        Country::MA
    } else if i == 138 {
        Country::MC
    } else if i == 139 {
        Country::MD
    } else if i == 140 {
        Country::ME
    } else if i == 141 {
        Country::MF
    } else if i == 142 {
        Country::MG
    } else if i == 143 {
        Country::MH
    } else if i == 144 {
        Country::MK
    } else if i == 145 {
        Country::ML
    } else if i == 146 {
        Country::MM
    } else if i == 147 {
        Country::MN
    } else if i == 148 {
        Country::MO
    } else if i == 149 {
        Country::MP
    } else if i == 150 {
        Country::MQ
    } else if i == 151 {
        Country::MR
    } else if i == 152 {
        Country::MS
    } else if i == 153 {
        Country::MT
    } else if i == 154 {
        Country::MU
    } else if i == 155 {
        Country::MV
    } else if i == 156 {
        Country::MW
    } else if i == 157 {
        Country::MX
    } else if i == 158 {
        Country::MY
    } else if i == 159 {
        Country::MZ
    } else if i == 160 {
        Country::NA
    } else if i == 161 {
        Country::NC
    } else if i == 162 {
        Country::NE
    } else if i == 163 {
        Country::NF
    } else if i == 164 {
        Country::NG
    } else if i == 165 {
        Country::NI
    } else if i == 166 {
        Country::NL
    } else if i == 167 {
        Country::NO
    } else if i == 168 {
        Country::NP
    } else if i == 169 {
        Country::NR
    } else if i == 170 {
        Country::NU
    } else if i == 171 {
        Country::NZ
    } else if i == 172 {
        Country::OM
    } else if i == 173 {
        Country::PA
    } else if i == 174 {
        Country::PE
    } else if i == 175 {
        Country::PF
    } else if i == 176 {
        Country::PG
    } else if i == 177 {
        Country::PH
    } else if i == 178 {
        Country::PK
    } else if i == 179 {
        Country::PL
    } else if i == 180 {
        Country::PM
    } else if i == 181 {
        Country::PN
    } else if i == 182 {
        Country::PR
    } else if i == 183 {
        Country::PS
    } else if i == 184 {
        Country::PT
    } else if i == 185 {
        Country::PW
    } else if i == 186 {
        Country::PY
    } else if i == 187 {
        Country::QA
    } else if i == 188 {
        Country::RE
    } else if i == 189 {
        Country::RO
    } else if i == 190 {
        Country::RS
    } else if i == 191 {
        Country::RU
    } else if i == 192 {
        Country::RW
    } else if i == 193 {
        Country::SA
    } else if i == 194 {
        Country::SB
    } else if i == 195 {
        Country::SC
    } else if i == 196 {
        Country::SD
    } else if i == 197 {
        Country::SE
    } else if i == 198 {
        Country::SG
    } else if i == 199 {
        Country::SH
    } else if i == 200 {
        Country::SI
    } else if i == 201 {
        Country::SJ
    } else if i == 202 {
        Country::SK
    } else if i == 203 {
        Country::SL
    } else if i == 204 {
        Country::SM
    } else if i == 205 {
        Country::SN
    } else if i == 206 {
        Country::SO
    } else if i == 207 {
        Country::SR
    } else if i == 208 {
        Country::SS
    } else if i == 209 {
        Country::ST
    } else if i == 210 {
        Country::SV
    } else if i == 211 {
        Country::SX
    } else if i == 212 {
        Country::SY
    } else if i == 213 {
        Country::SZ
    } else if i == 214 {
        Country::TC
    } else if i == 215 {
        Country::TD
    } else if i == 216 {
        Country::TF
    } else if i == 217 {
        Country::TG
    } else if i == 218 {
        Country::TH
    } else if i == 219 {
        Country::TJ
    } else if i == 220 {
        Country::TK
    } else if i == 221 {
        Country::TL
    } else if i == 222 {
        Country::TM
    } else if i == 223 {
        Country::TN
    } else if i == 224 {
        Country::TO
    } else if i == 225 {
        Country::TR
    } else if i == 226 {
        Country::TT
    } else if i == 227 {
        Country::TV
    } else if i == 228 {
        Country::TW
    } else if i == 229 {
        Country::TZ
    } else if i == 230 {
        Country::UA
    } else if i == 231 {
        Country::UG
    } else if i == 232 {
        Country::UM
    } else if i == 233 {
        Country::US
    } else if i == 234 {
        Country::UY
    } else if i == 235 {
        Country::UZ
    } else if i == 236 {
        Country::VA
    } else if i == 237 {
        Country::VC
    } else if i == 238 {
        Country::VE
    } else if i == 239 {
        Country::VG
    } else if i == 240 {
        Country::VI
    } else if i == 241 {
        Country::VN
    } else if i == 242 {
        Country::VU
    } else if i == 243 {
        Country::WF
    } else if i == 244 {
        Country::WS
    } else if i == 245 {
        Country::YE
    } else if i == 246 {
        Country::YT
    } else if i == 247 {
        Country::ZA
    } else if i == 248 {
        Country::ZM
    } else {
        Country::ZW
    }
}

/// The position of a country in the code table.
pub open spec fn table_position(c: Country) -> int {
    match c {
        Country::Unspecified => 0,
        Country::AD => 1,
        Country::AE => 2,
        Country::AF => 3,
        Country::AG => 4,
        Country::AI => 5,
        Country::AL => 6,
        Country::AM => 7,
        Country::AO => 8,
        Country::AQ => 9,
        Country::AR => 10,
        Country::AS => 11,
        Country::AT => 12,
        Country::AU => 13,
        Country::AW => 14,
        Country::AX => 15,
        Country::AZ => 16,
        Country::BA => 17,
        Country::BB => 18,
        Country::BD => 19,
        Country::BE => 20,
        Country::BF => 21,
        Country::BG => 22,
        Country::BH => 23,
        Country::BI => 24,
        Country::BJ => 25,
        Country::BL => 26,
        Country::BM => 27,
        Country::BN => 28,
        Country::BO => 29,
        Country::BQ => 30,
        Country::BR => 31,
        Country::BS => 32,
        Country::BT => 33,
        Country::BV => 34,
        Country::BW => 35,
        Country::BY => 36,
        Country::BZ => 37,
        Country::CA => 38,
        Country::CC => 39,
        Country::CD => 40,
        Country::CF => 41,
        Country::CG => 42,
        Country::CH => 43,
        Country::CI => 44,
        Country::CK => 45,
        Country::CL => 46,
        Country::CM => 47,
        Country::CN => 48,
        Country::CO => 49,
        Country::CR => 50,
        Country::CU => 51,
        Country::CV => 52,
        Country::CW => 53,
        Country::CX => 54,
        Country::CY => 55,
        Country::CZ => 56,
        Country::DE => 57,
        Country::DJ => 58,
        Country::DK => 59,
        Country::DM => 60,
        Country::DO => 61,
        Country::DZ => 62,
        Country::EC => 63,
        Country::EE => 64,
        Country::EG => 65,
        Country::EH => 66,
        Country::ER => 67,
        Country::ES => 68,
        Country::ET => 69,
        Country::FI => 70,
        Country::FJ => 71,
        Country::FK => 72,
        Country::FM => 73,
        Country::FO => 74,
        Country::FR => 75,
        Country::GA => 76,
        Country::GB => 77,
        Country::GD => 78,
        Country::GE => 79,
        Country::GF => 80,
        Country::GG => 81,
        Country::GH => 82,
        Country::GI => 83,
        Country::GL => 84,
        Country::GM => 85,
        Country::GN => 86,
        Country::GP => 87,
        Country::GQ => 88,
        Country::GR => 89,
        Country::GS => 90,
        Country::GT => 91,
        Country::GU => 92,
        Country::GW => 93,
        Country::GY => 94,
        Country::HK => 95,
        Country::HM => 96,
        Country::HN => 97,
        Country::HR => 98,
        Country::HT => 99,
        Country::HU => 100,
        Country::ID => 101,
        Country::IE => 102,
        Country::IL => 103,
        Country::IM => 104,
        Country::IN => 105,
        Country::IO => 106,
        Country::IQ => 107,
        Country::IR => 108,
        Country::IS => 109,
        Country::IT => 110,
        Country::JE => 111,
        Country::JM => 112,
        Country::JO => 113,
        Country::JP => 114,
        Country::KE => 115,
        Country::KG => 116,
        Country::KH => 117,
        Country::KI => 118,
        Country::KM => 119,
        Country::KN => 120,
        Country::KP => 121,
        Country::KR => 122,
        Country::KW => 123,
        Country::KY => 124,
        Country::KZ => 125,
        Country::LA => 126,
        Country::LB => 127,
        Country::LC => 128,
        Country::LI => 129,
        Country::LK => 130,
        Country::LR => 131,
        Country::LS => 132,
        Country::LT => 133,
        Country::LU => 134,
        Country::LV => 135,
        Country::LY => 136,
        Country::MA => 137,
        Country::MC => 138,
        Country::MD => 139,
        Country::ME => 140,
        Country::MF => 141,
        Country::MG => 142,
        Country::MH => 143,
        Country::MK => 144,
        Country::ML => 145,
        Country::MM => 146,
        Country::MN => 147,
        Country::MO => 148,
        Country::MP => 149,
        Country::MQ => 150,
        Country::MR => 151,
        Country::MS => 152,
        Country::MT => 153,
        Country::MU => 154,
        Country::MV => 155,
        Country::MW => 156,
        Country::MX => 157,
        Country::MY => 158,
        Country::MZ => 159,
        Country::NA => 160,
        Country::NC => 161,
        Country::NE => 162,
        Country::NF => 163,
        Country::NG => 164,
        Country::NI => 165,
        Country::NL => 166,
        Country::NO => 167,
        Country::NP => 168,
        Country::NR => 169,
        Country::NU => 170,
        Country::NZ => 171,
        Country::OM => 172,
        Country::PA => 173,
        Country::PE => 174,
        Country::PF => 175,
        Country::PG => 176,
        Country::PH => 177,
        Country::PK => 178,
        Country::PL => 179,
        Country::PM => 180,
        Country::PN => 181,
        Country::PR => 182,
        Country::PS => 183,
        Country::PT => 184,
        Country::PW => 185,
        Country::PY => 186,
        Country::QA => 187,
        Country::RE => 188,
        Country::RO => 189,
        Country::RS => 190,
        Country::RU => 191,
        Country::RW => 192,
        Country::SA => 193,
        Country::SB => 194,
        Country::SC => 195,
        Country::SD => 196,
        Country::SE => 197,
        Country::SG => 198,
        Country::SH => 199,
        Country::SI => 200,
        Country::SJ => 201,
        Country::SK => 202,
        Country::SL => 203,
        Country::SM => 204,
        Country::SN => 205,
        Country::SO => 206,
        Country::SR => 207,
        Country::SS => 208,
        Country::ST => 209,
        Country::SV => 210,
        Country::SX => 211,
        Country::SY => 212,
        Country::SZ => 213,
        Country::TC => 214,
        Country::TD => 215,
        Country::TF => 216,
        Country::TG => 217,
        Country::TH => 218,
        Country::TJ => 219,
        Country::TK => 220,
        Country::TL => 221,
        Country::TM => 222,
        Country::TN => 223,
        Country::TO => 224,
        Country::TR => 225,
        Country::TT => 226,
        Country::TV => 227,
        Country::TW => 228,
        Country::TZ => 229,
        Country::UA => 230,
        Country::UG => 231,
        Country::UM => 232,
        Country::US => 233,
        Country::UY => 234,
        Country::UZ => 235,
        Country::VA => 236,
        Country::VC => 237,
        Country::VE => 238,
        Country::VG => 239,
        Country::VI => 240,
        Country::VN => 241,
        Country::VU => 242,
        Country::WF => 243,
        Country::WS => 244,
        Country::YE => 245,
        Country::YT => 246,
        Country::ZA => 247,
        Country::ZM => 248,
        Country::ZW => 249,
    }
}

/// The key at position `i` of the code table.
pub open spec fn table_key(i: int) -> Seq<char> {
    code_of(table_entry(i))
}

/// The two-letter codes as numbers: the first letter's byte times 256 plus
/// the second's, which orders them as their strings are ordered.
pub open spec fn pair_key(s: Seq<char>) -> int {
    (s[0] as u8) as int * 256 + (s[1] as u8) as int
}

/// A code of two capital ASCII letters.
pub open spec fn is_alpha2(s: Seq<char>) -> bool {
    &&& s.len() == 2
    &&& 'A' <= s[0] <= 'Z'
    &&& 'A' <= s[1] <= 'Z'
}

/// Every country stands in the code table, at its position.
pub proof fn lemma_table_covers(c: Country)
    ensures
        0 <= table_position(c) < TABLE_LEN,
        table_entry(table_position(c)) == c,
{
}

/// Every code but `Unspecified`'s is made of two capital letters.
pub proof fn lemma_code_shape(c: Country)
    ensures
        c != Country::Unspecified ==> is_alpha2(code_of(c)),
        c == Country::Unspecified ==> code_of(c).len() == 0,
{
}

/// The entry after a country in the code table has the greater key.
#[verifier::rlimit(100)]
proof fn lemma_next_key(c: Country)
    requires
        1 <= table_position(c) < TABLE_LEN - 1,
    ensures
        table_position(table_entry(table_position(c) + 1)) == table_position(c) + 1,
        pair_key(code_of(c)) < pair_key(code_of(table_entry(table_position(c) + 1))),
{
    // One case per country, so that each case is a fact about known entries.
    match c {
        Country::Unspecified => {},
        Country::AD => {},
        Country::AE => {},
        Country::AF => {},
        Country::AG => {},
        Country::AI => {},
        Country::AL => {},
        Country::AM => {},
        Country::AO => {},
        Country::AQ => {},
        Country::AR => {},
        Country::AS => {},
        Country::AT => {},
        Country::AU => {},
        Country::AW => {},
        Country::AX => {},
        Country::AZ => {},
        Country::BA => {},
        Country::BB => {},
        Country::BD => {},
        Country::BE => {},
        Country::BF => {},
        Country::BG => {},
        Country::BH => {},
        Country::BI => {},
        Country::BJ => {},
        Country::BL => {},
        Country::BM => {},
        Country::BN => {},
        Country::BO => {},
        Country::BQ => {},
        Country::BR => {},
        Country::BS => {},
        Country::BT => {},
        Country::BV => {},
        Country::BW => {},
        Country::BY => {},
        Country::BZ => {},
        Country::CA => {},
        Country::CC => {},
        Country::CD => {},
        Country::CF => {},
        Country::CG => {},
        Country::CH => {},
        Country::CI => {},
        Country::CK => {},
        Country::CL => {},
        Country::CM => {},
        Country::CN => {},
        Country::CO => {},
        Country::CR => {},
        Country::CU => {},
        Country::CV => {},
        Country::CW => {},
        Country::CX => {},
        Country::CY => {},
        Country::CZ => {},
        Country::DE => {},
        Country::DJ => {},
        Country::DK => {},
        Country::DM => {},
        Country::DO => {},
        Country::DZ => {},
        Country::EC => {},
        Country::EE => {},
        Country::EG => {},
        Country::EH => {},
        Country::ER => {},
        Country::ES => {},
        Country::ET => {},
        Country::FI => {},
        Country::FJ => {},
        Country::FK => {},
        Country::FM => {},
        Country::FO => {},
        Country::FR => {},
        Country::GA => {},
        Country::GB => {},
        Country::GD => {},
        Country::GE => {},
        Country::GF => {},
        Country::GG => {},
        Country::GH => {},
        Country::GI => {},
        Country::GL => {},
        Country::GM => {},
        Country::GN => {},
        Country::GP => {},
        Country::GQ => {},
        Country::GR => {},
        Country::GS => {},
        Country::GT => {},
        Country::GU => {},
        Country::GW => {},
        Country::GY => {},
        Country::HK => {},
        Country::HM => {},
        Country::HN => {},
        Country::HR => {},
        Country::HT => {},
        Country::HU => {},
        Country::ID => {},
        Country::IE => {},
        Country::IL => {},
        Country::IM => {},
        Country::IN => {},
        Country::IO => {},
        Country::IQ => {},
        Country::IR => {},
        Country::IS => {},
        Country::IT => {},
        Country::JE => {},
        Country::JM => {},
        Country::JO => {},
        Country::JP => {},
        Country::KE => {},
        Country::KG => {},
        Country::KH => {},
        Country::KI => {},
        Country::KM => {},
        Country::KN => {},
        Country::KP => {},
        Country::KR => {},
        Country::KW => {},
        Country::KY => {},
        Country::KZ => {},
        Country::LA => {},
        Country::LB => {},
        Country::LC => {},
        Country::LI => {},
        Country::LK => {},
        Country::LR => {},
        Country::LS => {},
        Country::LT => {},
        Country::LU => {},
        Country::LV => {},
        Country::LY => {},
        Country::MA => {},
        Country::MC => {},
        Country::MD => {},
        Country::ME => {},
        Country::MF => {},
        Country::MG => {},
        Country::MH => {},
        Country::MK => {},
        Country::ML => {},
        Country::MM => {},
        Country::MN => {},
        Country::MO => {},
        Country::MP => {},
        Country::MQ => {},
        Country::MR => {},
        Country::MS => {},
        Country::MT => {},
        Country::MU => {},
        Country::MV => {},
        Country::MW => {},
        Country::MX => {},
        Country::MY => {},
        Country::MZ => {},
        Country::NA => {},
        Country::NC => {},
        Country::NE => {},
        Country::NF => {},
        Country::NG => {},
        Country::NI => {},
        Country::NL => {},
        Country::NO => {},
        Country::NP => {},
        Country::NR => {},
        Country::NU => {},
        Country::NZ => {},
        Country::OM => {},
        Country::PA => {},
        Country::PE => {},
        Country::PF => {},
        Country::PG => {},
        Country::PH => {},
        Country::PK => {},
        Country::PL => {},
        Country::PM => {},
        Country::PN => {},
        Country::PR => {},
        Country::PS => {},
        Country::PT => {},
        Country::PW => {},
        Country::PY => {},
        Country::QA => {},
        Country::RE => {},
        Country::RO => {},
        Country::RS => {},
        Country::RU => {},
        Country::RW => {},
        Country::SA => {},
        Country::SB => {},
        Country::SC => {},
        Country::SD => {},
        Country::SE => {},
        Country::SG => {},
        Country::SH => {},
        Country::SI => {},
        Country::SJ => {},
        Country::SK => {},
        Country::SL => {},
        Country::SM => {},
        Country::SN => {},
        Country::SO => {},
        Country::SR => {},
        Country::SS => {},
        Country::ST => {},
        Country::SV => {},
        Country::SX => {},
        Country::SY => {},
        Country::SZ => {},
        Country::TC => {},
        Country::TD => {},
        Country::TF => {},
        Country::TG => {},
        Country::TH => {},
        Country::TJ => {},
        Country::TK => {},
        Country::TL => {},
        Country::TM => {},
        Country::TN => {},
        Country::TO => {},
        Country::TR => {},
        Country::TT => {},
        Country::TV => {},
        Country::TW => {},
        Country::TZ => {},
        Country::UA => {},
        Country::UG => {},
        Country::UM => {},
        Country::US => {},
        Country::UY => {},
        Country::UZ => {},
        Country::VA => {},
        Country::VC => {},
        Country::VE => {},
        Country::VG => {},
        Country::VI => {},
        Country::VN => {},
        Country::VU => {},
        Country::WF => {},
        Country::WS => {},
        Country::YE => {},
        Country::YT => {},
        Country::ZA => {},
        Country::ZM => {},
        Country::ZW => {},
    }
}

/// The code table, read at position `i`.
#[verifier::rlimit(100)]
pub(crate) fn table_row(i: usize) -> (r: Country)
    requires
        i < TABLE_LEN,
    ensures
        table_position(r) == i,
{
    match i {
        0 => Country::Unspecified,
        1 => Country::AD,
        2 => Country::AE,
        3 => Country::AF,
        4 => Country::AG,
        5 => Country::AI,
        6 => Country::AL,
        7 => Country::AM,
        8 => Country::AO,
        9 => Country::AQ,
        10 => Country::AR,
        11 => Country::AS,
        12 => Country::AT,
        13 => Country::AU,
        14 => Country::AW,
        15 => Country::AX,
        16 => Country::AZ,
        17 => Country::BA,
        18 => Country::BB,
        19 => Country::BD,
        20 => Country::BE,
        21 => Country::BF,
        22 => Country::BG,
        23 => Country::BH,
        24 => Country::BI,
        25 => Country::BJ,
        26 => Country::BL,
        27 => Country::BM,
        28 => Country::BN,
        29 => Country::BO,
        30 => Country::BQ,
        31 => Country::BR,
        32 => Country::BS,
        33 => Country::BT,
        34 => Country::BV,
        35 => Country::BW,
        36 => Country::BY,
        37 => Country::BZ,
        38 => Country::CA,
        39 => Country::CC,
        40 => Country::CD,
        41 => Country::CF,
        42 => Country::CG,
        43 => Country::CH,
        44 => Country::CI,
        45 => Country::CK,
        46 => Country::CL,
        47 => Country::CM,
        48 => Country::CN,
        49 => Country::CO,
        50 => Country::CR,
        51 => Country::CU,
        52 => Country::CV,
        53 => Country::CW,
        54 => Country::CX,
        55 => Country::CY,
        56 => Country::CZ,
        57 => Country::DE,
        58 => Country::DJ,
        59 => Country::DK,
        60 => Country::DM,
        61 => Country::DO,
        62 => Country::DZ,
        63 => Country::EC,
        64 => Country::EE,
        65 => Country::EG,
        66 => Country::EH,
        67 => Country::ER,
        68 => Country::ES,
        69 => Country::ET,
        70 => Country::FI,
        71 => Country::FJ,
        72 => Country::FK,
        73 => Country::FM,
        74 => Country::FO,
        75 => Country::FR,
        76 => Country::GA,
        77 => Country::GB,
        78 => Country::GD,
        79 => Country::GE,
        80 => Country::GF,
        81 => Country::GG,
        82 => Country::GH,
        83 => Country::GI,
        84 => Country::GL,
        85 => Country::GM,
        86 => Country::GN,
        87 => Country::GP,
        88 => Country::GQ,
        89 => Country::GR,
        90 => Country::GS,
        91 => Country::GT,
        92 => Country::GU,
        93 => Country::GW,
        94 => Country::GY,
        95 => Country::HK,
        96 => Country::HM,
        97 => Country::HN,
        98 => Country::HR,
        99 => Country::HT,
        100 => Country::HU,
        101 => Country::ID,
        102 => Country::IE,
        103 => Country::IL,
        104 => Country::IM,
        105 => Country::IN,
        106 => Country::IO,
        107 => Country::IQ,
        108 => Country::IR,
        109 => Country::IS,
        110 => Country::IT,
        111 => Country::JE,
        112 => Country::JM,
        113 => Country::JO,
        114 => Country::JP,
        115 => Country::KE,
        116 => Country::KG,
        117 => Country::KH,
        118 => Country::KI,
        119 => Country::KM,
        120 => Country::KN,
        121 => Country::KP,
        122 => Country::KR,
        123 => Country::KW,
        124 => Country::KY,
        125 => Country::KZ,
        126 => Country::LA,
        127 => Country::LB,
        128 => Country::LC,
        129 => Country::LI,
        130 => Country::LK,
        131 => Country::LR,
        132 => Country::LS,
        133 => Country::LT,
        134 => Country::LU,
        135 => Country::LV,
        136 => Country::LY,
        137 => Country::MA,
        138 => Country::MC,
        139 => Country::MD,
        140 => Country::ME,
        141 => Country::MF,
        142 => Country::MG,
        143 => Country::MH,
        144 => Country::MK,
        145 => Country::ML,
        146 => Country::MM,
        147 => Country::MN,
        148 => Country::MO,
        149 => Country::MP,
        150 => Country::MQ,
        151 => Country::MR,
        152 => Country::MS,
        153 => Country::MT,
        154 => Country::MU,
        155 => Country::MV,
        156 => Country::MW,
        157 => Country::MX,
        158 => Country::MY,
        159 => Country::MZ,
        160 => Country::NA,
        161 => Country::NC,
        162 => Country::NE,
        163 => Country::NF,
        164 => Country::NG,
        165 => Country::NI,
        166 => Country::NL,
        167 => Country::NO,
        168 => Country::NP,
        169 => Country::NR,
        170 => Country::NU,
        171 => Country::NZ,
        172 => Country::OM,
        173 => Country::PA,
        174 => Country::PE,
        175 => Country::PF,
        176 => Country::PG,
        177 => Country::PH,
        178 => Country::PK,
        179 => Country::PL,
        180 => Country::PM,
        181 => Country::PN,
        182 => Country::PR,
        183 => Country::PS,
        184 => Country::PT,
        185 => Country::PW,
        186 => Country::PY,
        187 => Country::QA,
        188 => Country::RE,
        189 => Country::RO,
        190 => Country::RS,
        191 => Country::RU,
        192 => Country::RW,
        193 => Country::SA,
        194 => Country::SB,
        195 => Country::SC,
        196 => Country::SD,
        197 => Country::SE,
        198 => Country::SG,
        199 => Country::SH,
        200 => Country::SI,
        201 => Country::SJ,
        202 => Country::SK,
        203 => Country::SL,
        204 => Country::SM,
        205 => Country::SN,
        206 => Country::SO,
        207 => Country::SR,
        208 => Country::SS,
        209 => Country::ST,
        210 => Country::SV,
        211 => Country::SX,
        212 => Country::SY,
        213 => Country::SZ,
        214 => Country::TC,
        215 => Country::TD,
        216 => Country::TF,
        217 => Country::TG,
        218 => Country::TH,
        219 => Country::TJ,
        220 => Country::TK,
        221 => Country::TL,
        222 => Country::TM,
        223 => Country::TN,
        224 => Country::TO,
        225 => Country::TR,
        226 => Country::TT,
        227 => Country::TV,
        228 => Country::TW,
        229 => Country::TZ,
        230 => Country::UA,
        231 => Country::UG,
        232 => Country::UM,
        233 => Country::US,
        234 => Country::UY,
        235 => Country::UZ,
        236 => Country::VA,
        237 => Country::VC,
        238 => Country::VE,
        239 => Country::VG,
        240 => Country::VI,
        241 => Country::VN,
        242 => Country::VU,
        243 => Country::WF,
        244 => Country::WS,
        245 => Country::YE,
        246 => Country::YT,
        247 => Country::ZA,
        248 => Country::ZM,
        _ => Country::ZW,
    }
}

/// Distinct countries stand at distinct positions of the code table.
pub proof fn lemma_position_injective(a: Country, b: Country)
    ensures
        table_position(a) == table_position(b) ==> a == b,
{
    lemma_table_covers(a);
    lemma_table_covers(b);
}

/// Past `Unspecified`, the keys grow with the position in the code table.
proof fn lemma_keys_increasing(a: Country, b: Country)
    requires
        1 <= table_position(a) < table_position(b),
    ensures
        pair_key(code_of(a)) < pair_key(code_of(b)),
    decreases table_position(b) - table_position(a),
{
    lemma_table_covers(b);
    lemma_next_key(a);
    let d = table_entry(table_position(a) + 1);
    if table_position(d) < table_position(b) {
        lemma_keys_increasing(d, b);
    } else {
        lemma_position_injective(d, b);
    }
}

/// No two countries share an alpha-2 code.
pub proof fn lemma_codes_unique(a: Country, b: Country)
    ensures
        code_of(a) == code_of(b) ==> a == b,
{
    lemma_code_shape(a);
    lemma_code_shape(b);
    lemma_table_covers(a);
    lemma_table_covers(b);
    if a != b && a != Country::Unspecified && b != Country::Unspecified {
        lemma_position_injective(a, b);
        if table_position(a) < table_position(b) {
            lemma_keys_increasing(a, b);
        } else {
            lemma_keys_increasing(b, a);
        }
    }
}

/// Lexicographic order on codes: `a` comes strictly before `b`.
pub open spec fn lex_less(a: Seq<char>, b: Seq<char>) -> bool
    decreases a.len(),
{
    if b.len() == 0 {
        false
    } else if a.len() == 0 {
        true
    } else if a[0] != b[0] {
        a[0] < b[0]
    } else {
        lex_less(a.drop_first(), b.drop_first())
    }
}

/// The code table is strictly sorted: a country that stands before another
/// has the lexicographically smaller code. With every country in the table,
/// this leaves no room for a repeated key.
pub proof fn lemma_table_sorted(a: Country, b: Country)
    requires
        table_position(a) < table_position(b),
    ensures
        lex_less(code_of(a), code_of(b)),
{
    lemma_code_shape(a);
    lemma_code_shape(b);
    lemma_table_covers(a);
    reveal_with_fuel(lex_less, 3);
    if a == Country::Unspecified {
        assert(b != Country::Unspecified);
    } else {
        lemma_keys_increasing(a, b);
        let x = code_of(a);
        let y = code_of(b);
        assert(x.drop_first().drop_first().len() == 0);
        assert(y.drop_first().drop_first().len() == 0);
        assert(x.drop_first()[0] == x[1]);
        assert(y.drop_first()[0] == y[1]);
        if x[0] == y[0] {
            assert(x[1] < y[1]);
        }
    }
}

/// The bytes of a two-letter code are its letters.
pub(crate) proof fn lemma_alpha2_bytes(s: Seq<char>)
    requires
        is_alpha2(s),
    ensures
        encode_utf8(s) =~= seq![s[0] as u8, s[1] as u8],
{
    assert(is_ascii_chars(s));
    is_ascii_chars_encode_utf8(s);
}

/// The key of a country other than `Unspecified`, read from its code.
fn code_key(c: Country) -> (r: u32)
    requires
        c != Country::Unspecified,
    ensures
        r == pair_key(code_of(c)),
{
    let code = c.code();
    let b = code.as_bytes();
    proof {
        lemma_code_shape(c);
        lemma_alpha2_bytes(code_of(c));
    }
    (b[0] as u32) * 256 + (b[1] as u32)
}

/// Binary search of the code table, past its first entry, for the two-letter
/// code of key `k`.
pub(crate) fn search(k: u32) -> (r: Option<Country>)
    ensures
        match r {
            Some(c) => c != Country::Unspecified && pair_key(code_of(c)) == k,
            None => forall|c: Country|
                c != Country::Unspecified ==> pair_key(#[trigger] code_of(c)) != k,
        },
{
    let mut lo: usize = 1;
    let mut hi: usize = TABLE_LEN;
    while lo < hi
        invariant
            1 <= lo <= hi <= TABLE_LEN,
            forall|c: Country|
                1 <= #[trigger] table_position(c) < lo ==> pair_key(code_of(c)) < k,
            forall|c: Country|
                hi <= #[trigger] table_position(c) < TABLE_LEN ==> pair_key(code_of(c)) > k,
        decreases hi - lo,
    {
        let mid = lo + (hi - lo) / 2;
        let c = table_row(mid);
        let m = code_key(c);
        if m == k {
            return Some(c);
        } else if m < k {
            assert forall|d: Country| 1 <= #[trigger] table_position(d) < mid + 1 implies pair_key(
                code_of(d),
            ) < k by {
                if table_position(d) < mid {
                    lemma_keys_increasing(d, c);
                } else {
                    lemma_position_injective(d, c);
                }
            }
            lo = mid + 1;
        } else {
            assert forall|d: Country| mid <= #[trigger] table_position(d) < TABLE_LEN implies pair_key(
                code_of(d),
            ) > k by {
                if table_position(d) > mid {
                    lemma_keys_increasing(c, d);
                } else {
                    lemma_position_injective(d, c);
                }
            }
            hi = mid;
        }
    }
    assert forall|c: Country| c != Country::Unspecified implies pair_key(#[trigger] code_of(c)) != k by {
        lemma_table_covers(c);
    }
    None
}

} // verus!
