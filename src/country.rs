//! The closed set of ISO 3166-1 countries, with the alpha-2 code, the English
//! short name and the numeric code of each.

use vstd::prelude::*;

verus! {

/// A country, dependent territory or special area of ISO 3166-1, named by its
/// alpha-2 code; `Unspecified` stands for no country at all.
///
/// The variants are declared in the order of their alpha-2 codes, with
/// `Unspecified` (whose code is empty) first.
#[derive(Clone, Copy, Debug, PartialEq, Eq, Structural, Hash, PartialOrd, Ord)]
pub enum Country {
    Unspecified,
    AD,
    AE,
    AF,
    AG,
    AI,
    AL,
    AM,
    AO,
    AQ,
    AR,
    AS,
    AT,
    AU,
    AW,
    AX,
    AZ,
    BA,
    BB,
    BD,
    BE,
    BF,
    BG,
    BH,
    BI,
    BJ,
    BL,
    BM,
    BN,
    BO,
    BQ,
    BR,
    BS,
    BT,
    BV,
    BW,
    BY,
    BZ,
    CA,
    CC,
    CD,
    CF,
    CG,
    CH,
    CI,
    CK,
    CL,
    CM,
    CN,
    CO,
    CR,
    CU,
    CV,
    CW,
    CX,
    CY,
    CZ,
    DE,
    DJ,
    DK,
    DM,
    DO,
    DZ,
    EC,
    EE,
    EG,
    EH,
    ER,
    ES,
    ET,
    FI,
    FJ,
    FK,
    FM,
    FO,
    FR,
    GA,
    GB,
    GD,
    GE,
    GF,
    GG,
    GH,
    GI,
    GL,
    GM,
    GN,
    GP,
    GQ,
    GR,
    GS,
    GT,
    GU,
    GW,
    GY,
    HK,
    HM,
    HN,
    HR,
    HT,
    HU,
    ID,
    IE,
    IL,
    IM,
    IN,
    IO,
    IQ,
    IR,
    IS,
    IT,
    JE,
    JM,
    JO,
    JP,
    KE,
    KG,
    KH,
    KI,
    KM,
    KN,
    KP,
    KR,
    KW,
    KY,
    KZ,
    LA,
    LB,
    LC,
    LI,
    LK,
    LR,
    LS,
    LT,
    LU,
    LV,
    LY,
    MA,
    MC,
    MD,
    ME,
    MF,
    MG,
    MH,
    MK,
    ML,
    MM,
    MN,
    MO,
    MP,
    MQ,
    MR,
    MS,
    MT,
    MU,
    MV,
    MW,
    MX,
    MY,
    MZ,
    NA,
    NC,
    NE,
    NF,
    NG,
    NI,
    NL,
    NO,
    NP,
    NR,
    NU,
    NZ,
    OM,
    PA,
    PE,
    PF,
    PG,
    PH,
    PK,
    PL,
    PM,
    PN,
    PR,
    PS,
    PT,
    PW,
    PY,
    QA,
    RE,
    RO,
    RS,
    RU,
    RW,
    SA,
    SB,
    SC,
    SD,
    SE,
    SG,
    SH,
    SI,
    SJ,
    SK,
    SL,
    SM,
    SN,
    SO,
    SR,
    SS,
    ST,
    SV,
    SX,
    SY,
    SZ,
    TC,
    TD,
    TF,
    TG,
    TH,
    TJ,
    TK,
    TL,
    TM,
    TN,
    TO,
    TR,
    TT,
    TV,
    TW,
    TZ,
    UA,
    UG,
    UM,
    US,
    UY,
    UZ,
    VA,
    VC,
    VE,
    VG,
    VI,
    VN,
    VU,
    WF,
    WS,
    YE,
    YT,
    ZA,
    ZM,
    ZW,
}

/// The alpha-2 code of a country: two capital ASCII letters, or the empty
/// sequence for `Unspecified`.
pub open spec fn code_of(c: Country) -> Seq<char> {
    match c {
        Country::Unspecified => Seq::empty(),
        Country::AD => seq!['A', 'D'],
        Country::AE => seq!['A', 'E'],
        Country::AF => seq!['A', 'F'],
        Country::AG => seq!['A', 'G'],
        Country::AI => seq!['A', 'I'],
        Country::AL => seq!['A', 'L'],
        Country::AM => seq!['A', 'M'],
        Country::AO => seq!['A', 'O'],
        Country::AQ => seq!['A', 'Q'],
        Country::AR => seq!['A', 'R'],
        Country::AS => seq!['A', 'S'],
        Country::AT => seq!['A', 'T'],
        Country::AU => seq!['A', 'U'],
        Country::AW => seq!['A', 'W'],
        Country::AX => seq!['A', 'X'],
        Country::AZ => seq!['A', 'Z'],
        Country::BA => seq!['B', 'A'],
        Country::BB => seq!['B', 'B'],
        Country::BD => seq!['B', 'D'],
        Country::BE => seq!['B', 'E'],
        Country::BF => seq!['B', 'F'],
        Country::BG => seq!['B', 'G'],
        Country::BH => seq!['B', 'H'],
        Country::BI => seq!['B', 'I'],
        Country::BJ => seq!['B', 'J'],
        Country::BL => seq!['B', 'L'],
        Country::BM => seq!['B', 'M'],
        Country::BN => seq!['B', 'N'],
        Country::BO => seq!['B', 'O'],
        Country::BQ => seq!['B', 'Q'],
        Country::BR => seq!['B', 'R'],
        Country::BS => seq!['B', 'S'],
        Country::BT => seq!['B', 'T'],
        Country::BV => seq!['B', 'V'],
        Country::BW => seq!['B', 'W'],
        Country::BY => seq!['B', 'Y'],
        Country::BZ => seq!['B', 'Z'],
        Country::CA => seq!['C', 'A'],
        Country::CC => seq!['C', 'C'],
        Country::CD => seq!['C', 'D'],
        Country::CF => seq!['C', 'F'],
        Country::CG => seq!['C', 'G'],
        Country::CH => seq!['C', 'H'],
        Country::CI => seq!['C', 'I'],
        Country::CK => seq!['C', 'K'],
        Country::CL => seq!['C', 'L'],
        Country::CM => seq!['C', 'M'],
        Country::CN => seq!['C', 'N'],
        Country::CO => seq!['C', 'O'],
        Country::CR => seq!['C', 'R'],
        Country::CU => seq!['C', 'U'],
        Country::CV => seq!['C', 'V'],
        Country::CW => seq!['C', 'W'],
        Country::CX => seq!['C', 'X'],
        Country::CY => seq!['C', 'Y'],
        Country::CZ => seq!['C', 'Z'],
        Country::DE => seq!['D', 'E'],
        Country::DJ => seq!['D', 'J'],
        Country::DK => seq!['D', 'K'],
        Country::DM => seq!['D', 'M'],
        Country::DO => seq!['D', 'O'],
        Country::DZ => seq!['D', 'Z'],
        Country::EC => seq!['E', 'C'],
        Country::EE => seq!['E', 'E'],
        Country::EG => seq!['E', 'G'],
        Country::EH => seq!['E', 'H'],
        Country::ER => seq!['E', 'R'],
        Country::ES => seq!['E', 'S'],
        Country::ET => seq!['E', 'T'],
        Country::FI => seq!['F', 'I'],
        Country::FJ => seq!['F', 'J'],
        Country::FK => seq!['F', 'K'],
        Country::FM => seq!['F', 'M'],
        Country::FO => seq!['F', 'O'],
        Country::FR => seq!['F', 'R'],
        Country::GA => seq!['G', 'A'],
        Country::GB => seq!['G', 'B'],
        Country::GD => seq!['G', 'D'],
        Country::GE => seq!['G', 'E'],
        Country::GF => seq!['G', 'F'],
        Country::GG => seq!['G', 'G'],
        Country::GH => seq!['G', 'H'],
        Country::GI => seq!['G', 'I'],
        Country::GL => seq!['G', 'L'],
        Country::GM => seq!['G', 'M'],
        Country::GN => seq!['G', 'N'],
        Country::GP => seq!['G', 'P'],
        Country::GQ => seq!['G', 'Q'],
        Country::GR => seq!['G', 'R'],
        Country::GS => seq!['G', 'S'],
        Country::GT => seq!['G', 'T'],
        Country::GU => seq!['G', 'U'],
        Country::GW => seq!['G', 'W'],
        Country::GY => seq!['G', 'Y'],
        Country::HK => seq!['H', 'K'],
        Country::HM => seq!['H', 'M'],
        Country::HN => seq!['H', 'N'],
        Country::HR => seq!['H', 'R'],
        Country::HT => seq!['H', 'T'],
        Country::HU => seq!['H', 'U'],
        Country::ID => seq!['I', 'D'],
        Country::IE => seq!['I', 'E'],
        Country::IL => seq!['I', 'L'],
        Country::IM => seq!['I', 'M'],
        Country::IN => seq!['I', 'N'],
        Country::IO => seq!['I', 'O'],
        Country::IQ => seq!['I', 'Q'],
        Country::IR => seq!['I', 'R'],
        Country::IS => seq!['I', 'S'],
        Country::IT => seq!['I', 'T'],
        Country::JE => seq!['J', 'E'],
        Country::JM => seq!['J', 'M'],
        Country::JO => seq!['J', 'O'],
        Country::JP => seq!['J', 'P'],
        Country::KE => seq!['K', 'E'],
        Country::KG => seq!['K', 'G'],
        Country::KH => seq!['K', 'H'],
        Country::KI => seq!['K', 'I'],
        Country::KM => seq!['K', 'M'],
        Country::KN => seq!['K', 'N'],
        Country::KP => seq!['K', 'P'],
        Country::KR => seq!['K', 'R'],
        Country::KW => seq!['K', 'W'],
        Country::KY => seq!['K', 'Y'],
        Country::KZ => seq!['K', 'Z'],
        Country::LA => seq!['L', 'A'],
        Country::LB => seq!['L', 'B'],
        Country::LC => seq!['L', 'C'],
        Country::LI => seq!['L', 'I'],
        Country::LK => seq!['L', 'K'],
        Country::LR => seq!['L', 'R'],
        Country::LS => seq!['L', 'S'],
        Country::LT => seq!['L', 'T'],
        Country::LU => seq!['L', 'U'],
        Country::LV => seq!['L', 'V'],
        Country::LY => seq!['L', 'Y'],
        Country::MA => seq!['M', 'A'],
        Country::MC => seq!['M', 'C'],
        Country::MD => seq!['M', 'D'],
        Country::ME => seq!['M', 'E'],
        Country::MF => seq!['M', 'F'],
        Country::MG => seq!['M', 'G'],
        Country::MH => seq!['M', 'H'],
        Country::MK => seq!['M', 'K'],
        Country::ML => seq!['M', 'L'],
        Country::MM => seq!['M', 'M'],
        Country::MN => seq!['M', 'N'],
        Country::MO => seq!['M', 'O'],
        Country::MP => seq!['M', 'P'],
        Country::MQ => seq!['M', 'Q'],
        Country::MR => seq!['M', 'R'],
        Country::MS => seq!['M', 'S'],
        Country::MT => seq!['M', 'T'],
        Country::MU => seq!['M', 'U'],
        Country::MV => seq!['M', 'V'],
        Country::MW => seq!['M', 'W'],
        Country::MX => seq!['M', 'X'],
        Country::MY => seq!['M', 'Y'],
        Country::MZ => seq!['M', 'Z'],
        Country::NA => seq!['N', 'A'],
        Country::NC => seq!['N', 'C'],
        Country::NE => seq!['N', 'E'],
        Country::NF => seq!['N', 'F'],
        Country::NG => seq!['N', 'G'],
        Country::NI => seq!['N', 'I'],
        Country::NL => seq!['N', 'L'],
        Country::NO => seq!['N', 'O'],
        Country::NP => seq!['N', 'P'],
        Country::NR => seq!['N', 'R'],
        Country::NU => seq!['N', 'U'],
        Country::NZ => seq!['N', 'Z'],
        Country::OM => seq!['O', 'M'],
        Country::PA => seq!['P', 'A'],
        Country::PE => seq!['P', 'E'],
        Country::PF => seq!['P', 'F'],
        Country::PG => seq!['P', 'G'],
        Country::PH => seq!['P', 'H'],
        Country::PK => seq!['P', 'K'],
        Country::PL => seq!['P', 'L'],
        Country::PM => seq!['P', 'M'],
        Country::PN => seq!['P', 'N'],
        Country::PR => seq!['P', 'R'],
        Country::PS => seq!['P', 'S'],
        Country::PT => seq!['P', 'T'],
        Country::PW => seq!['P', 'W'],
        Country::PY => seq!['P', 'Y'],
        Country::QA => seq!['Q', 'A'],
        Country::RE => seq!['R', 'E'],
        Country::RO => seq!['R', 'O'],
        Country::RS => seq!['R', 'S'],
        Country::RU => seq!['R', 'U'],
        Country::RW => seq!['R', 'W'],
        Country::SA => seq!['S', 'A'],
        Country::SB => seq!['S', 'B'],
        Country::SC => seq!['S', 'C'],
        Country::SD => seq!['S', 'D'],
        Country::SE => seq!['S', 'E'],
        Country::SG => seq!['S', 'G'],
        Country::SH => seq!['S', 'H'],
        Country::SI => seq!['S', 'I'],
        Country::SJ => seq!['S', 'J'],
        Country::SK => seq!['S', 'K'],
        Country::SL => seq!['S', 'L'],
        Country::SM => seq!['S', 'M'],
        Country::SN => seq!['S', 'N'],
        Country::SO => seq!['S', 'O'],
        Country::SR => seq!['S', 'R'],
        Country::SS => seq!['S', 'S'],
        Country::ST => seq!['S', 'T'],
        Country::SV => seq!['S', 'V'],
        Country::SX => seq!['S', 'X'],
        Country::SY => seq!['S', 'Y'],
        Country::SZ => seq!['S', 'Z'],
        Country::TC => seq!['T', 'C'],
        Country::TD => seq!['T', 'D'],
        Country::TF => seq!['T', 'F'],
        Country::TG => seq!['T', 'G'],
        Country::TH => seq!['T', 'H'],
        Country::TJ => seq!['T', 'J'],
        Country::TK => seq!['T', 'K'],
        Country::TL => seq!['T', 'L'],
        Country::TM => seq!['T', 'M'],
        Country::TN => seq!['T', 'N'],
        Country::TO => seq!['T', 'O'],
        Country::TR => seq!['T', 'R'],
        Country::TT => seq!['T', 'T'],
        Country::TV => seq!['T', 'V'],
        Country::TW => seq!['T', 'W'],
        Country::TZ => seq!['T', 'Z'],
        Country::UA => seq!['U', 'A'],
        Country::UG => seq!['U', 'G'],
        Country::UM => seq!['U', 'M'],
        Country::US => seq!['U', 'S'],
        Country::UY => seq!['U', 'Y'],
        Country::UZ => seq!['U', 'Z'],
        Country::VA => seq!['V', 'A'],
        Country::VC => seq!['V', 'C'],
        Country::VE => seq!['V', 'E'],
        Country::VG => seq!['V', 'G'],
        Country::VI => seq!['V', 'I'],
        Country::VN => seq!['V', 'N'],
        Country::VU => seq!['V', 'U'],
        Country::WF => seq!['W', 'F'],
        Country::WS => seq!['W', 'S'],
        Country::YE => seq!['Y', 'E'],
        Country::YT => seq!['Y', 'T'],
        Country::ZA => seq!['Z', 'A'],
        Country::ZM => seq!['Z', 'M'],
        Country::ZW => seq!['Z', 'W'],
    }
}

/// The English short name of a country; empty for `Unspecified`.
pub open spec fn name_of(c: Country) -> Seq<char> {
    match c {
        Country::Unspecified => Seq::empty(),
        Country::AD => "Andorra"@,
        Country::AE => "United Arab Emirates"@,
        Country::AF => "Afghanistan"@,
        Country::AG => "Antigua and Barbuda"@,
        Country::AI => "Anguilla"@,
        Country::AL => "Albania"@,
        Country::AM => "Armenia"@,
        Country::AO => "Angola"@,
        Country::AQ => "Antarctica"@,
        Country::AR => "Argentina"@,
        Country::AS => "American Samoa"@,
        Country::AT => "Austria"@,
        Country::AU => "Australia"@,
        Country::AW => "Aruba"@,
        Country::AX => "Åland Islands"@,
        Country::AZ => "Azerbaijan"@,
        Country::BA => "Bosnia and Herzegovina"@,
        Country::BB => "Barbados"@,
        Country::BD => "Bangladesh"@,
        Country::BE => "Belgium"@,
        Country::BF => "Burkina Faso"@,
        Country::BG => "Bulgaria"@,
        Country::BH => "Bahrain"@,
        Country::BI => "Burundi"@,
        Country::BJ => "Benin"@,
        Country::BL => "Saint Barthélemy"@,
        Country::BM => "Bermuda"@,
        Country::BN => "Brunei Darussalam"@,
        Country::BO => "Bolivia (Plurinational State of)"@,
        Country::BQ => "Bonaire, Sint Eustatius and Saba"@,
        Country::BR => "Brazil"@,
        Country::BS => "Bahamas"@,
        Country::BT => "Bhutan"@,
        Country::BV => "Bouvet Island"@,
        Country::BW => "Botswana"@,
        Country::BY => "Belarus"@,
        Country::BZ => "Belize"@,
        Country::CA => "Canada"@,
        Country::CC => "Cocos (Keeling) Islands"@,
        Country::CD => "Congo (Democratic Republic of the)"@,
        Country::CF => "Central African Republic"@,
        Country::CG => "Congo"@,
        Country::CH => "Switzerland"@,
        Country::CI => "Côte d'Ivoire"@,
        Country::CK => "Cook Islands"@,
        Country::CL => "Chile"@,
        Country::CM => "Cameroon"@,
        Country::CN => "China"@,
        Country::CO => "Colombia"@,
        Country::CR => "Costa Rica"@,
        Country::CU => "Cuba"@,
        Country::CV => "Cabo Verde"@,
        Country::CW => "Curaçao"@,
        Country::CX => "Christmas Island"@,
        Country::CY => "Cyprus"@,
        Country::CZ => "Czech Republic"@,
        Country::DE => "Germany"@,
        Country::DJ => "Djibouti"@,
        Country::DK => "Denmark"@,
        Country::DM => "Dominica"@,
        Country::DO => "Dominican Republic"@,
        Country::DZ => "Algeria"@,
        Country::EC => "Ecuador"@,
        Country::EE => "Estonia"@,
        Country::EG => "Egypt"@,
        Country::EH => "Western Sahara"@,
        Country::ER => "Eritrea"@,
        Country::ES => "Spain"@,
        Country::ET => "Ethiopia"@,
        Country::FI => "Finland"@,
        Country::FJ => "Fiji"@,
        Country::FK => "Falkland Islands"@,
        Country::FM => "Micronesia (Federated States of)"@,
        Country::FO => "Faroe Islands"@,
        Country::FR => "France"@,
        Country::GA => "Gabon"@,
        Country::GB => "United Kingdom of Great Britain and Northern Ireland"@,
        Country::GD => "Grenada"@,
        Country::GE => "Georgia"@,
        Country::GF => "French Guiana"@,
        Country::GG => "Guernsey"@,
        Country::GH => "Ghana"@,
        Country::GI => "Gibraltar"@,
        Country::GL => "Greenland"@,
        Country::GM => "Gambia"@,
        Country::GN => "Guinea"@,
        Country::GP => "Guadeloupe"@,
        Country::GQ => "Equatorial Guinea"@,
        Country::GR => "Greece"@,
        Country::GS => "South Georgia and the South Sandwich Islands"@,
        Country::GT => "Guatemala"@,
        Country::GU => "Guam"@,
        Country::GW => "Guinea-Bissau"@,
        Country::GY => "Guyana"@,
        Country::HK => "Hong Kong"@,
        Country::HM => "Heard Island and McDonald Islands"@,
        Country::HN => "Honduras"@,
        Country::HR => "Croatia"@,
        Country::HT => "Haiti"@,
        Country::HU => "Hungary"@,
        Country::ID => "Indonesia"@,
        Country::IE => "Ireland"@,
        Country::IL => "Israel"@,
        Country::IM => "Isle of Man"@,
        Country::IN => "India"@,
        Country::IO => "British Indian Ocean Territory"@,
        Country::IQ => "Iraq"@,
        Country::IR => "Iran (Islamic Republic of)"@,
        Country::IS => "Iceland"@,
        Country::IT => "Italy"@,
        Country::JE => "Jersey"@,
        Country::JM => "Jamaica"@,
        Country::JO => "Jordan"@,
        Country::JP => "Japan"@,
        Country::KE => "Kenya"@,
        Country::KG => "Kyrgyzstan"@,
        Country::KH => "Cambodia"@,
        Country::KI => "Kiribati"@,
        Country::KM => "Comoros"@,
        Country::KN => "Saint Kitts and Nevis"@,
        Country::KP => "Korea (Democratic People's Republic of)"@,
        Country::KR => "Korea (Republic of)"@,
        Country::KW => "Kuwait"@,
        Country::KY => "Cayman Islands"@,
        Country::KZ => "Kazakhstan"@,
        Country::LA => "Lao People's Democratic Republic"@,
        Country::LB => "Lebanon"@,
        Country::LC => "Saint Lucia"@,
        Country::LI => "Liechtenstein"@,
        Country::LK => "Sri Lanka"@,
        Country::LR => "Liberia"@,
        Country::LS => "Lesotho"@,
        Country::LT => "Lithuania"@,
        Country::LU => "Luxembourg"@,
        Country::LV => "Latvia"@,
        Country::LY => "Libya"@,
        Country::MA => "Morocco"@,
        Country::MC => "Monaco"@,
        Country::MD => "Moldova (Republic of)"@,
        Country::ME => "Montenegro"@,
        Country::MF => "Saint Martin (French part)"@,
        Country::MG => "Madagascar"@,
        Country::MH => "Marshall Islands"@,
        Country::MK => "Macedonia (the former Yugoslav Republic of)"@,
        Country::ML => "Mali"@,
        Country::MM => "Myanmar"@,
        Country::MN => "Mongolia"@,
        Country::MO => "Macao"@,
        Country::MP => "Northern Mariana Islands"@,
        Country::MQ => "Martinique"@,
        Country::MR => "Mauritania"@,
        Country::MS => "Montserrat"@,
        Country::MT => "Malta"@,
        Country::MU => "Mauritius"@,
        Country::MV => "Maldives"@,
        Country::MW => "Malawi"@,
        Country::MX => "Mexico"@,
        Country::MY => "Malaysia"@,
        Country::MZ => "Mozambique"@,
        Country::NA => "Namibia"@,
        Country::NC => "New Caledonia"@,
        Country::NE => "Niger"@,
        Country::NF => "Norfolk Island"@,
        Country::NG => "Nigeria"@,
        Country::NI => "Nicaragua"@,
        Country::NL => "Netherlands"@,
        Country::NO => "Norway"@,
        Country::NP => "Nepal"@,
        Country::NR => "Nauru"@,
        Country::NU => "Niue"@,
        Country::NZ => "New Zealand"@,
        Country::OM => "Oman"@,
        Country::PA => "Panama"@,
        Country::PE => "Peru"@,
        Country::PF => "French Polynesia"@,
        Country::PG => "Papua New Guinea"@,
        Country::PH => "Philippines"@,
        Country::PK => "Pakistan"@,
        Country::PL => "Poland"@,
        Country::PM => "Saint Pierre and Miquelon"@,
        Country::PN => "Pitcairn"@,
        Country::PR => "Puerto Rico"@,
        Country::PS => "Palestine, State of"@,
        Country::PT => "Portugal"@,
        Country::PW => "Palau"@,
        Country::PY => "Paraguay"@,
        Country::QA => "Qatar"@,
        Country::RE => "Réunion"@,
        Country::RO => "Romania"@,
        Country::RS => "Serbia"@,
        Country::RU => "Russian Federation"@,
        Country::RW => "Rwanda"@,
        Country::SA => "Saudi Arabia"@,
        Country::SB => "Solomon Islands"@,
        Country::SC => "Seychelles"@,
        Country::SD => "Sudan"@,
        Country::SE => "Sweden"@,
        Country::SG => "Singapore"@,
        Country::SH => "Saint Helena, Ascension and Tristan da Cunha"@,
        Country::SI => "Slovenia"@,
        Country::SJ => "Svalbard and Jan Mayen"@,
        Country::SK => "Slovakia"@,
        Country::SL => "Sierra Leone"@,
        Country::SM => "San Marino"@,
        Country::SN => "Senegal"@,
        Country::SO => "Somalia"@,
        Country::SR => "Suriname"@,
        Country::SS => "South Sudan"@,
        Country::ST => "Sao Tome and Principe"@,
        Country::SV => "El Salvador"@,
        Country::SX => "Sint Maarten (Dutch part)"@,
        Country::SY => "Syrian Arab Republic"@,
        Country::SZ => "Swaziland"@,
        Country::TC => "Turks and Caicos Islands"@,
        Country::TD => "Chad"@,
        Country::TF => "French Southern Territories"@,
        Country::TG => "Togo"@,
        Country::TH => "Thailand"@,
        Country::TJ => "Tajikistan"@,
        Country::TK => "Tokelau"@,
        Country::TL => "Timor-Leste"@,
        Country::TM => "Turkmenistan"@,
        Country::TN => "Tunisia"@,
        Country::TO => "Tonga"@,
        Country::TR => "Turkey"@,
        Country::TT => "Trinidad and Tobago"@,
        Country::TV => "Tuvalu"@,
        Country::TW => "Taiwan, Province of China[a]"@,
        Country::TZ => "Tanzania, United Republic of"@,
        Country::UA => "Ukraine"@,
        Country::UG => "Uganda"@,
        Country::UM => "United States Minor Outlying Islands"@,
        Country::US => "United States of America"@,
        Country::UY => "Uruguay"@,
        Country::UZ => "Uzbekistan"@,
        Country::VA => "Holy See"@,
        Country::VC => "Saint Vincent and the Grenadines"@,
        Country::VE => "Venezuela (Bolivarian Republic of)"@,
        Country::VG => "Virgin Islands (British)"@,
        Country::VI => "Virgin Islands (U.S.)"@,
        Country::VN => "Viet Nam"@,
        Country::VU => "Vanuatu"@,
        Country::WF => "Wallis and Futuna"@,
        Country::WS => "Samoa"@,
        Country::YE => "Yemen"@,
        Country::YT => "Mayotte"@,
        Country::ZA => "South Africa"@,
        Country::ZM => "Zambia"@,
        Country::ZW => "Zimbabwe"@,
    }
}

/// The ISO 3166-1 numeric code of a country; 0 for `Unspecified`.
pub open spec fn numeric_of(c: Country) -> int {
    match c {
        Country::Unspecified => 0,
        Country::AD => 20,
        Country::AE => 784,
        Country::AF => 4,
        Country::AG => 28,
        Country::AI => 660,
        Country::AL => 8,
        Country::AM => 51,
        Country::AO => 24,
        Country::AQ => 10,
        Country::AR => 32,
        Country::AS => 16,
        Country::AT => 40,
        Country::AU => 36,
        Country::AW => 533,
        Country::AX => 248,
        Country::AZ => 31,
        Country::BA => 70,
        Country::BB => 52,
        Country::BD => 50,
        Country::BE => 56,
        Country::BF => 854,
        Country::BG => 100,
        Country::BH => 48,
        Country::BI => 108,
        Country::BJ => 204,
        Country::BL => 652,
        Country::BM => 60,
        Country::BN => 96,
        Country::BO => 68,
        Country::BQ => 535,
        Country::BR => 76,
        Country::BS => 44,
        Country::BT => 64,
        Country::BV => 74,
        Country::BW => 72,
        Country::BY => 112,
        Country::BZ => 84,
        Country::CA => 124,
        Country::CC => 166,
        Country::CD => 180,
        Country::CF => 140,
        Country::CG => 178,
        Country::CH => 756,
        Country::CI => 384,
        Country::CK => 184,
        Country::CL => 152,
        Country::CM => 120,
        Country::CN => 156,
        Country::CO => 170,
        Country::CR => 188,
        Country::CU => 192,
        Country::CV => 132,
        Country::CW => 531,
        Country::CX => 162,
        Country::CY => 196,
        Country::CZ => 203,
        Country::DE => 276,
        Country::DJ => 262,
        Country::DK => 208,
        Country::DM => 212,
        Country::DO => 214,
        Country::DZ => 12,
        Country::EC => 218,
        Country::EE => 233,
        Country::EG => 818,
        Country::EH => 732,
        Country::ER => 232,
        Country::ES => 724,
        Country::ET => 231,
        Country::FI => 246,
        Country::FJ => 242,
        Country::FK => 238,
        Country::FM => 583,
        Country::FO => 234,
        Country::FR => 250,
        Country::GA => 266,
        Country::GB => 826,
        Country::GD => 308,
        Country::GE => 268,
        Country::GF => 254,
        Country::GG => 831,
        Country::GH => 288,
        Country::GI => 292,
        Country::GL => 304,
        Country::GM => 270,
        Country::GN => 324,
        Country::GP => 312,
        Country::GQ => 226,
        Country::GR => 300,
        Country::GS => 239,
        Country::GT => 320,
        Country::GU => 316,
        Country::GW => 624,
        Country::GY => 328,
        Country::HK => 344,
        Country::HM => 334,
        Country::HN => 340,
        Country::HR => 191,
        Country::HT => 332,
        Country::HU => 348,
        Country::ID => 360,
        Country::IE => 372,
        Country::IL => 376,
        Country::IM => 833,
        Country::IN => 356,
        Country::IO => 86,
        Country::IQ => 368,
        Country::IR => 364,
        Country::IS => 352,
        Country::IT => 380,
        Country::JE => 832,
        Country::JM => 388,
        Country::JO => 400,
        Country::JP => 392,
        Country::KE => 404,
        Country::KG => 417,
        Country::KH => 116,
        Country::KI => 296,
        Country::KM => 174,
        Country::KN => 659,
        Country::KP => 408,
        Country::KR => 410,
        Country::KW => 414,
        Country::KY => 136,
        Country::KZ => 398,
        Country::LA => 418,
        Country::LB => 422,
        Country::LC => 662,
        Country::LI => 438,
        Country::LK => 144,
        Country::LR => 430,
        Country::LS => 426,
        Country::LT => 440,
        Country::LU => 442,
        Country::LV => 428,
        Country::LY => 434,
        Country::MA => 504,
        Country::MC => 492,
        Country::MD => 498,
        Country::ME => 499,
        Country::MF => 663,
        Country::MG => 450,
        Country::MH => 584,
        Country::MK => 807,
        Country::ML => 466,
        Country::MM => 104,
        Country::MN => 496,
        Country::MO => 446,
        Country::MP => 580,
        Country::MQ => 474,
        Country::MR => 478,
        Country::MS => 500,
        Country::MT => 470,
        Country::MU => 480,
        Country::MV => 462,
        Country::MW => 454,
        Country::MX => 484,
        Country::MY => 458,
        Country::MZ => 508,
        Country::NA => 516,
        Country::NC => 540,
        Country::NE => 562,
        Country::NF => 574,
        Country::NG => 566,
        Country::NI => 558,
        Country::NL => 528,
        Country::NO => 578,
        Country::NP => 524,
        Country::NR => 520,
        Country::NU => 570,
        Country::NZ => 554,
        Country::OM => 512,
        Country::PA => 591,
        Country::PE => 604,
        Country::PF => 258,
        Country::PG => 598,
        Country::PH => 608,
        Country::PK => 586,
        Country::PL => 616,
        Country::PM => 666,
        Country::PN => 612,
        Country::PR => 630,
        Country::PS => 275,
        Country::PT => 620,
        Country::PW => 585,
        Country::PY => 600,
        Country::QA => 634,
        Country::RE => 638,
        Country::RO => 642,
        Country::RS => 688,
        Country::RU => 643,
        Country::RW => 646,
        Country::SA => 682,
        Country::SB => 90,
        Country::SC => 690,
        Country::SD => 729,
        Country::SE => 752,
        Country::SG => 702,
        Country::SH => 654,
        Country::SI => 705,
        Country::SJ => 744,
        Country::SK => 703,
        Country::SL => 694,
        Country::SM => 674,
        Country::SN => 686,
        Country::SO => 706,
        Country::SR => 740,
        Country::SS => 728,
        Country::ST => 678,
        Country::SV => 222,
        Country::SX => 534,
        Country::SY => 760,
        Country::SZ => 748,
        Country::TC => 796,
        Country::TD => 148,
        Country::TF => 260,
        Country::TG => 768,
        Country::TH => 764,
        Country::TJ => 762,
        Country::TK => 772,
        Country::TL => 626,
        Country::TM => 795,
        Country::TN => 788,
        Country::TO => 776,
        Country::TR => 792,
        Country::TT => 780,
        Country::TV => 798,
        Country::TW => 158,
        Country::TZ => 834,
        Country::UA => 804,
        Country::UG => 800,
        Country::UM => 581,
        Country::US => 840,
        Country::UY => 858,
        Country::UZ => 860,
        Country::VA => 336,
        Country::VC => 670,
        Country::VE => 862,
        Country::VG => 92,
        Country::VI => 850,
        Country::VN => 704,
        Country::VU => 548,
        Country::WF => 876,
        Country::WS => 882,
        Country::YE => 887,
        Country::YT => 175,
        Country::ZA => 710,
        Country::ZM => 894,
        Country::ZW => 716,
    }
}

impl Country {
    /// The alpha-2 code of this country, empty for `Unspecified`.
    pub fn code(&self) -> (r: &'static str)
        ensures
            r@ =~= code_of(*self),
    {
        match *self {
            Country::Unspecified => {
                proof { reveal_strlit(""); }
                ""
            },
            Country::AD => {
                proof { reveal_strlit("AD"); }
                "AD"
            },
            Country::AE => {
                proof { reveal_strlit("AE"); }
                "AE"
            },
            Country::AF => {
                proof { reveal_strlit("AF"); }
                "AF"
            },
            Country::AG => {
                proof { reveal_strlit("AG"); }
                "AG"
            },
            Country::AI => {
                proof { reveal_strlit("AI"); }
                "AI"
            },
            Country::AL => {
                proof { reveal_strlit("AL"); }
                "AL"
            },
            Country::AM => {
                proof { reveal_strlit("AM"); }
                "AM"
            },
            Country::AO => {
                proof { reveal_strlit("AO"); }
                "AO"
            },
            Country::AQ => {
                proof { reveal_strlit("AQ"); }
                "AQ"
            },
            Country::AR => {
                proof { reveal_strlit("AR"); }
                "AR"
            },
            Country::AS => {
                proof { reveal_strlit("AS"); }
                "AS"
            },
            Country::AT => {
                proof { reveal_strlit("AT"); }
                "AT"
            },
            Country::AU => {
                proof { reveal_strlit("AU"); }
                "AU"
            },
            Country::AW => {
                proof { reveal_strlit("AW"); }
                "AW"
            },
            Country::AX => {
                proof { reveal_strlit("AX"); }
                "AX"
            },
            Country::AZ => {
                proof { reveal_strlit("AZ"); }
                "AZ"
            },
            Country::BA => {
                proof { reveal_strlit("BA"); }
                "BA"
            },
            Country::BB => {
                proof { reveal_strlit("BB"); }
                "BB"
            },
            Country::BD => {
                proof { reveal_strlit("BD"); }
                "BD"
            },
            Country::BE => {
                proof { reveal_strlit("BE"); }
                "BE"
            },
            Country::BF => {
                proof { reveal_strlit("BF"); }
                "BF"
            },
            Country::BG => {
                proof { reveal_strlit("BG"); }
                "BG"
            },
            Country::BH => {
                proof { reveal_strlit("BH"); }
                "BH"
            },
            Country::BI => {
                proof { reveal_strlit("BI"); }
                "BI"
            },
            Country::BJ => {
                proof { reveal_strlit("BJ"); }
                "BJ"
            },
            Country::BL => {
                proof { reveal_strlit("BL"); }
                "BL"
            },
            Country::BM => {
                proof { reveal_strlit("BM"); }
                "BM"
            },
            Country::BN => {
                proof { reveal_strlit("BN"); }
                "BN"
            },
            Country::BO => {
                proof { reveal_strlit("BO"); }
                "BO"
            },
            Country::BQ => {
                proof { reveal_strlit("BQ"); }
                "BQ"
            },
            Country::BR => {
                proof { reveal_strlit("BR"); }
                "BR"
            },
            Country::BS => {
                proof { reveal_strlit("BS"); }
                "BS"
            },
            Country::BT => {
                proof { reveal_strlit("BT"); }
                "BT"
            },
            Country::BV => {
                proof { reveal_strlit("BV"); }
                "BV"
            },
            Country::BW => {
                proof { reveal_strlit("BW"); }
                "BW"
            },
            Country::BY => {
                proof { reveal_strlit("BY"); }
                "BY"
            },
            Country::BZ => {
                proof { reveal_strlit("BZ"); }
                "BZ"
            },
            Country::CA => {
                proof { reveal_strlit("CA"); }
                "CA"
            },
            Country::CC => {
                proof { reveal_strlit("CC"); }
                "CC"
            },
            Country::CD => {
                proof { reveal_strlit("CD"); }
                "CD"
            },
            Country::CF => {
                proof { reveal_strlit("CF"); }
                "CF"
            },
            Country::CG => {
                proof { reveal_strlit("CG"); }
                "CG"
            },
            Country::CH => {
                proof { reveal_strlit("CH"); }
                "CH"
            },
            Country::CI => {
                proof { reveal_strlit("CI"); }
                "CI"
            },
            Country::CK => {
                proof { reveal_strlit("CK"); }
                "CK"
            },
            Country::CL => {
                proof { reveal_strlit("CL"); }
                "CL"
            },
            Country::CM => {
                proof { reveal_strlit("CM"); }
                "CM"
            },
            Country::CN => {
                proof { reveal_strlit("CN"); }
                "CN"
            },
            Country::CO => {
                proof { reveal_strlit("CO"); }
                "CO"
            },
            Country::CR => {
                proof { reveal_strlit("CR"); }
                "CR"
            },
            Country::CU => {
                proof { reveal_strlit("CU"); }
                "CU"
            },
            Country::CV => {
                proof { reveal_strlit("CV"); }
                "CV"
            },
            Country::CW => {
                proof { reveal_strlit("CW"); }
                "CW"
            },
            Country::CX => {
                proof { reveal_strlit("CX"); }
                "CX"
            },
            Country::CY => {
                proof { reveal_strlit("CY"); }
                "CY"
            },
            Country::CZ => {
                proof { reveal_strlit("CZ"); }
                "CZ"
            },
            Country::DE => {
                proof { reveal_strlit("DE"); }
                "DE"
            },
            Country::DJ => {
                proof { reveal_strlit("DJ"); }
                "DJ"
            },
            Country::DK => {
                proof { reveal_strlit("DK"); }
                "DK"
            },
            Country::DM => {
                proof { reveal_strlit("DM"); }
                "DM"
            },
            Country::DO => {
                proof { reveal_strlit("DO"); }
                "DO"
            },
            Country::DZ => {
                proof { reveal_strlit("DZ"); }
                "DZ"
            },
            Country::EC => {
                proof { reveal_strlit("EC"); }
                "EC"
            },
            Country::EE => {
                proof { reveal_strlit("EE"); }
                "EE"
            },
            Country::EG => {
                proof { reveal_strlit("EG"); }
                "EG"
            },
            Country::EH => {
                proof { reveal_strlit("EH"); }
                "EH"
            },
            Country::ER => {
                proof { reveal_strlit("ER"); }
                "ER"
            },
            Country::ES => {
                proof { reveal_strlit("ES"); }
                "ES"
            },
            Country::ET => {
                proof { reveal_strlit("ET"); }
                "ET"
            },
            Country::FI => {
                proof { reveal_strlit("FI"); }
                "FI"
            },
            Country::FJ => {
                proof { reveal_strlit("FJ"); }
                "FJ"
            },
            Country::FK => {
                proof { reveal_strlit("FK"); }
                "FK"
            },
            Country::FM => {
                proof { reveal_strlit("FM"); }
                "FM"
            },
            Country::FO => {
                proof { reveal_strlit("FO"); }
                "FO"
            },
            Country::FR => {
                proof { reveal_strlit("FR"); }
                "FR"
            },
            Country::GA => {
                proof { reveal_strlit("GA"); }
                "GA"
            },
            Country::GB => {
                proof { reveal_strlit("GB"); }
                "GB"
            },
            Country::GD => {
                proof { reveal_strlit("GD"); }
                "GD"
            },
            Country::GE => {
                proof { reveal_strlit("GE"); }
                "GE"
            },
            Country::GF => {
                proof { reveal_strlit("GF"); }
                "GF"
            },
            Country::GG => {
                proof { reveal_strlit("GG"); }
                "GG"
            },
            Country::GH => {
                proof { reveal_strlit("GH"); }
                "GH"
            },
            Country::GI => {
                proof { reveal_strlit("GI"); }
                "GI"
            },
            Country::GL => {
                proof { reveal_strlit("GL"); }
                "GL"
            },
            Country::GM => {
                proof { reveal_strlit("GM"); }
                "GM"
            },
            Country::GN => {
                proof { reveal_strlit("GN"); }
                "GN"
            },
            Country::GP => {
                proof { reveal_strlit("GP"); }
                "GP"
            },
            Country::GQ => {
                proof { reveal_strlit("GQ"); }
                "GQ"
            },
            Country::GR => {
                proof { reveal_strlit("GR"); }
                "GR"
            },
            Country::GS => {
                proof { reveal_strlit("GS"); }
                "GS"
            },
            Country::GT => {
                proof { reveal_strlit("GT"); }
                "GT"
            },
            Country::GU => {
                proof { reveal_strlit("GU"); }
                "GU"
            },
            Country::GW => {
                proof { reveal_strlit("GW"); }
                "GW"
            },
            Country::GY => {
                proof { reveal_strlit("GY"); }
                "GY"
            },
            Country::HK => {
                proof { reveal_strlit("HK"); }
                "HK"
            },
            Country::HM => {
                proof { reveal_strlit("HM"); }
                "HM"
            },
            Country::HN => {
                proof { reveal_strlit("HN"); }
                "HN"
            },
            Country::HR => {
                proof { reveal_strlit("HR"); }
                "HR"
            },
            Country::HT => {
                proof { reveal_strlit("HT"); }
                "HT"
            },
            Country::HU => {
                proof { reveal_strlit("HU"); }
                "HU"
            },
            Country::ID => {
                proof { reveal_strlit("ID"); }
                "ID"
            },
            Country::IE => {
                proof { reveal_strlit("IE"); }
                "IE"
            },
            Country::IL => {
                proof { reveal_strlit("IL"); }
                "IL"
            },
            Country::IM => {
                proof { reveal_strlit("IM"); }
                "IM"
            },
            Country::IN => {
                proof { reveal_strlit("IN"); }
                "IN"
            },
            Country::IO => {
                proof { reveal_strlit("IO"); }
                "IO"
            },
            Country::IQ => {
                proof { reveal_strlit("IQ"); }
                "IQ"
            },
            Country::IR => {
                proof { reveal_strlit("IR"); }
                "IR"
            },
            Country::IS => {
                proof { reveal_strlit("IS"); }
                "IS"
            },
            Country::IT => {
                proof { reveal_strlit("IT"); }
                "IT"
            },
            Country::JE => {
                proof { reveal_strlit("JE"); }
                "JE"
            },
            Country::JM => {
                proof { reveal_strlit("JM"); }
                "JM"
            },
            Country::JO => {
                proof { reveal_strlit("JO"); }
                "JO"
            },
            Country::JP => {
                proof { reveal_strlit("JP"); }
                "JP"
            },
            Country::KE => {
                proof { reveal_strlit("KE"); }
                "KE"
            },
            Country::KG => {
                proof { reveal_strlit("KG"); }
                "KG"
            },
            Country::KH => {
                proof { reveal_strlit("KH"); }
                "KH"
            },
            Country::KI => {
                proof { reveal_strlit("KI"); }
                "KI"
            },
            Country::KM => {
                proof { reveal_strlit("KM"); }
                "KM"
            },
            Country::KN => {
                proof { reveal_strlit("KN"); }
                "KN"
            },
            Country::KP => {
                proof { reveal_strlit("KP"); }
                "KP"
            },
            Country::KR => {
                proof { reveal_strlit("KR"); }
                "KR"
            },
            Country::KW => {
                proof { reveal_strlit("KW"); }
                "KW"
            },
            Country::KY => {
                proof { reveal_strlit("KY"); }
                "KY"
            },
            Country::KZ => {
                proof { reveal_strlit("KZ"); }
                "KZ"
            },
            Country::LA => {
                proof { reveal_strlit("LA"); }
                "LA"
            },
            Country::LB => {
                proof { reveal_strlit("LB"); }
                "LB"
            },
            Country::LC => {
                proof { reveal_strlit("LC"); }
                "LC"
            },
            Country::LI => {
                proof { reveal_strlit("LI"); }
                "LI"
            },
            Country::LK => {
                proof { reveal_strlit("LK"); }
                "LK"
            },
            Country::LR => {
                proof { reveal_strlit("LR"); }
                "LR"
            },
            Country::LS => {
                proof { reveal_strlit("LS"); }
                "LS"
            },
            Country::LT => {
                proof { reveal_strlit("LT"); }
                "LT"
            },
            Country::LU => {
                proof { reveal_strlit("LU"); }
                "LU"
            },
            Country::LV => {
                proof { reveal_strlit("LV"); }
                "LV"
            },
            Country::LY => {
                proof { reveal_strlit("LY"); }
                "LY"
            },
            Country::MA => {
                proof { reveal_strlit("MA"); }
                "MA"
            },
            Country::MC => {
                proof { reveal_strlit("MC"); }
                "MC"
            },
            Country::MD => {
                proof { reveal_strlit("MD"); }
                "MD"
            },
            Country::ME => {
                proof { reveal_strlit("ME"); }
                "ME"
            },
            Country::MF => {
                proof { reveal_strlit("MF"); }
                "MF"
            },
            Country::MG => {
                proof { reveal_strlit("MG"); }
                "MG"
            },
            Country::MH => {
                proof { reveal_strlit("MH"); }
                "MH"
            },
            Country::MK => {
                proof { reveal_strlit("MK"); }
                "MK"
            },
            Country::ML => {
                proof { reveal_strlit("ML"); }
                "ML"
            },
            Country::MM => {
                proof { reveal_strlit("MM"); }
                "MM"
            },
            Country::MN => {
                proof { reveal_strlit("MN"); }
                "MN"
            },
            Country::MO => {
                proof { reveal_strlit("MO"); }
                "MO"
            },
            Country::MP => {
                proof { reveal_strlit("MP"); }
                "MP"
            },
            Country::MQ => {
                proof { reveal_strlit("MQ"); }
                "MQ"
            },
            Country::MR => {
                proof { reveal_strlit("MR"); }
                "MR"
            },
            Country::MS => {
                proof { reveal_strlit("MS"); }
                "MS"
            },
            Country::MT => {
                proof { reveal_strlit("MT"); }
                "MT"
            },
            Country::MU => {
                proof { reveal_strlit("MU"); }
                "MU"
            },
            Country::MV => {
                proof { reveal_strlit("MV"); }
                "MV"
            },
            Country::MW => {
                proof { reveal_strlit("MW"); }
                "MW"
            },
            Country::MX => {
                proof { reveal_strlit("MX"); }
                "MX"
            },
            Country::MY => {
                proof { reveal_strlit("MY"); }
                "MY"
            },
            Country::MZ => {
                proof { reveal_strlit("MZ"); }
                "MZ"
            },
            Country::NA => {
                proof { reveal_strlit("NA"); }
                "NA"
            },
            Country::NC => {
                proof { reveal_strlit("NC"); }
                "NC"
            },
            Country::NE => {
                proof { reveal_strlit("NE"); }
                "NE"
            },
            Country::NF => {
                proof { reveal_strlit("NF"); }
                "NF"
            },
            Country::NG => {
                proof { reveal_strlit("NG"); }
                "NG"
            },
            Country::NI => {
                proof { reveal_strlit("NI"); }
                "NI"
            },
            Country::NL => {
                proof { reveal_strlit("NL"); }
                "NL"
            },
            Country::NO => {
                proof { reveal_strlit("NO"); }
                "NO"
            },
            Country::NP => {
                proof { reveal_strlit("NP"); }
                "NP"
            },
            Country::NR => {
                proof { reveal_strlit("NR"); }
                "NR"
            },
            Country::NU => {
                proof { reveal_strlit("NU"); }
                "NU"
            },
            Country::NZ => {
                proof { reveal_strlit("NZ"); }
                "NZ"
            },
            Country::OM => {
                proof { reveal_strlit("OM"); }
                "OM"
            },
            Country::PA => {
                proof { reveal_strlit("PA"); }
                "PA"
            },
            Country::PE => {
                proof { reveal_strlit("PE"); }
                "PE"
            },
            Country::PF => {
                proof { reveal_strlit("PF"); }
                "PF"
            },
            Country::PG => {
                proof { reveal_strlit("PG"); }
                "PG"
            },
            Country::PH => {
                proof { reveal_strlit("PH"); }
                "PH"
            },
            Country::PK => {
                proof { reveal_strlit("PK"); }
                "PK"
            },
            Country::PL => {
                proof { reveal_strlit("PL"); }
                "PL"
            },
            Country::PM => {
                proof { reveal_strlit("PM"); }
                "PM"
            },
            Country::PN => {
                proof { reveal_strlit("PN"); }
                "PN"
            },
            Country::PR => {
                proof { reveal_strlit("PR"); }
                "PR"
            },
            Country::PS => {
                proof { reveal_strlit("PS"); }
                "PS"
            },
            Country::PT => {
                proof { reveal_strlit("PT"); }
                "PT"
            },
            Country::PW => {
                proof { reveal_strlit("PW"); }
                "PW"
            },
            Country::PY => {
                proof { reveal_strlit("PY"); }
                "PY"
            },
            Country::QA => {
                proof { reveal_strlit("QA"); }
                "QA"
            },
            Country::RE => {
                proof { reveal_strlit("RE"); }
                "RE"
            },
            Country::RO => {
                proof { reveal_strlit("RO"); }
                "RO"
            },
            Country::RS => {
                proof { reveal_strlit("RS"); }
                "RS"
            },
            Country::RU => {
                proof { reveal_strlit("RU"); }
                "RU"
            },
            Country::RW => {
                proof { reveal_strlit("RW"); }
                "RW"
            },
            Country::SA => {
                proof { reveal_strlit("SA"); }
                "SA"
            },
            Country::SB => {
                proof { reveal_strlit("SB"); }
                "SB"
            },
            Country::SC => {
                proof { reveal_strlit("SC"); }
                "SC"
            },
            Country::SD => {
                proof { reveal_strlit("SD"); }
                "SD"
            },
            Country::SE => {
                proof { reveal_strlit("SE"); }
                "SE"
            },
            Country::SG => {
                proof { reveal_strlit("SG"); }
                "SG"
            },
            Country::SH => {
                proof { reveal_strlit("SH"); }
                "SH"
            },
            Country::SI => {
                proof { reveal_strlit("SI"); }
                "SI"
            },
            Country::SJ => {
                proof { reveal_strlit("SJ"); }
                "SJ"
            },
            Country::SK => {
                proof { reveal_strlit("SK"); }
                "SK"
            },
            Country::SL => {
                proof { reveal_strlit("SL"); }
                "SL"
            },
            Country::SM => {
                proof { reveal_strlit("SM"); }
                "SM"
            },
            Country::SN => {
                proof { reveal_strlit("SN"); }
                "SN"
            },
            Country::SO => {
                proof { reveal_strlit("SO"); }
                "SO"
            },
            Country::SR => {
                proof { reveal_strlit("SR"); }
                "SR"
            },
            Country::SS => {
                proof { reveal_strlit("SS"); }
                "SS"
            },
            Country::ST => {
                proof { reveal_strlit("ST"); }
                "ST"
            },
            Country::SV => {
                proof { reveal_strlit("SV"); }
                "SV"
            },
            Country::SX => {
                proof { reveal_strlit("SX"); }
                "SX"
            },
            Country::SY => {
                proof { reveal_strlit("SY"); }
                "SY"
            },
            Country::SZ => {
                proof { reveal_strlit("SZ"); }
                "SZ"
            },
            Country::TC => {
                proof { reveal_strlit("TC"); }
                "TC"
            },
            Country::TD => {
                proof { reveal_strlit("TD"); }
                "TD"
            },
            Country::TF => {
                proof { reveal_strlit("TF"); }
                "TF"
            },
            Country::TG => {
                proof { reveal_strlit("TG"); }
                "TG"
            },
            Country::TH => {
                proof { reveal_strlit("TH"); }
                "TH"
            },
            Country::TJ => {
                proof { reveal_strlit("TJ"); }
                "TJ"
            },
            Country::TK => {
                proof { reveal_strlit("TK"); }
                "TK"
            },
            Country::TL => {
                proof { reveal_strlit("TL"); }
                "TL"
            },
            Country::TM => {
                proof { reveal_strlit("TM"); }
                "TM"
            },
            Country::TN => {
                proof { reveal_strlit("TN"); }
                "TN"
            },
            Country::TO => {
                proof { reveal_strlit("TO"); }
                "TO"
            },
            Country::TR => {
                proof { reveal_strlit("TR"); }
                "TR"
            },
            Country::TT => {
                proof { reveal_strlit("TT"); }
                "TT"
            },
            Country::TV => {
                proof { reveal_strlit("TV"); }
                "TV"
            },
            Country::TW => {
                proof { reveal_strlit("TW"); }
                "TW"
            },
            Country::TZ => {
                proof { reveal_strlit("TZ"); }
                "TZ"
            },
            Country::UA => {
                proof { reveal_strlit("UA"); }
                "UA"
            },
            Country::UG => {
                proof { reveal_strlit("UG"); }
                "UG"
            },
            Country::UM => {
                proof { reveal_strlit("UM"); }
                "UM"
            },
            Country::US => {
                proof { reveal_strlit("US"); }
                "US"
            },
            Country::UY => {
                proof { reveal_strlit("UY"); }
                "UY"
            },
            Country::UZ => {
                proof { reveal_strlit("UZ"); }
                "UZ"
            },
            Country::VA => {
                proof { reveal_strlit("VA"); }
                "VA"
            },
            Country::VC => {
                proof { reveal_strlit("VC"); }
                "VC"
            },
            Country::VE => {
                proof { reveal_strlit("VE"); }
                "VE"
            },
            Country::VG => {
                proof { reveal_strlit("VG"); }
                "VG"
            },
            Country::VI => {
                proof { reveal_strlit("VI"); }
                "VI"
            },
            Country::VN => {
                proof { reveal_strlit("VN"); }
                "VN"
            },
            Country::VU => {
                proof { reveal_strlit("VU"); }
                "VU"
            },
            Country::WF => {
                proof { reveal_strlit("WF"); }
                "WF"
            },
            Country::WS => {
                proof { reveal_strlit("WS"); }
                "WS"
            },
            Country::YE => {
                proof { reveal_strlit("YE"); }
                "YE"
            },
            Country::YT => {
                proof { reveal_strlit("YT"); }
                "YT"
            },
            Country::ZA => {
                proof { reveal_strlit("ZA"); }
                "ZA"
            },
            Country::ZM => {
                proof { reveal_strlit("ZM"); }
                "ZM"
            },
            Country::ZW => {
                proof { reveal_strlit("ZW"); }
                "ZW"
            },
        }
    }

    /// The display form of this country: its alpha-2 code, empty for
    /// `Unspecified`.
    pub fn to_string(&self) -> (r: String)
        ensures
            r@ == code_of(*self),
    {
        self.code().to_owned()
    }

    /// The English short name of this country; the empty string for
    /// `Unspecified`. Defined for every value.
    pub fn name(&self) -> (r: &'static str)
        ensures
            r@ == name_of(*self),
            *self == Country::Unspecified ==> r@.len() == 0,
    {
        match *self {
            Country::Unspecified => {
                proof { reveal_strlit(""); }
                ""
            },
            Country::AD => "Andorra",
            Country::AE => "United Arab Emirates",
            Country::AF => "Afghanistan",
            Country::AG => "Antigua and Barbuda",
            Country::AI => "Anguilla",
            Country::AL => "Albania",
            Country::AM => "Armenia",
            Country::AO => "Angola",
            Country::AQ => "Antarctica",
            Country::AR => "Argentina",
            Country::AS => "American Samoa",
            Country::AT => "Austria",
            Country::AU => "Australia",
            Country::AW => "Aruba",
            Country::AX => "Åland Islands",
            Country::AZ => "Azerbaijan",
            Country::BA => "Bosnia and Herzegovina",
            Country::BB => "Barbados",
            Country::BD => "Bangladesh",
            Country::BE => "Belgium",
            Country::BF => "Burkina Faso",
            Country::BG => "Bulgaria",
            Country::BH => "Bahrain",
            Country::BI => "Burundi",
            Country::BJ => "Benin",
            Country::BL => "Saint Barthélemy",
            Country::BM => "Bermuda",
            Country::BN => "Brunei Darussalam",
            Country::BO => "Bolivia (Plurinational State of)",
            Country::BQ => "Bonaire, Sint Eustatius and Saba",
            Country::BR => "Brazil",
            Country::BS => "Bahamas",
            Country::BT => "Bhutan",
            Country::BV => "Bouvet Island",
            Country::BW => "Botswana",
            Country::BY => "Belarus",
            Country::BZ => "Belize",
            Country::CA => "Canada",
            Country::CC => "Cocos (Keeling) Islands",
            Country::CD => "Congo (Democratic Republic of the)",
            Country::CF => "Central African Republic",
            Country::CG => "Congo",
            Country::CH => "Switzerland",
            Country::CI => "Côte d'Ivoire",
            Country::CK => "Cook Islands",
            Country::CL => "Chile",
            Country::CM => "Cameroon",
            Country::CN => "China",
            Country::CO => "Colombia",
            Country::CR => "Costa Rica",
            Country::CU => "Cuba",
            Country::CV => "Cabo Verde",
            Country::CW => "Curaçao",
            Country::CX => "Christmas Island",
            Country::CY => "Cyprus",
            Country::CZ => "Czech Republic",
            Country::DE => "Germany",
            Country::DJ => "Djibouti",
            Country::DK => "Denmark",
            Country::DM => "Dominica",
            Country::DO => "Dominican Republic",
            Country::DZ => "Algeria",
            Country::EC => "Ecuador",
            Country::EE => "Estonia",
            Country::EG => "Egypt",
            Country::EH => "Western Sahara",
            Country::ER => "Eritrea",
            Country::ES => "Spain",
            Country::ET => "Ethiopia",
            Country::FI => "Finland",
            Country::FJ => "Fiji",
            Country::FK => "Falkland Islands",
            Country::FM => "Micronesia (Federated States of)",
            Country::FO => "Faroe Islands",
            Country::FR => "France",
            Country::GA => "Gabon",
            Country::GB => "United Kingdom of Great Britain and Northern Ireland",
            Country::GD => "Grenada",
            Country::GE => "Georgia",
            Country::GF => "French Guiana",
            Country::GG => "Guernsey",
            Country::GH => "Ghana",
            Country::GI => "Gibraltar",
            Country::GL => "Greenland",
            Country::GM => "Gambia",
            Country::GN => "Guinea",
            Country::GP => "Guadeloupe",
            Country::GQ => "Equatorial Guinea",
            Country::GR => "Greece",
            Country::GS => "South Georgia and the South Sandwich Islands",
            Country::GT => "Guatemala",
            Country::GU => "Guam",
            Country::GW => "Guinea-Bissau",
            Country::GY => "Guyana",
            Country::HK => "Hong Kong",
            Country::HM => "Heard Island and McDonald Islands",
            Country::HN => "Honduras",
            Country::HR => "Croatia",
            Country::HT => "Haiti",
            Country::HU => "Hungary",
            Country::ID => "Indonesia",
            Country::IE => "Ireland",
            Country::IL => "Israel",
            Country::IM => "Isle of Man",
            Country::IN => "India",
            Country::IO => "British Indian Ocean Territory",
            Country::IQ => "Iraq",
            Country::IR => "Iran (Islamic Republic of)",
            Country::IS => "Iceland",
            Country::IT => "Italy",
            Country::JE => "Jersey",
            Country::JM => "Jamaica",
            Country::JO => "Jordan",
            Country::JP => "Japan",
            Country::KE => "Kenya",
            Country::KG => "Kyrgyzstan",
            Country::KH => "Cambodia",
            Country::KI => "Kiribati",
            Country::KM => "Comoros",
            Country::KN => "Saint Kitts and Nevis",
            Country::KP => "Korea (Democratic People's Republic of)",
            Country::KR => "Korea (Republic of)",
            Country::KW => "Kuwait",
            Country::KY => "Cayman Islands",
            Country::KZ => "Kazakhstan",
            Country::LA => "Lao People's Democratic Republic",
            Country::LB => "Lebanon",
            Country::LC => "Saint Lucia",
            Country::LI => "Liechtenstein",
            Country::LK => "Sri Lanka",
            Country::LR => "Liberia",
            Country::LS => "Lesotho",
            Country::LT => "Lithuania",
            Country::LU => "Luxembourg",
            Country::LV => "Latvia",
            Country::LY => "Libya",
            Country::MA => "Morocco",
            Country::MC => "Monaco",
            Country::MD => "Moldova (Republic of)",
            Country::ME => "Montenegro",
            Country::MF => "Saint Martin (French part)",
            Country::MG => "Madagascar",
            Country::MH => "Marshall Islands",
            Country::MK => "Macedonia (the former Yugoslav Republic of)",
            Country::ML => "Mali",
            Country::MM => "Myanmar",
            Country::MN => "Mongolia",
            Country::MO => "Macao",
            Country::MP => "Northern Mariana Islands",
            Country::MQ => "Martinique",
            Country::MR => "Mauritania",
            Country::MS => "Montserrat",
            Country::MT => "Malta",
            Country::MU => "Mauritius",
            Country::MV => "Maldives",
            Country::MW => "Malawi",
            Country::MX => "Mexico",
            Country::MY => "Malaysia",
            Country::MZ => "Mozambique",
            Country::NA => "Namibia",
            Country::NC => "New Caledonia",
            Country::NE => "Niger",
            Country::NF => "Norfolk Island",
            Country::NG => "Nigeria",
            Country::NI => "Nicaragua",
            Country::NL => "Netherlands",
            Country::NO => "Norway",
            Country::NP => "Nepal",
            Country::NR => "Nauru",
            Country::NU => "Niue",
            Country::NZ => "New Zealand",
            Country::OM => "Oman",
            Country::PA => "Panama",
            Country::PE => "Peru",
            Country::PF => "French Polynesia",
            Country::PG => "Papua New Guinea",
            Country::PH => "Philippines",
            Country::PK => "Pakistan",
            Country::PL => "Poland",
            Country::PM => "Saint Pierre and Miquelon",
            Country::PN => "Pitcairn",
            Country::PR => "Puerto Rico",
            Country::PS => "Palestine, State of",
            Country::PT => "Portugal",
            Country::PW => "Palau",
            Country::PY => "Paraguay",
            Country::QA => "Qatar",
            Country::RE => "Réunion",
            Country::RO => "Romania",
            Country::RS => "Serbia",
            Country::RU => "Russian Federation",
            Country::RW => "Rwanda",
            Country::SA => "Saudi Arabia",
            Country::SB => "Solomon Islands",
            Country::SC => "Seychelles",
            Country::SD => "Sudan",
            Country::SE => "Sweden",
            Country::SG => "Singapore",
            Country::SH => "Saint Helena, Ascension and Tristan da Cunha",
            Country::SI => "Slovenia",
            Country::SJ => "Svalbard and Jan Mayen",
            Country::SK => "Slovakia",
            Country::SL => "Sierra Leone",
            Country::SM => "San Marino",
            Country::SN => "Senegal",
            Country::SO => "Somalia",
            Country::SR => "Suriname",
            Country::SS => "South Sudan",
            Country::ST => "Sao Tome and Principe",
            Country::SV => "El Salvador",
            Country::SX => "Sint Maarten (Dutch part)",
            Country::SY => "Syrian Arab Republic",
            Country::SZ => "Swaziland",
            Country::TC => "Turks and Caicos Islands",
            Country::TD => "Chad",
            Country::TF => "French Southern Territories",
            Country::TG => "Togo",
            Country::TH => "Thailand",
            Country::TJ => "Tajikistan",
            Country::TK => "Tokelau",
            Country::TL => "Timor-Leste",
            Country::TM => "Turkmenistan",
            Country::TN => "Tunisia",
            Country::TO => "Tonga",
            Country::TR => "Turkey",
            Country::TT => "Trinidad and Tobago",
            Country::TV => "Tuvalu",
            Country::TW => "Taiwan, Province of China[a]",
            Country::TZ => "Tanzania, United Republic of",
            Country::UA => "Ukraine",
            Country::UG => "Uganda",
            Country::UM => "United States Minor Outlying Islands",
            Country::US => "United States of America",
            Country::UY => "Uruguay",
            Country::UZ => "Uzbekistan",
            Country::VA => "Holy See",
            Country::VC => "Saint Vincent and the Grenadines",
            Country::VE => "Venezuela (Bolivarian Republic of)",
            Country::VG => "Virgin Islands (British)",
            Country::VI => "Virgin Islands (U.S.)",
            Country::VN => "Viet Nam",
            Country::VU => "Vanuatu",
            Country::WF => "Wallis and Futuna",
            Country::WS => "Samoa",
            Country::YE => "Yemen",
            Country::YT => "Mayotte",
            Country::ZA => "South Africa",
            Country::ZM => "Zambia",
            Country::ZW => "Zimbabwe",
        }
    }

    /// The ISO 3166-1 numeric code of this country; 0 for `Unspecified`.
    pub fn numeric(&self) -> (r: u16)
        ensures
            r as int == numeric_of(*self),
    {
        match *self {
            Country::Unspecified => 0,
            Country::AD => 20,
            Country::AE => 784,
            Country::AF => 4,
            Country::AG => 28,
            Country::AI => 660,
            Country::AL => 8,
            Country::AM => 51,
            Country::AO => 24,
            Country::AQ => 10,
            Country::AR => 32,
            Country::AS => 16,
            Country::AT => 40,
            Country::AU => 36,
            Country::AW => 533,
            Country::AX => 248,
            Country::AZ => 31,
            Country::BA => 70,
            Country::BB => 52,
            Country::BD => 50,
            Country::BE => 56,
            Country::BF => 854,
            Country::BG => 100,
            Country::BH => 48,
            Country::BI => 108,
            Country::BJ => 204,
            Country::BL => 652,
            Country::BM => 60,
            Country::BN => 96,
            Country::BO => 68,
            Country::BQ => 535,
            Country::BR => 76,
            Country::BS => 44,
            Country::BT => 64,
            Country::BV => 74,
            Country::BW => 72,
            Country::BY => 112,
            Country::BZ => 84,
            Country::CA => 124,
            Country::CC => 166,
            Country::CD => 180,
            Country::CF => 140,
            Country::CG => 178,
            Country::CH => 756,
            Country::CI => 384,
            Country::CK => 184,
            Country::CL => 152,
            Country::CM => 120,
            Country::CN => 156,
            Country::CO => 170,
            Country::CR => 188,
            Country::CU => 192,
            Country::CV => 132,
            Country::CW => 531,
            Country::CX => 162,
            Country::CY => 196,
            Country::CZ => 203,
            Country::DE => 276,
            Country::DJ => 262,
            Country::DK => 208,
            Country::DM => 212,
            Country::DO => 214,
            Country::DZ => 12,
            Country::EC => 218,
            Country::EE => 233,
            Country::EG => 818,
            Country::EH => 732,
            Country::ER => 232,
            Country::ES => 724,
            Country::ET => 231,
            Country::FI => 246,
            Country::FJ => 242,
            Country::FK => 238,
            Country::FM => 583,
            Country::FO => 234,
            Country::FR => 250,
            Country::GA => 266,
            Country::GB => 826,
            Country::GD => 308,
            Country::GE => 268,
            Country::GF => 254,
            Country::GG => 831,
            Country::GH => 288,
            Country::GI => 292,
            Country::GL => 304,
            Country::GM => 270,
            Country::GN => 324,
            Country::GP => 312,
            Country::GQ => 226,
            Country::GR => 300,
            Country::GS => 239,
            Country::GT => 320,
            Country::GU => 316,
            Country::GW => 624,
            Country::GY => 328,
            Country::HK => 344,
            Country::HM => 334,
            Country::HN => 340,
            Country::HR => 191,
            Country::HT => 332,
            Country::HU => 348,
            Country::ID => 360,
            Country::IE => 372,
            Country::IL => 376,
            Country::IM => 833,
            Country::IN => 356,
            Country::IO => 86,
            Country::IQ => 368,
            Country::IR => 364,
            Country::IS => 352,
            Country::IT => 380,
            Country::JE => 832,
            Country::JM => 388,
            Country::JO => 400,
            Country::JP => 392,
            Country::KE => 404,
            Country::KG => 417,
            Country::KH => 116,
            Country::KI => 296,
            Country::KM => 174,
            Country::KN => 659,
            Country::KP => 408,
            Country::KR => 410,
            Country::KW => 414,
            Country::KY => 136,
            Country::KZ => 398,
            Country::LA => 418,
            Country::LB => 422,
            Country::LC => 662,
            Country::LI => 438,
            Country::LK => 144,
            Country::LR => 430,
            Country::LS => 426,
            Country::LT => 440,
            Country::LU => 442,
            Country::LV => 428,
            Country::LY => 434,
            Country::MA => 504,
            Country::MC => 492,
            Country::MD => 498,
            Country::ME => 499,
            Country::MF => 663,
            Country::MG => 450,
            Country::MH => 584,
            Country::MK => 807,
            Country::ML => 466,
            Country::MM => 104,
            Country::MN => 496,
            Country::MO => 446,
            Country::MP => 580,
            Country::MQ => 474,
            Country::MR => 478,
            Country::MS => 500,
            Country::MT => 470,
            Country::MU => 480,
            Country::MV => 462,
            Country::MW => 454,
            Country::MX => 484,
            Country::MY => 458,
            Country::MZ => 508,
            Country::NA => 516,
            Country::NC => 540,
            Country::NE => 562,
            Country::NF => 574,
            Country::NG => 566,
            Country::NI => 558,
            Country::NL => 528,
            Country::NO => 578,
            Country::NP => 524,
            Country::NR => 520,
            Country::NU => 570,
            Country::NZ => 554,
            Country::OM => 512,
            Country::PA => 591,
            Country::PE => 604,
            Country::PF => 258,
            Country::PG => 598,
            Country::PH => 608,
            Country::PK => 586,
            Country::PL => 616,
            Country::PM => 666,
            Country::PN => 612,
            Country::PR => 630,
            Country::PS => 275,
            Country::PT => 620,
            Country::PW => 585,
            Country::PY => 600,
            Country::QA => 634,
            Country::RE => 638,
            Country::RO => 642,
            Country::RS => 688,
            Country::RU => 643,
            Country::RW => 646,
            Country::SA => 682,
            Country::SB => 90,
            Country::SC => 690,
            Country::SD => 729,
            Country::SE => 752,
            Country::SG => 702,
            Country::SH => 654,
            Country::SI => 705,
            Country::SJ => 744,
            Country::SK => 703,
            Country::SL => 694,
            Country::SM => 674,
            Country::SN => 686,
            Country::SO => 706,
            Country::SR => 740,
            Country::SS => 728,
            Country::ST => 678,
            Country::SV => 222,
            Country::SX => 534,
            Country::SY => 760,
            Country::SZ => 748,
            Country::TC => 796,
            Country::TD => 148,
            Country::TF => 260,
            Country::TG => 768,
            Country::TH => 764,
            Country::TJ => 762,
            Country::TK => 772,
            Country::TL => 626,
            Country::TM => 795,
            Country::TN => 788,
            Country::TO => 776,
            Country::TR => 792,
            Country::TT => 780,
            Country::TV => 798,
            Country::TW => 158,
            Country::TZ => 834,
            Country::UA => 804,
            Country::UG => 800,
            Country::UM => 581,
            Country::US => 840,
            Country::UY => 858,
            Country::UZ => 860,
            Country::VA => 336,
            Country::VC => 670,
            Country::VE => 862,
            Country::VG => 92,
            Country::VI => 850,
            Country::VN => 704,
            Country::VU => 548,
            Country::WF => 876,
            Country::WS => 882,
            Country::YE => 887,
            Country::YT => 175,
            Country::ZA => 710,
            Country::ZM => 894,
            Country::ZW => 716,
        }
    }
}

} // verus!
