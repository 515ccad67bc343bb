//! ISO 3166-1 country codes: a closed set of countries with their alpha-2
//! codes, English short names and numeric codes, and the conversions between
//! them.

pub mod country;
pub mod names;
pub mod parse;
pub mod table;

pub use country::Country;
pub use parse::CountryParseError;
