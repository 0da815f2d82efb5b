//! What this library takes on trust: the types and functions of other
//! crates, and of std where vstd is silent, that the engine touches. Nothing
//! here is proved; every contract restates the documentation of the item it
//! names.

use vstd::prelude::*;
use vstd::utf8::{decode_utf8, valid_utf8};

verus! {

/// The error of the `csv` crate. Opaque: it is only carried.
#[verifier::external_type_specification]
#[verifier::external_body]
pub struct ExCsvError(csv::Error);

/// The error of std's I/O. Opaque: it is only carried.
#[verifier::external_type_specification]
#[verifier::external_body]
pub struct ExIoError(std::io::Error);

/// The error of `regex::Regex::new`. Opaque: it is only carried.
#[verifier::external_type_specification]
#[verifier::external_body]
pub struct ExRegexError(regex::Error);

/// The error of `String::from_utf8`. Opaque: it is only carried.
#[verifier::external_type_specification]
#[verifier::external_body]
pub struct ExFromUtf8Error(std::string::FromUtf8Error);

/// The error of the `serde_yaml` crate. Opaque: it is only carried.
#[verifier::external_type_specification]
#[verifier::external_body]
pub struct ExYamlError(serde_yaml::Error);

/// A compiled regular expression of the `regex` crate. Opaque: all that is
/// said of one is which pattern it was compiled from.
#[verifier::external_type_specification]
#[verifier::external_body]
pub struct ExRegex(regex::Regex);

/// Whether `regex::Regex::new` accepts `pattern`: it is valid syntax and
/// compiles within the crate's default size limit.
pub uninterp spec fn pattern_compiles(pattern: Seq<char>) -> bool;

/// The pattern of a regex that `regex::Regex::new` made: the text it was
/// compiled from. This library makes regexes in no other way.
pub uninterp spec fn pattern_of(re: regex::Regex) -> Seq<char>;

/// Whether `regex::Regex::is_match`, on the regex that `regex::Regex::new`
/// makes of `pattern`, finds a match anywhere in `text`.
pub uninterp spec fn pattern_matches(pattern: Seq<char>, text: Seq<char>) -> bool;

/// `regex::Regex::new` returns a regex exactly for the patterns it accepts,
/// and an error for the others. The regex is one of the pattern given.
pub assume_specification[ regex::Regex::new ](re: &str) -> (r: Result<regex::Regex, regex::Error>)
    ensures
        r is Ok <==> pattern_compiles(re@),
        r matches Ok(compiled) ==> pattern_of(compiled) == re@,
;

/// `regex::Regex::is_match` says whether the regex matches anywhere in the
/// haystack. For a regex that `regex::Regex::new` made, that depends on its
/// pattern and on the haystack alone. Its documentation names no haystack on
/// which it panics.
pub assume_specification[ regex::Regex::is_match ](re: &regex::Regex, haystack: &str) -> (b: bool)
    ensures
        b == pattern_matches(pattern_of(*re), haystack@),
;

/// `String::from_utf8` returns a string exactly when the bytes are valid
/// UTF-8, and an error otherwise. The string is made of the characters that
/// the bytes encode.
pub assume_specification[ std::string::String::from_utf8 ](vec: Vec<u8>) -> (r: Result<
    String,
    std::string::FromUtf8Error,
>)
    ensures
        r is Ok <==> valid_utf8(vec@),
        r matches Ok(s) ==> s@ == decode_utf8(vec@),
;

} // verus!
