//! Checks on command-line values: each gives `Ok(())` or the message that
//! tells the user what is wrong. Where a check depends on the file system,
//! the caller looks and passes what it found.
use crate::numeric::{parse_u64, parsed_u64};
use crate::text::str_eq;
use vstd::prelude::*;

verus! {

/// Which half of a key pair.
#[derive(Clone, Copy, Debug, PartialEq, Eq, Structural)]
pub enum KeyType {
    Public,
    Secret,
}

/// The key type that `s` names: "public" or "secret".
pub open spec fn key_type_of(s: Seq<char>) -> Option<KeyType> {
    if s == "public"@ {
        Some(KeyType::Public)
    } else if s == "secret"@ {
        Some(KeyType::Secret)
    } else {
        None
    }
}

impl KeyType {
    /// Reads a key type; the error holds the text that names none.
    pub fn from_str(value: &str) -> (r: Result<KeyType, String>)
        ensures
            key_type_of(value@) matches Some(k) ==> r == Ok::<KeyType, String>(k),
            key_type_of(value@) is None ==> (r matches Err(e) && e@ == value@),
    {
        if str_eq(value, "public") {
            Ok(KeyType::Public)
        } else if str_eq(value, "secret") {
            Ok(KeyType::Secret)
        } else {
            Err(String::from_str(value))
        }
    }
}

/// Accepts "public" and "secret".
pub fn valid_key_type(val: String) -> (r: Result<(), String>)
    ensures
        key_type_of(val@) is Some ==> r is Ok,
        key_type_of(val@) is None ==> (r matches Err(e) && e@ == "KEY_TYPE: "@ + val@
            + " is invalid, must be one of (public, secret)"@),
{
    match KeyType::from_str(val.as_str()) {
        Ok(_) => Ok(()),
        Err(_) => Err(
            String::from_str("KEY_TYPE: ").concat(val.as_str()).concat(
                " is invalid, must be one of (public, secret)",
            ),
        ),
    }
}

/// Accepts a path that names a directory; `is_dir` is what the file system
/// says of it.
pub fn dir_exists(val: String, is_dir: bool) -> (r: Result<(), String>)
    ensures
        is_dir ==> r is Ok,
        !is_dir ==> (r matches Err(e) && e@ == "Directory: '"@ + val@ + "' cannot be found"@),
{
    if is_dir {
        Ok(())
    } else {
        Err(String::from_str("Directory: '").concat(val.as_str()).concat("' cannot be found"))
    }
}

/// Accepts a path that names a file; `is_file` is what the file system says
/// of it.
pub fn file_exists(val: String, is_file: bool) -> (r: Result<(), String>)
    ensures
        is_file ==> r is Ok,
        !is_file ==> (r matches Err(e) && e@ == "File: '"@ + val@ + "' cannot be found"@),
{
    if is_file {
        Ok(())
    } else {
        Err(String::from_str("File: '").concat(val.as_str()).concat("' cannot be found"))
    }
}

/// Accepts "-", which stands for standard input, or a path that names a
/// file; `is_file` is what the file system says of the path.
pub fn file_exists_or_stdin(val: String, is_file: bool) -> (r: Result<(), String>)
    ensures
        val@ == "-"@ || is_file ==> r is Ok,
        !(val@ == "-"@ || is_file) ==> (r matches Err(e) && e@ == "File: '"@ + val@
            + "' cannot be found"@),
{
    if str_eq(val.as_str(), "-") {
        Ok(())
    } else {
        file_exists(val, is_file)
    }
}

/// Accepts a count: a decimal number that fits in 64 bits.
pub fn valid_numeric(val: String) -> (r: Result<(), String>)
    ensures
        parsed_u64(val@) is Some ==> r is Ok,
        parsed_u64(val@) is None ==> (r matches Err(e) && e@ == "'"@ + val@
            + "' is not a valid number"@),
{
    match parse_u64(val.as_str()) {
        Some(_) => Ok(()),
        None => Err(String::from_str("'").concat(val.as_str()).concat("' is not a valid number")),
    }
}

/// Accepts any value but the empty one.
pub fn non_empty(val: String) -> (r: Result<(), String>)
    ensures
        val@.len() > 0 ==> r is Ok,
        val@.len() == 0 ==> (r matches Err(e) && e@ == "must not be empty (check env overrides)"@),
{
    if val.as_str().unicode_len() == 0 {
        Err(String::from_str("must not be empty (check env overrides)"))
    } else {
        Ok(())
    }
}

/// Whether the URL parser accepts `s`.
pub uninterp spec fn parses_as_url(s: Seq<char>) -> bool;

/// Relies on `url::Url::parse`: whether it accepts a string depends on the
/// string alone.
#[verifier::external_body]
fn url_parses(s: &str) -> (r: bool)
    ensures
        r == parses_as_url(s@),
{
    url::Url::parse(s).is_ok()
}

/// The verdict on `val` once the URL parser has said whether it accepts it.
pub fn url_verdict(val: String, parses: bool) -> (r: Result<(), String>)
    ensures
        parses ==> r is Ok,
        !parses ==> (r matches Err(e) && e@ == "URL: '"@ + val@ + "' is not valid"@),
{
    if parses {
        Ok(())
    } else {
        Err(String::from_str("URL: '").concat(val.as_str()).concat("' is not valid"))
    }
}

/// Accepts a value that the URL parser accepts.
pub fn valid_url(val: String) -> (r: Result<(), String>)
    ensures
        parses_as_url(val@) ==> r is Ok,
        !parses_as_url(val@) ==> (r matches Err(e) && e@ == "URL: '"@ + val@ + "' is not valid"@),
{
    let parses = url_parses(val.as_str());
    url_verdict(val, parses)
}

} // verus!
