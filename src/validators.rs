use validator::ValidateEmail;
use vstd::prelude::*;

verus! {

/// Whether a text is one JSON document, as serde_json reads it.
pub uninterp spec fn json_document(s: Seq<char>) -> bool;

/// Whether a text is an e-mail address, as the validator crate judges it
/// (the HTML5 rules, with length limits on both parts).
pub uninterp spec fn email_address(s: Seq<char>) -> bool;

/// Relies on `serde_json::from_str::<serde_json::Value>`: it succeeds exactly
/// on the texts that hold one JSON value; an empty text holds none.
#[verifier::external_body]
fn parses_as_json(s: &str) -> (r: bool)
    ensures
        r == json_document(s@),
        s@.len() == 0 ==> !r,
{
    serde_json::from_str::<serde_json::Value>(s).is_ok()
}

/// Relies on `validator::ValidateEmail::validate_email` on `&str`: it rejects
/// a text without an `@` (the empty text among them) before any other rule.
#[verifier::external_body]
fn validates_as_email(s: &str) -> (r: bool)
    ensures
        r == email_address(s@),
        !s@.contains('@') ==> !r,
{
    s.validate_email()
}

/// The SQL check `is_json(x)`: a NULL passes, a text passes when it is one
/// JSON document.
pub fn is_json(value: Option<&str>) -> (r: bool)
    ensures
        r == match value {
            None => true,
            Some(s) => json_document(s@),
        },
        value matches Some(s) && s@.len() == 0 ==> !r,
{
    match value {
        Some(s) => parses_as_json(s),
        None => true,
    }
}

/// The SQL check `is_email(x)`: a NULL passes, a text passes when it is an
/// e-mail address.
pub fn is_email(value: Option<&str>) -> (r: bool)
    ensures
        r == match value {
            None => true,
            Some(s) => email_address(s@),
        },
        value matches Some(s) && !s@.contains('@') ==> !r,
{
    match value {
        Some(s) => validates_as_email(s),
        None => true,
    }
}

} // verus!
