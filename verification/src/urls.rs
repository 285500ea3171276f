use vstd::prelude::*;

use crate::errors::InstallError;

verus! {

#[verifier::external_type_specification]
#[verifier::external_body]
pub struct ExUrlParseError(url::ParseError);

/// The normalized serialization of a well-formed URL string.
pub uninterp spec fn url_normalized(s: Seq<char>) -> Seq<char>;

/// Relies on url::Url::parse and url::Url::as_str: parsing depends on the
/// input string alone, and `as_str` returns the parsed URL's normalized
/// serialization.
#[verifier::external_body]
fn parse_url_raw(s: &str) -> (r: Result<String, url::ParseError>)
    ensures
        r matches Ok(u) ==> u@ == url_normalized(s@),
{
    match url::Url::parse(s) {
        Ok(u) => Ok(String::from(u.as_str())),
        Err(e) => Err(e),
    }
}

/// Check that a task URL is well-formed before any fetch is attempted,
/// returning its normalized form, or the parse failure as the library's own
/// error kind.
pub fn validate_url(s: &String) -> (r: Result<String, InstallError>)
    ensures
        r matches Ok(u) ==> u@ == url_normalized(s@),
        r matches Err(e) ==> e == InstallError::ParseError,
{
    match parse_url_raw(s.as_str()) {
        Ok(u) => Ok(u),
        Err(_) => Err(InstallError::ParseError),
    }
}

} // verus!
