use vstd::prelude::*;
use crate::error::DownloadError;

verus! {

/// Whether `url::Url::parse` accepts `s` as an absolute URL.  The parser is a
/// pure function of the characters, so the outcome is the same on every call.
pub uninterp spec fn url_ok(s: Seq<char>) -> bool;

/// Relies on `url::Url::parse` (the parser behind `reqwest::Url`): it returns
/// `Ok` exactly when the string parses as a well-formed absolute URL, and its
/// outcome depends on the input string alone.
#[verifier::external_body]
fn parse_accepts(s: &str) -> (r: bool)
    ensures
        r == url_ok(s@),
{
    url::Url::parse(s).is_ok()
}

/// Validates the target string before any connection is attempted: a string
/// that does not parse as an absolute URL is refused with `InvalidUrl`, and
/// only a validated string may be handed to the network.
pub fn validate_url(target: &str) -> (r: Result<(), DownloadError>)
    ensures
        r is Ok <==> url_ok(target@),
        !url_ok(target@) ==> r == Result::<(), DownloadError>::Err(DownloadError::InvalidUrl),
{
    if parse_accepts(target) {
        Ok(())
    } else {
        Err(DownloadError::InvalidUrl)
    }
}

} // verus!
