use vstd::prelude::*;

verus! {

/// The ways a single download invocation can fail.  Every kind is terminal:
/// nothing is retried or recovered into a partial success.
#[derive(Debug, PartialEq, Eq)]
pub enum DownloadError {
    /// The input string is not a well-formed absolute URL; the failure comes
    /// before any connection is attempted.
    InvalidUrl,
    /// The request could not be sent, or the connection broke while the body
    /// streamed; carries the underlying cause.
    TransferError(String),
    /// The origin answered with a status outside the 2xx range.
    HttpStatusError(u16),
    /// The destination file could not be created or written.
    IoError(String),
}

impl DownloadError {
    /// A short description of the error kind, for reporting.
    pub fn describe(&self) -> (r: &'static str)
        ensures
            self is InvalidUrl ==> r@ == "invalid URL"@,
            self is TransferError ==> r@ == "transfer failed"@,
            self is HttpStatusError ==> r@ == "unexpected HTTP status"@,
            self is IoError ==> r@ == "could not write the output file"@,
    {
        match self {
            DownloadError::InvalidUrl => "invalid URL",
            DownloadError::TransferError(_) => "transfer failed",
            DownloadError::HttpStatusError(_) => "unexpected HTTP status",
            DownloadError::IoError(_) => "could not write the output file",
        }
    }
}

} // verus!
