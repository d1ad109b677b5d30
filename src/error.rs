use vstd::prelude::*;

verus! {

/// The ways a bucket operation can fail.
#[derive(Debug, PartialEq, Eq)]
pub enum S3Error {
    /// The secure transport could not be set up.
    TransportInit(String),
    /// The request could not be issued or completed.
    Request(String),
    /// The store answered with a status outside 2xx.
    BadStatus(u16),
    /// The response body stream broke off.
    BodyRead(String),
    /// The body had `.0` bytes where `.1` were announced.
    BodySizeMismatch(usize, usize),
}

/// A status in the success range.
pub open spec fn is_success(status: u16) -> bool {
    200 <= status && status < 300
}

/// What a response status means for the operation: success, or `BadStatus`.
pub fn check_status(status: u16) -> (r: Result<(), S3Error>)
    ensures
        is_success(status) ==> r == Ok::<(), S3Error>(()),
        !is_success(status) ==> r == Err::<(), S3Error>(S3Error::BadStatus(status)),
{
    if 200 <= status && status < 300 {
        Ok(())
    } else {
        Err(S3Error::BadStatus(status))
    }
}

} // verus!
