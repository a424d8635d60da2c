//! Classification of the billing API's answers.
use vstd::prelude::*;

verus! {

/// Why a pending invoice could not be obtained.
#[derive(Debug, Clone, Copy, PartialEq, Eq, Structural)]
pub enum FetchError {
    /// The API answered 404.
    NotFound,
    /// The API answered 403.
    Forbidden,
    /// The API answered 401.
    Unauthorized,
    /// The request never got an answer (connection, TLS, timeout).
    Transport,
    /// The API answered with a status other than 200, 401, 403 or 404.
    UnknownCode(u16),
    /// The body was not a well-formed invoice document.
    Decode,
}

/// What an HTTP status of the billing API means for the current pass.
pub open spec fn status_outcome(code: u16) -> Result<(), FetchError> {
    if code == 404 {
        Err(FetchError::NotFound)
    } else if code == 403 {
        Err(FetchError::Forbidden)
    } else if code == 401 {
        Err(FetchError::Unauthorized)
    } else if code == 200 {
        Ok(())
    } else {
        Err(FetchError::UnknownCode(code))
    }
}

/// Decides whether a response with status `code` carries an invoice; only
/// 200 does, every other status is terminal for the pass.
pub fn check_status(code: u16) -> (r: Result<(), FetchError>)
    ensures
        r == status_outcome(code),
        r is Ok <==> code == 200,
{
    match code {
        404 => Err(FetchError::NotFound),
        403 => Err(FetchError::Forbidden),
        401 => Err(FetchError::Unauthorized),
        200 => Ok(()),
        _ => Err(FetchError::UnknownCode(code)),
    }
}

} // verus!
