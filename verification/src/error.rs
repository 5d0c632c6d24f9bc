//! Why a request is refused.

use vstd::prelude::*;

verus! {

/// Why a request is refused. `E` is what the managers of the application
/// report.
#[derive(Debug)]
pub enum APIError<E> {
    /// The album art pattern is not a regular expression.
    InvalidAlbumArtPattern,
    /// The dynamic DNS update URL is not a URI.
    InvalidDDNSURL,
    /// Administrators cannot take their own administrator rights away.
    OwnAdminPrivilegeRemoval,
    /// Administrators cannot delete their own account.
    DeletingOwnAccount,
    /// The audio file could not be read.
    AudioFileIOError,
    /// The thumbnail file could not be read.
    ThumbnailFileIOError,
    /// A manager of the application refused.
    Manager(E),
}

/// The status that a refused request is answered with. What a manager reports
/// carries a status of its own.
pub open spec fn status_of<E>(error: APIError<E>) -> Option<u16> {
    match error {
        APIError::InvalidAlbumArtPattern | APIError::InvalidDDNSURL => Some(400),
        APIError::OwnAdminPrivilegeRemoval | APIError::DeletingOwnAccount => Some(409),
        APIError::AudioFileIOError | APIError::ThumbnailFileIOError => Some(404),
        APIError::Manager(_) => None,
    }
}

/// The status that a refused request is answered with: 400 where the request
/// cannot be read, 409 where administrators turn on themselves, 404 where a file
/// cannot be read, and none where a manager refused.
pub fn status<E>(error: &APIError<E>) -> (code: Option<u16>)
    ensures
        code == status_of(*error),
{
    match error {
        APIError::InvalidAlbumArtPattern | APIError::InvalidDDNSURL => Some(400),
        APIError::OwnAdminPrivilegeRemoval | APIError::DeletingOwnAccount => Some(409),
        APIError::AudioFileIOError | APIError::ThumbnailFileIOError => Some(404),
        APIError::Manager(_) => None,
    }
}

/// What a request is answered when all that is left to know is whether a
/// manager succeeded: its result, with its refusal passed on.
pub open spec fn passed_on<T, E>(outcome: Result<T, E>) -> Result<T, APIError<E>> {
    match outcome {
        Ok(value) => Ok(value),
        Err(e) => Err(APIError::Manager(e)),
    }
}

/// Passes the refusal of a manager on.
pub fn pass_on<T, E>(outcome: Result<T, E>) -> (answer: Result<T, APIError<E>>)
    ensures
        answer == passed_on(outcome),
{
    match outcome {
        Ok(value) => Ok(value),
        Err(e) => Err(APIError::Manager(e)),
    }
}

} // verus!
