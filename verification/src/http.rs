//! How the answers of the backend are read.

use vstd::prelude::*;

verus! {

/// What came back from one request to the backend.
#[derive(Clone, Debug, PartialEq, Eq)]
pub enum HttpReply<T> {
    /// No answer at all: the backend could not be reached.
    Unreachable,
    /// An answer with its status code and, where the body could be decoded,
    /// the payload it carried.
    Answered { status: u16, payload: Option<T> },
}

/// The classes of status the agent tells apart.
#[derive(Clone, Copy, Debug, PartialEq, Eq, Structural)]
pub enum StatusClass {
    Success,
    BadRequest,
    Unauthorized,
    NotFound,
    ServerError,
    Other,
}

/// The class of a status code: 2xx is success, 400, 401, 404 and 500 have a
/// class of their own, every other code is `Other`.
pub open spec fn status_class(status: u16) -> StatusClass {
    if 200 <= status && status <= 299 {
        StatusClass::Success
    } else if status == 400 {
        StatusClass::BadRequest
    } else if status == 401 {
        StatusClass::Unauthorized
    } else if status == 404 {
        StatusClass::NotFound
    } else if status == 500 {
        StatusClass::ServerError
    } else {
        StatusClass::Other
    }
}

/// Classifies a status code.
pub fn classify_status(status: u16) -> (class: StatusClass)
    ensures
        class == status_class(status),
{
    if 200 <= status && status <= 299 {
        StatusClass::Success
    } else if status == 400 {
        StatusClass::BadRequest
    } else if status == 401 {
        StatusClass::Unauthorized
    } else if status == 404 {
        StatusClass::NotFound
    } else if status == 500 {
        StatusClass::ServerError
    } else {
        StatusClass::Other
    }
}

} // verus!
