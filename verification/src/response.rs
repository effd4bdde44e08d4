//! The response envelope delivered for every completed request.

use vstd::prelude::*;

verus! {

/// Terminal outcome of one portal operation.
///
/// Exactly one `Response` is produced per request. A payload is carried only
/// by `Success`; `Cancelled` and `Other` never expose one.
pub enum Response<T> {
    /// The operation completed and produced a payload.
    Success(T),
    /// Cancellation won the race against the business operation.
    Cancelled,
    /// The operation failed for any other reason; no detail is leaked.
    Other,
}

impl<T> Response<T> {
    /// Builds the anonymous-failure response.
    pub fn other() -> (r: Self)
        ensures
            r is Other,
    {
        Response::Other
    }

    /// Builds the cancellation response.
    pub fn cancelled() -> (r: Self)
        ensures
            r is Cancelled,
    {
        Response::Cancelled
    }

    /// True exactly on the `Success` variant.
    pub fn is_success(&self) -> (b: bool)
        ensures
            b == (self is Success),
    {
        matches!(self, Response::Success(_))
    }

    /// True exactly on the `Cancelled` variant.
    pub fn is_cancelled(&self) -> (b: bool)
        ensures
            b == (self is Cancelled),
    {
        matches!(self, Response::Cancelled)
    }

    /// True exactly on the `Other` variant.
    pub fn is_other(&self) -> (b: bool)
        ensures
            b == (self is Other),
    {
        matches!(self, Response::Other)
    }

    /// Hands out the payload, which only `Success` carries.
    pub fn into_payload(self) -> (r: Option<T>)
        ensures
            r matches Some(v) <==> self matches Response::Success(v),
            self is Cancelled ==> r is None,
            self is Other ==> r is None,
    {
        match self {
            Response::Success(v) => Some(v),
            Response::Cancelled => None,
            Response::Other => None,
        }
    }
}

} // verus!
