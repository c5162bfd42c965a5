//! The ways in which an operation can fail.

use vstd::prelude::*;
use vstd::string::*;

verus! {

/// Why an operation failed. `E` is the daemon's own error value; it is
/// carried to the caller unchanged.
#[derive(Debug, PartialEq, Eq)]
pub enum ServiceError<E> {
    /// No collection or item matches the request.
    NotFound,
    /// The connection or a daemon call failed in a way that the store cannot
    /// interpret.
    PlatformFailure(E),
    /// The daemon's answer could not be obtained or interpreted.
    DecodeFailure(E),
    /// The operation is one that the store never performs; the text says
    /// why.
    NotSupportedByStore(String),
    /// The connection is unusable: an earlier operation failed while it held
    /// the connection, or the daemon's replies no longer fit the requests.
    Fatal,
}

/// The mathematical content of a [`ServiceError`].
pub enum ServiceErrorView<E> {
    NotFound,
    PlatformFailure(E),
    DecodeFailure(E),
    NotSupportedByStore(Seq<char>),
    Fatal,
}

impl<E> View for ServiceError<E> {
    type V = ServiceErrorView<E>;

    open spec fn view(&self) -> ServiceErrorView<E> {
        match self {
            ServiceError::NotFound => ServiceErrorView::NotFound,
            ServiceError::PlatformFailure(cause) => ServiceErrorView::PlatformFailure(*cause),
            ServiceError::DecodeFailure(cause) => ServiceErrorView::DecodeFailure(*cause),
            ServiceError::NotSupportedByStore(reason) => ServiceErrorView::NotSupportedByStore(
                reason@,
            ),
            ServiceError::Fatal => ServiceErrorView::Fatal,
        }
    }
}

impl<E> ServiceError<E> {
    /// The failure of a daemon call that the store cannot interpret.
    pub fn platform_failure(cause: E) -> (error: ServiceError<E>)
        ensures
            error@ == ServiceErrorView::PlatformFailure(cause),
    {
        ServiceError::PlatformFailure(cause)
    }

    /// The failure to obtain or interpret a daemon answer.
    pub fn decode_error(cause: E) -> (error: ServiceError<E>)
        ensures
            error@ == ServiceErrorView::DecodeFailure(cause),
    {
        ServiceError::DecodeFailure(cause)
    }
}

} // verus!
