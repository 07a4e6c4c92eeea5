//! The errors that reach the host, and how a failure of the remote client
//! is sorted into them.
use crate::sdk::{
    failure_text, failure_text_of, link_failure, link_failure_of, request_failure,
    request_failure_of,
};
use nacos_sdk::api::error::Error;
use vstd::prelude::*;

verus! {

/// The kind of failure that the remote client reported.
#[derive(Clone, Copy, Debug, PartialEq, Eq, Structural)]
pub enum RemoteFailure {
    /// A message could not be encoded or decoded.
    Serialization,
    /// The server answered without a usable result.
    ErrResult,
    /// The remote client refused a parameter.
    InvalidParam,
    /// The server answered with an error code.
    ErrResponse,
    /// The configuration asked for does not exist.
    ConfigNotFound,
    /// The configuration is being modified by someone else.
    ConfigQueryConflict,
    /// The remote client has been shut down.
    ClientShutdown,
    /// The remote client has no healthy connection.
    ClientUnhealthy,
    /// The transport under the connection failed.
    GrpcTransport,
    /// The call ended with a transport status.
    GrpcStatus,
    /// The request could not be queued on the connection.
    GrpcBufferRequest,
    /// No server of the address list can be reached.
    NoAvailableServer,
    /// The address list cannot be used.
    WrongServerAddress,
    /// A failure that this crate has no name for.
    Other,
}

/// An error as the host sees it.
#[derive(Clone, Debug, PartialEq, Eq)]
pub enum NacosError {
    /// The registry cannot be reached, or refuses the session.
    Connection(String),
    /// An argument is malformed; the text names it.
    Validation(String),
    /// The server rejected the request; the text is the server's detail.
    RemoteOperation(String),
    /// A handler failed on an event. Only ever handed out for logging.
    Delivery(String),
    /// The client handle has been shut down.
    Closed,
}

/// The mathematical value of a [`NacosError`].
pub enum NacosErrorView {
    Connection(Seq<char>),
    Validation(Seq<char>),
    RemoteOperation(Seq<char>),
    Delivery(Seq<char>),
    Closed,
}

impl View for NacosError {
    type V = NacosErrorView;

    open spec fn view(&self) -> NacosErrorView {
        match self {
            NacosError::Connection(text) => NacosErrorView::Connection(text@),
            NacosError::Validation(text) => NacosErrorView::Validation(text@),
            NacosError::RemoteOperation(text) => NacosErrorView::RemoteOperation(text@),
            NacosError::Delivery(text) => NacosErrorView::Delivery(text@),
            NacosError::Closed => NacosErrorView::Closed,
        }
    }
}

/// The kind of an SDK error: what the request or the server caused, where
/// the error is of that sort, and else what became of the connection.
pub open spec fn failure_kind_of(err: Error) -> RemoteFailure {
    match request_failure_of(err) {
        Some(kind) => kind,
        None => link_failure_of(err),
    }
}

/// Whether a failure means that the registry could not be reached.
pub open spec fn is_connection_failure(kind: RemoteFailure) -> bool {
    kind is ClientShutdown || kind is ClientUnhealthy || kind is GrpcTransport
        || kind is GrpcStatus || kind is GrpcBufferRequest || kind is NoAvailableServer
        || kind is WrongServerAddress || kind is Other
}

/// The error that the host sees for a failure of the given kind and detail:
/// a refused parameter is a validation error, a lost or unusable connection
/// is a connection error, and everything the server itself said no to is a
/// remote operation error. The detail is kept as it is.
pub open spec fn classified(kind: RemoteFailure, detail: Seq<char>) -> NacosErrorView {
    if kind is InvalidParam {
        NacosErrorView::Validation(detail)
    } else if is_connection_failure(kind) {
        NacosErrorView::Connection(detail)
    } else {
        NacosErrorView::RemoteOperation(detail)
    }
}

/// The host's error for an error of the SDK: its variant decides the kind,
/// and its rendering is the detail.
pub open spec fn remote_error(err: Error) -> NacosErrorView {
    classified(failure_kind_of(err), failure_text_of(err))
}

impl NacosError {
    /// Sorts a failure of the remote client into the host's errors.
    pub fn classify(kind: RemoteFailure, detail: String) -> (err: NacosError)
        ensures
            err@ == classified(kind, detail@),
    {
        match kind {
            RemoteFailure::InvalidParam => NacosError::Validation(detail),
            RemoteFailure::ClientShutdown
            | RemoteFailure::ClientUnhealthy
            | RemoteFailure::GrpcTransport
            | RemoteFailure::GrpcStatus
            | RemoteFailure::GrpcBufferRequest
            | RemoteFailure::NoAvailableServer
            | RemoteFailure::WrongServerAddress
            | RemoteFailure::Other => NacosError::Connection(detail),
            RemoteFailure::Serialization
            | RemoteFailure::ErrResult
            | RemoteFailure::ErrResponse
            | RemoteFailure::ConfigNotFound
            | RemoteFailure::ConfigQueryConflict => NacosError::RemoteOperation(detail),
        }
    }

    /// The host's error for an error of the SDK.
    pub fn from_remote(err: &Error) -> (mapped: NacosError)
        ensures
            mapped@ == remote_error(*err),
    {
        let kind = match request_failure(err) {
            Some(kind) => kind,
            None => link_failure(err),
        };
        let detail = failure_text(err);
        NacosError::classify(kind, detail)
    }

    /// Whether the error is of a kind that is raised to a caller. A delivery
    /// error is not: nobody waits on a push.
    pub fn is_surfaced(&self) -> (surfaced: bool)
        ensures
            surfaced == !(self@ is Delivery),
    {
        match self {
            NacosError::Delivery(_) => false,
            _ => true,
        }
    }
}

/// Passes a reply of the remote client on to the host: a value as it is, an
/// error sorted into the host's errors.
pub fn remote_result<T>(reply: Result<T, Error>) -> (out: Result<T, NacosError>)
    ensures
        match reply {
            Ok(value) => out is Ok && out->Ok_0 == value,
            Err(err) => out is Err && out->Err_0@ == remote_error(err),
        },
{
    match reply {
        Ok(value) => Ok(value),
        Err(err) => Err(NacosError::from_remote(&err)),
    }
}

} // verus!
