//! The backends that a sink can deliver through, under one interface.
use crate::auth::AuthenticationMethod;
use crate::endpoint::{push_path, url_joined};
use crate::noop::NoopBackend;
use crate::request::{is_push_request, HttpRequest};
use crate::reqwest::ReqwestBackend;
use crate::ureq::{UreqBackend, REQUEST_TIMEOUT_SECS};
use vstd::prelude::*;

verus! {

/// The networking backends that can be selected.
#[derive(Clone, Copy, Debug, PartialEq, Eq, Structural)]
pub enum NetworkingBackend {
    /// Does what it says: nothing at all.
    Noop,
    /// Sends each batch in a blocking request.
    Ureq,
    /// Sends each batch from a background task.
    Reqwest,
}

impl NetworkingBackend {
    /// Whether the backend delivers in the background.
    pub open spec fn spec_is_async(&self) -> bool {
        *self == NetworkingBackend::Reqwest
    }

    /// Whether the backend delivers in the background.
    #[verifier::when_used_as_spec(spec_is_async)]
    pub fn is_async(&self) -> (r: bool)
        ensures
            r == self.spec_is_async(),
    {
        matches!(self, NetworkingBackend::Reqwest)
    }
}

/// The backend of a sink: one of the three kinds, with what it needs.
#[derive(Debug)]
pub enum Backend {
    Noop(NoopBackend),
    Ureq(UreqBackend),
    Reqwest(ReqwestBackend),
}

/// What is left to do for a batch once the backend has taken it.
#[derive(Debug)]
pub enum Delivery {
    /// Nothing: the batch was dropped, as the backend is meant to.
    Discarded,
    /// Send this request and wait for the answer; a failure is an error of
    /// the flush.
    Blocking(HttpRequest),
    /// Hand this request to a background task. The flush has succeeded as
    /// soon as the task is enqueued; what becomes of the request later is
    /// not reported to the caller of the flush.
    Background(HttpRequest),
}

impl Backend {
    /// The kind of the backend.
    pub open spec fn kind(self) -> NetworkingBackend {
        match self {
            Backend::Noop(_) => NetworkingBackend::Noop,
            Backend::Ureq(_) => NetworkingBackend::Ureq,
            Backend::Reqwest(_) => NetworkingBackend::Reqwest,
        }
    }

    /// The backend can take a batch: it needs no address, or the address
    /// of the push API can be made from its endpoint.
    pub open spec fn accepts(self) -> bool {
        match self {
            Backend::Noop(_) => true,
            Backend::Ureq(b) => url_joined(b.endpoint@, push_path()) is Some,
            Backend::Reqwest(b) => url_joined(b.endpoint@, push_path()) is Some,
        }
    }

    /// `delivery` is what this backend leaves to be done for `payload`.
    pub open spec fn delivers(self, payload: Seq<u8>, delivery: Delivery) -> bool {
        match self {
            Backend::Noop(_) => delivery is Discarded,
            Backend::Ureq(b) => delivery matches Delivery::Blocking(request) && is_push_request(
                request,
                b.endpoint@,
                b.authentication,
                b.credentials@,
                payload,
                Some(REQUEST_TIMEOUT_SECS),
            ),
            Backend::Reqwest(b) => delivery matches Delivery::Background(request)
                && is_push_request(
                request,
                b.endpoint@,
                b.authentication,
                b.credentials@,
                payload,
                None,
            ),
        }
    }

    /// Takes a serialized batch. The backend that does nothing drops it.
    /// The others describe the request that delivers it, to be sent at
    /// once or in the background; they fail only where the address of the
    /// push API cannot be made.
    pub fn send(&self, serialized_stream: Vec<u8>) -> (r: Result<Delivery, String>)
        ensures
            r is Ok <==> self.accepts(),
            r matches Ok(delivery) ==> self.delivers(serialized_stream@, delivery),
    {
        match self {
            Backend::Noop(b) => {
                match b.send(serialized_stream) {
                    Ok(_) => Ok(Delivery::Discarded),
                    Err(e) => Err(e),
                }
            },
            Backend::Ureq(b) => {
                match b.request(serialized_stream) {
                    Ok(request) => Ok(Delivery::Blocking(request)),
                    Err(e) => Err(e),
                }
            },
            Backend::Reqwest(b) => {
                match b.request(serialized_stream) {
                    Ok(request) => Ok(Delivery::Background(request)),
                    Err(e) => Err(e),
                }
            },
        }
    }

    /// The kind of the backend.
    pub fn internal_type(&self) -> (r: NetworkingBackend)
        ensures
            r == self.kind(),
    {
        match self {
            Backend::Noop(b) => b.internal_type(),
            Backend::Ureq(b) => b.internal_type(),
            Backend::Reqwest(b) => b.internal_type(),
        }
    }

    /// The way in which the backend authenticates.
    pub open spec fn spec_authentication(self) -> AuthenticationMethod {
        match self {
            Backend::Noop(_) => AuthenticationMethod::NoAuth,
            Backend::Ureq(b) => b.authentication,
            Backend::Reqwest(b) => b.authentication,
        }
    }

    /// The encoded credentials that the backend holds; empty for none.
    pub open spec fn spec_credentials(self) -> Seq<char> {
        match self {
            Backend::Noop(_) => Seq::empty(),
            Backend::Ureq(b) => b.credentials@,
            Backend::Reqwest(b) => b.credentials@,
        }
    }

    /// The way in which the backend authenticates.
    pub fn authentication_method(&self) -> (r: AuthenticationMethod)
        ensures
            r == self.spec_authentication(),
    {
        match self {
            Backend::Noop(b) => b.authentication_method(),
            Backend::Ureq(b) => b.authentication_method(),
            Backend::Reqwest(b) => b.authentication_method(),
        }
    }

    /// The encoded credentials, or `None` where the backend holds none.
    pub fn credentials(&self) -> (r: Option<String>)
        ensures
            r is Some <==> self.spec_credentials().len() > 0,
            r matches Some(c) ==> c@ == self.spec_credentials(),
    {
        match self {
            Backend::Noop(b) => b.credentials(),
            Backend::Ureq(b) => b.credentials(),
            Backend::Reqwest(b) => b.credentials(),
        }
    }
}

} // verus!
