//! The backend that sends each batch in one blocking request.
use crate::auth::AuthenticationMethod;
use crate::backend::NetworkingBackend;
use crate::endpoint::{push_path, url_joined, Endpoint};
use crate::request::{delivered, is_push_request, push_request, HttpRequest, SendOutcome};
use crate::text::{decimal, push_decimal};
use vstd::prelude::*;
use vstd::string::*;

verus! {

/// After how many seconds a blocking request is given up.
pub const REQUEST_TIMEOUT_SECS: u64 = 10;

/// The backend that sends each batch in a single request and waits for the
/// answer; it never sends a batch twice.
#[derive(Debug)]
pub struct UreqBackend {
    /// The endpoint that the batches go to.
    pub endpoint: Endpoint,
    /// How to authenticate against the endpoint.
    pub authentication: AuthenticationMethod,
    /// The encoded credentials; empty where there are none.
    pub credentials: String,
}

/// The text of the error for an answer with a status that is no success.
pub open spec fn status_error_text(status: u16) -> Seq<char> {
    "http status: "@ + decimal(status as nat)
}

impl UreqBackend {
    /// Describes the one request that delivers `serialized_streams`: a POST
    /// to the push API with the configured authentication, given up after
    /// ten seconds.
    pub fn request(&self, serialized_streams: Vec<u8>) -> (r: Result<HttpRequest, String>)
        ensures
            r is Ok <==> url_joined(self.endpoint@, push_path()) is Some,
            r matches Ok(request) ==> is_push_request(
                request,
                self.endpoint@,
                self.authentication,
                self.credentials@,
                serialized_streams@,
                Some(REQUEST_TIMEOUT_SECS),
            ),
    {
        push_request(
            &self.endpoint,
            self.authentication,
            self.credentials.as_str(),
            serialized_streams,
            Some(REQUEST_TIMEOUT_SECS),
        )
    }

    /// Judges the outcome of the request. Every status of success is a
    /// success. Anything else is an error, and the caller is told: the
    /// status of the answer, or why none came.
    pub fn judge(outcome: SendOutcome) -> (r: Result<(), String>)
        ensures
            r is Ok <==> delivered(outcome),
            r matches Err(e) ==> match outcome {
                SendOutcome::Response { status } => e@ == status_error_text(status),
                SendOutcome::NoResponse { reason } => e@ == reason@,
            },
    {
        match outcome {
            SendOutcome::Response { status } => {
                if 200 <= status && status <= 299 {
                    Ok(())
                } else {
                    let mut text = String::from_str("http status: ");
                    push_decimal(&mut text, status as u128);
                    Err(text)
                }
            },
            SendOutcome::NoResponse { reason } => Err(reason),
        }
    }

    /// The kind of this backend.
    pub fn internal_type(&self) -> (r: NetworkingBackend)
        ensures
            r == NetworkingBackend::Ureq,
    {
        NetworkingBackend::Ureq
    }

    /// The configured way to authenticate.
    pub fn authentication_method(&self) -> (r: AuthenticationMethod)
        ensures
            r == self.authentication,
    {
        self.authentication
    }

    /// The encoded credentials, or `None` where none are configured.
    pub fn credentials(&self) -> (r: Option<String>)
        ensures
            r is Some <==> self.credentials@.len() > 0,
            r matches Some(c) ==> c@ == self.credentials@,
    {
        if !self.credentials.as_str().is_empty() {
            return Some(self.credentials.clone());
        }
        None
    }
}

} // verus!
