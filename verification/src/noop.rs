//! The backend that ignores every batch.
use crate::auth::AuthenticationMethod;
use crate::backend::NetworkingBackend;
use vstd::prelude::*;

verus! {

/// The backend that is used where none is selected: it takes every batch
/// and drops it.
#[derive(Debug)]
pub struct NoopBackend {}

impl NoopBackend {
    /// Takes the batch and drops it. This always succeeds.
    pub fn send(&self, serialized_stream: Vec<u8>) -> (r: Result<(), String>)
        ensures
            r == Ok::<(), String>(()),
    {
        Ok(())
    }

    /// The kind of this backend.
    pub fn internal_type(&self) -> (r: NetworkingBackend)
        ensures
            r == NetworkingBackend::Noop,
    {
        NetworkingBackend::Noop
    }

    /// This backend never authenticates, whatever was configured.
    pub fn authentication_method(&self) -> (r: AuthenticationMethod)
        ensures
            r == AuthenticationMethod::NoAuth,
    {
        AuthenticationMethod::NoAuth
    }

    /// This backend holds no credentials, whatever was configured.
    pub fn credentials(&self) -> (r: Option<String>)
        ensures
            r is None,
    {
        None
    }
}

} // verus!
