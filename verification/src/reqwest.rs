//! The backend that hands each batch to a background task, and the rule by
//! which that task sends again after a failure.
use crate::auth::AuthenticationMethod;
use crate::backend::NetworkingBackend;
use crate::endpoint::{push_path, url_joined, Endpoint};
use crate::request::{delivered, is_push_request, push_request, refused, HttpRequest, SendOutcome};
use tokio::runtime::Handle;
use vstd::prelude::*;
use vstd::string::*;

verus! {

/// The handle of a Tokio runtime, carried through unread.
#[verifier::external_type_specification]
#[verifier::external_body]
pub struct ExHandle(tokio::runtime::Handle);

/// Calls `tokio::runtime::Handle::try_current`: the handle of the runtime
/// that the caller runs in, or `None` outside of any. Which of the two
/// comes back is not for this library to say.
#[verifier::external_body]
pub(crate) fn current_runtime() -> (r: Option<Handle>) {
    Handle::try_current().ok()
}

/// How often a request is sent again after its first failure.
pub const MAX_RETRIES: u32 = 3;

/// The backend that builds the same request as the blocking one and leaves
/// it to a background task, which sends it again after a failure.
#[derive(Debug)]
pub struct ReqwestBackend {
    /// The endpoint that the batches go to.
    pub endpoint: Endpoint,
    /// How to authenticate against the endpoint.
    pub authentication: AuthenticationMethod,
    /// The encoded credentials; empty where there are none.
    pub credentials: String,
    /// The runtime that runs the background tasks, where one was found.
    pub runtime_handle: Option<Handle>,
}

/// What the background task does after an attempt.
#[derive(Clone, Copy, Debug, PartialEq, Eq, Structural)]
pub enum RetryDecision {
    /// The batch is delivered; nothing is left to do.
    Delivered,
    /// The attempt failed; send the same request once more.
    Retry,
    /// The attempt failed and no further one is made; the failure is
    /// reported on a side channel and the batch is lost.
    Abandon,
}

/// The rule of the background task, given how many times it has sent
/// again already. A delivered batch ends it. A failure that blames the
/// client ends it at once. Any other failure is answered by sending again,
/// until that has been done `MAX_RETRIES` times.
pub open spec fn decide(retry_count: nat, outcome: SendOutcome) -> RetryDecision {
    if delivered(outcome) {
        RetryDecision::Delivered
    } else if refused(outcome) || retry_count >= MAX_RETRIES {
        RetryDecision::Abandon
    } else {
        RetryDecision::Retry
    }
}

/// How many requests the background task sends when its attempts end as
/// `outcomes` says, one after the other, and it has sent again
/// `retry_count` times before the first of them. The task stops where the
/// outcomes end.
pub open spec fn attempts_made(outcomes: Seq<SendOutcome>, retry_count: nat) -> nat
    decreases outcomes.len(),
{
    if outcomes.len() == 0 {
        0
    } else if decide(retry_count, outcomes[0]) == RetryDecision::Retry {
        1 + attempts_made(outcomes.drop_first(), retry_count + 1)
    } else {
        1
    }
}

/// A failure that sending again may mend: no delivery, and no refusal that
/// blames the client.
pub open spec fn retryable(outcome: SendOutcome) -> bool {
    !delivered(outcome) && !refused(outcome)
}

/// A request that is refused with a client error is never sent again.
pub proof fn lemma_client_error_is_not_retried(outcomes: Seq<SendOutcome>, retry_count: nat)
    requires
        outcomes.len() > 0,
        refused(outcomes[0]),
    ensures
        decide(retry_count, outcomes[0]) == RetryDecision::Abandon,
        attempts_made(outcomes, retry_count) == 1,
{
}

/// A request whose every attempt fails in a way that sending again may
/// mend is sent once and then again until `MAX_RETRIES` is reached, and no
/// further: counted from the first attempt, four requests in all.
pub proof fn lemma_retryable_failures_are_retried(outcomes: Seq<SendOutcome>, retry_count: nat)
    requires
        retry_count <= MAX_RETRIES,
        outcomes.len() >= MAX_RETRIES - retry_count + 1,
        forall|i: int| 0 <= i < outcomes.len() ==> retryable(#[trigger] outcomes[i]),
    ensures
        attempts_made(outcomes, retry_count) == MAX_RETRIES - retry_count + 1,
    decreases outcomes.len(),
{
    assert(retryable(outcomes[0]));
    if retry_count < MAX_RETRIES {
        let rest = outcomes.drop_first();
        assert forall|i: int| 0 <= i < rest.len() implies retryable(#[trigger] rest[i]) by {
            assert(rest[i] == outcomes[i + 1]);
        }
        lemma_retryable_failures_are_retried(rest, retry_count + 1);
    }
}

/// Whatever the attempts bring, the task never sends more than one request
/// and `MAX_RETRIES` further ones.
pub proof fn lemma_attempts_are_bounded(outcomes: Seq<SendOutcome>, retry_count: nat)
    requires
        retry_count <= MAX_RETRIES,
    ensures
        attempts_made(outcomes, retry_count) <= MAX_RETRIES - retry_count + 1,
    decreases outcomes.len(),
{
    if outcomes.len() > 0 && retry_count < MAX_RETRIES {
        lemma_attempts_are_bounded(outcomes.drop_first(), retry_count + 1);
    }
}

impl ReqwestBackend {
    /// Describes the request that the background task sends for
    /// `serialized_streams`: a POST to the push API with the configured
    /// authentication and no time limit of its own.
    pub fn request(&self, serialized_streams: Vec<u8>) -> (r: Result<HttpRequest, String>)
        ensures
            r is Ok <==> url_joined(self.endpoint@, push_path()) is Some,
            r matches Ok(request) ==> is_push_request(
                request,
                self.endpoint@,
                self.authentication,
                self.credentials@,
                serialized_streams@,
                None,
            ),
    {
        push_request(
            &self.endpoint,
            self.authentication,
            self.credentials.as_str(),
            serialized_streams,
            None,
        )
    }

    /// Decides what the background task does after an attempt that ended
    /// in `outcome`, when it has sent again `retry_count` times already.
    pub fn after_attempt(retry_count: u32, outcome: &SendOutcome) -> (r: RetryDecision)
        ensures
            r == decide(retry_count as nat, *outcome),
    {
        match outcome {
            SendOutcome::Response { status } => {
                if 200 <= *status && *status <= 299 {
                    RetryDecision::Delivered
                } else if (400 <= *status && *status <= 499) || retry_count >= MAX_RETRIES {
                    RetryDecision::Abandon
                } else {
                    RetryDecision::Retry
                }
            },
            SendOutcome::NoResponse { .. } => {
                if retry_count >= MAX_RETRIES {
                    RetryDecision::Abandon
                } else {
                    RetryDecision::Retry
                }
            },
        }
    }

    /// The kind of this backend.
    pub fn internal_type(&self) -> (r: NetworkingBackend)
        ensures
            r == NetworkingBackend::Reqwest,
    {
        NetworkingBackend::Reqwest
    }

    /// The configured way to authenticate.
    pub fn authentication_method(&self) -> (r: AuthenticationMethod)
        ensures
            r == self.authentication,
    {
        self.authentication
    }

    /// The encoded credentials, or `None` where none are configured.
    pub fn credentials(&self) -> (r: Option<String>)
        ensures
            r is Some <==> self.credentials@.len() > 0,
            r matches Some(c) ==> c@ == self.credentials@,
    {
        if !self.credentials.as_str().is_empty() {
            return Some(self.credentials.clone());
        }
        None
    }
}

} // verus!
