//! The request that carries a batch to the push API, and what can come
//! back for it. The library describes the request; sending it is left to
//! whoever holds the network.
use crate::auth::{authorization_header, authorization_value, AuthenticationMethod};
use crate::endpoint::{push_path, url_joined, Endpoint};
use crate::labels::Pairs;
use vstd::prelude::*;
use vstd::string::*;

verus! {

/// The methods of the requests that the library describes.
#[derive(Clone, Copy, Debug, PartialEq, Eq, Structural)]
pub enum HttpMethod {
    Post,
}

/// A request, ready to be sent.
#[derive(Debug)]
pub struct HttpRequest {
    /// The method of the request.
    pub method: HttpMethod,
    /// The address that the request goes to.
    pub url: String,
    /// The headers, name and value, in the order in which they are set.
    pub headers: Vec<(String, String)>,
    /// The body.
    pub body: Vec<u8>,
    /// After how many seconds the request is given up; `None` for no limit.
    pub timeout_secs: Option<u64>,
}

/// What became of one attempt to send a request.
#[derive(Debug)]
pub enum SendOutcome {
    /// The endpoint answered with this status code.
    Response { status: u16 },
    /// No answer came: the endpoint could not be reached, or the time ran
    /// out. `reason` says which, in words.
    NoResponse { reason: String },
}

/// The status codes that count as success: 200 to 299.
pub open spec fn is_success(status: u16) -> bool {
    200 <= status <= 299
}

/// The status codes that blame the client: 400 to 499.
pub open spec fn is_client_error(status: u16) -> bool {
    400 <= status <= 499
}

/// The attempt delivered the batch: an answer came, with a status of
/// success.
pub open spec fn delivered(outcome: SendOutcome) -> bool {
    outcome matches SendOutcome::Response { status } && is_success(status)
}

/// The attempt was refused for a reason that sending again cannot mend.
pub open spec fn refused(outcome: SendOutcome) -> bool {
    outcome matches SendOutcome::Response { status } && is_client_error(status)
}

/// The headers of a list of header strings, as characters.
pub open spec fn headers_view(headers: Seq<(String, String)>) -> Pairs {
    Seq::new(headers.len(), |i: int| (headers[i].0@, headers[i].1@))
}

/// The headers of a push request: the content type, and the credentials
/// where Basic authentication is configured.
pub open spec fn push_headers(authentication: AuthenticationMethod, credentials: Seq<char>) -> Pairs {
    let content: Pairs = seq![("Content-Type"@, "application/json; charset=utf-8"@)];
    match authentication {
        AuthenticationMethod::NoAuth => content,
        AuthenticationMethod::Basic => content.push(
            ("Authorization"@, authorization_value(credentials)),
        ),
    }
}

/// `request` is the push request for `body` to `endpoint`: a POST to the
/// address of the push API, with the headers of a push request.
pub open spec fn is_push_request(
    request: HttpRequest,
    endpoint: Seq<char>,
    authentication: AuthenticationMethod,
    credentials: Seq<char>,
    body: Seq<u8>,
    timeout_secs: Option<u64>,
) -> bool {
    &&& request.method == HttpMethod::Post
    &&& Some(request.url@) == url_joined(endpoint, push_path())
    &&& headers_view(request.headers@) == push_headers(authentication, credentials)
    &&& request.body@ == body
    &&& request.timeout_secs == timeout_secs
}

/// Describes the request that posts `body` to the push API of `endpoint`.
/// It fails only where the address of the push API cannot be made, and
/// then hands back the text of that error.
pub fn push_request(
    endpoint: &Endpoint,
    authentication: AuthenticationMethod,
    credentials: &str,
    body: Vec<u8>,
    timeout_secs: Option<u64>,
) -> (r: Result<HttpRequest, String>)
    ensures
        r is Ok <==> url_joined(endpoint@, push_path()) is Some,
        r matches Ok(request) ==> is_push_request(
            request,
            endpoint@,
            authentication,
            credentials@,
            body@,
            timeout_secs,
        ),
{
    let url = match endpoint.push_url() {
        Ok(t) => t,
        Err(e) => {
            return Err(e);
        },
    };
    let mut headers: Vec<(String, String)> = Vec::new();
    headers.push(
        (String::from_str("Content-Type"), String::from_str("application/json; charset=utf-8")),
    );
    match authentication {
        AuthenticationMethod::NoAuth => {},
        AuthenticationMethod::Basic => {
            headers.push((String::from_str("Authorization"), authorization_header(credentials)));
        },
    }
    proof {
        assert(headers_view(headers@) =~= push_headers(authentication, credentials@));
    }
    Ok(HttpRequest { method: HttpMethod::Post, url, headers, body, timeout_secs })
}

} // verus!
