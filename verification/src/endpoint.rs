//! The address of the remote endpoint. Parsing addresses and resolving a
//! path against one is the work of the `url` crate.
use url::Url;
use vstd::prelude::*;
use vstd::string::*;

verus! {

/// The error type of the `url` crate, carried through unread.
#[verifier::external_type_specification]
#[verifier::external_body]
pub struct ExParseError(url::ParseError);

/// What `Url::parse` makes of the text `input`: the serialization of the
/// URL, or nothing where it reports an error.
pub uninterp spec fn url_parsed(input: Seq<char>) -> Option<Seq<char>>;

/// What `Url::join` makes of `reference` against the URL that `Url::parse`
/// makes of `base`: the serialization of the resulting URL, or nothing
/// where either reports an error.
pub uninterp spec fn url_joined(base: Seq<char>, reference: Seq<char>) -> Option<Seq<char>>;

/// Calls `Url::parse` and hands back the serialization of the URL. The
/// claim is only that equal text gives an equal outcome, so that it can be
/// named: `url_parsed`.
#[verifier::external_body]
fn parse_url(input: &str) -> (r: Result<String, url::ParseError>)
    ensures
        match r {
            Ok(t) => url_parsed(input@) == Some(t@),
            Err(_) => url_parsed(input@) is None,
        },
{
    Url::parse(input).map(String::from)
}

/// Calls `Url::join` on the URL that `base` parses to, and hands back the
/// serialization of the result. The claim is only that equal texts give an
/// equal outcome, so that it can be named: `url_joined`.
#[verifier::external_body]
fn join_url(base: &str, reference: &str) -> (r: Result<String, url::ParseError>)
    ensures
        match r {
            Ok(t) => url_joined(base@, reference@) == Some(t@),
            Err(_) => url_joined(base@, reference@) is None,
        },
{
    Url::parse(base)?.join(reference).map(String::from)
}

/// Renders an error of the `url` crate through its `Display` impl
/// (`to_string`). Nothing is claimed of the text.
#[verifier::external_body]
fn url_error_text(e: &url::ParseError) -> (r: String) {
    e.to_string()
}

/// The address of a remote endpoint, held as text.
#[derive(Debug)]
pub struct Endpoint {
    href: String,
}

impl View for Endpoint {
    type V = Seq<char>;

    closed spec fn view(&self) -> Seq<char> {
        self.href@
    }
}

/// The text of the endpoint that is used where none is configured.
pub open spec fn local_endpoint() -> Seq<char> {
    "http://localhost:3100"@
}

/// The path of the push API below an endpoint.
pub open spec fn push_path() -> Seq<char> {
    "/loki/api/v1/push"@
}

impl Endpoint {
    /// Reads an address. It is accepted where it parses as an absolute URL,
    /// and is then kept in the serialization of that URL; else the text of
    /// the error is handed back.
    pub fn parse(input: &str) -> (r: Result<Endpoint, String>)
        ensures
            r is Ok <==> url_parsed(input@) is Some,
            r matches Ok(e) ==> Some(e@) == url_parsed(input@),
    {
        match parse_url(input) {
            Ok(href) => Ok(Endpoint { href }),
            Err(e) => Err(url_error_text(&e)),
        }
    }

    /// The endpoint that is used where none is configured.
    pub fn local() -> (r: Endpoint)
        ensures
            r@ == local_endpoint(),
    {
        Endpoint { href: String::from_str("http://localhost:3100") }
    }

    /// The address as text.
    pub fn as_str(&self) -> (r: &str)
        ensures
            r@ == self@,
    {
        self.href.as_str()
    }

    /// A copy of the endpoint.
    pub fn duplicate(&self) -> (r: Endpoint)
        ensures
            r@ == self@,
    {
        Endpoint { href: self.href.clone() }
    }

    /// The address of the push API of this endpoint: the path of the push
    /// API resolved against the endpoint. Where that cannot be done the
    /// text of the error is handed back.
    pub fn push_url(&self) -> (r: Result<String, String>)
        ensures
            r is Ok <==> url_joined(self@, push_path()) is Some,
            r matches Ok(t) ==> Some(t@) == url_joined(self@, push_path()),
    {
        match join_url(self.href.as_str(), "/loki/api/v1/push") {
            Ok(t) => Ok(t),
            Err(e) => Err(url_error_text(&e)),
        }
    }
}

} // verus!
