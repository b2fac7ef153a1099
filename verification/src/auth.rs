//! How requests are authenticated, and how credentials are kept: encoded
//! once, when they are configured, and sent as they are.
use base64::engine::general_purpose;
use base64::Engine;
use vstd::prelude::*;
use vstd::string::*;
use vstd::utf8::*;

verus! {

/// The ways to authenticate against the remote endpoint.
#[derive(Clone, Copy, Debug, PartialEq, Eq, Structural)]
pub enum AuthenticationMethod {
    /// No authentication: no header is sent.
    NoAuth,
    /// HTTP Basic authentication.
    Basic,
}

/// What the standard base64 engine with padding makes of `bytes`
/// (`base64::engine::general_purpose::STANDARD`, method `encode`).
pub uninterp spec fn base64_standard(bytes: Seq<u8>) -> Seq<char>;

/// The length of the base64 text for `len` bytes can be held in a `usize`.
pub open spec fn base64_fits(len: nat) -> bool {
    len / 3 * 4 + (if len % 3 > 0 { 4int } else { 0int }) <= usize::MAX
}

/// Calls `encode` of `base64::engine::general_purpose::STANDARD`. The
/// engine panics where the length of its output overflows; those inputs
/// are left out. The claim is only that equal bytes give equal text, so
/// that the text can be named: `base64_standard`.
#[verifier::external_body]
fn base64_encode(input: &[u8]) -> (r: String)
    requires
        base64_fits(input@.len()),
    ensures
        r@ == base64_standard(input@),
{
    general_purpose::STANDARD.encode(input)
}

/// User name and password as Basic authentication joins them.
pub open spec fn credential_text(username: Seq<char>, password: Seq<char>) -> Seq<char> {
    username + ":"@ + password
}

/// The credentials as they are stored and sent: the base64 text of the
/// UTF-8 bytes of `username:password`.
pub open spec fn encoded_credentials(username: Seq<char>, password: Seq<char>) -> Seq<char> {
    base64_standard(encode_utf8(credential_text(username, password)))
}

/// The credentials are short enough for their base64 text to be made.
pub open spec fn credentials_fit(username: Seq<char>, password: Seq<char>) -> bool {
    base64_fits(encode_utf8(credential_text(username, password)).len())
}

/// Encodes user name and password for Basic authentication.
pub fn encode_credentials(username: &str, password: &str) -> (r: String)
    requires
        credentials_fit(username@, password@),
    ensures
        r@ == encoded_credentials(username@, password@),
{
    let mut text = String::from_str(username);
    text.append(":");
    text.append(password);
    base64_encode(text.as_str().as_bytes())
}

/// The value of the `Authorization` header for stored credentials.
pub open spec fn authorization_value(credentials: Seq<char>) -> Seq<char> {
    "Basic "@ + credentials
}

/// Makes the value of the `Authorization` header from stored credentials,
/// which go into it as they are.
pub fn authorization_header(credentials: &str) -> (r: String)
    ensures
        r@ == authorization_value(credentials@),
{
    let mut value = String::from_str("Basic ");
    value.append(credentials);
    value
}

} // verus!
