//! What the library asks of an HTTP client.

use vstd::prelude::*;

verus! {

/// `url::Url`, a parsed URL. The library passes it on and reads nothing
/// in it.
#[verifier::external_type_specification]
#[verifier::external_body]
pub struct ExUrl(url::Url);

/// `url::ParseError`, why a text is no URL. It is carried in an error.
#[verifier::external_type_specification]
#[verifier::external_body]
pub struct ExUrlParseError(url::ParseError);

/// `http::request::Builder`, a request without its body. It is handed to
/// the client as it is.
#[verifier::external_type_specification]
#[verifier::external_body]
pub struct ExRequestBuilder(http::request::Builder);

/// `http::Response`, a response with its body. It is what a client
/// returns.
#[verifier::external_type_specification]
#[verifier::external_body]
#[verifier::reject_recursive_types(T)]
pub struct ExResponse<T>(http::Response<T>);

/// `bytes::Bytes`, the bytes of a body.
#[verifier::external_type_specification]
#[verifier::external_body]
pub struct ExBytes(bytes::Bytes);

/// A client that knows where the service is. Nothing is promised of what
/// it answers.
pub trait BaseClient {
    /// What can go wrong in the client.
    type Error;

    /// The URL of the endpoint with the path `endpoint`.
    fn endpoint(&self, endpoint: &str) -> Result<url::Url, url::ParseError>;
}

/// A client that sends a request and waits for the response. Nothing is
/// promised of what it returns.
pub trait Client: BaseClient {
    /// Sends the request with `body` and returns the response.
    fn send(&self, request: http::request::Builder, body: Vec<u8>) -> Result<
        http::Response<bytes::Bytes>,
        Self::Error,
    >;
}

} // verus!
