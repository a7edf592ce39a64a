//! What can go wrong in one exchange with the service.

use vstd::prelude::*;

verus! {

/// `serde_json::Error`, why bytes are no JSON or JSON has another shape
/// than the one asked for. It is carried in an error.
#[verifier::external_type_specification]
#[verifier::external_body]
pub struct ExJsonError(serde_json::Error);

/// `http::Error`, why a request or a response could not be put together.
/// It is carried in an error.
#[verifier::external_type_specification]
#[verifier::external_body]
pub struct ExHttpError(http::Error);

/// `serde_urlencoded::ser::Error`, why a value could not be written as a
/// query string. It is carried in an error.
#[verifier::external_type_specification]
#[verifier::external_body]
pub struct ExUrlEncodedError(serde_urlencoded::ser::Error);

/// The failure of a request: `E` is the error object that the service
/// sends, `C` the error of the client that carried the request.
#[derive(Debug)]
#[non_exhaustive]
#[allow(inconsistent_fields)]
pub enum ApiError<E, C> {
    /// The client could not complete the exchange.
    Client { source: C },
    /// The service answered with a status other than success and an error
    /// object.
    Response {
        /// The error object of the service.
        source: E,
        /// The status code of the response.
        status: u16,
        /// The URL that was asked for.
        url: String,
    },
    /// The URL of the endpoint could not be parsed.
    UrlParse { source: url::ParseError },
    /// The body of the response is no JSON, or an error response holds no
    /// error object.
    Json { source: serde_json::Error },
    /// The request or the response could not be put together.
    Http { source: http::Error },
    /// The parameters could not be written as a query string.
    UrlEncoded { source: serde_urlencoded::ser::Error },
    /// The body of a successful response is JSON of another shape than the
    /// one that was asked for.
    DataType {
        /// What the decoder reported.
        source: serde_json::Error,
        /// The name of the type that was asked for; for diagnostics only.
        typename: &'static str,
    },
}

impl<E, C> ApiError<E, C> {
    /// The error of a body that does not decode as the type named
    /// `typename`.
    pub fn from_data_type(source: serde_json::Error, typename: &'static str) -> (err: Self)
        ensures
            err == (ApiError::<E, C>::DataType { source, typename }),
    {
        ApiError::DataType { source, typename }
    }

    /// The error of a client that could not complete the exchange.
    pub fn from_client(source: C) -> (err: Self)
        ensures
            err == (ApiError::<E, C>::Client { source }),
    {
        ApiError::Client { source }
    }

    /// The error of a response with the status `status` and the error
    /// object `source`, to a request for `url`.
    pub fn from_response(source: E, status: u16, url: String) -> (err: Self)
        ensures
            err == (ApiError::<E, C>::Response { source, status, url }),
    {
        ApiError::Response { source, status, url }
    }

    /// The error of a request or response that could not be put together.
    pub fn from_http(source: http::Error) -> (err: Self)
        ensures
            err == (ApiError::<E, C>::Http { source }),
    {
        ApiError::Http { source }
    }

    /// The error of a body that is no JSON.
    pub fn from_json(source: serde_json::Error) -> (err: Self)
        ensures
            err == (ApiError::<E, C>::Json { source }),
    {
        ApiError::Json { source }
    }

    /// The error of a URL that could not be parsed.
    pub fn from_url_parse(source: url::ParseError) -> (err: Self)
        ensures
            err == (ApiError::<E, C>::UrlParse { source }),
    {
        ApiError::UrlParse { source }
    }

    /// The error of parameters that could not be written as a query string.
    pub fn from_url_encoded(source: serde_urlencoded::ser::Error) -> (err: Self)
        ensures
            err == (ApiError::<E, C>::UrlEncoded { source }),
    {
        ApiError::UrlEncoded { source }
    }
}

} // verus!
