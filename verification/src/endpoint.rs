//! What the library knows of one endpoint, and how a response to a request
//! for it is read.

use vstd::prelude::*;
use crate::error::ApiError;
use crate::urlencoded::UrlEncodedQuery;

verus! {

/// The method of a request, one of the methods of HTTP.
#[derive(Clone, Copy, Debug, PartialEq, Eq, Hash, Structural)]
pub enum Method {
    Get,
    Head,
    Post,
    Put,
    Delete,
    Connect,
    Options,
    Trace,
    Patch,
}

/// One endpoint of the service.
pub trait Endpoint {
    /// The error object that the endpoint answers with.
    type Error;

    /// The HTTP method of a request.
    fn method(&self) -> Method;

    /// The path of the endpoint.
    fn endpoint(&self) -> &str;

    /// The query string of a request.
    fn query_params(&self) -> Result<UrlEncodedQuery, serde_urlencoded::ser::Error>;
}

/// `serde_json::Value`, a parsed JSON document. It is handed to the
/// decoders as it is.
#[verifier::external_type_specification]
#[verifier::external_body]
pub struct ExJsonValue(serde_json::Value);

/// Whether a status code tells of success: the codes from 200 to 299.
pub open spec fn is_success(status: u16) -> bool {
    200 <= status < 300
}

/// Whether `res` is what a response is read as: a response with the status
/// `status` to a request for `url`, whose body parsed as `parsed`, where
/// `decode` reads the JSON of a success as the value asked for and
/// `decode_error` reads that of a failure as the error object of the
/// service.
///
/// A body that is no JSON is an error whatever the status. The JSON of a
/// success is decoded as the value; if it has another shape, the error
/// names the type that was asked for. The JSON of a failure is decoded as
/// the error object, which is returned with the status and the URL; if it
/// has another shape, that is an error of the JSON.
pub open spec fn reads_as<T, E, C, D, F>(
    status: u16,
    url: String,
    parsed: Result<serde_json::Value, serde_json::Error>,
    decode: D,
    decode_error: F,
    typename: &'static str,
    res: Result<T, ApiError<E, C>>,
) -> bool where
    D: FnOnce(serde_json::Value) -> Result<T, serde_json::Error>,
    F: FnOnce(serde_json::Value) -> Result<E, serde_json::Error>,
 {
    match parsed {
        Err(source) => res == Err::<T, ApiError<E, C>>(ApiError::Json { source }),
        Ok(value) => if is_success(status) {
            exists|decoded: Result<T, serde_json::Error>|
                {
                    &&& call_ensures(decode, (value,), decoded)
                    &&& res == match decoded {
                        Ok(data) => Ok::<T, ApiError<E, C>>(data),
                        Err(source) => Err(ApiError::DataType { source, typename }),
                    }
                }
        } else {
            exists|decoded: Result<E, serde_json::Error>|
                {
                    &&& call_ensures(decode_error, (value,), decoded)
                    &&& res == match decoded {
                        Ok(source) => Err::<T, ApiError<E, C>>(
                            ApiError::Response { source, status, url },
                        ),
                        Err(source) => Err(ApiError::Json { source }),
                    }
                }
        },
    }
}

/// What `serde_json::from_slice` makes of bytes when it is asked for a
/// `serde_json::Value`: the JSON document that the bytes hold, or the error
/// of bytes that are no JSON. It depends on the bytes alone.
pub uninterp spec fn json_of(body: Seq<u8>) -> Result<serde_json::Value, serde_json::Error>;

/// `serde_json::from_slice` for a `serde_json::Value`: the JSON that the
/// bytes hold, or the error of bytes that are no JSON. Nothing is claimed
/// of which bytes parse, only that the same bytes parse alike.
#[verifier::external_body]
fn parse_json(body: &[u8]) -> (parsed: Result<serde_json::Value, serde_json::Error>)
    ensures
        parsed == json_of(body@),
{
    serde_json::from_slice(body)
}

/// Whether a status code tells of success.
pub fn status_is_success(status: u16) -> (success: bool)
    ensures
        success == is_success(status),
{
    300 > status && status >= 200
}

/// Reads a response whose body was parsed already; see [`reads_as`].
/// Of `decode` and `decode_error` the one that the status calls for is
/// called, once.
pub fn read_response<T, E, C, D, F>(
    status: u16,
    url: String,
    parsed: Result<serde_json::Value, serde_json::Error>,
    decode: D,
    decode_error: F,
    typename: &'static str,
) -> (res: Result<T, ApiError<E, C>>) where
    D: FnOnce(serde_json::Value) -> Result<T, serde_json::Error>,
    F: FnOnce(serde_json::Value) -> Result<E, serde_json::Error>,

    requires
        forall|value: serde_json::Value| call_requires(decode, (value,)),
        forall|value: serde_json::Value| call_requires(decode_error, (value,)),
    ensures
        reads_as(status, url, parsed, decode, decode_error, typename, res),
{
    let value = match parsed {
        Ok(value) => value,
        Err(source) => {
            return Err(ApiError::from_json(source));
        },
    };
    if !status_is_success(status) {
        match decode_error(value) {
            Ok(err) => Err(ApiError::from_response(err, status, url)),
            Err(source) => Err(ApiError::from_json(source)),
        }
    } else {
        match decode(value) {
            Ok(data) => Ok(data),
            Err(source) => Err(ApiError::from_data_type(source, typename)),
        }
    }
}

/// Reads the response with the status `status` and the body `body` to a
/// request for `url`: parses the body as JSON and reads what the parse
/// gives as [`read_response`] does.
pub fn serialize_response<T, E, C, D, F>(
    status: u16,
    url: String,
    body: &[u8],
    decode: D,
    decode_error: F,
    typename: &'static str,
) -> (res: Result<T, ApiError<E, C>>) where
    D: FnOnce(serde_json::Value) -> Result<T, serde_json::Error>,
    F: FnOnce(serde_json::Value) -> Result<E, serde_json::Error>,

    requires
        forall|value: serde_json::Value| call_requires(decode, (value,)),
        forall|value: serde_json::Value| call_requires(decode_error, (value,)),
    ensures
        reads_as(status, url, json_of(body@), decode, decode_error, typename, res),
{
    let parsed = parse_json(body);
    read_response(status, url, parsed, decode, decode_error, typename)
}

} // verus!
