//! The error objects that the service answers with.

use vstd::prelude::*;

verus! {

/// The error object of a request that the service refuses.
#[derive(Clone, Debug, PartialEq, Eq)]
pub struct ClientError {
    error: String,
}

/// The error object of a request that the service fails on.
#[derive(Clone, Debug, PartialEq, Eq)]
pub struct ServerError {
    message: String,
}

/// An error object of the service.
#[derive(Clone, Debug, PartialEq, Eq)]
pub enum ResponseError {
    /// The request was refused.
    Client(ClientError),
    /// The service failed.
    Server(ServerError),
}

impl ClientError {
    /// The error object with the text `error`.
    pub fn new(error: String) -> (res: ClientError)
        ensures
            res.message() == error@,
    {
        ClientError { error }
    }

    /// The text of the error.
    pub closed spec fn message(&self) -> Seq<char> {
        self.error@
    }

    /// The text of the error.
    pub fn to_string(&self) -> (text: String)
        ensures
            text@ == self.message(),
    {
        self.error.clone()
    }
}

impl ServerError {
    /// The error object with the text `message`.
    pub fn new(message: String) -> (res: ServerError)
        ensures
            res.message() == message@,
    {
        ServerError { message }
    }

    /// The text of the error.
    pub closed spec fn message(&self) -> Seq<char> {
        self.message@
    }

    /// The text of the error.
    pub fn to_string(&self) -> (text: String)
        ensures
            text@ == self.message(),
    {
        self.message.clone()
    }
}

impl ResponseError {
    /// The text of the error.
    pub open spec fn message(&self) -> Seq<char> {
        match self {
            ResponseError::Client(err) => err.message(),
            ResponseError::Server(err) => err.message(),
        }
    }

    /// The text of the error.
    pub fn to_string(&self) -> (text: String)
        ensures
            text@ == self.message(),
    {
        match self {
            ResponseError::Client(err) => err.to_string(),
            ResponseError::Server(err) => err.to_string(),
        }
    }
}

impl From<ClientError> for ResponseError {
    fn from(err: ClientError) -> (res: ResponseError) {
        ResponseError::Client(err)
    }
}

impl vstd::std_specs::convert::FromSpecImpl<ClientError> for ResponseError {
    open spec fn obeys_from_spec() -> bool {
        true
    }

    open spec fn from_spec(err: ClientError) -> ResponseError {
        ResponseError::Client(err)
    }
}

impl From<ServerError> for ResponseError {
    fn from(err: ServerError) -> (res: ResponseError) {
        ResponseError::Server(err)
    }
}

impl vstd::std_specs::convert::FromSpecImpl<ServerError> for ResponseError {
    open spec fn obeys_from_spec() -> bool {
        true
    }

    open spec fn from_spec(err: ServerError) -> ResponseError {
        ResponseError::Server(err)
    }
}

} // verus!
