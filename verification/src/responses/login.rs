//! Replies to a login.

use vstd::prelude::*;

use crate::auth::SigningError;
use crate::responses::{
    bad_request_message, CustomMessage, Envelope, BAD_REQUEST, INTERNAL_ERROR, OK, UNPROCESSABLE,
};
use crate::validators::Validation;

verus! {

#[derive(Debug, PartialEq, Eq)]
pub enum Response {
    /// The bearer token.
    Success(CustomMessage),
}

#[derive(Debug, PartialEq, Eq)]
pub enum Error {
    /// The token could not be signed.
    InternalError,
    /// The request could not be read.
    BadRequest(CustomMessage),
    /// The username breaks its rule.
    ValidationErrors(Validation),
}

impl Response {
    pub open spec fn code(&self) -> u16 {
        OK
    }

    /// The status that the reply is sent with.
    pub fn status(&self) -> (code: u16)
        ensures
            code == self.code(),
    {
        OK
    }

    /// The reply as a uniform body.
    pub fn envelope(self) -> (body: Envelope<CustomMessage>)
        ensures
            body.code == self.code(),
            match self {
                Response::Success(token) => body.holds(OK, "OK"@, Some(token)),
            },
    {
        match self {
            Response::Success(token) => Envelope::success(token),
        }
    }
}

impl Error {
    pub open spec fn code(&self) -> u16 {
        match self {
            Error::InternalError => INTERNAL_ERROR,
            Error::BadRequest(_) => BAD_REQUEST,
            Error::ValidationErrors(_) => UNPROCESSABLE,
        }
    }

    /// The status that the reply is sent with.
    pub fn status(&self) -> (code: u16)
        ensures
            code == self.code(),
    {
        match self {
            Error::InternalError => INTERNAL_ERROR,
            Error::BadRequest(_) => BAD_REQUEST,
            Error::ValidationErrors(_) => UNPROCESSABLE,
        }
    }

    /// The reply as a uniform body.
    pub fn envelope(self) -> (body: Envelope<Validation>)
        ensures
            body.code == self.code(),
            match self {
                Error::InternalError => body.holds(INTERNAL_ERROR, "Internal server error"@, None),
                Error::BadRequest(message) => body.holds(BAD_REQUEST, message@, None),
                Error::ValidationErrors(report) => body.holds(
                    UNPROCESSABLE,
                    "Validation failed"@,
                    Some(report),
                ),
            },
    {
        match self {
            Error::InternalError => Envelope::failure(),
            Error::BadRequest(message) => Envelope::bad_request(message),
            Error::ValidationErrors(report) => Envelope::unprocessable(report),
        }
    }
}

/// The reply to a login whose body could not be read.
pub fn bad_request_handler(description: &str) -> (error: Error)
    ensures
        error matches Error::BadRequest(message) && message@ == "Invalid credentials: "@ + description@,
{
    Error::BadRequest(bad_request_message("Invalid credentials: ", description))
}

/// The reply to a valid login, given what signing the credential gave.
pub fn issued(signed: Result<String, SigningError>) -> (reply: Result<Response, Error>)
    ensures
        match signed {
            Ok(token) => reply == Ok::<Response, Error>(Response::Success(token)),
            Err(_) => reply == Err::<Response, Error>(Error::InternalError),
        },
{
    match signed {
        Ok(token) => Ok(Response::Success(token)),
        Err(_) => Err(Error::InternalError),
    }
}

} // verus!
