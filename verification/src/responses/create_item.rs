//! Replies to a request that creates an item.

use vstd::prelude::*;

use crate::models::Item;
use crate::responses::{
    bad_request_message, CustomMessage, Envelope, BAD_REQUEST, CREATED, INTERNAL_ERROR,
    UNPROCESSABLE,
};
use crate::validators::Validation;

verus! {

#[derive(Debug, PartialEq, Eq)]
pub enum Response {
    /// The item as it was stored.
    Created(Item),
}

#[derive(Debug, PartialEq, Eq)]
pub enum Error {
    /// The snapshot could not be written.
    InternalError,
    /// The request could not be read.
    BadRequest(CustomMessage),
    /// The name breaks its rule.
    ValidationErrors(Validation),
}

impl Response {
    pub open spec fn code(&self) -> u16 {
        CREATED
    }

    /// The status that the reply is sent with.
    pub fn status(&self) -> (code: u16)
        ensures
            code == self.code(),
    {
        CREATED
    }

    /// The reply as a uniform body.
    pub fn envelope(self) -> (body: Envelope<Item>)
        ensures
            body.code == self.code(),
            match self {
                Response::Created(item) => body.holds(CREATED, "Created"@, Some(item)),
            },
    {
        match self {
            Response::Created(item) => Envelope::created(item),
        }
    }
}

impl Error {
    pub open spec fn code(&self) -> u16 {
        match self {
            Error::InternalError => INTERNAL_ERROR,
            Error::BadRequest(_) => BAD_REQUEST,
            Error::ValidationErrors(_) => UNPROCESSABLE,
        }
    }

    /// The status that the reply is sent with.
    pub fn status(&self) -> (code: u16)
        ensures
            code == self.code(),
    {
        match self {
            Error::InternalError => INTERNAL_ERROR,
            Error::BadRequest(_) => BAD_REQUEST,
            Error::ValidationErrors(_) => UNPROCESSABLE,
        }
    }

    /// The reply as a uniform body.
    pub fn envelope(self) -> (body: Envelope<Validation>)
        ensures
            body.code == self.code(),
            match self {
                Error::InternalError => body.holds(INTERNAL_ERROR, "Internal server error"@, None),
                Error::BadRequest(message) => body.holds(BAD_REQUEST, message@, None),
                Error::ValidationErrors(report) => body.holds(
                    UNPROCESSABLE,
                    "Validation failed"@,
                    Some(report),
                ),
            },
    {
        match self {
            Error::InternalError => Envelope::failure(),
            Error::BadRequest(message) => Envelope::bad_request(message),
            Error::ValidationErrors(report) => Envelope::unprocessable(report),
        }
    }
}

/// The reply to a creation request that could not be read.
pub fn bad_request_handler(description: &str) -> (error: Error)
    ensures
        error matches Error::BadRequest(message) && message@
            == "Invalid request for creating item: "@ + description@,
{
    Error::BadRequest(bad_request_message("Invalid request for creating item: ", description))
}

} // verus!
