//! Replies to a request that renames an item.

use vstd::prelude::*;

use crate::models::Item;
use crate::responses::{
    bad_request_message, CustomMessage, Envelope, BAD_REQUEST, INTERNAL_ERROR, NOT_FOUND, OK,
    UNPROCESSABLE,
};
use crate::validators::Validation;

verus! {

#[derive(Debug, PartialEq, Eq)]
pub enum Response {
    /// The item as it now stands.
    Success(Item),
}

#[derive(Debug, PartialEq, Eq)]
pub enum Error {
    /// No item has the requested id.
    NotFound,
    /// The request could not be read.
    BadRequest(CustomMessage),
    /// The name breaks its rule.
    ValidationErrors(Validation),
    /// The snapshot could not be written.
    InternalError,
}

impl Response {
    pub open spec fn code(&self) -> u16 {
        OK
    }

    /// The status that the reply is sent with.
    pub fn status(&self) -> (code: u16)
        ensures
            code == self.code(),
    {
        OK
    }

    /// The reply as a uniform body.
    pub fn envelope(self) -> (body: Envelope<Item>)
        ensures
            body.code == self.code(),
            match self {
                Response::Success(item) => body.holds(OK, "OK"@, Some(item)),
            },
    {
        match self {
            Response::Success(item) => Envelope::success(item),
        }
    }
}

impl Error {
    pub open spec fn code(&self) -> u16 {
        match self {
            Error::NotFound => NOT_FOUND,
            Error::BadRequest(_) => BAD_REQUEST,
            Error::ValidationErrors(_) => UNPROCESSABLE,
            Error::InternalError => INTERNAL_ERROR,
        }
    }

    /// The status that the reply is sent with.
    pub fn status(&self) -> (code: u16)
        ensures
            code == self.code(),
    {
        match self {
            Error::NotFound => NOT_FOUND,
            Error::BadRequest(_) => BAD_REQUEST,
            Error::ValidationErrors(_) => UNPROCESSABLE,
            Error::InternalError => INTERNAL_ERROR,
        }
    }

    /// The reply as a uniform body.
    pub fn envelope(self) -> (body: Envelope<Validation>)
        ensures
            body.code == self.code(),
            match self {
                Error::NotFound => body.holds(NOT_FOUND, "Item not found"@, None),
                Error::BadRequest(message) => body.holds(BAD_REQUEST, message@, None),
                Error::ValidationErrors(report) => body.holds(
                    UNPROCESSABLE,
                    "Validation failed"@,
                    Some(report),
                ),
                Error::InternalError => body.holds(INTERNAL_ERROR, "Internal server error"@, None),
            },
    {
        match self {
            Error::NotFound => Envelope::not_found(),
            Error::BadRequest(message) => Envelope::bad_request(message),
            Error::ValidationErrors(report) => Envelope::unprocessable(report),
            Error::InternalError => Envelope::failure(),
        }
    }
}

/// The reply to a renaming request that could not be read.
pub fn bad_request_handler(description: &str) -> (error: Error)
    ensures
        error matches Error::BadRequest(message) && message@
            == "Invalid request for modifying item: "@ + description@,
{
    Error::BadRequest(bad_request_message("Invalid request for modifying item: ", description))
}

} // verus!
