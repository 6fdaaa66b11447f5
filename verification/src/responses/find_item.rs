//! Replies to a request for one item.

use vstd::prelude::*;

use crate::models::Item;
use crate::responses::{bad_request_message, CustomMessage, Envelope, BAD_REQUEST, NOT_FOUND, OK};
use crate::validators::Validation;

verus! {

#[derive(Debug, PartialEq, Eq)]
pub enum Response {
    /// The item with the requested id.
    Success(Item),
}

#[derive(Debug, PartialEq, Eq)]
pub enum Error {
    /// No item has the requested id.
    NotFound,
    /// The request could not be read.
    BadRequest(CustomMessage),
}

impl Response {
    pub open spec fn code(&self) -> u16 {
        OK
    }

    /// The status that the reply is sent with.
    pub fn status(&self) -> (code: u16)
        ensures
            code == self.code(),
    {
        OK
    }

    /// The reply as a uniform body.
    pub fn envelope(self) -> (body: Envelope<Item>)
        ensures
            body.code == self.code(),
            match self {
                Response::Success(item) => body.holds(OK, "OK"@, Some(item)),
            },
    {
        match self {
            Response::Success(item) => Envelope::success(item),
        }
    }
}

impl Error {
    pub open spec fn code(&self) -> u16 {
        match self {
            Error::NotFound => NOT_FOUND,
            Error::BadRequest(_) => BAD_REQUEST,
        }
    }

    /// The status that the reply is sent with.
    pub fn status(&self) -> (code: u16)
        ensures
            code == self.code(),
    {
        match self {
            Error::NotFound => NOT_FOUND,
            Error::BadRequest(_) => BAD_REQUEST,
        }
    }

    /// The reply as a uniform body.
    pub fn envelope(self) -> (body: Envelope<Validation>)
        ensures
            body.code == self.code(),
            match self {
                Error::NotFound => body.holds(NOT_FOUND, "Item not found"@, None),
                Error::BadRequest(message) => body.holds(BAD_REQUEST, message@, None),
            },
    {
        match self {
            Error::NotFound => Envelope::not_found(),
            Error::BadRequest(message) => Envelope::bad_request(message),
        }
    }
}

/// The reply to a request for one item that could not be read.
pub fn bad_request_handler(description: &str) -> (error: Error)
    ensures
        error matches Error::BadRequest(message) && message@
            == "Invalid request for finding item: "@ + description@,
{
    Error::BadRequest(bad_request_message("Invalid request for finding item: ", description))
}

} // verus!
