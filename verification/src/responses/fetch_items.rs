//! Replies to a request for all items.

use vstd::prelude::*;

use crate::models::Item;
use crate::responses::{
    bad_request_message, CustomMessage, Envelope, BAD_REQUEST, INTERNAL_ERROR, OK,
};
use crate::validators::Validation;

verus! {

#[derive(Debug, PartialEq, Eq)]
pub enum Response {
    /// The items, in insertion order.
    Success(Vec<Item>),
}

#[derive(Debug, PartialEq, Eq)]
pub enum Error {
    /// The service failed.
    InternalError,
    /// The request could not be read.
    BadRequest(CustomMessage),
}

impl Response {
    pub open spec fn code(&self) -> u16 {
        OK
    }

    /// The status that the reply is sent with.
    pub fn status(&self) -> (code: u16)
        ensures
            code == self.code(),
    {
        OK
    }

    /// The reply as a uniform body.
    pub fn envelope(self) -> (body: Envelope<Vec<Item>>)
        ensures
            body.code == self.code(),
            match self {
                Response::Success(items) => body.holds(OK, "OK"@, Some(items)),
            },
    {
        match self {
            Response::Success(items) => Envelope::success(items),
        }
    }
}

impl Error {
    pub open spec fn code(&self) -> u16 {
        match self {
            Error::InternalError => INTERNAL_ERROR,
            Error::BadRequest(_) => BAD_REQUEST,
        }
    }

    /// The status that the reply is sent with.
    pub fn status(&self) -> (code: u16)
        ensures
            code == self.code(),
    {
        match self {
            Error::InternalError => INTERNAL_ERROR,
            Error::BadRequest(_) => BAD_REQUEST,
        }
    }

    /// The reply as a uniform body.
    pub fn envelope(self) -> (body: Envelope<Validation>)
        ensures
            body.code == self.code(),
            match self {
                Error::InternalError => body.holds(INTERNAL_ERROR, "Internal server error"@, None),
                Error::BadRequest(message) => body.holds(BAD_REQUEST, message@, None),
            },
    {
        match self {
            Error::InternalError => Envelope::failure(),
            Error::BadRequest(message) => Envelope::bad_request(message),
        }
    }
}

/// The reply to a request for all items that could not be read.
pub fn bad_request_handler(description: &str) -> (error: Error)
    ensures
        error matches Error::BadRequest(message) && message@
            == "Invalid request for fetching items: "@ + description@,
{
    Error::BadRequest(bad_request_message("Invalid request for fetching items: ", description))
}

} // verus!
