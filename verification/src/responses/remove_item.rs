//! Replies to a request that deletes an item.

use vstd::prelude::*;

use crate::responses::{
    bad_request_message, CustomMessage, Envelope, BAD_REQUEST, INTERNAL_ERROR, NOT_FOUND, OK,
};
use crate::validators::Validation;

verus! {

/// The confirmation that an item was deleted.
#[derive(Debug, PartialEq, Eq)]
pub struct DeletedMessage {
    message: String,
}

impl View for DeletedMessage {
    type V = Seq<char>;

    closed spec fn view(&self) -> Seq<char> {
        self.message@
    }
}

impl DeletedMessage {
    /// The confirmation; its text is fixed.
    pub fn new() -> (confirmation: Self)
        ensures
            confirmation@ == "Item deleted successfully"@,
    {
        Self { message: "Item deleted successfully".to_owned() }
    }

    /// The text of the confirmation.
    pub fn message(&self) -> (text: &str)
        ensures
            text@ == self@,
    {
        self.message.as_str()
    }
}

#[derive(Debug, PartialEq, Eq)]
pub enum Response {
    /// The item is gone.
    Success(DeletedMessage),
}

#[derive(Debug, PartialEq, Eq)]
pub enum Error {
    /// No item has the requested id.
    NotFound,
    /// The request could not be read.
    BadRequest(CustomMessage),
    /// The snapshot could not be written.
    InternalError,
}

impl Response {
    pub open spec fn code(&self) -> u16 {
        OK
    }

    /// The status that the reply is sent with.
    pub fn status(&self) -> (code: u16)
        ensures
            code == self.code(),
    {
        OK
    }

    /// The reply as a uniform body: the confirmation is its message, and it
    /// has no payload.
    pub fn envelope(self) -> (body: Envelope<()>)
        ensures
            body.code == self.code(),
            match self {
                Response::Success(confirmation) => body.holds(OK, confirmation@, None),
            },
    {
        match self {
            Response::Success(confirmation) => Envelope {
                code: OK,
                message: confirmation.message,
                data: None,
            },
        }
    }
}

impl Error {
    pub open spec fn code(&self) -> u16 {
        match self {
            Error::NotFound => NOT_FOUND,
            Error::BadRequest(_) => BAD_REQUEST,
            Error::InternalError => INTERNAL_ERROR,
        }
    }

    /// The status that the reply is sent with.
    pub fn status(&self) -> (code: u16)
        ensures
            code == self.code(),
    {
        match self {
            Error::NotFound => NOT_FOUND,
            Error::BadRequest(_) => BAD_REQUEST,
            Error::InternalError => INTERNAL_ERROR,
        }
    }

    /// The reply as a uniform body.
    pub fn envelope(self) -> (body: Envelope<Validation>)
        ensures
            body.code == self.code(),
            match self {
                Error::NotFound => body.holds(NOT_FOUND, "Item not found"@, None),
                Error::BadRequest(message) => body.holds(BAD_REQUEST, message@, None),
                Error::InternalError => body.holds(INTERNAL_ERROR, "Internal server error"@, None),
            },
    {
        match self {
            Error::NotFound => Envelope::not_found(),
            Error::BadRequest(message) => Envelope::bad_request(message),
            Error::InternalError => Envelope::failure(),
        }
    }
}

/// The reply to a deletion request that could not be read.
pub fn bad_request_handler(description: &str) -> (error: Error)
    ensures
        error matches Error::BadRequest(message) && message@
            == "Invalid request for removing item: "@ + description@,
{
    Error::BadRequest(bad_request_message("Invalid request for removing item: ", description))
}

} // verus!
