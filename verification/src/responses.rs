//! Replies. Every operation has a `Response` for what it returns on success
//! and an `Error` for what it returns otherwise, each with its status code.
//! [`Envelope`] is the uniform body that any of them can be turned into: a
//! code, a message and, where there is one, a payload.

use vstd::prelude::*;

use crate::validators::Validation;

pub mod create_item;
pub mod fetch_items;
pub mod find_item;
pub mod login;
pub mod modify_item;
pub mod remove_item;

verus! {

/// A reply that is plain text.
pub type CustomMessage = String;

pub const OK: u16 = 200;

pub const CREATED: u16 = 201;

pub const BAD_REQUEST: u16 = 400;

pub const NOT_FOUND: u16 = 404;

pub const UNPROCESSABLE: u16 = 422;

pub const INTERNAL_ERROR: u16 = 500;

/// The uniform reply body. `code` repeats the status that the reply is sent
/// with.
#[derive(Debug, PartialEq, Eq)]
pub struct Envelope<T> {
    pub code: u16,
    pub message: String,
    pub data: Option<T>,
}

impl<T> Envelope<T> {
    /// The body has this code and message, and this payload.
    pub open spec fn holds(&self, code: u16, message: Seq<char>, data: Option<T>) -> bool {
        &&& self.code == code
        &&& self.message@ == message
        &&& self.data == data
    }

    /// The request was carried out; `data` is its result.
    pub fn success(data: T) -> (body: Self)
        ensures
            body.holds(OK, "OK"@, Some(data)),
    {
        Envelope { code: OK, message: "OK".to_owned(), data: Some(data) }
    }

    /// The resource was created; `data` is the resource.
    pub fn created(data: T) -> (body: Self)
        ensures
            body.holds(CREATED, "Created"@, Some(data)),
    {
        Envelope { code: CREATED, message: "Created".to_owned(), data: Some(data) }
    }

    /// The resource was deleted; the message confirms it.
    pub fn deleted() -> (body: Self)
        ensures
            body.holds(OK, "Item deleted successfully"@, None),
    {
        Envelope { code: OK, message: "Item deleted successfully".to_owned(), data: None }
    }

    /// The request could not be read; `message` says why.
    pub fn bad_request(message: String) -> (body: Self)
        ensures
            body.holds(BAD_REQUEST, message@, None),
    {
        Envelope { code: BAD_REQUEST, message, data: None }
    }

    /// No resource has the requested id.
    pub fn not_found() -> (body: Self)
        ensures
            body.holds(NOT_FOUND, "Item not found"@, None),
    {
        Envelope { code: NOT_FOUND, message: "Item not found".to_owned(), data: None }
    }

    /// The service failed; `message` says how.
    pub fn internal_error(message: String) -> (body: Self)
        ensures
            body.holds(INTERNAL_ERROR, message@, None),
    {
        Envelope { code: INTERNAL_ERROR, message, data: None }
    }
}

impl Envelope<Validation> {
    /// The request was read but breaks a field rule; `report` holds the
    /// messages by field.
    pub fn unprocessable(report: Validation) -> (body: Self)
        ensures
            body.holds(UNPROCESSABLE, "Validation failed"@, Some(report)),
    {
        Envelope { code: UNPROCESSABLE, message: "Validation failed".to_owned(), data: Some(report) }
    }

    /// The service failed, and the reply does not say how.
    pub fn failure() -> (body: Self)
        ensures
            body.holds(INTERNAL_ERROR, "Internal server error"@, None),
    {
        Envelope::internal_error("Internal server error".to_owned())
    }
}

/// The message of a reply to a request that could not be read: what was
/// being asked, then what was wrong with it.
pub fn bad_request_message(context: &str, description: &str) -> (message: String)
    ensures
        message@ == context@ + description@,
{
    context.to_owned().concat(description)
}

/// A reply that is held back until the snapshot has been written. `reply`
/// goes out if the write succeeded, `failure` if it did not.
#[derive(Debug, PartialEq, Eq)]
pub struct Staged<R, E> {
    pub reply: R,
    pub failure: E,
}

impl<R, E> Staged<R, E> {
    /// The reply to send, now that the outcome of the write is known.
    pub fn settle(self, saved: bool) -> (reply: Result<R, E>)
        ensures
            reply == (if saved {
                Ok::<R, E>(self.reply)
            } else {
                Err::<R, E>(self.failure)
            }),
    {
        if saved {
            Ok(self.reply)
        } else {
            Err(self.failure)
        }
    }
}

} // verus!
