//! The operations of the service.
//!
//! Each operation checks its request, works on the store it is handed and
//! says what to reply. An operation that changed the store does not reply at
//! once: it returns a [`Staged`] reply, because the caller has yet to write
//! the snapshot, and what goes out depends on how that write ends. When an
//! operation refuses a request it has not touched the store, and there is
//! nothing to write.

use vstd::prelude::*;

use crate::auth::{signed_token, AuthUser, Authenticate, ServerKey};
use crate::db::{views, Database};
use crate::models::ItemView;
use crate::requests::{ItemRequest, LoginRequest};
use crate::responses::{create_item, fetch_items, find_item, login, modify_item, remove_item, Staged};

verus! {

/// The service. It holds no state of its own: the store and the key are
/// handed to each operation.
#[derive(Debug, Clone, Copy, PartialEq, Eq)]
pub struct Api;

impl Api {
    /// Issues a bearer token for the username, if it is an email address.
    pub fn login(&self, server_key: &ServerKey, req: LoginRequest) -> (reply: Result<
        login::Response,
        login::Error,
    >)
        ensures
            match reply {
                Ok(login::Response::Success(token)) => req.valid() && signed_token(
                    server_key@,
                    "username"@,
                    req.username@,
                ) == Some(token@),
                Err(login::Error::ValidationErrors(report)) => !req.valid() && report@
                    == LoginRequest::violation(),
                Err(login::Error::InternalError) => req.valid() && signed_token(
                    server_key@,
                    "username"@,
                    req.username@,
                ) is None,
                Err(login::Error::BadRequest(_)) => false,
            },
    {
        match req.validate() {
            Ok(_) => {
                let user = AuthUser { username: req.username };
                login::issued(user.sign_with_key(server_key))
            },
            Err(report) => Err(login::Error::ValidationErrors(report)),
        }
    }

    /// All items, in insertion order.
    pub fn get_items(&self, db: &Database) -> (reply: Result<
        fetch_items::Response,
        fetch_items::Error,
    >)
        ensures
            reply matches Ok(fetch_items::Response::Success(items)) && views(items@) == db@.items,
    {
        Ok(fetch_items::Response::Success(db.list()))
    }

    /// Stores a new item under the next id.
    pub fn add_item(&self, _auth: &Authenticate, db: &mut Database, req: ItemRequest) -> (reply:
        Result<Staged<create_item::Response, create_item::Error>, create_item::Error>)
        requires
            req.valid() ==> old(db).last_id < u32::MAX,
        ensures
            match reply {
                Ok(staged) => {
                    &&& req.valid()
                    &&& final(db)@ == old(db)@.create(req.name@)
                    &&& staged.reply matches create_item::Response::Created(item) && item@
                        == old(db)@.next_item(req.name@)
                    &&& staged.failure is InternalError
                },
                Err(create_item::Error::ValidationErrors(report)) => {
                    &&& !req.valid()
                    &&& report@ == ItemRequest::violation()
                    &&& *final(db) == *old(db)
                },
                Err(_) => false,
            },
            old(db).wf() ==> final(db).wf(),
    {
        match req.validate() {
            Ok(_) => {
                let item = db.create(req.name);
                Ok(
                    Staged {
                        reply: create_item::Response::Created(item),
                        failure: create_item::Error::InternalError,
                    },
                )
            },
            Err(report) => Err(create_item::Error::ValidationErrors(report)),
        }
    }

    /// The first item with the id.
    pub fn get_item(&self, db: &Database, id: u32) -> (reply: Result<
        find_item::Response,
        find_item::Error,
    >)
        ensures
            match reply {
                Ok(find_item::Response::Success(item)) => db@.find(id as nat) == Some(item@),
                Err(find_item::Error::NotFound) => db@.find(id as nat) is None,
                Err(find_item::Error::BadRequest(_)) => false,
            },
    {
        match db.find(id) {
            Some(item) => Ok(find_item::Response::Success(item)),
            None => Err(find_item::Error::NotFound),
        }
    }

    /// Renames the first item with the id.
    pub fn update_item(
        &self,
        _auth: &Authenticate,
        db: &mut Database,
        id: u32,
        req: ItemRequest,
    ) -> (reply: Result<Staged<modify_item::Response, modify_item::Error>, modify_item::Error>)
        ensures
            match reply {
                Ok(staged) => {
                    &&& req.valid()
                    &&& old(db)@.find(id as nat) is Some
                    &&& final(db)@ == old(db)@.update(id as nat, req.name@)
                    &&& staged.reply matches modify_item::Response::Success(item) && item@
                        == (ItemView { id: id as nat, name: req.name@ })
                    &&& staged.failure is InternalError
                },
                Err(modify_item::Error::ValidationErrors(report)) => {
                    &&& !req.valid()
                    &&& report@ == ItemRequest::violation()
                    &&& *final(db) == *old(db)
                },
                Err(modify_item::Error::NotFound) => {
                    &&& req.valid()
                    &&& old(db)@.find(id as nat) is None
                    &&& *final(db) == *old(db)
                },
                Err(_) => false,
            },
            old(db).wf() ==> final(db).wf(),
    {
        match req.validate() {
            Ok(_) => match db.update(id, req.name) {
                Ok(item) => Ok(
                    Staged {
                        reply: modify_item::Response::Success(item),
                        failure: modify_item::Error::InternalError,
                    },
                ),
                Err(_) => Err(modify_item::Error::NotFound),
            },
            Err(report) => Err(modify_item::Error::ValidationErrors(report)),
        }
    }

    /// Removes the first item with the id.
    pub fn delete_item(&self, _auth: &Authenticate, db: &mut Database, id: u32) -> (reply: Result<
        Staged<remove_item::Response, remove_item::Error>,
        remove_item::Error,
    >)
        ensures
            match reply {
                Ok(staged) => {
                    &&& old(db)@.find(id as nat) is Some
                    &&& final(db)@ == old(db)@.delete(id as nat)
                    &&& staged.reply matches remove_item::Response::Success(confirmation)
                        && confirmation@ == "Item deleted successfully"@
                    &&& staged.failure is InternalError
                },
                Err(remove_item::Error::NotFound) => {
                    &&& old(db)@.find(id as nat) is None
                    &&& *final(db) == *old(db)
                },
                Err(_) => false,
            },
            old(db).wf() ==> final(db).wf(),
    {
        match db.delete(id) {
            Ok(_) => Ok(
                Staged {
                    reply: remove_item::Response::Success(remove_item::DeletedMessage::new()),
                    failure: remove_item::Error::InternalError,
                },
            ),
            Err(_) => Err(remove_item::Error::NotFound),
        }
    }
}

} // verus!
