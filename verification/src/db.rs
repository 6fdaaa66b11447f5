//! The store: the items in insertion order and the counter that numbers them.
//!
//! Ids are handed out by the counter `last_id`, which only ever grows, so an
//! id that was deleted is never issued again.

use vstd::prelude::*;

use crate::models::{Item, ItemView};
use crate::responses::INTERNAL_ERROR;

verus! {

/// Mathematical value of a run of items.
pub open spec fn views(items: Seq<Item>) -> Seq<ItemView> {
    items.map_values(|item: Item| item@)
}

/// Index of the first item of `items` whose id is `id`.
pub open spec fn position(items: Seq<ItemView>, id: nat) -> Option<int>
    decreases items.len(),
{
    if items.len() == 0 {
        None
    } else {
        match position(items.drop_last(), id) {
            Some(i) => Some(i),
            None => if items.last().id == id {
                Some(items.len() - 1)
            } else {
                None
            },
        }
    }
}

/// `i` is the first index of `items` that holds an item with id `id`.
pub open spec fn first_at(items: Seq<ItemView>, id: nat, i: int) -> bool {
    &&& 0 <= i < items.len()
    &&& items[i].id == id
    &&& forall|j: int| 0 <= j < i ==> items[j].id != id
}

/// No item of `items` has id `id`.
pub open spec fn absent(items: Seq<ItemView>, id: nat) -> bool {
    forall|j: int| 0 <= j < items.len() ==> items[j].id != id
}

/// `position` finds the first item with the id, or none where there is none.
pub proof fn lemma_position(items: Seq<ItemView>, id: nat)
    ensures
        match position(items, id) {
            Some(i) => first_at(items, id, i),
            None => absent(items, id),
        },
    decreases items.len(),
{
    if items.len() > 0 {
        let rest = items.drop_last();
        lemma_position(rest, id);
        assert(forall|j: int| 0 <= j < rest.len() ==> rest[j] == items[j]);
    }
}

/// The first index with the id is what `position` returns.
pub proof fn lemma_position_first(items: Seq<ItemView>, id: nat, i: int)
    requires
        first_at(items, id, i),
    ensures
        position(items, id) == Some(i),
{
    lemma_position(items, id);
}

/// Where no item has the id, `position` returns nothing.
pub proof fn lemma_position_absent(items: Seq<ItemView>, id: nat)
    requires
        absent(items, id),
    ensures
        position(items, id) is None,
{
    lemma_position(items, id);
}

/// Mathematical value of a [`Database`].
pub struct DatabaseView {
    pub last_id: nat,
    pub items: Seq<ItemView>,
}

impl DatabaseView {
    /// The store before anything was created.
    pub open spec fn empty() -> DatabaseView {
        DatabaseView { last_id: 0, items: Seq::empty() }
    }

    /// Every stored id was issued by the counter, and none is stored twice.
    pub open spec fn wf(self) -> bool {
        &&& forall|i: int| 0 <= i < self.items.len() ==> 1 <= #[trigger] self.items[i].id <= self.last_id
        &&& forall|i: int, j: int|
            0 <= i < j < self.items.len() ==> #[trigger] self.items[i].id != #[trigger] self.items[j].id
    }

    /// The first item with the id.
    pub open spec fn find(self, id: nat) -> Option<ItemView> {
        match position(self.items, id) {
            Some(i) => Some(self.items[i]),
            None => None,
        }
    }

    /// The item that the next creation stores.
    pub open spec fn next_item(self, name: Seq<char>) -> ItemView {
        ItemView { id: self.last_id + 1, name }
    }

    /// The store after a creation.
    pub open spec fn create(self, name: Seq<char>) -> DatabaseView {
        DatabaseView { last_id: self.last_id + 1, items: self.items.push(self.next_item(name)) }
    }

    /// The store after renaming the first item with the id; unchanged where
    /// there is none.
    pub open spec fn update(self, id: nat, name: Seq<char>) -> DatabaseView {
        match position(self.items, id) {
            Some(i) => DatabaseView {
                last_id: self.last_id,
                items: self.items.update(i, ItemView { id, name }),
            },
            None => self,
        }
    }

    /// The store after removing the first item with the id; unchanged where
    /// there is none.
    pub open spec fn delete(self, id: nat) -> DatabaseView {
        match position(self.items, id) {
            Some(i) => DatabaseView { last_id: self.last_id, items: self.items.remove(i) },
            None => self,
        }
    }
}

/// No item with the requested id is stored.
#[derive(Debug, PartialEq, Eq, Clone, Copy)]
pub struct NotFound;

/// The file that holds the snapshot of the store.
pub const DB_FILE: &'static str = "data.json";

/// The store to start from, and whether it had to be made anew.
#[derive(Debug, PartialEq, Eq)]
pub struct Loaded {
    pub db: Database,
    /// The snapshot was missing or unreadable: `db` is the empty store, and
    /// it has yet to be written.
    pub recovered: bool,
}

/// The step at which writing the snapshot failed.
#[derive(Debug, PartialEq, Eq, Clone, Copy)]
pub enum SaveStep {
    /// The store could not be put into text.
    Encode,
    /// The text could not be written to the file.
    Write,
}

/// Why the snapshot was not written.
#[derive(Debug, PartialEq, Eq)]
pub struct SaveError {
    pub status: u16,
    pub message: String,
}

/// The store to start from, given what the snapshot file held: the store it
/// describes, or nothing where the file is missing or cannot be read as one.
/// A snapshot is taken as it is; without one the service starts empty and the
/// caller writes that empty store out before going on.
pub fn load_db(snapshot: Option<Database>) -> (loaded: Loaded)
    ensures
        match snapshot {
            Some(db) => loaded.db == db && !loaded.recovered,
            None => loaded.db@ == DatabaseView::empty() && loaded.recovered,
        },
{
    match snapshot {
        Some(db) => Loaded { db, recovered: false },
        None => Loaded { db: Database::default(), recovered: true },
    }
}

/// The outcome of writing the snapshot, given the step that failed, if one
/// did. Both failures are internal errors; the message names the step.
pub fn save_db(failed: Option<SaveStep>) -> (saved: Result<(), SaveError>)
    ensures
        match failed {
            None => saved is Ok,
            Some(SaveStep::Encode) => saved matches Err(error) && error.status == INTERNAL_ERROR
                && error.message@ == "Failed to Read File from "@ + DB_FILE@,
            Some(SaveStep::Write) => saved matches Err(error) && error.status == INTERNAL_ERROR
                && error.message@ == "Failed to write on "@ + DB_FILE@,
        },
{
    match failed {
        None => Ok(()),
        Some(SaveStep::Encode) => Err(
            SaveError {
                status: INTERNAL_ERROR,
                message: "Failed to Read File from ".to_owned().concat(DB_FILE),
            },
        ),
        Some(SaveStep::Write) => Err(
            SaveError {
                status: INTERNAL_ERROR,
                message: "Failed to write on ".to_owned().concat(DB_FILE),
            },
        ),
    }
}

/// The whole state of the service.
#[derive(Debug, PartialEq, Eq)]
pub struct Database {
    pub last_id: u32,
    pub items: Vec<Item>,
}

impl View for Database {
    type V = DatabaseView;

    open spec fn view(&self) -> DatabaseView {
        DatabaseView { last_id: self.last_id as nat, items: views(self.items@) }
    }
}

impl Default for Database {
    fn default() -> (db: Self)
        ensures
            db@ == DatabaseView::empty(),
            db@.wf(),
    {
        let db = Database { last_id: 0, items: Vec::new() };
        assert(db@.items =~= Seq::empty());
        db
    }
}

impl Clone for Database {
    fn clone(&self) -> (copy: Self)
        ensures
            copy@ == self@,
    {
        Database { last_id: self.last_id, items: self.list() }
    }
}

impl Database {
    /// Whether the store is valid.
    pub open spec fn wf(&self) -> bool {
        self@.wf()
    }

    /// Index of the first item with the id.
    fn position(&self, id: u32) -> (found: Option<usize>)
        ensures
            match found {
                Some(i) => position(self@.items, id as nat) == Some(i as int) && first_at(
                    self@.items,
                    id as nat,
                    i as int,
                ),
                None => position(self@.items, id as nat) is None,
            },
    {
        let mut i: usize = 0;
        while i < self.items.len()
            invariant
                i <= self.items.len(),
                forall|j: int| 0 <= j < i ==> self@.items[j].id != id,
            decreases self.items.len() - i,
        {
            if self.items[i].id == id {
                proof {
                    lemma_position_first(self@.items, id as nat, i as int);
                }
                return Some(i);
            }
            i += 1;
        }
        proof {
            lemma_position_absent(self@.items, id as nat);
        }
        None
    }

    /// All items, in insertion order.
    pub fn list(&self) -> (items: Vec<Item>)
        ensures
            views(items@) == self@.items,
    {
        let mut items: Vec<Item> = Vec::new();
        let mut i: usize = 0;
        while i < self.items.len()
            invariant
                i <= self.items.len(),
                items.len() == i,
                forall|j: int| 0 <= j < i ==> items[j] == self.items[j],
            decreases self.items.len() - i,
        {
            items.push(self.items[i].clone());
            i += 1;
        }
        assert(views(items@) =~= self@.items);
        items
    }

    /// The first item with the id.
    pub fn find(&self, id: u32) -> (found: Option<Item>)
        ensures
            match found {
                Some(item) => self@.find(id as nat) == Some(item@),
                None => self@.find(id as nat) is None,
            },
    {
        match self.position(id) {
            Some(i) => Some(self.items[i].clone()),
            None => None,
        }
    }

    /// Stores a new item under the next id and returns it.
    pub fn create(&mut self, name: String) -> (item: Item)
        requires
            old(self).last_id < u32::MAX,
        ensures
            final(self)@ == old(self)@.create(name@),
            item@ == old(self)@.next_item(name@),
            old(self).wf() ==> final(self).wf(),
    {
        let item = Item { id: self.last_id + 1, name };
        self.last_id = self.last_id + 1;
        self.items.push(item.clone());
        assert(final(self)@.items =~= old(self)@.items.push(item@));
        item
    }

    /// Renames the first item with the id and returns it as it now stands.
    pub fn update(&mut self, id: u32, name: String) -> (updated: Result<Item, NotFound>)
        ensures
            final(self)@ == old(self)@.update(id as nat, name@),
            match updated {
                Ok(item) => old(self)@.find(id as nat) is Some && item@ == (ItemView {
                    id: id as nat,
                    name: name@,
                }),
                Err(_) => old(self)@.find(id as nat) is None && *final(self) == *old(self),
            },
            old(self).wf() ==> final(self).wf(),
    {
        match self.position(id) {
            Some(i) => {
                let item = Item { id, name };
                self.items.set(i, item.clone());
                assert(final(self)@.items =~= old(self)@.items.update(i as int, item@));
                Ok(item)
            },
            None => Err(NotFound),
        }
    }

    /// Removes the first item with the id.
    pub fn delete(&mut self, id: u32) -> (deleted: Result<(), NotFound>)
        ensures
            final(self)@ == old(self)@.delete(id as nat),
            match deleted {
                Ok(_) => old(self)@.find(id as nat) is Some,
                Err(_) => old(self)@.find(id as nat) is None && *final(self) == *old(self),
            },
            old(self).wf() ==> final(self).wf(),
    {
        match self.position(id) {
            Some(i) => {
                self.items.remove(i);
                assert(final(self)@.items =~= old(self)@.items.remove(i as int));
                Ok(())
            },
            None => Err(NotFound),
        }
    }
}

/// One change to the store.
pub enum Change {
    Create { name: Seq<char> },
    Update { id: nat, name: Seq<char> },
    Delete { id: nat },
}

impl DatabaseView {
    /// The store after one change.
    pub open spec fn apply(self, change: Change) -> DatabaseView {
        match change {
            Change::Create { name } => self.create(name),
            Change::Update { id, name } => self.update(id, name),
            Change::Delete { id } => self.delete(id),
        }
    }

    /// The store after a run of changes, applied in order.
    pub open spec fn apply_all(self, changes: Seq<Change>) -> DatabaseView
        decreases changes.len(),
    {
        if changes.len() == 0 {
            self
        } else {
            self.apply_all(changes.drop_last()).apply(changes.last())
        }
    }
}

/// A change keeps a valid store valid and never lowers the counter.
pub proof fn lemma_apply(db: DatabaseView, change: Change)
    ensures
        db.apply(change).last_id >= db.last_id,
        db.wf() ==> db.apply(change).wf(),
{
    lemma_position(
        db.items,
        match change {
            Change::Create { name } => 0,
            Change::Update { id, name } => id,
            Change::Delete { id } => id,
        },
    );
}

/// A run of changes keeps a valid store valid and never lowers the counter.
pub proof fn lemma_apply_all(db: DatabaseView, changes: Seq<Change>)
    ensures
        db.apply_all(changes).last_id >= db.last_id,
        db.wf() ==> db.apply_all(changes).wf(),
    decreases changes.len(),
{
    if changes.len() > 0 {
        lemma_apply_all(db, changes.drop_last());
        lemma_apply(db.apply_all(changes.drop_last()), changes.last());
    }
}

/// In a valid store, an item that was just created is found under its id with
/// the name it was given; the id is positive, and no item had it before.
pub proof fn lemma_create_then_find(db: DatabaseView, name: Seq<char>)
    requires
        db.wf(),
    ensures
        db.create(name).find(db.next_item(name).id) == Some(db.next_item(name)),
        db.next_item(name).name == name,
        db.next_item(name).id > 0,
        absent(db.items, db.next_item(name).id),
        db.create(name).wf(),
{
    let item = db.next_item(name);
    let after = db.create(name);
    assert(after.items.drop_last() =~= db.items);
    lemma_position_absent(db.items, item.id);
}

/// Ids strictly increase from one creation to the next, whatever changes are
/// made in between.
pub proof fn lemma_ids_increase(
    db: DatabaseView,
    first: Seq<char>,
    between: Seq<Change>,
    second: Seq<char>,
)
    ensures
        db.create(first).apply_all(between).next_item(second).id > db.next_item(first).id,
{
    lemma_apply_all(db.create(first), between);
}

/// In a valid store, the id of a deleted item is never issued again.
pub proof fn lemma_deleted_id_not_reused(
    db: DatabaseView,
    id: nat,
    between: Seq<Change>,
    name: Seq<char>,
)
    requires
        db.wf(),
        db.find(id) is Some,
    ensures
        db.delete(id).apply_all(between).next_item(name).id != id,
{
    lemma_position(db.items, id);
    lemma_apply_all(db.delete(id), between);
}

/// Deleting an id that is not stored leaves the store as it was.
pub proof fn lemma_delete_absent(db: DatabaseView, id: nat)
    requires
        db.find(id) is None,
    ensures
        db.delete(id) == db,
{
}

/// In a valid store, an id that was deleted is no longer found, so deleting
/// it a second time finds nothing to delete.
pub proof fn lemma_delete_twice(db: DatabaseView, id: nat)
    requires
        db.wf(),
    ensures
        db.delete(id).find(id) is None,
        db.delete(id).delete(id) == db.delete(id),
{
    lemma_position(db.items, id);
    lemma_position_absent(db.delete(id).items, id);
}

/// Updating an id that is not stored leaves the store, counter included, as
/// it was.
pub proof fn lemma_update_absent(db: DatabaseView, id: nat, name: Seq<char>)
    requires
        db.find(id) is None,
    ensures
        db.update(id, name) == db,
{
}

} // verus!
