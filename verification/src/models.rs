//! The stored resource.

use vstd::prelude::*;

verus! {

/// Mathematical value of an [`Item`].
pub struct ItemView {
    pub id: nat,
    pub name: Seq<char>,
}

/// A stored item. Its identity is `id`; only `name` ever changes.
#[derive(Debug, PartialEq, Eq)]
pub struct Item {
    pub id: u32,
    pub name: String,
}

impl View for Item {
    type V = ItemView;

    open spec fn view(&self) -> ItemView {
        ItemView { id: self.id as nat, name: self.name@ }
    }
}

impl Clone for Item {
    fn clone(&self) -> (copy: Self)
        ensures
            copy == *self,
    {
        Item { id: self.id, name: self.name.clone() }
    }
}

} // verus!
