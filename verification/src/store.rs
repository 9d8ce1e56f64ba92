//! The resource store: a mapping from identifiers to to-do records.
//!
//! Every operation takes the store by reference, a mutating one by exclusive
//! reference, and is a single change of the mapping: it either happens as a
//! whole or, where it fails, leaves the store as it was. A service that shares
//! the store between requests puts it behind one lock and holds the lock for
//! the length of one operation.

use crate::ident::{is_random_id, random_id};
use crate::model::{title_view, TodoItem, TodoItemView};
use std::collections::HashMap;
use vstd::prelude::*;
use vstd::std_specs::hash::spec_hash_map_iter;
use vstd::std_specs::iter::IteratorSpec;

verus! {

broadcast use vstd::std_specs::hash::group_hash_axioms;

/// The one way in which a store operation fails.
#[derive(Debug, Clone, Copy, PartialEq, Eq, Structural)]
pub enum StoreError {
    /// The store holds no record under the identifier.
    NotFound,
}

/// The mathematical value of a store: the records it holds, by identifier, and
/// the set of all identifiers under which a record was ever created in it.
pub ghost struct StoreView {
    pub records: Map<u128, TodoItemView>,
    pub issued: Set<u128>,
}

impl StoreView {
    /// The store that holds nothing and has issued nothing.
    pub open spec fn empty() -> StoreView {
        StoreView { records: Map::empty(), issued: Set::empty() }
    }

    /// What holds of every store: it holds finitely many records, each under
    /// its own identifier, and only under identifiers that a creation issued.
    pub open spec fn valid(self) -> bool {
        &&& self.records.dom().finite()
        &&& forall|id: u128| #[trigger]
            self.records.contains_key(id) ==> self.records[id].id == id
        &&& forall|id: u128| #[trigger]
            self.records.contains_key(id) ==> self.issued.contains(id)
    }

    /// Whether the store holds a record under `id`.
    pub open spec fn contains(self, id: u128) -> bool {
        self.records.contains_key(id)
    }

    /// The record under `id`, or `NotFound`.
    pub open spec fn get(self, id: u128) -> Result<TodoItemView, StoreError> {
        if self.contains(id) {
            Ok(self.records[id])
        } else {
            Err(StoreError::NotFound)
        }
    }

    /// The store after a creation under `id`: it holds the new record under
    /// `id`, in place of any record that it held there, and `id` is issued.
    pub open spec fn create(self, id: u128, title: Seq<char>) -> StoreView {
        StoreView {
            records: self.records.insert(id, TodoItemView::created(id, title)),
            issued: self.issued.insert(id),
        }
    }

    /// The store after a change of the record under `id`; the same store where
    /// it holds no such record.
    pub open spec fn update(
        self,
        id: u128,
        title: Option<Seq<char>>,
        completed: Option<bool>,
    ) -> StoreView {
        if self.contains(id) {
            StoreView {
                records: self.records.insert(id, self.records[id].updated(title, completed)),
                issued: self.issued,
            }
        } else {
            self
        }
    }

    /// What a change of the record under `id` returns: the record as changed,
    /// or `NotFound`.
    pub open spec fn update_result(
        self,
        id: u128,
        title: Option<Seq<char>>,
        completed: Option<bool>,
    ) -> Result<TodoItemView, StoreError> {
        if self.contains(id) {
            Ok(self.records[id].updated(title, completed))
        } else {
            Err(StoreError::NotFound)
        }
    }

    /// What a removal of the record under `id` returns: nothing, or
    /// `NotFound`.
    pub open spec fn delete_result(self, id: u128) -> Result<(), StoreError> {
        if self.contains(id) {
            Ok(())
        } else {
            Err(StoreError::NotFound)
        }
    }

    /// The store after the removal of the record under `id`; the same store
    /// where it holds no such record.
    pub open spec fn delete(self, id: u128) -> StoreView {
        if self.contains(id) {
            StoreView { records: self.records.remove(id), issued: self.issued }
        } else {
            self
        }
    }

    /// The store after one creation for each identifier of `ids`, in order,
    /// each with the title at its place in `titles`.
    pub open spec fn create_all(self, ids: Seq<u128>, titles: Seq<Seq<char>>) -> StoreView
        decreases ids.len(),
    {
        if ids.len() == 0 {
            self
        } else {
            self.create_all(ids.drop_last(), titles.drop_last()).create(ids.last(), titles.last())
        }
    }

    /// Whether `listing` holds each record of the store exactly once, in any
    /// order.
    pub open spec fn is_listed_by(self, listing: Seq<TodoItemView>) -> bool {
        &&& listing.len() == self.records.len()
        &&& forall|i: int|
            0 <= i < listing.len() ==> self.records.contains_key(#[trigger] listing[i].id)
                && self.records[listing[i].id] == listing[i]
        &&& forall|i: int, j: int|
            0 <= i < j < listing.len() ==> #[trigger] listing[i].id != #[trigger] listing[j].id
    }
}

/// The store of to-do records.
pub struct TodoStorage {
    items: HashMap<u128, TodoItem>,
    issued: Ghost<Set<u128>>,
}

impl View for TodoStorage {
    type V = StoreView;

    closed spec fn view(&self) -> StoreView {
        StoreView {
            records: self.items@.map_values(|item: TodoItem| item@),
            issued: self.issued@,
        }
    }
}

impl TodoStorage {
    /// What the fields hold at all times: each item under its own
    /// identifier, and only under identifiers that a creation issued.
    #[verifier::type_invariant]
    spec fn well_formed(self) -> bool {
        &&& forall|id: u128| #[trigger] self.items@.contains_key(id) ==> self.items@[id].id == id
        &&& forall|id: u128| #[trigger] self.items@.contains_key(id) ==> self.issued@.contains(id)
    }

    /// How the value of a well-formed store follows its fields: the value is
    /// valid, holds a record under the keys of `items` and no others, and each
    /// record is the value of the item under its key.
    proof fn lemma_view(self)
        requires
            self.well_formed(),
        ensures
            self@.valid(),
            self@.issued == self.issued@,
            self@.records.dom() == self.items@.dom(),
            forall|id: u128| #[trigger]
                self.items@.contains_key(id) ==> self@.records[id] == self.items@[id]@,
    {
        assert(self@.records.dom() =~= self.items@.dom());
    }

    /// An empty store.
    pub fn new() -> (store: TodoStorage)
        ensures
            store@ == StoreView::empty(),
            store@.valid(),
    {
        let store = TodoStorage { items: HashMap::new(), issued: Ghost(Set::empty()) };
        assert(store@.records =~= Map::empty());
        store
    }

    /// Does nothing when run. To the verifier, a call brings to light that
    /// the store's value is valid, as it is at all times.
    pub fn validity(&self)
        ensures
            self@.valid(),
    {
        proof {
            use_type_invariant(self);
            self.lemma_view();
        }
    }

    /// The number of records in the store.
    pub fn len(&self) -> (n: usize)
        ensures
            n == self@.records.len(),
            self@.valid(),
    {
        proof {
            use_type_invariant(self);
            self.lemma_view();
        }
        self.items.len()
    }

    /// A snapshot of all records, each exactly once, in no particular order.
    pub fn list(&self) -> (listing: Vec<TodoItem>)
        ensures
            self@.valid(),
            self@.is_listed_by(listing@.map_values(|item: TodoItem| item@)),
    {
        proof {
            use_type_invariant(self);
            self.lemma_view();
        }
        let mut listing: Vec<TodoItem> = Vec::new();
        for entry in it: self.items.iter()
            invariant
                listing.len() == it.index(),
                forall|i: int| 0 <= i < listing.len() ==> listing[i] == *it.seq()[i].1,
                it.seq() == spec_hash_map_iter(&self.items).remaining(),
                it.seq().no_duplicates(),
        {
            listing.push(entry.1.clone());
        }
        proof {
            let entries = spec_hash_map_iter(&self.items).remaining();
            let views = listing@.map_values(|item: TodoItem| item@);
            assert(views.len() == self@.records.len());
            assert forall|i: int| 0 <= i < views.len() implies self@.records.contains_key(
                #[trigger] views[i].id,
            ) && self@.records[views[i].id] == views[i] by {
                assert(self.items@.contains_key(*entries[i].0));
            }
            assert forall|i: int, j: int| 0 <= i < j < views.len() implies #[trigger] views[i].id
                != #[trigger] views[j].id by {
                assert(self.items@.contains_key(*entries[i].0));
                assert(self.items@.contains_key(*entries[j].0));
                assert(entries[i] != entries[j]);
            }
        }
        listing
    }

    /// The record under `id`, or `NotFound` where the store holds none.
    pub fn get(&self, id: u128) -> (r: Result<TodoItem, StoreError>)
        ensures
            self@.valid(),
            match r {
                Ok(item) => self@.get(id) == Ok::<TodoItemView, StoreError>(item@),
                Err(e) => self@.get(id) == Err::<TodoItemView, StoreError>(e),
            },
    {
        proof {
            use_type_invariant(self);
            self.lemma_view();
        }
        match self.items.get(&id) {
            Some(item) => Ok(item.clone()),
            None => Err(StoreError::NotFound),
        }
    }

    /// Creates a record under a given identifier and returns it.
    ///
    /// The record takes the place of any record that the store held under
    /// `id`. The identifier is new to the store exactly if it is not among
    /// those issued before.
    pub fn create_with_id(&mut self, id: u128, title: String) -> (item: TodoItem)
        ensures
            final(self)@ == old(self)@.create(id, title@),
            final(self)@.valid(),
            item@ == TodoItemView::created(id, title@),
    {
        proof {
            use_type_invariant(&*self);
            self.lemma_view();
        }
        let item = TodoItem::new(id, title);
        let stored = item.clone();
        let mut items = HashMap::new();
        std::mem::swap(&mut items, &mut self.items);
        items.insert(id, stored);
        self.issued = Ghost(self.issued@.insert(id));
        self.items = items;
        proof {
            self.lemma_view();
            assert(self@.records =~= old(self)@.records.insert(
                id,
                TodoItemView::created(id, title@),
            ));
        }
        item
    }

    /// Creates a record under a newly drawn identifier and returns it.
    ///
    /// The identifier is drawn at random, so this contract states what holds
    /// of every draw; `create_with_id` states what a given identifier does.
    /// The draw panics if the operating system's source of random bytes fails.
    pub fn create(&mut self, title: String) -> (item: TodoItem)
        ensures
            final(self)@ == old(self)@.create(item.id, title@),
            final(self)@.valid(),
            item@ == TodoItemView::created(item.id, title@),
            is_random_id(item.id),
    {
        let id = random_id();
        self.create_with_id(id, title)
    }

    /// Changes the record under `id` and returns it as changed, or returns
    /// `NotFound` and leaves the store as it was.
    ///
    /// A title or a flag that is given replaces the record's; one that is
    /// `None` leaves it untouched.
    pub fn update(&mut self, id: u128, title: Option<String>, completed: Option<bool>) -> (r:
        Result<TodoItem, StoreError>)
        ensures
            final(self)@ == old(self)@.update(id, title_view(title), completed),
            final(self)@.valid(),
            match r {
                Ok(item) => old(self)@.update_result(id, title_view(title), completed) == Ok::<
                    TodoItemView,
                    StoreError,
                >(item@),
                Err(e) => old(self)@.update_result(id, title_view(title), completed) == Err::<
                    TodoItemView,
                    StoreError,
                >(e),
            },
    {
        proof {
            use_type_invariant(&*self);
            self.lemma_view();
        }
        let mut items = HashMap::new();
        std::mem::swap(&mut items, &mut self.items);
        let r = match items.remove(&id) {
            Some(mut item) => {
                item.apply(title, completed);
                let changed = item.clone();
                items.insert(id, item);
                Ok(changed)
            },
            None => Err(StoreError::NotFound),
        };
        self.items = items;
        proof {
            self.lemma_view();
            assert(self@.records =~= old(self)@.update(id, title_view(title), completed).records);
        }
        r
    }

    /// Removes the record under `id`, or returns `NotFound` and leaves the
    /// store as it was.
    pub fn delete(&mut self, id: u128) -> (r: Result<(), StoreError>)
        ensures
            final(self)@ == old(self)@.delete(id),
            final(self)@.valid(),
            r == old(self)@.delete_result(id),
    {
        proof {
            use_type_invariant(&*self);
            self.lemma_view();
        }
        let mut items = HashMap::new();
        std::mem::swap(&mut items, &mut self.items);
        let r = match items.remove(&id) {
            Some(_) => Ok(()),
            None => Err(StoreError::NotFound),
        };
        self.items = items;
        proof {
            self.lemma_view();
            assert(self@.records =~= old(self)@.delete(id).records);
        }
        r
    }
}

} // verus!
