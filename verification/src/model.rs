//! The to-do record and the two requests that create and change one.

use vstd::prelude::*;

verus! {

/// A stored to-do record.
#[derive(Debug, PartialEq, Eq)]
pub struct TodoItem {
    /// The identifier under which the store keeps the record. It never changes.
    pub id: u128,
    /// Free-form text; the empty text is a valid title.
    pub title: String,
    /// Whether the to-do is done.
    pub completed: bool,
}

/// The mathematical value of a `TodoItem`.
pub ghost struct TodoItemView {
    pub id: u128,
    pub title: Seq<char>,
    pub completed: bool,
}

/// The request that creates a record: its title.
#[derive(Debug, PartialEq, Eq)]
pub struct CreateTodoRequest {
    pub title: String,
}

/// The request that changes a record. A field that is `None` leaves the
/// record's field as it is.
#[derive(Debug, PartialEq, Eq)]
pub struct UpdateTodoRequest {
    pub title: Option<String>,
    pub completed: Option<bool>,
}

/// The mathematical value of an `UpdateTodoRequest`.
pub ghost struct UpdateTodoRequestView {
    pub title: Option<Seq<char>>,
    pub completed: Option<bool>,
}

impl TodoItemView {
    /// The record that a creation with this identifier and title stores: it is
    /// not completed.
    pub open spec fn created(id: u128, title: Seq<char>) -> TodoItemView {
        TodoItemView { id, title, completed: false }
    }

    /// The record after a change: a title or a flag that is given replaces
    /// the record's, one that is `None` leaves it; the identifier stays.
    pub open spec fn updated(
        self,
        title: Option<Seq<char>>,
        completed: Option<bool>,
    ) -> TodoItemView {
        TodoItemView {
            id: self.id,
            title: match title {
                Some(title) => title,
                None => self.title,
            },
            completed: match completed {
                Some(completed) => completed,
                None => self.completed,
            },
        }
    }
}

impl View for TodoItem {
    type V = TodoItemView;

    open spec fn view(&self) -> TodoItemView {
        TodoItemView { id: self.id, title: self.title@, completed: self.completed }
    }
}

impl View for CreateTodoRequest {
    type V = Seq<char>;

    open spec fn view(&self) -> Seq<char> {
        self.title@
    }
}

/// The mathematical value of an optional title.
pub open spec fn title_view(title: Option<String>) -> Option<Seq<char>> {
    match title {
        Some(title) => Some(title@),
        None => None,
    }
}

impl View for UpdateTodoRequest {
    type V = UpdateTodoRequestView;

    open spec fn view(&self) -> UpdateTodoRequestView {
        UpdateTodoRequestView { title: title_view(self.title), completed: self.completed }
    }
}

impl Clone for TodoItem {
    fn clone(&self) -> (r: Self)
        ensures
            r == *self,
    {
        TodoItem { id: self.id, title: self.title.clone(), completed: self.completed }
    }
}

impl TodoItem {
    /// A new record with the given identifier and title, not completed.
    pub fn new(id: u128, title: String) -> (r: TodoItem)
        ensures
            r@ == TodoItemView::created(id, title@),
            r.title == title,
    {
        TodoItem { id, title, completed: false }
    }

    /// Applies a change to the record: a title or a flag that is given
    /// replaces the record's, one that is `None` leaves it untouched.
    pub fn apply(&mut self, title: Option<String>, completed: Option<bool>)
        ensures
            final(self)@ == old(self)@.updated(title_view(title), completed),
            final(self).id == old(self).id,
            title is None ==> final(self).title == old(self).title,
            completed is None ==> final(self).completed == old(self).completed,
    {
        match title {
            Some(title) => {
                self.title = title;
            },
            None => {},
        }
        match completed {
            Some(completed) => {
                self.completed = completed;
            },
            None => {},
        }
    }
}

} // verus!
