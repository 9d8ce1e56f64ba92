//! What travels between a client and the service, as plain values: the method
//! of a request and the body that was read from it, the status of a response
//! and the body to write. Turning these into bytes and back is the caller's
//! work.

use crate::ident::{canonical_text, id_text};
use crate::model::{
    CreateTodoRequest, TodoItem, TodoItemView, UpdateTodoRequest, UpdateTodoRequestView,
};
use vstd::prelude::*;

verus! {

/// The method of a request.
#[derive(Debug, Clone, Copy, PartialEq, Eq, Structural)]
pub enum Method {
    Get,
    Post,
    Put,
    Delete,
    /// Any method that the service answers on no path.
    Other,
}

/// What was read from the body of a request.
#[derive(Debug, PartialEq, Eq)]
pub enum Payload {
    /// The body was not read.
    Absent,
    /// The body was read and is not the request that the route takes.
    Malformed,
    /// The body is a request to create a record.
    Create(CreateTodoRequest),
    /// The body is a request to change a record.
    Update(UpdateTodoRequest),
}

/// The mathematical value of a `Payload`.
pub ghost enum PayloadView {
    Absent,
    Malformed,
    Create(Seq<char>),
    Update(UpdateTodoRequestView),
}

impl View for Payload {
    type V = PayloadView;

    open spec fn view(&self) -> PayloadView {
        match self {
            Payload::Absent => PayloadView::Absent,
            Payload::Malformed => PayloadView::Malformed,
            Payload::Create(request) => PayloadView::Create(request@),
            Payload::Update(request) => PayloadView::Update(request@),
        }
    }
}

/// The status of a response.
#[derive(Debug, Clone, Copy, PartialEq, Eq, Structural)]
pub enum Status {
    Okay,
    Created,
    NoContent,
    BadRequest,
    NotFound,
}

impl Status {
    /// The status code, as a number.
    pub open spec fn code_value(self) -> u16 {
        match self {
            Status::Okay => 200,
            Status::Created => 201,
            Status::NoContent => 204,
            Status::BadRequest => 400,
            Status::NotFound => 404,
        }
    }

    /// Whether the status reports success.
    pub open spec fn success(self) -> bool {
        self.code_value() < 300
    }

    /// The status code, as a number.
    pub fn code(&self) -> (c: u16)
        ensures
            c == self.code_value(),
    {
        match self {
            Status::Okay => 200,
            Status::Created => 201,
            Status::NoContent => 204,
            Status::BadRequest => 400,
            Status::NotFound => 404,
        }
    }

    /// Whether the status reports success.
    pub fn is_success(&self) -> (b: bool)
        ensures
            b == self.success(),
    {
        self.code() < 300
    }
}

/// A record as a response shows it: the identifier in its canonical text
/// form, the title and the flag.
#[derive(Debug, PartialEq, Eq)]
pub struct TodoRecord {
    pub id: String,
    pub title: String,
    pub completed: bool,
}

/// The mathematical value of a `TodoRecord`.
pub ghost struct TodoRecordView {
    pub id: Seq<char>,
    pub title: Seq<char>,
    pub completed: bool,
}

impl View for TodoRecord {
    type V = TodoRecordView;

    open spec fn view(&self) -> TodoRecordView {
        TodoRecordView { id: self.id@, title: self.title@, completed: self.completed }
    }
}

/// How a response shows a stored record.
pub open spec fn shown(item: TodoItemView) -> TodoRecordView {
    TodoRecordView { id: canonical_text(item.id), title: item.title, completed: item.completed }
}

/// How a response shows a sequence of stored records: one by one, in order.
pub open spec fn shown_all(items: Seq<TodoItemView>) -> Seq<TodoRecordView> {
    items.map_values(|item: TodoItemView| shown(item))
}

/// The body of a response.
#[derive(Debug, PartialEq, Eq)]
pub enum Body {
    /// No body.
    Empty,
    /// One record.
    Record(TodoRecord),
    /// A list of records.
    Records(Vec<TodoRecord>),
    /// An error with a message for a human reader.
    Error(String),
}

/// The mathematical value of a `Body`.
pub ghost enum BodyView {
    Empty,
    Record(TodoRecordView),
    Records(Seq<TodoRecordView>),
    Error(Seq<char>),
}

impl View for Body {
    type V = BodyView;

    open spec fn view(&self) -> BodyView {
        match self {
            Body::Empty => BodyView::Empty,
            Body::Record(record) => BodyView::Record(record@),
            Body::Records(records) => BodyView::Records(
                records@.map_values(|record: TodoRecord| record@),
            ),
            Body::Error(message) => BodyView::Error(message@),
        }
    }
}

/// A response: a status and a body.
#[derive(Debug, PartialEq, Eq)]
pub struct Response {
    pub status: Status,
    pub body: Body,
}

/// The mathematical value of a `Response`.
pub ghost struct ResponseView {
    pub status: Status,
    pub body: BodyView,
}

impl View for Response {
    type V = ResponseView;

    open spec fn view(&self) -> ResponseView {
        ResponseView { status: self.status, body: self.body@ }
    }
}

impl ResponseView {
    /// Whether the response carries an error body.
    pub open spec fn has_error_body(self) -> bool {
        self.body is Error
    }
}

impl TodoRecord {
    /// Shows a stored record: writes its identifier as text and copies the
    /// title and the flag.
    pub fn of(item: &TodoItem) -> (record: TodoRecord)
        ensures
            record@ == shown(item@),
    {
        TodoRecord { id: id_text(item.id), title: item.title.clone(), completed: item.completed }
    }

    /// Shows each record of a listing, in the listing's order.
    pub fn of_all(items: &Vec<TodoItem>) -> (records: Vec<TodoRecord>)
        ensures
            records@.map_values(|record: TodoRecord| record@) == shown_all(
                items@.map_values(|item: TodoItem| item@),
            ),
    {
        let mut records: Vec<TodoRecord> = Vec::new();
        let mut i: usize = 0;
        while i < items.len()
            invariant
                i <= items.len(),
                records.len() == i,
                forall|j: int| 0 <= j < i ==> records[j]@ == shown(items[j]@),
            decreases items.len() - i,
        {
            records.push(TodoRecord::of(&items[i]));
            i += 1;
        }
        assert(records@.map_values(|record: TodoRecord| record@) =~= shown_all(
            items@.map_values(|item: TodoItem| item@),
        ));
        records
    }
}

} // verus!
