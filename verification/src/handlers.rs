//! The request handlers: one per operation, and the step that takes a request
//! through routing, the reading of its identifier and its handler.
//!
//! A handler performs at most one store operation and answers with a status
//! and a body. A response that reports a failure carries an error body; one
//! that reports success never does.

use crate::ident::{canonical_text, is_random_id, parse_id, uuid_from_text};
use crate::model::{CreateTodoRequest, TodoItemView, UpdateTodoRequest, UpdateTodoRequestView};
use crate::routes::{
    id_segment, item_path, lemma_item_path_is_routed, path_id, route, route_of, Route,
};
use crate::store::{StoreView, TodoStorage};
use crate::wire::{
    shown, shown_all, Body, BodyView, Method, Payload, PayloadView, Response, ResponseView, Status,
    TodoRecord,
};
use vstd::prelude::*;

verus! {

/// The message of the answer to a request for a record that the store does
/// not hold.
pub open spec fn not_found_message() -> Seq<char> {
    "Todo not found"@
}

/// The message of the answer to a path whose last segment is no identifier.
pub open spec fn invalid_id_message() -> Seq<char> {
    "Invalid identifier"@
}

/// The message of the answer to a body that is not the request expected.
pub open spec fn malformed_body_message() -> Seq<char> {
    "Malformed request body"@
}

/// The message of the answer to a method and path that name no operation.
pub open spec fn no_route_message() -> Seq<char> {
    "No such route"@
}

impl ResponseView {
    /// A failure: a status and an error body with a message.
    pub open spec fn failure(status: Status, message: Seq<char>) -> ResponseView {
        ResponseView { status, body: BodyView::Error(message) }
    }

    /// 404: the store holds no record under the identifier.
    pub open spec fn not_found() -> ResponseView {
        ResponseView::failure(Status::NotFound, not_found_message())
    }

    /// 400: the last segment of the path is no identifier.
    pub open spec fn invalid_id() -> ResponseView {
        ResponseView::failure(Status::BadRequest, invalid_id_message())
    }

    /// 400: the body is not the request expected.
    pub open spec fn malformed_body() -> ResponseView {
        ResponseView::failure(Status::BadRequest, malformed_body_message())
    }

    /// 404: the method and path name no operation.
    pub open spec fn no_route() -> ResponseView {
        ResponseView::failure(Status::NotFound, no_route_message())
    }

    /// A success that shows one record.
    pub open spec fn record(status: Status, item: TodoItemView) -> ResponseView {
        ResponseView { status, body: BodyView::Record(shown(item)) }
    }

    /// Whether this is an answer to a request for all records of `store`:
    /// 200 with each record of the store shown exactly once, in any order.
    pub open spec fn lists(self, store: StoreView) -> bool {
        &&& self.status == Status::Okay
        &&& exists|listing: Seq<TodoItemView>| #[trigger]
            store.is_listed_by(listing) && self.body == BodyView::Records(shown_all(listing))
    }

    /// The answer to a request for the record under `id`: 200 with the record,
    /// or 404.
    pub open spec fn got(store: StoreView, id: u128) -> ResponseView {
        if store.contains(id) {
            ResponseView::record(Status::Okay, store.records[id])
        } else {
            ResponseView::not_found()
        }
    }

    /// The answer to a creation under `id`: 201 with the new record.
    pub open spec fn created(id: u128, title: Seq<char>) -> ResponseView {
        ResponseView::record(Status::Created, TodoItemView::created(id, title))
    }

    /// The answer to a change of the record under `id` in the store `before`:
    /// 200 with the record as changed, or 404.
    pub open spec fn updated(
        before: StoreView,
        id: u128,
        change: UpdateTodoRequestView,
    ) -> ResponseView {
        if before.contains(id) {
            ResponseView::record(
                Status::Okay,
                before.records[id].updated(change.title, change.completed),
            )
        } else {
            ResponseView::not_found()
        }
    }

    /// The answer to a removal of the record under `id` from the store
    /// `before`: 204 without a body, or 404.
    pub open spec fn deleted(before: StoreView, id: u128) -> ResponseView {
        if before.contains(id) {
            ResponseView { status: Status::NoContent, body: BodyView::Empty }
        } else {
            ResponseView::not_found()
        }
    }
}

impl Response {
    /// A failure with the given status and message.
    fn failure(status: Status, message: &str) -> (r: Response)
        ensures
            r@ == ResponseView::failure(status, message@),
    {
        Response { status, body: Body::Error(message.to_owned()) }
    }

    /// 404: the store holds no record under the identifier.
    pub fn not_found() -> (r: Response)
        ensures
            r@ == ResponseView::not_found(),
    {
        Response::failure(Status::NotFound, "Todo not found")
    }

    /// 400: the last segment of the path is no identifier.
    pub fn invalid_id() -> (r: Response)
        ensures
            r@ == ResponseView::invalid_id(),
    {
        Response::failure(Status::BadRequest, "Invalid identifier")
    }

    /// 400: the body is not the request expected.
    pub fn malformed_body() -> (r: Response)
        ensures
            r@ == ResponseView::malformed_body(),
    {
        Response::failure(Status::BadRequest, "Malformed request body")
    }

    /// 404: the method and path name no operation.
    pub fn no_route() -> (r: Response)
        ensures
            r@ == ResponseView::no_route(),
    {
        Response::failure(Status::NotFound, "No such route")
    }
}

/// Answers a request for all records.
pub fn get_todos(store: &TodoStorage) -> (r: Response)
    ensures
        r@.lists(store@),
        store@.valid(),
{
    let listing = store.list();
    let records = TodoRecord::of_all(&listing);
    Response { status: Status::Okay, body: Body::Records(records) }
}

/// Answers a request for the record under `id`.
pub fn get_todo(store: &TodoStorage, id: u128) -> (r: Response)
    ensures
        r@ == ResponseView::got(store@, id),
        store@.valid(),
{
    match store.get(id) {
        Ok(item) => Response { status: Status::Okay, body: Body::Record(TodoRecord::of(&item)) },
        Err(_) => Response::not_found(),
    }
}

/// Creates a record under a given identifier and answers with it.
pub fn create_todo_with_id(store: &mut TodoStorage, id: u128, request: CreateTodoRequest) -> (r:
    Response)
    ensures
        final(store)@ == old(store)@.create(id, request@),
        final(store)@.valid(),
        r@ == ResponseView::created(id, request@),
{
    let item = store.create_with_id(id, request.title);
    Response { status: Status::Created, body: Body::Record(TodoRecord::of(&item)) }
}

/// Creates a record under a newly drawn identifier and answers with it.
///
/// The identifier is drawn at random, so this contract states what holds of
/// every draw; `create_todo_with_id` states what a given identifier does. The
/// draw panics if the operating system's source of random bytes fails.
pub fn create_todo(store: &mut TodoStorage, request: CreateTodoRequest) -> (r: Response)
    ensures
        final(store)@.valid(),
        exists|id: u128|
            is_random_id(id) && #[trigger] old(store)@.create(id, request@) == final(store)@ && r@
                == ResponseView::created(id, request@),
{
    let item = store.create(request.title);
    assert(old(store)@.create(item.id, request@) == store@);
    Response { status: Status::Created, body: Body::Record(TodoRecord::of(&item)) }
}

/// Changes the record under `id` and answers with the record as changed.
pub fn update_todo(store: &mut TodoStorage, id: u128, request: UpdateTodoRequest) -> (r: Response)
    ensures
        final(store)@ == old(store)@.update(id, request@.title, request@.completed),
        final(store)@.valid(),
        r@ == ResponseView::updated(old(store)@, id, request@),
{
    match store.update(id, request.title, request.completed) {
        Ok(item) => Response { status: Status::Okay, body: Body::Record(TodoRecord::of(&item)) },
        Err(_) => Response::not_found(),
    }
}

/// Removes the record under `id` and answers without a body.
pub fn delete_todo(store: &mut TodoStorage, id: u128) -> (r: Response)
    ensures
        final(store)@ == old(store)@.delete(id),
        final(store)@.valid(),
        r@ == ResponseView::deleted(old(store)@, id),
{
    match store.delete(id) {
        Ok(()) => Response { status: Status::NoContent, body: Body::Empty },
        Err(_) => Response::not_found(),
    }
}

/// Whether a request, met by the store `before`, may leave the store `after`
/// and be answered by `response`.
///
/// The operation is found from method and path. An operation on one record
/// reads the identifier from the last segment of the path and answers 400
/// where that is no identifier. An operation that takes a request from the
/// body answers 400 where the payload is not that request. Only a creation
/// and a change or removal that finds its record change the store.
pub open spec fn answers(
    before: StoreView,
    method: Method,
    path: Seq<char>,
    payload: PayloadView,
    after: StoreView,
    response: ResponseView,
) -> bool {
    let id = uuid_from_text(id_segment(path));
    match route_of(method, path) {
        Route::List => after == before && response.lists(before),
        Route::Create => match payload {
            PayloadView::Create(title) => exists|new_id: u128|
                is_random_id(new_id) && #[trigger] before.create(new_id, title) == after
                    && response == ResponseView::created(new_id, title),
            _ => after == before && response == ResponseView::malformed_body(),
        },
        Route::Get => match id {
            Some(id) => after == before && response == ResponseView::got(before, id),
            None => after == before && response == ResponseView::invalid_id(),
        },
        Route::Update => match (id, payload) {
            (Some(id), PayloadView::Update(change)) => after == before.update(
                id,
                change.title,
                change.completed,
            ) && response == ResponseView::updated(before, id, change),
            (Some(_), _) => after == before && response == ResponseView::malformed_body(),
            (None, _) => after == before && response == ResponseView::invalid_id(),
        },
        Route::Delete => match id {
            Some(id) => after == before.delete(id) && response == ResponseView::deleted(
                before,
                id,
            ),
            None => after == before && response == ResponseView::invalid_id(),
        },
        Route::Unmatched => after == before && response == ResponseView::no_route(),
    }
}

/// Takes one request through the service and returns the response.
///
/// The store is the state, the request the event; the caller reads the request
/// from the network before the call and writes the response after it.
///
/// The last clause adds what the reading of identifiers is known to do: on the
/// path of the record under `id`, it reads `id`.
pub fn handle(store: &mut TodoStorage, method: Method, path: &str, payload: Payload) -> (r:
    Response)
    ensures
        answers(old(store)@, method, path@, payload@, final(store)@, r@),
        final(store)@.valid(),
        forall|id: u128|
            path@ == #[trigger] item_path(id) && route_of(method, path@) != Route::Unmatched
                ==> uuid_from_text(id_segment(path@)) == Some(id),
{
    store.validity();
    proof {
        assert forall|id: u128| path@ == #[trigger] item_path(id) implies id_segment(path@)
            == canonical_text(id) by {
            lemma_item_path_is_routed(id);
        }
    }
    match route(method, path) {
        Route::List => get_todos(store),
        Route::Create => match payload {
            Payload::Create(request) => create_todo(store, request),
            _ => Response::malformed_body(),
        },
        Route::Get => match parse_id(path_id(path)) {
            Some(id) => get_todo(store, id),
            None => Response::invalid_id(),
        },
        Route::Update => match parse_id(path_id(path)) {
            Some(id) => match payload {
                Payload::Update(request) => update_todo(store, id, request),
                _ => Response::malformed_body(),
            },
            None => Response::invalid_id(),
        },
        Route::Delete => match parse_id(path_id(path)) {
            Some(id) => delete_todo(store, id),
            None => Response::invalid_id(),
        },
        Route::Unmatched => Response::no_route(),
    }
}

} // verus!
