use todo_service::handlers::{
    create_todo, create_todo_with_id, delete_todo, get_todo, get_todos, handle, update_todo,
};
use todo_service::model::{CreateTodoRequest, TodoItem, UpdateTodoRequest};
use todo_service::store::TodoStorage;
use todo_service::wire::{Body, Method, Payload, Response, Status, TodoRecord};

const ID: u128 = 0x550e8400_e29b_41d4_a716_446655440000;
const ID_TEXT: &str = "550e8400-e29b-41d4-a716-446655440000";
const ID_PATH: &str = "/resources/550e8400-e29b-41d4-a716-446655440000";

fn create_request(title: &str) -> CreateTodoRequest {
    CreateTodoRequest { title: String::from(title) }
}

fn record(id: &str, title: &str, completed: bool) -> TodoRecord {
    TodoRecord { id: String::from(id), title: String::from(title), completed }
}

fn error(status: Status, message: &str) -> Response {
    Response { status, body: Body::Error(String::from(message)) }
}

fn record_of(response: &Response) -> &TodoRecord {
    match &response.body {
        Body::Record(record) => record,
        other => panic!("no record in {:?}", other),
    }
}

#[test]
fn test_create_todo() {
    let mut store = TodoStorage::new();
    let request = create_request("Test todo");
    let response = handle(&mut store, Method::Post, "/resources", Payload::Create(request));
    assert!(response.status.is_success());
}

#[test]
fn test_get_todos_empty() {
    let mut store = TodoStorage::new();
    let response = handle(&mut store, Method::Get, "/resources", Payload::Absent);
    assert!(response.status.is_success());
}

#[test]
fn list_of_an_empty_store_is_200_with_an_empty_list() {
    let mut store = TodoStorage::new();
    let response = handle(&mut store, Method::Get, "/resources", Payload::Absent);
    assert_eq!(response, Response { status: Status::Okay, body: Body::Records(Vec::new()) });
    assert_eq!(response.status.code(), 200);
    assert_eq!(get_todos(&store), response);
}

#[test]
fn status_codes() {
    assert_eq!(Status::Okay.code(), 200);
    assert_eq!(Status::Created.code(), 201);
    assert_eq!(Status::NoContent.code(), 204);
    assert_eq!(Status::BadRequest.code(), 400);
    assert_eq!(Status::NotFound.code(), 404);
    assert!(Status::Okay.is_success());
    assert!(Status::Created.is_success());
    assert!(Status::NoContent.is_success());
    assert!(!Status::BadRequest.is_success());
    assert!(!Status::NotFound.is_success());
}

#[test]
fn record_shows_the_identifier_in_canonical_text() {
    let mut store = TodoStorage::new();
    let response = create_todo_with_id(&mut store, ID, create_request("Buy milk"));
    assert_eq!(
        response,
        Response { status: Status::Created, body: Body::Record(record(ID_TEXT, "Buy milk", false)) }
    );
}

#[test]
fn canonical_text_of_the_extreme_identifiers() {
    let mut store = TodoStorage::new();
    let zero = create_todo_with_id(&mut store, 0, create_request("zero"));
    assert_eq!(record_of(&zero).id, "00000000-0000-0000-0000-000000000000");
    let all = create_todo_with_id(&mut store, u128::MAX, create_request("all"));
    assert_eq!(record_of(&all).id, "ffffffff-ffff-ffff-ffff-ffffffffffff");
    let one = create_todo_with_id(&mut store, 1, create_request("one"));
    assert_eq!(record_of(&one).id, "00000000-0000-0000-0000-000000000001");
    let id = 0x01234567_89ab_cdef_fedc_ba9876543210;
    let digits = create_todo_with_id(&mut store, id, create_request("d"));
    assert_eq!(record_of(&digits).id, "01234567-89ab-cdef-fedc-ba9876543210");
}

#[test]
fn create_then_get_update_delete_get() {
    let mut store = TodoStorage::new();

    let created =
        handle(&mut store, Method::Post, "/resources", Payload::Create(create_request("Buy milk")));
    assert_eq!(created.status.code(), 201);
    let id = record_of(&created).id.clone();
    assert_eq!(created.body, Body::Record(record(&id, "Buy milk", false)));
    assert_eq!(id.len(), 36);
    let path = format!("/resources/{}", id);

    let got = handle(&mut store, Method::Get, &path, Payload::Absent);
    assert_eq!(got.status.code(), 200);
    assert_eq!(got.body, created.body);

    let change = UpdateTodoRequest { title: None, completed: Some(true) };
    let updated = handle(&mut store, Method::Put, &path, Payload::Update(change));
    assert_eq!(updated.status.code(), 200);
    assert_eq!(updated.body, Body::Record(record(&id, "Buy milk", true)));

    let deleted = handle(&mut store, Method::Delete, &path, Payload::Absent);
    assert_eq!(deleted, Response { status: Status::NoContent, body: Body::Empty });
    assert_eq!(deleted.status.code(), 204);

    let gone = handle(&mut store, Method::Get, &path, Payload::Absent);
    assert_eq!(gone.status.code(), 404);
    assert!(matches!(gone.body, Body::Error(_)));
    assert_eq!(gone, error(Status::NotFound, "Todo not found"));
}

#[test]
fn created_identifier_is_a_random_one() {
    let mut store = TodoStorage::new();
    let created = create_todo(&mut store, create_request("x"));
    assert_eq!(created.status, Status::Created);
    let id = record_of(&created).id.as_bytes().to_vec();
    assert_eq!(id.len(), 36);
    assert_eq!(id[14], b'4');
    assert!(matches!(id[19], b'8' | b'9' | b'a' | b'b'));
    for (at, byte) in id.iter().enumerate() {
        if at == 8 || at == 13 || at == 18 || at == 23 {
            assert_eq!(*byte, b'-');
        } else {
            assert!(matches!(*byte, b'0'..=b'9' | b'a'..=b'f'));
        }
    }
}

#[test]
fn handlers_by_identifier() {
    let mut store = TodoStorage::new();
    assert_eq!(get_todo(&store, ID), error(Status::NotFound, "Todo not found"));
    create_todo_with_id(&mut store, ID, create_request("one"));
    assert_eq!(
        get_todo(&store, ID),
        Response { status: Status::Okay, body: Body::Record(record(ID_TEXT, "one", false)) }
    );
    let change = UpdateTodoRequest { title: Some(String::from("uno")), completed: None };
    assert_eq!(
        update_todo(&mut store, ID, change),
        Response { status: Status::Okay, body: Body::Record(record(ID_TEXT, "uno", false)) }
    );
    assert_eq!(
        delete_todo(&mut store, ID),
        Response { status: Status::NoContent, body: Body::Empty }
    );
    assert_eq!(delete_todo(&mut store, ID), error(Status::NotFound, "Todo not found"));
    let change = UpdateTodoRequest { title: None, completed: Some(true) };
    assert_eq!(update_todo(&mut store, ID, change), error(Status::NotFound, "Todo not found"));
    assert_eq!(store.len(), 0);
}

#[test]
fn list_shows_every_record() {
    let mut store = TodoStorage::new();
    create_todo_with_id(&mut store, 2, create_request("two"));
    create_todo_with_id(&mut store, 1, create_request("one"));
    let response = handle(&mut store, Method::Get, "/resources", Payload::Absent);
    assert_eq!(response.status, Status::Okay);
    let mut records = match response.body {
        Body::Records(records) => records,
        other => panic!("no list in {:?}", other),
    };
    records.sort_by(|a, b| a.id.cmp(&b.id));
    assert_eq!(
        records,
        vec![
            record("00000000-0000-0000-0000-000000000001", "one", false),
            record("00000000-0000-0000-0000-000000000002", "two", false),
        ]
    );
}

#[test]
fn identifier_is_read_in_every_form_that_the_parser_takes() {
    let mut store = TodoStorage::new();
    create_todo_with_id(&mut store, ID, create_request("one"));
    let expected =
        Response { status: Status::Okay, body: Body::Record(record(ID_TEXT, "one", false)) };
    for path in [
        "/resources/550e8400-e29b-41d4-a716-446655440000",
        "/resources/550E8400-E29B-41D4-A716-446655440000",
        "/resources/550e8400e29b41d4a716446655440000",
        "/resources/{550e8400-e29b-41d4-a716-446655440000}",
        "/resources/urn:uuid:550e8400-e29b-41d4-a716-446655440000",
    ] {
        assert_eq!(handle(&mut store, Method::Get, path, Payload::Absent), expected, "{}", path);
    }
}

#[test]
fn invalid_identifier_is_400_and_not_404() {
    let mut store = TodoStorage::new();
    create_todo_with_id(&mut store, ID, create_request("one"));
    let invalid = error(Status::BadRequest, "Invalid identifier");
    for path in [
        "/resources/x",
        "/resources/550e8400-e29b-41d4-a716-44665544000",
        "/resources/550e8400-e29b-41d4-a716-4466554400000",
        "/resources/550e8400-e29b-41d4-a716-44665544000g",
        "/resources/550e8400_e29b_41d4_a716_446655440000",
        "/resources/113343183484668790526884406565464703396",
        "/resources/\u{e9}50e8400-e29b-41d4-a716-446655440000",
    ] {
        assert_eq!(handle(&mut store, Method::Get, path, Payload::Absent), invalid, "{}", path);
        assert_eq!(handle(&mut store, Method::Delete, path, Payload::Absent), invalid, "{}", path);
        let change = UpdateTodoRequest { title: None, completed: Some(true) };
        assert_eq!(
            handle(&mut store, Method::Put, path, Payload::Update(change)),
            invalid,
            "{}",
            path
        );
    }
    assert_eq!(invalid.status.code(), 400);
    assert_eq!(store.len(), 1);
    assert_eq!(get_todo(&store, ID).status, Status::Okay);
}

#[test]
fn unknown_identifier_is_404() {
    let mut store = TodoStorage::new();
    create_todo_with_id(&mut store, ID, create_request("one"));
    let path = "/resources/550e8400-e29b-41d4-a716-446655440001";
    let missing = error(Status::NotFound, "Todo not found");
    assert_eq!(handle(&mut store, Method::Get, path, Payload::Absent), missing);
    assert_eq!(handle(&mut store, Method::Delete, path, Payload::Absent), missing);
    let change = UpdateTodoRequest { title: None, completed: Some(true) };
    assert_eq!(handle(&mut store, Method::Put, path, Payload::Update(change)), missing);
    assert_eq!(store.len(), 1);
}

#[test]
fn malformed_body_is_400() {
    let mut store = TodoStorage::new();
    create_todo_with_id(&mut store, ID, create_request("one"));
    let malformed = error(Status::BadRequest, "Malformed request body");
    assert_eq!(handle(&mut store, Method::Post, "/resources", Payload::Malformed), malformed);
    assert_eq!(handle(&mut store, Method::Post, "/resources", Payload::Absent), malformed);
    let change = UpdateTodoRequest { title: None, completed: Some(true) };
    assert_eq!(
        handle(&mut store, Method::Post, "/resources", Payload::Update(change)),
        malformed
    );
    assert_eq!(handle(&mut store, Method::Put, ID_PATH, Payload::Malformed), malformed);
    assert_eq!(handle(&mut store, Method::Put, ID_PATH, Payload::Absent), malformed);
    assert_eq!(
        handle(&mut store, Method::Put, ID_PATH, Payload::Create(create_request("x"))),
        malformed
    );
    assert_eq!(store.len(), 1);
    assert_eq!(
        get_todo(&store, ID),
        Response { status: Status::Okay, body: Body::Record(record(ID_TEXT, "one", false)) }
    );
}

#[test]
fn malformed_body_on_an_unknown_identifier_is_400() {
    let mut store = TodoStorage::new();
    assert_eq!(
        handle(&mut store, Method::Put, ID_PATH, Payload::Malformed),
        error(Status::BadRequest, "Malformed request body")
    );
}

#[test]
fn invalid_identifier_comes_before_a_malformed_body() {
    let mut store = TodoStorage::new();
    assert_eq!(
        handle(&mut store, Method::Put, "/resources/x", Payload::Malformed),
        error(Status::BadRequest, "Invalid identifier")
    );
}

#[test]
fn unmatched_request_is_404_and_changes_nothing() {
    let mut store = TodoStorage::new();
    let none = error(Status::NotFound, "No such route");
    assert_eq!(handle(&mut store, Method::Get, "/", Payload::Absent), none);
    assert_eq!(handle(&mut store, Method::Delete, "/resources", Payload::Absent), none);
    assert_eq!(
        handle(&mut store, Method::Post, "/todos", Payload::Create(create_request("x"))),
        none
    );
    assert_eq!(
        handle(&mut store, Method::Post, ID_PATH, Payload::Create(create_request("x"))),
        none
    );
    assert_eq!(handle(&mut store, Method::Other, ID_PATH, Payload::Absent), none);
    assert_eq!(store.len(), 0);
}

#[test]
fn failure_carries_an_error_body_and_success_never_does() {
    let mut store = TodoStorage::new();
    create_todo_with_id(&mut store, ID, create_request("one"));
    let requests: Vec<(Method, &str, Payload)> = vec![
        (Method::Get, "/resources", Payload::Absent),
        (Method::Post, "/resources", Payload::Create(create_request("two"))),
        (Method::Post, "/resources", Payload::Malformed),
        (Method::Get, ID_PATH, Payload::Absent),
        (Method::Get, "/resources/nope", Payload::Absent),
        (Method::Put, ID_PATH, Payload::Update(UpdateTodoRequest { title: None, completed: None })),
        (Method::Put, ID_PATH, Payload::Malformed),
        (Method::Delete, ID_PATH, Payload::Absent),
        (Method::Delete, ID_PATH, Payload::Absent),
        (Method::Get, "/elsewhere", Payload::Absent),
    ];
    for (method, path, payload) in requests {
        let response = handle(&mut store, method, path, payload);
        let is_error = matches!(response.body, Body::Error(_));
        assert_eq!(is_error, !response.status.is_success(), "{:?} {}", method, path);
    }
}

#[test]
fn create_with_an_empty_title_is_accepted() {
    let mut store = TodoStorage::new();
    let request = create_request("");
    let response = handle(&mut store, Method::Post, "/resources", Payload::Create(request));
    assert_eq!(response.status, Status::Created);
    assert_eq!(record_of(&response).title, "");
    assert!(!record_of(&response).completed);
}

#[test]
fn records_are_shown_in_the_order_of_the_listing() {
    let items = vec![
        TodoItem { id: 2, title: String::from("two"), completed: true },
        TodoItem { id: 1, title: String::from("one"), completed: false },
    ];
    assert_eq!(
        TodoRecord::of_all(&items),
        vec![
            record("00000000-0000-0000-0000-000000000002", "two", true),
            record("00000000-0000-0000-0000-000000000001", "one", false),
        ]
    );
    assert_eq!(
        TodoRecord::of(&items[1]),
        record("00000000-0000-0000-0000-000000000001", "one", false)
    );
    assert_eq!(TodoRecord::of_all(&Vec::new()), Vec::new());
}

#[test]
fn failures_by_name() {
    assert_eq!(Response::not_found(), error(Status::NotFound, "Todo not found"));
    assert_eq!(Response::invalid_id(), error(Status::BadRequest, "Invalid identifier"));
    assert_eq!(Response::malformed_body(), error(Status::BadRequest, "Malformed request body"));
    assert_eq!(Response::no_route(), error(Status::NotFound, "No such route"));
}
