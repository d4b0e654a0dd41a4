use tickets::data::{Status, TicketDescriptionError, TicketId, TicketTitleError};
use tickets::store::TicketStore;
use tickets::web::{
    check_request, create_ticket, lookup_answer, patch_ticket, process_request, serve_request, split_request,
    RequestError,
};

fn serve(store: &mut TicketStore, command: &str, data: &str) -> Result<String, RequestError> {
    process_request(store, &format!("{command}\n{data}"))
}

#[test]
fn crud_exchange() {
    let mut store = TicketStore::new();
    assert_eq!(
        serve(&mut store, "POST", r#"{"title": "Ticket title", "description": "ticket description"}"#).unwrap(),
        r#"{"id":0}"#
    );
    assert_eq!(
        serve(&mut store, "GET", r#"{"id":0}"#).unwrap(),
        r#"{"id":0,"title":"Ticket title","description":"ticket description","status":"ToDo"}"#
    );
    assert_eq!(
        serve(&mut store, "PATCH", r#"{"id":0, "status": "done"}"#).unwrap(),
        r#"{"id":0,"title":"Ticket title","description":"ticket description","status":"Done"}"#
    );
    assert_eq!(
        serve(&mut store, "GET", r#"{"id":0}"#).unwrap(),
        r#"{"id":0,"title":"Ticket title","description":"ticket description","status":"Done"}"#
    );
    assert_eq!(serve(&mut store, "GET", r#"{"id":1}"#).unwrap(), "No ticket with id 1");
}

#[test]
fn second_post_gets_next_id() {
    let mut store = TicketStore::new();
    serve(&mut store, "POST", r#"{"title": "a", "description": "b"}"#).unwrap();
    assert_eq!(serve(&mut store, "POST", r#"{"title": "c", "description": "d"}"#).unwrap(), r#"{"id":1}"#);
    assert_eq!(store.len(), 2);
}

#[test]
fn patch_of_title_and_description() {
    let mut store = TicketStore::new();
    serve(&mut store, "POST", r#"{"title": "a", "description": "b"}"#).unwrap();
    assert_eq!(
        serve(&mut store, "PATCH", r#"{"id":0, "title": "New", "description": "Changed", "status": "InProgress"}"#).unwrap(),
        r#"{"id":0,"title":"New","description":"Changed","status":"InProgress"}"#
    );
    assert_eq!(serve(&mut store, "PATCH", r#"{"id":5, "title": "x"}"#).unwrap(), "No ticket with id 5");
}

#[test]
fn request_without_data_is_refused() {
    let mut store = TicketStore::new();
    assert_eq!(process_request(&mut store, "GET"), Err(RequestError::MissingData));
    assert_eq!(process_request(&mut store, "UNKNOWN"), Err(RequestError::MissingData));
}

#[test]
fn unknown_command_is_answered() {
    let mut store = TicketStore::new();
    assert_eq!(serve(&mut store, "DELETE", "{}").unwrap(), "Unrecognized command: DELETE");
    assert_eq!(serve(&mut store, "get", r#"{"id":0}"#).unwrap(), "Unrecognized command: get");
}

#[test]
fn data_is_the_second_line_only() {
    let mut store = TicketStore::new();
    serve(&mut store, "POST", r#"{"title": "a", "description": "b"}"#).unwrap();
    assert_eq!(
        process_request(&mut store, "GET\n{\"id\":0}\nignored"),
        Ok(r#"{"id":0,"title":"a","description":"b","status":"ToDo"}"#.to_string())
    );
    assert_eq!(split_request("GET\n{}\nmore"), Some(("GET", "{}")));
    assert_eq!(split_request("GET\n"), Some(("GET", "")));
    assert_eq!(split_request("GET"), None);
}

#[test]
fn refused_requests_leave_the_store() {
    let mut store = TicketStore::new();
    assert_eq!(serve(&mut store, "POST", "not json"), Err(RequestError::InvalidJson));
    assert_eq!(serve(&mut store, "POST", "{}"), Err(RequestError::MissingField));
    assert_eq!(serve(&mut store, "POST", r#"{"title": 3, "description": "b"}"#), Err(RequestError::MissingField));
    assert_eq!(
        serve(&mut store, "POST", r#"{"title": "", "description": "b"}"#),
        Err(RequestError::InvalidTitle(TicketTitleError::Empty))
    );
    assert_eq!(serve(&mut store, "POST", r#"{"title": "a"}"#), Err(RequestError::MissingField));
    assert_eq!(
        serve(&mut store, "POST", r#"{"title": "a", "description": ""}"#),
        Err(RequestError::InvalidDescription(TicketDescriptionError::Empty))
    );
    assert_eq!(store.len(), 0);
    serve(&mut store, "POST", r#"{"title": "a", "description": "b"}"#).unwrap();
    assert_eq!(serve(&mut store, "GET", r#"{"id":-1}"#), Err(RequestError::MissingField));
    assert_eq!(serve(&mut store, "GET", "[1,"), Err(RequestError::InvalidJson));
    assert_eq!(serve(&mut store, "PATCH", r#"{"id":0, "status": "weird"}"#), Err(RequestError::InvalidStatus));
    assert_eq!(
        serve(&mut store, "PATCH", r#"{"id":0, "title": "", "status": "done"}"#),
        Err(RequestError::InvalidTitle(TicketTitleError::Empty))
    );
    assert_eq!(
        serve(&mut store, "GET", r#"{"id":0}"#).unwrap(),
        r#"{"id":0,"title":"a","description":"b","status":"ToDo"}"#
    );
}

#[test]
fn answers_escape_text() {
    let mut store = TicketStore::new();
    serve(&mut store, "POST", r#"{"title": "say \"hi\"", "description": "line\nbreak"}"#).unwrap();
    assert_eq!(
        serve(&mut store, "GET", r#"{"id":0}"#).unwrap(),
        r#"{"id":0,"title":"say \"hi\"","description":"line\nbreak","status":"ToDo"}"#
    );
}

#[test]
fn create_and_patch_from_given_members() {
    let mut store = TicketStore::new();
    assert_eq!(create_ticket(&mut store, None, Some(Some("d".to_string()))), Err(RequestError::InvalidJson));
    assert_eq!(
        create_ticket(&mut store, Some(Some("t".to_string())), Some(None)),
        Err(RequestError::MissingField)
    );
    assert_eq!(
        create_ticket(&mut store, Some(Some("t".repeat(51))), Some(Some("d".to_string()))),
        Err(RequestError::InvalidTitle(TicketTitleError::TooLong))
    );
    let id = create_ticket(&mut store, Some(Some("t".to_string())), Some(Some("d".to_string()))).unwrap();
    assert_eq!(id, TicketId(0));
    assert_eq!(patch_ticket(&mut store, 0, Some(None), Some(None), Some(None)), Ok(true));
    assert_eq!(store.get(id).unwrap().status, Status::ToDo);
    assert_eq!(patch_ticket(&mut store, 0, Some(None), Some(None), Some(Some("DONE".to_string()))), Ok(true));
    assert_eq!(store.get(id).unwrap().status, Status::Done);
    assert_eq!(patch_ticket(&mut store, 3, None, None, None), Ok(false));
    assert_eq!(patch_ticket(&mut store, 0, None, None, None), Err(RequestError::InvalidJson));
    assert_eq!(
        lookup_answer(&store, 0),
        r#"{"id":0,"title":"t","description":"d","status":"Done"}"#
    );
    assert_eq!(lookup_answer(&store, 9), "No ticket with id 9");
}

#[test]
fn control_characters_are_escaped_in_hex() {
    let mut store = TicketStore::new();
    serve(&mut store, "POST", r#"{"title": "a\u0001b\t", "description": "back\\slash"}"#).unwrap();
    assert_eq!(
        serve(&mut store, "GET", r#"{"id":0}"#).unwrap(),
        r#"{"id":0,"title":"a\u0001b\t","description":"back\\slash","status":"ToDo"}"#
    );
}

#[test]
fn requests_are_checked_before_serving() {
    let mut store = TicketStore::new();
    assert_eq!(check_request(&store, "GET"), Err(RequestError::MissingData));
    assert_eq!(check_request(&store, "POST\nnot json"), Err(RequestError::InvalidJson));
    assert_eq!(check_request(&store, "POST\n{\"title\": \"a\"}"), Err(RequestError::MissingField));
    assert_eq!(
        check_request(&store, "POST\n{\"title\": \"\", \"description\": \"b\"}"),
        Err(RequestError::InvalidTitle(TicketTitleError::Empty))
    );
    assert_eq!(check_request(&store, "GET\n{\"id\": \"zero\"}"), Err(RequestError::MissingField));
    assert_eq!(check_request(&store, "GET\n{\"id\": 3}"), Ok(()));
    assert_eq!(check_request(&store, "PATCH\n{\"id\": 3, \"status\": \"closed\"}"), Ok(()));
    assert_eq!(check_request(&store, "HEAD\n{}"), Ok(()));
    assert_eq!(serve_request(&mut store, "POST\n{\"title\": \"a\", \"description\": \"b\"}"), r#"{"id":0}"#);
    assert_eq!(
        check_request(&store, "PATCH\n{\"id\": 0, \"status\": \"closed\"}"),
        Err(RequestError::InvalidStatus)
    );
    assert_eq!(
        serve_request(&mut store, "GET\n{\"id\": 0}"),
        r#"{"id":0,"title":"a","description":"b","status":"ToDo"}"#
    );
    assert_eq!(serve_request(&mut store, "HEAD\n{}"), "Unrecognized command: HEAD");
    assert_eq!(store.len(), 1);
}

#[test]
fn written_requests_read_back_their_values() {
    let mut store = TicketStore::new();
    let post = "POST\n{\"title\":\"say \\\"hi\\\" \\\\ now\",\"description\":\"tab\\there\\u0001\"}";
    assert_eq!(check_request(&store, post), Ok(()));
    assert_eq!(serve_request(&mut store, post), r#"{"id":0}"#);
    assert_eq!(process_request(&mut store, "GET\n{\"id\":7}"), Ok("No ticket with id 7".to_string()));
    assert_eq!(
        process_request(&mut store, "GET\n{\"id\":0}"),
        Ok("{\"id\":0,\"title\":\"say \\\"hi\\\" \\\\ now\",\"description\":\"tab\\there\\u0001\",\"status\":\"ToDo\"}".to_string())
    );
    assert_eq!(process_request(&mut store, "GET\n{\"id\":18446744073709551615}"), Ok("No ticket with id 18446744073709551615".to_string()));
}
