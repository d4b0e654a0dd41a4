use std::convert::TryFrom;
use tickets::channels::{apply_command, Command};
use tickets::data::{
    Status, TicketDescription, TicketDescriptionError, TicketDraft, TicketId, TicketTitle,
    TicketTitleError,
};
use tickets::store::TicketStore;

fn draft(title: &str, description: &str) -> TicketDraft {
    TicketDraft {
        title: TicketTitle::parse(title).unwrap(),
        description: TicketDescription::parse(description).unwrap(),
    }
}

#[test]
fn ids_start_at_zero_and_follow_each_other() {
    let mut store = TicketStore::new();
    assert_eq!(store.len(), 0);
    assert_eq!(store.add_ticket(draft("a", "first")), TicketId(0));
    assert_eq!(store.add_ticket(draft("b", "second")), TicketId(1));
    assert_eq!(store.add_ticket(draft("c", "third")), TicketId(2));
    assert_eq!(store.len(), 3);
}

#[test]
fn get_after_add_gives_the_draft_back() {
    let mut store = TicketStore::new();
    let first = store.add_ticket(draft("Title one", "Description one"));
    let second = store.add_ticket(draft("Title two", "Description two"));
    let ticket = store.get(second).unwrap();
    assert_eq!(ticket.id, second);
    assert_eq!(ticket.title.as_str(), "Title two");
    assert_eq!(ticket.description.as_str(), "Description two");
    assert_eq!(ticket.status, Status::ToDo);
    let ticket = store.get(first).unwrap();
    assert_eq!(ticket.title.as_str(), "Title one");
    assert!(store.get(TicketId(2)).is_none());
}

#[test]
fn update_changes_only_given_fields() {
    let mut store = TicketStore::new();
    let id = store.add_ticket(draft("Title", "Description"));
    let other = store.add_ticket(draft("Other", "Untouched"));
    assert!(store.update(id, None, None, Some(Status::Done)));
    let ticket = store.get(id).unwrap();
    assert_eq!(ticket.title.as_str(), "Title");
    assert_eq!(ticket.description.as_str(), "Description");
    assert_eq!(ticket.status, Status::Done);
    assert!(store.update(id, Some(TicketTitle::parse("New").unwrap()), None, None));
    assert_eq!(store.get(id).unwrap().title.as_str(), "New");
    assert_eq!(store.get(id).unwrap().status, Status::Done);
    assert_eq!(store.get(other).unwrap().title.as_str(), "Other");
    assert!(!store.update(TicketId(7), None, None, Some(Status::Done)));
    assert_eq!(store.len(), 2);
}

#[test]
fn titles_are_checked() {
    assert_eq!(TicketTitle::parse("").unwrap_err(), TicketTitleError::Empty);
    assert!(TicketTitle::parse(&"x".repeat(50)).is_ok());
    assert_eq!(TicketTitle::parse(&"x".repeat(51)).unwrap_err(), TicketTitleError::TooLong);
    // 17 characters of 3 bytes each: 51 bytes.
    assert_eq!(TicketTitle::parse(&"€".repeat(17)).unwrap_err(), TicketTitleError::TooLong);
    assert!(TicketTitle::parse(&"€".repeat(16)).is_ok());
}

#[test]
fn descriptions_are_checked() {
    assert_eq!(TicketDescription::parse("").unwrap_err(), TicketDescriptionError::Empty);
    assert!(TicketDescription::parse(&"y".repeat(500)).is_ok());
    assert_eq!(
        TicketDescription::parse(&"y".repeat(501)).unwrap_err(),
        TicketDescriptionError::TooLong
    );
}

#[test]
fn ticket_status_reads_text() {
    assert_eq!(Status::try_from("TODO"), Ok(Status::ToDo));
    assert_eq!(Status::try_from("InProgress"), Ok(Status::InProgress));
    assert_eq!(Status::try_from("done"), Ok(Status::Done));
    assert_eq!(Status::try_from("finished"), Err(()));
}

#[test]
fn labels_read_back() {
    for status in [Status::ToDo, Status::InProgress, Status::Done] {
        assert_eq!(Status::try_from(status.label()), Ok(status));
    }
    assert_eq!(Status::InProgress.label(), "InProgress");
}

#[test]
fn clones_are_equal() {
    let mut store = TicketStore::new();
    let id = store.add_ticket(draft("Title", "Description"));
    let ticket = store.get(id).unwrap();
    assert_eq!(ticket.clone(), *ticket);
}

#[test]
fn channel_command_inserts() {
    let mut store = TicketStore::new();
    apply_command(&mut store, Command::Insert(draft("From a channel", "Inserted")));
    apply_command(&mut store, Command::Insert(draft("Second", "Inserted too")));
    assert_eq!(store.len(), 2);
    assert_eq!(store.get(TicketId(1)).unwrap().title.as_str(), "Second");
}

#[test]
fn positions_are_ids() {
    let mut store = TicketStore::new();
    store.add_ticket(draft("a", "b"));
    store.add_ticket(draft("c", "d"));
    store.ids_are_positions();
    assert_eq!(store.get(TicketId(1)).unwrap().id, TicketId(1));
}

#[test]
fn statuses_convert_into_their_names() {
    let name: String = (&Status::InProgress).into();
    assert_eq!(name, "InProgress");
    assert_eq!(String::from(&Status::ToDo), "ToDo");
    assert_eq!(String::from(&Status::Done), "Done");
}
