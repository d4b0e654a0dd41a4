use std::sync::mpsc::sync_channel;
use tickets::bounded::{
    connect, exchange_outcome, get_command, get_with_answer_channel, handle_command, insert_command,
    insert_with_answer_channel, serve_next, serve_received, Command, Reply,
};
use tickets::data::{TicketDescription, TicketDraft, TicketId, TicketTitle};
use tickets::store::TicketStore;

fn draft(title: &str) -> TicketDraft {
    TicketDraft {
        title: TicketTitle::parse(title).unwrap(),
        description: TicketDescription::parse("description").unwrap(),
    }
}

#[test]
fn outcome_of_an_exchange() {
    assert_eq!(exchange_outcome::<u8>(false, None), Err("Error, channel is full."));
    assert_eq!(exchange_outcome::<u8>(false, Some(1)), Err("Error, channel is full."));
    assert_eq!(exchange_outcome::<u8>(true, None), Err("Couldn't get response"));
    assert_eq!(exchange_outcome(true, Some(7u8)), Ok(7));
}

#[test]
fn full_queue_is_reported() {
    let (client, _receiver) = connect(0);
    assert_eq!(client.insert(draft("a")), Err("Error, channel is full."));
    assert_eq!(client.get(TicketId(0)).map(|t| t.is_some()), Err("Error, channel is full."));
}

fn send_reply(reply: Reply) {
    match reply {
        Reply::Inserted { id, response_channel } => {
            let _ = response_channel.send(id);
        }
        Reply::Found { ticket, response_channel } => {
            let _ = response_channel.send(ticket);
        }
    }
}

#[test]
fn server_answers_insert_and_get() {
    let mut store = TicketStore::new();
    let (sender, receiver) = sync_channel(4);
    let (id_sender, id_receiver) = sync_channel(1);
    sender.send(Command::Insert { draft: draft("first"), response_channel: id_sender }).unwrap();
    send_reply(serve_next(&mut store, &receiver).unwrap());
    assert_eq!(id_receiver.recv().unwrap(), TicketId(0));

    let (ticket_sender, ticket_receiver) = sync_channel(1);
    sender.send(Command::Get { id: TicketId(0), response_channel: ticket_sender }).unwrap();
    send_reply(serve_next(&mut store, &receiver).unwrap());
    let ticket = ticket_receiver.recv().unwrap().unwrap();
    assert_eq!(ticket.title.as_str(), "first");

    let (ticket_sender, ticket_receiver) = sync_channel(1);
    sender.send(Command::Get { id: TicketId(3), response_channel: ticket_sender }).unwrap();
    send_reply(serve_next(&mut store, &receiver).unwrap());
    assert!(ticket_receiver.recv().unwrap().is_none());

    drop(sender);
    assert!(serve_next(&mut store, &receiver).is_none());
    assert_eq!(store.len(), 1);
}

#[test]
fn handled_command_returns_its_answer() {
    let mut store = TicketStore::new();
    let (id_sender, id_receiver) = sync_channel(1);
    match handle_command(&mut store, Command::Insert { draft: draft("x"), response_channel: id_sender }) {
        Reply::Inserted { id, response_channel } => {
            assert_eq!(id, TicketId(0));
            response_channel.send(id).unwrap();
            assert_eq!(id_receiver.recv().unwrap(), TicketId(0));
        },
        Reply::Found { .. } => panic!("an insertion answers an id"),
    }
    let (ticket_sender, _ticket_receiver) = sync_channel(1);
    match handle_command(&mut store, Command::Get { id: TicketId(0), response_channel: ticket_sender }) {
        Reply::Found { ticket: Some(ticket), .. } => assert_eq!(ticket.title.as_str(), "x"),
        _ => panic!("the ticket is there"),
    }
    let (ticket_sender, _ticket_receiver) = sync_channel(1);
    match handle_command(&mut store, Command::Get { id: TicketId(4), response_channel: ticket_sender }) {
        Reply::Found { ticket: None, .. } => {},
        _ => panic!("there is no such ticket"),
    }
    assert_eq!(store.len(), 1);
}

#[test]
fn received_commands_are_served_until_none() {
    let mut store = TicketStore::new();
    let (id_sender, id_receiver) = sync_channel(1);
    match serve_received(&mut store, Some(insert_command(draft("one"), id_sender))) {
        Some(Reply::Inserted { id, response_channel }) => {
            assert_eq!(id, TicketId(0));
            response_channel.send(id).unwrap();
            assert_eq!(id_receiver.recv().unwrap(), TicketId(0));
        }
        _ => panic!("an insertion is answered its id"),
    }
    let (ticket_sender, ticket_receiver) = sync_channel(1);
    match serve_received(&mut store, Some(get_command(TicketId(0), ticket_sender))) {
        Some(Reply::Found { ticket: Some(ticket), response_channel }) => {
            assert_eq!(ticket.title.as_str(), "one");
            response_channel.send(Some(ticket)).unwrap();
            assert!(ticket_receiver.recv().unwrap().is_some());
        }
        _ => panic!("the ticket is found"),
    }
    assert!(serve_received(&mut store, None).is_none());
    assert_eq!(store.len(), 1);
}

#[test]
fn commands_come_with_their_answer_channel() {
    let (command, receiver) = insert_with_answer_channel(draft("paired"));
    match command {
        Command::Insert { draft, response_channel } => {
            assert_eq!(draft.title.as_str(), "paired");
            response_channel.send(TicketId(5)).unwrap();
            assert_eq!(receiver.recv().unwrap(), TicketId(5));
        }
        Command::Get { .. } => panic!("an insertion was made"),
    }
    let (command, receiver) = get_with_answer_channel(TicketId(2));
    match command {
        Command::Get { id, response_channel } => {
            assert_eq!(id, TicketId(2));
            response_channel.send(None).unwrap();
            assert!(receiver.recv().unwrap().is_none());
        }
        Command::Insert { .. } => panic!("a lookup was made"),
    }
}

#[test]
fn commands_carry_what_they_were_made_of() {
    let (id_sender, _id_receiver) = sync_channel(1);
    match insert_command(draft("made"), id_sender) {
        Command::Insert { draft, .. } => assert_eq!(draft.title.as_str(), "made"),
        Command::Get { .. } => panic!("an insertion was made"),
    }
    let (ticket_sender, _ticket_receiver) = sync_channel(1);
    match get_command(TicketId(9), ticket_sender) {
        Command::Get { id, .. } => assert_eq!(id, TicketId(9)),
        Command::Insert { .. } => panic!("a lookup was made"),
    }
}

fn inserted_id(store: &mut TicketStore, title: &str) -> TicketId {
    let (id_sender, _id_receiver) = sync_channel(1);
    match handle_command(store, insert_command(draft(title), id_sender)) {
        Reply::Inserted { id, .. } => id,
        Reply::Found { .. } => panic!("an insertion answers an id"),
    }
}

fn found_title(store: &mut TicketStore, id: TicketId) -> Option<String> {
    let (ticket_sender, _ticket_receiver) = sync_channel(1);
    match handle_command(store, get_command(id, ticket_sender)) {
        Reply::Found { ticket, .. } => ticket.map(|t| t.title.as_str().to_string()),
        Reply::Inserted { .. } => panic!("a lookup answers a ticket"),
    }
}

#[test]
fn equal_drafts_get_distinct_ids() {
    let mut store = TicketStore::new();
    let first = inserted_id(&mut store, "same");
    assert_eq!(found_title(&mut store, first), Some("same".to_string()));
    let second = inserted_id(&mut store, "same");
    assert_ne!(first, second);
}

#[test]
fn repeated_lookups_agree_and_change_nothing() {
    let mut store = TicketStore::new();
    let id = inserted_id(&mut store, "kept");
    assert_eq!(found_title(&mut store, id), found_title(&mut store, id));
    assert_eq!(found_title(&mut store, TicketId(7)), None);
    assert_eq!(found_title(&mut store, TicketId(7)), None);
    assert_eq!(store.len(), 1);
}
