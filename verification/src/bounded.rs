use std::sync::mpsc::{Receiver, SyncSender};
use vstd::prelude::*;

use crate::data::{Ticket, TicketDraft, TicketId, TicketView};
use crate::store::{new_ticket_view, TicketStore};

verus! {

/// `std::sync::mpsc::SyncSender`, the sending half of a bounded channel.
#[verifier::external_type_specification]
#[verifier::external_body]
#[verifier::reject_recursive_types(T)]
pub struct ExSyncSender<T>(SyncSender<T>);

/// `std::sync::mpsc::Receiver`, the receiving half of a channel.
#[verifier::external_type_specification]
#[verifier::external_body]
#[verifier::reject_recursive_types(T)]
pub struct ExReceiver<T>(Receiver<T>);

/// `SyncSender::clone`: another sender on the same channel. Nothing is
/// claimed of it.
pub assume_specification<T>[ <SyncSender<T> as Clone>::clone ](sender: &SyncSender<T>) -> SyncSender<
    T,
>;

/// The number of messages that the channel of a command sender was made to
/// hold: what was handed to `std::sync::mpsc::sync_channel`.
pub uninterp spec fn command_channel_bound(sender: SyncSender<Command>) -> nat;

/// Whether a command sender and a command receiver are the two halves of one
/// channel.
pub uninterp spec fn command_halves_paired(
    sender: SyncSender<Command>,
    receiver: Receiver<Command>,
) -> bool;

/// Whether a sender and a receiver of ticket ids are the two halves of one
/// channel.
pub uninterp spec fn id_halves_paired(sender: SyncSender<TicketId>, receiver: Receiver<TicketId>) -> bool;

/// Whether a sender and a receiver of looked-up tickets are the two halves of
/// one channel.
pub uninterp spec fn ticket_halves_paired(
    sender: SyncSender<Option<Ticket>>,
    receiver: Receiver<Option<Ticket>>,
) -> bool;

/// Calls `std::sync::mpsc::sync_channel` for a channel of commands. Its
/// documentation: the two halves returned belong to one new channel, which
/// holds at most `bound` messages. Both facts are stated over names.
#[verifier::external_body]
fn command_channel(bound: usize) -> (halves: (SyncSender<Command>, Receiver<Command>))
    ensures
        command_channel_bound(halves.0) == bound,
        command_halves_paired(halves.0, halves.1),
{
    std::sync::mpsc::sync_channel(bound)
}

/// Calls `std::sync::mpsc::sync_channel` for a channel of ticket ids: the two
/// halves returned belong to one new channel, stated over a name.
#[verifier::external_body]
fn id_channel(bound: usize) -> (halves: (SyncSender<TicketId>, Receiver<TicketId>))
    ensures
        id_halves_paired(halves.0, halves.1),
{
    std::sync::mpsc::sync_channel(bound)
}

/// Calls `std::sync::mpsc::sync_channel` for a channel of looked-up tickets:
/// the two halves returned belong to one new channel, stated over a name.
#[verifier::external_body]
fn ticket_channel(bound: usize) -> (halves: (SyncSender<Option<Ticket>>, Receiver<Option<Ticket>>))
    ensures
        ticket_halves_paired(halves.0, halves.1),
{
    std::sync::mpsc::sync_channel(bound)
}

/// Calls `SyncSender::try_send`: whether the message was queued. It is not
/// when the channel is full or its receiver is gone, which depends on other
/// threads; so nothing is claimed of the outcome.
#[verifier::external_body]
fn try_send<T>(sender: &SyncSender<T>, message: T) -> bool {
    sender.try_send(message).is_ok()
}

/// Calls `Receiver::recv`: blocks until a message arrives, or gives `None`
/// once every sender is gone. What arrives depends on other threads; nothing
/// is claimed of it.
#[verifier::external_body]
fn receive<T>(receiver: &Receiver<T>) -> Option<T> {
    receiver.recv().ok()
}

/// The message of the error given when the server's queue is full.
pub open spec fn channel_full_message() -> Seq<char> {
    "Error, channel is full."@
}

/// The message of the error given when no response came back.
pub open spec fn no_response_message() -> Seq<char> {
    "Couldn't get response"@
}

/// What a client asks of the store server, with the channel on which the
/// server answers.
#[allow(inconsistent_fields)]
pub enum Command {
    Insert { draft: TicketDraft, response_channel: SyncSender<TicketId> },
    Get { id: TicketId, response_channel: SyncSender<Option<Ticket>> },
}

/// What the server answers to a command, with the channel it answers on.
#[allow(inconsistent_fields)]
pub enum Reply {
    Inserted { id: TicketId, response_channel: SyncSender<TicketId> },
    Found { ticket: Option<Ticket>, response_channel: SyncSender<Option<Ticket>> },
}

/// The outcome of one round trip to the server: an error when the command
/// could not be queued, another when no response came back, and the response
/// otherwise.
pub fn exchange_outcome<T>(queued: bool, response: Option<T>) -> (r: Result<T, &'static str>)
    ensures
        !queued ==> (r matches Err(e) && e@ == channel_full_message()),
        queued && response is None ==> (r matches Err(e) && e@ == no_response_message()),
        queued && response is Some ==> r == Ok::<T, &'static str>(response->0),
{
    if !queued {
        Err("Error, channel is full.")
    } else {
        match response {
            Some(value) => Ok(value),
            None => Err("Couldn't get response"),
        }
    }
}

/// A handle on a running store server. Clones talk to the same server.
#[derive(Clone)]
pub struct TicketStoreClient {
    sender: SyncSender<Command>,
}

/// A new client and the receiving end that the server is to read, for a
/// queue of `capacity` commands.
pub fn connect(capacity: usize) -> (made: (TicketStoreClient, Receiver<Command>))
    ensures
        made.0.bound() == capacity,
        made.0.feeds(made.1),
{
    let (sender, receiver) = command_channel(capacity);
    (TicketStoreClient { sender }, receiver)
}

/// The command that asks to store a ticket made of `draft`, answered on
/// `response_channel`.
pub fn insert_command(draft: TicketDraft, response_channel: SyncSender<TicketId>) -> (command:
    Command)
    ensures
        command == (Command::Insert { draft, response_channel }),
{
    Command::Insert { draft, response_channel }
}

/// The command that asks for the ticket with id `id`, answered on
/// `response_channel`.
pub fn get_command(id: TicketId, response_channel: SyncSender<Option<Ticket>>) -> (command:
    Command)
    ensures
        command == (Command::Get { id, response_channel }),
{
    Command::Get { id, response_channel }
}

/// A command to store a ticket made of `draft`, with the receiving half of
/// the new channel on which its answer comes.
pub fn insert_with_answer_channel(draft: TicketDraft) -> (made: (Command, Receiver<TicketId>))
    ensures
        made.0 matches Command::Insert { draft: d, response_channel } && d == draft
            && id_halves_paired(response_channel, made.1),
{
    let (response_channel, response_receiver) = id_channel(1);
    (insert_command(draft, response_channel), response_receiver)
}

/// A command to look up the ticket with id `id`, with the receiving half of
/// the new channel on which its answer comes.
pub fn get_with_answer_channel(id: TicketId) -> (made: (Command, Receiver<Option<Ticket>>))
    ensures
        made.0 matches Command::Get { id: i, response_channel } && i == id && ticket_halves_paired(
            response_channel,
            made.1,
        ),
{
    let (response_channel, response_receiver) = ticket_channel(1);
    (get_command(id, response_channel), response_receiver)
}

impl TicketStoreClient {
    /// The number of commands that the client's queue to the server holds.
    pub closed spec fn bound(&self) -> nat {
        command_channel_bound(self.sender)
    }

    /// Whether the client's commands go to `receiver`.
    pub closed spec fn feeds(&self, receiver: Receiver<Command>) -> bool {
        command_halves_paired(self.sender, receiver)
    }

    /// Asks the server to store a new ticket; gives its id. The command queued
    /// and the receiver waited on are those of `insert_with_answer_channel`.
    pub fn insert(&self, draft: TicketDraft) -> (r: Result<TicketId, &'static str>)
        ensures
            r matches Err(e) ==> e@ == channel_full_message() || e@ == no_response_message(),
    {
        let (command, response_receiver) = insert_with_answer_channel(draft);
        self.exchange(command, response_receiver)
    }

    /// Asks the server for the ticket with the given id. The command queued
    /// and the receiver waited on are those of `get_with_answer_channel`.
    pub fn get(&self, id: TicketId) -> (r: Result<Option<Ticket>, &'static str>)
        ensures
            r matches Err(e) ==> e@ == channel_full_message() || e@ == no_response_message(),
    {
        let (command, response_receiver) = get_with_answer_channel(id);
        self.exchange(command, response_receiver)
    }

    /// Queues `command` without waiting, then, if it was queued, waits for the
    /// response; the result is `exchange_outcome` of the two.
    fn exchange<T>(&self, command: Command, response_receiver: Receiver<T>) -> (r: Result<
        T,
        &'static str,
    >)
        ensures
            r matches Err(e) ==> e@ == channel_full_message() || e@ == no_response_message(),
    {
        let queued = try_send(&self.sender, command);
        let response = if queued {
            receive(&response_receiver)
        } else {
            None
        };
        exchange_outcome(queued, response)
    }
}

/// The reply the server computes for a command: the new ticket's id for an
/// insertion, a copy of the ticket (if there is one) for a lookup, each on
/// the command's own response channel.
pub open spec fn reply_matches(before: Seq<TicketView>, command: Command, reply: Reply) -> bool {
    match command {
        Command::Insert { response_channel: channel, .. } => match reply {
            Reply::Inserted { id, response_channel } => id == TicketId(before.len() as u64)
                && response_channel == channel,
            _ => false,
        },
        Command::Get { id, response_channel: channel } => match reply {
            Reply::Found { ticket, response_channel } => response_channel == channel && match ticket {
                Some(t) => id.0 < before.len() && t@ == before[id.0 as int],
                None => id.0 >= before.len(),
            },
            _ => false,
        },
    }
}

/// The store after the server handled a command.
pub open spec fn store_after(before: Seq<TicketView>, command: Command) -> Seq<TicketView> {
    match command {
        Command::Insert { draft, .. } => before.push(new_ticket_view(before.len() as u64, draft)),
        Command::Get { .. } => before,
    }
}

/// Handles one command: an insertion stores a new ticket and answers its id;
/// a lookup answers a copy of the ticket, if there is one. The answer keeps
/// the command's response channel; it is not sent here.
pub fn handle_command(store: &mut TicketStore, command: Command) -> (reply: Reply)
    ensures
        final(store)@ == store_after(old(store)@, command),
        reply_matches(old(store)@, command, reply),
{
    match command {
        Command::Insert { draft, response_channel } => {
            let id = store.add_ticket(draft);
            Reply::Inserted { id, response_channel }
        },
        Command::Get { id, response_channel } => {
            let ticket = match store.get(id) {
                Some(ticket) => Some(ticket.clone()),
                None => None,
            };
            Reply::Found { ticket, response_channel }
        },
    }
}

/// One step of the server for what the command channel gave: a command is
/// handled as `handle_command` does, and the reply to send on the command's
/// own response channel is returned; `None` (every client is gone) stops the
/// server and leaves the store as it is.
pub fn serve_received(store: &mut TicketStore, received: Option<Command>) -> (reply: Option<Reply>)
    ensures
        reply is Some == received is Some,
        received is None ==> final(store)@ == old(store)@,
        received matches Some(command) ==> final(store)@ == store_after(old(store)@, command),
        received matches Some(command) ==> (reply matches Some(r) && reply_matches(
            old(store)@,
            command,
            r,
        )),
{
    match received {
        Some(command) => Some(handle_command(store, command)),
        None => None,
    }
}

/// Waits for the next command and serves it as `serve_received` does,
/// returning the reply to send. Returns `None`, leaving the store as it is,
/// once every client is gone.
pub fn serve_next(store: &mut TicketStore, receiver: &Receiver<Command>) -> (reply: Option<Reply>)
    ensures
        reply is None ==> final(store)@ == old(store)@,
        reply matches Some(r) ==> exists|command: Command|
            final(store)@ == #[trigger] store_after(old(store)@, command) && reply_matches(
                old(store)@,
                command,
                r,
            ),
{
    let received = receive(receiver);
    let ghost arrived = received;
    let reply = serve_received(store, received);
    proof {
        if reply is Some {
            assert(store@ == store_after(old(store)@, arrived->0));
        }
    }
    reply
}

/// A lookup of the id that an insertion answered finds the inserted ticket,
/// and a lookup changes nothing.
pub proof fn get_finds_inserted(
    before: Seq<TicketView>,
    insert: Command,
    get: Command,
    reply: Reply,
)
    requires
        before.len() < u64::MAX,
        insert is Insert,
        get matches Command::Get { id, .. } && id.0 == before.len(),
        reply_matches(store_after(before, insert), get, reply),
    ensures
        store_after(store_after(before, insert), get) == store_after(before, insert),
        reply matches Reply::Found { ticket: Some(t), .. } && t@ == new_ticket_view(
            before.len() as u64,
            insert->draft,
        ),
{
}

/// A lookup is answered with the ticket that carries the id asked for, on
/// the lookup's own channel, and with `None` exactly when the store holds no
/// ticket with that id; an insertion is answered the id under which the new
/// ticket now stands, made of the draft.
pub proof fn replies_answer_their_command(before: Seq<TicketView>, command: Command, reply: Reply)
    requires
        before.len() < u64::MAX,
        forall|i: int| 0 <= i < before.len() ==> (#[trigger] before[i]).id == i,
        reply_matches(before, command, reply),
    ensures
        command matches Command::Get { id, response_channel } ==> (reply matches Reply::Found {
            ticket,
            response_channel: channel,
        } && channel == response_channel && (ticket is None <==> id.0 >= before.len()) && (
        ticket matches Some(t) ==> t@.id == id.0 && t@ == before[id.0 as int])),
        command matches Command::Insert { draft, response_channel } ==> (reply matches Reply::Inserted {
            id,
            response_channel: channel,
        } && channel == response_channel && store_after(before, command).len() == before.len() + 1
            && store_after(before, command)[id.0 as int] == new_ticket_view(id.0, draft)),
{
}

/// The store after the server handled the commands one after the other.
pub open spec fn serve_commands(before: Seq<TicketView>, commands: Seq<Command>) -> Seq<TicketView>
    decreases commands.len(),
{
    if commands.len() == 0 {
        before
    } else {
        store_after(serve_commands(before, commands.drop_last()), commands.last())
    }
}

/// The ticket that a reply shows, if it is the answer to a lookup that found
/// one.
pub open spec fn found_view(reply: Reply) -> Option<TicketView> {
    match reply {
        Reply::Found { ticket: Some(t), .. } => Some(t@),
        _ => None,
    }
}

proof fn lemma_serve_step(before: Seq<TicketView>, commands: Seq<Command>, k: int)
    requires
        0 <= k < commands.len(),
    ensures
        serve_commands(before, commands.take(k + 1)) == store_after(
            serve_commands(before, commands.take(k)),
            commands[k],
        ),
        serve_commands(before, commands.take(k + 1)).len() == serve_commands(
            before,
            commands.take(k),
        ).len() + (if commands[k] is Insert {
            1int
        } else {
            0int
        }),
{
    assert(commands.take(k + 1).drop_last() =~= commands.take(k));
    assert(commands.take(k + 1).last() == commands[k]);
}

proof fn lemma_serve_growth(before: Seq<TicketView>, commands: Seq<Command>, k: int, m: int)
    requires
        0 <= k <= m <= commands.len(),
    ensures
        serve_commands(before, commands.take(k)).len() + (if k < m && commands[k] is Insert {
            1int
        } else {
            0int
        }) <= serve_commands(before, commands.take(m)).len(),
        serve_commands(before, commands.take(m)).len() <= serve_commands(
            before,
            commands.take(k),
        ).len() + (m - k),
    decreases m - k,
{
    if k < m {
        lemma_serve_growth(before, commands, k, m - 1);
        lemma_serve_step(before, commands, m - 1);
        if k == m - 1 {
            lemma_serve_step(before, commands, k);
        }
    }
}

/// Two insertions handled by one server, with any commands before, between
/// and after them, are answered different ids.
pub proof fn inserts_get_distinct_ids(
    before: Seq<TicketView>,
    commands: Seq<Command>,
    i: int,
    j: int,
    first: Reply,
    second: Reply,
)
    requires
        0 <= i < j < commands.len(),
        before.len() + commands.len() <= u64::MAX,
        commands[i] is Insert,
        commands[j] is Insert,
        reply_matches(serve_commands(before, commands.take(i)), commands[i], first),
        reply_matches(serve_commands(before, commands.take(j)), commands[j], second),
    ensures
        first matches Reply::Inserted { id: a, .. } && second matches Reply::Inserted {
            id: b,
            ..
        } && a != b,
{
    lemma_serve_growth(before, commands, i, j);
    lemma_serve_growth(before, commands, 0, j);
    assert(commands.take(0) =~= Seq::<Command>::empty());
}

/// A lookup leaves the store as it is, and a second lookup of the same id
/// right after it answers the same.
pub proof fn lookups_change_nothing(
    before: Seq<TicketView>,
    first: Command,
    second: Command,
    first_reply: Reply,
    second_reply: Reply,
)
    requires
        first is Get,
        second is Get,
        first->id == second->id,
        reply_matches(before, first, first_reply),
        reply_matches(store_after(before, first), second, second_reply),
    ensures
        store_after(before, first) == before,
        store_after(store_after(before, first), second) == before,
        first_reply is Found,
        second_reply is Found,
        found_view(first_reply) == found_view(second_reply),
{
}

} // verus!
