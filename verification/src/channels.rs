use vstd::prelude::*;

use crate::data::TicketDraft;
use crate::store::{new_ticket_view, TicketStore};

verus! {

/// What a client asks of the store server.
pub enum Command {
    Insert(TicketDraft),
}

/// What the server does with one command it received: an insertion stores
/// a new ticket made of the draft.
pub fn apply_command(store: &mut TicketStore, command: Command)
    ensures
        match command {
            Command::Insert(draft) => final(store)@ == old(store)@.push(
                new_ticket_view(old(store)@.len() as u64, draft),
            ),
        },
{
    match command {
        Command::Insert(draft) => {
            store.add_ticket(draft);
        },
    }
}

} // verus!
