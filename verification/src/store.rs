use vstd::prelude::*;

use crate::data::{
    Status, Ticket, TicketDescription, TicketDraft, TicketId, TicketTitle, TicketView,
};

verus! {

/// The ticket that a draft becomes when the store gives it `id`.
pub open spec fn new_ticket_view(id: u64, draft: TicketDraft) -> TicketView {
    TicketView {
        id,
        title: draft.title@,
        description: draft.description@,
        status: Status::ToDo,
    }
}

/// A ticket with the given fields replaced, where they are given.
pub open spec fn patched_view(
    ticket: TicketView,
    title: Option<Seq<char>>,
    description: Option<Seq<char>>,
    status: Option<Status>,
) -> TicketView {
    TicketView {
        id: ticket.id,
        title: match title {
            Some(t) => t,
            None => ticket.title,
        },
        description: match description {
            Some(d) => d,
            None => ticket.description,
        },
        status: match status {
            Some(s) => s,
            None => ticket.status,
        },
    }
}

/// The view of an optional title.
pub open spec fn title_view(title: Option<TicketTitle>) -> Option<Seq<char>> {
    match title {
        Some(t) => Some(t@),
        None => None,
    }
}

/// The view of an optional description.
pub open spec fn description_view(description: Option<TicketDescription>) -> Option<Seq<char>> {
    match description {
        Some(d) => Some(d@),
        None => None,
    }
}

/// Tickets kept in memory. The ticket at position `i` has the id `i`: ids are
/// handed out in order, from zero.
#[derive(Debug)]
pub struct TicketStore {
    tickets: Vec<Ticket>,
}

impl TicketStore {
    #[verifier::type_invariant]
    closed spec fn ids_match_positions(self) -> bool {
        forall|i: int| 0 <= i < self.tickets@.len() ==> #[trigger] self.tickets@[i].id.0 == i
    }
}

impl View for TicketStore {
    type V = Seq<TicketView>;

    closed spec fn view(&self) -> Seq<TicketView> {
        self.tickets@.map_values(|t: Ticket| t@)
    }
}

impl TicketStore {
    /// An empty store.
    pub fn new() -> (store: TicketStore)
        ensures
            store@ == Seq::<TicketView>::empty(),
    {
        let store = TicketStore { tickets: Vec::new() };
        assert(store@ =~= Seq::<TicketView>::empty());
        store
    }

    /// The number of tickets held.
    pub fn len(&self) -> (n: usize)
        ensures
            n == self@.len(),
    {
        self.tickets.len()
    }

    /// The ticket at position `i` has the id `i`.
    pub fn ids_are_positions(&self)
        ensures
            forall|i: int| 0 <= i < self@.len() ==> #[trigger] self@[i].id == i,
    {
        proof {
            use_type_invariant(self);
        }
    }

    /// Stores a new ticket made of `draft`, with status `ToDo`, under the next
    /// free id, and returns that id.
    pub fn add_ticket(&mut self, draft: TicketDraft) -> (id: TicketId)
        ensures
            id.0 == old(self)@.len(),
            final(self)@ == old(self)@.push(new_ticket_view(id.0, draft)),
    {
        proof {
            use_type_invariant(&*self);
        }
        let id = TicketId(self.tickets.len() as u64);
        let ticket = Ticket {
            id,
            title: draft.title,
            description: draft.description,
            status: Status::ToDo,
        };
        let mut tickets = Vec::new();
        core::mem::swap(&mut tickets, &mut self.tickets);
        tickets.push(ticket);
        self.tickets = tickets;
        assert(self@ =~= old(self)@.push(new_ticket_view(id.0, draft)));
        id
    }

    /// The ticket with the given id, if there is one.
    pub fn get(&self, id: TicketId) -> (found: Option<&Ticket>)
        ensures
            found is Some <==> id.0 < self@.len(),
            found matches Some(t) ==> t@ == self@[id.0 as int],
    {
        if id.0 < self.tickets.len() as u64 {
            Some(&self.tickets[id.0 as usize])
        } else {
            None
        }
    }

    /// Replaces the given fields of the ticket with the given id. Returns
    /// whether there is such a ticket; the store is left as it is otherwise.
    pub fn update(
        &mut self,
        id: TicketId,
        title: Option<TicketTitle>,
        description: Option<TicketDescription>,
        status: Option<Status>,
    ) -> (found: bool)
        ensures
            found == (id.0 < old(self)@.len()),
            found ==> final(self)@ == old(self)@.update(
                id.0 as int,
                patched_view(
                    old(self)@[id.0 as int],
                    title_view(title),
                    description_view(description),
                    status,
                ),
            ),
            !found ==> final(self)@ == old(self)@,
    {
        proof {
            use_type_invariant(&*self);
        }
        if id.0 >= self.tickets.len() as u64 {
            return false;
        }
        let i = id.0 as usize;
        let current = &self.tickets[i];
        let patched = Ticket {
            id: current.id,
            title: match title {
                Some(t) => t,
                None => current.title.clone(),
            },
            description: match description {
                Some(d) => d,
                None => current.description.clone(),
            },
            status: match status {
                Some(s) => s,
                None => current.status,
            },
        };
        let mut tickets = Vec::new();
        core::mem::swap(&mut tickets, &mut self.tickets);
        tickets.set(i, patched);
        self.tickets = tickets;
        assert(self@ =~= old(self)@.update(
            id.0 as int,
            patched_view(old(self)@[id.0 as int], title_view(title), description_view(description), status),
        ));
        true
    }
}

/// After a ticket is added, the store holds it under the id it was given,
/// with the draft's title and description and the status `ToDo`; every
/// ticket that was there before keeps its id and fields.
pub proof fn add_keeps_and_appends(before: Seq<TicketView>, draft: TicketDraft)
    requires
        before.len() < u64::MAX,
    ensures
        ({
            let after = before.push(new_ticket_view(before.len() as u64, draft));
            &&& after.len() == before.len() + 1
            &&& after[before.len() as int].id == before.len()
            &&& after[before.len() as int].title == draft.title@
            &&& after[before.len() as int].description == draft.description@
            &&& after[before.len() as int].status == Status::ToDo
            &&& forall|i: int| 0 <= i < before.len() ==> #[trigger] after[i] == before[i]
        }),
{
}

/// An update changes the ticket it names and no other, keeps its id, and
/// leaves the fields it is not given as they were.
pub proof fn update_touches_one_ticket(
    before: Seq<TicketView>,
    id: int,
    title: Option<Seq<char>>,
    description: Option<Seq<char>>,
    status: Option<Status>,
)
    requires
        0 <= id < before.len(),
    ensures
        ({
            let after = before.update(id, patched_view(before[id], title, description, status));
            &&& after.len() == before.len()
            &&& after[id].id == before[id].id
            &&& title is None ==> after[id].title == before[id].title
            &&& description is None ==> after[id].description == before[id].description
            &&& status is None ==> after[id].status == before[id].status
            &&& forall|t: Seq<char>| title == Some(t) ==> after[id].title == t
            &&& forall|d: Seq<char>| description == Some(d) ==> after[id].description == d
            &&& forall|s: Status| status == Some(s) ==> after[id].status == s
            &&& forall|i: int| 0 <= i < before.len() && i != id ==> #[trigger] after[i] == before[i]
        }),
{
}

} // verus!
