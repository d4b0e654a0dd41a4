use vstd::prelude::*;
use vstd::utf8::{encode_utf8, is_ascii_chars};

use crate::status;
use crate::text::ascii_lowercase;

verus! {

/// The identifier the store gives a ticket.
#[derive(Debug, Clone, Copy, PartialEq, Eq, Structural)]
pub struct TicketId(pub u64);

/// The state a ticket is in.
#[derive(Debug, Clone, Copy, PartialEq, Eq, Structural)]
pub enum Status {
    ToDo,
    InProgress,
    Done,
}

/// The ticket status that matches a status read from text.
pub open spec fn ticket_status_of(status: status::Status) -> Status {
    match status {
        status::Status::ToDo => Status::ToDo,
        status::Status::InProgress => Status::InProgress,
        status::Status::Done => Status::Done,
    }
}

/// The status that a text names, ignoring case; `Err(())` when it names none.
pub open spec fn parse_ticket_status(text: Seq<char>) -> Result<Status, ()> {
    match status::parse_status(text) {
        Ok(s) => Ok(ticket_status_of(s)),
        Err(_) => Err(()),
    }
}

/// The name under which a status is shown: its variant's name.
pub open spec fn status_label(status: Status) -> Seq<char> {
    match status {
        Status::ToDo => "ToDo"@,
        Status::InProgress => "InProgress"@,
        Status::Done => "Done"@,
    }
}

impl Status {
    /// The name under which the status is shown.
    pub fn label(&self) -> (name: &'static str)
        ensures
            name@ == status_label(*self),
    {
        match self {
            Status::ToDo => "ToDo",
            Status::InProgress => "InProgress",
            Status::Done => "Done",
        }
    }
}

impl<'a> From<&'a Status> for String {
    /// The name under which the status is shown, as a `String`.
    fn from(status: &'a Status) -> (text: String)
        ensures
            text@ == status_label(*status),
    {
        String::from_str(status.label())
    }
}

impl<'a> vstd::std_specs::convert::FromSpecImpl<&'a Status> for String {
    open spec fn obeys_from_spec() -> bool {
        false
    }

    open spec fn from_spec(status: &'a Status) -> String {
        arbitrary()
    }
}

impl<'a> TryFrom<&'a str> for Status {
    type Error = ();

    /// Reads a status, ignoring case: `todo`, `inprogress` or `done`.
    fn try_from(value: &'a str) -> (r: Result<Status, ()>)
        ensures
            r == parse_ticket_status(value@),
            is_ascii_chars(value@) ==> r == match status::status_from_lowercase(
                ascii_lowercase(value@),
            ) {
                Ok(s) => Ok(ticket_status_of(s)),
                Err(_) => Err(()),
            },
    {
        match status::Status::new(value) {
            Ok(status::Status::ToDo) => Ok(Status::ToDo),
            Ok(status::Status::InProgress) => Ok(Status::InProgress),
            Ok(status::Status::Done) => Ok(Status::Done),
            Err(_) => Err(()),
        }
    }
}

impl<'a> vstd::std_specs::convert::TryFromSpecImpl<&'a str> for Status {
    open spec fn obeys_try_from_spec() -> bool {
        true
    }

    open spec fn try_from_spec(value: &'a str) -> Result<Status, ()> {
        parse_ticket_status(value@)
    }
}

/// The longest title, in bytes of UTF-8.
pub const TITLE_MAX_BYTES: usize = 50;

/// The longest description, in bytes of UTF-8.
pub const DESCRIPTION_MAX_BYTES: usize = 500;

/// A title is not empty and takes at most `TITLE_MAX_BYTES` bytes.
pub open spec fn title_is_valid(text: Seq<char>) -> bool {
    text.len() > 0 && encode_utf8(text).len() <= TITLE_MAX_BYTES
}

/// A description is not empty and takes at most `DESCRIPTION_MAX_BYTES` bytes.
pub open spec fn description_is_valid(text: Seq<char>) -> bool {
    text.len() > 0 && encode_utf8(text).len() <= DESCRIPTION_MAX_BYTES
}

/// Why a text is no ticket title.
#[derive(Debug, Clone, Copy, PartialEq, Eq, Structural)]
pub enum TicketTitleError {
    Empty,
    TooLong,
}

/// Why a text is no ticket description.
#[derive(Debug, Clone, Copy, PartialEq, Eq, Structural)]
pub enum TicketDescriptionError {
    Empty,
    TooLong,
}

/// The outcome of reading a title from a text.
pub open spec fn title_check(text: Seq<char>) -> Result<(), TicketTitleError> {
    if text.len() == 0 {
        Err(TicketTitleError::Empty)
    } else if encode_utf8(text).len() > TITLE_MAX_BYTES {
        Err(TicketTitleError::TooLong)
    } else {
        Ok(())
    }
}

/// The outcome of reading a description from a text.
pub open spec fn description_check(text: Seq<char>) -> Result<(), TicketDescriptionError> {
    if text.len() == 0 {
        Err(TicketDescriptionError::Empty)
    } else if encode_utf8(text).len() > DESCRIPTION_MAX_BYTES {
        Err(TicketDescriptionError::TooLong)
    } else {
        Ok(())
    }
}

/// A validated ticket title.
#[derive(Debug, PartialEq, Eq)]
pub struct TicketTitle(String);

impl TicketTitle {
    #[verifier::type_invariant]
    closed spec fn valid(self) -> bool {
        title_is_valid(self.0@)
    }
}

impl View for TicketTitle {
    type V = Seq<char>;

    closed spec fn view(&self) -> Seq<char> {
        self.0@
    }
}

impl TicketTitle {
    /// Makes a title of `value`, refused when it is empty or too long.
    pub fn parse(value: &str) -> (r: Result<TicketTitle, TicketTitleError>)
        ensures
            r is Ok <==> title_check(value@) is Ok,
            r matches Err(e) ==> title_check(value@) == Err::<(), TicketTitleError>(e),
            r matches Ok(title) ==> title@ == value@,
    {
        if value.is_empty() {
            Err(TicketTitleError::Empty)
        } else if value.as_bytes().len() > TITLE_MAX_BYTES {
            Err(TicketTitleError::TooLong)
        } else {
            Ok(TicketTitle(String::from_str(value)))
        }
    }

    /// The title's text.
    pub fn as_str(&self) -> (text: &str)
        ensures
            text@ == self@,
            title_is_valid(text@),
    {
        proof {
            use_type_invariant(self);
        }
        self.0.as_str()
    }

}

impl Clone for TicketTitle {
    fn clone(&self) -> (copy: TicketTitle)
        ensures
            copy == *self,
    {
        proof {
            use_type_invariant(self);
        }
        TicketTitle(self.0.clone())
    }
}

/// A validated ticket description.
#[derive(Debug, PartialEq, Eq)]
pub struct TicketDescription(String);

impl TicketDescription {
    #[verifier::type_invariant]
    closed spec fn valid(self) -> bool {
        description_is_valid(self.0@)
    }
}

impl View for TicketDescription {
    type V = Seq<char>;

    closed spec fn view(&self) -> Seq<char> {
        self.0@
    }
}

impl TicketDescription {
    /// Makes a description of `value`, refused when it is empty or too long.
    pub fn parse(value: &str) -> (r: Result<TicketDescription, TicketDescriptionError>)
        ensures
            r is Ok <==> description_check(value@) is Ok,
            r matches Err(e) ==> description_check(value@) == Err::<(), TicketDescriptionError>(e),
            r matches Ok(description) ==> description@ == value@,
    {
        if value.is_empty() {
            Err(TicketDescriptionError::Empty)
        } else if value.as_bytes().len() > DESCRIPTION_MAX_BYTES {
            Err(TicketDescriptionError::TooLong)
        } else {
            Ok(TicketDescription(String::from_str(value)))
        }
    }

    /// The description's text.
    pub fn as_str(&self) -> (text: &str)
        ensures
            text@ == self@,
            description_is_valid(text@),
    {
        proof {
            use_type_invariant(self);
        }
        self.0.as_str()
    }

}

impl Clone for TicketDescription {
    fn clone(&self) -> (copy: TicketDescription)
        ensures
            copy == *self,
    {
        proof {
            use_type_invariant(self);
        }
        TicketDescription(self.0.clone())
    }
}

/// What a ticket holds, as plain values.
pub struct TicketView {
    pub id: u64,
    pub title: Seq<char>,
    pub description: Seq<char>,
    pub status: Status,
}

/// A ticket held by the store.
#[derive(Debug, PartialEq)]
pub struct Ticket {
    pub id: TicketId,
    pub title: TicketTitle,
    pub description: TicketDescription,
    pub status: Status,
}

impl View for Ticket {
    type V = TicketView;

    open spec fn view(&self) -> TicketView {
        TicketView {
            id: self.id.0,
            title: self.title@,
            description: self.description@,
            status: self.status,
        }
    }
}

impl Clone for Ticket {
    fn clone(&self) -> (copy: Ticket)
        ensures
            copy == *self,
    {
        Ticket {
            id: self.id,
            title: self.title.clone(),
            description: self.description.clone(),
            status: self.status,
        }
    }
}

/// What a new ticket is made of.
#[derive(Debug, PartialEq, Eq)]
pub struct TicketDraft {
    pub title: TicketTitle,
    pub description: TicketDescription,
}

impl Clone for TicketDraft {
    fn clone(&self) -> (copy: TicketDraft)
        ensures
            copy == *self,
    {
        TicketDraft { title: self.title.clone(), description: self.description.clone() }
    }
}

/// The label under which a status is shown reads back as that status: it is
/// ASCII, and lowered it is the status's name; so `Status::try_from` of the
/// label gives the status back.
pub proof fn label_reads_back(status: Status)
    ensures
        is_ascii_chars(status_label(status)),
        status::status_from_lowercase(ascii_lowercase(status_label(status))) matches Ok(s)
            && ticket_status_of(s) == status,
{
    reveal_strlit("ToDo");
    reveal_strlit("InProgress");
    reveal_strlit("Done");
    reveal_strlit("todo");
    reveal_strlit("inprogress");
    reveal_strlit("done");
    assert("done"@[0] != "todo"@[0]);
    match status {
        Status::ToDo => {
            assert(ascii_lowercase("ToDo"@) =~= "todo"@);
        },
        Status::InProgress => {
            assert(ascii_lowercase("InProgress"@) =~= "inprogress"@);
        },
        Status::Done => {
            assert(ascii_lowercase("Done"@) =~= "done"@);
        },
    }
}

} // verus!
