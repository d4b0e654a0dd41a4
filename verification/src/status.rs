use vstd::prelude::*;
use vstd::utf8::is_ascii_chars;

use crate::text::{ascii_lowercase, lowercase_of, same_text, to_lowercase};

verus! {

/// The state a ticket is in.
#[derive(Debug, Clone, Copy, PartialEq, Eq, Structural)]
pub enum Status {
    ToDo,
    InProgress,
    Done,
}

/// Why a text could not be read as a `Status`.
#[derive(Debug, Clone, Copy, PartialEq, Eq, Structural)]
pub enum StatusCreationError {
    Invalid,
}

/// The status that an already lowercased text names, if any: `todo`,
/// `inprogress` or `done`.
pub open spec fn status_from_lowercase(lowered: Seq<char>) -> Result<Status, StatusCreationError> {
    if lowered == "todo"@ {
        Ok(Status::ToDo)
    } else if lowered == "inprogress"@ {
        Ok(Status::InProgress)
    } else if lowered == "done"@ {
        Ok(Status::Done)
    } else {
        Err(StatusCreationError::Invalid)
    }
}

/// The status that a text names, ignoring case.
pub open spec fn parse_status(text: Seq<char>) -> Result<Status, StatusCreationError> {
    status_from_lowercase(lowercase_of(text))
}

/// The lowercase name of a status.
pub open spec fn status_keyword(status: Status) -> Seq<char> {
    match status {
        Status::ToDo => "todo"@,
        Status::InProgress => "inprogress"@,
        Status::Done => "done"@,
    }
}

impl StatusCreationError {
    /// The message that describes the error.
    pub fn to_string(&self) -> (message: String)
        ensures
            message@ == "Status is invalid."@,
    {
        String::from_str("Status is invalid.")
    }
}

impl Status {
    /// Reads a status from a text that is already in lowercase.
    pub fn from_lowercase(lowered: &str) -> (r: Result<Status, StatusCreationError>)
        ensures
            r == status_from_lowercase(lowered@),
    {
        if same_text(lowered, "todo") {
            Ok(Status::ToDo)
        } else if same_text(lowered, "inprogress") {
            Ok(Status::InProgress)
        } else if same_text(lowered, "done") {
            Ok(Status::Done)
        } else {
            Err(StatusCreationError::Invalid)
        }
    }

    /// Reads a status from a text, ignoring case: `todo`, `inprogress` or
    /// `done` in any mix of upper and lower case.
    pub fn new(value: &str) -> (r: Result<Status, StatusCreationError>)
        ensures
            r == parse_status(value@),
            is_ascii_chars(value@) ==> r == status_from_lowercase(ascii_lowercase(value@)),
    {
        let lowered = to_lowercase(value);
        Status::from_lowercase(lowered.as_str())
    }
}

impl<'a> TryFrom<&'a str> for Status {
    type Error = StatusCreationError;

    fn try_from(value: &'a str) -> (r: Result<Status, StatusCreationError>)
        ensures
            r == parse_status(value@),
            is_ascii_chars(value@) ==> r == status_from_lowercase(ascii_lowercase(value@)),
    {
        Status::new(value)
    }
}

impl<'a> vstd::std_specs::convert::TryFromSpecImpl<&'a str> for Status {
    open spec fn obeys_try_from_spec() -> bool {
        true
    }

    open spec fn try_from_spec(value: &'a str) -> Result<Status, StatusCreationError> {
        parse_status(value@)
    }
}

impl TryFrom<String> for Status {
    type Error = StatusCreationError;

    fn try_from(value: String) -> (r: Result<Status, StatusCreationError>)
        ensures
            r == parse_status(value@),
            is_ascii_chars(value@) ==> r == status_from_lowercase(ascii_lowercase(value@)),
    {
        Status::new(value.as_str())
    }
}

impl vstd::std_specs::convert::TryFromSpecImpl<String> for Status {
    open spec fn obeys_try_from_spec() -> bool {
        true
    }

    open spec fn try_from_spec(value: String) -> Result<Status, StatusCreationError> {
        parse_status(value@)
    }
}

/// Each status is read back from its lowercase name, and that name is made
/// of ASCII characters that lowering the case leaves as they are; so
/// `Status::new` of the name, in any case, gives the status back.
pub proof fn keyword_round_trip(status: Status)
    ensures
        status_from_lowercase(status_keyword(status)) == Ok::<Status, StatusCreationError>(status),
        is_ascii_chars(status_keyword(status)),
        ascii_lowercase(status_keyword(status)) == status_keyword(status),
{
    reveal_strlit("todo");
    reveal_strlit("inprogress");
    reveal_strlit("done");
    assert("done"@[0] != "todo"@[0]);
    assert("inprogress"@.len() != "todo"@.len());
    assert("inprogress"@.len() != "done"@.len());
    assert(ascii_lowercase(status_keyword(status)) =~= status_keyword(status));
}

/// A lowercase text is accepted only when it is the name of the status that
/// comes out.
pub proof fn accepted_text_is_keyword(lowered: Seq<char>)
    ensures
        status_from_lowercase(lowered) matches Ok(status) ==> lowered == status_keyword(status),
        status_from_lowercase(lowered) is Err <==> (forall|status: Status|
            lowered != #[trigger] status_keyword(status)),
{
    if status_from_lowercase(lowered) is Err {
        assert forall|status: Status| lowered != #[trigger] status_keyword(status) by {
            match status {
                Status::ToDo => {},
                Status::InProgress => {},
                Status::Done => {},
            }
        }
    } else {
        let st = status_from_lowercase(lowered)->Ok_0;
        assert(lowered == status_keyword(st));
    }
}

/// For ASCII text the case of letters does not matter: two texts that agree
/// once lowered give the same result.
pub proof fn parse_ignores_ascii_case(a: Seq<char>, b: Seq<char>)
    requires
        is_ascii_chars(a),
        is_ascii_chars(b),
        ascii_lowercase(a) == ascii_lowercase(b),
    ensures
        status_from_lowercase(ascii_lowercase(a)) == status_from_lowercase(ascii_lowercase(b)),
{
}

} // verus!
