use vstd::prelude::*;

use crate::data::{
    parse_ticket_status, status_label, description_check, title_check, Status, Ticket,
    TicketDescription, TicketDescriptionError, TicketDraft, TicketId, TicketTitle,
    TicketTitleError, TicketView,
};
use crate::json_codec::{
    escaped_char, escaped_text, hex_digit, json_member_text, json_members_text, json_object_written,
    json_scalar_text, json_string_member, json_string_text, json_u64_member, keys_distinct,
    object_text, string_member, u64_member, written_member, JsonScalar, JsonScalarView,
};
use crate::store::{patched_view, TicketStore};
use crate::text::{decimal, decimal_text, digit_char, same_text};

verus! {

// ---------------------------------------------------------------------------
// Reading a request: a command on the first line, JSON data on the second.
// ---------------------------------------------------------------------------

/// `i` is where the first line of `text` ends: at its first line break, or at
/// its end when it has none.
pub open spec fn is_line_end(text: Seq<char>, i: int) -> bool {
    &&& 0 <= i <= text.len()
    &&& (i == text.len() || text[i] == '\n')
    &&& forall|j: int| 0 <= j < i ==> text[j] != '\n'
}

/// Where the first line of `text` ends.
pub open spec fn line_end(text: Seq<char>) -> int {
    choose|i: int| is_line_end(text, i)
}

/// The first line of a request: its command.
pub open spec fn request_command(request: Seq<char>) -> Seq<char> {
    request.take(line_end(request))
}

/// A request has data when its command is followed by a line break.
pub open spec fn request_has_data(request: Seq<char>) -> bool {
    line_end(request) < request.len()
}

/// The second line of a request: its JSON data.
pub open spec fn request_data(request: Seq<char>) -> Seq<char> {
    let rest = request.skip(line_end(request) + 1);
    rest.take(line_end(rest))
}

proof fn lemma_line_end_unique(text: Seq<char>, i: int)
    requires
        is_line_end(text, i),
    ensures
        line_end(text) == i,
{
    let k = line_end(text);
    assert(is_line_end(text, k));
    if k < i {
        assert(text[k] != '\n');
    } else if i < k {
        assert(text[i] != '\n');
    }
}

fn find_line_end(text: &str) -> (end: usize)
    ensures
        end as int == line_end(text@),
        is_line_end(text@, end as int),
{
    let n = text.unicode_len();
    let mut i: usize = 0;
    while i < n
        invariant
            n == text@.len(),
            i <= n,
            forall|j: int| 0 <= j < i ==> text@[j] != '\n',
        decreases n - i,
    {
        if text.get_char(i) == '\n' {
            proof {
                lemma_line_end_unique(text@, i as int);
            }
            return i;
        }
        i = i + 1;
    }
    proof {
        lemma_line_end_unique(text@, n as int);
    }
    n
}

/// The command and the data of a request; `None` when it has no data.
pub fn split_request(request: &str) -> (parts: Option<(&str, &str)>)
    ensures
        parts is None <==> !request_has_data(request@),
        parts matches Some((command, data)) ==> command@ == request_command(request@) && data@
            == request_data(request@),
{
    let n = request.unicode_len();
    let first = find_line_end(request);
    if first == n {
        return None;
    }
    let command = request.substring_char(0, first);
    let rest = request.substring_char(first + 1, n);
    let second = find_line_end(rest);
    let data = rest.substring_char(0, second);
    assert(command@ =~= request_command(request@));
    assert(rest@ =~= request@.skip(line_end(request@) + 1));
    assert(data@ =~= request_data(request@));
    Some((command, data))
}

// ---------------------------------------------------------------------------
// Responses.
// ---------------------------------------------------------------------------

/// Why a request was not served. The server gives up on such a request.
#[derive(Debug, Clone, Copy, PartialEq, Eq, Structural)]
pub enum RequestError {
    /// The request has no second line.
    MissingData,
    /// The data is no JSON.
    InvalidJson,
    /// A member that the command needs is missing or has the wrong type.
    MissingField,
    InvalidTitle(TicketTitleError),
    InvalidDescription(TicketDescriptionError),
    InvalidStatus,
}

/// The members under which a ticket is answered.
pub open spec fn ticket_members(ticket: TicketView) -> Seq<(Seq<char>, JsonScalarView)> {
    seq![
        ("id"@, JsonScalarView::Number(ticket.id)),
        ("title"@, JsonScalarView::Text(ticket.title)),
        ("description"@, JsonScalarView::Text(ticket.description)),
        ("status"@, JsonScalarView::Text(status_label(ticket.status))),
    ]
}

/// The answer that shows a ticket.
pub open spec fn ticket_text(ticket: TicketView) -> Seq<char> {
    json_object_written(ticket_members(ticket))
}

/// The answer to a ticket's creation: its id.
pub open spec fn id_text(id: u64) -> Seq<char> {
    json_object_written(seq![("id"@, JsonScalarView::Number(id))])
}

/// The answer when no ticket has the id asked for.
pub open spec fn no_ticket_text(id: u64) -> Seq<char> {
    "No ticket with id "@ + decimal_text(id as nat)
}

/// The answer to a command the server does not know.
pub open spec fn unrecognized_text(command: Seq<char>) -> Seq<char> {
    "Unrecognized command: "@ + command
}

/// The store after a request and the answer to it.
pub type Outcome = (Seq<TicketView>, Result<Seq<char>, RequestError>);

/// A member that a command needs: its text, or why it cannot be had.
pub open spec fn required_member(member: Option<Option<Seq<char>>>) -> Result<
    Seq<char>,
    RequestError,
> {
    match member {
        None => Err(RequestError::InvalidJson),
        Some(None) => Err(RequestError::MissingField),
        Some(Some(text)) => Ok(text),
    }
}

/// Creating a ticket from the title and description members read from a
/// request (each `None` when the data is no JSON, `Some(None)` when the member
/// is missing or no string): the title is checked first, then the
/// description; the new ticket gets the next id and the status `ToDo`.
pub open spec fn create_outcome(
    store: Seq<TicketView>,
    title_member: Option<Option<Seq<char>>>,
    description_member: Option<Option<Seq<char>>>,
) -> (Seq<TicketView>, Result<u64, RequestError>) {
    match required_member(title_member) {
        Err(e) => (store, Err(e)),
        Ok(title) => match title_check(title) {
            Err(e) => (store, Err(RequestError::InvalidTitle(e))),
            Ok(_) => match required_member(description_member) {
                Err(e) => (store, Err(e)),
                Ok(description) => match description_check(description) {
                    Err(e) => (store, Err(RequestError::InvalidDescription(e))),
                    Ok(_) => {
                        let id = store.len() as u64;
                        (
                            store.push(
                                TicketView { id, title, description, status: Status::ToDo },
                            ),
                            Ok(id),
                        )
                    },
                },
            },
        },
    }
}

/// `POST`: stores a new ticket made of the data's title and description, and
/// answers its id.
pub open spec fn post_outcome(store: Seq<TicketView>, data: Seq<char>) -> Outcome {
    let (after, created) = create_outcome(
        store,
        json_string_member(data, "title"@),
        json_string_member(data, "description"@),
    );
    match created {
        Ok(id) => (after, Ok(id_text(id))),
        Err(e) => (after, Err(e)),
    }
}

/// A numeric member that a command needs: its value, or why it cannot be had.
pub open spec fn required_id(member: Option<Option<u64>>) -> Result<u64, RequestError> {
    match member {
        None => Err(RequestError::InvalidJson),
        Some(None) => Err(RequestError::MissingField),
        Some(Some(id)) => Ok(id),
    }
}

/// The answer to a lookup of `id`.
pub open spec fn lookup_text(store: Seq<TicketView>, id: u64) -> Seq<char> {
    if id < store.len() {
        ticket_text(store[id as int])
    } else {
        no_ticket_text(id)
    }
}

/// `GET`: answers the ticket with the data's id.
pub open spec fn get_outcome(store: Seq<TicketView>, data: Seq<char>) -> Outcome {
    match required_id(json_u64_member(data, "id"@)) {
        Err(e) => (store, Err(e)),
        Ok(id) => (store, Ok(lookup_text(store, id))),
    }
}

/// The new description asked for by the member read from a request, if any.
pub open spec fn patch_description(member: Option<Option<Seq<char>>>) -> Result<
    Option<Seq<char>>,
    RequestError,
> {
    match member {
        None => Err(RequestError::InvalidJson),
        Some(None) => Ok(None),
        Some(Some(d)) => match description_check(d) {
            Err(e) => Err(RequestError::InvalidDescription(e)),
            Ok(_) => Ok(Some(d)),
        },
    }
}

/// The new title asked for by the member read from a request, if any.
pub open spec fn patch_title(member: Option<Option<Seq<char>>>) -> Result<
    Option<Seq<char>>,
    RequestError,
> {
    match member {
        None => Err(RequestError::InvalidJson),
        Some(None) => Ok(None),
        Some(Some(t)) => match title_check(t) {
            Err(e) => Err(RequestError::InvalidTitle(e)),
            Ok(_) => Ok(Some(t)),
        },
    }
}

/// The new status asked for by the member read from a request, if any.
pub open spec fn patch_status(member: Option<Option<Seq<char>>>) -> Result<
    Option<Status>,
    RequestError,
> {
    match member {
        None => Err(RequestError::InvalidJson),
        Some(None) => Ok(None),
        Some(Some(s)) => match parse_ticket_status(s) {
            Err(_) => Err(RequestError::InvalidStatus),
            Ok(status) => Ok(Some(status)),
        },
    }
}

/// Patching the ticket `id` with the description, title and status members
/// read from a request (checked in that order; an absent member leaves the
/// field as it is). `Ok(false)` when there is no such ticket.
pub open spec fn patch_fields_outcome(
    store: Seq<TicketView>,
    id: u64,
    description_member: Option<Option<Seq<char>>>,
    title_member: Option<Option<Seq<char>>>,
    status_member: Option<Option<Seq<char>>>,
) -> (Seq<TicketView>, Result<bool, RequestError>) {
    if id >= store.len() {
        (store, Ok(false))
    } else {
        match patch_description(description_member) {
            Err(e) => (store, Err(e)),
            Ok(description) => match patch_title(title_member) {
                Err(e) => (store, Err(e)),
                Ok(title) => match patch_status(status_member) {
                    Err(e) => (store, Err(e)),
                    Ok(status) => (
                        store.update(
                            id as int,
                            patched_view(store[id as int], title, description, status),
                        ),
                        Ok(true),
                    ),
                },
            },
        }
    }
}

/// `PATCH`: replaces the description, title and status that the data gives
/// of the ticket with the data's id, and answers the ticket.
pub open spec fn patch_outcome(store: Seq<TicketView>, data: Seq<char>) -> Outcome {
    match required_id(json_u64_member(data, "id"@)) {
        Err(e) => (store, Err(e)),
        Ok(id) => {
            let (after, patched) = patch_fields_outcome(
                store,
                id,
                json_string_member(data, "description"@),
                json_string_member(data, "title"@),
                json_string_member(data, "status"@),
            );
            match patched {
                Err(e) => (after, Err(e)),
                Ok(_) => (after, Ok(lookup_text(after, id))),
            }
        },
    }
}

/// What serving a request does: the command `POST`, `GET` or `PATCH` on the
/// first line, applied to the JSON data on the second.
pub open spec fn request_outcome(store: Seq<TicketView>, request: Seq<char>) -> Outcome {
    if !request_has_data(request) {
        (store, Err(RequestError::MissingData))
    } else {
        let command = request_command(request);
        let data = request_data(request);
        if command == "POST"@ {
            post_outcome(store, data)
        } else if command == "GET"@ {
            get_outcome(store, data)
        } else if command == "PATCH"@ {
            patch_outcome(store, data)
        } else {
            (store, Ok(unrecognized_text(command)))
        }
    }
}

/// The plain view of an answer.
pub open spec fn response_view(response: Result<String, RequestError>) -> Result<
    Seq<char>,
    RequestError,
> {
    match response {
        Ok(text) => Ok(text@),
        Err(e) => Err(e),
    }
}

// ---------------------------------------------------------------------------
// Requests written from values.
// ---------------------------------------------------------------------------

/// The members of the data of a `POST` that asks for a ticket with the given
/// title and description.
pub open spec fn draft_members(title: Seq<char>, description: Seq<char>) -> Seq<
    (Seq<char>, JsonScalarView),
> {
    seq![("title"@, JsonScalarView::Text(title)), ("description"@, JsonScalarView::Text(description))]
}

/// That data, as `json::stringify` writes it.
pub open spec fn draft_data(title: Seq<char>, description: Seq<char>) -> Seq<char> {
    json_object_written(draft_members(title, description))
}

/// The members of the data of a `GET` of the ticket with id `id`.
pub open spec fn id_members(id: u64) -> Seq<(Seq<char>, JsonScalarView)> {
    seq![("id"@, JsonScalarView::Number(id))]
}

/// A `POST` request of a title and a description.
pub open spec fn post_request(title: Seq<char>, description: Seq<char>) -> Seq<char> {
    "POST"@ + seq!['\n'] + draft_data(title, description)
}

/// A `GET` request of the ticket with id `id`; its data is what `id_text`
/// writes.
pub open spec fn get_request(id: u64) -> Seq<char> {
    "GET"@ + seq!['\n'] + id_text(id)
}

/// What serving a `POST` of a title and a description does.
pub open spec fn post_draft_outcome(
    store: Seq<TicketView>,
    title: Seq<char>,
    description: Seq<char>,
) -> Outcome {
    let (after, created) = create_outcome(store, Some(Some(title)), Some(Some(description)));
    match created {
        Ok(id) => (after, Ok(id_text(id))),
        Err(e) => (after, Err(e)),
    }
}

/// A request written from values is served on those values: a `GET` of an id
/// answers the lookup of that id, and a `POST` of a title and a description
/// creates a ticket from them.
pub open spec fn reads_written_requests(store: Seq<TicketView>, request: Seq<char>) -> bool {
    &&& forall|id: u64|
        #[trigger] get_request(id) == request ==> request_outcome(store, request) == (
            store,
            Ok::<Seq<char>, RequestError>(lookup_text(store, id)),
        )
    &&& forall|title: Seq<char>, description: Seq<char>|
        #[trigger] post_request(title, description) == request ==> request_outcome(store, request)
            == post_draft_outcome(store, title, description)
}

/// `text` holds no line break.
pub open spec fn single_line(text: Seq<char>) -> bool {
    forall|i: int| 0 <= i < text.len() ==> text[i] != '\n'
}

proof fn lemma_single_line_concat(a: Seq<char>, b: Seq<char>)
    requires
        single_line(a),
        single_line(b),
    ensures
        single_line(a + b),
{
    assert forall|i: int| 0 <= i < (a + b).len() implies (a + b)[i] != '\n' by {
        if i < a.len() {
            assert((a + b)[i] == a[i]);
        } else {
            assert((a + b)[i] == b[i - a.len()]);
        }
    }
}

proof fn lemma_escaped_single_line(text: Seq<char>)
    ensures
        single_line(escaped_text(text)),
    decreases text.len(),
{
    if text.len() > 0 {
        lemma_escaped_single_line(text.drop_first());
        let c = text[0];
        let e = escaped_char(c);
        assert(single_line(e)) by {
            if (c as u32) < 0x20 && c != '"' && c != '\\' && c != '\u{8}' && c != '\t' && c != '\n'
                && c != '\u{c}' && c != '\r' {
                let hi = (c as u32) as nat / 16;
                let lo = (c as u32) as nat % 16;
                assert(hex_digit(hi) != '\n');
                assert(hex_digit(lo) != '\n');
            }
        }
        lemma_single_line_concat(e, escaped_text(text.drop_first()));
    }
}

proof fn lemma_decimal_single_line(n: nat)
    ensures
        single_line(decimal_text(n)),
    decreases n,
{
    if n >= 10 {
        lemma_decimal_single_line(n / 10);
        assert(digit_char(n % 10) != '\n');
        lemma_single_line_concat(decimal_text(n / 10), seq![digit_char(n % 10)]);
        assert(decimal_text(n) =~= decimal_text(n / 10) + seq![digit_char(n % 10)]);
    } else {
        assert(digit_char(n) != '\n');
    }
}

proof fn lemma_member_single_line(member: (Seq<char>, JsonScalarView))
    ensures
        single_line(json_member_text(member)),
{
    lemma_escaped_single_line(member.0);
    lemma_single_line_concat(seq!['"'], escaped_text(member.0));
    lemma_single_line_concat(seq!['"'] + escaped_text(member.0), seq!['"']);
    lemma_single_line_concat(json_string_text(member.0), seq![':']);
    match member.1 {
        JsonScalarView::Number(n) => lemma_decimal_single_line(n as nat),
        JsonScalarView::Text(t) => {
            lemma_escaped_single_line(t);
            lemma_single_line_concat(seq!['"'], escaped_text(t));
            lemma_single_line_concat(seq!['"'] + escaped_text(t), seq!['"']);
        },
    }
    lemma_single_line_concat(json_string_text(member.0) + seq![':'], json_scalar_text(member.1));
}

proof fn lemma_request_parts(command: Seq<char>, data: Seq<char>)
    requires
        single_line(command),
        single_line(data),
    ensures
        request_has_data(command + seq!['\n'] + data),
        request_command(command + seq!['\n'] + data) == command,
        request_data(command + seq!['\n'] + data) == data,
{
    let request = command + seq!['\n'] + data;
    assert(request[command.len() as int] == '\n');
    assert forall|j: int| 0 <= j < command.len() implies request[j] != '\n' by {
        assert(request[j] == command[j]);
    }
    lemma_line_end_unique(request, command.len() as int);
    assert(request.take(command.len() as int) =~= command);
    let rest = request.skip(command.len() + 1int);
    assert(rest =~= data);
    lemma_line_end_unique(data, data.len() as int);
    assert(data.take(data.len() as int) =~= data);
}

proof fn lemma_get_request(id: u64)
    ensures
        request_has_data(get_request(id)),
        request_command(get_request(id)) == "GET"@,
        request_data(get_request(id)) == id_text(id),
{
    reveal_strlit("GET");
    let members = id_members(id);
    lemma_member_single_line(members[0]);
    assert(json_members_text(members) == json_member_text(members[0]));
    lemma_single_line_concat(seq!['{'], json_members_text(members));
    lemma_single_line_concat(seq!['{'] + json_members_text(members), seq!['}']);
    lemma_request_parts("GET"@, id_text(id));
}

proof fn lemma_post_request(title: Seq<char>, description: Seq<char>)
    ensures
        request_has_data(post_request(title, description)),
        request_command(post_request(title, description)) == "POST"@,
        request_data(post_request(title, description)) == draft_data(title, description),
{
    reveal_strlit("POST");
    let members = draft_members(title, description);
    lemma_member_single_line(members[0]);
    lemma_member_single_line(members[1]);
    assert(members.drop_last() =~= seq![members[0]]);
    assert(json_members_text(members.drop_last()) == json_member_text(members[0]));
    lemma_single_line_concat(json_member_text(members[0]), seq![',']);
    lemma_single_line_concat(json_member_text(members[0]) + seq![','], json_member_text(members[1]));
    lemma_single_line_concat(seq!['{'], json_members_text(members));
    lemma_single_line_concat(seq!['{'] + json_members_text(members), seq!['}']);
    lemma_request_parts("POST"@, draft_data(title, description));
}

proof fn lemma_id_members(id: u64)
    ensures
        keys_distinct(id_members(id)),
        written_member(id_members(id), "id"@) == (None::<Seq<char>>, Some(id)),
{
    let members = id_members(id);
    assert(members[0].0 == "id"@);
}

proof fn lemma_draft_members(title: Seq<char>, description: Seq<char>)
    ensures
        keys_distinct(draft_members(title, description)),
        written_member(draft_members(title, description), "title"@) == (
            Some(title),
            None::<u64>,
        ),
        written_member(draft_members(title, description), "description"@) == (
            Some(description),
            None::<u64>,
        ),
{
    reveal_strlit("title");
    reveal_strlit("description");
    let members = draft_members(title, description);
    assert("title"@.len() != "description"@.len());
    assert(members[0].0 == "title"@);
    assert(members[1].0 == "description"@);
}

/// The title and description members of `data` read back the values that a
/// `POST` wrote into it.
spec fn reads_draft(data: Seq<char>) -> bool {
    forall|title: Seq<char>, description: Seq<char>|
        #[trigger] draft_data(title, description) == data ==> json_string_member(data, "title"@)
            == Some(Some(title)) && json_string_member(data, "description"@) == Some(
            Some(description),
        )
}

/// The id member of `data` reads back the id that a `GET` wrote into it.
spec fn reads_id(data: Seq<char>) -> bool {
    forall|id: u64| #[trigger] id_text(id) == data ==> json_u64_member(data, "id"@) == Some(Some(id))
}

proof fn lemma_requests_of_values(request: Seq<char>)
    ensures
        forall|id: u64|
            #[trigger] get_request(id) == request ==> request_has_data(request) && request_command(
                request,
            ) == "GET"@ && request_data(request) == id_text(id),
        forall|title: Seq<char>, description: Seq<char>|
            #[trigger] post_request(title, description) == request ==> request_has_data(request)
                && request_command(request) == "POST"@ && request_data(request) == draft_data(
                title,
                description,
            ),
        "GET"@ != "POST"@,
        "GET"@ != "PATCH"@,
        "POST"@ != "PATCH"@,
{
    reveal_strlit("GET");
    reveal_strlit("POST");
    reveal_strlit("PATCH");
    assert("GET"@.len() != "POST"@.len());
    assert("GET"@.len() != "PATCH"@.len());
    assert("POST"@.len() != "PATCH"@.len());
    assert forall|id: u64| #[trigger] get_request(id) == request implies request_has_data(request)
        && request_command(request) == "GET"@ && request_data(request) == id_text(id) by {
        lemma_get_request(id);
    }
    assert forall|title: Seq<char>, description: Seq<char>|
        #[trigger] post_request(title, description) == request implies request_has_data(request)
        && request_command(request) == "POST"@ && request_data(request) == draft_data(
        title,
        description,
    ) by {
        lemma_post_request(title, description);
    }
}

fn text_member(key: &str, value: &str) -> (member: (String, JsonScalar))
    ensures
        member.deep_view() == (key@, JsonScalarView::Text(value@)),
{
    (String::from_str(key), JsonScalar::Text(String::from_str(value)))
}

fn id_answer(id: u64) -> (text: String)
    ensures
        text@ == id_text(id),
{
    let mut members: Vec<(String, JsonScalar)> = Vec::new();
    members.push((String::from_str("id"), JsonScalar::Number(id)));
    assert(members.deep_view() =~= seq![("id"@, JsonScalarView::Number(id))]);
    object_text(&members)
}

fn ticket_answer(ticket: &Ticket) -> (text: String)
    ensures
        text@ == ticket_text(ticket@),
{
    let mut members: Vec<(String, JsonScalar)> = Vec::new();
    members.push((String::from_str("id"), JsonScalar::Number(ticket.id.0)));
    members.push(text_member("title", ticket.title.as_str()));
    members.push(text_member("description", ticket.description.as_str()));
    members.push(text_member("status", ticket.status.label()));
    assert(members.deep_view() =~= ticket_members(ticket@));
    proof {
        reveal_strlit("id");
        reveal_strlit("title");
        reveal_strlit("description");
        reveal_strlit("status");
        assert("id"@.len() != "title"@.len());
        assert("id"@.len() != "description"@.len());
        assert("id"@.len() != "status"@.len());
        assert("title"@.len() != "description"@.len());
        assert("title"@[0] != "status"@[0]);
        assert("description"@.len() != "status"@.len());
        assert(keys_distinct(ticket_members(ticket@)));
    }
    object_text(&members)
}

fn no_ticket_answer(id: u64) -> (text: String)
    ensures
        text@ == no_ticket_text(id),
{
    let mut text = String::from_str("No ticket with id ");
    let digits = decimal(id);
    text.append(digits.as_str());
    text
}

fn unrecognized_answer(command: &str) -> (text: String)
    ensures
        text@ == unrecognized_text(command@),
{
    let mut text = String::from_str("Unrecognized command: ");
    text.append(command);
    text
}

/// Creates a ticket from the title and description members read from a
/// request, as `create_outcome` says.
pub fn create_ticket(
    store: &mut TicketStore,
    title: Option<Option<String>>,
    description: Option<Option<String>>,
) -> (created: Result<TicketId, RequestError>)
    ensures
        final(store)@ == create_outcome(old(store)@, title.deep_view(), description.deep_view()).0,
        match created {
            Ok(id) => create_outcome(old(store)@, title.deep_view(), description.deep_view()).1
                == Ok::<u64, RequestError>(id.0),
            Err(e) => create_outcome(old(store)@, title.deep_view(), description.deep_view()).1
                == Err::<u64, RequestError>(e),
        },
{
    let title = match title {
        None => return Err(RequestError::InvalidJson),
        Some(None) => return Err(RequestError::MissingField),
        Some(Some(t)) => t,
    };
    let title = match TicketTitle::parse(title.as_str()) {
        Err(e) => return Err(RequestError::InvalidTitle(e)),
        Ok(t) => t,
    };
    let description = match description {
        None => return Err(RequestError::InvalidJson),
        Some(None) => return Err(RequestError::MissingField),
        Some(Some(d)) => d,
    };
    let description = match TicketDescription::parse(description.as_str()) {
        Err(e) => return Err(RequestError::InvalidDescription(e)),
        Ok(d) => d,
    };
    Ok(store.add_ticket(TicketDraft { title, description }))
}

/// Patches the ticket `id` with the description, title and status members
/// read from a request, as `patch_fields_outcome` says.
pub fn patch_ticket(
    store: &mut TicketStore,
    id: u64,
    description: Option<Option<String>>,
    title: Option<Option<String>>,
    status: Option<Option<String>>,
) -> (patched: Result<bool, RequestError>)
    ensures
        (final(store)@, patched) == patch_fields_outcome(
            old(store)@,
            id,
            description.deep_view(),
            title.deep_view(),
            status.deep_view(),
        ),
{
    if id >= store.len() as u64 {
        return Ok(false);
    }
    let description = match description {
        None => return Err(RequestError::InvalidJson),
        Some(None) => None,
        Some(Some(d)) => match TicketDescription::parse(d.as_str()) {
            Err(e) => return Err(RequestError::InvalidDescription(e)),
            Ok(d) => Some(d),
        },
    };
    let title = match title {
        None => return Err(RequestError::InvalidJson),
        Some(None) => None,
        Some(Some(t)) => match TicketTitle::parse(t.as_str()) {
            Err(e) => return Err(RequestError::InvalidTitle(e)),
            Ok(t) => Some(t),
        },
    };
    let status = match status {
        None => return Err(RequestError::InvalidJson),
        Some(None) => None,
        Some(Some(s)) => match Status::try_from(s.as_str()) {
            Err(_) => return Err(RequestError::InvalidStatus),
            Ok(status) => Some(status),
        },
    };
    Ok(store.update(TicketId(id), title, description, status))
}

/// The answer to a lookup of `id`: the ticket, or that there is none.
pub fn lookup_answer(store: &TicketStore, id: u64) -> (text: String)
    ensures
        text@ == lookup_text(store@, id),
{
    match store.get(TicketId(id)) {
        Some(ticket) => ticket_answer(ticket),
        None => no_ticket_answer(id),
    }
}

fn post(store: &mut TicketStore, data: &str) -> (response: Result<String, RequestError>)
    ensures
        (final(store)@, response_view(response)) == post_outcome(old(store)@, data@),
        reads_draft(data@),
{
    let title = string_member(data, "title");
    let description = string_member(data, "description");
    proof {
        assert forall|t: Seq<char>, d: Seq<char>| #[trigger] draft_data(t, d) == data@ implies json_string_member(data@, "title"@)
            == Some(Some(t)) && json_string_member(data@, "description"@) == Some(Some(d)) by {
            lemma_draft_members(t, d);
        }
    }
    match create_ticket(store, title, description) {
        Ok(id) => Ok(id_answer(id.0)),
        Err(e) => Err(e),
    }
}

fn get(store: &TicketStore, data: &str) -> (response: Result<String, RequestError>)
    ensures
        (store@, response_view(response)) == get_outcome(store@, data@),
        reads_id(data@),
{
    let member = u64_member(data, "id");
    proof {
        assert forall|id: u64| #[trigger] id_text(id) == data@ implies json_u64_member(data@, "id"@) == Some(
            Some(id),
        ) by {
            lemma_id_members(id);
        }
    }
    match member {
        None => Err(RequestError::InvalidJson),
        Some(None) => Err(RequestError::MissingField),
        Some(Some(id)) => Ok(lookup_answer(store, id)),
    }
}

fn patch(store: &mut TicketStore, data: &str) -> (response: Result<String, RequestError>)
    ensures
        (final(store)@, response_view(response)) == patch_outcome(old(store)@, data@),
{
    let id = match u64_member(data, "id") {
        None => return Err(RequestError::InvalidJson),
        Some(None) => return Err(RequestError::MissingField),
        Some(Some(id)) => id,
    };
    let description = string_member(data, "description");
    let title = string_member(data, "title");
    let status = string_member(data, "status");
    match patch_ticket(store, id, description, title, status) {
        Err(e) => Err(e),
        Ok(_) => Ok(lookup_answer(store, id)),
    }
}

fn dispatch(store: &mut TicketStore, request: &str) -> (response: Result<String, RequestError>)
    ensures
        final(store)@ == request_outcome(old(store)@, request@).0,
        response_view(response) == request_outcome(old(store)@, request@).1,
        reads_written_requests(old(store)@, request@),
{
    proof {
        lemma_requests_of_values(request@);
    }
    let (command, data) = match split_request(request) {
        None => return Err(RequestError::MissingData),
        Some(parts) => parts,
    };
    if same_text(command, "POST") {
        post(store, data)
    } else if same_text(command, "GET") {
        get(store, data)
    } else if same_text(command, "PATCH") {
        patch(store, data)
    } else {
        Ok(unrecognized_answer(command))
    }
}

fn check_post(store: &TicketStore, data: &str) -> (checked: Result<(), RequestError>)
    ensures
        match checked {
            Ok(()) => post_outcome(store@, data@).1 is Ok,
            Err(e) => post_outcome(store@, data@).1 == Err::<Seq<char>, RequestError>(e),
        },
        reads_draft(data@),
{
    let title = string_member(data, "title");
    let description = string_member(data, "description");
    proof {
        assert forall|t: Seq<char>, d: Seq<char>| #[trigger] draft_data(t, d) == data@ implies json_string_member(data@, "title"@)
            == Some(Some(t)) && json_string_member(data@, "description"@) == Some(Some(d)) by {
            lemma_draft_members(t, d);
        }
    }
    match title {
        None => return Err(RequestError::InvalidJson),
        Some(None) => return Err(RequestError::MissingField),
        Some(Some(title)) => match TicketTitle::parse(title.as_str()) {
            Err(e) => return Err(RequestError::InvalidTitle(e)),
            Ok(_) => {},
        },
    }
    match description {
        None => Err(RequestError::InvalidJson),
        Some(None) => Err(RequestError::MissingField),
        Some(Some(description)) => match TicketDescription::parse(description.as_str()) {
            Err(e) => Err(RequestError::InvalidDescription(e)),
            Ok(_) => Ok(()),
        },
    }
}

fn check_patch(store: &TicketStore, data: &str) -> (checked: Result<(), RequestError>)
    ensures
        match checked {
            Ok(()) => patch_outcome(store@, data@).1 is Ok,
            Err(e) => patch_outcome(store@, data@).1 == Err::<Seq<char>, RequestError>(e),
        },
{
    let id = match u64_member(data, "id") {
        None => return Err(RequestError::InvalidJson),
        Some(None) => return Err(RequestError::MissingField),
        Some(Some(id)) => id,
    };
    if id >= store.len() as u64 {
        return Ok(());
    }
    match string_member(data, "description") {
        None => return Err(RequestError::InvalidJson),
        Some(None) => {},
        Some(Some(description)) => match TicketDescription::parse(description.as_str()) {
            Err(e) => return Err(RequestError::InvalidDescription(e)),
            Ok(_) => {},
        },
    }
    match string_member(data, "title") {
        None => return Err(RequestError::InvalidJson),
        Some(None) => {},
        Some(Some(title)) => match TicketTitle::parse(title.as_str()) {
            Err(e) => return Err(RequestError::InvalidTitle(e)),
            Ok(_) => {},
        },
    }
    match string_member(data, "status") {
        None => Err(RequestError::InvalidJson),
        Some(None) => Ok(()),
        Some(Some(status)) => match Status::try_from(status.as_str()) {
            Err(_) => Err(RequestError::InvalidStatus),
            Ok(_) => Ok(()),
        },
    }
}

/// Whether a request can be served, and if not, why: the data is missing, is
/// no JSON, lacks a member that the command needs, or holds a title,
/// description or status that is not valid. The store is only read.
pub fn check_request(store: &TicketStore, request: &str) -> (checked: Result<(), RequestError>)
    ensures
        match checked {
            Ok(()) => request_outcome(store@, request@).1 is Ok,
            Err(e) => request_outcome(store@, request@).1 == Err::<Seq<char>, RequestError>(e),
        },
        reads_written_requests(store@, request@),
{
    proof {
        lemma_requests_of_values(request@);
    }
    let (command, data) = match split_request(request) {
        None => return Err(RequestError::MissingData),
        Some(parts) => parts,
    };
    if same_text(command, "POST") {
        check_post(store, data)
    } else if same_text(command, "GET") {
        let member = u64_member(data, "id");
        proof {
            assert forall|id: u64| #[trigger] id_text(id) == data@ implies json_u64_member(data@, "id"@)
                == Some(Some(id)) by {
                lemma_id_members(id);
            }
        }
        match member {
            None => Err(RequestError::InvalidJson),
            Some(None) => Err(RequestError::MissingField),
            Some(Some(_)) => Ok(()),
        }
    } else if same_text(command, "PATCH") {
        check_patch(store, data)
    } else {
        Ok(())
    }
}

/// Serves one request: the command `POST`, `GET` or `PATCH` on its first line,
/// applied to the JSON data on its second line; an unknown command is
/// answered as such. The request must be one that can be served (see
/// `check_request`).
pub fn serve_request(store: &mut TicketStore, request: &str) -> (response: String)
    requires
        request_outcome(old(store)@, request@).1 is Ok,
    ensures
        final(store)@ == request_outcome(old(store)@, request@).0,
        request_outcome(old(store)@, request@).1 == Ok::<Seq<char>, RequestError>(response@),
        reads_written_requests(old(store)@, request@),
{
    match dispatch(store, request) {
        Ok(response) => response,
        Err(_) => {
            assert(false);
            String::new()
        },
    }
}

/// Serves one request if it can be served; otherwise gives the reason, and
/// leaves the store as it is.
pub fn process_request(store: &mut TicketStore, request: &str) -> (response: Result<
    String,
    RequestError,
>)
    ensures
        final(store)@ == request_outcome(old(store)@, request@).0,
        response_view(response) == request_outcome(old(store)@, request@).1,
        reads_written_requests(old(store)@, request@),
{
    match check_request(store, request) {
        Err(e) => Err(e),
        Ok(()) => Ok(serve_request(store, request)),
    }
}

// ---------------------------------------------------------------------------
// Laws of serving requests.
// ---------------------------------------------------------------------------

/// A request that is not served leaves the store as it was.
pub proof fn refused_request_keeps_store(store: Seq<TicketView>, request: Seq<char>)
    ensures
        request_outcome(store, request).1 is Err ==> request_outcome(store, request).0 == store,
{
}

/// Only a served `POST` or `PATCH` changes the store: a `GET` or an unknown
/// command never does.
pub proof fn reads_keep_store(store: Seq<TicketView>, request: Seq<char>)
    requires
        request_command(request) != "POST"@,
        request_command(request) != "PATCH"@,
    ensures
        request_outcome(store, request).0 == store,
{
}

/// A served `POST` adds exactly one ticket, at the end, with the next id, the
/// posted title and description and the status `ToDo`; it answers that id and
/// leaves every other ticket as it was.
pub proof fn post_appends_ticket(store: Seq<TicketView>, data: Seq<char>)
    requires
        store.len() < u64::MAX,
        post_outcome(store, data).1 is Ok,
    ensures
        json_string_member(data, "title"@) matches Some(Some(title))
            && json_string_member(data, "description"@) matches Some(Some(description))
            && post_outcome(store, data).0 == store.push(
            TicketView { id: store.len() as u64, title, description, status: Status::ToDo },
        ) && post_outcome(store, data).1 == Ok::<Seq<char>, RequestError>(
            id_text(store.len() as u64),
        ),
{
}

/// What a `GET` answers after a served `POST`, for the id that the `POST`
/// answered, is the posted ticket: the posted title and description, with the
/// status `ToDo`.
pub proof fn get_after_post(store: Seq<TicketView>, post_data: Seq<char>, get_data: Seq<char>)
    requires
        store.len() < u64::MAX,
        post_outcome(store, post_data).1 is Ok,
        json_u64_member(get_data, "id"@) == Some(Some(store.len() as u64)),
    ensures
        json_string_member(post_data, "title"@) matches Some(Some(title))
            && json_string_member(post_data, "description"@) matches Some(Some(description))
            && get_outcome(post_outcome(store, post_data).0, get_data).1 == Ok::<
            Seq<char>,
            RequestError,
        >(
            ticket_text(
                TicketView { id: store.len() as u64, title, description, status: Status::ToDo },
            ),
        ),
{
}

/// Whether a request is a `PATCH` of the ticket with id `id`.
pub open spec fn patches_ticket(request: Seq<char>, id: u64) -> bool {
    &&& request_has_data(request)
    &&& request_command(request) == "PATCH"@
    &&& json_u64_member(request_data(request), "id"@) == Some(Some(id))
}

/// The store after serving the requests one after the other.
pub open spec fn serve_all(store: Seq<TicketView>, requests: Seq<Seq<char>>) -> Seq<TicketView>
    decreases requests.len(),
{
    if requests.len() == 0 {
        store
    } else {
        serve_all(request_outcome(store, requests[0]).0, requests.drop_first())
    }
}

/// Any request but a `PATCH` of ticket `id` leaves that ticket as it is, and
/// no request removes a ticket.
pub proof fn other_requests_keep_ticket(store: Seq<TicketView>, request: Seq<char>, id: u64)
    requires
        id < store.len(),
        !patches_ticket(request, id),
    ensures
        request_outcome(store, request).0.len() >= store.len(),
        request_outcome(store, request).0[id as int] == store[id as int],
{
}

/// A ticket stays as it is through any requests that do not `PATCH` it.
pub proof fn requests_keep_ticket(store: Seq<TicketView>, requests: Seq<Seq<char>>, id: u64)
    requires
        id < store.len(),
        forall|i: int| 0 <= i < requests.len() ==> !patches_ticket(#[trigger] requests[i], id),
    ensures
        serve_all(store, requests).len() >= store.len(),
        serve_all(store, requests)[id as int] == store[id as int],
    decreases requests.len(),
{
    if requests.len() > 0 {
        other_requests_keep_ticket(store, requests[0], id);
        let rest = requests.drop_first();
        assert forall|i: int| 0 <= i < rest.len() implies !patches_ticket(#[trigger] rest[i], id) by {
            assert(rest[i] == requests[i + 1]);
        }
        requests_keep_ticket(request_outcome(store, requests[0]).0, rest, id);
    }
}

/// What a `GET` answers for the id that a served `POST` answered, after any
/// requests in between that do not `PATCH` that ticket, is the posted ticket:
/// the posted title and description, with the status `ToDo`.
pub proof fn get_after_post_and_other_requests(
    store: Seq<TicketView>,
    post_data: Seq<char>,
    between: Seq<Seq<char>>,
    get_data: Seq<char>,
)
    requires
        store.len() < u64::MAX,
        post_outcome(store, post_data).1 is Ok,
        forall|i: int|
            0 <= i < between.len() ==> !patches_ticket(#[trigger] between[i], store.len() as u64),
        json_u64_member(get_data, "id"@) == Some(Some(store.len() as u64)),
    ensures
        json_string_member(post_data, "title"@) matches Some(Some(title))
            && json_string_member(post_data, "description"@) matches Some(Some(description))
            && get_outcome(serve_all(post_outcome(store, post_data).0, between), get_data).1
            == Ok::<Seq<char>, RequestError>(
            ticket_text(
                TicketView { id: store.len() as u64, title, description, status: Status::ToDo },
            ),
        ),
{
    requests_keep_ticket(post_outcome(store, post_data).0, between, store.len() as u64);
}

/// A `POST` of a title and a description, then any requests that do not
/// `PATCH` the new ticket, then a `GET` of the id that the `POST` answered:
/// the `GET` answers the posted ticket, with that title and description and
/// the status `ToDo`. Serving a request written from values reads those
/// values back (`reads_written_requests`, which `process_request` and
/// `serve_request` ensure).
pub proof fn post_then_get_round_trip(
    store: Seq<TicketView>,
    title: Seq<char>,
    description: Seq<char>,
    between: Seq<Seq<char>>,
)
    requires
        store.len() < u64::MAX,
        title_check(title) is Ok,
        description_check(description) is Ok,
        reads_written_requests(store, post_request(title, description)),
        reads_written_requests(
            serve_all(request_outcome(store, post_request(title, description)).0, between),
            get_request(store.len() as u64),
        ),
        forall|i: int|
            0 <= i < between.len() ==> !patches_ticket(#[trigger] between[i], store.len() as u64),
    ensures
        request_outcome(store, post_request(title, description)).1 == Ok::<Seq<char>, RequestError>(
            id_text(store.len() as u64),
        ),
        request_outcome(
            serve_all(request_outcome(store, post_request(title, description)).0, between),
            get_request(store.len() as u64),
        ).1 == Ok::<Seq<char>, RequestError>(
            ticket_text(
                TicketView { id: store.len() as u64, title, description, status: Status::ToDo },
            ),
        ),
{
    let posted = request_outcome(store, post_request(title, description)).0;
    requests_keep_ticket(posted, between, store.len() as u64);
}

/// No request removes a ticket.
pub proof fn requests_never_shrink_store(store: Seq<TicketView>, requests: Seq<Seq<char>>)
    ensures
        serve_all(store, requests).len() >= store.len(),
    decreases requests.len(),
{
    if requests.len() > 0 {
        requests_never_shrink_store(request_outcome(store, requests[0]).0, requests.drop_first());
    }
}

/// Two served `POST`s, with any requests between them, answer different ids:
/// the first the store's length before it, the second a larger one.
/// Requests served one after another (as the server's lock on the store
/// makes them) therefore never hand out an id twice.
pub proof fn posts_get_distinct_ids(
    store: Seq<TicketView>,
    first: Seq<char>,
    between: Seq<Seq<char>>,
    second: Seq<char>,
)
    requires
        request_has_data(first),
        request_command(first) == "POST"@,
        request_outcome(store, first).1 is Ok,
        request_has_data(second),
        request_command(second) == "POST"@,
        request_outcome(serve_all(request_outcome(store, first).0, between), second).1 is Ok,
        serve_all(request_outcome(store, first).0, between).len() < u64::MAX,
    ensures
        request_outcome(store, first).1 == Ok::<Seq<char>, RequestError>(
            id_text(store.len() as u64),
        ),
        request_outcome(serve_all(request_outcome(store, first).0, between), second).1 == Ok::<
            Seq<char>,
            RequestError,
        >(id_text(serve_all(request_outcome(store, first).0, between).len() as u64)),
        store.len() < serve_all(request_outcome(store, first).0, between).len(),
{
    requests_never_shrink_store(request_outcome(store, first).0, between);
}

/// A served `PATCH` of an existing ticket answers what a `GET` of that ticket
/// answers afterwards, and changes no other ticket.
pub proof fn patch_answer_is_stored(store: Seq<TicketView>, patch_data: Seq<char>, get_data: Seq<char>)
    requires
        patch_outcome(store, patch_data).1 is Ok,
        json_u64_member(patch_data, "id"@) == json_u64_member(get_data, "id"@),
    ensures
        get_outcome(patch_outcome(store, patch_data).0, get_data).1 == patch_outcome(
            store,
            patch_data,
        ).1,
        patch_outcome(store, patch_data).0.len() == store.len(),
        forall|i: int|
            0 <= i < store.len() && json_u64_member(patch_data, "id"@) != Some(Some(i as u64))
                ==> #[trigger] patch_outcome(store, patch_data).0[i] == store[i],
{
}

/// A served `PATCH` of an existing ticket writes exactly the members its
/// data gives: a given title, description or status becomes the ticket's,
/// and a member that is not given leaves that field as it was, whatever the
/// others are. The ticket keeps its id, and no other ticket changes.
pub proof fn patch_writes_given_members(
    store: Seq<TicketView>,
    id: u64,
    description_member: Option<Option<Seq<char>>>,
    title_member: Option<Option<Seq<char>>>,
    status_member: Option<Option<Seq<char>>>,
)
    requires
        id < store.len(),
        patch_fields_outcome(store, id, description_member, title_member, status_member).1 is Ok,
    ensures
        ({
            let after = patch_fields_outcome(
                store,
                id,
                description_member,
                title_member,
                status_member,
            ).0;
            &&& after.len() == store.len()
            &&& after[id as int].id == store[id as int].id
            &&& title_member == Some(None::<Seq<char>>) ==> after[id as int].title == store[id as int].title
            &&& forall|t: Seq<char>| title_member == Some(Some(t)) ==> after[id as int].title == t
            &&& description_member == Some(None::<Seq<char>>) ==> after[id as int].description
                == store[id as int].description
            &&& forall|d: Seq<char>|
                description_member == Some(Some(d)) ==> after[id as int].description == d
            &&& status_member == Some(None::<Seq<char>>) ==> after[id as int].status
                == store[id as int].status
            &&& forall|text: Seq<char>|
                status_member == Some(Some(text)) ==> parse_ticket_status(text) == Ok::<
                    Status,
                    (),
                >(after[id as int].status)
            &&& forall|i: int| 0 <= i < store.len() && i != id ==> #[trigger] after[i] == store[i]
        }),
{
}

/// A `PATCH` that names no field leaves the ticket as it was.
pub proof fn empty_patch_changes_nothing(store: Seq<TicketView>, id: u64)
    ensures
        patch_fields_outcome(store, id, Some(None), Some(None), Some(None)).0 == store,
{
    if id < store.len() {
        assert(store.update(id as int, patched_view(store[id as int], None, None, None)) =~= store);
    }
}

} // verus!
