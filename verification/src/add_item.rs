//! The `add-list-item` tool as a state machine: it fetches the note, has the host
//! read it, builds the update that puts the new item first, has the host write it
//! out, and patches the note. The host performs each action and hands back what
//! came of it; every decision is taken here.
use vstd::prelude::*;
use vstd::string::*;

use crate::api::{
    add_list_item_patch, encoded, is_list_items_patch, is_list_note, is_success, list_item_of,
    list_items_mask, note_url, not_a_list_message, note_url_of, response_text, api_error_message,
    lemma_note_url_keeps_id,
};
use crate::note_id::{accepted_note_id, invalid_id_message, validate_note_id};
use crate::request::{auth_get, auth_headers, auth_patch, json_headers, request_is, Method, Request};
use crate::text::{decimal, lossy_utf8, url_encode};
use crate::types::Note;

verus! {

/// Where an `add-list-item` run stands.
#[derive(Debug)]
pub enum AddItemState {
    /// The note has been requested.
    AwaitNote { base: String, token: String, id: String, text: String, checked: bool },
    /// The fetched note's text is being read into a note.
    AwaitParse { base: String, token: String, id: String, text: String, checked: bool },
    /// The update is being written out as JSON.
    AwaitJson { base: String, token: String, id: String },
    /// The update has been sent.
    AwaitPatch,
    /// The run has answered.
    Finished,
}

/// What the host reports back.
#[derive(Debug)]
pub enum AddItemEvent {
    /// The API answered a request with this status and body.
    Responded { status: u16, body: Vec<u8> },
    /// The note's text was read into a note, or could not be (with the reader's message).
    Parsed(Result<Note, String>),
    /// The update was written out as JSON, or could not be (with the writer's message).
    Serialized(Result<String, String>),
}

/// What the host is asked to do next.
#[derive(Debug)]
pub enum AddItemAction {
    /// Send this request and report the response.
    Send(Request),
    /// Read this JSON text into a note.
    Parse(String),
    /// Write this note out as JSON.
    Serialize(Note),
    /// The tool's answer; the run is over.
    Answer(Result<String, String>),
}

/// How many more events a run can take from this state.
pub open spec fn steps_left(s: AddItemState) -> nat {
    match s {
        AddItemState::AwaitNote { .. } => 4,
        AddItemState::AwaitParse { .. } => 3,
        AddItemState::AwaitJson { .. } => 2,
        AddItemState::AwaitPatch => 1,
        AddItemState::Finished => 0,
    }
}

/// The event that a state waits for: a response while a request is out, a note while
/// one is being read, JSON text while the update is being written.
pub open spec fn expects(s: AddItemState, e: AddItemEvent) -> bool {
    match s {
        AddItemState::AwaitNote { .. } => e is Responded,
        AddItemState::AwaitParse { .. } => e is Parsed,
        AddItemState::AwaitJson { .. } => e is Serialized,
        AddItemState::AwaitPatch => e is Responded,
        AddItemState::Finished => false,
    }
}

/// The URL that the update is sent to: the note's, limited to its checklist items.
pub open spec fn list_items_patch_url_of(base: Seq<char>, id: Seq<char>) -> Seq<char> {
    note_url_of(base, id) + "?updateMask="@ + encoded(list_items_mask())
}

/// The message of a fetched note that could not be read.
pub open spec fn parse_error_message(reason: Seq<char>) -> Seq<char> {
    "Failed to parse note: "@ + reason
}

/// Whether the run answered `answer` and is over.
pub open spec fn answered(r: (AddItemState, AddItemAction), answer: Result<Seq<char>, Seq<char>>) -> bool {
    &&& r.0 is Finished
    &&& r.1 matches AddItemAction::Answer(a)
    &&& match a {
        Ok(s) => answer == Ok::<Seq<char>, Seq<char>>(s@),
        Err(e) => answer == Err::<Seq<char>, Seq<char>>(e@),
    }
}

/// The answer to an API response: its body's text on success, the `API error` message otherwise.
pub open spec fn response_answer(status: u16, body: Seq<u8>) -> Result<Seq<char>, Seq<char>> {
    if is_success(status) {
        Ok(lossy_utf8(body))
    } else {
        Err(api_error_message(status, body))
    }
}

impl AddItemState {
    /// Whether the state waits for this event.
    pub fn expects(&self, event: &AddItemEvent) -> (r: bool)
        ensures
            r == expects(*self, *event),
    {
        match self {
            AddItemState::AwaitNote { .. } => matches!(event, AddItemEvent::Responded { .. }),
            AddItemState::AwaitParse { .. } => matches!(event, AddItemEvent::Parsed(_)),
            AddItemState::AwaitJson { .. } => matches!(event, AddItemEvent::Serialized(_)),
            AddItemState::AwaitPatch => matches!(event, AddItemEvent::Responded { .. }),
            AddItemState::Finished => false,
        }
    }
}

fn answer(a: Result<String, String>) -> (r: (AddItemState, AddItemAction))
    ensures
        r.0 is Finished,
        r.1 == AddItemAction::Answer(a),
{
    (AddItemState::Finished, AddItemAction::Answer(a))
}

/// Starts an `add-list-item` run: a refused note ID is answered at once with the
/// `Invalid note ID` message; otherwise the note is requested.
pub fn start_add_item(
    base: &str,
    token: &str,
    note_id: &str,
    text: String,
    checked: bool,
) -> (r: (AddItemState, AddItemAction))
    ensures
        match accepted_note_id(note_id@) {
            None => answered(r, Err(invalid_id_message(note_id@))),
            Some(id) => {
                &&& r.0 matches AddItemState::AwaitNote { base: b, token: t, id: i, text: x, checked: c }
                &&& b@ == base@ && t@ == token@ && i@ == id && x == text && c == checked
                &&& r.1 matches AddItemAction::Send(req)
                &&& request_is(req, Method::Get, note_url_of(base@, id), auth_headers(token@), None)
            },
        },
{
    match validate_note_id(note_id) {
        Err(e) => answer(Err(e)),
        Ok(id) => {
            let url = note_url(base, id);
            let req = auth_get(url.as_str(), token);
            (
                AddItemState::AwaitNote {
                    base: String::from_str(base),
                    token: String::from_str(token),
                    id: String::from_str(id),
                    text,
                    checked,
                },
                AddItemAction::Send(req),
            )
        },
    }
}

/// Takes one event of an `add-list-item` run:
/// - the note's response: an error status is answered with the `API error` message,
///   a success has the host read the body;
/// - the read note: a note that could not be read is answered with `Failed to parse
///   note: {reason}`, a note that is not a checklist with `Note is not a list`,
///   otherwise the host writes out the update that puts the new item first;
/// - the written update: a writer's failure is answered with its message, otherwise
///   the update is sent as a `PATCH` limited to `body.list.listItems`;
/// - the update's response: answered as the API's responses are.
/// Every step moves the run closer to its answer.
pub fn step_add_item(state: AddItemState, event: AddItemEvent) -> (r: (AddItemState, AddItemAction))
    requires
        expects(state, event),
    ensures
        steps_left(r.0) < steps_left(state),
        (r.0 is Finished) <==> (r.1 is Answer),
        match (state, event) {
            (
                AddItemState::AwaitNote { base, token, id, text, checked },
                AddItemEvent::Responded { status, body },
            ) => if is_success(status) {
                &&& r.0 matches AddItemState::AwaitParse { base: b, token: t, id: i, text: x, checked: c }
                &&& b == base && t == token && i == id && x == text && c == checked
                &&& r.1 matches AddItemAction::Parse(s)
                &&& s@ == lossy_utf8(body@)
            } else {
                answered(r, response_answer(status, body@))
            },
            (
                AddItemState::AwaitParse { base, token, id, text, checked },
                AddItemEvent::Parsed(parsed),
            ) => match parsed {
                Err(reason) => answered(r, Err(parse_error_message(reason@))),
                Ok(note) => if is_list_note(note) {
                    &&& r.0 matches AddItemState::AwaitJson { base: b, token: t, id: i }
                    &&& b == base && t == token && i == id
                    &&& r.1 matches AddItemAction::Serialize(patch)
                    &&& is_list_items_patch(patch, note, list_item_of(text, checked))
                } else {
                    answered(r, Err(not_a_list_message()))
                },
            },
            (AddItemState::AwaitJson { base, token, id }, AddItemEvent::Serialized(json)) => match json {
                Err(reason) => answered(r, Err(reason@)),
                Ok(json) => {
                    &&& r.0 is AwaitPatch
                    &&& r.1 matches AddItemAction::Send(req)
                    &&& request_is(
                        req,
                        Method::Patch,
                        list_items_patch_url_of(base@, id@),
                        json_headers(token@),
                        Some(json@),
                    )
                },
            },
            (AddItemState::AwaitPatch, AddItemEvent::Responded { status, body }) => answered(
                r,
                response_answer(status, body@),
            ),
            _ => false,
        },
{
    match state {
        AddItemState::AwaitNote { base, token, id, text, checked } => match event {
            AddItemEvent::Responded { status, body } => match response_text(status, body.as_slice()) {
                Err(e) => answer(Err(e)),
                Ok(s) => (
                    AddItemState::AwaitParse { base, token, id, text, checked },
                    AddItemAction::Parse(s),
                ),
            },
            _ => vstd::pervasive::unreached(),
        },
        AddItemState::AwaitParse { base, token, id, text, checked } => match event {
            AddItemEvent::Parsed(Err(reason)) => {
                let mut e = String::from_str("Failed to parse note: ");
                e.append(reason.as_str());
                answer(Err(e))
            },
            AddItemEvent::Parsed(Ok(note)) => match add_list_item_patch(note, text, checked) {
                Err(e) => answer(Err(e)),
                Ok(patch) => (
                    AddItemState::AwaitJson { base, token, id },
                    AddItemAction::Serialize(patch),
                ),
            },
            _ => vstd::pervasive::unreached(),
        },
        AddItemState::AwaitJson { base, token, id } => match event {
            AddItemEvent::Serialized(Err(reason)) => answer(Err(reason)),
            AddItemEvent::Serialized(Ok(json)) => {
                let mut url = note_url(base.as_str(), id.as_str());
                url.append("?updateMask=");
                let mask = url_encode("body.list.listItems");
                url.append(mask.as_str());
                let req = auth_patch(url.as_str(), token.as_str(), json.as_str());
                (AddItemState::AwaitPatch, AddItemAction::Send(req))
            },
            _ => vstd::pervasive::unreached(),
        },
        AddItemState::AwaitPatch => match event {
            AddItemEvent::Responded { status, body } => answer(response_text(status, body.as_slice())),
            _ => vstd::pervasive::unreached(),
        },
        AddItemState::Finished => vstd::pervasive::unreached(),
    }
}

/// The answer to the update's response is the body's text exactly when the status
/// lies in 200..=299; any other status is refused with a message that begins with
/// `API error (` and the status in decimal.
pub proof fn lemma_response_answer_only_2xx(status: u16, body: Seq<u8>)
    ensures
        (response_answer(status, body) is Ok) <==> (200 <= status && status <= 299),
        response_answer(status, body) matches Ok(text) ==> text == lossy_utf8(body),
        response_answer(status, body) matches Err(e) ==> e.take(
            ("API error ("@.len() + decimal(status as nat).len()) as int,
        ) == "API error ("@ + decimal(status as nat),
{
    if !(200 <= status && status <= 299) {
        let e = response_answer(status, body)->Err_0;
        assert(e.take(("API error ("@.len() + decimal(status as nat).len()) as int) =~= "API error ("@
            + decimal(status as nat));
    }
}

/// The checklist update goes to the note that was fetched: its URL is the note's URL,
/// the ID character for character, followed by the field mask.
pub proof fn lemma_patch_url_keeps_id(base: Seq<char>, id: Seq<char>)
    ensures
        list_items_patch_url_of(base, id).take(note_url_of(base, id).len() as int) == note_url_of(
            base,
            id,
        ),
        forall|i: int|
            0 <= i < id.len() ==> list_items_patch_url_of(base, id)[base.len() + "/notes/"@.len()
                + i] == #[trigger] id[i],
{
    lemma_note_url_keeps_id(base, id);
    let u = note_url_of(base, id);
    let p = list_items_patch_url_of(base, id);
    assert(p.take(u.len() as int) =~= u);
    assert forall|i: int| 0 <= i < id.len() implies p[base.len() + "/notes/"@.len() + i]
        == #[trigger] id[i] by {
        assert(p[base.len() + "/notes/"@.len() + i] == u[base.len() + "/notes/"@.len() + i]);
    }
}

} // verus!
