//! The Keep API operations of the component: the request each tool sends, the
//! notes it writes, and what it makes of the API's response.
use vstd::prelude::*;
use vstd::string::*;
use vstd::utf8::*;

use crate::note_id::{accepted_note_id, invalid_id_message, validate_note_id};
use crate::request::{
    auth_delete, auth_get, auth_headers, auth_patch, auth_post, json_headers, request_is, Method,
    Request,
};
use crate::text::{decimal, lossy_utf8, percent_encode, push_char, push_decimal, url_encode, utf8_lossy};
use crate::types::{ListContent, ListItem, Note, Section, TextContent};

verus! {

/// The Google Keep API endpoint that the component talks to unless its host names another.
pub const BASE_URL: &'static str = "https://keep.googleapis.com/v1";

/// The percent-encoding of the UTF-8 text of `s`.
pub open spec fn encoded(s: Seq<char>) -> Seq<char> {
    percent_encode(encode_utf8(s))
}

/// `{base}/notes`: the collection of notes.
pub open spec fn notes_url_of(base: Seq<char>) -> Seq<char> {
    base + "/notes"@
}

/// `{base}/notes/{id}`: one note.
pub open spec fn note_url_of(base: Seq<char>, id: Seq<char>) -> Seq<char> {
    base + "/notes/"@ + id
}

/// Query parameters joined by `&`.
pub open spec fn join_params(params: Seq<Seq<char>>) -> Seq<char>
    decreases params.len(),
{
    if params.len() == 0 {
        seq![]
    } else if params.len() == 1 {
        params[0]
    } else {
        join_params(params.drop_last()) + seq!['&'] + params.last()
    }
}

/// The query part of a URL: nothing when there are no parameters, otherwise `?` and
/// the parameters joined by `&`.
pub open spec fn query_of(params: Seq<Seq<char>>) -> Seq<char> {
    if params.len() == 0 {
        seq![]
    } else {
        seq!['?'] + join_params(params)
    }
}

/// The query parameters of a note listing, in this order: `pageSize` when it is
/// positive, `pageToken` and `filter` when they are not empty; the text values
/// percent-encoded.
pub open spec fn list_params(
    filter: Seq<char>,
    page_size: u32,
    page_token: Seq<char>,
) -> Seq<Seq<char>> {
    (if page_size > 0 {
        seq!["pageSize="@ + decimal(page_size as nat)]
    } else {
        seq![]
    }) + (if page_token.len() > 0 {
        seq!["pageToken="@ + encoded(page_token)]
    } else {
        seq![]
    }) + (if filter.len() > 0 {
        seq!["filter="@ + encoded(filter)]
    } else {
        seq![]
    })
}

/// The URL of a note listing.
pub open spec fn list_notes_url_of(
    base: Seq<char>,
    filter: Seq<char>,
    page_size: u32,
    page_token: Seq<char>,
) -> Seq<char> {
    notes_url_of(base) + query_of(list_params(filter, page_size, page_token))
}

/// The URL of a note update: the note's URL, with `?updateMask=` and the encoded
/// mask when a mask is given.
pub open spec fn update_note_url_of(base: Seq<char>, id: Seq<char>, mask: Seq<char>) -> Seq<char> {
    note_url_of(base, id) + if mask.len() > 0 {
        "?updateMask="@ + encoded(mask)
    } else {
        seq![]
    }
}

/// The field path that a checklist update replaces.
pub open spec fn list_items_mask() -> Seq<char> {
    "body.list.listItems"@
}

/// The message of a response whose status is not a success.
pub open spec fn api_error_message(status: u16, body: Seq<u8>) -> Seq<char> {
    "API error ("@ + decimal(status as nat) + "): "@ + lossy_utf8(body)
}

/// Whether a status is a success (200 to 299).
pub open spec fn is_success(status: u16) -> bool {
    200 <= status < 300
}

/// `{base}/notes`.
pub fn notes_url(base: &str) -> (url: String)
    ensures
        url@ == notes_url_of(base@),
{
    let mut url = String::from_str(base);
    url.append("/notes");
    url
}

/// `{base}/notes/{id}`.
pub fn note_url(base: &str, id: &str) -> (url: String)
    ensures
        url@ == note_url_of(base@, id@),
{
    let mut url = String::from_str(base);
    url.append("/notes/");
    url.append(id);
    url
}

fn list_params_vec(filter: &str, page_size: u32, page_token: &str) -> (params: Vec<String>)
    ensures
        params@.map_values(|p: String| p@) == list_params(filter@, page_size, page_token@),
{
    let mut params: Vec<String> = Vec::new();
    if page_size > 0 {
        let mut p = String::from_str("pageSize=");
        push_decimal(&mut p, page_size);
        params.push(p);
    }
    if !page_token.is_empty() {
        let mut p = String::from_str("pageToken=");
        let e = url_encode(page_token);
        p.append(e.as_str());
        params.push(p);
    }
    if !filter.is_empty() {
        let mut p = String::from_str("filter=");
        let e = url_encode(filter);
        p.append(e.as_str());
        params.push(p);
    }
    assert(params@.map_values(|p: String| p@) =~= list_params(filter@, page_size, page_token@));
    params
}

fn append_query(url: &mut String, params: &Vec<String>)
    ensures
        final(url)@ == old(url)@ + query_of(params@.map_values(|p: String| p@)),
{
    let ghost start = url@;
    let ghost ps = params@.map_values(|p: String| p@);
    let n = params.len();
    for i in 0..n
        invariant
            n == params@.len(),
            ps == params@.map_values(|p: String| p@),
            url@ == start + query_of(ps.take(i as int)),
    {
        let ghost before = url@;
        if i == 0 {
            push_char(url, '?');
        } else {
            push_char(url, '&');
        }
        url.append(params[i].as_str());
        proof {
            let t = ps.take(i + 1);
            assert(t.drop_last() =~= ps.take(i as int));
            assert(t.last() == params@[i as int]@);
            if i == 0 {
                assert(url@ =~= start + query_of(t));
            } else {
                assert(url@ =~= start + query_of(t));
            }
        }
    }
    assert(ps.take(n as int) =~= ps);
}

/// The URL of one page of the note listing: `{base}/notes`, then the parameters that
/// are set (`pageSize` when positive, `pageToken` and `filter` when not empty),
/// percent-encoded, after `?` and joined by `&`.
pub fn list_notes_url(base: &str, filter: &str, page_size: u32, page_token: &str) -> (url: String)
    ensures
        url@ == list_notes_url_of(base@, filter@, page_size, page_token@),
{
    let mut url = notes_url(base);
    let params = list_params_vec(filter, page_size, page_token);
    append_query(&mut url, &params);
    url
}

/// The URL of a note update: the note's URL, followed by `?updateMask=` and the
/// percent-encoded mask when the mask is not empty.
pub fn update_note_url(base: &str, id: &str, update_mask: &str) -> (url: String)
    ensures
        url@ == update_note_url_of(base@, id@, update_mask@),
{
    let mut url = note_url(base, id);
    if !update_mask.is_empty() {
        url.append("?updateMask=");
        let e = url_encode(update_mask);
        url.append(e.as_str());
    }
    url
}

/// The request that lists notes (`list-notes`).
pub fn list_notes_request(
    base: &str,
    token: &str,
    filter: &str,
    page_size: u32,
    page_token: &str,
) -> (r: Request)
    ensures
        request_is(
            r,
            Method::Get,
            list_notes_url_of(base@, filter@, page_size, page_token@),
            auth_headers(token@),
            None,
        ),
{
    let url = list_notes_url(base, filter, page_size, page_token);
    auth_get(url.as_str(), token)
}

/// The request that fetches a note (`get-note`); the note ID is validated first.
pub fn get_note_request(base: &str, token: &str, note_id: &str) -> (res: Result<Request, String>)
    ensures
        match res {
            Ok(r) => accepted_note_id(note_id@) matches Some(id) && request_is(
                r,
                Method::Get,
                note_url_of(base@, id),
                auth_headers(token@),
                None,
            ),
            Err(e) => accepted_note_id(note_id@) is None && e@ == invalid_id_message(note_id@),
        },
{
    let id = validate_note_id(note_id)?;
    let url = note_url(base, id);
    Ok(auth_get(url.as_str(), token))
}

/// The request that deletes a note (`delete-note`); the note ID is validated first.
pub fn delete_note_request(base: &str, token: &str, note_id: &str) -> (res: Result<Request, String>)
    ensures
        match res {
            Ok(r) => accepted_note_id(note_id@) matches Some(id) && request_is(
                r,
                Method::Delete,
                note_url_of(base@, id),
                auth_headers(token@),
                None,
            ),
            Err(e) => accepted_note_id(note_id@) is None && e@ == invalid_id_message(note_id@),
        },
{
    let id = validate_note_id(note_id)?;
    let url = note_url(base, id);
    Ok(auth_delete(url.as_str(), token))
}

/// The request that creates a note from its JSON text (`create-text-note`,
/// `create-list-note`).
pub fn create_note_request(base: &str, token: &str, note_json: &str) -> (r: Request)
    ensures
        request_is(r, Method::Post, notes_url_of(base@), json_headers(token@), Some(note_json@)),
{
    let url = notes_url(base);
    auth_post(url.as_str(), token, note_json)
}

/// The request that updates a note with the given JSON content and field mask
/// (`update-note`); the note ID is validated first.
pub fn update_note_request(
    base: &str,
    token: &str,
    note_id: &str,
    content_json: &str,
    update_mask: &str,
) -> (res: Result<Request, String>)
    ensures
        match res {
            Ok(r) => accepted_note_id(note_id@) matches Some(id) && request_is(
                r,
                Method::Patch,
                update_note_url_of(base@, id, update_mask@),
                json_headers(token@),
                Some(content_json@),
            ),
            Err(e) => accepted_note_id(note_id@) is None && e@ == invalid_id_message(note_id@),
        },
{
    let id = validate_note_id(note_id)?;
    let url = update_note_url(base, id, update_mask);
    Ok(auth_patch(url.as_str(), token, content_json))
}

/// Accepts a response with a success status (200 to 299); any other status is
/// refused with `API error ({status}): {body}`, the body decoded as UTF-8 with
/// invalid sequences replaced.
pub fn check(status: u16, body: &[u8]) -> (res: Result<(), String>)
    ensures
        res is Ok <==> is_success(status),
        res matches Err(e) ==> e@ == api_error_message(status, body@),
{
    if 200 <= status && status < 300 {
        return Ok(());
    }
    let mut e = String::from_str("API error (");
    push_decimal(&mut e, status as u32);
    e.append("): ");
    let b = utf8_lossy(body);
    e.append(b.as_str());
    Err(e)
}

/// The text of a response body: its bytes decoded as UTF-8, invalid sequences replaced.
pub fn body_string(body: &[u8]) -> (s: String)
    ensures
        s@ == lossy_utf8(body@),
        valid_utf8(body@) ==> s@ == decode_utf8(body@),
{
    utf8_lossy(body)
}

/// What a tool answers once the API has responded: the body's text on a success
/// status, the `API error` message otherwise.
pub fn response_text(status: u16, body: &[u8]) -> (res: Result<String, String>)
    ensures
        match res {
            Ok(s) => is_success(status) && s@ == lossy_utf8(body@),
            Err(e) => !is_success(status) && e@ == api_error_message(status, body@),
        },
{
    check(status, body)?;
    Ok(body_string(body))
}

/// A note with a title and a text body, and no other field.
pub fn text_note(title: String, body: String) -> (n: Note)
    ensures
        n == (Note {
            title: Some(title),
            body: Some(Section { text: Some(TextContent { text: Some(body) }), list: None }),
            ..Note::spec_empty()
        }),
{
    Note {
        title: Some(title),
        body: Some(Section { text: Some(TextContent { text: Some(body) }), list: None }),
        ..Note::default()
    }
}

/// A checklist note with a title and the given items, and no other field.
pub fn list_note(title: String, items: Vec<ListItem>) -> (n: Note)
    ensures
        n == (Note {
            title: Some(title),
            body: Some(
                Section {
                    text: None,
                    list: Some(ListContent { list_items: Some(items) }),
                },
            ),
            ..Note::spec_empty()
        }),
{
    Note {
        title: Some(title),
        body: Some(Section { text: None, list: Some(ListContent { list_items: Some(items) }) }),
        ..Note::default()
    }
}

/// The message of checklist items that could not be read from their JSON text.
pub open spec fn invalid_items_message(reason: Seq<char>) -> Seq<char> {
    "Invalid items JSON: "@ + reason
}

/// The note that `create-list-note` creates from the items read out of its JSON
/// argument: the checklist note when they could be read, otherwise the message
/// `Invalid items JSON: {reason}`.
pub fn list_note_from_items(
    title: String,
    items: Result<Vec<ListItem>, String>,
) -> (res: Result<Note, String>)
    ensures
        match items {
            Ok(v) => res == Ok::<Note, String>(
                Note {
                    title: Some(title),
                    body: Some(
                        Section { text: None, list: Some(ListContent { list_items: Some(v) }) },
                    ),
                    ..Note::spec_empty()
                },
            ),
            Err(reason) => res matches Err(e) && e@ == invalid_items_message(reason@),
        },
{
    match items {
        Ok(v) => Ok(list_note(title, v)),
        Err(reason) => {
            let mut e = String::from_str("Invalid items JSON: ");
            e.append(reason.as_str());
            Err(e)
        },
    }
}

/// A checklist item with the given text and checked state, and no nested items.
pub open spec fn list_item_of(text: String, checked: bool) -> ListItem {
    ListItem {
        text: Some(TextContent { text: Some(text) }),
        checked: Some(checked),
        child_list_items: None,
    }
}

/// A checklist item with the given text and checked state, and no nested items.
pub fn new_list_item(text: String, checked: bool) -> (item: ListItem)
    ensures
        item == list_item_of(text, checked),
{
    ListItem {
        text: Some(TextContent { text: Some(text) }),
        checked: Some(checked),
        child_list_items: None,
    }
}

/// The items of a checklist once `item` is added: `item` first, then the existing
/// items in their order.
pub open spec fn items_with_first(existing: Option<Vec<ListItem>>, item: ListItem) -> Seq<ListItem> {
    match existing {
        Some(v) => seq![item] + v@,
        None => seq![item],
    }
}

/// Whether a note is a checklist: it has a body with a list.
pub open spec fn is_list_note(note: Note) -> bool {
    note.body matches Some(b) && b.list is Some
}

/// The message of an item added to a note that is not a checklist.
pub open spec fn not_a_list_message() -> Seq<char> {
    "Note is not a list"@
}

/// Whether `patch` is the update that adds `item` to the checklist `note`: it holds
/// only a body, which keeps the note's text, if any, and whose list has `item` first
/// and then the note's existing items in order.
pub open spec fn is_list_items_patch(patch: Note, note: Note, item: ListItem) -> bool {
    &&& patch == (Note { body: patch.body, ..Note::spec_empty() })
    &&& patch.body matches Some(b)
    &&& b.text == note.body->0.text
    &&& b.list matches Some(l)
    &&& l.list_items matches Some(items)
    &&& items@ == items_with_first(note.body->0.list->0.list_items, item)
}

/// The update that adds an item to a checklist note (`add-list-item`): a note that
/// holds only the body, whose list has the new item first and then the existing
/// items in order; the body's text, if any, is kept. A note without a list is
/// refused with `Note is not a list`.
pub fn add_list_item_patch(note: Note, text: String, checked: bool) -> (res: Result<Note, String>)
    ensures
        match res {
            Ok(patch) => is_list_note(note) && is_list_items_patch(
                patch,
                note,
                list_item_of(text, checked),
            ),
            Err(e) => !is_list_note(note) && e@ == not_a_list_message(),
        },
{
    let ghost old_note = note;
    let body = match note.body {
        Some(b) => b,
        None => {
            return Err(String::from_str("Note is not a list"));
        },
    };
    let section_text = body.text;
    let list = match body.list {
        Some(l) => l,
        None => {
            return Err(String::from_str("Note is not a list"));
        },
    };
    let item = new_list_item(text, checked);
    let items = match list.list_items {
        Some(mut items) => {
            items.insert(0, item);
            items
        },
        None => {
            let mut items: Vec<ListItem> = Vec::new();
            items.push(item);
            items
        },
    };
    assert(items@ =~= items_with_first(old_note.body->0.list->0.list_items, list_item_of(text, checked)));
    Ok(
        Note {
            body: Some(
                Section { text: section_text, list: Some(ListContent { list_items: Some(items) }) },
            ),
            ..Note::default()
        },
    )
}

/// Adding an item to a checklist keeps every existing item: the new item comes
/// first and the former items follow in their order, one place further on.
pub proof fn lemma_items_with_first(existing: Option<Vec<ListItem>>, item: ListItem)
    ensures
        items_with_first(existing, item).len() == 1 + match existing {
            Some(v) => v@.len(),
            None => 0,
        },
        items_with_first(existing, item)[0] == item,
        existing matches Some(v) ==> forall|i: int|
            0 <= i < v@.len() ==> items_with_first(existing, item)[i + 1] == #[trigger] v@[i],
{
}

/// A listing with no filter, no page size and no page token asks for `{base}/notes`
/// with no query.
pub proof fn lemma_list_notes_url_default(base: Seq<char>)
    ensures
        list_notes_url_of(base, seq![], 0, seq![]) == notes_url_of(base),
{
    assert(list_params(seq![], 0, seq![]) =~= Seq::<Seq<char>>::empty());
    assert(notes_url_of(base) + seq![] =~= notes_url_of(base));
}

/// A listing URL has a query exactly when one of its parameters is set.
pub proof fn lemma_list_notes_url_query(
    base: Seq<char>,
    filter: Seq<char>,
    page_size: u32,
    page_token: Seq<char>,
)
    ensures
        (list_params(filter, page_size, page_token).len() > 0) <==> (page_size > 0
            || page_token.len() > 0 || filter.len() > 0),
        list_params(filter, page_size, page_token).len() > 0 ==> list_notes_url_of(
            base,
            filter,
            page_size,
            page_token,
        ) == notes_url_of(base) + seq!['?'] + join_params(list_params(filter, page_size, page_token)),
{
    let ps = list_params(filter, page_size, page_token);
    if ps.len() > 0 {
        assert(notes_url_of(base) + (seq!['?'] + join_params(ps)) =~= notes_url_of(base) + seq!['?']
            + join_params(ps));
    }
}

/// A note's URL is the base, then `/notes/`, then the ID character for character:
/// no character of the ID is changed, dropped or added.
pub proof fn lemma_note_url_keeps_id(base: Seq<char>, id: Seq<char>)
    ensures
        note_url_of(base, id).len() == base.len() + "/notes/"@.len() + id.len(),
        note_url_of(base, id).take((base.len() + "/notes/"@.len()) as int) == base + "/notes/"@,
        forall|i: int|
            0 <= i < id.len() ==> note_url_of(base, id)[base.len() + "/notes/"@.len() + i]
                == #[trigger] id[i],
        update_note_url_of(base, id, seq![]) == note_url_of(base, id),
        forall|mask: Seq<char>|
            #![trigger update_note_url_of(base, id, mask)]
            update_note_url_of(base, id, mask).take(note_url_of(base, id).len() as int) == note_url_of(
                base,
                id,
            ),
{
    let u = note_url_of(base, id);
    assert(u.take((base.len() + "/notes/"@.len()) as int) =~= base + "/notes/"@);
    assert(u + seq![] =~= u);
    assert forall|mask: Seq<char>| #![trigger update_note_url_of(base, id, mask)]
        update_note_url_of(base, id, mask).take(u.len() as int) == u by {
        assert(update_note_url_of(base, id, mask).take(u.len() as int) =~= u);
    }
}

/// Whether `part` stands in `whole` as a contiguous run of characters.
pub open spec fn occurs_in(part: Seq<char>, whole: Seq<char>) -> bool {
    exists|k: int| 0 <= k && k + part.len() <= whole.len() && #[trigger] whole.subrange(k, k + part.len()) == part
}

/// A run found at a given position stands in the whole.
proof fn lemma_occurs_at(part: Seq<char>, whole: Seq<char>, k: int)
    requires
        0 <= k,
        k + part.len() <= whole.len(),
        whole.subrange(k, k + part.len()) == part,
    ensures
        occurs_in(part, whole),
{
}

/// Every parameter stands in the parameters joined by `&`.
pub proof fn lemma_join_params_holds_each(params: Seq<Seq<char>>, i: int)
    requires
        0 <= i < params.len(),
    ensures
        occurs_in(params[i], join_params(params)),
    decreases params.len(),
{
    let j = join_params(params);
    let p = params[i];
    if params.len() == 1 {
        assert(j.subrange(0, p.len() as int) =~= p);
        lemma_occurs_at(p, j, 0);
    } else if i == params.len() - 1 {
        let front = join_params(params.drop_last()) + seq!['&'];
        let k = front.len() as int;
        assert(j.subrange(k, k + p.len()) =~= p);
        lemma_occurs_at(p, j, k);
    } else {
        lemma_join_params_holds_each(params.drop_last(), i);
        let inner = join_params(params.drop_last());
        assert(params.drop_last()[i] == p);
        let k = choose|k: int|
            0 <= k && k + p.len() <= inner.len() && #[trigger] inner.subrange(k, k + p.len()) == p;
        assert(j.subrange(k, k + p.len()) =~= inner.subrange(k, k + p.len()));
        lemma_occurs_at(p, j, k);
    }
}

/// Every listing parameter stands in the listing URL.
proof fn lemma_list_param_in_url(
    base: Seq<char>,
    filter: Seq<char>,
    page_size: u32,
    page_token: Seq<char>,
    i: int,
)
    requires
        0 <= i < list_params(filter, page_size, page_token).len(),
    ensures
        occurs_in(
            list_params(filter, page_size, page_token)[i],
            list_notes_url_of(base, filter, page_size, page_token),
        ),
{
    let ps = list_params(filter, page_size, page_token);
    let url = list_notes_url_of(base, filter, page_size, page_token);
    let head = notes_url_of(base) + seq!['?'];
    let j = join_params(ps);
    assert(url =~= head + j);
    lemma_join_params_holds_each(ps, i);
    let p = ps[i];
    let k = choose|k: int| 0 <= k && k + p.len() <= j.len() && #[trigger] j.subrange(k, k + p.len()) == p;
    let k2 = head.len() + k;
    assert(url.subrange(k2, k2 + p.len()) =~= j.subrange(k, k + p.len()));
    lemma_occurs_at(p, url, k2);
}

/// A note listing passes on every setting it is given, whatever the others are: the
/// page size when it is positive, the page token and the filter when they are not
/// empty, each as its own `name=value` parameter in the URL's query.
pub proof fn lemma_list_notes_url_carries_settings(
    base: Seq<char>,
    filter: Seq<char>,
    page_size: u32,
    page_token: Seq<char>,
)
    ensures
        page_size > 0 ==> occurs_in(
            "pageSize="@ + decimal(page_size as nat),
            list_notes_url_of(base, filter, page_size, page_token),
        ),
        page_token.len() > 0 ==> occurs_in(
            "pageToken="@ + encoded(page_token),
            list_notes_url_of(base, filter, page_size, page_token),
        ),
        filter.len() > 0 ==> occurs_in(
            "filter="@ + encoded(filter),
            list_notes_url_of(base, filter, page_size, page_token),
        ),
{
    let ps = list_params(filter, page_size, page_token);
    if page_size > 0 {
        assert(ps[0] == "pageSize="@ + decimal(page_size as nat));
        lemma_list_param_in_url(base, filter, page_size, page_token, 0);
    }
    if page_token.len() > 0 {
        let i: int = if page_size > 0 {
            1
        } else {
            0
        };
        assert(ps[i] == "pageToken="@ + encoded(page_token));
        lemma_list_param_in_url(base, filter, page_size, page_token, i);
    }
    if filter.len() > 0 {
        let i: int = ps.len() - 1;
        assert(ps[i] == "filter="@ + encoded(filter));
        lemma_list_param_in_url(base, filter, page_size, page_token, i);
    }
}

/// A response is accepted exactly when its status lies in 200..=299; any other
/// status (a redirect, 403, 404, a server error) is refused, and the refusal names
/// the status in decimal after `API error (`.
pub proof fn lemma_only_2xx_accepted(status: u16, body: Seq<u8>)
    ensures
        is_success(status) <==> (200 <= status && status <= 299),
        status < 200 || status > 299 ==> !is_success(status),
        api_error_message(status, body).take(("API error ("@.len() + decimal(status as nat).len()) as int) == "API error ("@ + decimal(status as nat),
{
    assert(api_error_message(status, body).take(("API error ("@.len() + decimal(status as nat).len()) as int) =~= "API error ("@ + decimal(status as nat));
}

/// The checklist update holds exactly one item more than the note's list: the new
/// item first, then every existing item in its order.
pub proof fn lemma_patch_keeps_every_item(patch: Note, note: Note, item: ListItem)
    requires
        is_list_note(note),
        is_list_items_patch(patch, note, item),
    ensures
        ({
            let old_items = match note.body->0.list->0.list_items {
                Some(v) => v@,
                None => Seq::<ListItem>::empty(),
            };
            let new_items = patch.body->0.list->0.list_items->0@;
            &&& new_items.len() == old_items.len() + 1
            &&& new_items[0] == item
            &&& forall|i: int| 0 <= i < old_items.len() ==> new_items[i + 1] == #[trigger] old_items[i]
        }),
{
}

} // verus!
