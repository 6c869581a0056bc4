use wassette_gkeep::add_item::{
    start_add_item, step_add_item, AddItemAction, AddItemEvent, AddItemState,
};
use wassette_gkeep::api::{
    add_list_item_patch, body_string, check, create_note_request, delete_note_request,
    get_note_request, list_note, list_note_from_items, list_notes_request, list_notes_url, new_list_item, note_url,
    notes_url, response_text, text_note, update_note_request, update_note_url, BASE_URL,
};
use wassette_gkeep::note_id::validate_note_id;
use wassette_gkeep::request::{auth_delete, auth_get, auth_patch, auth_post, Method, Request};
use wassette_gkeep::text::{push_decimal, url_encode};
use wassette_gkeep::types::{ListContent, ListItem, Note, Section, TextContent};

const BASE: &str = "http://127.0.0.1:8080/v1";

fn headers(r: &Request) -> Vec<(&str, &str)> {
    r.headers.iter().map(|(k, v)| (k.as_str(), v.as_str())).collect()
}

fn item_text(item: &ListItem) -> &str {
    item.text.as_ref().unwrap().text.as_ref().unwrap()
}

fn list_note_with(texts: &[&str]) -> Note {
    let items = texts.iter().map(|t| new_list_item(t.to_string(), false)).collect();
    list_note("Shopping".to_string(), items)
}

// ── url_encode ──────────────────────────────────────────────────────

#[test]
fn url_encode_keeps_unreserved() {
    assert_eq!(url_encode("AZaz09-_.~"), "AZaz09-_.~");
    assert_eq!(url_encode("body.list.listItems"), "body.list.listItems");
}

#[test]
fn url_encode_escapes_reserved_bytes() {
    assert_eq!(url_encode("a b&c=d"), "a%20b%26c%3Dd");
    assert_eq!(url_encode("/?#%"), "%2F%3F%23%25");
    assert_eq!(url_encode("trashed = false"), "trashed%20%3D%20false");
}

#[test]
fn url_encode_escapes_utf8_bytes_upper_case() {
    assert_eq!(url_encode("é"), "%C3%A9");
    assert_eq!(url_encode("日"), "%E6%97%A5");
    assert_eq!(url_encode("\u{7f}"), "%7F");
}

#[test]
fn url_encode_empty() {
    assert_eq!(url_encode(""), "");
}

#[test]
fn url_encode_distinct_inputs_differ() {
    assert_ne!(url_encode("a b"), url_encode("a+b"));
    assert_ne!(url_encode("%20"), url_encode(" "));
}

// ── decimal ─────────────────────────────────────────────────────────

#[test]
fn push_decimal_renders_numbers() {
    for (n, text) in [(0u32, "0"), (7, "7"), (10, "10"), (404, "404"), (u32::MAX, "4294967295")] {
        let mut s = String::from("n=");
        push_decimal(&mut s, n);
        assert_eq!(s, format!("n={}", text));
    }
}

// ── note IDs ────────────────────────────────────────────────────────

#[test]
fn validate_note_id_plain() {
    assert_eq!(validate_note_id("note42"), Ok("note42"));
    assert_eq!(validate_note_id("abc-DEF_123"), Ok("abc-DEF_123"));
}

#[test]
fn validate_note_id_strips_prefix() {
    assert_eq!(validate_note_id("notes/prefixed1"), Ok("prefixed1"));
    assert_eq!(
        validate_note_id("notes/prefixed1"),
        validate_note_id("prefixed1")
    );
}

#[test]
fn validate_note_id_is_idempotent() {
    let id = validate_note_id("notes/abc123").unwrap();
    assert_eq!(validate_note_id(id), Ok(id));
}

#[test]
fn validate_note_id_accepts_unicode_alphanumerics() {
    assert_eq!(validate_note_id("日本語"), Ok("日本語"));
}

#[test]
fn validate_note_id_refuses_bad_ids() {
    for bad in ["", "notes/", "a/b", "notes/notes/x", "a b", "x?y", "../etc", "id#1", "a%2F"] {
        assert_eq!(
            validate_note_id(bad),
            Err(format!("Invalid note ID: {}", bad)),
            "{bad}"
        );
    }
}

#[test]
fn validate_note_id_prefix_is_case_sensitive() {
    assert_eq!(
        validate_note_id("Notes/x"),
        Err("Invalid note ID: Notes/x".to_string())
    );
}

// ── URLs ────────────────────────────────────────────────────────────

#[test]
fn base_url_is_keep_api() {
    assert_eq!(BASE_URL, "https://keep.googleapis.com/v1");
}

#[test]
fn note_urls() {
    assert_eq!(notes_url(BASE_URL), "https://keep.googleapis.com/v1/notes");
    assert_eq!(note_url(BASE, "note42"), format!("{}/notes/note42", BASE));
}

#[test]
fn list_notes_url_without_parameters() {
    assert_eq!(list_notes_url(BASE_URL, "", 0, ""), "https://keep.googleapis.com/v1/notes");
}

#[test]
fn list_notes_url_with_all_parameters() {
    assert_eq!(
        list_notes_url(BASE_URL, "trashed = false", 25, "tok en"),
        "https://keep.googleapis.com/v1/notes?pageSize=25&pageToken=tok%20en&filter=trashed%20%3D%20false"
    );
}

#[test]
fn list_notes_url_with_some_parameters() {
    assert_eq!(list_notes_url(BASE, "", 5, ""), format!("{}/notes?pageSize=5", BASE));
    assert_eq!(list_notes_url(BASE, "", 0, "t&x=1"), format!("{}/notes?pageToken=t%26x%3D1", BASE));
    assert_eq!(list_notes_url(BASE, "f", 0, ""), format!("{}/notes?filter=f", BASE));
    assert_eq!(
        list_notes_url(BASE, "f", 0, "p"),
        format!("{}/notes?pageToken=p&filter=f", BASE)
    );
}

#[test]
fn update_note_url_with_and_without_mask() {
    assert_eq!(update_note_url(BASE, "n1", ""), format!("{}/notes/n1", BASE));
    assert_eq!(
        update_note_url(BASE, "n1", "title,body"),
        format!("{}/notes/n1?updateMask=title%2Cbody", BASE)
    );
}

// ── requests ────────────────────────────────────────────────────────

#[test]
fn auth_requests_carry_bearer_token() {
    let g = auth_get("https://x/y", "tok");
    assert_eq!(g.method, Method::Get);
    assert_eq!(g.uri, "https://x/y");
    assert_eq!(headers(&g), vec![("Authorization", "Bearer tok")]);
    assert_eq!(g.body, None);

    let d = auth_delete("https://x/y", "tok");
    assert_eq!(d.method, Method::Delete);
    assert_eq!(headers(&d), vec![("Authorization", "Bearer tok")]);
    assert_eq!(d.body, None);
}

#[test]
fn json_requests_carry_content_type_and_body() {
    for (r, m) in [
        (auth_post("https://x/y", "tok", "{\"a\":1}"), Method::Post),
        (auth_patch("https://x/y", "tok", "{\"a\":1}"), Method::Patch),
    ] {
        assert_eq!(r.method, m);
        assert_eq!(r.uri, "https://x/y");
        assert_eq!(
            headers(&r),
            vec![("Authorization", "Bearer tok"), ("Content-Type", "application/json")]
        );
        assert_eq!(r.body.as_deref(), Some("{\"a\":1}"));
    }
}

#[test]
fn list_notes_request_is_get_of_listing() {
    let r = list_notes_request(BASE, "test-token-12345", "", 0, "");
    assert_eq!(r.method, Method::Get);
    assert_eq!(r.uri, format!("{}/notes", BASE));
    assert_eq!(headers(&r), vec![("Authorization", "Bearer test-token-12345")]);
}

#[test]
fn get_note_request_with_and_without_prefix() {
    let plain = get_note_request(BASE, "t", "note42").unwrap();
    assert_eq!(plain.method, Method::Get);
    assert_eq!(plain.uri, format!("{}/notes/note42", BASE));
    let prefixed = get_note_request(BASE, "t", "notes/prefixed1").unwrap();
    assert_eq!(prefixed.uri, format!("{}/notes/prefixed1", BASE));
}

#[test]
fn requests_refuse_invalid_ids() {
    let msg = Err("Invalid note ID: a/b".to_string());
    assert_eq!(get_note_request(BASE, "t", "a/b").map(|r| r.uri), msg);
    assert_eq!(delete_note_request(BASE, "t", "a/b").map(|r| r.uri), msg);
    assert_eq!(update_note_request(BASE, "t", "a/b", "{}", "").map(|r| r.uri), msg);
}

#[test]
fn delete_note_request_is_delete() {
    let r = delete_note_request(BASE, "t", "todelete").unwrap();
    assert_eq!(r.method, Method::Delete);
    assert_eq!(r.uri, format!("{}/notes/todelete", BASE));
    assert_eq!(r.body, None);
}

#[test]
fn create_note_request_posts_json() {
    let r = create_note_request(BASE, "t", "{\"title\":\"New Note\"}");
    assert_eq!(r.method, Method::Post);
    assert_eq!(r.uri, format!("{}/notes", BASE));
    assert_eq!(r.body.as_deref(), Some("{\"title\":\"New Note\"}"));
}

#[test]
fn update_note_request_patches_with_mask() {
    let r = update_note_request(BASE, "t", "toupdate", "{\"title\":\"New Title\"}", "title").unwrap();
    assert_eq!(r.method, Method::Patch);
    assert_eq!(r.uri, format!("{}/notes/toupdate?updateMask=title", BASE));
    assert_eq!(r.body.as_deref(), Some("{\"title\":\"New Title\"}"));
}

// ── responses ───────────────────────────────────────────────────────

#[test]
fn check_accepts_success_statuses() {
    for status in [200u16, 201, 204, 299] {
        assert_eq!(check(status, b"x"), Ok(()));
    }
}

#[test]
fn check_refuses_other_statuses() {
    assert_eq!(check(404, b"not found"), Err("API error (404): not found".to_string()));
    assert_eq!(check(199, b""), Err("API error (199): ".to_string()));
    assert_eq!(check(300, b"{}"), Err("API error (300): {}".to_string()));
    assert_eq!(check(0, b"x"), Err("API error (0): x".to_string()));
    assert_eq!(check(503, &[0x66, 0xff, 0x6f]), Err("API error (503): f\u{fffd}o".to_string()));
}

#[test]
fn body_string_decodes_lossily() {
    assert_eq!(body_string("héllo".as_bytes()), "héllo");
    assert_eq!(body_string(&[0x61, 0xc3]), "a\u{fffd}");
    assert_eq!(body_string(b""), "");
}

#[test]
fn response_text_tail() {
    assert_eq!(response_text(200, b"{\"notes\":[]}"), Ok("{\"notes\":[]}".to_string()));
    assert_eq!(response_text(401, b"denied"), Err("API error (401): denied".to_string()));
}

// ── notes ───────────────────────────────────────────────────────────

#[test]
fn note_default_is_empty() {
    let n = Note::default();
    assert!(n.name.is_none() && n.title.is_none() && n.body.is_none());
    assert!(n.create_time.is_none() && n.update_time.is_none() && n.trash_time.is_none());
    assert!(n.trashed.is_none() && n.attachments.is_none() && n.permissions.is_none());
    let s = Section::default();
    assert!(s.text.is_none() && s.list.is_none());
}

#[test]
fn text_note_sets_title_and_text_only() {
    let n = text_note("My Note".to_string(), "Hello world".to_string());
    assert_eq!(n.title.as_deref(), Some("My Note"));
    let body = n.body.unwrap();
    assert_eq!(body.text.unwrap().text.as_deref(), Some("Hello world"));
    assert!(body.list.is_none());
    assert!(n.name.is_none() && n.create_time.is_none() && n.permissions.is_none());
}

#[test]
fn list_note_sets_title_and_items_only() {
    let items = vec![new_list_item("Item 1".to_string(), false), new_list_item("Item 2".to_string(), true)];
    let n = list_note("My Checklist".to_string(), items);
    assert_eq!(n.title.as_deref(), Some("My Checklist"));
    let body = n.body.unwrap();
    assert!(body.text.is_none());
    let items = body.list.unwrap().list_items.unwrap();
    assert_eq!(items.len(), 2);
    assert_eq!(item_text(&items[0]), "Item 1");
    assert_eq!(items[0].checked, Some(false));
    assert_eq!(item_text(&items[1]), "Item 2");
    assert_eq!(items[1].checked, Some(true));
    assert!(items[1].child_list_items.is_none());
}

#[test]
fn add_list_item_patch_prepends() {
    let note = list_note_with(&["Milk"]);
    let patch = add_list_item_patch(note, "Eggs".to_string(), false).unwrap();
    assert!(patch.title.is_none() && patch.name.is_none());
    let items = patch.body.unwrap().list.unwrap().list_items.unwrap();
    assert_eq!(items.len(), 2);
    assert_eq!(item_text(&items[0]), "Eggs");
    assert_eq!(items[0].checked, Some(false));
    assert_eq!(item_text(&items[1]), "Milk");
}

#[test]
fn add_list_item_patch_keeps_order_of_existing_items() {
    let note = list_note_with(&["a", "b", "c"]);
    let patch = add_list_item_patch(note, "z".to_string(), true).unwrap();
    let items = patch.body.unwrap().list.unwrap().list_items.unwrap();
    let texts: Vec<&str> = items.iter().map(item_text).collect();
    assert_eq!(texts, vec!["z", "a", "b", "c"]);
    assert_eq!(items[0].checked, Some(true));
}

#[test]
fn add_list_item_patch_starts_empty_list() {
    let note = Note {
        body: Some(Section { text: None, list: Some(ListContent { list_items: None }) }),
        ..Note::default()
    };
    let patch = add_list_item_patch(note, "first".to_string(), false).unwrap();
    let items = patch.body.unwrap().list.unwrap().list_items.unwrap();
    assert_eq!(items.len(), 1);
    assert_eq!(item_text(&items[0]), "first");
}

#[test]
fn add_list_item_patch_keeps_body_text() {
    let note = Note {
        title: Some("T".to_string()),
        body: Some(Section {
            text: Some(TextContent { text: Some("kept".to_string()) }),
            list: Some(ListContent { list_items: Some(vec![]) }),
        }),
        ..Note::default()
    };
    let patch = add_list_item_patch(note, "x".to_string(), false).unwrap();
    assert!(patch.title.is_none());
    let body = patch.body.unwrap();
    assert_eq!(body.text.unwrap().text.as_deref(), Some("kept"));
}

#[test]
fn add_list_item_patch_refuses_text_notes() {
    let note = text_note("T".to_string(), "body".to_string());
    assert_eq!(
        add_list_item_patch(note, "x".to_string(), false).map(|_| ()),
        Err("Note is not a list".to_string())
    );
    assert_eq!(
        add_list_item_patch(Note::default(), "x".to_string(), false).map(|_| ()),
        Err("Note is not a list".to_string())
    );
}

#[test]
fn url_encode_output_has_only_safe_characters() {
    let input = "q=a&b?c#d/e f%g+h;i,j:k@l\"m'n<o>p[q]r{s}t|u\\v^w`x é日";
    let out = url_encode(input);
    assert!(out
        .chars()
        .all(|c| c.is_ascii_alphanumeric() || "-_.~%".contains(c)));
    assert!(!out.contains('&') && !out.contains('=') && !out.contains('?') && !out.contains('#'));
}

// ── add-list-item runs ──────────────────────────────────────────────

fn sent(action: AddItemAction) -> Request {
    match action {
        AddItemAction::Send(r) => r,
        other => panic!("expected a request, got {:?}", other),
    }
}

fn answer(action: AddItemAction) -> Result<String, String> {
    match action {
        AddItemAction::Answer(a) => a,
        other => panic!("expected an answer, got {:?}", other),
    }
}

fn fetched(note_id: &str) -> AddItemState {
    let (state, action) = start_add_item(BASE, "t", note_id, "Eggs".to_string(), false);
    let req = sent(action);
    assert_eq!(req.method, Method::Get);
    state
}

fn read(note_id: &str) -> AddItemState {
    let (state, action) = step_add_item(
        fetched(note_id),
        AddItemEvent::Responded { status: 200, body: b"{...}".to_vec() },
    );
    assert!(matches!(action, AddItemAction::Parse(ref s) if s == "{...}"));
    state
}

#[test]
fn add_item_run_refuses_invalid_id() {
    let (state, action) = start_add_item(BASE, "t", "bad id", "x".to_string(), true);
    assert!(matches!(state, AddItemState::Finished));
    assert_eq!(answer(action), Err("Invalid note ID: bad id".to_string()));
}

#[test]
fn add_item_run_fetches_note_first() {
    let (state, action) = start_add_item(BASE, "tok", "notes/listid", "x".to_string(), true);
    let req = sent(action);
    assert_eq!(req.method, Method::Get);
    assert_eq!(req.uri, format!("{}/notes/listid", BASE));
    assert_eq!(headers(&req), vec![("Authorization", "Bearer tok")]);
    assert!(state.expects(&AddItemEvent::Responded { status: 200, body: vec![] }));
    assert!(!state.expects(&AddItemEvent::Parsed(Err(String::new()))));
}

#[test]
fn add_item_run_answers_fetch_error() {
    let (state, action) = step_add_item(
        fetched("listid"),
        AddItemEvent::Responded { status: 404, body: b"missing".to_vec() },
    );
    assert!(matches!(state, AddItemState::Finished));
    assert_eq!(answer(action), Err("API error (404): missing".to_string()));
}

#[test]
fn add_item_run_answers_parse_error() {
    let (state, action) =
        step_add_item(read("listid"), AddItemEvent::Parsed(Err("expected value".to_string())));
    assert!(matches!(state, AddItemState::Finished));
    assert_eq!(answer(action), Err("Failed to parse note: expected value".to_string()));
}

#[test]
fn add_item_run_refuses_text_note() {
    let note = text_note("T".to_string(), "b".to_string());
    let (state, action) = step_add_item(read("listid"), AddItemEvent::Parsed(Ok(note)));
    assert!(matches!(state, AddItemState::Finished));
    assert_eq!(answer(action), Err("Note is not a list".to_string()));
}

#[test]
fn add_item_run_full() {
    let (state, action) =
        step_add_item(read("listid"), AddItemEvent::Parsed(Ok(list_note_with(&["Milk"]))));
    let patch = match action {
        AddItemAction::Serialize(n) => n,
        other => panic!("expected a note to write, got {:?}", other),
    };
    let items = patch.body.unwrap().list.unwrap().list_items.unwrap();
    assert_eq!(items.iter().map(item_text).collect::<Vec<_>>(), vec!["Eggs", "Milk"]);

    let json = "{\"body\":{}}".to_string();
    let (state, action) = step_add_item(state, AddItemEvent::Serialized(Ok(json.clone())));
    let req = sent(action);
    assert_eq!(req.method, Method::Patch);
    assert_eq!(req.uri, format!("{}/notes/listid?updateMask=body.list.listItems", BASE));
    assert_eq!(
        headers(&req),
        vec![("Authorization", "Bearer t"), ("Content-Type", "application/json")]
    );
    assert_eq!(req.body, Some(json));

    let (state, action) =
        step_add_item(state, AddItemEvent::Responded { status: 200, body: b"{\"ok\":1}".to_vec() });
    assert!(matches!(state, AddItemState::Finished));
    assert_eq!(answer(action), Ok("{\"ok\":1}".to_string()));
}

#[test]
fn add_item_run_answers_write_error_and_patch_error() {
    let (state, _) =
        step_add_item(read("listid"), AddItemEvent::Parsed(Ok(list_note_with(&[]))));
    let (done, action) =
        step_add_item(state, AddItemEvent::Serialized(Err("cannot write".to_string())));
    assert!(matches!(done, AddItemState::Finished));
    assert_eq!(answer(action), Err("cannot write".to_string()));

    let (state, _) =
        step_add_item(read("listid"), AddItemEvent::Parsed(Ok(list_note_with(&["a"]))));
    let (state, _) = step_add_item(state, AddItemEvent::Serialized(Ok("{}".to_string())));
    let (done, action) =
        step_add_item(state, AddItemEvent::Responded { status: 500, body: b"boom".to_vec() });
    assert!(matches!(done, AddItemState::Finished));
    assert_eq!(answer(action), Err("API error (500): boom".to_string()));
}

#[test]
fn list_note_from_items_reports_unreadable_items() {
    let r = list_note_from_items("T".to_string(), Err("expected `[`".to_string()));
    assert_eq!(r.map(|_| ()), Err("Invalid items JSON: expected `[`".to_string()));
    let n = list_note_from_items("T".to_string(), Ok(vec![new_list_item("a".to_string(), true)]))
        .unwrap();
    assert_eq!(n.title.as_deref(), Some("T"));
    assert_eq!(n.body.unwrap().list.unwrap().list_items.unwrap().len(), 1);
}
