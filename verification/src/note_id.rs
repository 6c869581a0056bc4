//! Validation of the note IDs that callers pass in, with or without the
//! `notes/` resource prefix.
use vstd::prelude::*;
use vstd::string::*;

verus! {

/// Whether `char::is_alphanumeric` holds of a non-ASCII character (Unicode
/// Alphabetic or Numeric).
pub uninterp spec fn alphanumeric(c: char) -> bool;

/// ASCII letters and digits.
pub open spec fn is_ascii_alphanumeric(c: char) -> bool {
    ||| 'A' <= c <= 'Z'
    ||| 'a' <= c <= 'z'
    ||| '0' <= c <= '9'
}

/// `char::is_alphanumeric`.
/// Trusted: on ASCII characters it holds exactly of letters and digits (Unicode gives
/// no other ASCII character the Alphabetic or Numeric property); on other characters
/// the result is the named value `alphanumeric(c)`, and which of them qualify is left
/// unsaid.
#[verifier::external_body]
pub(crate) fn char_is_alphanumeric(c: char) -> (r: bool)
    ensures
        (c as u32) < 128 ==> r == is_ascii_alphanumeric(c),
        (c as u32) >= 128 ==> r == alphanumeric(c),
{
    c.is_alphanumeric()
}

/// The resource prefix of a note name.
pub open spec fn notes_prefix() -> Seq<char> {
    seq!['n', 'o', 't', 'e', 's', '/']
}

/// A note ID with one leading `notes/` removed, if it has one.
pub open spec fn strip_notes_prefix(s: Seq<char>) -> Seq<char> {
    if s.len() >= 6 && s.take(6) == notes_prefix() {
        s.skip(6)
    } else {
        s
    }
}

/// Characters allowed in a note ID: alphanumerics, `-` and `_`.
pub open spec fn is_id_char(c: char) -> bool {
    if (c as u32) < 128 {
        is_ascii_alphanumeric(c) || c == '-' || c == '_'
    } else {
        alphanumeric(c)
    }
}

/// A non-empty ID made only of allowed characters.
pub open spec fn is_valid_id(id: Seq<char>) -> bool {
    id.len() > 0 && forall|i: int| 0 <= i < id.len() ==> is_id_char(#[trigger] id[i])
}

/// The ID that a caller's note ID stands for, or `None` when it is refused.
pub open spec fn accepted_note_id(s: Seq<char>) -> Option<Seq<char>> {
    let id = strip_notes_prefix(s);
    if is_valid_id(id) {
        Some(id)
    } else {
        None
    }
}

/// The message of a refused note ID.
pub open spec fn invalid_id_message(note_id: Seq<char>) -> Seq<char> {
    "Invalid note ID: "@ + note_id
}

fn has_notes_prefix(s: &str, len: usize) -> (r: bool)
    requires
        len == s@.len(),
    ensures
        r == (s@.len() >= 6 && s@.take(6) == notes_prefix()),
{
    if len < 6 {
        return false;
    }
    let r = s.get_char(0) == 'n' && s.get_char(1) == 'o' && s.get_char(2) == 't' && s.get_char(3)
        == 'e' && s.get_char(4) == 's' && s.get_char(5) == '/';
    assert(r ==> s@.take(6) =~= notes_prefix());
    assert(s@.take(6) == notes_prefix() ==> s@.take(6)[0] == 'n' && s@.take(6)[1] == 'o'
        && s@.take(6)[2] == 't' && s@.take(6)[3] == 'e' && s@.take(6)[4] == 's' && s@.take(6)[5]
        == '/');
    r
}

/// Checks a note ID given with or without the `notes/` prefix, and returns the bare
/// ID: a non-empty run of alphanumerics, `-` and `_`. Anything else is refused with
/// the message `Invalid note ID: {note_id}`.
pub fn validate_note_id(note_id: &str) -> (res: Result<&str, String>)
    ensures
        match res {
            Ok(id) => accepted_note_id(note_id@) == Some(id@),
            Err(e) => accepted_note_id(note_id@) is None && e@ == invalid_id_message(note_id@),
        },
{
    let len = note_id.unicode_len();
    let id = if has_notes_prefix(note_id, len) {
        note_id.substring_char(6, len)
    } else {
        note_id.substring_char(0, len)
    };
    assert(note_id@.subrange(0, len as int) =~= note_id@);
    assert(id@ == strip_notes_prefix(note_id@));
    let mut ok = !id.is_empty();
    for c in it: id.chars()
        invariant
            it.seq() == id@,
            ok == (id@.len() > 0 && forall|j: int| 0 <= j < it.index() ==> is_id_char(#[trigger] id@[j])),
    {
        if !(char_is_alphanumeric(c) || c == '-' || c == '_') {
            ok = false;
        }
    }
    if ok {
        Ok(id)
    } else {
        let mut e = String::from_str("Invalid note ID: ");
        e.append(note_id);
        Err(e)
    }
}

/// The `notes/` prefix is optional: a valid ID is accepted as itself, and with the
/// prefix in front it is accepted as the same ID; a prefixed ID is accepted exactly
/// when what follows the prefix is valid.
pub proof fn lemma_prefix_optional(x: Seq<char>)
    ensures
        accepted_note_id(notes_prefix() + x) == (if is_valid_id(x) {
            Some(x)
        } else {
            None
        }),
        is_valid_id(x) ==> accepted_note_id(x) == Some(x),
{
    let p = notes_prefix() + x;
    assert(p.take(6) =~= notes_prefix());
    assert(p.skip(6) =~= x);
    if is_valid_id(x) && x.len() >= 6 && x.take(6) == notes_prefix() {
        assert(x.take(6)[5] == '/');
        assert(is_id_char(x[5]));
    }
}

/// Validation is idempotent: an accepted ID is accepted again as itself.
pub proof fn lemma_accepted_idempotent(s: Seq<char>, id: Seq<char>)
    requires
        accepted_note_id(s) == Some(id),
    ensures
        accepted_note_id(id) == Some(id),
{
    lemma_prefix_optional(id);
}

/// An accepted ID holds no ASCII character other than letters, digits, `-` and `_`,
/// so it cannot leave its path segment (`/`), start a query (`?`) or fragment (`#`),
/// or carry an escape (`%`).
pub proof fn lemma_accepted_path_safe(s: Seq<char>, id: Seq<char>)
    requires
        accepted_note_id(s) == Some(id),
    ensures
        id.len() > 0,
        forall|i: int|
            0 <= i < id.len() && (#[trigger] id[i] as u32) < 128 ==> is_ascii_alphanumeric(id[i])
                || id[i] == '-' || id[i] == '_',
{
}

/// The characters a note ID may hold, spelled out: ASCII letters and digits, `-`,
/// `_`, and non-ASCII characters that `char::is_alphanumeric` accepts.
pub open spec fn allowed_in_id(c: char) -> bool {
    ||| 'A' <= c <= 'Z'
    ||| 'a' <= c <= 'z'
    ||| '0' <= c <= '9'
    ||| c == '-'
    ||| c == '_'
    ||| (c as u32) >= 128 && alphanumeric(c)
}

/// Validation accepts exactly the non-empty runs of allowed characters: every such
/// ID, whatever its first character, is accepted as itself, with or without the
/// `notes/` prefix in front; and whatever is accepted is such a run.
pub proof fn lemma_accepts_every_well_formed_id(x: Seq<char>)
    ensures
        (x.len() > 0 && forall|i: int| 0 <= i < x.len() ==> allowed_in_id(#[trigger] x[i]))
            ==> accepted_note_id(x) == Some(x) && accepted_note_id(
            seq!['n', 'o', 't', 'e', 's', '/'] + x,
        ) == Some(x),
        accepted_note_id(x) matches Some(id) ==> id.len() > 0 && forall|i: int|
            0 <= i < id.len() ==> allowed_in_id(#[trigger] id[i]),
{
    assert(seq!['n', 'o', 't', 'e', 's', '/'] == notes_prefix());
    if x.len() > 0 && forall|i: int| 0 <= i < x.len() ==> allowed_in_id(#[trigger] x[i]) {
        assert forall|i: int| 0 <= i < x.len() implies is_id_char(#[trigger] x[i]) by {
            assert(allowed_in_id(x[i]));
        }
        assert(is_valid_id(x));
        lemma_prefix_optional(x);
    }
    if accepted_note_id(x) is Some {
        let id = accepted_note_id(x)->0;
        assert forall|i: int| 0 <= i < id.len() implies allowed_in_id(#[trigger] id[i]) by {
            assert(is_id_char(id[i]));
        }
    }
}

} // verus!
