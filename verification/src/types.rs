//! The Google Keep API data model.
use vstd::prelude::*;

verus! {

/// A note: its resource name (`notes/{id}`), title, body, timestamps and sharing data.
#[derive(Debug)]
pub struct Note {
    pub name: Option<String>,
    pub title: Option<String>,
    pub body: Option<Section>,
    pub create_time: Option<String>,
    pub update_time: Option<String>,
    pub trash_time: Option<String>,
    pub trashed: Option<bool>,
    pub attachments: Option<Vec<Attachment>>,
    pub permissions: Option<Vec<Permission>>,
}

/// The content of a note: either text or a checklist.
#[derive(Debug)]
pub struct Section {
    pub text: Option<TextContent>,
    pub list: Option<ListContent>,
}

/// A block of text.
#[derive(Debug, Clone)]
pub struct TextContent {
    pub text: Option<String>,
}

/// The items of a checklist.
#[derive(Debug)]
pub struct ListContent {
    pub list_items: Option<Vec<ListItem>>,
}

/// One checklist item, possibly with nested items.
#[derive(Debug)]
pub struct ListItem {
    pub text: Option<TextContent>,
    pub checked: Option<bool>,
    pub child_list_items: Option<Vec<ListItem>>,
}

/// An attachment of a note.
#[derive(Debug, Clone)]
pub struct Attachment {
    pub name: Option<String>,
    pub mime_type: Option<String>,
}

/// A permission granted on a note.
#[derive(Debug, Clone)]
pub struct Permission {
    pub name: Option<String>,
    pub role: Option<Role>,
    pub email: Option<String>,
    pub deleted: Option<bool>,
    pub user: Option<User>,
    pub group: Option<Group>,
    pub family: Option<Family>,
}

/// The role a permission grants.
#[derive(Debug, Clone, Copy, PartialEq, Eq)]
pub enum Role {
    RoleUnspecified,
    Owner,
    Writer,
}

/// A user that a permission names.
#[derive(Debug, Clone)]
pub struct User {
    pub email: Option<String>,
}

/// A group that a permission names.
#[derive(Debug, Clone)]
pub struct Group {
    pub email: Option<String>,
}

/// A family that a permission names.
#[derive(Debug, Clone)]
pub struct Family {}

/// One page of a note listing.
#[derive(Debug)]
pub struct ListNotesResponse {
    pub notes: Option<Vec<Note>>,
    pub next_page_token: Option<String>,
}

impl Note {
    /// A note with no field set.
    pub open spec fn spec_empty() -> Note {
        Note {
            name: None,
            title: None,
            body: None,
            create_time: None,
            update_time: None,
            trash_time: None,
            trashed: None,
            attachments: None,
            permissions: None,
        }
    }
}

impl Default for Note {
    fn default() -> (n: Note)
        ensures
            n == Note::spec_empty(),
    {
        Note {
            name: None,
            title: None,
            body: None,
            create_time: None,
            update_time: None,
            trash_time: None,
            trashed: None,
            attachments: None,
            permissions: None,
        }
    }
}

impl Default for Section {
    fn default() -> (s: Section)
        ensures
            s.text is None,
            s.list is None,
    {
        Section { text: None, list: None }
    }
}

} // verus!
