//! A Google Keep client component, as a verified library: the data model of
//! the Keep API, the encoding of request URLs, note-ID validation, request
//! construction and the checks applied to API responses.

pub mod types;
pub mod text;
pub mod note_id;
pub mod request;
pub mod api;
pub mod add_item;
