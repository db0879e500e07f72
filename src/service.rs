use vstd::prelude::*;

use crate::category::{parse_outcome, UnknownCategory};
use crate::paste::{Paste, PasteSettings};
use crate::store::StoreError;

verus! {

/// Status sent when a paste was stored.
pub const STATUS_CREATED: u16 = 201;

/// Status sent with a paste that was found.
pub const STATUS_OK: u16 = 200;

/// Status sent for a request the client got wrong.
pub const STATUS_BAD_REQUEST: u16 = 400;

/// Status sent when no paste has the requested id.
pub const STATUS_NOT_FOUND: u16 = 404;

/// Status sent when the store failed.
pub const STATUS_INTERNAL_ERROR: u16 = 500;

/// The parts a new-paste form may hold.
#[derive(Clone, Copy, Debug, PartialEq, Eq, Structural)]
pub enum FormField {
    /// The paste's settings, as JSON.
    Settings,
    /// The paste's contents, as raw bytes.
    Contents,
}

/// The part of the form that `name` stands for.
pub open spec fn field_spec(name: Seq<char>) -> Option<FormField> {
    if name == "pasteSettings"@ {
        Some(FormField::Settings)
    } else if name == "contents"@ {
        Some(FormField::Contents)
    } else {
        None
    }
}

/// Why a new paste was not stored.
#[derive(Debug, Clone)]
pub enum PostError {
    /// The form held a part of this name, which it may not.
    UnknownField(String),
    /// The settings or the contents were missing, or the settings did not decode.
    MissingPart,
    /// The settings named no category.
    Category(UnknownCategory),
    /// The store refused or failed the write.
    Store(StoreError),
}

/// Tells which part of the form a field name stands for.
pub fn field_kind(name: &String) -> (r: Option<FormField>)
    ensures
        r == field_spec(name@),
{
    let settings = String::from_str("pasteSettings");
    let contents = String::from_str("contents");
    if *name == settings {
        Some(FormField::Settings)
    } else if *name == contents {
        Some(FormField::Contents)
    } else {
        None
    }
}

/// Builds the paste a form describes, stamped with `date`; the settings are
/// `None` when they were absent or did not decode.
pub fn paste_from_form(
    settings: Option<PasteSettings>,
    contents: Option<Vec<u8>>,
    date: String,
) -> (r: Result<Paste, PostError>)
    ensures
        match (settings, contents) {
            (Some(s), Some(c)) => match r {
                Ok(p) => {
                    &&& parse_outcome(s.category@, Ok(p.category))
                    &&& p@ == (s.id@, p.category, c@, date@, s.duration)
                },
                Err(PostError::Category(e)) => parse_outcome(s.category@, Err(e)),
                _ => false,
            },
            _ => r matches Err(PostError::MissingPart),
        },
{
    match (settings, contents) {
        (Some(s), Some(c)) => match Paste::from_settings(s, c, date) {
            Ok(p) => Ok(p),
            Err(e) => Err(PostError::Category(e)),
        },
        _ => Err(PostError::MissingPart),
    }
}

/// The status that answers a request to store a paste.
pub fn post_status(r: &Result<(), PostError>) -> (s: u16)
    ensures
        s == match r {
            Ok(()) => STATUS_CREATED,
            Err(PostError::Store(_)) => STATUS_INTERNAL_ERROR,
            Err(_) => STATUS_BAD_REQUEST,
        },
{
    match r {
        Ok(()) => STATUS_CREATED,
        Err(PostError::Store(_)) => STATUS_INTERNAL_ERROR,
        Err(_) => STATUS_BAD_REQUEST,
    }
}

/// The status that answers a request to read a paste.
pub fn get_status(r: &Result<Option<Paste>, StoreError>) -> (s: u16)
    ensures
        s == match r {
            Ok(Some(_)) => STATUS_OK,
            Ok(None) => STATUS_NOT_FOUND,
            Err(_) => STATUS_INTERNAL_ERROR,
        },
{
    match r {
        Ok(Some(_)) => STATUS_OK,
        Ok(None) => STATUS_NOT_FOUND,
        Err(_) => STATUS_INTERNAL_ERROR,
    }
}

} // verus!
