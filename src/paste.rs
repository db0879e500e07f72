use vstd::prelude::*;

use crate::category::{
    is_ascii_lower, lower_of, name_of, parse_outcome, parse_spec, PasteCategory, UnknownCategory,
};

verus! {

/// One stored paste.
#[derive(Debug, PartialEq, Clone)]
pub struct Paste {
    /// Client-chosen identifier, unique across the store.
    pub id: String,
    pub category: PasteCategory,
    /// The content itself, text or arbitrary bytes.
    pub contents: Vec<u8>,
    /// Creation time as an RFC 3339 string, stamped by the caller at write time.
    pub date: String,
    /// Requested lifetime in seconds; stored, never enforced.
    pub duration: u32,
}

impl View for Paste {
    type V = (Seq<char>, PasteCategory, Seq<u8>, Seq<char>, u32);

    open spec fn view(&self) -> Self::V {
        (self.id@, self.category, self.contents@, self.date@, self.duration)
    }
}

/// The metadata a client sends with a new paste.
#[derive(Debug, Clone)]
pub struct PasteSettings {
    pub id: String,
    /// The category's name, in any case.
    pub category: String,
    /// How long until the paste expires, in seconds.
    pub duration: u32,
}

/// A request for one paste.
#[derive(Debug, Clone)]
pub struct PasteQuery {
    /// The identifier of the paste.
    pub paste: String,
}

/// A paste as the store's columns hold it.
#[derive(Debug, Clone)]
pub struct PasteRow {
    pub id: String,
    /// Canonical category name.
    pub category: String,
    pub contents: Vec<u8>,
    pub date: String,
    pub duration: i64,
}

/// Why a stored row does not describe a paste.
#[derive(Debug, Clone)]
pub enum RowError {
    /// The category column names no category.
    Category(UnknownCategory),
    /// The duration column does not fit in a `u32`.
    Duration(i64),
}

/// The row that stores `p`.
pub open spec fn is_row_of(row: PasteRow, p: Paste) -> bool {
    &&& row.id@ == p.id@
    &&& row.category@ == name_of(p.category)
    &&& row.contents@ == p.contents@
    &&& row.date@ == p.date@
    &&& row.duration == p.duration as i64
}

/// What reading `row` back yields.
pub open spec fn decoded(row: PasteRow, r: Result<Paste, RowError>) -> bool {
    match r {
        Ok(p) => {
            &&& parse_outcome(row.category@, Ok(p.category))
            &&& 0 <= row.duration <= u32::MAX
            &&& p.id@ == row.id@
            &&& p.contents@ == row.contents@
            &&& p.date@ == row.date@
            &&& p.duration as i64 == row.duration
        },
        Err(RowError::Category(e)) => parse_outcome(row.category@, Err(e)),
        Err(RowError::Duration(d)) => {
            &&& parse_spec(row.category@) is Some
            &&& (is_ascii_lower(row.category@) ==> lower_of(row.category@) == row.category@)
            &&& d == row.duration
            &&& !(0 <= d <= u32::MAX)
        },
    }
}

impl Paste {
    /// Builds a paste from client settings, its contents and the write time;
    /// fails when the settings name no category.
    pub fn from_settings(settings: PasteSettings, contents: Vec<u8>, date: String) -> (r: Result<
        Paste,
        UnknownCategory,
    >)
        ensures
            match r {
                Ok(p) => {
                    &&& parse_outcome(settings.category@, Ok(p.category))
                    &&& p@ == (settings.id@, p.category, contents@, date@, settings.duration)
                },
                Err(e) => parse_outcome(settings.category@, Err(e)),
            },
    {
        match PasteCategory::try_from(settings.category) {
            Ok(category) => Ok(
                Paste { id: settings.id, category, contents, date, duration: settings.duration },
            ),
            Err(e) => Err(e),
        }
    }

    /// The row that stores this paste.
    pub fn into_row(self) -> (row: PasteRow)
        ensures
            is_row_of(row, self),
    {
        PasteRow {
            id: self.id,
            category: self.category.into(),
            contents: self.contents,
            date: self.date,
            duration: self.duration as i64,
        }
    }

    /// Reads a paste back from a stored row.
    pub fn from_row(row: PasteRow) -> (r: Result<Paste, RowError>)
        ensures
            decoded(row, r),
    {
        let category = match PasteCategory::try_from(row.category) {
            Ok(c) => c,
            Err(e) => {
                return Err(RowError::Category(e));
            },
        };
        if row.duration < 0 || row.duration > u32::MAX as i64 {
            return Err(RowError::Duration(row.duration));
        }
        Ok(
            Paste {
                id: row.id,
                category,
                contents: row.contents,
                date: row.date,
                duration: row.duration as u32,
            },
        )
    }
}

/// A paste written as a row reads back as the same paste.
pub proof fn lemma_row_round_trip(p: Paste, row: PasteRow, r: Result<Paste, RowError>)
    requires
        is_row_of(row, p),
        decoded(row, r),
    ensures
        r matches Ok(q) && q@ == p@,
{
    reveal_strlit("markdown");
    reveal_strlit("plaintext");
    reveal_strlit("html");
    reveal_strlit("file");
    reveal_strlit("url");
    assert(is_ascii_lower(name_of(p.category)));
    match r {
        Ok(q) => {
            crate::category::lemma_category_round_trip(p.category, Ok(q.category));
        },
        Err(RowError::Category(e)) => {
            crate::category::lemma_category_round_trip(p.category, Err(e));
        },
        Err(RowError::Duration(d)) => {},
    }
}

} // verus!
