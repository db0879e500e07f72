use vstd::prelude::*;

use crate::paste::{decoded, Paste, PasteRow, RowError};

verus! {

/// Reads the row with a given id.
pub const SELECT_PASTE: &'static str = "SELECT * FROM pastes WHERE id = ?;";

/// Inserts one row, binding the five columns in order.
pub const INSERT_PASTE: &'static str = "INSERT INTO pastes VALUES (?, ?, ?, ?, ?);";

/// How the driver reported a statement that failed.
#[derive(Debug, Clone)]
pub struct DbFailure {
    /// The failure is a violation of a uniqueness constraint.
    pub unique_violation: bool,
    /// The driver's description of the failure.
    pub message: String,
}

/// Why a read or a write of the store failed.
#[derive(Debug, Clone)]
pub enum StoreError {
    /// A paste with this id is already stored; nothing was overwritten.
    DuplicateId(String),
    /// An insert reported this many changed rows instead of one.
    RowCount(u64),
    /// The driver or the store failed.
    Storage(String),
    /// A stored row does not describe a paste.
    CorruptRow(RowError),
}

/// Decides the result of inserting the paste with id `id`, given what the
/// driver reported: the number of rows changed, or a failure.
pub fn write_outcome(id: String, result: Result<u64, DbFailure>) -> (r: Result<(), StoreError>)
    ensures
        match result {
            Ok(n) => if n == 1 {
                r is Ok
            } else {
                r matches Err(StoreError::RowCount(m)) && m == n
            },
            Err(f) => if f.unique_violation {
                r matches Err(StoreError::DuplicateId(i)) && i@ == id@
            } else {
                r matches Err(StoreError::Storage(m)) && m@ == f.message@
            },
        },
{
    match result {
        Ok(n) => if n == 1 {
            Ok(())
        } else {
            Err(StoreError::RowCount(n))
        },
        Err(f) => if f.unique_violation {
            Err(StoreError::DuplicateId(id))
        } else {
            Err(StoreError::Storage(f.message))
        },
    }
}

/// Decides the result of reading one paste, given what the driver reported:
/// the row found, if any, or a failure. Absence is not an error.
pub fn read_outcome(result: Result<Option<PasteRow>, DbFailure>) -> (r: Result<
    Option<Paste>,
    StoreError,
>)
    ensures
        match result {
            Ok(None) => r matches Ok(None),
            Ok(Some(row)) => match r {
                Ok(Some(p)) => decoded(row, Ok(p)),
                Err(StoreError::CorruptRow(e)) => decoded(row, Err(e)),
                _ => false,
            },
            Err(f) => r matches Err(StoreError::Storage(m)) && m@ == f.message@,
        },
{
    match result {
        Ok(None) => Ok(None),
        Ok(Some(row)) => match Paste::from_row(row) {
            Ok(p) => Ok(Some(p)),
            Err(e) => Err(StoreError::CorruptRow(e)),
        },
        Err(f) => Err(StoreError::Storage(f.message)),
    }
}

/// A paste that was stored as its row reads back unchanged.
pub proof fn lemma_write_then_read(
    p: Paste,
    row: PasteRow,
    r: Result<Option<Paste>, StoreError>,
)
    requires
        crate::paste::is_row_of(row, p),
        match r {
            Ok(Some(q)) => decoded(row, Ok(q)),
            Err(StoreError::CorruptRow(e)) => decoded(row, Err(e)),
            _ => false,
        },
    ensures
        r matches Ok(Some(q)) && q@ == p@,
{
    match r {
        Ok(Some(q)) => crate::paste::lemma_row_round_trip(p, row, Ok(q)),
        Err(StoreError::CorruptRow(e)) => crate::paste::lemma_row_round_trip(p, row, Err(e)),
        _ => {},
    }
}

} // verus!
