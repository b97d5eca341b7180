//! How answers of the metadata store are read, and the remote procedures
//! through which counters change.

use vstd::prelude::*;
use vstd::string::*;

verus! {

/// Why a metadata-store operation failed.
#[derive(Clone, Copy, Debug, PartialEq, Eq, Structural)]
pub enum RepoError {
    /// No row where exactly one was expected.
    NotFound,
    /// The store answered with a failure status, or not at all.
    Upstream(Option<u16>),
    /// The store's answer could not be decoded.
    Undecodable,
}

/// A 2xx status.
pub open spec fn is_success(status: u16) -> bool {
    200 <= status <= 299
}

/// Status the store gives to a single-row query that matched no row.
pub const NO_SINGLE_ROW: u16 = 406;

/// Outcome of a single-row query from the store's status.
pub open spec fn single_row_result(status: u16) -> Result<(), RepoError> {
    if status == NO_SINGLE_ROW {
        Err(RepoError::NotFound)
    } else if is_success(status) {
        Ok(())
    } else {
        Err(RepoError::Upstream(Some(status)))
    }
}

/// Outcome of any other operation from the store's status.
pub open spec fn operation_result(status: u16) -> Result<(), RepoError> {
    if is_success(status) {
        Ok(())
    } else {
        Err(RepoError::Upstream(Some(status)))
    }
}

impl RepoError {
    /// Reads the status of a single-row query: 406 is a missing row, 2xx
    /// success, anything else a failure of the store.
    pub fn check_single(status: u16) -> (r: Result<(), RepoError>)
        ensures
            r == single_row_result(status),
    {
        if status == NO_SINGLE_ROW {
            Err(RepoError::NotFound)
        } else if 200 <= status && status <= 299 {
            Ok(())
        } else {
            Err(RepoError::Upstream(Some(status)))
        }
    }

    /// Reads the status of an insert, update, delete, list or procedure call.
    pub fn check(status: u16) -> (r: Result<(), RepoError>)
        ensures
            r == operation_result(status),
    {
        if 200 <= status && status <= 299 {
            Ok(())
        } else {
            Err(RepoError::Upstream(Some(status)))
        }
    }

    /// HTTP status of the answer: 404 for a missing row, 500 otherwise.
    pub fn status_code(&self) -> (r: u16)
        ensures
            *self == RepoError::NotFound ==> r == 404,
            *self != RepoError::NotFound ==> r == 500,
    {
        match self {
            RepoError::NotFound => 404,
            _ => 500,
        }
    }
}

/// A call of a remote procedure with one text argument.
pub struct ProcedureCall {
    pub name: String,
    pub argument: String,
    pub value: String,
}

/// Procedure that atomically adds one view to a record.
pub const VIEW_PROCEDURE: &'static str = "increment_views";

/// Procedure that atomically toggles the like of a record.
pub const LIKE_PROCEDURE: &'static str = "toggle_like";

/// Name of the argument that carries the record id.
pub const ID_ARGUMENT: &'static str = "video_id";

/// Counters are never written through an update: a read-modify-write would
/// lose concurrent increments. The store's procedure does the increment.
pub fn view_increment(id: &str) -> (r: ProcedureCall)
    ensures
        r.name@ == VIEW_PROCEDURE@,
        r.argument@ == ID_ARGUMENT@,
        r.value@ == id@,
{
    ProcedureCall {
        name: String::from_str(VIEW_PROCEDURE),
        argument: String::from_str(ID_ARGUMENT),
        value: String::from_str(id),
    }
}

/// The atomic like toggle of record `id`.
pub fn like_toggle(id: &str) -> (r: ProcedureCall)
    ensures
        r.name@ == LIKE_PROCEDURE@,
        r.argument@ == ID_ARGUMENT@,
        r.value@ == id@,
{
    ProcedureCall {
        name: String::from_str(LIKE_PROCEDURE),
        argument: String::from_str(ID_ARGUMENT),
        value: String::from_str(id),
    }
}

} // verus!
