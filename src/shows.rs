//! Creation of shows: the genres a show may have and the reading of the
//! store's answer.

use vstd::prelude::*;

use crate::text::same_text;

verus! {

/// The genres a show may have.
pub open spec fn is_genre(g: Seq<char>) -> bool {
    g == "Revenge"@ || g == "Billionare"@ || g == "Asian"@ || g == "Romance"@
}

/// Why a show could not be created.
#[derive(Clone, Copy, Debug, PartialEq, Eq, Structural)]
pub enum ShowError {
    /// The genre is not one of the accepted ones (a client error).
    InvalidGenre,
    /// The store returned no row for the new show.
    NoShowReturned,
    /// The returned row has no textual id.
    MissingId,
}

impl ShowError {
    /// HTTP status of the answer: 400 for a bad genre, 500 otherwise.
    pub fn status_code(&self) -> (r: u16)
        ensures
            *self == ShowError::InvalidGenre ==> r == 400,
            *self != ShowError::InvalidGenre ==> r == 500,
    {
        match self {
            ShowError::InvalidGenre => 400,
            _ => 500,
        }
    }
}

/// Accepts the genres `Revenge`, `Billionare`, `Asian` and `Romance`.
pub fn check_genre(genre: &str) -> (r: Result<(), ShowError>)
    ensures
        r is Ok <==> is_genre(genre@),
        r matches Err(e) ==> e == ShowError::InvalidGenre,
{
    if same_text(genre, "Revenge") || same_text(genre, "Billionare") || same_text(genre, "Asian")
        || same_text(genre, "Romance") {
        Ok(())
    } else {
        Err(ShowError::InvalidGenre)
    }
}

/// The id of the created show, from the ids of the rows the store returned
/// (`None` for a row without a textual id): the first row's.
pub fn created_show_id(ids: Vec<Option<String>>) -> (r: Result<String, ShowError>)
    ensures
        ids.len() == 0 ==> r == Err::<String, ShowError>(ShowError::NoShowReturned),
        ids.len() > 0 && ids[0] is None ==> r == Err::<String, ShowError>(ShowError::MissingId),
        ids.len() > 0 && ids[0] is Some ==> (r matches Ok(id) && Some(id@) == ids[0].deep_view()),
{
    let mut ids = ids;
    if ids.len() == 0 {
        return Err(ShowError::NoShowReturned);
    }
    match ids.swap_remove(0) {
        Some(id) => Ok(id),
        None => Err(ShowError::MissingId),
    }
}

} // verus!
