//! The mapping from database outcomes to HTTP-level responses.
//!
//! Every database failure, whatever its cause, collapses to one server
//! error status carrying the raw database message; a successful delete
//! answers no-content; the initializer answers its status message or a
//! server error.

use vstd::prelude::*;

use crate::models::User;
use crate::schema::InitState;

verus! {

/// Status of every successful list, create and update response.
pub const OK: u16 = 200;

/// Status of a successful delete: empty success.
pub const NO_CONTENT: u16 = 204;

/// The one status every database-layer failure maps to.
pub const INTERNAL_SERVER_ERROR: u16 = 500;

/// The uniform error mapping: a server error carrying the raw database
/// message.
pub fn db_error_response(e: String) -> (r: (u16, String))
    ensures
        r.0 == INTERNAL_SERVER_ERROR,
        r.1@ == e@,
{
    (INTERNAL_SERVER_ERROR, e)
}

/// Response of the list operation: the rows on success, a server error
/// with the database's message otherwise.
pub fn list_response(outcome: Result<Vec<User>, String>) -> (r: Result<Vec<User>, (u16, String)>)
    ensures
        outcome matches Ok(users) ==> (r matches Ok(u2) && u2 == users),
        outcome matches Err(e) ==> (r matches Err(p) && p.0 == INTERNAL_SERVER_ERROR && p.1@
            == e@),
{
    match outcome {
        Ok(users) => Ok(users),
        Err(e) => Err(db_error_response(e)),
    }
}

/// Response of a create or update, both of which answer with the re-fetched
/// row: the server-authoritative row on success, a server error with the
/// database's message otherwise (a fetch-one that matched no row arrives
/// here as its own failure text).
pub fn user_response(outcome: Result<User, String>) -> (r: Result<User, (u16, String)>)
    ensures
        outcome matches Ok(user) ==> (r matches Ok(u2) && u2 == user),
        outcome matches Err(e) ==> (r matches Err(p) && p.0 == INTERNAL_SERVER_ERROR && p.1@
            == e@),
{
    match outcome {
        Ok(user) => Ok(user),
        Err(e) => Err(db_error_response(e)),
    }
}

/// Response of a delete: empty success whether or not a row matched, a
/// server error with the database's message otherwise.
pub fn delete_response(outcome: Result<(), String>) -> (r: Result<u16, (u16, String)>)
    ensures
        outcome is Ok ==> (r matches Ok(c) && c == NO_CONTENT),
        outcome matches Err(e) ==> (r matches Err(p) && p.0 == INTERNAL_SERVER_ERROR && p.1@
            == e@),
{
    match outcome {
        Ok(_) => Ok(NO_CONTENT),
        Err(e) => Err(db_error_response(e)),
    }
}

/// Response of the initializer once its run has ended: the success
/// message, or a server error with the run's failure message.
pub fn init_response(state: InitState) -> (r: Result<String, (u16, String)>)
    requires
        state is Done || state is Failed,
    ensures
        state matches InitState::Done(m) ==> (r matches Ok(m2) && m2@ == m@),
        state matches InitState::Failed(m) ==> (r matches Err(p) && p.0 == INTERNAL_SERVER_ERROR
            && p.1@ == m@),
{
    match state {
        InitState::Done(m) => Ok(m),
        InitState::Failed(m) => Err(db_error_response(m)),
        _ => Err((INTERNAL_SERVER_ERROR, String::new())),
    }
}

} // verus!
