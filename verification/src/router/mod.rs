//! The decisions of the API's request handlers.

pub mod projects;
pub mod users;

use vstd::prelude::*;
use crate::error::HttpError;

verus! {

/// The status code of a created resource.
pub const CREATED: u16 = 201;

/// The response to a request that stores a new record: `201 Created` when
/// the store succeeded, and a bad request carrying the store's error text
/// otherwise.
pub fn creation_outcome(stored: Result<(), String>) -> (r: Result<u16, HttpError>)
    ensures
        match (stored, r) {
            (Ok(()), Ok(code)) => code == CREATED,
            (Err(e), Err(HttpError::BadRequest { message: Some(m), detail: None })) => m == e,
            _ => false,
        },
{
    match stored {
        Ok(()) => Ok(CREATED),
        Err(e) => Err(HttpError::bad_request(Some(e), None)),
    }
}

/// The record that was looked up, or not found when there is none.
pub fn found_or_not_found<T>(found: Option<T>) -> (r: Result<T, HttpError>)
    ensures
        match (found, r) {
            (Some(x), Ok(y)) => x == y,
            (None, Err(HttpError::NotFound { message: None, detail: None })) => true,
            _ => false,
        },
{
    match found {
        Some(x) => Ok(x),
        None => Err(HttpError::not_found(None, None)),
    }
}

} // verus!
