//! Errors of the report endpoints, and helpers shared by the handlers.

pub mod crypto;
pub mod discord;

use vstd::prelude::*;

verus! {

/// The error of a report endpoint, with the message it answers.
#[derive(Debug)]
pub enum AppError {
    BadRequest(String),
    NotFound(String),
    Internal(String),
}

} // verus!
