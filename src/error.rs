use vstd::prelude::*;

use crate::validation::{violations_view, ConstraintViolation, ViolationModel};

verus! {

/// Status sent for an infrastructure fault; its cause is never shown.
pub const INTERNAL_SERVER_ERROR: u16 = 500;

/// Status sent for a request that broke one or more constraints.
pub const BAD_REQUEST: u16 = 400;

/// What an operation of the library can fail with.
#[derive(Debug)]
pub enum ApplicationError {
    /// The store could not be reached or refused the change; the text is the
    /// store's own description of the cause.
    PersistenceError(String),
    /// The input broke the listed constraints, in the order they were found.
    ValidationError(Vec<ConstraintViolation>),
}

impl ApplicationError {
    /// Whether this is a fault of the store rather than of the input.
    pub open spec fn is_persistence(&self) -> bool {
        self is PersistenceError
    }

    /// Whether this is a validation failure listing exactly `expected`.
    pub open spec fn is_validation_of(&self, expected: Seq<ViolationModel>) -> bool {
        match self {
            ApplicationError::ValidationError(v) => violations_view(v@) == expected,
            ApplicationError::PersistenceError(_) => false,
        }
    }

    /// The response status this error maps to.
    pub fn status_code(&self) -> (r: u16)
        ensures
            r == (if self.is_persistence() { INTERNAL_SERVER_ERROR } else { BAD_REQUEST }),
    {
        match self {
            ApplicationError::PersistenceError(_) => INTERNAL_SERVER_ERROR,
            ApplicationError::ValidationError(_) => BAD_REQUEST,
        }
    }
}

} // verus!
