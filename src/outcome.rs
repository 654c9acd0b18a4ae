//! Caller-facing categories of failure.
use vstd::prelude::*;

use crate::model::error::Error2;
use crate::security::Error;

verus! {

/// How a failure is presented to the caller.
#[derive(Clone, Copy, Debug, PartialEq, Eq, Structural)]
pub enum ErrorCategory {
    NotFound,
    Unauthorized,
    Internal,
}

/// Any failure of one request.
#[derive(Debug)]
pub enum Failure {
    /// The credential could not be resolved.
    Auth(Error),
    /// The record access failed.
    Model(Error2),
}

/// The category of a failure: a missing row is "not found", a rejected
/// credential "unauthorized", and every other store failure "internal".
pub open spec fn failure_category(f: Failure) -> ErrorCategory {
    match f {
        Failure::Auth(_) => ErrorCategory::Unauthorized,
        Failure::Model(Error2::EntityNotFound(_, _)) => ErrorCategory::NotFound,
        Failure::Model(Error2::StoreFailure(_)) => ErrorCategory::Internal,
    }
}

/// The category of a failure.
pub fn category(f: &Failure) -> (r: ErrorCategory)
    ensures
        r == failure_category(*f),
{
    match f {
        Failure::Auth(_) => ErrorCategory::Unauthorized,
        Failure::Model(Error2::EntityNotFound(_, _)) => ErrorCategory::NotFound,
        Failure::Model(Error2::StoreFailure(_)) => ErrorCategory::Internal,
    }
}

impl ErrorCategory {
    /// The HTTP status that the category is answered with.
    pub fn status_code(&self) -> (r: u16)
        ensures
            *self == ErrorCategory::NotFound ==> r == 404,
            *self == ErrorCategory::Unauthorized ==> r == 401,
            *self == ErrorCategory::Internal ==> r == 500,
    {
        match self {
            ErrorCategory::NotFound => 404,
            ErrorCategory::Unauthorized => 401,
            ErrorCategory::Internal => 500,
        }
    }

    /// The category's stable code, as shown to the caller.
    pub fn code(&self) -> (r: &'static str)
        ensures
            *self == ErrorCategory::NotFound ==> r@ == "not found"@,
            *self == ErrorCategory::Unauthorized ==> r@ == "unauthorized"@,
            *self == ErrorCategory::Internal ==> r@ == "internal"@,
    {
        match self {
            ErrorCategory::NotFound => "not found",
            ErrorCategory::Unauthorized => "unauthorized",
            ErrorCategory::Internal => "internal",
        }
    }
}

} // verus!
