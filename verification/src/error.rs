//! The error taxonomy shared by every layer, its HTTP status mapping, and the
//! classification of storage-layer failures.

use vstd::prelude::*;
use vstd::string::StringExecFns;

verus! {

/// The three failure kinds a request can surface.
#[derive(Debug, PartialEq, Eq)]
pub enum AppError {
    /// The requested identifier does not exist.
    NotFound,
    /// Input failed a business rule; carries a human-readable reason.
    Validation(String),
    /// An underlying storage failure not otherwise classified; carries the
    /// storage engine's error text.
    Db(String),
}

/// The HTTP status each error kind maps to.
pub open spec fn spec_status(e: AppError) -> u16 {
    match e {
        AppError::NotFound => 404,
        AppError::Validation(_) => 422,
        AppError::Db(_) => 502,
    }
}

/// The wire message of each error kind.
pub open spec fn spec_message(e: AppError) -> Seq<char> {
    match e {
        AppError::NotFound => "not found"@,
        AppError::Validation(reason) => "validation error: "@ + reason@,
        AppError::Db(detail) => "database error: "@ + detail@,
    }
}

impl AppError {
    /// The HTTP status this error is reported with.
    pub fn status_code(&self) -> (s: u16)
        ensures
            s == spec_status(*self),
    {
        match self {
            AppError::NotFound => 404,
            AppError::Validation(_) => 422,
            AppError::Db(_) => 502,
        }
    }

    /// The human-readable message placed in the error response body.
    pub fn message(&self) -> (m: String)
        ensures
            m@ == spec_message(*self),
    {
        match self {
            AppError::NotFound => String::from_str("not found"),
            AppError::Validation(reason) => {
                String::from_str("validation error: ").concat(reason.as_str())
            },
            AppError::Db(detail) => {
                String::from_str("database error: ").concat(detail.as_str())
            },
        }
    }

    /// Classifies a storage-layer failure: a row-not-found outcome is the
    /// missing-resource case; every other failure is an unclassified storage
    /// error carrying the engine's error text.
    pub fn from_storage(row_not_found: bool, detail: String) -> (e: AppError)
        ensures
            row_not_found ==> e == AppError::NotFound,
            !row_not_found ==> e == AppError::Db(detail),
    {
        if row_not_found {
            AppError::NotFound
        } else {
            AppError::Db(detail)
        }
    }
}

/// The outcome of a delete statement, judged by its affected-row count: zero
/// rows means the identifier did not exist.
pub fn delete_outcome(rows_affected: u64) -> (r: Result<(), AppError>)
    ensures
        rows_affected == 0 ==> r == Err::<(), AppError>(AppError::NotFound),
        rows_affected > 0 ==> r == Ok::<(), AppError>(()),
{
    if rows_affected == 0 {
        Err(AppError::NotFound)
    } else {
        Ok(())
    }
}

} // verus!
