//! The failures that an operation of the directory can end in.

use vstd::prelude::*;
use vstd::string::*;

verus! {

#[verifier::external_type_specification]
#[verifier::external_body]
pub struct ExStoreError(sqlx::Error);

#[verifier::external_type_specification]
#[verifier::external_body]
pub struct ExMigrateError(sqlx::migrate::MigrateError);

#[verifier::external_type_specification]
#[verifier::external_body]
pub struct ExCacheError(fred::error::RedisError);

pub type DBError<T> = Result<T, DatabaseError>;

/// Why an operation failed. Each variant but the first carries the text of
/// the failure that caused it.
#[derive(Debug)]
pub enum DatabaseError {
    /// The handle is taken.
    UniqueViolation,
    /// The record store failed.
    DatabaseError(String),
    /// The schema could not be brought up to date.
    MigrateError(String),
    /// The cache failed.
    RedisError(String),
}

impl DatabaseError {
    /// The line that describes this failure.
    pub open spec fn message_text(&self) -> Seq<char> {
        match self {
            DatabaseError::UniqueViolation => "Error - Unique Violation!"@,
            DatabaseError::DatabaseError(cause) => "Error in Database - "@ + cause@,
            DatabaseError::MigrateError(cause) => "Error Migrating DataBase - "@ + cause@,
            DatabaseError::RedisError(cause) => "Error in to Redis - "@ + cause@,
        }
    }

    /// Describes this failure in one line: what failed, then the cause's text.
    pub fn message(&self) -> (r: String)
        ensures
            r@ == self.message_text(),
    {
        match self {
            DatabaseError::UniqueViolation => String::from_str("Error - Unique Violation!"),
            DatabaseError::DatabaseError(cause) => {
                String::from_str("Error in Database - ").concat(cause.as_str())
            },
            DatabaseError::MigrateError(cause) => {
                String::from_str("Error Migrating DataBase - ").concat(cause.as_str())
            },
            DatabaseError::RedisError(cause) => {
                String::from_str("Error in to Redis - ").concat(cause.as_str())
            },
        }
    }

    /// What a failure of the record store amounts to, given whether the
    /// store reported a broken uniqueness constraint and the failure's text.
    pub open spec fn of_report(unique_violation: Option<bool>, text: String) -> DatabaseError {
        if unique_violation == Some(true) {
            DatabaseError::UniqueViolation
        } else {
            DatabaseError::DatabaseError(text)
        }
    }

    /// Classifies a failure of the record store: a report of a broken
    /// uniqueness constraint is a [`DatabaseError::UniqueViolation`], anything
    /// else a [`DatabaseError::DatabaseError`] that keeps the text.
    ///
    /// `unique_violation` is `None` where the failure did not come from the
    /// database itself.
    pub fn from_report(unique_violation: Option<bool>, text: String) -> (r: DatabaseError)
        ensures
            r == Self::of_report(unique_violation, text),
    {
        match unique_violation {
            Some(true) => DatabaseError::UniqueViolation,
            _ => DatabaseError::DatabaseError(text),
        }
    }
}

/// What a failure of the record store says of a broken uniqueness (or
/// primary key) constraint: the answer of sqlx's
/// `DatabaseError::is_unique_violation` on what `Error::as_database_error`
/// gives, and `None` where the failure holds no report of the database.
pub uninterp spec fn reported_violation(error: sqlx::Error) -> Option<bool>;

/// Asks a failure of the record store whether the database reported a broken
/// uniqueness (or primary key) constraint, through
/// `sqlx::Error::as_database_error` and `DatabaseError::is_unique_violation`
/// of sqlx. `None` where the failure holds no report of the database. The
/// answer is read off the error and nothing else; which errors the driver
/// counts as such a violation is its own affair, and is not claimed here.
#[verifier::external_body]
fn unique_violation_reported(error: &sqlx::Error) -> (r: Option<bool>)
    ensures
        r == reported_violation(*error),
{
    match error.as_database_error() {
        Some(report) => Some(report.is_unique_violation()),
        None => None,
    }
}

impl vstd::std_specs::convert::FromSpecImpl<sqlx::Error> for DatabaseError {
    /// The text that a store failure carries is given as a relation to the
    /// error, not as a function of it, so the conversion is specified by its
    /// own postcondition.
    open spec fn obeys_from_spec() -> bool {
        false
    }

    open spec fn from_spec(error: sqlx::Error) -> Self {
        arbitrary()
    }
}

impl From<sqlx::Error> for DatabaseError {
    /// A failure of the record store: the handle is taken exactly where the
    /// database reported a broken uniqueness constraint, and every other
    /// failure is a store failure with the error's text.
    fn from(error: sqlx::Error) -> (r: Self)
        ensures
            r is UniqueViolation <==> reported_violation(error) == Some(true),
            r is UniqueViolation || r is DatabaseError,
            r matches DatabaseError::DatabaseError(text) ==> to_string_from_display_ensures::<
                sqlx::Error,
            >(&error, text),
    {
        let unique_violation = unique_violation_reported(&error);
        let text = error.to_string();
        DatabaseError::from_report(unique_violation, text)
    }
}

impl vstd::std_specs::convert::FromSpecImpl<sqlx::migrate::MigrateError> for DatabaseError {
    open spec fn obeys_from_spec() -> bool {
        false
    }

    open spec fn from_spec(value: sqlx::migrate::MigrateError) -> Self {
        arbitrary()
    }
}

impl From<sqlx::migrate::MigrateError> for DatabaseError {
    /// A failed migration, with the error's text.
    fn from(value: sqlx::migrate::MigrateError) -> (r: Self)
        ensures
            r matches DatabaseError::MigrateError(text) && to_string_from_display_ensures::<
                sqlx::migrate::MigrateError,
            >(&value, text),
    {
        DatabaseError::MigrateError(value.to_string())
    }
}

impl vstd::std_specs::convert::FromSpecImpl<fred::error::RedisError> for DatabaseError {
    open spec fn obeys_from_spec() -> bool {
        false
    }

    open spec fn from_spec(value: fred::error::RedisError) -> Self {
        arbitrary()
    }
}

impl From<fred::error::RedisError> for DatabaseError {
    /// A failure of the cache, with the error's text.
    fn from(value: fred::error::RedisError) -> (r: Self)
        ensures
            r matches DatabaseError::RedisError(text) && to_string_from_display_ensures::<
                fred::error::RedisError,
            >(&value, text),
    {
        DatabaseError::RedisError(value.to_string())
    }
}

} // verus!
