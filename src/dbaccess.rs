//! How the answers of a relational store become outcomes of the data access
//! contract. The caller runs the query and hands over its result, with a
//! failed query's error turned into its message.

use vstd::prelude::*;
use crate::errors::EzyTutorError;
use crate::models::{Course, UpdateCourse};
use crate::text::{decimal, decimal_text};

verus! {

/// A listing query: every row is a course, no row is an empty listing, and a
/// failed query is `DBError` with the driver's message.
pub fn list_outcome(query: Result<Vec<Course>, String>) -> (r: Result<Vec<Course>, EzyTutorError>)
    ensures
        match query {
            Ok(rows) => r == Ok::<Vec<Course>, EzyTutorError>(rows),
            Err(m) => r == Err::<Vec<Course>, EzyTutorError>(EzyTutorError::DBError(m)),
        },
{
    match query {
        Ok(rows) => Ok(rows),
        Err(m) => Err(EzyTutorError::DBError(m)),
    }
}

/// A lookup by key: the first row when there is one, `NotFound` when there
/// is none, and `DBError` with the driver's message when the query failed.
pub fn fetch_outcome(query: Result<Vec<Course>, String>) -> (r: Result<Course, EzyTutorError>)
    ensures
        match query {
            Ok(rows) => if rows@.len() == 0 {
                r matches Err(e) && e.is_not_found() && e.spec_message().len() > 0
            } else {
                r == Ok::<Course, EzyTutorError>(rows@[0])
            },
            Err(m) => r == Err::<Course, EzyTutorError>(EzyTutorError::DBError(m)),
        },
{
    match query {
        Ok(mut rows) => {
            if rows.len() == 0 {
                proof {
                    reveal_strlit("Course id not found");
                }
                Err(EzyTutorError::NotFound(String::from_str("Course id not found")))
            } else {
                Ok(rows.swap_remove(0))
            }
        },
        Err(m) => Err(EzyTutorError::DBError(m)),
    }
}

/// The course to write back for a partial update: the stored row merged
/// with the update, `NotFound` when the key matched no row, and `DBError`
/// when the lookup failed.
pub fn merge_outcome(query: Result<Vec<Course>, String>, update: &UpdateCourse) -> (r: Result<Course, EzyTutorError>)
    ensures
        match query {
            Ok(rows) => if rows@.len() == 0 {
                r matches Err(e) && e.is_not_found() && e.spec_message().len() > 0
            } else {
                r == Ok::<Course, EzyTutorError>(rows@[0].spec_merged(*update))
            },
            Err(m) => r == Err::<Course, EzyTutorError>(EzyTutorError::DBError(m)),
        },
{
    match fetch_outcome(query) {
        Ok(current) => Ok(current.merged(update)),
        Err(e) => Err(e),
    }
}

/// A deletion: `NotFound` when no row was deleted, a confirmation naming
/// the number of rows otherwise, and `DBError` when the statement failed.
pub fn delete_outcome(query: Result<u64, String>) -> (r: Result<String, EzyTutorError>)
    ensures
        match query {
            Ok(n) => if n == 0 {
                r matches Err(e) && e.is_not_found() && e.spec_message().len() > 0
            } else {
                r matches Ok(m) && m@ == "Deleted "@ + decimal(n as nat) + " record"@
            },
            Err(m) => r == Err::<String, EzyTutorError>(EzyTutorError::DBError(m)),
        },
{
    match query {
        Ok(n) => {
            if n == 0 {
                proof {
                    reveal_strlit("Course id not found");
                }
                Err(EzyTutorError::NotFound(String::from_str("Course id not found")))
            } else {
                let mut message = String::from_str("Deleted ");
                let count = decimal_text(n);
                message.append(count.as_str());
                message.append(" record");
                Ok(message)
            }
        },
        Err(m) => Err(EzyTutorError::DBError(m)),
    }
}

} // verus!
