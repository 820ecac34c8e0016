//! What the service makes of the answers of its database.

use vstd::prelude::*;

pub mod airports;
pub mod auth;

verus! {

/// Why a lookup in the database gave no usable answer.
#[derive(Clone, Copy, Debug, PartialEq, Eq, Structural)]
pub enum FlygDatabaseError {
    /// The query itself failed.
    FailedToQueryDatabase,
    /// More than one row came back where one was expected.
    MoreThanOneResult,
    /// No row came back.
    NoResults,
}

/// What is to be done about the schema of the database at start-up.
#[derive(Clone, Debug, PartialEq, Eq)]
pub enum MigrationPlan {
    /// Leave the schema alone.
    Skip,
    /// Connect to the database at `database_url` and bring the schema up to
    /// date; the service cannot start where either fails.
    Run { database_url: String },
}

/// Says what is to be done about the schema at start-up: a release build
/// brings it up to date in the database at `database_url`, a development
/// build leaves it alone.
pub fn run_migrations(database_url: &str, release_build: bool) -> (plan: MigrationPlan)
    ensures
        !release_build ==> plan == MigrationPlan::Skip,
        release_build ==> (plan matches MigrationPlan::Run { database_url: url } && url@
            == database_url@),
{
    if release_build {
        MigrationPlan::Run { database_url: database_url.to_owned() }
    } else {
        MigrationPlan::Skip
    }
}

/// The one row that a lookup by a unique key is expected to find.
///
/// `found` holds the rows that came back, or `None` where the query failed.
pub fn exactly_one<T>(found: Option<Vec<T>>) -> (row: Result<T, FlygDatabaseError>)
    ensures
        found is None ==> row == Err::<T, FlygDatabaseError>(
            FlygDatabaseError::FailedToQueryDatabase,
        ),
        found matches Some(rows) ==> {
            &&& rows@.len() == 0 ==> row == Err::<T, FlygDatabaseError>(
                FlygDatabaseError::NoResults,
            )
            &&& rows@.len() > 1 ==> row == Err::<T, FlygDatabaseError>(
                FlygDatabaseError::MoreThanOneResult,
            )
            &&& rows@.len() == 1 ==> row == Ok::<T, FlygDatabaseError>(rows@[0])
        },
{
    match found {
        None => Err(FlygDatabaseError::FailedToQueryDatabase),
        Some(mut rows) => {
            if rows.len() > 1 {
                return Err(FlygDatabaseError::MoreThanOneResult);
            }
            match rows.pop() {
                Some(row) => Ok(row),
                None => Err(FlygDatabaseError::NoResults),
            }
        },
    }
}

} // verus!
