//! The users of the service, as the database holds them.

use crate::backend::database::exactly_one;
use crate::backend::database::FlygDatabaseError;
use vstd::prelude::*;

verus! {

/// One user of the service.
#[derive(Clone, Debug, PartialEq, Eq)]
pub struct User {
    /// The key of the row.
    pub id: i32,
    /// The first name of the user.
    pub first_name: String,
    /// The last name of the user.
    pub last_name: String,
    /// The email address by which the user logs in; no two users share one.
    pub email_address: String,
    /// The bcrypt hash of the user's password.
    pub password: String,
    /// Whether the user may administer the service.
    pub is_admin: bool,
}

/// The user with a given email address, out of the rows that the lookup by
/// that address found (`None` where the query failed).
///
/// Exactly one row is that user. No row means that there is no such user;
/// more than one cannot be, as the address is unique, and is an error.
pub fn get_user_record(found: Option<Vec<User>>) -> (user: Result<User, FlygDatabaseError>)
    ensures
        found is None ==> user == Err::<User, FlygDatabaseError>(
            FlygDatabaseError::FailedToQueryDatabase,
        ),
        found matches Some(rows) ==> {
            &&& rows@.len() == 0 ==> user == Err::<User, FlygDatabaseError>(
                FlygDatabaseError::NoResults,
            )
            &&& rows@.len() > 1 ==> user == Err::<User, FlygDatabaseError>(
                FlygDatabaseError::MoreThanOneResult,
            )
            &&& rows@.len() == 1 ==> user == Ok::<User, FlygDatabaseError>(rows@[0])
        },
{
    exactly_one(found)
}

} // verus!
