//! Airports and their runways, as the database holds them.

use crate::backend::database::exactly_one;
use crate::backend::database::FlygDatabaseError;
use crate::backend::routes::airports::Coordinates;
use vstd::prelude::*;

verus! {

/// One airport.
#[derive(Clone, Debug, PartialEq, Eq)]
pub struct Airport {
    /// The key of the row.
    pub id: i32,
    /// The four-letter ICAO code of the airport; no two airports share one.
    pub icao_code: String,
    /// When the row was last changed, in seconds since the Unix epoch.
    pub last_update: i64,
    /// The two-letter code of the country the airport lies in.
    pub country: String,
    /// Where the airport lies.
    pub location: Coordinates,
    /// The official English name of the airport.
    pub name: String,
}

/// One runway, with both of its directions.
#[derive(Clone, Debug, PartialEq, Eq)]
pub struct Runway {
    /// The key of the row.
    pub id: i32,
    /// The primary direction, in degrees from magnetic north.
    pub primary_direction: i32,
    /// The secondary direction, in degrees from magnetic north.
    pub secondary_direction: i32,
    /// The suffix of the primary direction, such as `L`, where it has one.
    pub primary_suffix: Option<String>,
    /// The length of the runway, in meters.
    pub runway_length: i32,
    /// The width of the runway, in meters.
    pub runway_width: i32,
}

/// The row that says that a runway belongs to an airport.
#[derive(Clone, Copy, Debug, PartialEq, Eq, Structural)]
pub struct RunwayAirportAssociations {
    /// The key of the row.
    pub id: i32,
    /// The key of the airport.
    pub airport_id: i32,
    /// The key of the runway.
    pub runway_id: i32,
}

/// The airport with a given ICAO code, out of the rows that the lookup by
/// that code found (`None` where the query failed).
///
/// Exactly one row is that airport. No row means that there is no such
/// airport; more than one cannot be, as the code is unique, and is an error.
pub fn get_information_for_icao_code(found: Option<Vec<Airport>>) -> (airport: Result<
    Airport,
    FlygDatabaseError,
>)
    ensures
        found is None ==> airport == Err::<Airport, FlygDatabaseError>(
            FlygDatabaseError::FailedToQueryDatabase,
        ),
        found matches Some(rows) ==> {
            &&& rows@.len() == 0 ==> airport == Err::<Airport, FlygDatabaseError>(
                FlygDatabaseError::NoResults,
            )
            &&& rows@.len() > 1 ==> airport == Err::<Airport, FlygDatabaseError>(
                FlygDatabaseError::MoreThanOneResult,
            )
            &&& rows@.len() == 1 ==> airport == Ok::<Airport, FlygDatabaseError>(rows@[0])
        },
{
    exactly_one(found)
}

/// The runways of an airport, out of what the lookup by the airport found
/// (`None` where the query failed). An airport may have no runway on record.
pub fn get_runway_information_for_airport(found: Option<Vec<Runway>>) -> (runways: Result<
    Vec<Runway>,
    FlygDatabaseError,
>)
    ensures
        found is None ==> runways == Err::<Vec<Runway>, FlygDatabaseError>(
            FlygDatabaseError::FailedToQueryDatabase,
        ),
        found matches Some(rows) ==> runways == Ok::<Vec<Runway>, FlygDatabaseError>(rows),
{
    match found {
        Some(rows) => Ok(rows),
        None => Err(FlygDatabaseError::FailedToQueryDatabase),
    }
}

/// The runways of the airport with a given ICAO code: the failure of the
/// lookup of the airport where that failed, else what the lookup of its
/// runways found.
pub fn get_runway_information_for_icao_code(
    airport: Result<Airport, FlygDatabaseError>,
    found: Option<Vec<Runway>>,
) -> (runways: Result<Vec<Runway>, FlygDatabaseError>)
    ensures
        airport matches Err(error) ==> runways == Err::<Vec<Runway>, FlygDatabaseError>(error),
        airport is Ok && found is None ==> runways == Err::<Vec<Runway>, FlygDatabaseError>(
            FlygDatabaseError::FailedToQueryDatabase,
        ),
        airport is Ok ==> (found matches Some(rows) ==> runways == Ok::<
            Vec<Runway>,
            FlygDatabaseError,
        >(rows)),
{
    match airport {
        Ok(_) => get_runway_information_for_airport(found),
        Err(error) => Err(error),
    }
}

} // verus!
