//! What the service says about airports.

use crate::backend::database::airports::Airport;
use crate::backend::database::airports::Runway;
use crate::backend::database::FlygDatabaseError;
use crate::backend::routes::Status;
use crate::domain::Binary32;
use vstd::prelude::*;
use vstd::utf8::encode_utf8;
use vstd::string::StringSliceAdditionalSpecFns;

verus! {

/// The number of bytes of an ICAO code: four letters or digits.
pub const ICAO_CODE_BYTES: usize = 4;

/// A point on the earth, in degrees.
#[derive(Clone, Copy, Debug, PartialEq, Eq, Structural)]
pub struct Coordinates {
    /// The longitude of the point.
    pub longitude: Binary32,
    /// The latitude of the point.
    pub latitude: Binary32,
}

/// One runway, as the service describes it.
#[derive(Clone, Debug, PartialEq, Eq)]
pub struct RunwayInformation {
    /// The length of the runway, in meters.
    pub length: u16,
    /// The width of the runway, in meters.
    pub width: u8,
    /// The primary direction, in degrees from magnetic north.
    pub primary_direction: u16,
    /// The secondary direction, in degrees from magnetic north.
    pub secondary_direction: u16,
    /// The suffix of the primary direction, such as `L`, where it has one.
    pub primary_suffix: Option<String>,
}

/// One airport, as the service describes it.
#[derive(Clone, Debug, PartialEq, Eq)]
pub struct AirportInformation {
    /// The four-letter ICAO code of the airport.
    pub icao_code: String,
    /// The two-letter code of the country the airport lies in.
    pub country_code: String,
    /// The official English name of the airport.
    pub name: String,
    /// Where the airport lies.
    pub position: Coordinates,
    /// The runways of the airport.
    pub runways: Vec<RunwayInformation>,
}

/// An airport and how far it is from some point.
#[derive(Clone, Debug, PartialEq, Eq)]
pub struct AirportDistance {
    /// The four-letter ICAO code of the airport.
    pub icao_code: String,
    /// The distance to the airport, in nautical miles.
    pub distance: u32,
}

/// The upper-case form of a text, as `str::to_uppercase` of the standard
/// library gives it.
pub uninterp spec fn uppercase_of(text: Seq<char>) -> Seq<char>;

/// `str::to_uppercase` of the standard library: the upper-case form of
/// `text` under the Unicode case mappings. Nothing more is claimed of it
/// than that the same text always has the same upper-case form.
#[verifier::external_body]
fn to_uppercase(text: &str) -> (upper: String)
    ensures
        upper@ == uppercase_of(text@),
{
    text.to_uppercase()
}

impl RunwayInformation {
    /// How the service describes `runway`: each measure cut down to the
    /// width of its field, that is, taken modulo 2^16, or 2^8 for the width.
    pub open spec fn of(runway: Runway) -> RunwayInformation {
        RunwayInformation {
            length: runway.runway_length as u16,
            width: runway.runway_width as u8,
            primary_direction: runway.primary_direction as u16,
            secondary_direction: runway.secondary_direction as u16,
            primary_suffix: runway.primary_suffix,
        }
    }

    /// Describes `runway`.
    pub fn from_runway(runway: Runway) -> (information: RunwayInformation)
        ensures
            information == RunwayInformation::of(runway),
    {
        RunwayInformation {
            length: #[verifier::truncate]
            (runway.runway_length as u16),
            width: #[verifier::truncate]
            (runway.runway_width as u8),
            primary_direction: #[verifier::truncate]
            (runway.primary_direction as u16),
            secondary_direction: #[verifier::truncate]
            (runway.secondary_direction as u16),
            primary_suffix: runway.primary_suffix,
        }
    }
}

/// The status that tells a client of a failed lookup: what is not there is
/// not found, and anything else is the service's fault.
pub fn status_for(error: FlygDatabaseError) -> (status: Status)
    ensures
        error == FlygDatabaseError::NoResults ==> status == Status::NotFound,
        error != FlygDatabaseError::NoResults ==> status == Status::InternalServerError,
{
    match error {
        FlygDatabaseError::FailedToQueryDatabase => Status::InternalServerError,
        FlygDatabaseError::MoreThanOneResult => Status::InternalServerError,
        FlygDatabaseError::NoResults => Status::NotFound,
    }
}

/// The code under which an airport is looked up, given the code in the
/// request: the request is bad unless its code is four bytes long, and
/// airports are filed under the upper-case form of their code.
pub fn lookup_code(icao_code: &str) -> (code: Result<String, Status>)
    ensures
        encode_utf8(icao_code@).len() != ICAO_CODE_BYTES ==> code == Err::<String, Status>(
            Status::BadRequest,
        ),
        encode_utf8(icao_code@).len() == ICAO_CODE_BYTES ==> (code matches Ok(upper) && upper@
            == uppercase_of(icao_code@)),
{
    if icao_code.as_bytes().len() != ICAO_CODE_BYTES {
        return Err(Status::BadRequest);
    }
    Ok(to_uppercase(icao_code))
}

/// Describes each of `runways`, in their order.
pub fn describe_runways(runways: Vec<Runway>) -> (described: Vec<RunwayInformation>)
    ensures
        described@.len() == runways@.len(),
        forall|i: int|
            0 <= i < runways@.len() ==> described@[i] == RunwayInformation::of(runways@[i]),
{
    let mut described: Vec<RunwayInformation> = Vec::new();
    for runway in iter: runways
        invariant
            described@.len() == iter.index(),
            forall|i: int|
                0 <= i < described@.len() ==> described@[i] == RunwayInformation::of(
                    iter.seq()[i],
                ),
    {
        described.push(RunwayInformation::from_runway(runway));
    }
    described
}

/// What the service says about an airport, given what the lookup of the
/// airport and the lookup of its runways came to.
///
/// Where the airport was not found, or was found and its runways were not,
/// the answer is `NotFound`; where a lookup failed otherwise it is
/// `InternalServerError`, the failure of the first lookup going before that
/// of the second. Else the answer describes the airport and each of its
/// runways, in their order.
pub fn get_airport_information(
    airport: Result<Airport, FlygDatabaseError>,
    runways: Result<Vec<Runway>, FlygDatabaseError>,
) -> (answer: Result<AirportInformation, Status>)
    ensures
        airport matches Err(error) ==> answer == Err::<AirportInformation, Status>(
            if error == FlygDatabaseError::NoResults {
                Status::NotFound
            } else {
                Status::InternalServerError
            },
        ),
        airport is Ok ==> (runways matches Err(error) ==> answer == Err::<
            AirportInformation,
            Status,
        >(
            if error == FlygDatabaseError::NoResults {
                Status::NotFound
            } else {
                Status::InternalServerError
            },
        )),
        airport matches Ok(found) ==> (runways matches Ok(rows) ==> (answer matches Ok(information)
            && information.icao_code == found.icao_code && information.country_code
            == found.country && information.name == found.name && information.position
            == found.location && information.runways@.len() == rows@.len() && forall|i: int|
            0 <= i < rows@.len() ==> information.runways@[i] == RunwayInformation::of(rows@[i]))),
{
    let found = match airport {
        Ok(found) => found,
        Err(error) => {
            return Err(status_for(error));
        },
    };
    let rows = match runways {
        Ok(rows) => rows,
        Err(error) => {
            return Err(status_for(error));
        },
    };
    Ok(
        AirportInformation {
            icao_code: found.icao_code,
            country_code: found.country,
            name: found.name,
            position: found.location,
            runways: describe_runways(rows),
        },
    )
}

/// Answers a request to add an airport. The route is not built yet.
pub fn add_new_airport(airport_information: &AirportInformation) -> (status: Status)
    ensures
        status == Status::NotImplemented,
{
    Status::NotImplemented
}

} // verus!
