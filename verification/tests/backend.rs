use flyg::backend::database::airports::{
    get_information_for_icao_code, get_runway_information_for_airport,
    get_runway_information_for_icao_code, Airport, Runway, RunwayAirportAssociations,
};
use flyg::backend::database::auth::{get_user_record, User};
use flyg::backend::database::{exactly_one, run_migrations, FlygDatabaseError, MigrationPlan};
use flyg::backend::routes::airports::{
    add_new_airport, describe_runways, get_airport_information, lookup_code, status_for,
    AirportDistance, AirportInformation, Coordinates, RunwayInformation, ICAO_CODE_BYTES,
};
use flyg::backend::routes::health::get_health_status;
use flyg::backend::routes::{
    catcher_bad_request, catcher_forbidden, catcher_internal_server_error,
    catcher_method_not_allowed, catcher_not_found, catcher_unauthorized, ErrorResponse, Status,
};
use flyg::domain::{
    AircraftInformation, AircraftInformationRecord, AircraftPosition, Binary32, Binary64,
    EngineType,
};
use flyg::endpoints::{
    authenticate_user, get_pilot_info, refresh_token, AuthenticateUserParams,
    AuthenticatedTokenResult, PilotInformationResult, RefreshTokenRequest,
};

fn airport() -> Airport {
    Airport {
        id: 1,
        icao_code: "EDDL".to_string(),
        last_update: 1_614_949_813,
        country: "DE".to_string(),
        location: Coordinates {
            longitude: Binary32 { bits: 6.766_78f32.to_bits() },
            latitude: Binary32 { bits: 51.289_5f32.to_bits() },
        },
        name: "Duesseldorf Airport".to_string(),
    }
}

fn runway(id: i32, primary: i32, suffix: Option<&str>) -> Runway {
    Runway {
        id,
        primary_direction: primary,
        secondary_direction: (primary + 180) % 360,
        primary_suffix: suffix.map(|s| s.to_string()),
        runway_length: 3000,
        runway_width: 45,
    }
}

fn user(id: i32) -> User {
    User {
        id,
        first_name: "Bessie".to_string(),
        last_name: "Coleman".to_string(),
        email_address: "bessie@example.org".to_string(),
        password: "hash".to_string(),
        is_admin: false,
    }
}

#[test]
fn statuses_have_their_numbers() {
    assert_eq!(Status::NoContent.code(), 204);
    assert_eq!(Status::BadRequest.code(), 400);
    assert_eq!(Status::Unauthorized.code(), 401);
    assert_eq!(Status::Forbidden.code(), 403);
    assert_eq!(Status::NotFound.code(), 404);
    assert_eq!(Status::MethodNotAllowed.code(), 405);
    assert_eq!(Status::InternalServerError.code(), 500);
    assert_eq!(Status::NotImplemented.code(), 501);
}

#[test]
fn catchers_name_their_status() {
    let expect = |code: u16, message: &str| ErrorResponse { code, message: message.to_string() };
    assert_eq!(catcher_bad_request(), expect(400, "Bad request"));
    assert_eq!(catcher_unauthorized(), expect(401, "Unauthorized"));
    assert_eq!(catcher_forbidden(), expect(403, "Forbidden"));
    assert_eq!(catcher_not_found(), expect(404, "Not found"));
    assert_eq!(catcher_method_not_allowed(), expect(405, "Method not allowed"));
    assert_eq!(catcher_internal_server_error(), expect(500, "Internal server error"));
}

#[test]
fn health_is_no_content() {
    assert_eq!(get_health_status(), Status::NoContent);
}

#[test]
fn migrations_run_in_release_builds_only() {
    assert_eq!(run_migrations("postgres://db/flyg", false), MigrationPlan::Skip);
    assert_eq!(
        run_migrations("postgres://db/flyg", true),
        MigrationPlan::Run { database_url: "postgres://db/flyg".to_string() }
    );
    assert_eq!(run_migrations("", true), MigrationPlan::Run { database_url: String::new() });
}

#[test]
fn lookup_by_a_unique_key_wants_exactly_one_row() {
    assert_eq!(exactly_one::<u8>(None), Err(FlygDatabaseError::FailedToQueryDatabase));
    assert_eq!(exactly_one::<u8>(Some(vec![])), Err(FlygDatabaseError::NoResults));
    assert_eq!(exactly_one(Some(vec![5u8])), Ok(5));
    assert_eq!(exactly_one(Some(vec![5u8, 6])), Err(FlygDatabaseError::MoreThanOneResult));
    assert_eq!(exactly_one(Some(vec![5u8, 5, 5])), Err(FlygDatabaseError::MoreThanOneResult));
}

#[test]
fn user_record_is_the_one_row_found() {
    assert_eq!(get_user_record(Some(vec![user(3)])), Ok(user(3)));
    assert_eq!(get_user_record(Some(vec![])), Err(FlygDatabaseError::NoResults));
    assert_eq!(
        get_user_record(Some(vec![user(3), user(4)])),
        Err(FlygDatabaseError::MoreThanOneResult)
    );
    assert_eq!(get_user_record(None), Err(FlygDatabaseError::FailedToQueryDatabase));
}

#[test]
fn airport_is_the_one_row_found() {
    assert_eq!(get_information_for_icao_code(Some(vec![airport()])), Ok(airport()));
    assert_eq!(get_information_for_icao_code(Some(vec![])), Err(FlygDatabaseError::NoResults));
    assert_eq!(
        get_information_for_icao_code(Some(vec![airport(), airport()])),
        Err(FlygDatabaseError::MoreThanOneResult)
    );
    assert_eq!(
        get_information_for_icao_code(None),
        Err(FlygDatabaseError::FailedToQueryDatabase)
    );
}

#[test]
fn runways_are_what_the_lookup_found() {
    let rows = vec![runway(1, 50, Some("L")), runway(2, 50, Some("R"))];
    assert_eq!(get_runway_information_for_airport(Some(rows.clone())), Ok(rows.clone()));
    assert_eq!(get_runway_information_for_airport(Some(vec![])), Ok(vec![]));
    assert_eq!(
        get_runway_information_for_airport(None),
        Err(FlygDatabaseError::FailedToQueryDatabase)
    );
    assert_eq!(
        get_runway_information_for_icao_code(Ok(airport()), Some(rows.clone())),
        Ok(rows.clone())
    );
    assert_eq!(
        get_runway_information_for_icao_code(Ok(airport()), None),
        Err(FlygDatabaseError::FailedToQueryDatabase)
    );
    assert_eq!(
        get_runway_information_for_icao_code(Err(FlygDatabaseError::NoResults), Some(rows)),
        Err(FlygDatabaseError::NoResults)
    );
    assert_eq!(
        get_runway_information_for_icao_code(Err(FlygDatabaseError::MoreThanOneResult), None),
        Err(FlygDatabaseError::MoreThanOneResult)
    );
}

#[test]
fn failed_lookups_map_to_statuses() {
    assert_eq!(status_for(FlygDatabaseError::NoResults), Status::NotFound);
    assert_eq!(status_for(FlygDatabaseError::MoreThanOneResult), Status::InternalServerError);
    assert_eq!(status_for(FlygDatabaseError::FailedToQueryDatabase), Status::InternalServerError);
}

#[test]
fn icao_code_is_four_bytes_and_looked_up_in_upper_case() {
    assert_eq!(ICAO_CODE_BYTES, 4);
    assert_eq!(lookup_code("eddl"), Ok("EDDL".to_string()));
    assert_eq!(lookup_code("EDDL"), Ok("EDDL".to_string()));
    assert_eq!(lookup_code("k1a2"), Ok("K1A2".to_string()));
    assert_eq!(lookup_code(""), Err(Status::BadRequest));
    assert_eq!(lookup_code("edd"), Err(Status::BadRequest));
    assert_eq!(lookup_code("eddle"), Err(Status::BadRequest));
    assert_eq!(lookup_code("\u{e9}dd"), Ok("\u{c9}DD".to_string()));
    assert_eq!(lookup_code("\u{e9}ddl"), Err(Status::BadRequest));
}

#[test]
fn runway_measures_are_cut_down_to_their_fields() {
    let described = RunwayInformation::from_runway(runway(1, 252, Some("L")));
    assert_eq!(
        described,
        RunwayInformation {
            length: 3000,
            width: 45,
            primary_direction: 252,
            secondary_direction: 72,
            primary_suffix: Some("L".to_string()),
        }
    );
    let odd = Runway {
        id: 9,
        primary_direction: -1,
        secondary_direction: 65_536 + 7,
        primary_suffix: None,
        runway_length: 70_000,
        runway_width: 300,
    };
    assert_eq!(
        RunwayInformation::from_runway(odd),
        RunwayInformation {
            length: 4464,
            width: 44,
            primary_direction: 65_535,
            secondary_direction: 7,
            primary_suffix: None,
        }
    );
}

#[test]
fn runways_are_described_in_their_order() {
    let rows = vec![runway(1, 50, Some("L")), runway(2, 230, None), runway(3, 140, Some("C"))];
    let described = describe_runways(rows.clone());
    assert_eq!(described.len(), 3);
    for (row, information) in rows.into_iter().zip(described) {
        assert_eq!(information, RunwayInformation::from_runway(row));
    }
    assert!(describe_runways(Vec::new()).is_empty());
}

#[test]
fn airport_information_describes_airport_and_runways() {
    let rows = vec![runway(1, 50, Some("L")), runway(2, 50, Some("R"))];
    let answer = get_airport_information(Ok(airport()), Ok(rows.clone())).unwrap();
    assert_eq!(
        answer,
        AirportInformation {
            icao_code: "EDDL".to_string(),
            country_code: "DE".to_string(),
            name: "Duesseldorf Airport".to_string(),
            position: airport().location,
            runways: rows.into_iter().map(RunwayInformation::from_runway).collect(),
        }
    );
    assert_eq!(f32::from_bits(answer.position.latitude.bits), 51.289_5);
}

#[test]
fn airport_information_reports_failed_lookups() {
    let not_found = Err(FlygDatabaseError::NoResults);
    let failed = Err(FlygDatabaseError::FailedToQueryDatabase);
    let twice = Err(FlygDatabaseError::MoreThanOneResult);
    assert_eq!(get_airport_information(not_found.clone(), Ok(vec![])), Err(Status::NotFound));
    assert_eq!(get_airport_information(failed, Ok(vec![])), Err(Status::InternalServerError));
    assert_eq!(get_airport_information(twice, Ok(vec![])), Err(Status::InternalServerError));
    assert_eq!(
        get_airport_information(not_found, Err(FlygDatabaseError::FailedToQueryDatabase)),
        Err(Status::NotFound)
    );
    assert_eq!(
        get_airport_information(Ok(airport()), Err(FlygDatabaseError::NoResults)),
        Err(Status::NotFound)
    );
    assert_eq!(
        get_airport_information(Ok(airport()), Err(FlygDatabaseError::FailedToQueryDatabase)),
        Err(Status::InternalServerError)
    );
    assert_eq!(
        get_airport_information(Ok(airport()), Err(FlygDatabaseError::MoreThanOneResult)),
        Err(Status::InternalServerError)
    );
}

#[test]
fn routes_that_are_not_built_say_so() {
    let information = get_airport_information(Ok(airport()), Ok(vec![])).unwrap();
    assert_eq!(add_new_airport(&information), Status::NotImplemented);
    let params = AuthenticateUserParams {
        username: "johndoe".to_string(),
        password: "simplePassword".to_string(),
    };
    assert_eq!(authenticate_user(&params), Err(Status::NotImplemented));
    let request = RefreshTokenRequest { refresh_token: "token".to_string() };
    assert_eq!(refresh_token(&request), Err(Status::NotImplemented));
    assert_eq!(get_pilot_info(), Err(Status::NotImplemented));
}

#[test]
fn plain_values_hold_what_they_are_given() {
    let result = AuthenticatedTokenResult {
        access_token: "a".to_string(),
        refresh_token: "r".to_string(),
    };
    assert_eq!(result.clone(), result);
    let pilot = PilotInformationResult {
        first_name: "John".to_string(),
        last_name: "Doe".to_string(),
    };
    assert_eq!(pilot.first_name, "John");
    let distance = AirportDistance { icao_code: "EDDK".to_string(), distance: 22 };
    assert_eq!(distance.distance, 22);
    let association = RunwayAirportAssociations { id: 1, airport_id: 2, runway_id: 3 };
    assert_eq!(association.airport_id, 2);
    let aircraft = AircraftInformation {
        registration: "D-GOIA".to_string(),
        engine_type: EngineType::Propeller,
        engine_count: 2,
    };
    assert_eq!(aircraft.engine_type, EngineType::Propeller);
    assert_ne!(aircraft.engine_type, EngineType::Jet);
    let record = AircraftInformationRecord {
        time: 1_614_949_813,
        position: AircraftPosition {
            latitude: Binary64 { bits: 51.225372f64.to_bits() },
            longitude: Binary64 { bits: 6.778913f64.to_bits() },
            altitude: Binary64 { bits: 0.0f64.to_bits() },
        },
    };
    assert_eq!(f64::from_bits(record.position.latitude.bits), 51.225372);
    assert_eq!(record.position.altitude.bits, 0);
}
