use flyg::domain::Binary32;
use flyg::simconnect::connection::SimConnect;
use flyg::simconnect::host::{DataField, DataType, HostCall, Period, SimObject};
use flyg::simconnect::identifiers::{ClientDataDefinition, Request};
use flyg::simconnect::subscription::{
    Subscription, SubscriptionError, SubscriptionStep, POSITION_EPSILON_BITS, SUBSCRIPTION_STEPS,
};

const HANDLE: usize = 11;

fn connected() -> SimConnect {
    let mut connection = SimConnect::new();
    assert_eq!(connection.connect(0, HANDLE), Ok(()));
    connection
}

fn run(connection: &SimConnect, answers: &[i32]) -> (Subscription, Vec<HostCall>) {
    let mut setup = connection.request_position_updates();
    let mut calls = Vec::new();
    let mut next = 0;
    while let Some(call) = connection.subscription_call(&setup) {
        calls.push(call);
        let code = if next < answers.len() { answers[next] } else { break };
        next += 1;
        setup = setup.advance(code);
    }
    (setup, calls)
}

fn field(name: &'static str, unit: &'static str) -> DataField {
    DataField {
        name,
        unit,
        data_type: DataType::Float64,
        epsilon: Binary32 { bits: POSITION_EPSILON_BITS },
    }
}

fn register(name: &'static str, unit: &'static str) -> HostCall {
    HostCall::AddToDataDefinition {
        handle: HANDLE,
        definition: ClientDataDefinition::AircraftPositionInformation,
        field: field(name, unit),
    }
}

fn request() -> HostCall {
    HostCall::RequestDataOnSimObject {
        handle: HANDLE,
        request: Request::AircraftPositionRequest,
        definition: ClientDataDefinition::AircraftPositionInformation,
        object: SimObject::User,
        period: Period::VisualFrame,
        only_when_changed: true,
    }
}

#[test]
fn epsilon_is_a_hundred_thousandth() {
    assert_eq!(f32::from_bits(POSITION_EPSILON_BITS), 0.00001f32);
    assert_eq!(SUBSCRIPTION_STEPS, 4);
}

#[test]
fn setup_registers_three_fields_then_requests() {
    let connection = connected();
    let (setup, calls) = run(&connection, &[0, 0, 0, 0]);
    assert_eq!(setup, Subscription::Active);
    assert_eq!(setup.outcome(), Ok(()));
    assert_eq!(
        calls,
        vec![
            register("PLANE LATITUDE", "Degrees"),
            register("PLANE LONGITUDE", "Degrees"),
            register("PLANE ALTITUDE", "Feet"),
            request(),
        ]
    );
    assert_eq!(connection.subscription_call(&setup), None);
}

#[test]
fn setup_stops_at_the_first_failure() {
    let connection = connected();
    let steps = [
        SubscriptionStep::RegisterLatitude,
        SubscriptionStep::RegisterLongitude,
        SubscriptionStep::RegisterAltitude,
        SubscriptionStep::RequestUpdates,
    ];
    for failing in 0..4 {
        let mut answers = [0, 0, 0, 0];
        answers[failing] = -3;
        if failing < 3 {
            answers[3] = 9;
        }
        let (setup, calls) = run(&connection, &answers);
        let error = SubscriptionError::StepFailed { step: steps[failing], code: -3 };
        assert_eq!(setup, Subscription::Failed { error });
        assert_eq!(setup.outcome(), Err(error));
        assert_eq!(calls.len(), failing + 1);
        assert_eq!(connection.subscription_call(&setup), None);
        assert_eq!(setup.advance(0), setup);
    }
}

#[test]
fn setup_without_a_session_makes_no_call() {
    let connection = SimConnect::new();
    let (setup, calls) = run(&connection, &[0, 0, 0, 0]);
    assert_eq!(setup, Subscription::Failed { error: SubscriptionError::NotConnected });
    assert_eq!(setup.outcome(), Err(SubscriptionError::NotConnected));
    assert!(calls.is_empty());
}

#[test]
fn setup_makes_no_call_once_the_session_is_closed() {
    let mut connection = connected();
    let setup = connection.request_position_updates().advance(0);
    assert_eq!(setup, Subscription::Pending { step: SubscriptionStep::RegisterLongitude });
    assert_eq!(
        connection.subscription_call(&setup),
        Some(register("PLANE LONGITUDE", "Degrees"))
    );
    let _ = connection.close();
    assert_eq!(connection.subscription_call(&setup), None);
    assert_eq!(
        setup.outcome(),
        Err(SubscriptionError::Unfinished { step: SubscriptionStep::RegisterLongitude })
    );
}

#[test]
fn finished_setup_takes_no_more_answers() {
    assert_eq!(Subscription::Active.advance(5), Subscription::Active);
    assert_eq!(Subscription::Active.advance(0), Subscription::Active);
    let failed = Subscription::Failed { error: SubscriptionError::NotConnected };
    assert_eq!(failed.advance(0), failed);
}

#[test]
fn each_step_makes_its_call() {
    assert_eq!(
        SubscriptionStep::RegisterAltitude.host_call(HANDLE),
        register("PLANE ALTITUDE", "Feet")
    );
    assert_eq!(SubscriptionStep::RequestUpdates.host_call(HANDLE), request());
}
