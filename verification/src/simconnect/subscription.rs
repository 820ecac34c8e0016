//! Setting up the delivery of aircraft positions.
//!
//! After a successful connect the client registers the three fields of a
//! position, in the order in which it later reads them, and then asks for
//! the position of the user's aircraft on every visual frame on which it
//! changed. The first call that fails ends the setup; what was registered
//! stays registered, as the host cannot take it back.

use crate::domain::Binary32;
use crate::simconnect::connection::Session;
use crate::simconnect::connection::SimConnect;
use crate::simconnect::host::DataField;
use crate::simconnect::host::DataType;
use crate::simconnect::host::HostCall;
use crate::simconnect::host::Period;
use crate::simconnect::host::SimObject;
use crate::simconnect::host::HOST_OK;
use crate::simconnect::identifiers::ClientDataDefinition;
use crate::simconnect::identifiers::Request;
use vstd::prelude::*;

verus! {

/// The change of a position field below which the host sends no update,
/// as the bit pattern of a binary32 number: the one nearest to 0.00001.
pub const POSITION_EPSILON_BITS: u32 = 0x3727_c5ac;

/// The number of calls that the setup makes when none fails.
pub const SUBSCRIPTION_STEPS: usize = 4;

/// The steps of the setup, in their order.
#[derive(Clone, Copy, Debug, PartialEq, Eq, Structural)]
pub enum SubscriptionStep {
    /// Register the latitude as the first field of the layout.
    RegisterLatitude,
    /// Register the longitude as the second field of the layout.
    RegisterLongitude,
    /// Register the altitude as the third field of the layout.
    RegisterAltitude,
    /// Ask for the position on every visual frame on which it changed.
    RequestUpdates,
}

/// Why the setup failed. After a failure the session cannot be relied upon
/// to deliver positions: close it and connect again.
#[derive(Clone, Copy, Debug, PartialEq, Eq, Structural)]
pub enum SubscriptionError {
    /// No session is held.
    NotConnected,
    /// The host answered the call of `step` with the status `code`.
    StepFailed { step: SubscriptionStep, code: i32 },
    /// The setup was left before its last step was answered; `step` is the
    /// one that is due.
    Unfinished { step: SubscriptionStep },
}

/// How far the setup has come.
#[derive(Clone, Copy, Debug, PartialEq, Eq, Structural)]
pub enum Subscription {
    /// The call of `step` is due.
    Pending { step: SubscriptionStep },
    /// Every step succeeded: positions will arrive.
    Active,
    /// A step failed: no further call is made.
    Failed { error: SubscriptionError },
}

impl SubscriptionStep {
    /// The step at place `index` of the setup, counted from 0.
    pub open spec fn at(index: int) -> SubscriptionStep
        recommends
            0 <= index < SUBSCRIPTION_STEPS,
    {
        if index == 0 {
            SubscriptionStep::RegisterLatitude
        } else if index == 1 {
            SubscriptionStep::RegisterLongitude
        } else if index == 2 {
            SubscriptionStep::RegisterAltitude
        } else {
            SubscriptionStep::RequestUpdates
        }
    }

    /// What the setup has come to once this step succeeded.
    pub open spec fn next(self) -> Subscription {
        match self {
            SubscriptionStep::RegisterLatitude => Subscription::Pending {
                step: SubscriptionStep::RegisterLongitude,
            },
            SubscriptionStep::RegisterLongitude => Subscription::Pending {
                step: SubscriptionStep::RegisterAltitude,
            },
            SubscriptionStep::RegisterAltitude => Subscription::Pending {
                step: SubscriptionStep::RequestUpdates,
            },
            SubscriptionStep::RequestUpdates => Subscription::Active,
        }
    }

    /// The field that the step registers, where it registers one.
    pub open spec fn field(self) -> Option<DataField> {
        match self {
            SubscriptionStep::RegisterLatitude => Some(
                DataField {
                    name: "PLANE LATITUDE",
                    unit: "Degrees",
                    data_type: DataType::Float64,
                    epsilon: Binary32 { bits: POSITION_EPSILON_BITS },
                },
            ),
            SubscriptionStep::RegisterLongitude => Some(
                DataField {
                    name: "PLANE LONGITUDE",
                    unit: "Degrees",
                    data_type: DataType::Float64,
                    epsilon: Binary32 { bits: POSITION_EPSILON_BITS },
                },
            ),
            SubscriptionStep::RegisterAltitude => Some(
                DataField {
                    name: "PLANE ALTITUDE",
                    unit: "Feet",
                    data_type: DataType::Float64,
                    epsilon: Binary32 { bits: POSITION_EPSILON_BITS },
                },
            ),
            SubscriptionStep::RequestUpdates => None,
        }
    }

    /// The call that the step makes on the session `handle`.
    pub open spec fn call(self, handle: usize) -> HostCall {
        match self.field() {
            Some(field) => HostCall::AddToDataDefinition {
                handle,
                definition: ClientDataDefinition::AircraftPositionInformation,
                field,
            },
            None => HostCall::RequestDataOnSimObject {
                handle,
                request: Request::AircraftPositionRequest,
                definition: ClientDataDefinition::AircraftPositionInformation,
                object: SimObject::User,
                period: Period::VisualFrame,
                only_when_changed: true,
            },
        }
    }

    /// The call that the step makes on the session `handle`.
    pub fn host_call(&self, handle: usize) -> (call: HostCall)
        ensures
            call == self.call(handle),
            call.handle() == Some(handle),
    {
        let definition = ClientDataDefinition::AircraftPositionInformation;
        let data_type = DataType::Float64;
        let epsilon = Binary32 { bits: POSITION_EPSILON_BITS };
        match self {
            SubscriptionStep::RegisterLatitude => HostCall::AddToDataDefinition {
                handle,
                definition,
                field: DataField { name: "PLANE LATITUDE", unit: "Degrees", data_type, epsilon },
            },
            SubscriptionStep::RegisterLongitude => HostCall::AddToDataDefinition {
                handle,
                definition,
                field: DataField { name: "PLANE LONGITUDE", unit: "Degrees", data_type, epsilon },
            },
            SubscriptionStep::RegisterAltitude => HostCall::AddToDataDefinition {
                handle,
                definition,
                field: DataField { name: "PLANE ALTITUDE", unit: "Feet", data_type, epsilon },
            },
            SubscriptionStep::RequestUpdates => HostCall::RequestDataOnSimObject {
                handle,
                request: Request::AircraftPositionRequest,
                definition,
                object: SimObject::User,
                period: Period::VisualFrame,
                only_when_changed: true,
            },
        }
    }
}

impl Subscription {
    /// How a setup starts on a given session.
    pub open spec fn begin(session: Session) -> Subscription {
        if session.handle() is Some {
            Subscription::Pending { step: SubscriptionStep::RegisterLatitude }
        } else {
            Subscription::Failed { error: SubscriptionError::NotConnected }
        }
    }

    /// The setup after the host answered the call that was due with `code`.
    pub open spec fn answered(self, code: i32) -> Subscription {
        match self {
            Subscription::Pending { step } => if code == HOST_OK {
                step.next()
            } else {
                Subscription::Failed { error: SubscriptionError::StepFailed { step, code } }
            },
            _ => self,
        }
    }

    /// The call that is due on `session`, if one is.
    pub open spec fn due(self, session: Session) -> Option<HostCall> {
        match (self, session.handle()) {
            (Subscription::Pending { step }, Some(handle)) => Some(step.call(handle)),
            _ => None,
        }
    }

    /// What the setup has come to, as a result.
    pub open spec fn result(self) -> Result<(), SubscriptionError> {
        match self {
            Subscription::Active => Ok(()),
            Subscription::Failed { error } => Err(error),
            Subscription::Pending { step } => Err(SubscriptionError::Unfinished { step }),
        }
    }

    /// The setup after the host answered one call after the other with
    /// `codes`, as far as calls were due.
    pub open spec fn replayed(self, codes: Seq<i32>) -> Subscription
        decreases codes.len(),
    {
        if codes.len() == 0 {
            self
        } else {
            self.answered(codes[0]).replayed(codes.drop_first())
        }
    }

    /// Takes in the host's answer to the call that was due.
    ///
    /// On status `0` the next step is due, or the setup is complete. On any
    /// other status the setup has failed at this step, with that status.
    /// Where no call was due, nothing changes.
    pub fn advance(self, code: i32) -> (next: Subscription)
        ensures
            next == self.answered(code),
    {
        match self {
            Subscription::Pending { step } => {
                if code == HOST_OK {
                    match step {
                        SubscriptionStep::RegisterLatitude => Subscription::Pending {
                            step: SubscriptionStep::RegisterLongitude,
                        },
                        SubscriptionStep::RegisterLongitude => Subscription::Pending {
                            step: SubscriptionStep::RegisterAltitude,
                        },
                        SubscriptionStep::RegisterAltitude => Subscription::Pending {
                            step: SubscriptionStep::RequestUpdates,
                        },
                        SubscriptionStep::RequestUpdates => Subscription::Active,
                    }
                } else {
                    Subscription::Failed { error: SubscriptionError::StepFailed { step, code } }
                }
            },
            other => other,
        }
    }

    /// What the setup has come to: `Ok` once every step succeeded, the
    /// failure where one failed, and `Unfinished` while a call is due.
    pub fn outcome(&self) -> (result: Result<(), SubscriptionError>)
        ensures
            result == self.result(),
    {
        match self {
            Subscription::Active => Ok(()),
            Subscription::Failed { error } => Err(*error),
            Subscription::Pending { step } => Err(SubscriptionError::Unfinished { step: *step }),
        }
    }
}

impl SimConnect {
    /// Starts the setup of position updates: the first step is due where a
    /// session is held, and the setup has failed where none is.
    pub fn request_position_updates(&self) -> (setup: Subscription)
        ensures
            setup == Subscription::begin(self@),
    {
        if self.holds_session() {
            Subscription::Pending { step: SubscriptionStep::RegisterLatitude }
        } else {
            Subscription::Failed { error: SubscriptionError::NotConnected }
        }
    }

    /// The call that the setup needs answered next; `None` once the setup
    /// is complete or has failed, and where no session is held.
    pub fn subscription_call(&self, setup: &Subscription) -> (call: Option<HostCall>)
        ensures
            call == setup.due(self@),
    {
        match (setup, self.session_handle()) {
            (Subscription::Pending { step }, Some(handle)) => Some(step.host_call(handle)),
            _ => None,
        }
    }
}

/// The setup registers latitude, longitude and altitude in this order and
/// then places the request; with every call answered by `0` it is complete
/// after exactly these four calls.
pub proof fn lemma_setup_order(session: Session)
    requires
        session.handle() is Some,
    ensures
        Subscription::begin(session) == (Subscription::Pending {
            step: SubscriptionStep::RegisterLatitude,
        }),
        Subscription::begin(session).answered(HOST_OK) == (Subscription::Pending {
            step: SubscriptionStep::RegisterLongitude,
        }),
        Subscription::begin(session).answered(HOST_OK).answered(HOST_OK) == (Subscription::Pending {
            step: SubscriptionStep::RegisterAltitude,
        }),
        Subscription::begin(session).answered(HOST_OK).answered(HOST_OK).answered(HOST_OK) == (
        Subscription::Pending { step: SubscriptionStep::RequestUpdates }),
        Subscription::begin(session).answered(HOST_OK).answered(HOST_OK).answered(HOST_OK).answered(
            HOST_OK,
        ) == Subscription::Active,
{
}

/// Once the setup is complete or has failed it stays so whatever is
/// answered, and no call is due any more.
pub proof fn lemma_setup_ends(setup: Subscription, session: Session, code: i32)
    requires
        setup !is Pending,
    ensures
        setup.answered(code) == setup,
        setup.due(session) is None,
{
}

/// Without a session no call is due, at whatever point the setup is.
pub proof fn lemma_no_call_without_session(setup: Subscription)
    ensures
        setup.due(Session::Closed) is None,
        Subscription::begin(Session::Closed).result() == Err::<(), SubscriptionError>(
            SubscriptionError::NotConnected,
        ),
{
}

/// Every call of the setup passes the handle of the session that is held,
/// and no other.
pub proof fn lemma_calls_use_the_session(setup: Subscription, session: Session)
    ensures
        setup.due(session) matches Some(call) ==> call.handle() == session.handle(),
{
}

/// What the whole setup comes to, given the host's answers to its calls:
/// where every one of the four answers is `0`, positions will arrive; where
/// answer `i` is the first that is not, the setup has failed at step `i`
/// with that answer, whatever was answered to later calls.
pub proof fn lemma_setup_outcome(session: Session, codes: Seq<i32>)
    requires
        session.handle() is Some,
        codes.len() >= SUBSCRIPTION_STEPS,
    ensures
        (forall|i: int| 0 <= i < SUBSCRIPTION_STEPS ==> codes[i] == HOST_OK)
            ==> Subscription::begin(session).replayed(codes) == Subscription::Active,
        forall|i: int|
            0 <= i < SUBSCRIPTION_STEPS && codes[i] != HOST_OK && (forall|j: int|
                0 <= j < i ==> codes[j] == HOST_OK) ==> Subscription::begin(session).replayed(codes)
                == (Subscription::Failed {
                error: SubscriptionError::StepFailed {
                    step: SubscriptionStep::at(i),
                    code: #[trigger] codes[i],
                },
            }),
{
    let start = Subscription::begin(session);
    let c1 = codes.drop_first();
    let c2 = c1.drop_first();
    let c3 = c2.drop_first();
    let c4 = c3.drop_first();
    let s1 = start.answered(codes[0]);
    let s2 = s1.answered(codes[1]);
    let s3 = s2.answered(codes[2]);
    let s4 = s3.answered(codes[3]);
    assert(c1[0] == codes[1] && c2[0] == codes[2] && c3[0] == codes[3]);
    assert(start.replayed(codes) == s1.replayed(c1));
    assert(s1.replayed(c1) == s2.replayed(c2));
    assert(s2.replayed(c2) == s3.replayed(c3));
    assert(s3.replayed(c3) == s4.replayed(c4));
    lemma_replay_settled(s1, c1);
    lemma_replay_settled(s2, c2);
    lemma_replay_settled(s3, c3);
    lemma_replay_settled(s4, c4);
}

/// A setup that is complete or has failed is what it is after any answers.
proof fn lemma_replay_settled(setup: Subscription, codes: Seq<i32>)
    ensures
        setup !is Pending ==> setup.replayed(codes) == setup,
    decreases codes.len(),
{
    if codes.len() > 0 {
        lemma_replay_settled(setup.answered(codes[0]), codes.drop_first());
    }
}

} // verus!
