//! From one record of the host to what the consumer is told about it.
//!
//! Decoding never fails: a record the client cannot use yields no
//! notification, and a diagnostic where that is worth a log line.

use crate::domain::le_value;
use crate::domain::AircraftPosition;
use crate::domain::Binary64;
use crate::domain::Notification;
use crate::simconnect::host::HOST_OK;
use crate::simconnect::host::HOST_UNSPECIFIED_FAILURE;
use crate::simconnect::identifiers::Event;
use crate::simconnect::identifiers::Request;
use crate::simconnect::record::recognized;
use crate::simconnect::record::RawRecord;
use crate::simconnect::record::RECORD_EVENT;
use crate::simconnect::record::RECORD_EXCEPTION;
use crate::simconnect::record::RECORD_NO_DATA;
use crate::simconnect::record::RECORD_OBJECT_DATA;
use crate::simconnect::record::RECORD_SESSION_CLOSED;
use crate::simconnect::record::RECORD_SESSION_OPENED;
use vstd::prelude::*;

verus! {

/// The number of bytes a position takes in a record: three binary64 fields.
pub const POSITION_BYTES: usize = 24;

/// How loudly a diagnostic should be logged.
#[derive(Clone, Copy, Debug, PartialEq, Eq, Structural)]
pub enum Severity {
    /// Routine; of interest only when tracing.
    Trace,
    /// Unexpected, and harmless.
    Warn,
    /// Something went wrong on the way to the host or back.
    Error,
}

/// What the client has to say about a record that it does not pass on.
#[derive(Clone, Copy, Debug, PartialEq, Eq, Structural)]
pub enum Diagnostic {
    /// The host had nothing to deliver.
    NoData,
    /// The call that asks for the next record failed with `code`.
    DispatchFailed { code: i32 },
    /// An event arrived whose sub-identifier the client never handed out.
    UnknownEvent { event_id: u32 },
    /// Object data arrived for a request the client does not know.
    UnhandledRequest { request_id: u32 },
    /// Object data for the position request was too short to hold a position.
    TruncatedPosition { length: usize },
    /// An earlier call of the client raised an exception in the host.
    HostException { exception: u32, send_id: u32, index: u32 },
    /// A record of a kind the client does not know.
    UnknownRecord { kind: u32 },
}

impl Diagnostic {
    /// How loudly this diagnostic should be logged.
    pub open spec fn level(self) -> Severity {
        match self {
            Diagnostic::NoData => Severity::Trace,
            Diagnostic::UnknownRecord { .. } => Severity::Trace,
            Diagnostic::UnhandledRequest { .. } => Severity::Warn,
            Diagnostic::TruncatedPosition { .. } => Severity::Warn,
            Diagnostic::DispatchFailed { .. } => Severity::Error,
            Diagnostic::UnknownEvent { .. } => Severity::Error,
            Diagnostic::HostException { .. } => Severity::Error,
        }
    }

    /// How loudly this diagnostic should be logged.
    pub fn severity(&self) -> (severity: Severity)
        ensures
            severity == self.level(),
    {
        match self {
            Diagnostic::NoData => Severity::Trace,
            Diagnostic::UnknownRecord { .. } => Severity::Trace,
            Diagnostic::UnhandledRequest { .. } => Severity::Warn,
            Diagnostic::TruncatedPosition { .. } => Severity::Warn,
            Diagnostic::DispatchFailed { .. } => Severity::Error,
            Diagnostic::UnknownEvent { .. } => Severity::Error,
            Diagnostic::HostException { .. } => Severity::Error,
        }
    }
}

/// The position that a data block starts with: latitude, longitude and
/// altitude, eight little-endian bytes each.
pub open spec fn position_of(payload: Seq<u8>) -> AircraftPosition
    recommends
        payload.len() >= POSITION_BYTES,
{
    AircraftPosition {
        latitude: Binary64 { bits: le_value(payload.subrange(0, 8)) as u64 },
        longitude: Binary64 { bits: le_value(payload.subrange(8, 16)) as u64 },
        altitude: Binary64 { bits: le_value(payload.subrange(16, 24)) as u64 },
    }
}

impl RawRecord {
    /// Whether the record answers the position request with enough bytes.
    pub open spec fn carries_position(&self) -> bool {
        &&& self.kind == RECORD_OBJECT_DATA
        &&& Request::of(self.id) == Some(Request::AircraftPositionRequest)
        &&& self.payload@.len() >= POSITION_BYTES
    }

    /// What the consumer is told about the record, if anything.
    pub open spec fn notification(&self) -> Option<Notification> {
        if self.kind == RECORD_SESSION_OPENED {
            Some(Notification::Connected)
        } else if self.kind == RECORD_SESSION_CLOSED {
            Some(Notification::Disconnected)
        } else if self.carries_position() {
            Some(Notification::PositionUpdate(position_of(self.payload@)))
        } else {
            None
        }
    }

    /// What the client logs about the record, if anything.
    pub open spec fn diagnostic(&self) -> Option<Diagnostic> {
        if self.kind == RECORD_NO_DATA {
            Some(Diagnostic::NoData)
        } else if self.kind == RECORD_SESSION_OPENED || self.kind == RECORD_SESSION_CLOSED {
            None
        } else if self.kind == RECORD_EVENT {
            if Event::of(self.id) is Some {
                None
            } else {
                Some(Diagnostic::UnknownEvent { event_id: self.id })
            }
        } else if self.kind == RECORD_OBJECT_DATA {
            if Request::of(self.id) is None {
                Some(Diagnostic::UnhandledRequest { request_id: self.id })
            } else if self.payload@.len() < POSITION_BYTES {
                Some(Diagnostic::TruncatedPosition { length: self.payload@.len() as usize })
            } else {
                None
            }
        } else if self.kind == RECORD_EXCEPTION {
            Some(
                Diagnostic::HostException {
                    exception: self.id,
                    send_id: self.send_id,
                    index: self.index,
                },
            )
        } else {
            Some(Diagnostic::UnknownRecord { kind: self.kind })
        }
    }
}

/// Reads the position that `payload` starts with; `None` where `payload`
/// is too short to hold one.
fn read_position(payload: &[u8]) -> (position: Option<AircraftPosition>)
    ensures
        position is Some <==> payload@.len() >= POSITION_BYTES,
        position matches Some(found) ==> found == position_of(payload@) && found.le_bytes()
            == payload@.subrange(0, POSITION_BYTES as int),
{
    let latitude = Binary64::from_le_bytes(payload, 0);
    let longitude = Binary64::from_le_bytes(payload, 8);
    let altitude = Binary64::from_le_bytes(payload, 16);
    match (latitude, longitude, altitude) {
        (Some(latitude), Some(longitude), Some(altitude)) => {
            let position = AircraftPosition { latitude, longitude, altitude };
            assert(position.le_bytes() =~= payload@.subrange(0, POSITION_BYTES as int));
            Some(position)
        },
        _ => None,
    }
}

/// Decodes one record of the host.
///
/// A session that opens or closes is passed on as such; an answer to the
/// position request is passed on as the position in its first 24 bytes.
/// Every other record yields `None`: no data, events, answers to requests
/// the client does not know, answers too short to hold a position,
/// exceptions, and kinds the client does not know.
pub fn decode(record: &RawRecord) -> (notification: Option<Notification>)
    ensures
        notification == record.notification(),
{
    if record.kind == RECORD_SESSION_OPENED {
        Some(Notification::Connected)
    } else if record.kind == RECORD_SESSION_CLOSED {
        Some(Notification::Disconnected)
    } else if record.kind == RECORD_OBJECT_DATA {
        match Request::from_id(record.id) {
            Some(Request::AircraftPositionRequest) => {
                match read_position(record.payload.as_slice()) {
                    Some(position) => Some(Notification::PositionUpdate(position)),
                    None => None,
                }
            },
            None => None,
        }
    } else {
        None
    }
}

/// Says what is worth logging about one record of the host.
///
/// Nothing is logged for a record that is passed on, nor for an event the
/// client asked for. What sets an empty queue apart from a record of an
/// unknown kind is found here, and only here.
pub fn diagnose(record: &RawRecord) -> (diagnostic: Option<Diagnostic>)
    ensures
        diagnostic == record.diagnostic(),
{
    if record.kind == RECORD_NO_DATA {
        Some(Diagnostic::NoData)
    } else if record.kind == RECORD_SESSION_OPENED || record.kind == RECORD_SESSION_CLOSED {
        None
    } else if record.kind == RECORD_EVENT {
        match Event::from_id(record.id) {
            Some(_) => None,
            None => Some(Diagnostic::UnknownEvent { event_id: record.id }),
        }
    } else if record.kind == RECORD_OBJECT_DATA {
        match Request::from_id(record.id) {
            None => Some(Diagnostic::UnhandledRequest { request_id: record.id }),
            Some(_) => {
                if record.payload.len() < POSITION_BYTES {
                    Some(Diagnostic::TruncatedPosition { length: record.payload.len() })
                } else {
                    None
                }
            },
        }
    } else if record.kind == RECORD_EXCEPTION {
        Some(
            Diagnostic::HostException {
                exception: record.id,
                send_id: record.send_id,
                index: record.index,
            },
        )
    } else {
        Some(Diagnostic::UnknownRecord { kind: record.kind })
    }
}

/// What the consumer is told when the host answered the call for the next
/// record with `code` and `record`.
pub open spec fn dispatched(code: i32, record: Option<&RawRecord>) -> Option<Notification> {
    match record {
        Some(record) if code == HOST_OK => record.notification(),
        _ => None,
    }
}

/// What the client logs when the host answered the call for the next record
/// with `code` and `record`.
pub open spec fn dispatch_diagnostic(code: i32, record: Option<&RawRecord>) -> Option<Diagnostic> {
    if code == HOST_UNSPECIFIED_FAILURE {
        None
    } else if code != HOST_OK {
        Some(Diagnostic::DispatchFailed { code })
    } else {
        match record {
            Some(record) => record.diagnostic(),
            None => Some(Diagnostic::NoData),
        }
    }
}

/// Decodes the host's answer to the call for the next record.
///
/// A call that failed yields nothing, and so does one that handed out no
/// record; a record yields what `decode` makes of it.
pub fn decode_dispatch(code: i32, record: Option<&RawRecord>) -> (notification: Option<
    Notification,
>)
    ensures
        notification == dispatched(code, record),
{
    if code != HOST_OK {
        return None;
    }
    match record {
        Some(record) => decode(record),
        None => None,
    }
}

/// Says what is worth logging about the host's answer to the call for the
/// next record.
///
/// An unspecified failure is how some hosts report an empty queue: it is
/// not logged. Any other failure is logged with its status code. Where the
/// call succeeded, the record decides; a missing record counts as an empty
/// queue.
pub fn diagnose_dispatch(code: i32, record: Option<&RawRecord>) -> (diagnostic: Option<Diagnostic>)
    ensures
        diagnostic == dispatch_diagnostic(code, record),
{
    if code == HOST_UNSPECIFIED_FAILURE {
        None
    } else if code != HOST_OK {
        Some(Diagnostic::DispatchFailed { code })
    } else {
        match record {
            Some(record) => diagnose(record),
            None => Some(Diagnostic::NoData),
        }
    }
}

/// A record of a kind the client does not know yields no notification.
pub proof fn lemma_unknown_kind_yields_nothing(record: RawRecord)
    requires
        !recognized(record.kind),
    ensures
        record.notification() is None,
{
}

/// An empty queue and a record of an unknown kind look the same to the
/// consumer, which gets no notification for either, and differ in what is
/// logged.
pub proof fn lemma_no_data_differs_only_in_the_log(no_data: RawRecord, unknown: RawRecord)
    requires
        no_data.kind == RECORD_NO_DATA,
        !recognized(unknown.kind),
    ensures
        no_data.notification() is None,
        no_data.notification() == unknown.notification(),
        no_data.diagnostic() == Some(Diagnostic::NoData),
        unknown.diagnostic() == Some(Diagnostic::UnknownRecord { kind: unknown.kind }),
        no_data.diagnostic() != unknown.diagnostic(),
{
}

/// A session that opens is reported as connected and one that closes as
/// disconnected, whatever else the record carries.
pub proof fn lemma_session_signals(record: RawRecord)
    ensures
        record.kind == RECORD_SESSION_OPENED ==> record.notification() == Some(
            Notification::Connected,
        ),
        record.kind == RECORD_SESSION_CLOSED ==> record.notification() == Some(
            Notification::Disconnected,
        ),
{
}

/// An answer to the position request is passed on as a position whose bytes
/// are the first 24 bytes of the data block, in their order: latitude, then
/// longitude, then altitude.
pub proof fn lemma_position_keeps_its_bytes(record: RawRecord)
    requires
        record.kind == RECORD_OBJECT_DATA,
        record.id == Request::AircraftPositionRequest.number(),
        record.payload@.len() >= POSITION_BYTES,
    ensures
        record.notification() matches Some(Notification::PositionUpdate(position))
            && position.le_bytes() == record.payload@.subrange(0, POSITION_BYTES as int)
            && position.latitude.le_bytes() == record.payload@.subrange(0, 8)
            && position.longitude.le_bytes() == record.payload@.subrange(8, 16)
            && position.altitude.le_bytes() == record.payload@.subrange(16, 24),
{
    let payload = record.payload@;
    let position = position_of(payload);
    crate::domain::lemma_le_round_trip(payload.subrange(0, 8));
    crate::domain::lemma_le_round_trip(payload.subrange(8, 16));
    crate::domain::lemma_le_round_trip(payload.subrange(16, 24));
    assert(position.le_bytes() =~= payload.subrange(0, POSITION_BYTES as int));
}

/// An answer to a request that the client never placed yields no
/// notification.
pub proof fn lemma_unknown_request_yields_nothing(record: RawRecord)
    requires
        record.kind == RECORD_OBJECT_DATA,
        Request::of(record.id) is None,
    ensures
        record.notification() is None,
        record.diagnostic() == Some(Diagnostic::UnhandledRequest { request_id: record.id }),
{
}

/// No event yields a notification: neither one the client asked for nor one
/// it does not know.
pub proof fn lemma_events_yield_nothing(record: RawRecord)
    requires
        record.kind == RECORD_EVENT,
    ensures
        record.notification() is None,
        Event::of(record.id) is Some ==> record.diagnostic() is None,
        Event::of(record.id) is None ==> record.diagnostic() == Some(
            Diagnostic::UnknownEvent { event_id: record.id },
        ),
{
}

/// An exception in the host is logged with its identifiers and never passed
/// on.
pub proof fn lemma_exceptions_are_only_logged(record: RawRecord)
    requires
        record.kind == RECORD_EXCEPTION,
    ensures
        record.notification() is None,
        record.diagnostic() == Some(
            Diagnostic::HostException {
                exception: record.id,
                send_id: record.send_id,
                index: record.index,
            },
        ),
{
}

} // verus!
