//! The records that the host hands out when it is polled.

use vstd::prelude::*;

verus! {

/// Record kind: the host had nothing to deliver.
pub const RECORD_NO_DATA: u32 = 0;

/// Record kind: one of the client's earlier calls raised an exception.
pub const RECORD_EXCEPTION: u32 = 1;

/// Record kind: the session was opened.
pub const RECORD_SESSION_OPENED: u32 = 2;

/// Record kind: the session was closed.
pub const RECORD_SESSION_CLOSED: u32 = 3;

/// Record kind: an event the client subscribed to.
pub const RECORD_EVENT: u32 = 4;

/// Record kind: the answer to a request for data on a simulation object.
pub const RECORD_OBJECT_DATA: u32 = 8;

/// One record as the host delivered it: the kind tag, the identifiers that
/// the client reads, and the bytes the record carries.
#[derive(Clone, Debug)]
pub struct RawRecord {
    /// The record kind, as the host sent it.
    pub kind: u32,
    /// For an event its sub-identifier, for object data the identifier of
    /// the request it answers, for an exception the exception code.
    pub id: u32,
    /// For an exception, the identifier of the call that raised it.
    pub send_id: u32,
    /// For an exception, the position of the offending argument.
    pub index: u32,
    /// The data block of the record.
    pub payload: Vec<u8>,
}

/// Whether the client knows the record kind.
pub open spec fn recognized(kind: u32) -> bool {
    kind == RECORD_NO_DATA || kind == RECORD_EXCEPTION || kind == RECORD_SESSION_OPENED || kind
        == RECORD_SESSION_CLOSED || kind == RECORD_EVENT || kind == RECORD_OBJECT_DATA
}

impl RawRecord {
    /// A record of the given kind that carries nothing else.
    pub fn signal(kind: u32) -> (record: RawRecord)
        ensures
            record.kind == kind,
            record.id == 0,
            record.send_id == 0,
            record.index == 0,
            record.payload@ == Seq::<u8>::empty(),
    {
        RawRecord { kind, id: 0, send_id: 0, index: 0, payload: Vec::new() }
    }

    /// The record of an event with the given sub-identifier.
    pub fn event(event_id: u32) -> (record: RawRecord)
        ensures
            record.kind == RECORD_EVENT,
            record.id == event_id,
            record.send_id == 0,
            record.index == 0,
            record.payload@ == Seq::<u8>::empty(),
    {
        RawRecord { kind: RECORD_EVENT, id: event_id, send_id: 0, index: 0, payload: Vec::new() }
    }

    /// The record that answers the data request `request_id` with `payload`.
    pub fn object_data(request_id: u32, payload: Vec<u8>) -> (record: RawRecord)
        ensures
            record.kind == RECORD_OBJECT_DATA,
            record.id == request_id,
            record.send_id == 0,
            record.index == 0,
            record.payload@ == payload@,
    {
        RawRecord { kind: RECORD_OBJECT_DATA, id: request_id, send_id: 0, index: 0, payload }
    }

    /// The record of an exception raised by the call `send_id`.
    pub fn exception(code: u32, send_id: u32, index: u32) -> (record: RawRecord)
        ensures
            record.kind == RECORD_EXCEPTION,
            record.id == code,
            record.send_id == send_id,
            record.index == index,
            record.payload@ == Seq::<u8>::empty(),
    {
        RawRecord { kind: RECORD_EXCEPTION, id: code, send_id, index, payload: Vec::new() }
    }
}

} // verus!
