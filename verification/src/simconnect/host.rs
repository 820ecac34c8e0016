//! The calls that the client asks its driver to make on the host.
//!
//! The library decides which call is due and what its answer means; the
//! driver makes the call and hands back the status code, where `0` says that
//! the call succeeded and any other value that it failed.

use crate::domain::Binary32;
use crate::simconnect::identifiers::ClientDataDefinition;
use crate::simconnect::identifiers::Event;
use crate::simconnect::identifiers::Request;
use vstd::prelude::*;

verus! {

/// The status code with which the host reports success.
pub const HOST_OK: i32 = 0;

/// The status code with which the host reports an unspecified failure
/// (`0x80004005`). Some hosts answer with it when no record is waiting.
pub const HOST_UNSPECIFIED_FAILURE: i32 = -2147467259;

/// The name under which the client opens its session.
pub const CLIENT_NAME: &'static str = "flyg-msfs-client";

/// The numeric type of a field in a data layout.
#[derive(Clone, Copy, Debug, PartialEq, Eq, Structural)]
pub enum DataType {
    /// A 64-bit floating point number.
    Float64,
}

/// The simulation object that a data request is about.
#[derive(Clone, Copy, Debug, PartialEq, Eq, Structural)]
pub enum SimObject {
    /// The aircraft that the user flies.
    User,
}

/// How often the host answers a data request.
#[derive(Clone, Copy, Debug, PartialEq, Eq, Structural)]
pub enum Period {
    /// On every visual frame.
    VisualFrame,
}

/// How a text is shown to the user.
#[derive(Clone, Copy, Debug, PartialEq, Eq, Structural)]
pub enum TextStyle {
    /// Printed in white.
    PrintWhite,
}

/// One field of a data layout: what to read, in which unit and type, and
/// the change below which the host need not send it again.
#[derive(Clone, Copy, Debug, PartialEq, Eq)]
pub struct DataField {
    /// The name of the simulation variable.
    pub name: &'static str,
    /// The unit in which the host reports it.
    pub unit: &'static str,
    /// The numeric type in which the host reports it.
    pub data_type: DataType,
    /// The largest change that the host may keep to itself.
    pub epsilon: Binary32,
}

/// A call on the host.
#[derive(Clone, Debug, PartialEq, Eq)]
pub enum HostCall {
    /// Open a session under the given client name.
    Open { client_name: &'static str },
    /// Close the session and release its handle.
    Close { handle: usize },
    /// Ask for the identifier of the last packet sent: the liveness probe.
    QueryLastPacketId { handle: usize },
    /// Add a field to a data layout.
    AddToDataDefinition { handle: usize, definition: ClientDataDefinition, field: DataField },
    /// Ask for data on a simulation object, laid out as `definition` says.
    RequestDataOnSimObject {
        handle: usize,
        request: Request,
        definition: ClientDataDefinition,
        object: SimObject,
        period: Period,
        only_when_changed: bool,
    },
    /// Take the next record off the queue, without waiting for one.
    GetNextDispatch { handle: usize },
    /// Show a text to the user for some seconds.
    Text {
        handle: usize,
        style: TextStyle,
        seconds: u64,
        event: Event,
        size: u32,
        message: String,
    },
}

/// Whether a status code of the host reports success.
pub fn succeeded(code: i32) -> (ok: bool)
    ensures
        ok == (code == HOST_OK),
{
    code == HOST_OK
}

impl HostCall {
    /// The session handle that the call passes to the host, if it passes one.
    pub open spec fn handle(self) -> Option<usize> {
        match self {
            HostCall::Open { .. } => None,
            HostCall::Close { handle } => Some(handle),
            HostCall::QueryLastPacketId { handle } => Some(handle),
            HostCall::AddToDataDefinition { handle, .. } => Some(handle),
            HostCall::RequestDataOnSimObject { handle, .. } => Some(handle),
            HostCall::GetNextDispatch { handle } => Some(handle),
            HostCall::Text { handle, .. } => Some(handle),
        }
    }
}

} // verus!
