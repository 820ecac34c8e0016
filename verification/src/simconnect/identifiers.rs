//! The numbers by which client and host refer to what the client set up.
//!
//! The client picks each number once; the host echoes it in the records that
//! belong to it.

use vstd::prelude::*;

verus! {

/// The events the client asks the host to raise.
#[derive(Clone, Copy, Debug, PartialEq, Eq, Structural)]
pub enum Event {
    /// A text the client sent was shown to the user.
    UserTextDisplay,
}

/// The data requests the client places with the host.
#[derive(Clone, Copy, Debug, PartialEq, Eq, Structural)]
pub enum Request {
    /// The position of the user's aircraft.
    AircraftPositionRequest,
}

/// The data layouts the client registers with the host.
#[derive(Clone, Copy, Debug, PartialEq, Eq, Structural)]
pub enum ClientDataDefinition {
    /// Latitude, longitude and altitude of an aircraft.
    AircraftPositionInformation,
}

impl Event {
    /// The number that stands for the event on the wire.
    pub open spec fn number(self) -> u32 {
        0
    }

    /// The event that `id` stands for, if it stands for one.
    pub open spec fn of(id: u32) -> Option<Event> {
        if id == 0 {
            Some(Event::UserTextDisplay)
        } else {
            None
        }
    }

    /// The number that stands for the event on the wire.
    pub fn id(&self) -> (id: u32)
        ensures
            id == self.number(),
            Event::of(id) == Some(*self),
    {
        match self {
            Event::UserTextDisplay => 0,
        }
    }

    /// The event that `id` stands for; `None` for a number the client never
    /// handed out.
    pub fn from_id(id: u32) -> (event: Option<Event>)
        ensures
            event == Event::of(id),
            event matches Some(e) ==> e.number() == id,
    {
        if id == 0 {
            Some(Event::UserTextDisplay)
        } else {
            None
        }
    }
}

impl Request {
    /// The number that stands for the request on the wire.
    pub open spec fn number(self) -> u32 {
        0
    }

    /// The request that `id` stands for, if it stands for one.
    pub open spec fn of(id: u32) -> Option<Request> {
        if id == 0 {
            Some(Request::AircraftPositionRequest)
        } else {
            None
        }
    }

    /// The number that stands for the request on the wire.
    pub fn id(&self) -> (id: u32)
        ensures
            id == self.number(),
            Request::of(id) == Some(*self),
    {
        match self {
            Request::AircraftPositionRequest => 0,
        }
    }

    /// The request that `id` stands for; `None` for a number the client
    /// never handed out.
    pub fn from_id(id: u32) -> (request: Option<Request>)
        ensures
            request == Request::of(id),
            request matches Some(r) ==> r.number() == id,
    {
        if id == 0 {
            Some(Request::AircraftPositionRequest)
        } else {
            None
        }
    }
}

impl ClientDataDefinition {
    /// The number that stands for the layout on the wire.
    pub open spec fn number(self) -> u32 {
        0
    }

    /// The number that stands for the layout on the wire.
    pub fn id(&self) -> (id: u32)
        ensures
            id == self.number(),
    {
        match self {
            ClientDataDefinition::AircraftPositionInformation => 0,
        }
    }
}

} // verus!
