//! The state of the session with the host, and what each operation on it
//! asks of the host.
//!
//! Every operation that needs the host comes as a pair: a function that says
//! which call is due, if any, and a function that takes the host's answer
//! and settles the operation. No call is handed out unless a session is
//! held, so nothing reaches the host after `close`.

use crate::domain::Notification;
use crate::simconnect::host::HostCall;
use crate::simconnect::host::TextStyle;
use crate::simconnect::host::CLIENT_NAME;
use crate::simconnect::host::HOST_OK;
use crate::simconnect::identifiers::Event;
use crate::simconnect::decoder::decode_dispatch;
use crate::simconnect::decoder::dispatched;
use crate::simconnect::record::RawRecord;
use vstd::prelude::*;
use vstd::string::StringSliceAdditionalSpecFns;
use vstd::utf8::encode_utf8;

verus! {

/// Whether the client has a live session with the host.
#[derive(Clone, Copy, Debug, PartialEq, Eq, Structural)]
pub enum ConnectionStatus {
    /// No session, or one that failed its last liveness probe.
    Disconnected,
    /// A session that the host opened and that has not been found dead.
    Connected,
}

/// What the client holds of a session.
#[derive(Clone, Copy, Debug, PartialEq, Eq, Structural)]
pub enum Session {
    /// No handle: never connected, or closed.
    Closed,
    /// The handle of a session that is taken to be alive.
    Open { handle: usize },
    /// The handle of a session that failed its last liveness probe. The
    /// handle is still to be released.
    Lost { handle: usize },
}

/// Why `connect` failed.
#[derive(Clone, Copy, Debug, PartialEq, Eq, Structural)]
pub enum ConnectError {
    /// The instance holds a session already; opening another would leak it.
    AlreadyConnected,
    /// The host refused to open a session, with this status code.
    OpenFailed { code: i32 },
}

/// Why a text could not be sent to the user.
#[derive(Clone, Copy, Debug, PartialEq, Eq, Structural)]
pub enum DisplayError {
    /// No session is held.
    NotConnected,
    /// The text holds a zero byte, which ends a text on the host's side.
    InteriorNul,
    /// The text with its closing zero byte is longer than the host can be told.
    TooLong,
}

/// One operation on the connection state, as it runs under exclusive
/// access, with the answer of the host where the operation asks the host.
#[derive(Clone, Copy, Debug, PartialEq, Eq, Structural)]
pub enum Operation {
    /// `connect`, answered with `code` and `handle`.
    Connect { code: i32, handle: usize },
    /// `is_connected`, with the answer to the liveness probe where one was
    /// made.
    CheckConnection { probe: Option<i32> },
    /// The call for the next record.
    Dequeue,
    /// `close`.
    Close,
}

impl Session {
    /// The handle that is held, if one is.
    pub open spec fn handle(self) -> Option<usize> {
        match self {
            Session::Closed => None,
            Session::Open { handle } => Some(handle),
            Session::Lost { handle } => Some(handle),
        }
    }

    /// The connection status that goes with the session.
    pub open spec fn status(self) -> ConnectionStatus {
        if self is Open {
            ConnectionStatus::Connected
        } else {
            ConnectionStatus::Disconnected
        }
    }

    /// What `connect` returns when the host answered the open call with
    /// `code`.
    pub open spec fn connect_result(self, code: i32) -> Result<(), ConnectError> {
        if self !is Closed {
            Err(ConnectError::AlreadyConnected)
        } else if code != HOST_OK {
            Err(ConnectError::OpenFailed { code })
        } else {
            Ok(())
        }
    }

    /// The session after `connect`, when the host answered the open call
    /// with `code` and `handle`.
    pub open spec fn connected(self, code: i32, handle: usize) -> Session {
        if self.connect_result(code) is Ok {
            Session::Open { handle }
        } else {
            self
        }
    }

    /// Whether the session is alive, given the host's answer to the
    /// liveness probe (`None` where no probe was made).
    pub open spec fn alive(self, probe: Option<i32>) -> bool {
        self.handle() is Some && probe == Some(HOST_OK)
    }

    /// The session after a liveness probe.
    pub open spec fn probed(self, probe: Option<i32>) -> Session {
        match self.handle() {
            None => Session::Closed,
            Some(handle) => if probe == Some(HOST_OK) {
                Session::Open { handle }
            } else {
                Session::Lost { handle }
            },
        }
    }

    /// The call that releases the session, if there is something to release.
    pub open spec fn release(self) -> Option<HostCall> {
        match self.handle() {
            None => None,
            Some(handle) => Some(HostCall::Close { handle }),
        }
    }

    /// The liveness probe, if there is a session to probe.
    pub open spec fn probe(self) -> Option<HostCall> {
        match self.handle() {
            None => None,
            Some(handle) => Some(HostCall::QueryLastPacketId { handle }),
        }
    }

    /// The call for the next record, if there is a session to ask.
    pub open spec fn dequeue(self) -> Option<HostCall> {
        match self.handle() {
            None => None,
            Some(handle) => Some(HostCall::GetNextDispatch { handle }),
        }
    }

    /// The session after `operation`.
    pub open spec fn after(self, operation: Operation) -> Session {
        match operation {
            Operation::Connect { code, handle } => self.connected(code, handle),
            Operation::CheckConnection { probe } => self.probed(probe),
            Operation::Dequeue => self,
            Operation::Close => Session::Closed,
        }
    }

    /// The call that passes a handle to the host in the course of
    /// `operation`, if there is one.
    pub open spec fn call_in(self, operation: Operation) -> Option<HostCall> {
        match operation {
            Operation::Connect { .. } => None,
            Operation::CheckConnection { .. } => self.probe(),
            Operation::Dequeue => self.dequeue(),
            Operation::Close => self.release(),
        }
    }

    /// The session after `operations`, one after the other.
    pub open spec fn after_all(self, operations: Seq<Operation>) -> Session
        decreases operations.len(),
    {
        if operations.len() == 0 {
            self
        } else {
            self.after_all(operations.drop_last()).after(operations.last())
        }
    }

    /// What the consumer is told when the host answered the call for the
    /// next record with `code` and `record`.
    pub open spec fn next_notification(self, code: i32, record: Option<&RawRecord>) -> Option<
        Notification,
    > {
        if self.handle() is None {
            None
        } else {
            dispatched(code, record)
        }
    }
}

/// The connection state: owner of the session handle.
#[derive(Debug)]
pub struct SimConnect {
    session: Session,
}

impl View for SimConnect {
    type V = Session;

    closed spec fn view(&self) -> Session {
        self.session
    }
}

/// Whether `bytes` holds a zero byte.
fn holds_zero(bytes: &[u8]) -> (found: bool)
    ensures
        found == bytes@.contains(0u8),
{
    let mut i: usize = 0;
    while i < bytes.len()
        invariant
            i <= bytes@.len(),
            forall|j: int| 0 <= j < i ==> bytes@[j] != 0u8,
        decreases bytes@.len() - i,
    {
        if bytes[i] == 0 {
            return true;
        }
        i += 1;
    }
    false
}

impl SimConnect {
    /// A connection state that holds no session.
    pub fn new() -> (connection: SimConnect)
        ensures
            connection@ == Session::Closed,
    {
        SimConnect { session: Session::Closed }
    }

    /// The connection status.
    pub fn status(&self) -> (status: ConnectionStatus)
        ensures
            status == self@.status(),
    {
        match self.session {
            Session::Open { .. } => ConnectionStatus::Connected,
            _ => ConnectionStatus::Disconnected,
        }
    }

    /// Whether a session handle is held.
    pub fn holds_session(&self) -> (held: bool)
        ensures
            held == self@.handle() is Some,
    {
        match self.session {
            Session::Closed => false,
            _ => true,
        }
    }

    /// The handle that is held, for the calls that pass it to the host.
    pub(crate) fn session_handle(&self) -> (handle: Option<usize>)
        ensures
            handle == self@.handle(),
    {
        match self.session {
            Session::Closed => None,
            Session::Open { handle } => Some(handle),
            Session::Lost { handle } => Some(handle),
        }
    }

    /// The call that opens a session. It is refused while a session is
    /// held: the handle of that session would be lost.
    pub fn open_call(&self) -> (call: Result<HostCall, ConnectError>)
        ensures
            self@ is Closed ==> call == Ok::<HostCall, ConnectError>(
                HostCall::Open { client_name: CLIENT_NAME },
            ),
            self@ !is Closed ==> call == Err::<HostCall, ConnectError>(
                ConnectError::AlreadyConnected,
            ),
    {
        match self.session {
            Session::Closed => Ok(HostCall::Open { client_name: CLIENT_NAME }),
            _ => Err(ConnectError::AlreadyConnected),
        }
    }

    /// Settles an attempt to connect: `code` and `handle` are what the host
    /// answered to the open call.
    ///
    /// On status `0` the handle is stored and the status is `Connected`. On
    /// any other status nothing is stored and the status code comes back in
    /// the error. While a session is held the attempt fails and the session
    /// stays as it is.
    pub fn connect(&mut self, code: i32, handle: usize) -> (result: Result<(), ConnectError>)
        ensures
            result == old(self)@.connect_result(code),
            final(self)@ == old(self)@.connected(code, handle),
    {
        match self.session {
            Session::Closed => {
                if code != HOST_OK {
                    Err(ConnectError::OpenFailed { code })
                } else {
                    self.session = Session::Open { handle };
                    Ok(())
                }
            },
            _ => Err(ConnectError::AlreadyConnected),
        }
    }

    /// The liveness probe that `is_connected` needs answered; `None` where
    /// no session is held and the answer is `false` without asking.
    pub fn probe_call(&self) -> (call: Option<HostCall>)
        ensures
            call == self@.probe(),
    {
        match self.session {
            Session::Closed => None,
            Session::Open { handle } => Some(HostCall::QueryLastPacketId { handle }),
            Session::Lost { handle } => Some(HostCall::QueryLastPacketId { handle }),
        }
    }

    /// Whether the client is connected, given the host's answer to the
    /// liveness probe (`None` where no probe was made).
    ///
    /// Without a session the answer is `false`. With one it is `true` only
    /// where the probe succeeded; a probe that failed, or was not made,
    /// means that the connection is lost.
    pub fn is_connected(&mut self, probe: Option<i32>) -> (connected: bool)
        ensures
            connected == old(self)@.alive(probe),
            final(self)@ == old(self)@.probed(probe),
            connected == (final(self)@.status() == ConnectionStatus::Connected),
    {
        let answered = match probe {
            Some(code) => code == HOST_OK,
            None => false,
        };
        match self.session {
            Session::Closed => false,
            Session::Open { handle } => {
                if !answered {
                    self.session = Session::Lost { handle };
                }
                answered
            },
            Session::Lost { handle } => {
                if answered {
                    self.session = Session::Open { handle };
                }
                answered
            },
        }
    }

    /// Gives up the session: afterwards no handle is held. The call that
    /// releases the handle is returned the first time and never again.
    pub fn close(&mut self) -> (call: Option<HostCall>)
        ensures
            call == old(self)@.release(),
            final(self)@ == Session::Closed,
    {
        let call = match self.session {
            Session::Closed => None,
            Session::Open { handle } => Some(HostCall::Close { handle }),
            Session::Lost { handle } => Some(HostCall::Close { handle }),
        };
        self.session = Session::Closed;
        call
    }

    /// The call that takes the next record off the host's queue; `None`
    /// where no session is held.
    pub fn dequeue_call(&self) -> (call: Option<HostCall>)
        ensures
            call == self@.dequeue(),
    {
        match self.session {
            Session::Closed => None,
            Session::Open { handle } => Some(HostCall::GetNextDispatch { handle }),
            Session::Lost { handle } => Some(HostCall::GetNextDispatch { handle }),
        }
    }

    /// The next notification, given the host's answer to the call for the
    /// next record.
    ///
    /// There is none where no session is held, where the call failed, or
    /// where the host handed out no record; else it is what the decoder
    /// makes of the record.
    pub fn get_next_notification(&self, code: i32, record: Option<&RawRecord>) -> (notification:
        Option<Notification>)
        ensures
            notification == self@.next_notification(code, record),
    {
        match self.session {
            Session::Closed => None,
            _ => decode_dispatch(code, record),
        }
    }

    /// The call that shows `message` to the user for `seconds` seconds, in
    /// white print.
    ///
    /// The host is told the length of the text with its closing zero byte.
    /// The call is refused where no session is held, where the text holds a
    /// zero byte itself, and where that length does not fit 32 bits.
    pub fn display_message_to_user(&self, message: String, seconds: u64) -> (call: Result<
        HostCall,
        DisplayError,
    >)
        ensures
            self@.handle() is None ==> call == Err::<HostCall, DisplayError>(
                DisplayError::NotConnected,
            ),
            self@.handle() is Some && encode_utf8(message@).contains(0u8) ==> call == Err::<
                HostCall,
                DisplayError,
            >(DisplayError::InteriorNul),
            self@.handle() is Some && !encode_utf8(message@).contains(0u8)
                && encode_utf8(message@).len() >= u32::MAX ==> call == Err::<
                HostCall,
                DisplayError,
            >(DisplayError::TooLong),
            self@.handle() is Some && !encode_utf8(message@).contains(0u8)
                && encode_utf8(message@).len() < u32::MAX ==> call == Ok::<
                HostCall,
                DisplayError,
            >(
                HostCall::Text {
                    handle: self@.handle().unwrap(),
                    style: TextStyle::PrintWhite,
                    seconds,
                    event: Event::UserTextDisplay,
                    size: (encode_utf8(message@).len() + 1) as u32,
                    message,
                },
            ),
    {
        let handle = match self.session {
            Session::Closed => {
                return Err(DisplayError::NotConnected);
            },
            Session::Open { handle } => handle,
            Session::Lost { handle } => handle,
        };
        let length = message.as_str().as_bytes().len();
        if holds_zero(message.as_str().as_bytes()) {
            return Err(DisplayError::InteriorNul);
        }
        if length >= u32::MAX as usize {
            return Err(DisplayError::TooLong);
        }
        let size: u32 = (length + 1) as u32;
        Ok(
            HostCall::Text {
                handle,
                style: TextStyle::PrintWhite,
                seconds,
                event: Event::UserTextDisplay,
                size,
                message,
            },
        )
    }
}

/// Closing twice releases once: whatever was held, the first `close` hands
/// out the one call that releases it and leaves nothing behind, so that the
/// second finds nothing to release and changes nothing.
pub proof fn lemma_close_is_idempotent(session: Session)
    ensures
        session.release() is Some <==> session.handle() is Some,
        session.release() matches Some(call) ==> call == (HostCall::Close {
            handle: session.handle().unwrap(),
        }),
        Session::Closed.release() is None,
        Session::Closed.handle() is None,
{
}

/// Without a session the client is not connected, and says so without
/// asking the host: this holds of a new instance and after `close`.
pub proof fn lemma_not_connected_without_session(probe: Option<i32>)
    ensures
        Session::Closed.status() == ConnectionStatus::Disconnected,
        Session::Closed.probe() is None,
        !Session::Closed.alive(probe),
        Session::Closed.probed(probe) == Session::Closed,
{
}

/// Nothing reaches the host once the session is closed: no probe, no
/// dequeue and no release is handed out, and a record that still comes in
/// is not decoded.
pub proof fn lemma_nothing_after_close(code: i32, record: Option<&RawRecord>)
    ensures
        Session::Closed.probe() is None,
        Session::Closed.dequeue() is None,
        Session::Closed.release() is None,
        Session::Closed.next_notification(code, record) is None,
{
}

/// Every call that is handed out passes the handle that is held, and no
/// other.
pub proof fn lemma_calls_pass_the_held_handle(session: Session)
    ensures
        session.probe() matches Some(call) ==> call.handle() == session.handle(),
        session.dequeue() matches Some(call) ==> call.handle() == session.handle(),
        session.release() matches Some(call) ==> call.handle() == session.handle(),
{
}

/// The status is `Connected` only while a handle is held: after a
/// successful open, or after a probe of a held session succeeded. A failed
/// open leaves the instance as it was, and a failed probe keeps the handle
/// for its release.
pub proof fn lemma_connected_needs_a_handle(
    session: Session,
    code: i32,
    handle: usize,
    probe: Option<i32>,
)
    ensures
        session.status() == ConnectionStatus::Connected ==> session.handle() is Some,
        session.connect_result(code) is Ok <==> session is Closed && code == HOST_OK,
        session.connect_result(code) is Ok ==> session.connected(code, handle) == (Session::Open {
            handle,
        }),
        session.connect_result(code) is Err ==> session.connected(code, handle) == session,
        session.probed(probe).handle() == session.handle(),
        session.probed(probe).status() == ConnectionStatus::Connected <==> session.alive(probe),
{
}

/// No use after close, in whatever order operations follow each other:
/// once a `close` ran, no later operation passes a handle to the host,
/// unless a `connect` in between opened a new session.
///
/// Operations that run under exclusive access run one after the other, so
/// that this holds of every way in which the poller and the command issuer
/// can take turns.
pub proof fn lemma_no_use_after_close(
    session: Session,
    operations: Seq<Operation>,
    closed_at: int,
    later: int,
)
    requires
        0 <= closed_at < later < operations.len(),
        operations[closed_at] == Operation::Close,
        forall|i: int| closed_at < i < later ==> operations[i] !is Connect,
    ensures
        session.after_all(operations.take(later)) == Session::Closed,
        session.after_all(operations.take(later)).call_in(operations[later]) is None,
    decreases later - closed_at,
{
    let before = operations.take(later);
    assert(before.drop_last() == operations.take(later - 1));
    assert(before.last() == operations[later - 1]);
    if later - 1 > closed_at {
        lemma_no_use_after_close(session, operations, closed_at, later - 1);
    }
}

} // verus!
