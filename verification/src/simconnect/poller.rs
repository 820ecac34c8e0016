//! The polling cycle: what to do next, given what just happened.
//!
//! The poller makes no call and never sleeps. It is told what happened and
//! answers with what its driver is to do next: check the connection, take a
//! record off the host's queue, hand a notification to the consumer and
//! pause, or stop. The driver holds exclusive access to the connection state
//! for the one call that an action asks for and gives it up before it comes
//! back with the outcome, so that nothing is decoded or delivered under it.

use crate::domain::Notification;
use crate::simconnect::decoder::decode_dispatch;
use crate::simconnect::decoder::dispatched;
use crate::simconnect::host::HOST_OK;
use crate::simconnect::record::RawRecord;
use vstd::prelude::*;

verus! {

/// The pause after an iteration that found the client disconnected, in
/// milliseconds, unless configured otherwise.
pub const DEFAULT_BACKOFF_MILLIS: u64 = 5000;

/// The pause after an iteration that asked the host for a record, in
/// milliseconds, unless configured otherwise.
pub const DEFAULT_INTERVAL_MILLIS: u64 = 100;

/// The pauses of the polling cycle.
#[derive(Clone, Copy, Debug, PartialEq, Eq, Structural)]
pub struct PollerConfig {
    /// How long to wait before the connection is checked again after it was
    /// found down, in milliseconds.
    pub backoff_millis: u64,
    /// How long to wait between two polls of a host that is connected, in
    /// milliseconds.
    pub interval_millis: u64,
}

/// Where the polling cycle stands.
#[derive(Clone, Copy, Debug, PartialEq, Eq, Structural)]
pub enum PollerState {
    /// The connection was down when last checked, or was never checked.
    WaitingForConnection,
    /// The connection was up when last checked: records are taken.
    Draining,
    /// The shutdown signal was seen: the cycle is over.
    Stopped,
}

/// What happened since the poller last answered.
#[derive(Clone, Debug)]
pub enum PollerEvent {
    /// The cycle starts, or a pause is over; `shutdown` says whether the
    /// shutdown signal is up.
    Resumed { shutdown: bool },
    /// The connection was checked.
    ConnectionChecked { connected: bool },
    /// The host answered the call for the next record with `code`, and with
    /// `record` where it handed one out.
    Dequeued { code: i32, record: Option<RawRecord> },
}

/// What the driver of the poller is to do next.
#[derive(Clone, Copy, Debug, PartialEq, Eq, Structural)]
pub enum PollerAction {
    /// Leave the cycle.
    Stop,
    /// Ask the connection state whether the client is connected, and come
    /// back with `ConnectionChecked`.
    CheckConnection,
    /// Take the next record off the host's queue, and come back with
    /// `Dequeued`.
    Dequeue,
    /// Hand `deliver` to the consumer where it holds a notification, wait
    /// `millis` milliseconds, and come back with `Resumed`.
    Pause { deliver: Option<Notification>, millis: u64 },
}

impl PollerEvent {
    /// What came of the attempt to take a record off the host's queue.
    ///
    /// `answer` holds the status code and the record with which the host
    /// answered the call, or nothing where no call was due because no
    /// session was held any more: that counts as a connection found down.
    pub fn dequeued(answer: Option<(i32, Option<RawRecord>)>) -> (event: PollerEvent)
        ensures
            answer matches Some((code, record)) ==> event == (PollerEvent::Dequeued {
                code,
                record,
            }),
            answer is None ==> event == (PollerEvent::ConnectionChecked { connected: false }),
    {
        match answer {
            Some((code, record)) => PollerEvent::Dequeued { code, record },
            None => PollerEvent::ConnectionChecked { connected: false },
        }
    }

    /// What the consumer would be told about the event by a poller that is
    /// draining: the notification in the record of a successful dequeue.
    pub open spec fn notification(self) -> Option<Notification> {
        match self {
            PollerEvent::Dequeued { code, record: Some(record) } => dispatched(code, Some(&record)),
            _ => None,
        }
    }
}

impl PollerAction {
    /// The notification that the action hands to the consumer, if any.
    pub open spec fn delivery(self) -> Option<Notification> {
        match self {
            PollerAction::Pause { deliver, .. } => deliver,
            _ => None,
        }
    }
}

impl PollerState {
    /// The state after `event`.
    pub open spec fn after(self, event: PollerEvent) -> PollerState {
        match (self, event) {
            (PollerState::Stopped, _) => PollerState::Stopped,
            (_, PollerEvent::Resumed { shutdown }) => if shutdown {
                PollerState::Stopped
            } else {
                self
            },
            (_, PollerEvent::ConnectionChecked { connected }) => if connected {
                PollerState::Draining
            } else {
                PollerState::WaitingForConnection
            },
            (_, PollerEvent::Dequeued { .. }) => self,
        }
    }

    /// The action with which `event` is answered in this state.
    pub open spec fn answer(self, config: PollerConfig, event: PollerEvent) -> PollerAction {
        match (self, event) {
            (PollerState::Stopped, _) => PollerAction::Stop,
            (_, PollerEvent::Resumed { shutdown }) => if shutdown {
                PollerAction::Stop
            } else {
                PollerAction::CheckConnection
            },
            (_, PollerEvent::ConnectionChecked { connected }) => if connected {
                PollerAction::Dequeue
            } else {
                PollerAction::Pause { deliver: None, millis: config.backoff_millis }
            },
            (PollerState::Draining, PollerEvent::Dequeued { .. }) => PollerAction::Pause {
                deliver: event.notification(),
                millis: config.interval_millis,
            },
            (_, PollerEvent::Dequeued { .. }) => PollerAction::Pause {
                deliver: None,
                millis: config.backoff_millis,
            },
        }
    }

    /// The notifications that reach the consumer, in their order, when
    /// `events` happen one after the other from this state on.
    pub open spec fn deliveries(self, config: PollerConfig, events: Seq<PollerEvent>) -> Seq<
        Notification,
    >
        decreases events.len(),
    {
        if events.len() == 0 {
            Seq::empty()
        } else {
            let rest = self.after(events[0]).deliveries(config, events.drop_first());
            match self.answer(config, events[0]).delivery() {
                Some(notification) => seq![notification] + rest,
                None => rest,
            }
        }
    }
}

/// The notifications that a sequence of events holds, in their order.
pub open spec fn notifications_in(events: Seq<PollerEvent>) -> Seq<Notification>
    decreases events.len(),
{
    if events.len() == 0 {
        Seq::empty()
    } else {
        match events[0].notification() {
            Some(notification) => seq![notification] + notifications_in(events.drop_first()),
            None => notifications_in(events.drop_first()),
        }
    }
}

impl PollerConfig {
    /// The usual pauses: five seconds after a check that found the
    /// connection down, a tenth of a second between two polls.
    pub fn standard() -> (config: PollerConfig)
        ensures
            config.backoff_millis == DEFAULT_BACKOFF_MILLIS,
            config.interval_millis == DEFAULT_INTERVAL_MILLIS,
    {
        PollerConfig {
            backoff_millis: DEFAULT_BACKOFF_MILLIS,
            interval_millis: DEFAULT_INTERVAL_MILLIS,
        }
    }
}

/// The polling cycle.
#[derive(Debug)]
pub struct Poller {
    config: PollerConfig,
    state: PollerState,
}

impl Poller {
    /// The state of the cycle.
    pub closed spec fn state(&self) -> PollerState {
        self.state
    }

    /// The pauses of the cycle.
    pub closed spec fn config(&self) -> PollerConfig {
        self.config
    }

    /// A poller with the given pauses, waiting for a connection.
    pub fn new(config: PollerConfig) -> (poller: Poller)
        ensures
            poller.state() == PollerState::WaitingForConnection,
            poller.config() == config,
    {
        Poller { config, state: PollerState::WaitingForConnection }
    }

    /// Where the cycle stands.
    pub fn current_state(&self) -> (state: PollerState)
        ensures
            state == self.state(),
    {
        self.state
    }

    /// Takes in what happened and says what to do next.
    ///
    /// When a pause is over the connection is checked, unless the shutdown
    /// signal is up: then the cycle stops for good. A connection that is
    /// down is waited for with the backoff pause; one that is up is asked
    /// for its next record. What the decoder makes of that record goes to
    /// the consumer, and the short pause follows whether or not there was
    /// something to deliver. A record that comes in while the poller is not
    /// draining is dropped.
    pub fn step(&mut self, event: PollerEvent) -> (action: PollerAction)
        ensures
            action == old(self).state().answer(old(self).config(), event),
            final(self).state() == old(self).state().after(event),
            final(self).config() == old(self).config(),
    {
        match self.state {
            PollerState::Stopped => PollerAction::Stop,
            _ => match event {
                PollerEvent::Resumed { shutdown } => {
                    if shutdown {
                        self.state = PollerState::Stopped;
                        PollerAction::Stop
                    } else {
                        PollerAction::CheckConnection
                    }
                },
                PollerEvent::ConnectionChecked { connected } => {
                    if connected {
                        self.state = PollerState::Draining;
                        PollerAction::Dequeue
                    } else {
                        self.state = PollerState::WaitingForConnection;
                        PollerAction::Pause { deliver: None, millis: self.config.backoff_millis }
                    }
                },
                PollerEvent::Dequeued { code, record } => {
                    match self.state {
                        PollerState::Draining => {
                            let deliver = match &record {
                                Some(record) => decode_dispatch(code, Some(record)),
                                None => None,
                            };
                            PollerAction::Pause { deliver, millis: self.config.interval_millis }
                        },
                        _ => PollerAction::Pause {
                            deliver: None,
                            millis: self.config.backoff_millis,
                        },
                    }
                },
            },
        }
    }
}

/// Once stopped, the poller answers everything with `Stop` and stays
/// stopped; and the shutdown signal stops it from any state.
pub proof fn lemma_shutdown_is_final(state: PollerState, config: PollerConfig, event: PollerEvent)
    ensures
        PollerState::Stopped.answer(config, event) == PollerAction::Stop,
        PollerState::Stopped.after(event) == PollerState::Stopped,
        state.answer(config, PollerEvent::Resumed { shutdown: true }) == PollerAction::Stop,
        state.after(PollerEvent::Resumed { shutdown: true }) == PollerState::Stopped,
{
}

/// Nothing but the shutdown signal ends the cycle: a poller that is not
/// stopped answers `Stop` only to a resumption with the signal up.
pub proof fn lemma_only_shutdown_stops(state: PollerState, config: PollerConfig, event: PollerEvent)
    requires
        state != PollerState::Stopped,
    ensures
        state.answer(config, event) == PollerAction::Stop <==> event == (PollerEvent::Resumed {
            shutdown: true,
        }),
        state.after(event) == PollerState::Stopped <==> event == (PollerEvent::Resumed {
            shutdown: true,
        }),
{
}

/// A connection found down makes the poller wait for the backoff pause,
/// without a dequeue and without a delivery; one found up makes it take a
/// record.
pub proof fn lemma_connection_check_decides(state: PollerState, config: PollerConfig)
    requires
        state != PollerState::Stopped,
    ensures
        state.answer(config, PollerEvent::ConnectionChecked { connected: false }) == (
        PollerAction::Pause { deliver: None, millis: config.backoff_millis }),
        state.after(PollerEvent::ConnectionChecked { connected: false })
            == PollerState::WaitingForConnection,
        state.answer(config, PollerEvent::ConnectionChecked { connected: true })
            == PollerAction::Dequeue,
        state.after(PollerEvent::ConnectionChecked { connected: true }) == PollerState::Draining,
{
}

/// While the poller is not draining it delivers nothing, whatever happens.
pub proof fn lemma_no_delivery_unless_draining(
    state: PollerState,
    config: PollerConfig,
    event: PollerEvent,
)
    requires
        state != PollerState::Draining,
    ensures
        state.answer(config, event).delivery() is None,
{
}

/// Whatever is delivered is what the decoder makes of the record that just
/// came in, and a dequeue is always followed by the short pause.
pub proof fn lemma_delivery_is_the_decoded_record(config: PollerConfig, event: PollerEvent)
    requires
        event is Dequeued,
    ensures
        PollerState::Draining.answer(config, event) == (PollerAction::Pause {
            deliver: event.notification(),
            millis: config.interval_millis,
        }),
        event matches PollerEvent::Dequeued { code, record: Some(record) } ==> (code == HOST_OK
            ==> event.notification() == record.notification()),
        event matches PollerEvent::Dequeued { code, .. } ==> (code != HOST_OK
            ==> event.notification() is None),
        event matches PollerEvent::Dequeued { record: None, .. } ==> event.notification() is None,
{
}

/// A draining poller that is handed one dequeue after the other delivers
/// the notifications in those records, all of them and in the order in which
/// the host handed them out.
pub proof fn lemma_draining_keeps_order(config: PollerConfig, events: Seq<PollerEvent>)
    requires
        forall|i: int| 0 <= i < events.len() ==> events[i] is Dequeued,
    ensures
        PollerState::Draining.deliveries(config, events) == notifications_in(events),
    decreases events.len(),
{
    if events.len() > 0 {
        let rest = events.drop_first();
        assert forall|i: int| 0 <= i < rest.len() implies rest[i] is Dequeued by {
            assert(rest[i] == events[i + 1]);
        }
        lemma_draining_keeps_order(config, rest);
    }
}

/// A poller that waits for a connection and sees none delivers nothing,
/// however long that lasts and whatever else comes in.
pub proof fn lemma_waiting_delivers_nothing(config: PollerConfig, events: Seq<PollerEvent>)
    requires
        forall|i: int|
            0 <= i < events.len() ==> events[i] != (PollerEvent::ConnectionChecked {
                connected: true,
            }),
    ensures
        PollerState::WaitingForConnection.deliveries(config, events) == Seq::<Notification>::empty(),
        PollerState::Stopped.deliveries(config, events) == Seq::<Notification>::empty(),
    decreases events.len(),
{
    if events.len() > 0 {
        let rest = events.drop_first();
        assert forall|i: int| 0 <= i < rest.len() implies rest[i] != (
        PollerEvent::ConnectionChecked { connected: true }) by {
            assert(rest[i] == events[i + 1]);
        }
        lemma_waiting_delivers_nothing(config, rest);
    }
}

} // verus!
