//! The lifecycle orchestrator: the Connecting -> Subscribing -> Running
//! state machine.
//!
//! The host event loop owns the transport; the orchestrator only decides.
//! It is handed each transport completion or event, moves through the state
//! machine, and returns what the host must do next: which state text to
//! surface, and whether to issue the fixed subscription.  Completions that
//! answer no outstanding request phase are ignored: the orchestrator never
//! has two requests of the same kind in flight.
//!
//! Reconnection after a loss is the transport's own concern, governed by the
//! `reconnect` connect option; this layer never re-enters `Connecting` on
//! its own.

use vstd::prelude::*;
use vstd::string::*;
use vstd::utf8::encode_utf8;
use crate::decode::{DecodeOutcome, decode_act, decode_message, outcome_matches};
use crate::message::MqttMessage;
use crate::options::MqttConnectOptions;
use crate::qos::QoS;

verus! {

/// Subscribe timeout, in seconds: a policy constant of this core.
pub const SUBSCRIBE_TIMEOUT_SECS: u64 = 5;

/// Connect keep-alive interval, in seconds: a policy constant of this core.
pub const CONNECT_KEEP_ALIVE_SECS: u64 = 2;

/// Connect timeout, in seconds: a policy constant of this core.
pub const CONNECT_TIMEOUT_SECS: u64 = 5;

/// The connection state.  Exactly one is active at a time; `Stopped` is
/// terminal and entered only on deliberate shutdown.
#[derive(Clone, Debug, PartialEq, Eq)]
pub enum ConnectionState {
    Connecting,
    Subscribing,
    Running,
    Disconnected(String),
    Stopped,
}

/// Ghost model of a connection state, the disconnect reason as characters.
pub enum StateModel {
    Connecting,
    Subscribing,
    Running,
    Disconnected(Seq<char>),
    Stopped,
}

impl View for ConnectionState {
    type V = StateModel;

    open spec fn view(&self) -> StateModel {
        match self {
            ConnectionState::Connecting => StateModel::Connecting,
            ConnectionState::Subscribing => StateModel::Subscribing,
            ConnectionState::Running => StateModel::Running,
            ConnectionState::Disconnected(r) => StateModel::Disconnected(r@),
            ConnectionState::Stopped => StateModel::Stopped,
        }
    }
}

/// A transport completion or event, as the host event loop hands it in.
#[derive(Clone, Debug, PartialEq, Eq)]
pub enum SessionEvent {
    ConnectSucceeded,
    ConnectFailed(String),
    SubscribeSucceeded,
    SubscribeFailed(String),
    ConnectionLost(String),
}

/// Ghost model of a transport event, the failure reason as characters.
pub enum EventModel {
    ConnectSucceeded,
    ConnectFailed(Seq<char>),
    SubscribeSucceeded,
    SubscribeFailed(Seq<char>),
    ConnectionLost(Seq<char>),
}

impl View for SessionEvent {
    type V = EventModel;

    open spec fn view(&self) -> EventModel {
        match self {
            SessionEvent::ConnectSucceeded => EventModel::ConnectSucceeded,
            SessionEvent::ConnectFailed(r) => EventModel::ConnectFailed(r@),
            SessionEvent::SubscribeSucceeded => EventModel::SubscribeSucceeded,
            SessionEvent::SubscribeFailed(r) => EventModel::SubscribeFailed(r@),
            SessionEvent::ConnectionLost(r) => EventModel::ConnectionLost(r@),
        }
    }
}

/// Whether an event applies in a state: a completion applies only in the
/// request phase it answers; a connection loss applies everywhere.
pub open spec fn event_applies(s: StateModel, e: EventModel) -> bool {
    match e {
        EventModel::ConnectionLost(_) => true,
        EventModel::ConnectSucceeded => s is Connecting,
        EventModel::ConnectFailed(_) => s is Connecting,
        EventModel::SubscribeSucceeded => s is Subscribing,
        EventModel::SubscribeFailed(_) => s is Subscribing,
    }
}

/// The state after an event.  An event that does not apply leaves the state
/// unchanged.
pub open spec fn next_state(s: StateModel, e: EventModel) -> StateModel {
    match e {
        EventModel::ConnectionLost(r) => StateModel::Disconnected("Disconnected: "@ + r),
        EventModel::ConnectSucceeded => if s is Connecting {
            StateModel::Subscribing
        } else {
            s
        },
        EventModel::ConnectFailed(r) => if s is Connecting {
            StateModel::Disconnected("Failed to connect: "@ + r)
        } else {
            s
        },
        EventModel::SubscribeSucceeded => if s is Subscribing {
            StateModel::Running
        } else {
            s
        },
        EventModel::SubscribeFailed(r) => if s is Subscribing {
            StateModel::Disconnected("Failed to subscribe: "@ + r)
        } else {
            s
        },
    }
}

/// Whether handling an event issues the fixed subscription: exactly on a
/// connect success in `Connecting`.
pub open spec fn issues_subscribe(s: StateModel, e: EventModel) -> bool {
    s is Connecting && e is ConnectSucceeded
}

/// The connection-state text surfaced to observers.
pub open spec fn state_text(m: StateModel) -> Seq<char> {
    match m {
        StateModel::Connecting => "Connecting"@,
        StateModel::Subscribing => "Subscribing"@,
        StateModel::Running => "Running"@,
        StateModel::Disconnected(r) => r,
        StateModel::Stopped => "Stopped"@,
    }
}

/// Renders a connection state as its observer text.
pub fn state_text_of(s: &ConnectionState) -> (r: String)
    ensures
        r@ == state_text(s@),
{
    match s {
        ConnectionState::Connecting => String::from_str("Connecting"),
        ConnectionState::Subscribing => String::from_str("Subscribing"),
        ConnectionState::Running => String::from_str("Running"),
        ConnectionState::Disconnected(t) => t.clone(),
        ConnectionState::Stopped => String::from_str("Stopped"),
    }
}

/// The fixed subscription issued once connected: the command inbox filter,
/// QoS level 0, and the subscribe timeout policy constant.
#[derive(Clone, Debug, PartialEq, Eq)]
pub struct SubscribeRequest {
    pub filter: String,
    pub qos: QoS,
    pub timeout_secs: u64,
}

/// Builds the fixed subscription request.
pub fn subscribe_request() -> (r: SubscribeRequest)
    ensures
        r.filter@ == "command/inbox/#"@,
        r.qos is QoS0,
        r.timeout_secs == SUBSCRIBE_TIMEOUT_SECS,
{
    SubscribeRequest {
        filter: String::from_str("command/inbox/#"),
        qos: QoS::QoS0,
        timeout_secs: SUBSCRIBE_TIMEOUT_SECS,
    }
}

/// A publish handed to the transport.
#[derive(Clone, Debug, PartialEq, Eq)]
pub struct PublishRequest {
    pub topic: String,
    pub payload: Vec<u8>,
    pub qos: QoS,
    pub retained: bool,
}

/// The publish contract exposed upward: the payload goes out on the fixed
/// `sensor` topic at QoS level 1, not retained.
pub fn send_request(payload: String) -> (r: PublishRequest)
    ensures
        r.topic@ == "sensor"@,
        r.qos is QoS1,
        !r.retained,
        r.payload@ == encode_utf8(payload@),
{
    let bytes = payload.as_str().as_bytes_vec();
    PublishRequest {
        topic: String::from_str("sensor"),
        payload: bytes,
        qos: QoS::QoS1,
        retained: false,
    }
}

/// The connect options the orchestrator uses: the supplied credentials and
/// the fixed policy — clean session, transport-side reconnect, and the
/// keep-alive and timeout constants.
pub fn orchestrator_connect_options(username: String, password: String) -> (r: MqttConnectOptions)
    ensures
        r.username == Some(username),
        r.password == Some(password),
        r.clean_session,
        r.reconnect,
        r.keep_alive_interval_secs == Some(CONNECT_KEEP_ALIVE_SECS),
        r.timeout_secs == Some(CONNECT_TIMEOUT_SECS),
{
    MqttConnectOptions {
        username: Some(username),
        password: Some(password),
        clean_session: true,
        reconnect: true,
        keep_alive_interval_secs: Some(CONNECT_KEEP_ALIVE_SECS),
        timeout_secs: Some(CONNECT_TIMEOUT_SECS),
    }
}

/// What the host must do after a lifecycle step.
pub struct StepDirectives {
    /// State text to surface to the observer, where the event applied.
    pub notify: Option<String>,
    /// The subscription to issue, on a successful connect.
    pub subscribe: Option<SubscribeRequest>,
}

/// Drives the state machine.  The host constructs it, surfaces the initial
/// text, hands every transport event to [`Self::handle_event`], every
/// delivered message to [`Self::handle_message`], and finally tears it down
/// through [`Self::shutdown`].
pub struct LifecycleOrchestrator {
    pub state: ConnectionState,
}

impl LifecycleOrchestrator {
    /// A new orchestrator enters `Connecting` and surfaces that immediately.
    pub fn new() -> (r: (LifecycleOrchestrator, String))
        ensures
            r.0.state@ is Connecting,
            r.1@ == "Connecting"@,
    {
        (
            LifecycleOrchestrator { state: ConnectionState::Connecting },
            String::from_str("Connecting"),
        )
    }

    fn is_connecting(&self) -> (b: bool)
        ensures
            b == (self.state@ is Connecting),
    {
        match &self.state {
            ConnectionState::Connecting => true,
            _ => false,
        }
    }

    fn is_subscribing(&self) -> (b: bool)
        ensures
            b == (self.state@ is Subscribing),
    {
        match &self.state {
            ConnectionState::Subscribing => true,
            _ => false,
        }
    }

    /// Handles one transport event: moves to the next state, surfaces the
    /// new state text where the event applied, and issues the fixed
    /// subscription exactly on a connect success.  A completion that answers
    /// no outstanding request phase changes nothing.
    pub fn handle_event(&mut self, event: SessionEvent) -> (r: StepDirectives)
        ensures
            final(self).state@ == next_state(old(self).state@, event@),
            r.subscribe is Some <==> issues_subscribe(old(self).state@, event@),
            r.subscribe matches Some(req) ==> req.filter@ == "command/inbox/#"@ && req.qos
                is QoS0 && req.timeout_secs == SUBSCRIBE_TIMEOUT_SECS,
            r.notify is Some <==> event_applies(old(self).state@, event@),
            r.notify matches Some(text) ==> text@ == state_text(
                next_state(old(self).state@, event@),
            ),
    {
        match event {
            SessionEvent::ConnectionLost(reason) => {
                let mut text = String::from_str("Disconnected: ");
                text.append(reason.as_str());
                self.state = ConnectionState::Disconnected(text.clone());
                StepDirectives { notify: Some(text), subscribe: None }
            },
            SessionEvent::ConnectSucceeded => {
                if self.is_connecting() {
                    self.state = ConnectionState::Subscribing;
                    StepDirectives {
                        notify: Some(String::from_str("Subscribing")),
                        subscribe: Some(subscribe_request()),
                    }
                } else {
                    StepDirectives { notify: None, subscribe: None }
                }
            },
            SessionEvent::ConnectFailed(reason) => {
                if self.is_connecting() {
                    let mut text = String::from_str("Failed to connect: ");
                    text.append(reason.as_str());
                    self.state = ConnectionState::Disconnected(text.clone());
                    StepDirectives { notify: Some(text), subscribe: None }
                } else {
                    StepDirectives { notify: None, subscribe: None }
                }
            },
            SessionEvent::SubscribeSucceeded => {
                if self.is_subscribing() {
                    self.state = ConnectionState::Running;
                    StepDirectives { notify: Some(String::from_str("Running")), subscribe: None }
                } else {
                    StepDirectives { notify: None, subscribe: None }
                }
            },
            SessionEvent::SubscribeFailed(reason) => {
                if self.is_subscribing() {
                    let mut text = String::from_str("Failed to subscribe: ");
                    text.append(reason.as_str());
                    self.state = ConnectionState::Disconnected(text.clone());
                    StepDirectives { notify: Some(text), subscribe: None }
                } else {
                    StepDirectives { notify: None, subscribe: None }
                }
            },
        }
    }

    /// Routes one delivered message through the decode policy.  Decoding
    /// never touches the lifecycle state.
    pub fn handle_message(&self, msg: &MqttMessage) -> (r: DecodeOutcome)
        ensures
            outcome_matches(r, decode_act(msg.topic@, msg.payload@)),
    {
        decode_message(msg.topic.as_str(), &msg.payload)
    }

    /// Deliberate teardown: enters the terminal `Stopped` state, surfacing
    /// it once.  The host must issue a best-effort disconnect exactly when
    /// this returns true: once, and only if still connected.
    pub fn shutdown(&mut self, connected: bool) -> (r: (Option<String>, bool))
        ensures
            final(self).state@ is Stopped,
            r.1 == (connected && !(old(self).state@ is Stopped)),
            r.0 is Some <==> !(old(self).state@ is Stopped),
            r.0 matches Some(t) ==> t@ == "Stopped"@,
    {
        let already = match &self.state {
            ConnectionState::Stopped => true,
            _ => false,
        };
        self.state = ConnectionState::Stopped;
        if already {
            (None, false)
        } else {
            (Some(String::from_str("Stopped")), connected)
        }
    }
}

/// From `Connecting`, a success completion always yields `Subscribing`, and
/// a failure completion always yields `Disconnected` with the failure text —
/// never `Running`.
pub proof fn lemma_connecting_step(reason: Seq<char>)
    ensures
        next_state(StateModel::Connecting, EventModel::ConnectSucceeded) is Subscribing,
        next_state(StateModel::Connecting, EventModel::ConnectFailed(reason))
            == StateModel::Disconnected("Failed to connect: "@ + reason),
        !(next_state(StateModel::Connecting, EventModel::ConnectFailed(reason)) is Running),
{
}

/// From every state, a connection-lost event yields `Disconnected` with the
/// loss text — also while `Running`.
pub proof fn lemma_connection_lost_disconnects(s: StateModel, reason: Seq<char>)
    ensures
        next_state(s, EventModel::ConnectionLost(reason)) == StateModel::Disconnected(
            "Disconnected: "@ + reason,
        ),
{
}

} // verus!
