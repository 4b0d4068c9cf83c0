//! The update feed of one device: what it takes to open it, and what to do with each event
//! that the transport hands over.

use vstd::prelude::*;
use vstd::string::StringExecFns;
use crate::account::{LoginResponse, LoginResponseView, System, SystemView, IAQUALINK_AWSIOT_ENDPOINT};
use crate::document::{from_text, spec_from_text};
use crate::error::{outcome, DecodeError, DecodeErrorView, Strictness};
use crate::mqtt::{MessageKind, MqttResponse, MqttResponseView};
use crate::text::same_text;
use crate::time::Instant;

verus! {

/// One of the six topics of a device's shadow that a subscription listens to.
#[derive(Debug, Clone, Copy, PartialEq, Eq, Structural)]
pub enum ShadowTopic {
    GetAccepted,
    GetRejected,
    UpdateDelta,
    UpdateAccepted,
    UpdateDocuments,
    UpdateRejected,
}

impl ShadowTopic {
    /// The end of the topic's name: the verb and the outcome.
    pub open spec fn spec_suffix(self) -> Seq<char> {
        match self {
            ShadowTopic::GetAccepted => "/get/accepted"@,
            ShadowTopic::GetRejected => "/get/rejected"@,
            ShadowTopic::UpdateDelta => "/update/delta"@,
            ShadowTopic::UpdateAccepted => "/update/accepted"@,
            ShadowTopic::UpdateDocuments => "/update/documents"@,
            ShadowTopic::UpdateRejected => "/update/rejected"@,
        }
    }

    /// The topic's name for the device with the given serial number.
    pub open spec fn spec_name(self, thing: Seq<char>) -> Seq<char> {
        "$aws/things/"@ + thing + "/shadow"@ + self.spec_suffix()
    }

    /// The variant of message that the topic announces. A message is read by its shape
    /// alone, so a caller may hold what was read against this.
    pub open spec fn spec_announces(self) -> MessageKind {
        match self {
            ShadowTopic::GetAccepted => MessageKind::UpdateAccepted,
            ShadowTopic::GetRejected => MessageKind::Error,
            ShadowTopic::UpdateDelta => MessageKind::UpdateDelta,
            ShadowTopic::UpdateAccepted => MessageKind::UpdateAccepted,
            ShadowTopic::UpdateDocuments => MessageKind::UpdateDocuments,
            ShadowTopic::UpdateRejected => MessageKind::Error,
        }
    }

    /// The six topics, in the order in which they are subscribed to.
    pub open spec fn spec_all() -> Seq<ShadowTopic> {
        Seq::empty().push(ShadowTopic::GetAccepted).push(ShadowTopic::GetRejected).push(
            ShadowTopic::UpdateDelta,
        ).push(ShadowTopic::UpdateAccepted).push(ShadowTopic::UpdateDocuments).push(ShadowTopic::UpdateRejected)
    }

    /// The topic that bears a name for the given device: the first of the six whose name it
    /// is.
    pub open spec fn spec_parse(name: Seq<char>, thing: Seq<char>) -> Option<ShadowTopic> {
        if name == ShadowTopic::GetAccepted.spec_name(thing) {
            Some(ShadowTopic::GetAccepted)
        } else if name == ShadowTopic::GetRejected.spec_name(thing) {
            Some(ShadowTopic::GetRejected)
        } else if name == ShadowTopic::UpdateDelta.spec_name(thing) {
            Some(ShadowTopic::UpdateDelta)
        } else if name == ShadowTopic::UpdateAccepted.spec_name(thing) {
            Some(ShadowTopic::UpdateAccepted)
        } else if name == ShadowTopic::UpdateDocuments.spec_name(thing) {
            Some(ShadowTopic::UpdateDocuments)
        } else if name == ShadowTopic::UpdateRejected.spec_name(thing) {
            Some(ShadowTopic::UpdateRejected)
        } else {
            None
        }
    }

    /// The end of the topic's name: the verb and the outcome.
    pub fn suffix(self) -> (r: &'static str)
        ensures
            r@ == self.spec_suffix(),
    {
        match self {
            ShadowTopic::GetAccepted => "/get/accepted",
            ShadowTopic::GetRejected => "/get/rejected",
            ShadowTopic::UpdateDelta => "/update/delta",
            ShadowTopic::UpdateAccepted => "/update/accepted",
            ShadowTopic::UpdateDocuments => "/update/documents",
            ShadowTopic::UpdateRejected => "/update/rejected",
        }
    }

    /// The topic's name for the device with the given serial number.
    pub fn name(self, thing: &str) -> (r: String)
        ensures
            r@ == self.spec_name(thing@),
    {
        "$aws/things/".to_owned().concat(thing).concat("/shadow").concat(self.suffix())
    }

    /// The variant of message that the topic announces.
    pub fn announces(self) -> (r: MessageKind)
        ensures
            r == self.spec_announces(),
    {
        match self {
            ShadowTopic::GetAccepted => MessageKind::UpdateAccepted,
            ShadowTopic::GetRejected => MessageKind::Error,
            ShadowTopic::UpdateDelta => MessageKind::UpdateDelta,
            ShadowTopic::UpdateAccepted => MessageKind::UpdateAccepted,
            ShadowTopic::UpdateDocuments => MessageKind::UpdateDocuments,
            ShadowTopic::UpdateRejected => MessageKind::Error,
        }
    }

    /// The six topics, in the order in which they are subscribed to.
    pub fn all() -> (r: Vec<ShadowTopic>)
        ensures
            r@ == Self::spec_all(),
    {
        let mut topics: Vec<ShadowTopic> = Vec::new();
        topics.push(ShadowTopic::GetAccepted);
        topics.push(ShadowTopic::GetRejected);
        topics.push(ShadowTopic::UpdateDelta);
        topics.push(ShadowTopic::UpdateAccepted);
        topics.push(ShadowTopic::UpdateDocuments);
        topics.push(ShadowTopic::UpdateRejected);
        assert(topics@ =~= Self::spec_all());
        topics
    }

    /// The topic that bears a name for the given device.
    pub fn parse(name: &str, thing: &str) -> (r: Option<ShadowTopic>)
        ensures
            r == Self::spec_parse(name@, thing@),
    {
        if same_text(name, ShadowTopic::GetAccepted.name(thing).as_str()) {
            Some(ShadowTopic::GetAccepted)
        } else if same_text(name, ShadowTopic::GetRejected.name(thing).as_str()) {
            Some(ShadowTopic::GetRejected)
        } else if same_text(name, ShadowTopic::UpdateDelta.name(thing).as_str()) {
            Some(ShadowTopic::UpdateDelta)
        } else if same_text(name, ShadowTopic::UpdateAccepted.name(thing).as_str()) {
            Some(ShadowTopic::UpdateAccepted)
        } else if same_text(name, ShadowTopic::UpdateDocuments.name(thing).as_str()) {
            Some(ShadowTopic::UpdateDocuments)
        } else if same_text(name, ShadowTopic::UpdateRejected.name(thing).as_str()) {
            Some(ShadowTopic::UpdateRejected)
        } else {
            None
        }
    }
}

/// What it takes to open the update feed of a device: where to connect, as whom, what to
/// subscribe to, and what signs the handshake.
#[derive(Debug, PartialEq, Eq)]
pub struct Connection {
    /// The name under which the client connects.
    pub client_id: String,
    /// The URL of the broker's WebSocket.
    pub broker_url: String,
    pub port: u16,
    /// The largest packet that the client takes, in bytes.
    pub max_packet_size: u32,
    /// How many requests may wait to be sent.
    pub capacity: usize,
    /// The topics to subscribe to, in order, each at least once delivered.
    pub topics: Vec<String>,
    pub access_key_id: String,
    pub secret_key: String,
    pub session_token: String,
    /// When the credentials stop being valid.
    pub expiration: Instant,
    /// The region that the handshake is signed for.
    pub region: String,
    /// The service that the handshake is signed for.
    pub service: String,
}

/// Mathematical model of a [`Connection`].
pub struct ConnectionView {
    pub client_id: Seq<char>,
    pub broker_url: Seq<char>,
    pub port: u16,
    pub max_packet_size: u32,
    pub capacity: usize,
    pub topics: Seq<Seq<char>>,
    pub access_key_id: Seq<char>,
    pub secret_key: Seq<char>,
    pub session_token: Seq<char>,
    pub expiration: Instant,
    pub region: Seq<char>,
    pub service: Seq<char>,
}

impl DeepView for Connection {
    type V = ConnectionView;

    open spec fn deep_view(&self) -> ConnectionView {
        ConnectionView {
            client_id: self.client_id@,
            broker_url: self.broker_url@,
            port: self.port,
            max_packet_size: self.max_packet_size,
            capacity: self.capacity,
            topics: self.topics.deep_view(),
            access_key_id: self.access_key_id@,
            secret_key: self.secret_key@,
            session_token: self.session_token@,
            expiration: self.expiration,
            region: self.region@,
            service: self.service@,
        }
    }
}

/// Why the handshake with the broker cannot be signed.
#[derive(Debug, Clone, Copy, PartialEq, Eq, Structural)]
pub enum SigningFailure {
    /// The credentials stopped being valid at `expiration`, which is before `now`.
    Expired { expiration: Instant, now: Instant },
}

impl System {
    /// Whether the credentials of the user who signed in can still sign a handshake at the
    /// given time: they can until the time at which they expire, that time included.
    pub open spec fn spec_signable(login: LoginResponseView, now: Instant) -> Result<(), SigningFailure> {
        if login.credentials.expiration.spec_is_before(now) {
            Err(SigningFailure::Expired { expiration: login.credentials.expiration, now })
        } else {
            Ok(())
        }
    }

    /// What it takes to open the update feed of this device for the user who signed in.
    pub open spec fn spec_subscribe(system: SystemView, login: LoginResponseView) -> ConnectionView {
        ConnectionView {
            client_id: login.cognito_pool.app_client_id + "_rust"@,
            broker_url: "wss://"@ + IAQUALINK_AWSIOT_ENDPOINT@ + "/mqtt"@,
            port: 443,
            max_packet_size: 16384,
            capacity: 10,
            topics: Seq::new(6, |i: int| ShadowTopic::spec_all()[i].spec_name(system.serial_number)),
            access_key_id: login.credentials.access_key_id,
            secret_key: login.credentials.secret_key,
            session_token: login.credentials.session_token,
            expiration: login.credentials.expiration,
            region: login.cognito_pool.region,
            service: "iotdata"@,
        }
    }

    /// What it takes to open the update feed of this device at the given time for the user
    /// who signed in, or a signing failure where the user's credentials have expired by then.
    pub fn subscribe(&self, login_response: &LoginResponse, now: &Instant) -> (r: Result<Connection, SigningFailure>)
        ensures
            match r {
                Ok(connection) => Self::spec_signable(login_response.deep_view(), *now) is Ok
                    && connection.deep_view() == Self::spec_subscribe(self.deep_view(), login_response.deep_view()),
                Err(failure) => Self::spec_signable(login_response.deep_view(), *now) == Err::<(), SigningFailure>(
                    failure,
                ),
            },
    {
        if login_response.credentials.expiration.is_before(now) {
            return Err(SigningFailure::Expired { expiration: login_response.credentials.expiration, now: *now });
        }
        let all = ShadowTopic::all();
        let mut topics: Vec<String> = Vec::new();
        let mut i: usize = 0;
        while i < all.len()
            invariant
                i <= all.len(),
                all@ == ShadowTopic::spec_all(),
                topics@.len() == i,
                forall|k: int| 0 <= k < i ==> (#[trigger] topics@[k])@ == all@[k].spec_name(self.serial_number@),
            decreases all.len() - i,
        {
            topics.push(all[i].name(self.serial_number.as_str()));
            i = i + 1;
        }
        assert(topics.deep_view() =~= Self::spec_subscribe(self.deep_view(), login_response.deep_view()).topics);
        Ok(Connection {
            client_id: login_response.cognito_pool.app_client_id.clone().concat("_rust"),
            broker_url: "wss://".to_owned().concat(IAQUALINK_AWSIOT_ENDPOINT).concat("/mqtt"),
            port: 443,
            max_packet_size: 16384,
            capacity: 10,
            topics,
            access_key_id: login_response.credentials.access_key_id.clone(),
            secret_key: login_response.credentials.secret_key.clone(),
            session_token: login_response.credentials.session_token.clone(),
            expiration: login_response.credentials.expiration,
            region: login_response.cognito_pool.region.clone(),
            service: "iotdata".to_owned(),
        })
    }
}

/// A message that could not be read, with what it takes to look into it later.
#[derive(Debug, PartialEq, Eq)]
pub struct DecodeFailure {
    /// The topic that the message came on.
    pub topic: String,
    /// The message as it came, byte for byte.
    pub payload: Vec<u8>,
    /// Why it could not be read.
    pub cause: DecodeError,
}

/// Mathematical model of a [`DecodeFailure`].
pub struct DecodeFailureView {
    pub topic: Seq<char>,
    pub payload: Seq<u8>,
    pub cause: DecodeErrorView,
}

impl DeepView for DecodeFailure {
    type V = DecodeFailureView;

    open spec fn deep_view(&self) -> DecodeFailureView {
        DecodeFailureView { topic: self.topic@, payload: self.payload@, cause: self.cause@ }
    }
}

/// Where a subscription stands.
#[derive(Debug, Clone, Copy, PartialEq, Eq, Structural)]
pub enum Phase {
    /// The handshake with the broker is under way.
    Connecting,
    /// The broker has acknowledged the connection; the subscriptions are being made.
    Subscribed,
    /// Messages are coming in.
    Receiving,
    /// The caller has closed the subscription. Nothing more is received.
    Closed,
    /// The transport has failed. Nothing more is received.
    Failed,
}

/// What the transport hands over.
#[derive(Debug, PartialEq, Eq)]
pub enum Event {
    /// A message came on a topic. The payload is held as it came, whether or not it is
    /// text.
    Publish { topic: String, payload: Vec<u8> },
    /// The broker acknowledged a subscription.
    SubAck(u16),
    /// The broker acknowledged the connection.
    ConnAck,
    /// The broker answered a ping.
    PingResp,
    /// Any other packet came in.
    OtherIncoming,
    /// An acknowledgement of a publication went out.
    PubAck(u16),
    /// A subscription went out.
    Subscribe(u16),
    /// A ping went out.
    PingReq,
    /// Any other packet went out.
    OtherOutgoing,
    /// The transport failed.
    Failure,
}

/// Mathematical model of an [`Event`].
pub enum EventView {
    Publish { topic: Seq<char>, payload: Seq<u8> },
    SubAck(u16),
    ConnAck,
    PingResp,
    OtherIncoming,
    PubAck(u16),
    Subscribe(u16),
    PingReq,
    OtherOutgoing,
    Failure,
}

impl DeepView for Event {
    type V = EventView;

    open spec fn deep_view(&self) -> EventView {
        match self {
            Event::Publish { topic, payload } => EventView::Publish { topic: topic@, payload: payload@ },
            Event::SubAck(id) => EventView::SubAck(*id),
            Event::ConnAck => EventView::ConnAck,
            Event::PingResp => EventView::PingResp,
            Event::OtherIncoming => EventView::OtherIncoming,
            Event::PubAck(id) => EventView::PubAck(*id),
            Event::Subscribe(id) => EventView::Subscribe(*id),
            Event::PingReq => EventView::PingReq,
            Event::OtherOutgoing => EventView::OtherOutgoing,
            Event::Failure => EventView::Failure,
        }
    }
}

/// What an event that brings no message is worth noting as.
#[derive(Debug, Clone, Copy, PartialEq, Eq, Structural)]
pub enum Note {
    SubscriptionAcknowledged(u16),
    ConnectionAcknowledged,
    Pong,
    UnexpectedIncoming,
    PublicationAcknowledged(u16),
    Subscribing(u16),
    Ping,
    UnexpectedOutgoing,
}

/// What the caller does after an event.
#[derive(Debug, PartialEq, Eq)]
pub enum Step {
    /// The event brought no message: note it and wait for the next.
    Continue(Note),
    /// A message came on the topic and was read.
    Deliver(String, MqttResponse),
    /// A message came and could not be read.
    Invalid(DecodeFailure),
    /// The subscription has been closed, or the transport has failed: stop.
    Closed,
}

/// Mathematical model of a [`Step`].
pub enum StepView {
    Continue(Note),
    Deliver(Seq<char>, MqttResponseView),
    Invalid(DecodeFailureView),
    Closed,
}

impl DeepView for Step {
    type V = StepView;

    open spec fn deep_view(&self) -> StepView {
        match self {
            Step::Continue(note) => StepView::Continue(*note),
            Step::Deliver(topic, message) => StepView::Deliver(topic@, message.deep_view()),
            Step::Invalid(failure) => StepView::Invalid(failure.deep_view()),
            Step::Closed => StepView::Closed,
        }
    }
}

/// The consumer of the update feed of one device. It is driven by one caller, one event at a
/// time.
#[derive(Debug, PartialEq, Eq)]
pub struct Subscription {
    pub phase: Phase,
    pub mode: Strictness,
}

impl Subscription {
    /// Whether the subscription has ended: it was closed, or the transport has failed.
    pub open spec fn spec_ended(phase: Phase) -> bool {
        phase == Phase::Closed || phase == Phase::Failed
    }

    /// Where the subscription stands after an event. Once it has ended nothing moves it. A
    /// failure of the transport ends it for good; the broker's acknowledgement of the
    /// connection ends the handshake; a message shows that messages are coming in. No other
    /// event moves it.
    pub open spec fn spec_next(phase: Phase, event: EventView) -> Phase {
        if Self::spec_ended(phase) {
            phase
        } else {
            match event {
                EventView::Failure => Phase::Failed,
                EventView::Publish { .. } => Phase::Receiving,
                EventView::ConnAck => if phase == Phase::Connecting {
                    Phase::Subscribed
                } else {
                    phase
                },
                _ => phase,
            }
        }
    }

    /// What the caller does after a message came, given what the message was read as.
    pub open spec fn spec_publish(
        topic: Seq<char>,
        payload: Seq<u8>,
        read: Result<MqttResponseView, DecodeErrorView>,
    ) -> StepView {
        match read {
            Ok(message) => StepView::Deliver(topic, message),
            Err(cause) => StepView::Invalid(DecodeFailureView { topic, payload, cause }),
        }
    }

    /// What an event that brings no message is noted as.
    pub open spec fn spec_note(event: EventView) -> Note {
        match event {
            EventView::SubAck(id) => Note::SubscriptionAcknowledged(id),
            EventView::ConnAck => Note::ConnectionAcknowledged,
            EventView::PingResp => Note::Pong,
            EventView::PubAck(id) => Note::PublicationAcknowledged(id),
            EventView::Subscribe(id) => Note::Subscribing(id),
            EventView::PingReq => Note::Ping,
            EventView::OtherOutgoing => Note::UnexpectedOutgoing,
            _ => Note::UnexpectedIncoming,
        }
    }

    /// What the caller does after an event: once the subscription has ended, stop; a message
    /// is read by its shape alone, whatever its topic, and handed over with the topic, or
    /// handed over as it came where it cannot be read, be it no text at all; any other event
    /// is noted.
    pub open spec fn spec_step(phase: Phase, mode: Strictness, event: EventView) -> StepView {
        if Self::spec_ended(phase) {
            StepView::Closed
        } else {
            match event {
                EventView::Failure => StepView::Closed,
                EventView::Publish { topic, payload } => Self::spec_publish(
                    topic,
                    payload,
                    spec_from_text::<MqttResponse>(payload, mode),
                ),
                _ => StepView::Continue(Self::spec_note(event)),
            }
        }
    }

    /// A subscription whose handshake is under way.
    pub fn new(mode: Strictness) -> (r: Subscription)
        ensures
            r.phase == Phase::Connecting,
            r.mode == mode,
    {
        Subscription { phase: Phase::Connecting, mode }
    }

    /// Whether the subscription has ended.
    pub fn ended(&self) -> (r: bool)
        ensures
            r == Self::spec_ended(self.phase),
    {
        self.phase == Phase::Closed || self.phase == Phase::Failed
    }

    /// Closes the subscription. The caller asks for this between two events; from then on
    /// every event is answered with [`Step::Closed`]. A subscription whose transport has
    /// failed stays failed.
    pub fn close(&mut self)
        ensures
            final(self).mode == old(self).mode,
            final(self).phase == if old(self).phase == Phase::Failed {
                Phase::Failed
            } else {
                Phase::Closed
            },
    {
        if self.phase != Phase::Failed {
            self.phase = Phase::Closed;
        }
    }

    /// What the caller does after a message came, given what the message was read as.
    pub fn publish(topic: String, payload: Vec<u8>, read: Result<MqttResponse, DecodeError>) -> (r: Step)
        ensures
            r.deep_view() == Self::spec_publish(topic@, payload@, outcome(read)),
    {
        match read {
            Ok(message) => Step::Deliver(topic, message),
            Err(cause) => Step::Invalid(DecodeFailure { topic, payload, cause }),
        }
    }

    /// Takes one event from the transport and says what the caller does next.
    pub fn recv(&mut self, event: Event) -> (r: Step)
        ensures
            final(self).mode == old(self).mode,
            final(self).phase == Self::spec_next(old(self).phase, event.deep_view()),
            r.deep_view() == Self::spec_step(old(self).phase, old(self).mode, event.deep_view()),
    {
        if self.ended() {
            return Step::Closed;
        }
        match event {
            Event::Failure => {
                self.phase = Phase::Failed;
                Step::Closed
            },
            Event::Publish { topic, payload } => {
                self.phase = Phase::Receiving;
                let read = from_text::<MqttResponse>(payload.as_slice(), self.mode);
                Self::publish(topic, payload, read)
            },
            Event::ConnAck => {
                if self.phase == Phase::Connecting {
                    self.phase = Phase::Subscribed;
                }
                Step::Continue(Note::ConnectionAcknowledged)
            },
            Event::SubAck(id) => Step::Continue(Note::SubscriptionAcknowledged(id)),
            Event::PingResp => Step::Continue(Note::Pong),
            Event::OtherIncoming => Step::Continue(Note::UnexpectedIncoming),
            Event::PubAck(id) => Step::Continue(Note::PublicationAcknowledged(id)),
            Event::Subscribe(id) => Step::Continue(Note::Subscribing(id)),
            Event::PingReq => Step::Continue(Note::Ping),
            Event::OtherOutgoing => Step::Continue(Note::UnexpectedOutgoing),
        }
    }
}

} // verus!
