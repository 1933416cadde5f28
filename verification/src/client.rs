//! The client role: it subscribes to one topic, starts a publisher that
//! sends a counted and paced run of payloads to another, and reports what
//! its session receives until the session's stream ends.
//!
//! The engine and its session live outside this library. What is here
//! decides: a `ClientRun` and a `Publisher` each name the next thing to do
//! with the engine and take what came of it.

use vstd::prelude::*;
use vstd::string::*;
use rumqttc::MqttOptions;
use crate::error::{ConfigurationError, LinkError};
use crate::settings::{
    options_address,
    options_client_id,
    options_keep_alive,
    ClientConfig,
    ClientProfile,
    QoS,
};
use crate::text::{decimal, push_decimal};

verus! {

/// The number of requests that the session's queue holds between the side
/// that sends commands and the side that receives notifications.
pub const QUEUE_CAPACITY: usize = 10;

/// The payload of the publish with the given index: as many bytes as the
/// index says, each of them the index modulo 256.
pub open spec fn payload_spec(index: nat) -> Seq<u8> {
    Seq::new(index, |_j: int| (index % 256) as u8)
}

/// Builds the payload of the publish with the given index.
pub fn payload(index: usize) -> (bytes: Vec<u8>)
    ensures
        bytes@ == payload_spec(index as nat),
{
    let byte: u8 = (index % 256) as u8;
    let mut bytes: Vec<u8> = Vec::new();
    let mut filled: usize = 0;
    while filled < index
        invariant
            filled <= index,
            byte == index % 256,
            bytes@ == Seq::new(filled as nat, |_j: int| byte),
        decreases index - filled,
    {
        bytes.push(byte);
        filled = filled + 1;
    }
    bytes
}

/// How far the publisher has come.
#[derive(Clone, Copy, Debug, PartialEq, Eq, Structural)]
pub enum PublisherPhase {
    /// The next publish is due.
    Publishing,
    /// A publish went out; the pause after it is due.
    Pausing,
    /// Every publish went out, each followed by its pause.
    Finished,
    /// A publish was refused.
    Failed,
}

/// What came of the publisher's last command.
#[derive(Clone, Copy, Debug, PartialEq, Eq, Structural)]
pub enum PublisherEvent {
    /// The publish was accepted.
    Published,
    /// The publish was refused.
    PublishRefused,
    /// The pause is over.
    Slept,
}

/// What the publisher is to do next.
#[derive(Debug)]
pub enum PublisherCommand {
    /// Publish the payload to the topic.
    Publish { topic: String, qos: QoS, retain: bool, payload: Vec<u8> },
    /// Pause for so many milliseconds.
    Sleep { millis: u64 },
    /// Nothing is left to do.
    Finish,
    /// Give up, with this failure: a refused publish ends the whole process.
    Abort(LinkError),
}

/// A publisher's command, as mathematical values.
pub enum PublisherOrder {
    Publish { topic: Seq<char>, qos: QoS, retain: bool, payload: Seq<u8> },
    Sleep { millis: u64 },
    Finish,
    Abort(LinkError),
}

impl View for PublisherCommand {
    type V = PublisherOrder;

    open spec fn view(&self) -> PublisherOrder {
        match self {
            PublisherCommand::Publish { topic, qos, retain, payload } => PublisherOrder::Publish {
                topic: topic@,
                qos: *qos,
                retain: *retain,
                payload: payload@,
            },
            PublisherCommand::Sleep { millis } => PublisherOrder::Sleep { millis: *millis },
            PublisherCommand::Finish => PublisherOrder::Finish,
            PublisherCommand::Abort(error) => PublisherOrder::Abort(*error),
        }
    }
}

/// The state of a publisher, as mathematical values.
pub struct PublisherState {
    pub topic: Seq<char>,
    pub qos: QoS,
    /// The number of publishes to make.
    pub count: nat,
    /// The pause after each publish, in milliseconds.
    pub interval_ms: u64,
    /// The number of publishes that went out and were followed by their
    /// pause.
    pub sent: nat,
    pub phase: PublisherPhase,
}

impl PublisherState {
    /// The state in which a publisher begins. With nothing to publish it is
    /// finished at once.
    pub open spec fn initial(topic: Seq<char>, qos: QoS, count: nat, interval_ms: u64) -> PublisherState {
        PublisherState {
            topic,
            qos,
            count,
            interval_ms,
            sent: 0,
            phase: if count == 0 {
                PublisherPhase::Finished
            } else {
                PublisherPhase::Publishing
            },
        }
    }

    /// What holds of every state that a publisher can be in.
    pub open spec fn wf(self) -> bool {
        match self.phase {
            PublisherPhase::Publishing => self.sent < self.count,
            PublisherPhase::Pausing => self.sent < self.count,
            PublisherPhase::Finished => self.sent == self.count,
            PublisherPhase::Failed => self.sent < self.count,
        }
    }

    /// The command that the state waits on. A publish carries the payload of
    /// its index, and never the retain flag.
    pub open spec fn pending(self) -> PublisherOrder {
        match self.phase {
            PublisherPhase::Publishing => PublisherOrder::Publish {
                topic: self.topic,
                qos: self.qos,
                retain: false,
                payload: payload_spec(self.sent),
            },
            PublisherPhase::Pausing => PublisherOrder::Sleep { millis: self.interval_ms },
            PublisherPhase::Finished => PublisherOrder::Finish,
            PublisherPhase::Failed => PublisherOrder::Abort(LinkError::Publish),
        }
    }

    /// The state after an event. An event that does not answer the pending
    /// command changes nothing.
    pub open spec fn after(self, event: PublisherEvent) -> PublisherState {
        match (self.phase, event) {
            (PublisherPhase::Publishing, PublisherEvent::Published) => PublisherState {
                phase: PublisherPhase::Pausing,
                ..self
            },
            (PublisherPhase::Publishing, PublisherEvent::PublishRefused) => PublisherState {
                phase: PublisherPhase::Failed,
                ..self
            },
            (PublisherPhase::Pausing, PublisherEvent::Slept) => PublisherState {
                sent: self.sent + 1,
                phase: if self.sent + 1 < self.count {
                    PublisherPhase::Publishing
                } else {
                    PublisherPhase::Finished
                },
                ..self
            },
            _ => self,
        }
    }

    /// The event that says that the pending command was carried out.
    pub open spec fn done(self) -> PublisherEvent {
        if self.phase == PublisherPhase::Pausing {
            PublisherEvent::Slept
        } else {
            PublisherEvent::Published
        }
    }

    /// The state after `steps` commands, each of them carried out.
    pub open spec fn after_done(self, steps: nat) -> PublisherState
        decreases steps,
    {
        if steps == 0 {
            self
        } else {
            let before = self.after_done((steps - 1) as nat);
            before.after(before.done())
        }
    }
}

/// Where a publisher stands, with the index of the publish that it is at.
#[derive(Clone, Copy, Debug)]
enum Progress {
    Publishing(usize),
    Pausing(usize),
    Finished,
    Failed(usize),
}

/// The decisions of the publisher: which payload to publish when, and when
/// to pause.
#[derive(Debug)]
pub struct Publisher {
    topic: String,
    qos: QoS,
    count: usize,
    interval_ms: u64,
    progress: Progress,
}

impl View for Publisher {
    type V = PublisherState;

    closed spec fn view(&self) -> PublisherState {
        PublisherState {
            topic: self.topic@,
            qos: self.qos,
            count: self.count as nat,
            interval_ms: self.interval_ms,
            sent: match self.progress {
                Progress::Publishing(index) => index as nat,
                Progress::Pausing(index) => index as nat,
                Progress::Finished => self.count as nat,
                Progress::Failed(index) => index as nat,
            },
            phase: match self.progress {
                Progress::Publishing(_) => PublisherPhase::Publishing,
                Progress::Pausing(_) => PublisherPhase::Pausing,
                Progress::Finished => PublisherPhase::Finished,
                Progress::Failed(_) => PublisherPhase::Failed,
            },
        }
    }
}

impl Publisher {
    #[verifier::type_invariant]
    spec fn inv(self) -> bool {
        self@.wf()
    }

    /// A publisher at its beginning.
    pub fn new(topic: String, qos: QoS, count: usize, interval_ms: u64) -> (publisher: Publisher)
        ensures
            publisher@ == PublisherState::initial(topic@, qos, count as nat, interval_ms),
            publisher@.wf(),
    {
        let progress = if count == 0 {
            Progress::Finished
        } else {
            Progress::Publishing(0)
        };
        Publisher { topic, qos, count, interval_ms, progress }
    }

    /// The command that the publisher waits on.
    pub fn pending(&self) -> (command: PublisherCommand)
        ensures
            command@ == self@.pending(),
            self@.wf(),
    {
        proof {
            use_type_invariant(self);
        }
        match self.progress {
            Progress::Publishing(index) => PublisherCommand::Publish {
                topic: self.topic.clone(),
                qos: self.qos,
                retain: false,
                payload: payload(index),
            },
            Progress::Pausing(_) => PublisherCommand::Sleep { millis: self.interval_ms },
            Progress::Finished => PublisherCommand::Finish,
            Progress::Failed(_) => PublisherCommand::Abort(LinkError::Publish),
        }
    }

    /// Takes what came of the pending command, and decides what to do next.
    pub fn step(&mut self, event: PublisherEvent) -> (command: PublisherCommand)
        ensures
            final(self)@ == old(self)@.after(event),
            command@ == final(self)@.pending(),
            final(self)@.wf(),
    {
        proof {
            use_type_invariant(&*self);
        }
        match self.progress {
            Progress::Publishing(index) => match event {
                PublisherEvent::Published => {
                    self.progress = Progress::Pausing(index);
                },
                PublisherEvent::PublishRefused => {
                    self.progress = Progress::Failed(index);
                },
                PublisherEvent::Slept => {},
            },
            Progress::Pausing(index) => match event {
                PublisherEvent::Slept => {
                    if index + 1 < self.count {
                        self.progress = Progress::Publishing(index + 1);
                    } else {
                        self.progress = Progress::Finished;
                    }
                },
                _ => {},
            },
            Progress::Finished => {},
            Progress::Failed(_) => {},
        }
        self.pending()
    }
}

/// The command at a position of the schedule of a publisher that makes
/// `count` publishes: publish and pause take turns, the publish with index
/// `i` at position `2 * i` and its pause right after it, and after the last
/// pause nothing is left.
pub open spec fn scheduled(
    topic: Seq<char>,
    qos: QoS,
    count: nat,
    interval_ms: u64,
    position: nat,
) -> PublisherOrder {
    if position >= 2 * count {
        PublisherOrder::Finish
    } else if position % 2 == 0 {
        PublisherOrder::Publish { topic, qos, retain: false, payload: payload_spec(position / 2) }
    } else {
        PublisherOrder::Sleep { millis: interval_ms }
    }
}

/// The payload of the publish with index `i` has `i` bytes, and each of
/// them is `i` modulo 256.
pub proof fn lemma_payload_bytes(index: nat)
    ensures
        payload_spec(index).len() == index,
        forall|j: int| 0 <= j < index ==> (#[trigger] payload_spec(index)[j]) as int == index % 256,
{
}

/// The state of a publisher that makes `count` publishes, after `position`
/// commands that were carried out.
pub open spec fn state_at(
    topic: Seq<char>,
    qos: QoS,
    count: nat,
    interval_ms: u64,
    position: nat,
) -> PublisherState {
    PublisherState {
        topic,
        qos,
        count,
        interval_ms,
        sent: if position >= 2 * count {
            count
        } else {
            position / 2
        },
        phase: if position >= 2 * count {
            PublisherPhase::Finished
        } else if position % 2 == 0 {
            PublisherPhase::Publishing
        } else {
            PublisherPhase::Pausing
        },
    }
}

/// A publisher whose commands are all carried out follows its schedule: it
/// asks for exactly `count` publishes, the one with index `i` carrying the
/// payload of `i`, each followed by one pause, and then for nothing more.
pub proof fn lemma_publisher_follows_schedule(
    topic: Seq<char>,
    qos: QoS,
    count: nat,
    interval_ms: u64,
    position: nat,
)
    ensures
        PublisherState::initial(topic, qos, count, interval_ms).after_done(position) == state_at(
            topic,
            qos,
            count,
            interval_ms,
            position,
        ),
        state_at(topic, qos, count, interval_ms, position).pending() == scheduled(
            topic,
            qos,
            count,
            interval_ms,
            position,
        ),
        state_at(topic, qos, count, interval_ms, position).wf(),
    decreases position,
{
    if position > 0 {
        lemma_publisher_follows_schedule(topic, qos, count, interval_ms, (position - 1) as nat);
    }
}

/// With nothing to publish, the publisher asks for no publish and no pause:
/// it is finished from the start, and no event moves it.
pub proof fn lemma_nothing_to_publish(
    topic: Seq<char>,
    qos: QoS,
    interval_ms: u64,
    event: PublisherEvent,
)
    ensures
        PublisherState::initial(topic, qos, 0, interval_ms).pending() == PublisherOrder::Finish,
        PublisherState::initial(topic, qos, 0, interval_ms).after(event) == PublisherState::initial(
            topic,
            qos,
            0,
            interval_ms,
        ),
{
}

/// A refused publish ends the publisher: it asks to give up, and no event
/// moves it.
pub proof fn lemma_refusal_is_final(state: PublisherState, event: PublisherEvent)
    requires
        state.phase == PublisherPhase::Publishing,
    ensures
        state.after(PublisherEvent::PublishRefused).pending() == PublisherOrder::Abort(
            LinkError::Publish,
        ),
        state.after(PublisherEvent::PublishRefused).after(event) == state.after(
            PublisherEvent::PublishRefused,
        ),
{
}

/// How far the role has come.
#[derive(Clone, Copy, Debug, PartialEq, Eq, Structural)]
pub enum ClientPhase {
    /// The session is built; nothing is subscribed yet.
    Constructed,
    /// The subscription stands; the publisher does not run yet.
    Subscribed,
    /// The publisher runs on a thread of its own, and the session's stream
    /// is read.
    Draining,
    /// The stream is over: the role ends well.
    Terminated,
    /// A failure has ended the role.
    Stopped(LinkError),
}

/// What came of the role's last command.
#[derive(Debug)]
pub enum ClientEvent {
    /// The subscription was accepted.
    Subscribed,
    /// The subscription was refused.
    SubscribeRefused,
    /// The publisher was handed to a thread of its own.
    PublisherStarted,
    /// The stream gave a notification, here as the engine describes it.
    Notified { description: String },
    /// The stream gave an error that ends it, here as the engine describes
    /// it.
    StreamFailed { description: String },
    /// The stream is over.
    StreamEnded,
}

/// What the role is to do next.
#[derive(Debug)]
pub enum ClientCommand {
    /// Subscribe to the topic.
    Subscribe { topic: String, qos: QoS },
    /// Start this publisher on a thread of its own, and do not wait for it.
    StartPublisher(Publisher),
    /// Take the next item of the session's stream.
    Poll,
    /// End well.
    Finish,
    /// Give up, with this failure.
    Exit(LinkError),
}

/// A command of the role, as mathematical values.
pub enum ClientOrder {
    Subscribe { topic: Seq<char>, qos: QoS },
    StartPublisher(PublisherState),
    Poll,
    Finish,
    Exit(LinkError),
}

impl View for ClientCommand {
    type V = ClientOrder;

    open spec fn view(&self) -> ClientOrder {
        match self {
            ClientCommand::Subscribe { topic, qos } => ClientOrder::Subscribe {
                topic: topic@,
                qos: *qos,
            },
            ClientCommand::StartPublisher(publisher) => ClientOrder::StartPublisher(publisher@),
            ClientCommand::Poll => ClientOrder::Poll,
            ClientCommand::Finish => ClientOrder::Finish,
            ClientCommand::Exit(error) => ClientOrder::Exit(*error),
        }
    }
}

/// The line that reports an item of the stream: the engine's description of
/// it, and its index, which counts from zero.
pub open spec fn notification_line(description: Seq<char>, index: nat) -> Seq<char> {
    "Notification = "@ + description + " ("@ + decimal(index) + ")"@
}

impl ClientEvent {
    /// Whether the event is an item of the stream.
    pub open spec fn is_item(self) -> bool {
        self is Notified || self is StreamFailed
    }

    /// The engine's description of the item that the event brings.
    pub open spec fn description(self) -> Seq<char>
        recommends
            self.is_item(),
    {
        match self {
            ClientEvent::Notified { description } => description@,
            ClientEvent::StreamFailed { description } => description@,
            _ => Seq::empty(),
        }
    }
}

/// The state of the role, as mathematical values.
pub struct ClientState {
    pub subscribe_topic: Seq<char>,
    pub publish_topic: Seq<char>,
    pub qos: QoS,
    pub publish_count: nat,
    pub publish_interval_ms: u64,
    pub phase: ClientPhase,
    /// The number of items of the stream seen so far.
    pub seen: nat,
}

impl ClientState {
    /// The state in which a run with the given configuration begins.
    pub open spec fn initial(profile: ClientProfile) -> ClientState {
        ClientState {
            subscribe_topic: profile.subscribe_topic,
            publish_topic: profile.publish_topic,
            qos: profile.qos,
            publish_count: profile.publish_count as nat,
            publish_interval_ms: profile.publish_interval_ms,
            phase: ClientPhase::Constructed,
            seen: 0,
        }
    }

    /// The publisher of the run, at its beginning.
    pub open spec fn publisher(self) -> PublisherState {
        PublisherState::initial(
            self.publish_topic,
            self.qos,
            self.publish_count,
            self.publish_interval_ms,
        )
    }

    /// The command that the state waits on.
    pub open spec fn pending(self) -> ClientOrder {
        match self.phase {
            ClientPhase::Constructed => ClientOrder::Subscribe {
                topic: self.subscribe_topic,
                qos: self.qos,
            },
            ClientPhase::Subscribed => ClientOrder::StartPublisher(self.publisher()),
            ClientPhase::Draining => ClientOrder::Poll,
            ClientPhase::Terminated => ClientOrder::Finish,
            ClientPhase::Stopped(error) => ClientOrder::Exit(error),
        }
    }

    /// Whether the event is an item of the stream that is taken: only while
    /// the stream is read.
    pub open spec fn takes(self, event: ClientEvent) -> bool {
        self.phase == ClientPhase::Draining && event.is_item()
    }

    /// The phase after an event. An event that does not answer the pending
    /// command changes nothing. The end of the stream and an error that
    /// ends it are not told apart: after both the role ends well.
    pub open spec fn next_phase(self, event: ClientEvent) -> ClientPhase {
        match (self.phase, event) {
            (ClientPhase::Constructed, ClientEvent::Subscribed) => ClientPhase::Subscribed,
            (ClientPhase::Constructed, ClientEvent::SubscribeRefused) => ClientPhase::Stopped(
                LinkError::Subscribe,
            ),
            (ClientPhase::Subscribed, ClientEvent::PublisherStarted) => ClientPhase::Draining,
            (ClientPhase::Draining, ClientEvent::StreamFailed { .. }) => ClientPhase::Terminated,
            (ClientPhase::Draining, ClientEvent::StreamEnded) => ClientPhase::Terminated,
            (phase, _) => phase,
        }
    }

    /// The state after an event.
    pub open spec fn after(self, event: ClientEvent) -> ClientState {
        ClientState {
            phase: self.next_phase(event),
            seen: if self.takes(event) {
                self.seen + 1
            } else {
                self.seen
            },
            ..self
        }
    }

    /// The line to print for an event, if it calls for one: each item of
    /// the stream is reported with the number of items before it.
    pub open spec fn output(self, event: ClientEvent) -> Option<Seq<char>> {
        if self.takes(event) {
            Some(notification_line(event.description(), self.seen))
        } else {
            None
        }
    }

    /// The state after a run of events, taken in order.
    pub open spec fn after_all(self, events: Seq<ClientEvent>) -> ClientState
        decreases events.len(),
    {
        if events.len() == 0 {
            self
        } else {
            self.after_all(events.drop_last()).after(events.last())
        }
    }
}

/// What a step of the role decides: a line to print, if any, and the next
/// command.
#[derive(Debug)]
pub struct ClientReaction {
    pub line: Option<String>,
    pub next: ClientCommand,
}

/// The decisions of one run of the client role.
#[derive(Debug)]
pub struct ClientRun {
    pub subscribe_topic: String,
    pub publish_topic: String,
    pub qos: QoS,
    pub publish_count: usize,
    pub publish_interval_ms: u64,
    pub phase: ClientPhase,
    /// The number of items of the stream seen so far.
    pub seen: usize,
}

impl View for ClientRun {
    type V = ClientState;

    open spec fn view(&self) -> ClientState {
        ClientState {
            subscribe_topic: self.subscribe_topic@,
            publish_topic: self.publish_topic@,
            qos: self.qos,
            publish_count: self.publish_count as nat,
            publish_interval_ms: self.publish_interval_ms,
            phase: self.phase,
            seen: self.seen as nat,
        }
    }
}

/// Writes the line that reports an item of the stream.
pub fn report_notification(description: &str, index: usize) -> (line: String)
    ensures
        line@ == notification_line(description@, index as nat),
{
    let mut line = String::from_str("Notification = ");
    line.append(description);
    line.append(" (");
    push_decimal(&mut line, index as u64);
    line.append(")");
    line
}

impl ClientRun {
    /// A run at its beginning: the session is built, nothing else is done.
    pub fn new(config: ClientConfig) -> (run: ClientRun)
        ensures
            run@ == ClientState::initial(config@),
    {
        ClientRun {
            subscribe_topic: config.subscribe_topic,
            publish_topic: config.publish_topic,
            qos: config.qos,
            publish_count: config.publish_count,
            publish_interval_ms: config.publish_interval_ms,
            phase: ClientPhase::Constructed,
            seen: 0,
        }
    }

    /// The command that the run waits on.
    pub fn pending(&self) -> (command: ClientCommand)
        ensures
            command@ == self@.pending(),
    {
        match self.phase {
            ClientPhase::Constructed => ClientCommand::Subscribe {
                topic: self.subscribe_topic.clone(),
                qos: self.qos,
            },
            ClientPhase::Subscribed => ClientCommand::StartPublisher(
                Publisher::new(
                    self.publish_topic.clone(),
                    self.qos,
                    self.publish_count,
                    self.publish_interval_ms,
                ),
            ),
            ClientPhase::Draining => ClientCommand::Poll,
            ClientPhase::Terminated => ClientCommand::Finish,
            ClientPhase::Stopped(error) => ClientCommand::Exit(error),
        }
    }

    /// Takes what came of the pending command, and decides what to print and
    /// what to do next.
    ///
    /// The counter of items must have room for one more.
    pub fn step(&mut self, event: ClientEvent) -> (reaction: ClientReaction)
        requires
            old(self)@.takes(event) ==> old(self).seen < usize::MAX,
        ensures
            final(self)@ == old(self)@.after(event),
            reaction.next@ == final(self)@.pending(),
            match reaction.line {
                Some(line) => old(self)@.output(event) == Some(line@),
                None => old(self)@.output(event) is None,
            },
    {
        let mut line: Option<String> = None;
        match self.phase {
            ClientPhase::Constructed => match event {
                ClientEvent::Subscribed => {
                    self.phase = ClientPhase::Subscribed;
                },
                ClientEvent::SubscribeRefused => {
                    self.phase = ClientPhase::Stopped(LinkError::Subscribe);
                },
                _ => {},
            },
            ClientPhase::Subscribed => match event {
                ClientEvent::PublisherStarted => {
                    self.phase = ClientPhase::Draining;
                },
                _ => {},
            },
            ClientPhase::Draining => match event {
                ClientEvent::Notified { description } => {
                    line = Some(report_notification(description.as_str(), self.seen));
                    self.seen = self.seen + 1;
                },
                ClientEvent::StreamFailed { description } => {
                    line = Some(report_notification(description.as_str(), self.seen));
                    self.seen = self.seen + 1;
                    self.phase = ClientPhase::Terminated;
                },
                ClientEvent::StreamEnded => {
                    self.phase = ClientPhase::Terminated;
                },
                _ => {},
            },
            ClientPhase::Terminated => {},
            ClientPhase::Stopped(_) => {},
        }
        ClientReaction { line, next: self.pending() }
    }
}

/// While the stream gives notifications, each is reported with its index:
/// after a run of them the counter has grown by their number, so that the
/// first is reported with 0 and each next one with one more.
pub proof fn lemma_indices_count_up(state: ClientState, events: Seq<ClientEvent>)
    requires
        state.phase == ClientPhase::Draining,
        forall|i: int| 0 <= i < events.len() ==> (#[trigger] events[i]) is Notified,
    ensures
        state.after_all(events).phase == ClientPhase::Draining,
        state.after_all(events).seen == state.seen + events.len(),
    decreases events.len(),
{
    if events.len() > 0 {
        lemma_indices_count_up(state, events.drop_last());
        assert(events.last() == events[events.len() - 1]);
        assert(events.last() is Notified);
    }
}

impl ClientPhase {
    /// The place of the phase in the order in which a run goes through its
    /// phases.
    pub open spec fn rank(self) -> nat {
        match self {
            ClientPhase::Constructed => 0,
            ClientPhase::Subscribed => 1,
            ClientPhase::Draining => 2,
            ClientPhase::Terminated => 3,
            ClientPhase::Stopped(_) => 4,
        }
    }
}

/// A run never goes back to a phase that it has left. So it asks once for
/// its one subscription and once for the start of its one publisher: each
/// of these is pending in one phase only.
pub proof fn lemma_client_phases_advance(state: ClientState, events: Seq<ClientEvent>)
    ensures
        state.phase.rank() <= state.after_all(events).phase.rank(),
        state.pending() is Subscribe <==> state.phase.rank() == 0,
        state.pending() is StartPublisher <==> state.phase.rank() == 1,
    decreases events.len(),
{
    if events.len() > 0 {
        lemma_client_phases_advance(state, events.drop_last());
    }
}

/// Once the role has ended, well or not, no event changes anything.
pub proof fn lemma_ended_stays(state: ClientState, events: Seq<ClientEvent>)
    requires
        state.phase is Terminated || state.phase is Stopped,
    ensures
        state.after_all(events) == state,
    decreases events.len(),
{
    if events.len() > 0 {
        lemma_ended_stays(state, events.drop_last());
    }
}

/// The publisher is started only after the subscription stands: where the
/// subscription is refused, whatever follows, the pending command is the
/// exit with `LinkError::Subscribe`.
pub proof fn lemma_refused_subscription_starts_nothing(
    profile: ClientProfile,
    events: Seq<ClientEvent>,
)
    requires
        events.len() > 0,
        events[0] is SubscribeRefused,
    ensures
        ClientState::initial(profile).after_all(events).pending() == ClientOrder::Exit(
            LinkError::Subscribe,
        ),
    decreases events.len(),
{
    if events.len() == 1 {
        assert(events.drop_last().len() == 0);
        assert(events.last() == events[0]);
    } else {
        lemma_refused_subscription_starts_nothing(profile, events.drop_last());
    }
}

/// The client role with its configuration.
pub struct ClientApp {
    pub config: ClientConfig,
}

impl ClientApp {
    /// The role with the configuration that was loaded, or the failure of
    /// the load: nothing else is put in the place of a configuration that
    /// could not be had.
    pub fn new(loaded: Result<ClientConfig, ConfigurationError>) -> (app: Result<
        ClientApp,
        ConfigurationError,
    >)
        ensures
            match loaded {
                Ok(config) => app matches Ok(a) && a.config == config,
                Err(e) => app matches Err(f) && f == e,
            },
    {
        match loaded {
            Ok(config) => Ok(ClientApp { config }),
            Err(e) => Err(e),
        }
    }

    /// Begins the run: hands out the options to build the session with,
    /// which carry the configuration's identifier, host, port and
    /// keep-alive time, and the decisions of the run, at their beginning.
    /// The session's queue is to hold `QUEUE_CAPACITY` requests.
    pub fn run(self) -> (parts: (MqttOptions, ClientRun))
        ensures
            options_client_id(parts.0) == self.config.client_id@,
            options_address(parts.0) == (self.config.host@, self.config.port),
            options_keep_alive(parts.0) == self.config.keep_alive_seconds,
            parts.1@ == ClientState::initial(self.config@),
    {
        let options = self.config.mqtt_options();
        (options, ClientRun::new(self.config))
    }
}

} // verus!
