//! The broker role: it opens one link to its engine, starts the engine,
//! subscribes the link to every topic and then reports what the link
//! receives, for as long as the link lives.
//!
//! The engine and its link live outside this library. What is here decides:
//! a `BrokerRun` names the next thing to do with the engine, takes what came
//! of it, and says what to print.

use vstd::prelude::*;
use vstd::string::*;
use crate::error::{ConfigurationError, LinkError};
use crate::text::{decimal, push_decimal};

verus! {

/// The name under which the role's one link is opened.
pub const LINK_NAME: &'static str = "singlenode";

/// The filter that the link subscribes to: it matches every topic.
pub const WILDCARD_FILTER: &'static str = "#";

/// The character of a hexadecimal digit, in lower case.
pub open spec fn hex_char(digit: nat) -> char
    recommends
        digit < 16,
{
    if digit < 10 {
        (48 + digit) as char
    } else {
        (87 + digit) as char
    }
}

/// How one byte shows inside a byte-string literal: line feed, carriage
/// return and tab as `\n`, `\r` and `\t`, the backslash and the double
/// quote behind a backslash, the zero byte as `\0`, every other printable
/// ASCII byte as its character, and the rest as `\x` with two hexadecimal
/// digits.
pub open spec fn escaped_byte(byte: u8) -> Seq<char> {
    if byte == 0x0a {
        seq!['\\', 'n']
    } else if byte == 0x0d {
        seq!['\\', 'r']
    } else if byte == 0x09 {
        seq!['\\', 't']
    } else if byte == 0x5c || byte == 0x22 {
        seq!['\\', byte as char]
    } else if byte == 0x00 {
        seq!['\\', '0']
    } else if 0x20 <= byte < 0x7f {
        seq![byte as char]
    } else {
        seq!['\\', 'x', hex_char((byte / 16) as nat), hex_char((byte % 16) as nat)]
    }
}

/// How a run of bytes shows inside a byte-string literal: byte by byte.
pub open spec fn escaped_bytes(content: Seq<u8>) -> Seq<char>
    decreases content.len(),
{
    if content.len() == 0 {
        Seq::empty()
    } else {
        escaped_bytes(content.drop_last()) + escaped_byte(content.last())
    }
}

/// The text that a `bytes::Bytes` of the given content shows of itself
/// through `Debug`: a byte-string literal, `b"` and `"` around the bytes.
pub open spec fn bytes_debug(content: Seq<u8>) -> Seq<char> {
    seq!['b', '"'] + escaped_bytes(content) + seq!['"']
}

/// `Debug` of `bytes::Bytes`, on a copy of the topic made by
/// `Bytes::copy_from_slice`: the bytes as a byte-string literal, as
/// `bytes_debug` states it.
#[verifier::external_body]
fn topic_text(topic: &[u8]) -> (text: String)
    ensures
        text@ == bytes_debug(topic@),
{
    format!("{:?}", bytes::Bytes::copy_from_slice(topic))
}

/// One event that the engine hands to the link.
#[derive(Debug)]
pub enum Notification {
    /// A message that the engine forwards to the link.
    Forward { topic: Vec<u8>, payload: Vec<u8> },
    /// Any other event, with the engine's own description of it.
    Other { description: String },
}

/// How far the role has come.
#[derive(Clone, Copy, Debug, PartialEq, Eq, Structural)]
pub enum BrokerPhase {
    /// The engine is built; the link is not open yet.
    Constructed,
    /// The link is open; the engine does not run yet.
    Linked,
    /// The engine runs on a thread of its own; nothing is subscribed yet.
    Running,
    /// The link is subscribed, and is read.
    Draining,
    /// A failure has ended the role.
    Stopped(LinkError),
}

/// What came of the last command.
#[derive(Debug)]
pub enum BrokerEvent {
    /// The engine opened the link.
    LinkOpened,
    /// The engine refused the link.
    LinkRefused,
    /// The engine's start was handed to a thread of its own.
    EngineStarted,
    /// The subscription was accepted.
    Subscribed,
    /// The subscription was refused.
    SubscribeRefused,
    /// The link was read: it had a notification, or none yet.
    Received(Option<Notification>),
    /// The link could not be read.
    ReceiveFailed,
}

/// What to do next with the engine.
#[derive(Clone, Copy, Debug, PartialEq, Eq, Structural)]
pub enum BrokerCommand {
    /// Open the link named `LINK_NAME`.
    OpenLink,
    /// Start the engine on a thread of its own, and do not wait for it.
    StartEngine,
    /// Subscribe the link to `WILDCARD_FILTER`.
    Subscribe,
    /// Read the link once.
    Receive,
    /// Give up, with this failure.
    Exit(LinkError),
}

/// The state of the role, as mathematical values.
pub struct BrokerState {
    pub phase: BrokerPhase,
    /// The number of forwarded messages seen so far.
    pub count: nat,
}

/// The line that reports a forwarded message: its topic as the engine shows
/// it, the running count, and the length of its payload in bytes.
pub open spec fn forward_line(topic: Seq<u8>, count: nat, payload_len: nat) -> Seq<char> {
    "Topic = "@ + bytes_debug(topic) + ", Count = "@ + decimal(count) + ", Payload = "@ + decimal(
        payload_len,
    ) + " bytes"@
}

impl BrokerEvent {
    /// Whether the event is a read that brought a forwarded message.
    pub open spec fn is_forward(self) -> bool {
        self matches BrokerEvent::Received(Some(Notification::Forward { .. }))
    }

    /// Whether the event is a read of the link that did not fail.
    pub open spec fn is_read(self) -> bool {
        self is Received
    }
}

impl BrokerState {
    /// The state in which a run begins.
    pub open spec fn initial() -> BrokerState {
        BrokerState { phase: BrokerPhase::Constructed, count: 0 }
    }

    /// The command that the state waits on.
    pub open spec fn pending(self) -> BrokerCommand {
        match self.phase {
            BrokerPhase::Constructed => BrokerCommand::OpenLink,
            BrokerPhase::Linked => BrokerCommand::StartEngine,
            BrokerPhase::Running => BrokerCommand::Subscribe,
            BrokerPhase::Draining => BrokerCommand::Receive,
            BrokerPhase::Stopped(error) => BrokerCommand::Exit(error),
        }
    }

    /// Whether the event makes the counter move: only a forwarded message
    /// does, and only while the link is read.
    pub open spec fn counts(self, event: BrokerEvent) -> bool {
        self.phase == BrokerPhase::Draining && event.is_forward()
    }

    /// The phase after an event. An event that does not answer the pending
    /// command changes nothing.
    pub open spec fn next_phase(self, event: BrokerEvent) -> BrokerPhase {
        match (self.phase, event) {
            (BrokerPhase::Constructed, BrokerEvent::LinkOpened) => BrokerPhase::Linked,
            (BrokerPhase::Constructed, BrokerEvent::LinkRefused) => BrokerPhase::Stopped(
                LinkError::Open,
            ),
            (BrokerPhase::Linked, BrokerEvent::EngineStarted) => BrokerPhase::Running,
            (BrokerPhase::Running, BrokerEvent::Subscribed) => BrokerPhase::Draining,
            (BrokerPhase::Running, BrokerEvent::SubscribeRefused) => BrokerPhase::Stopped(
                LinkError::Subscribe,
            ),
            (BrokerPhase::Draining, BrokerEvent::ReceiveFailed) => BrokerPhase::Stopped(
                LinkError::Receive,
            ),
            (phase, _) => phase,
        }
    }

    /// The state after an event.
    pub open spec fn after(self, event: BrokerEvent) -> BrokerState {
        BrokerState {
            phase: self.next_phase(event),
            count: if self.counts(event) {
                self.count + 1
            } else {
                self.count
            },
        }
    }

    /// The line to print for an event, if it calls for one: while the link
    /// is read, a forwarded message is reported with the count that it
    /// brings the counter to, and any other notification is shown as the
    /// engine describes it.
    pub open spec fn output(self, event: BrokerEvent) -> Option<Seq<char>> {
        if self.phase == BrokerPhase::Draining {
            match event {
                BrokerEvent::Received(Some(Notification::Forward { topic, payload })) => Some(
                    forward_line(topic@, self.count + 1, payload@.len()),
                ),
                BrokerEvent::Received(Some(Notification::Other { description })) => Some(
                    description@,
                ),
                _ => None,
            }
        } else {
            None
        }
    }

    /// The state after a run of events, taken in order.
    pub open spec fn after_all(self, events: Seq<BrokerEvent>) -> BrokerState
        decreases events.len(),
    {
        if events.len() == 0 {
            self
        } else {
            self.after_all(events.drop_last()).after(events.last())
        }
    }
}

/// The number of reads, in a run of events, that brought a forwarded
/// message.
pub open spec fn forwards(events: Seq<BrokerEvent>) -> nat
    decreases events.len(),
{
    if events.len() == 0 {
        0
    } else {
        forwards(events.drop_last()) + if events.last().is_forward() {
            1nat
        } else {
            0nat
        }
    }
}

/// What a step decides: a line to print, if any, and the next command.
#[derive(Debug)]
pub struct BrokerReaction {
    pub line: Option<String>,
    pub next: BrokerCommand,
}

/// The decisions of one run of the broker role.
#[derive(Debug)]
pub struct BrokerRun {
    pub phase: BrokerPhase,
    /// The number of forwarded messages seen so far.
    pub count: u64,
}

impl View for BrokerRun {
    type V = BrokerState;

    open spec fn view(&self) -> BrokerState {
        BrokerState { phase: self.phase, count: self.count as nat }
    }
}

impl BrokerRun {
    /// A run at its beginning: the engine is built, nothing else is done.
    pub fn new() -> (run: BrokerRun)
        ensures
            run@ == BrokerState::initial(),
    {
        BrokerRun { phase: BrokerPhase::Constructed, count: 0 }
    }

    /// The command that the run waits on.
    pub fn pending(&self) -> (command: BrokerCommand)
        ensures
            command == self@.pending(),
    {
        match self.phase {
            BrokerPhase::Constructed => BrokerCommand::OpenLink,
            BrokerPhase::Linked => BrokerCommand::StartEngine,
            BrokerPhase::Running => BrokerCommand::Subscribe,
            BrokerPhase::Draining => BrokerCommand::Receive,
            BrokerPhase::Stopped(error) => BrokerCommand::Exit(error),
        }
    }

    /// Takes what came of the pending command, and decides what to print and
    /// what to do next.
    ///
    /// The counter of forwarded messages must have room for one more.
    pub fn step(&mut self, event: BrokerEvent) -> (reaction: BrokerReaction)
        requires
            old(self)@.counts(event) ==> old(self).count < u64::MAX,
        ensures
            final(self)@ == old(self)@.after(event),
            reaction.next == final(self)@.pending(),
            match reaction.line {
                Some(line) => old(self)@.output(event) == Some(line@),
                None => old(self)@.output(event) is None,
            },
    {
        let mut line: Option<String> = None;
        match self.phase {
            BrokerPhase::Constructed => match event {
                BrokerEvent::LinkOpened => {
                    self.phase = BrokerPhase::Linked;
                },
                BrokerEvent::LinkRefused => {
                    self.phase = BrokerPhase::Stopped(LinkError::Open);
                },
                _ => {},
            },
            BrokerPhase::Linked => match event {
                BrokerEvent::EngineStarted => {
                    self.phase = BrokerPhase::Running;
                },
                _ => {},
            },
            BrokerPhase::Running => match event {
                BrokerEvent::Subscribed => {
                    self.phase = BrokerPhase::Draining;
                },
                BrokerEvent::SubscribeRefused => {
                    self.phase = BrokerPhase::Stopped(LinkError::Subscribe);
                },
                _ => {},
            },
            BrokerPhase::Draining => match event {
                BrokerEvent::Received(Some(Notification::Forward { topic, payload })) => {
                    self.count = self.count + 1;
                    line = Some(report_forward(topic.as_slice(), self.count, payload.len()));
                },
                BrokerEvent::Received(Some(Notification::Other { description })) => {
                    line = Some(description);
                },
                BrokerEvent::ReceiveFailed => {
                    self.phase = BrokerPhase::Stopped(LinkError::Receive);
                },
                _ => {},
            },
            BrokerPhase::Stopped(_) => {},
        }
        BrokerReaction { line, next: self.pending() }
    }
}

/// Writes the line that reports a forwarded message.
pub fn report_forward(topic: &[u8], count: u64, payload_len: usize) -> (line: String)
    ensures
        line@ == forward_line(topic@, count as nat, payload_len as nat),
{
    let mut line = String::from_str("Topic = ");
    let shown = topic_text(topic);
    line.append(shown.as_str());
    line.append(", Count = ");
    push_decimal(&mut line, count);
    line.append(", Payload = ");
    push_decimal(&mut line, payload_len as u64);
    line.append(" bytes");
    line
}

/// While the link is read without failure, the counter grows by exactly the
/// number of forwarded messages: one for each, and nothing for any other
/// notification or for a read that brought none.
pub proof fn lemma_count_follows_forwards(state: BrokerState, events: Seq<BrokerEvent>)
    requires
        state.phase == BrokerPhase::Draining,
        forall|i: int| 0 <= i < events.len() ==> (#[trigger] events[i]).is_read(),
    ensures
        state.after_all(events).phase == BrokerPhase::Draining,
        state.after_all(events).count == state.count + forwards(events),
    decreases events.len(),
{
    if events.len() > 0 {
        lemma_count_follows_forwards(state, events.drop_last());
        assert(events.last() == events[events.len() - 1]);
        assert(events.last().is_read());
    }
}

/// Whatever happens, the counter never falls, and it grows by at most the
/// number of forwarded messages among the events.
pub proof fn lemma_count_bounds(state: BrokerState, events: Seq<BrokerEvent>)
    ensures
        state.count <= state.after_all(events).count <= state.count + forwards(events),
    decreases events.len(),
{
    if events.len() > 0 {
        lemma_count_bounds(state, events.drop_last());
    }
}

impl BrokerPhase {
    /// The place of the phase in the order in which a run goes through its
    /// phases.
    pub open spec fn rank(self) -> nat {
        match self {
            BrokerPhase::Constructed => 0,
            BrokerPhase::Linked => 1,
            BrokerPhase::Running => 2,
            BrokerPhase::Draining => 3,
            BrokerPhase::Stopped(_) => 4,
        }
    }
}

/// A run never goes back to a phase that it has left. So it asks once for
/// its one link, once for the start of the engine and once for its one
/// subscription: each of these is pending in one phase only.
pub proof fn lemma_phases_advance(state: BrokerState, events: Seq<BrokerEvent>)
    ensures
        state.phase.rank() <= state.after_all(events).phase.rank(),
        state.pending() == BrokerCommand::OpenLink <==> state.phase.rank() == 0,
        state.pending() == BrokerCommand::StartEngine <==> state.phase.rank() == 1,
        state.pending() == BrokerCommand::Subscribe <==> state.phase.rank() == 2,
    decreases events.len(),
{
    if events.len() > 0 {
        lemma_phases_advance(state, events.drop_last());
    }
}

/// Once a failure has ended the run, no event changes anything: the run
/// keeps asking to exit with that failure.
pub proof fn lemma_stopped_stays(state: BrokerState, events: Seq<BrokerEvent>)
    requires
        state.phase is Stopped,
    ensures
        state.after_all(events) == state,
    decreases events.len(),
{
    if events.len() > 0 {
        lemma_stopped_stays(state, events.drop_last());
    }
}

/// A link that the engine refuses ends the run before any subscription:
/// from the refusal on, whatever follows, the pending command is the exit
/// with `LinkError::Open`, never `Subscribe`.
pub proof fn lemma_refused_link_never_subscribes(events: Seq<BrokerEvent>)
    requires
        events.len() > 0,
        events[0] is LinkRefused,
    ensures
        BrokerState::initial().pending() == BrokerCommand::OpenLink,
        BrokerState::initial().after_all(events).pending() == BrokerCommand::Exit(LinkError::Open),
        BrokerState::initial().after_all(events).count == 0,
    decreases events.len(),
{
    if events.len() == 1 {
        assert(events.drop_last().len() == 0);
        assert(events.last() == events[0]);
    } else {
        lemma_refused_link_never_subscribes(events.drop_last());
    }
}

/// The broker role with its engine's settings.
pub struct BrokerApp {
    pub config: rumqttd::Config,
}

impl BrokerApp {
    /// The role with the engine's settings that were loaded, or the failure
    /// of the load: nothing else is put in the place of settings that
    /// could not be had.
    pub fn new(loaded: Result<rumqttd::Config, ConfigurationError>) -> (app: Result<
        BrokerApp,
        ConfigurationError,
    >)
        ensures
            match loaded {
                Ok(settings) => app matches Ok(a) && a.config == settings,
                Err(e) => app matches Err(f) && f == e,
            },
    {
        match loaded {
            Ok(config) => Ok(BrokerApp { config }),
            Err(e) => Err(e),
        }
    }

    /// Begins the run: hands out the settings to build the engine with, and
    /// the decisions of the run, at their beginning.
    pub fn run(self) -> (parts: (rumqttd::Config, BrokerRun))
        ensures
            parts.0 == self.config,
            parts.1@ == BrokerState::initial(),
    {
        (self.config, BrokerRun::new())
    }
}

} // verus!
