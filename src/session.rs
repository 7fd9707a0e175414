//! The exchange loop as a state machine: each call of `step` takes the
//! result of the last action and says what to do next. The caller performs
//! the socket work and measures round-trip times.
use vstd::prelude::*;
use crate::error::PingError;
use crate::packet::{is_probe_bytes, ICMPEchoRequestHeader};
use crate::reply::{classification, classify_reply, ProbeOutcome};
use crate::stats::RunStatistics;

verus! {

/// Where a run stands.
#[derive(Debug, Clone, Copy, PartialEq, Eq, Structural)]
pub enum Phase {
    /// Nothing done yet; waiting for the parsed destination.
    Idle,
    /// Waiting for the socket to be opened and its timeout set.
    Opening,
    /// Waiting for the send of the current probe.
    Sending,
    /// Waiting for the reply to the current probe.
    AwaitingReply,
    /// Every probe has an outcome.
    Done,
    /// A fatal error ended the run.
    Aborted,
}

/// What the caller reports back after performing an action.
pub enum Event {
    /// The run starts; the destination as parsed, `None` if it is not an IPv4
    /// literal.
    Start(Option<[u8; 4]>),
    /// The socket is open and its receive timeout is set.
    Opened,
    /// Socket creation failed with this platform error code.
    InitFailed(i32),
    /// Setting the receive timeout failed with this platform error code.
    ConfigFailed(i32),
    /// The probe was sent.
    Sent,
    /// The send failed with this platform error code.
    SendFailed(i32),
    /// A datagram arrived; `ancillary_ttl` is the TTL that the transport read
    /// beside it, 0 when it had none.
    Received { bytes: Vec<u8>, ancillary_ttl: u8 },
    /// No datagram arrived within the receive timeout.
    TimedOut,
    /// The receive failed for another reason, with this platform error code.
    ReceiveFailed(i32),
}

/// What the caller does next.
pub enum Action {
    /// Open the raw ICMP socket and set its receive timeout.
    Open,
    /// Send `packet` to `destination`.
    Send { destination: [u8; 4], sequence_number: u16, packet: Vec<u8> },
    /// Wait for one datagram, up to the receive timeout.
    Receive,
    /// The run is over; report these statistics and close the socket.
    Finish(RunStatistics),
    /// The run failed; close the socket if one is open and report the error.
    Abort(PingError),
}

/// The result of one step: the outcome of the probe that just ended, if one
/// did, and the next action.
pub struct Step {
    pub outcome: Option<ProbeOutcome>,
    pub action: Action,
}

/// The state of one run against one destination.
pub struct Session {
    pub packet_count: u16,
    /// Whether received buffers start with the IP header (raw sockets) or
    /// with the ICMP message (datagram sockets).
    pub ip_header_present: bool,
    pub destination: [u8; 4],
    /// The current probe's sequence number while sending or awaiting.
    pub sequence_number: u16,
    pub stats: RunStatistics,
    pub phase: Phase,
}

impl Session {
    /// Every probe before the current one has exactly one outcome counted.
    pub open spec fn wf(&self) -> bool {
        let completed = self.stats.succeeded + self.stats.failed;
        &&& self.stats.sent == self.packet_count
        &&& completed <= self.packet_count
        &&& (self.phase is Idle || self.phase is Opening) ==> completed == 0
        &&& (self.phase is Sending || self.phase is AwaitingReply) ==> completed
            == self.sequence_number && self.sequence_number < self.packet_count
        &&& self.phase is Done ==> completed == self.packet_count
    }

    /// The events that the current phase waits for.
    pub open spec fn accepts_spec(&self, event: &Event) -> bool {
        match self.phase {
            Phase::Idle => *event is Start,
            Phase::Opening => *event is Opened || *event is InitFailed || *event is ConfigFailed,
            Phase::Sending => *event is Sent || *event is SendFailed,
            Phase::AwaitingReply => *event is Received || *event is TimedOut
                || *event is ReceiveFailed,
            Phase::Done | Phase::Aborted => false,
        }
    }

    /// The action that sends the probe of the current sequence number.
    pub open spec fn sends_current_probe(&self, action: Action) -> bool {
        match action {
            Action::Send { destination, sequence_number, packet } => {
                &&& destination == self.destination
                &&& sequence_number == self.sequence_number
                &&& is_probe_bytes(packet@, sequence_number)
            },
            _ => false,
        }
    }

    /// After an outcome, `next` goes on to the following probe, or finishes
    /// with its statistics once every probe has one.
    pub open spec fn moves_on(&self, next: Session, action: Action) -> bool {
        if self.sequence_number + 1 < self.packet_count {
            &&& next.phase == Phase::Sending
            &&& next.sequence_number == self.sequence_number + 1
            &&& next.sends_current_probe(action)
        } else {
            &&& next.phase == Phase::Done
            &&& action == Action::Finish(next.stats)
        }
    }

    /// A run of `packet_count` probes that has not started.
    pub fn new(packet_count: u16, ip_header_present: bool) -> (r: Self)
        ensures
            r.wf(),
            r.phase == Phase::Idle,
            r.packet_count == packet_count,
            r.ip_header_present == ip_header_present,
            r.stats == (RunStatistics { sent: packet_count as u32, succeeded: 0, failed: 0 }),
    {
        Session {
            packet_count,
            ip_header_present,
            destination: [0, 0, 0, 0],
            sequence_number: 0,
            stats: RunStatistics::new(packet_count),
            phase: Phase::Idle,
        }
    }

    /// Whether the current phase waits for `event`.
    pub fn accepts(&self, event: &Event) -> (r: bool)
        ensures
            r == self.accepts_spec(event),
    {
        match self.phase {
            Phase::Idle => matches!(event, Event::Start(_)),
            Phase::Opening => matches!(event, Event::Opened | Event::InitFailed(_) | Event::ConfigFailed(_)),
            Phase::Sending => matches!(event, Event::Sent | Event::SendFailed(_)),
            Phase::AwaitingReply => matches!(event, Event::Received { .. } | Event::TimedOut | Event::ReceiveFailed(_)),
            Phase::Done | Phase::Aborted => false,
        }
    }

    fn send_current_probe(&self) -> (r: Action)
        ensures
            self.sends_current_probe(r),
    {
        let probe = ICMPEchoRequestHeader::new(self.sequence_number);
        let packet = probe.to_buf();
        Action::Send { destination: self.destination, sequence_number: self.sequence_number, packet }
    }

    fn move_on(&mut self) -> (r: Action)
        requires
            old(self).phase is AwaitingReply,
            old(self).sequence_number < old(self).packet_count,
        ensures
            old(self).moves_on(*final(self), r),
            final(self).stats == old(self).stats,
            final(self).packet_count == old(self).packet_count,
            final(self).ip_header_present == old(self).ip_header_present,
            final(self).destination == old(self).destination,
    {
        if self.sequence_number + 1 < self.packet_count {
            self.sequence_number = self.sequence_number + 1;
            self.phase = Phase::Sending;
            self.send_current_probe()
        } else {
            self.phase = Phase::Done;
            Action::Finish(self.stats)
        }
    }

    /// Takes the result of the last action and returns the next one.
    pub fn step(&mut self, event: Event) -> (r: Step)
        requires
            old(self).wf(),
            old(self).accepts_spec(&event),
        ensures
            final(self).wf(),
            final(self).packet_count == old(self).packet_count,
            final(self).ip_header_present == old(self).ip_header_present,
            event matches Event::Start(None) ==> final(self).phase == Phase::Aborted
                && r.outcome is None && r.action == Action::Abort(PingError::AddressParseError),
            event matches Event::Start(Some(a)) ==> final(self).phase == Phase::Opening
                && final(self).destination == a && final(self).stats == old(self).stats
                && r.outcome is None && r.action == Action::Open,
            event is Opened ==> r.outcome is None && final(self).stats == old(self).stats
                && final(self).destination == old(self).destination && if old(self).packet_count
                == 0 {
                final(self).phase == Phase::Done && r.action == Action::Finish(final(self).stats)
            } else {
                final(self).phase == Phase::Sending && final(self).sequence_number == 0
                    && final(self).sends_current_probe(r.action)
            },
            event matches Event::InitFailed(c) ==> final(self).phase == Phase::Aborted
                && r.outcome is None && r.action == Action::Abort(PingError::SocketInitError(c)),
            event matches Event::ConfigFailed(c) ==> final(self).phase == Phase::Aborted
                && r.outcome is None && r.action == Action::Abort(
                PingError::SocketConfigError(c),
            ),
            event is Sent ==> final(self).phase == Phase::AwaitingReply && final(self).stats
                == old(self).stats && final(self).sequence_number == old(self).sequence_number
                && final(self).destination == old(self).destination && r.outcome is None
                && r.action == Action::Receive,
            event matches Event::SendFailed(c) ==> final(self).phase == Phase::Aborted
                && r.outcome is None && r.action == Action::Abort(PingError::SendError(c)),
            event matches Event::Received { bytes, ancillary_ttl } ==> {
                let o = classification(bytes@, old(self).ip_header_present, ancillary_ttl);
                &&& r.outcome == Some(o)
                &&& o is Success ==> final(self).stats == (RunStatistics {
                    succeeded: (old(self).stats.succeeded + 1) as u32,
                    ..old(self).stats
                })
                &&& !(o is Success) ==> final(self).stats == (RunStatistics {
                    failed: (old(self).stats.failed + 1) as u32,
                    ..old(self).stats
                })
                &&& final(self).destination == old(self).destination
                &&& old(self).moves_on(*final(self), r.action)
            },
            event is TimedOut ==> {
                &&& r.outcome == Some(ProbeOutcome::TimedOut)
                &&& final(self).stats == (RunStatistics {
                    failed: (old(self).stats.failed + 1) as u32,
                    ..old(self).stats
                })
                &&& final(self).destination == old(self).destination
                &&& old(self).moves_on(*final(self), r.action)
            },
            event matches Event::ReceiveFailed(c) ==> final(self).phase == Phase::Aborted
                && r.outcome is None && r.action == Action::Abort(PingError::ReceiveError(c)),
    {
        match event {
            Event::Start(destination) => match destination {
                Some(a) => {
                    self.destination = a;
                    self.phase = Phase::Opening;
                    Step { outcome: None, action: Action::Open }
                },
                None => {
                    self.phase = Phase::Aborted;
                    Step { outcome: None, action: Action::Abort(PingError::AddressParseError) }
                },
            },
            Event::Opened => {
                if self.packet_count == 0 {
                    self.phase = Phase::Done;
                    Step { outcome: None, action: Action::Finish(self.stats) }
                } else {
                    self.sequence_number = 0;
                    self.phase = Phase::Sending;
                    Step { outcome: None, action: self.send_current_probe() }
                }
            },
            Event::InitFailed(c) => {
                self.phase = Phase::Aborted;
                Step { outcome: None, action: Action::Abort(PingError::SocketInitError(c)) }
            },
            Event::ConfigFailed(c) => {
                self.phase = Phase::Aborted;
                Step { outcome: None, action: Action::Abort(PingError::SocketConfigError(c)) }
            },
            Event::Sent => {
                self.phase = Phase::AwaitingReply;
                Step { outcome: None, action: Action::Receive }
            },
            Event::SendFailed(c) => {
                self.phase = Phase::Aborted;
                Step { outcome: None, action: Action::Abort(PingError::SendError(c)) }
            },
            Event::Received { bytes, ancillary_ttl } => {
                let outcome = classify_reply(bytes, self.ip_header_present, ancillary_ttl);
                self.stats.record(&outcome);
                let action = self.move_on();
                Step { outcome: Some(outcome), action }
            },
            Event::TimedOut => {
                let outcome = ProbeOutcome::TimedOut;
                self.stats.record(&outcome);
                let action = self.move_on();
                Step { outcome: Some(outcome), action }
            },
            Event::ReceiveFailed(c) => {
                self.phase = Phase::Aborted;
                Step { outcome: None, action: Action::Abort(PingError::ReceiveError(c)) }
            },
        }
    }
}

/// A run that reached its end without a fatal error has counted exactly one
/// outcome, success or failure, for each of its probes.
pub proof fn lemma_finished_run_counts_every_probe(s: Session)
    requires
        s.wf(),
        s.phase is Done,
    ensures
        s.stats.succeeded + s.stats.failed == s.packet_count,
        s.stats.sent == s.packet_count,
{
}

} // verus!
