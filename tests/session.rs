use icmp_ping::error::PingError;
use icmp_ping::packet::ICMPEchoRequestHeader;
use icmp_ping::reply::ProbeOutcome;
use icmp_ping::session::{Action, Event, Phase, Session, Step};
use icmp_ping::stats::RunStatistics;

fn echo_reply(seq: u16, ttl: u8) -> Vec<u8> {
    let mut buf = vec![0u8; 20];
    buf[0] = 0x45;
    buf[8] = ttl;
    buf[12..16].copy_from_slice(&[8, 8, 8, 8]);
    let mut icmp = ICMPEchoRequestHeader::new(seq).to_buf();
    icmp[0] = 0;
    buf.extend(icmp);
    buf
}

fn feed(session: &mut Session, event: Event) -> Step {
    assert!(session.accepts(&event));
    session.step(event)
}

fn start(session: &mut Session) {
    let step = feed(session, Event::Start(Some([8, 8, 8, 8])));
    assert!(matches!(step.action, Action::Open));
}

fn expect_send(step: &Step, seq: u16) {
    match &step.action {
        Action::Send { destination, sequence_number, packet } => {
            assert_eq!(*destination, [8, 8, 8, 8]);
            assert_eq!(*sequence_number, seq);
            assert_eq!(*packet, ICMPEchoRequestHeader::new(seq).to_buf());
        }
        _ => panic!("expected a send of probe {}", seq),
    }
}

fn finish_stats(step: &Step) -> RunStatistics {
    match &step.action {
        Action::Finish(stats) => *stats,
        _ => panic!("expected the run to finish"),
    }
}

#[test]
fn four_valid_replies() {
    let mut session = Session::new(4, true);
    start(&mut session);
    let mut step = feed(&mut session, Event::Opened);
    let mut successes = 0;
    for seq in 0..4u16 {
        expect_send(&step, seq);
        let sent = feed(&mut session, Event::Sent);
        assert!(matches!(sent.action, Action::Receive));
        step = feed(&mut session, Event::Received { bytes: echo_reply(seq, 56), ancillary_ttl: 0 });
        assert_eq!(step.outcome, Some(ProbeOutcome::Success { bytes_received: 32, ttl: 56 }));
        successes += 1;
    }
    assert_eq!(successes, 4);
    let stats = finish_stats(&step);
    assert_eq!(stats, RunStatistics { sent: 4, succeeded: 4, failed: 0 });
    assert_eq!(stats.loss_percent(), 0);
    assert_eq!(session.phase, Phase::Done);
}

#[test]
fn two_timeouts_out_of_four() {
    let mut session = Session::new(4, true);
    start(&mut session);
    let mut step = feed(&mut session, Event::Opened);
    for seq in 0..4u16 {
        expect_send(&step, seq);
        feed(&mut session, Event::Sent);
        if seq % 2 == 0 {
            step = feed(&mut session, Event::TimedOut);
            assert_eq!(step.outcome, Some(ProbeOutcome::TimedOut));
        } else {
            step = feed(&mut session, Event::Received { bytes: echo_reply(seq, 56), ancillary_ttl: 0 });
            assert!(matches!(step.outcome, Some(ProbeOutcome::Success { .. })));
        }
    }
    let stats = finish_stats(&step);
    assert_eq!(stats, RunStatistics { sent: 4, succeeded: 2, failed: 2 });
    assert_eq!(stats.loss_percent(), 50);
}

#[test]
fn malformed_destination_aborts_before_socket() {
    let mut session = Session::new(4, true);
    let step = feed(&mut session, Event::Start(None));
    assert!(matches!(step.action, Action::Abort(PingError::AddressParseError)));
    assert!(step.outcome.is_none());
    assert_eq!(session.phase, Phase::Aborted);
    assert!(!session.accepts(&Event::Opened));
}

#[test]
fn timeout_leaves_successes_unchanged() {
    let mut session = Session::new(2, true);
    start(&mut session);
    feed(&mut session, Event::Opened);
    feed(&mut session, Event::Sent);
    feed(&mut session, Event::Received { bytes: echo_reply(0, 60), ancillary_ttl: 0 });
    assert_eq!(session.stats.succeeded, 1);
    feed(&mut session, Event::Sent);
    let step = feed(&mut session, Event::TimedOut);
    assert_eq!(session.stats.succeeded, 1);
    assert_eq!(session.stats.failed, 1);
    assert_eq!(finish_stats(&step).loss_percent(), 50);
}

#[test]
fn invalid_reply_counts_as_failed_and_run_goes_on() {
    let mut session = Session::new(2, true);
    start(&mut session);
    feed(&mut session, Event::Opened);
    feed(&mut session, Event::Sent);
    let mut unreachable = echo_reply(0, 60);
    unreachable[20] = 3;
    let step = feed(&mut session, Event::Received { bytes: unreachable, ancillary_ttl: 0 });
    assert_eq!(step.outcome, Some(ProbeOutcome::InvalidResponse));
    expect_send(&step, 1);
    assert_eq!(session.stats, RunStatistics { sent: 2, succeeded: 0, failed: 1 });
}

#[test]
fn zero_probes_finish_at_once() {
    let mut session = Session::new(0, true);
    start(&mut session);
    let step = feed(&mut session, Event::Opened);
    let stats = finish_stats(&step);
    assert_eq!(stats, RunStatistics { sent: 0, succeeded: 0, failed: 0 });
    assert_eq!(stats.loss_percent(), 0);
}

#[test]
fn socket_errors_abort_with_their_code() {
    let mut session = Session::new(4, true);
    start(&mut session);
    let step = feed(&mut session, Event::InitFailed(1));
    assert!(matches!(step.action, Action::Abort(PingError::SocketInitError(1))));

    let mut session = Session::new(4, true);
    start(&mut session);
    let step = feed(&mut session, Event::ConfigFailed(22));
    assert!(matches!(step.action, Action::Abort(PingError::SocketConfigError(22))));
}

#[test]
fn send_failure_aborts_mid_run() {
    let mut session = Session::new(4, true);
    start(&mut session);
    feed(&mut session, Event::Opened);
    feed(&mut session, Event::Sent);
    feed(&mut session, Event::TimedOut);
    let step = feed(&mut session, Event::SendFailed(101));
    assert!(matches!(step.action, Action::Abort(PingError::SendError(101))));
    assert_eq!(session.phase, Phase::Aborted);
}

#[test]
fn receive_failure_aborts() {
    let mut session = Session::new(4, true);
    start(&mut session);
    feed(&mut session, Event::Opened);
    feed(&mut session, Event::Sent);
    let step = feed(&mut session, Event::ReceiveFailed(9));
    assert!(matches!(step.action, Action::Abort(PingError::ReceiveError(9))));
}

#[test]
fn out_of_order_events_are_not_accepted() {
    let session = Session::new(4, true);
    assert!(!session.accepts(&Event::Sent));
    assert!(!session.accepts(&Event::TimedOut));
    assert!(session.accepts(&Event::Start(None)));
}

#[test]
fn loss_percent_rounds_down() {
    let stats = RunStatistics { sent: 3, succeeded: 2, failed: 1 };
    assert_eq!(stats.loss_percent(), 33);
    let stats = RunStatistics { sent: 3, succeeded: 0, failed: 3 };
    assert_eq!(stats.loss_percent(), 100);
}

#[test]
fn record_counts_each_outcome_once() {
    let mut stats = RunStatistics::new(3);
    stats.record(&ProbeOutcome::Success { bytes_received: 32, ttl: 1 });
    stats.record(&ProbeOutcome::TimedOut);
    stats.record(&ProbeOutcome::InvalidResponse);
    assert_eq!(stats, RunStatistics { sent: 3, succeeded: 1, failed: 2 });
}
