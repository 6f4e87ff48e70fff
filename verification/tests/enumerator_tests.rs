use tunnelcheck::enumerator::enumerate_scenarios;
use tunnelcheck::experiment::closedetect_plan;
use tunnelcheck::experiment::should_skip;
use tunnelcheck::experiment::Leg;
use tunnelcheck::policy::CloseDetectMode;
use tunnelcheck::policy::CloseDetectOpts;
use tunnelcheck::policy::ReadingPolicy;
use tunnelcheck::policy::WritingPolicy;

fn opts(
    mode: CloseDetectMode,
    incoming_write: WritingPolicy,
    outgoing_write: WritingPolicy,
    incoming_read: ReadingPolicy,
    outgoing_read: ReadingPolicy,
) -> CloseDetectOpts {
    CloseDetectOpts {
        report_buffer_sizes: false,
        outgoing_write,
        outgoing_read,
        incoming_write,
        incoming_read,
        mode,
    }
}

#[test]
fn plan_has_twenty_six_survivors() {
    assert_eq!(enumerate_scenarios().len(), 26);
}

#[test]
fn plan_never_pairs_drain_with_correspondent_clog() {
    for c in enumerate_scenarios() {
        assert!(
            !(c.incoming_read == ReadingPolicy::Drain
                && c.outgoing_write == WritingPolicy::Clog)
        );
        assert!(
            !(c.outgoing_read == ReadingPolicy::Drain
                && c.incoming_write == WritingPolicy::Clog)
        );
    }
}

#[test]
fn plan_checked_leg_is_always_under_pressure() {
    for c in enumerate_scenarios() {
        match c.mode {
            CloseDetectMode::CloseIncomingCheckOutgoing => assert!(
                c.outgoing_write == WritingPolicy::Clog
                    || c.outgoing_read == ReadingPolicy::Drain
            ),
            CloseDetectMode::CloseOutgoingCheckIncoming => assert!(
                c.incoming_write == WritingPolicy::Clog
                    || c.incoming_read == ReadingPolicy::Drain
            ),
        }
    }
}

#[test]
fn plan_first_survivor_alone_reports_buffer_sizes() {
    let plan = enumerate_scenarios();
    for (i, c) in plan.iter().enumerate() {
        assert_eq!(c.report_buffer_sizes, i == 0);
    }
    let first = plan[0];
    assert_eq!(first.mode, CloseDetectMode::CloseIncomingCheckOutgoing);
    assert_eq!(first.incoming_write, WritingPolicy::Ignore);
    assert_eq!(first.outgoing_write, WritingPolicy::Ignore);
    assert_eq!(first.incoming_read, ReadingPolicy::Ignore);
    assert_eq!(first.outgoing_read, ReadingPolicy::Drain);
}

#[test]
fn enumeration_is_deterministic() {
    let a = enumerate_scenarios();
    let b = enumerate_scenarios();
    assert_eq!(a, b);
    let labels_a: Vec<String> = a.iter().map(|c| c.label()).collect();
    let labels_b: Vec<String> = b.iter().map(|c| c.label()).collect();
    assert_eq!(labels_a, labels_b);
}

#[test]
fn clog_incoming_close_outgoing_scenario_survives() {
    let c = opts(
        CloseDetectMode::CloseOutgoingCheckIncoming,
        WritingPolicy::Clog,
        WritingPolicy::Ignore,
        ReadingPolicy::Ignore,
        ReadingPolicy::Ignore,
    );
    assert!(!should_skip(&c));
    let plan = enumerate_scenarios();
    let found = plan.iter().find(|p| {
        p.mode == c.mode
            && p.incoming_write == c.incoming_write
            && p.outgoing_write == c.outgoing_write
            && p.incoming_read == c.incoming_read
            && p.outgoing_read == c.outgoing_read
    });
    assert!(found.is_some());
    let exp = closedetect_plan(&c).expect("a surviving scenario must yield a plan");
    assert_eq!(exp.close_leg, Leg::Outgoing);
    assert_eq!(exp.check_leg, Leg::Incoming);
    assert!(!exp.check_uses_flag);
    assert_eq!(exp.incoming.write, WritingPolicy::Clog);
    assert!(!exp.incoming.start_drain);
    assert_eq!(exp.poll_timeout_ms, 500);
    assert_eq!(exp.settle_ms, 100);
}

#[test]
fn degenerate_combinations_yield_no_plan() {
    // Draining the incoming leg absorbs a clog on the outgoing leg.
    let c = opts(
        CloseDetectMode::CloseIncomingCheckOutgoing,
        WritingPolicy::Ignore,
        WritingPolicy::Clog,
        ReadingPolicy::Drain,
        ReadingPolicy::Ignore,
    );
    assert!(should_skip(&c));
    assert!(closedetect_plan(&c).is_none());
    // The checked (outgoing) leg is under no pressure at all.
    let c = opts(
        CloseDetectMode::CloseIncomingCheckOutgoing,
        WritingPolicy::Clog,
        WritingPolicy::Ignore,
        ReadingPolicy::Ignore,
        ReadingPolicy::Ignore,
    );
    assert!(should_skip(&c));
    assert!(closedetect_plan(&c).is_none());
}

#[test]
fn drained_checked_leg_hands_its_flag_to_the_poll() {
    let c = opts(
        CloseDetectMode::CloseIncomingCheckOutgoing,
        WritingPolicy::Ignore,
        WritingPolicy::Ignore,
        ReadingPolicy::Ignore,
        ReadingPolicy::Drain,
    );
    let exp = closedetect_plan(&c).expect("a surviving scenario must yield a plan");
    assert_eq!(exp.close_leg, Leg::Incoming);
    assert_eq!(exp.check_leg, Leg::Outgoing);
    assert!(exp.check_uses_flag);
    assert!(exp.outgoing.start_drain);
}
