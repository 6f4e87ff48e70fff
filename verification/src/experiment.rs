//! One close-detection experiment: which degenerate configurations are
//! pruned, and, for a surviving configuration, the exact plan the runner
//! follows — each leg's setup, which leg is closed, which is polled, and
//! the fixed delays — together with the report line for its outcome.

use vstd::prelude::*;
use crate::policy::CloseDetectMode;
use crate::policy::CloseDetectOpts;
use crate::policy::ReadingPolicy;
use crate::policy::WritingPolicy;
use crate::policy::spec_label;

verus! {

/// How long to pause after both legs' setup, before the close action, to
/// let in-flight TCP segments land, in milliseconds.
pub const SETTLE_DELAY_MS: u64 = 100;

/// The closedness-polling window after the close action, in milliseconds.
pub const POLL_TIMEOUT_MS: u64 = 500;

/// Whether draining one leg would absorb the clog applied to the
/// correspondent leg, making the scenario a no-op: bytes clogging the
/// outgoing leg come out of the tunnel at the incoming leg, so draining
/// there defeats the backpressure, and symmetrically.
pub open spec fn spec_drain_defeats_clog(c: CloseDetectOpts) -> bool {
    (c.incoming_read == ReadingPolicy::Drain && c.outgoing_write == WritingPolicy::Clog) || (
    c.outgoing_read == ReadingPolicy::Drain && c.incoming_write == WritingPolicy::Clog)
}

/// Whether the leg the mode polls was left without backpressure: for the
/// poll to be meaningful, the checked leg must have been clogged outright
/// or drained, else skip.
pub open spec fn spec_checked_leg_unpressured(c: CloseDetectOpts) -> bool {
    match c.mode {
        CloseDetectMode::CloseIncomingCheckOutgoing => !(c.outgoing_write == WritingPolicy::Clog
            || c.outgoing_read == ReadingPolicy::Drain),
        CloseDetectMode::CloseOutgoingCheckIncoming => !(c.incoming_write == WritingPolicy::Clog
            || c.incoming_read == ReadingPolicy::Drain),
    }
}

/// Whether a configuration is degenerate and must be pruned before running.
pub open spec fn spec_skip(c: CloseDetectOpts) -> bool {
    spec_drain_defeats_clog(c) || spec_checked_leg_unpressured(c)
}

/// Decides whether a configuration is degenerate and must be pruned.
pub fn should_skip(c: &CloseDetectOpts) -> (r: bool)
    ensures
        r == spec_skip(*c),
{
    if matches!(c.incoming_read, ReadingPolicy::Drain) && matches!(
        c.outgoing_write,
        WritingPolicy::Clog,
    ) {
        return true;
    }
    if matches!(c.outgoing_read, ReadingPolicy::Drain) && matches!(
        c.incoming_write,
        WritingPolicy::Clog,
    ) {
        return true;
    }
    match c.mode {
        CloseDetectMode::CloseIncomingCheckOutgoing => !(matches!(
            c.outgoing_write,
            WritingPolicy::Clog,
        ) || matches!(c.outgoing_read, ReadingPolicy::Drain)),
        CloseDetectMode::CloseOutgoingCheckIncoming => !(matches!(
            c.incoming_write,
            WritingPolicy::Clog,
        ) || matches!(c.incoming_read, ReadingPolicy::Drain)),
    }
}

/// One of the two tunnel legs.
#[derive(Clone, Copy, Debug, PartialEq, Eq, Structural)]
pub enum Leg {
    /// The connection this harness accepted.
    Incoming,
    /// The connection this harness dialed.
    Outgoing,
}

/// The setup one leg undergoes before the close action: whether a drainer
/// is started on its read side, what is done to its write side, and whether
/// a clogged byte count is reported.
#[derive(Clone, Copy, Debug, PartialEq, Eq, Structural)]
pub struct LegPlan {
    pub start_drain: bool,
    pub write: WritingPolicy,
    pub report_size: bool,
}

/// The full plan of one experiment on a surviving configuration. Both
/// legs' setup must complete before the settle pause, and the settle pause
/// precedes the close action.
#[derive(Clone, Copy, Debug, PartialEq, Eq, Structural)]
pub struct ExperimentPlan {
    pub incoming: LegPlan,
    pub outgoing: LegPlan,
    /// The leg to drop after the settle pause.
    pub close_leg: Leg,
    /// The leg to poll for closedness afterward.
    pub check_leg: Leg,
    /// Whether the poll may be short-circuited by the checked leg's
    /// drainer flag: exactly when that leg is drained.
    pub check_uses_flag: bool,
    pub settle_ms: u64,
    pub poll_timeout_ms: u64,
}

/// The setup a configuration prescribes for one leg.
pub open spec fn spec_leg_plan(c: CloseDetectOpts, leg: Leg) -> LegPlan {
    match leg {
        Leg::Incoming => LegPlan {
            start_drain: c.incoming_read == ReadingPolicy::Drain,
            write: c.incoming_write,
            report_size: c.report_buffer_sizes && c.incoming_write == WritingPolicy::Clog,
        },
        Leg::Outgoing => LegPlan {
            start_drain: c.outgoing_read == ReadingPolicy::Drain,
            write: c.outgoing_write,
            report_size: c.report_buffer_sizes && c.outgoing_write == WritingPolicy::Clog,
        },
    }
}

/// The plan a surviving configuration prescribes.
pub open spec fn spec_experiment_plan(c: CloseDetectOpts) -> ExperimentPlan {
    let close_leg = match c.mode {
        CloseDetectMode::CloseIncomingCheckOutgoing => Leg::Incoming,
        CloseDetectMode::CloseOutgoingCheckIncoming => Leg::Outgoing,
    };
    let check_leg = match c.mode {
        CloseDetectMode::CloseIncomingCheckOutgoing => Leg::Outgoing,
        CloseDetectMode::CloseOutgoingCheckIncoming => Leg::Incoming,
    };
    ExperimentPlan {
        incoming: spec_leg_plan(c, Leg::Incoming),
        outgoing: spec_leg_plan(c, Leg::Outgoing),
        close_leg,
        check_leg,
        check_uses_flag: spec_leg_plan(c, check_leg).start_drain,
        settle_ms: SETTLE_DELAY_MS,
        poll_timeout_ms: POLL_TIMEOUT_MS,
    }
}

/// Turns a configuration into the plan the runner follows, or `None` for a
/// degenerate configuration that must be skipped.
pub fn closedetect_plan(c: &CloseDetectOpts) -> (r: Option<ExperimentPlan>)
    ensures
        (r is Some <==> !spec_skip(*c)),
        (r is Some ==> r == Some(spec_experiment_plan(*c))),
{
    if should_skip(c) {
        return None;
    }
    let incoming = LegPlan {
        start_drain: matches!(c.incoming_read, ReadingPolicy::Drain),
        write: c.incoming_write,
        report_size: c.report_buffer_sizes && matches!(c.incoming_write, WritingPolicy::Clog),
    };
    let outgoing = LegPlan {
        start_drain: matches!(c.outgoing_read, ReadingPolicy::Drain),
        write: c.outgoing_write,
        report_size: c.report_buffer_sizes && matches!(c.outgoing_write, WritingPolicy::Clog),
    };
    let plan = match c.mode {
        CloseDetectMode::CloseIncomingCheckOutgoing => ExperimentPlan {
            incoming,
            outgoing,
            close_leg: Leg::Incoming,
            check_leg: Leg::Outgoing,
            check_uses_flag: outgoing.start_drain,
            settle_ms: SETTLE_DELAY_MS,
            poll_timeout_ms: POLL_TIMEOUT_MS,
        },
        CloseDetectMode::CloseOutgoingCheckIncoming => ExperimentPlan {
            incoming,
            outgoing,
            close_leg: Leg::Outgoing,
            check_leg: Leg::Incoming,
            check_uses_flag: incoming.start_drain,
            settle_ms: SETTLE_DELAY_MS,
            poll_timeout_ms: POLL_TIMEOUT_MS,
        },
    };
    Some(plan)
}

/// The report line an experiment's outcome produces: a pass or fail prefix,
/// then the configuration's label.
pub open spec fn spec_report_line(c: CloseDetectOpts, closed: bool) -> Seq<char> {
    if closed {
        "[ OK ] Clogged close test passed: "@ + spec_label(c)
    } else {
        "[FAIL] Clogged close test failed: "@ + spec_label(c)
    }
}

/// Builds the report line for an experiment's outcome: passed when
/// closedness was detected before the timeout, failed otherwise.
pub fn report_line(c: &CloseDetectOpts, closed: bool) -> (r: String)
    ensures
        r@ == spec_report_line(*c, closed),
{
    let mut s = if closed {
        String::from_str("[ OK ] Clogged close test passed: ")
    } else {
        String::from_str("[FAIL] Clogged close test failed: ")
    };
    let lab = c.label();
    s.append(lab.as_str());
    s
}

} // verus!
