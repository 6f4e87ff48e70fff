//! The background-drainer state machine: read and discard everything from a
//! socket until end-of-stream or a terminal error, then raise the shared
//! closure-notification flag.
//!
//! The machine decides; the worker thread performs each read on the real
//! socket and feeds the observed outcome back. A would-block condition is
//! answered with a short delay before the next read; an interrupted read is
//! retried at once; end-of-stream and any other error end the run, and if a
//! notification flag is attached it is raised then, exactly once, and never
//! lowered again.

use vstd::prelude::*;

verus! {

/// How long to wait before retrying a would-blocked read, in milliseconds.
pub const DRAIN_RETRY_DELAY_MS: u64 = 10;

/// What one read attempt on the socket came to.
#[derive(Clone, Copy, Debug, PartialEq, Eq, Structural)]
pub enum ReadOutcome {
    /// End of stream: the peer's write side is done.
    Eof,
    /// This many bytes arrived; they are discarded.
    Data(usize),
    /// The read would have blocked.
    WouldBlock,
    /// The read was interrupted before doing anything.
    Interrupted,
    /// The read failed; any failure counts as an implicit close signal.
    Failed,
}

/// The draining machine's state between read attempts.
#[derive(Clone, Copy, Debug, PartialEq, Eq, Structural)]
pub struct DrainState {
    /// Whether a closure-notification flag is attached to this drainer.
    pub notify: bool,
    /// The notification flag's value: raised when the run ends, if attached.
    pub flag: bool,
    /// Whether the run has ended (end-of-stream or terminal error seen).
    pub finished: bool,
}

/// What the worker must do next.
#[derive(Clone, Copy, Debug, PartialEq, Eq, Structural)]
pub enum DrainAction {
    /// Sleep `delay_ms` milliseconds (zero means none), then attempt another
    /// read and feed the outcome back in.
    ReadMore { delay_ms: u64 },
    /// The source is closed; the worker is done.
    Finished,
}

/// The state a drainer starts in, with or without a notification flag
/// attached. The flag starts lowered either way.
pub open spec fn spec_drain_init(notify: bool) -> DrainState {
    DrainState { notify, flag: false, finished: false }
}

/// One transition of the draining machine on an observed read outcome.
/// Terminal outcomes finish the run and raise the attached flag; data is
/// discarded; transient conditions continue, with a delay only after a
/// would-block.
pub open spec fn spec_drain_step(s: DrainState, ev: ReadOutcome) -> (DrainState, DrainAction) {
    match ev {
        ReadOutcome::Eof => (
            DrainState { notify: s.notify, flag: s.flag || s.notify, finished: true },
            DrainAction::Finished,
        ),
        ReadOutcome::Failed => (
            DrainState { notify: s.notify, flag: s.flag || s.notify, finished: true },
            DrainAction::Finished,
        ),
        ReadOutcome::Data(_) => (s, DrainAction::ReadMore { delay_ms: 0 }),
        ReadOutcome::WouldBlock => (s, DrainAction::ReadMore { delay_ms: DRAIN_RETRY_DELAY_MS }),
        ReadOutcome::Interrupted => (s, DrainAction::ReadMore { delay_ms: 0 }),
    }
}

/// The state a drainer starts in.
pub fn drain_init(notify: bool) -> (r: DrainState)
    ensures
        r == spec_drain_init(notify),
{
    DrainState { notify, flag: false, finished: false }
}

/// One transition of the draining machine: from the current state and the
/// outcome of the last read attempt to the next state and the next action.
pub fn drain_step(s: DrainState, ev: ReadOutcome) -> (r: (DrainState, DrainAction))
    ensures
        r == spec_drain_step(s, ev),
{
    match ev {
        ReadOutcome::Eof => (
            DrainState { notify: s.notify, flag: s.flag || s.notify, finished: true },
            DrainAction::Finished,
        ),
        ReadOutcome::Failed => (
            DrainState { notify: s.notify, flag: s.flag || s.notify, finished: true },
            DrainAction::Finished,
        ),
        ReadOutcome::Data(_) => (s, DrainAction::ReadMore { delay_ms: 0 }),
        ReadOutcome::WouldBlock => (s, DrainAction::ReadMore { delay_ms: DRAIN_RETRY_DELAY_MS }),
        ReadOutcome::Interrupted => (s, DrainAction::ReadMore { delay_ms: 0 }),
    }
}

/// The draining machine's state after a whole sequence of read outcomes,
/// stopping early at the first terminal outcome.
pub open spec fn spec_drain_run(s: DrainState, evs: Seq<ReadOutcome>) -> DrainState
    decreases evs.len(),
{
    if evs.len() == 0 || s.finished {
        s
    } else {
        let stepped = spec_drain_step(s, evs[0]);
        match stepped.1 {
            DrainAction::ReadMore { .. } => spec_drain_run(stepped.0, evs.skip(1)),
            DrainAction::Finished => stepped.0,
        }
    }
}

/// Runs the draining machine over a recorded sequence of read outcomes,
/// stopping early at the first terminal outcome.
pub fn drain(notify: bool, outcomes: &Vec<ReadOutcome>) -> (r: DrainState)
    ensures
        r == spec_drain_run(spec_drain_init(notify), outcomes@),
{
    let ghost evs = outcomes@;
    let mut s = drain_init(notify);
    let mut i: usize = 0;
    proof {
        assert(evs.skip(0) =~= evs);
    }
    while i < outcomes.len()
        invariant
            0 <= i <= evs.len(),
            evs == outcomes@,
            !s.finished,
            spec_drain_run(spec_drain_init(notify), evs) == spec_drain_run(
                s,
                evs.skip(i as int),
            ),
        decreases evs.len() - i,
    {
        proof {
            assert(evs.skip(i as int)[0] == evs[i as int]);
            assert(evs.skip(i as int).skip(1) =~= evs.skip(i as int + 1));
        }
        let (s2, action) = drain_step(s, outcomes[i]);
        match action {
            DrainAction::ReadMore { delay_ms: _ } => {
                s = s2;
                i = i + 1;
            },
            DrainAction::Finished => {
                return s2;
            },
        }
    }
    s
}

/// The notification flag never goes back down: one step preserves it.
pub proof fn lemma_drain_flag_monotone_step(s: DrainState, ev: ReadOutcome)
    ensures
        s.flag ==> spec_drain_step(s, ev).0.flag,
{
}

/// The notification flag never goes back down: a whole run preserves it.
pub proof fn lemma_drain_flag_monotone(s: DrainState, evs: Seq<ReadOutcome>)
    ensures
        s.flag ==> spec_drain_run(s, evs).flag,
    decreases evs.len(),
{
    if evs.len() > 0 && !s.finished {
        let stepped = spec_drain_step(s, evs[0]);
        match stepped.1 {
            DrainAction::ReadMore { .. } => {
                lemma_drain_flag_monotone(stepped.0, evs.skip(1));
            },
            DrainAction::Finished => {},
        }
    }
}

/// Whether a read outcome ends a draining run: end-of-stream, or any error
/// that is neither a would-block nor an interruption.
pub open spec fn spec_is_terminal(ev: ReadOutcome) -> bool {
    ev == ReadOutcome::Eof || ev == ReadOutcome::Failed
}

/// What a whole draining run comes to: the run finishes exactly when some
/// outcome in the sequence is terminal, the flag ends up raised exactly
/// when a notification flag is attached and the run finished, and the
/// attachment itself never changes.
pub proof fn lemma_drain_run_characterized(s: DrainState, evs: Seq<ReadOutcome>)
    requires
        !s.finished,
    ensures
        spec_drain_run(s, evs).finished == (exists|i: int|
            0 <= i < evs.len() && spec_is_terminal(evs[i])),
        spec_drain_run(s, evs).flag == (s.flag || (s.notify && spec_drain_run(s, evs).finished)),
        spec_drain_run(s, evs).notify == s.notify,
    decreases evs.len(),
{
    if evs.len() == 0 {
    } else if spec_is_terminal(evs[0]) {
        assert(spec_is_terminal(evs[0int]));
    } else {
        let stepped = spec_drain_step(s, evs[0]);
        lemma_drain_run_characterized(stepped.0, evs.skip(1));
        if exists|i: int| 0 <= i < evs.skip(1).len() && spec_is_terminal(evs.skip(1)[i]) {
            let i = choose|i: int| 0 <= i < evs.skip(1).len() && spec_is_terminal(evs.skip(1)[i]);
            assert(evs.skip(1)[i] == evs[i + 1]);
            assert(spec_is_terminal(evs[i + 1]));
        }
        if exists|i: int| 0 <= i < evs.len() && spec_is_terminal(evs[i]) {
            let i = choose|i: int| 0 <= i < evs.len() && spec_is_terminal(evs[i]);
            assert(i >= 1);
            assert(evs.skip(1)[i - 1] == evs[i]);
            assert(spec_is_terminal(evs.skip(1)[i - 1]));
        }
    }
}

/// End-of-stream raises the flag at once: the very step that consumes the
/// terminal read finishes the run and sets an attached flag, with no delay
/// in between — and, by monotonicity, it stays set through any further
/// events fed to the machine.
pub proof fn lemma_drain_eof_sets_flag(s: DrainState, evs: Seq<ReadOutcome>)
    requires
        s.notify,
        !s.finished,
        evs.len() > 0,
        evs[0] == ReadOutcome::Eof,
    ensures
        spec_drain_step(s, evs[0]).0.flag,
        spec_drain_step(s, evs[0]).0.finished,
        spec_drain_step(s, evs[0]).1 == DrainAction::Finished,
        spec_drain_run(s, evs).flag,
{
}

} // verus!
