//! The buffer-clogging state machine: saturate a nonblocking socket's
//! outbound direction until the kernel refuses further writes.
//!
//! The machine decides; the caller performs each requested write on the real
//! socket and feeds the observed outcome back. Chunks of `CLOG_CHUNK_LEN`
//! bytes are written until a would-block condition; the machine then waits
//! `CLOG_RETRY_DELAY_MS` and retries, up to `CLOG_RETRY_BUDGET` times; once
//! the budget is exhausted it probes at byte granularity, and the next
//! would-block condition ends the run with the total byte count.

use vstd::prelude::*;

verus! {

/// Size of a coarse write chunk, in bytes.
pub const CLOG_CHUNK_LEN: usize = 1024;

/// How many would-block conditions are answered with a delayed retry before
/// the machine shrinks to byte-granularity probing.
pub const CLOG_RETRY_BUDGET: u8 = 6;

/// How long to wait before retrying a would-blocked write, in milliseconds.
pub const CLOG_RETRY_DELAY_MS: u64 = 25;

/// What one write attempt on the socket came to.
#[derive(Clone, Copy, Debug, PartialEq, Eq, Structural)]
pub enum WriteOutcome {
    /// The kernel accepted this many bytes.
    Wrote(usize),
    /// The write would have blocked.
    WouldBlock,
    /// The write was interrupted before doing anything.
    Interrupted,
    /// The write failed with an unexpected error.
    Failed,
}

/// The clogging machine's state between write attempts.
#[derive(Clone, Copy, Debug, PartialEq, Eq, Structural)]
pub struct ClogState {
    /// How many bytes the next write attempt should offer.
    pub chunk_len: usize,
    /// How many delayed retries of a would-blocked write remain.
    pub retries_left: u8,
    /// Total bytes the kernel has accepted so far.
    pub written: usize,
}

/// What the caller must do next.
#[derive(Clone, Copy, Debug, PartialEq, Eq, Structural)]
pub enum ClogAction {
    /// Sleep `delay_ms` milliseconds (zero means none), then attempt a write
    /// of `chunk_len` bytes and feed the outcome back in.
    WriteChunk { delay_ms: u64, chunk_len: usize },
    /// The send buffer is saturated; `written` bytes were absorbed in all.
    Stop { written: usize },
    /// A write of a nonempty chunk succeeded with zero bytes: a protocol
    /// violation by the peer, fatal to the harness.
    ZeroWrite,
    /// An unexpected I/O error: the experiment is abandoned.
    IoError,
}

/// The state the machine starts a clogging run in.
pub open spec fn spec_clog_init() -> ClogState {
    ClogState { chunk_len: CLOG_CHUNK_LEN, retries_left: CLOG_RETRY_BUDGET, written: 0 }
}

/// One transition of the clogging machine on an observed write outcome.
pub open spec fn spec_clog_step(s: ClogState, ev: WriteOutcome) -> (ClogState, ClogAction) {
    match ev {
        WriteOutcome::Wrote(n) => if n == 0 {
            (s, ClogAction::ZeroWrite)
        } else {
            let s2 = ClogState {
                chunk_len: s.chunk_len,
                retries_left: s.retries_left,
                written: (s.written + n) as usize,
            };
            (s2, ClogAction::WriteChunk { delay_ms: 0, chunk_len: s.chunk_len })
        },
        WriteOutcome::WouldBlock => if s.retries_left > 0 {
            let s2 = ClogState {
                chunk_len: s.chunk_len,
                retries_left: (s.retries_left - 1) as u8,
                written: s.written,
            };
            (s2, ClogAction::WriteChunk { delay_ms: CLOG_RETRY_DELAY_MS, chunk_len: s.chunk_len })
        } else if s.chunk_len > 1 {
            let s2 = ClogState { chunk_len: 1, retries_left: s.retries_left, written: s.written };
            (s2, ClogAction::WriteChunk { delay_ms: 0, chunk_len: 1 })
        } else {
            (s, ClogAction::Stop { written: s.written })
        },
        WriteOutcome::Interrupted => (
            s,
            ClogAction::WriteChunk { delay_ms: 0, chunk_len: s.chunk_len },
        ),
        WriteOutcome::Failed => (s, ClogAction::IoError),
    }
}

/// The state the machine starts a clogging run in.
pub fn clog_init() -> (r: ClogState)
    ensures
        r == spec_clog_init(),
{
    ClogState { chunk_len: CLOG_CHUNK_LEN, retries_left: CLOG_RETRY_BUDGET, written: 0 }
}

/// One transition of the clogging machine: from the current state and the
/// outcome of the last write attempt to the next state and the next action.
pub fn clog_step(s: ClogState, ev: WriteOutcome) -> (r: (ClogState, ClogAction))
    requires
        (ev matches WriteOutcome::Wrote(n) ==> s.written + n <= usize::MAX),
    ensures
        r == spec_clog_step(s, ev),
{
    match ev {
        WriteOutcome::Wrote(n) => if n == 0 {
            (s, ClogAction::ZeroWrite)
        } else {
            let s2 = ClogState {
                chunk_len: s.chunk_len,
                retries_left: s.retries_left,
                written: s.written + n,
            };
            (s2, ClogAction::WriteChunk { delay_ms: 0, chunk_len: s.chunk_len })
        },
        WriteOutcome::WouldBlock => if s.retries_left > 0 {
            let s2 = ClogState {
                chunk_len: s.chunk_len,
                retries_left: s.retries_left - 1,
                written: s.written,
            };
            (s2, ClogAction::WriteChunk { delay_ms: CLOG_RETRY_DELAY_MS, chunk_len: s.chunk_len })
        } else if s.chunk_len > 1 {
            let s2 = ClogState { chunk_len: 1, retries_left: s.retries_left, written: s.written };
            (s2, ClogAction::WriteChunk { delay_ms: 0, chunk_len: 1 })
        } else {
            (s, ClogAction::Stop { written: s.written })
        },
        WriteOutcome::Interrupted => (
            s,
            ClogAction::WriteChunk { delay_ms: 0, chunk_len: s.chunk_len },
        ),
        WriteOutcome::Failed => (s, ClogAction::IoError),
    }
}

/// How a clogging run over a finite sequence of write outcomes ended.
#[derive(Clone, Copy, Debug, PartialEq, Eq, Structural)]
pub enum ClogOutcome {
    /// The machine stopped: the buffer is saturated, having absorbed
    /// `written` bytes.
    Clogged { written: usize },
    /// A zero-byte successful write occurred.
    ZeroWrite,
    /// An unexpected I/O error occurred.
    IoError,
    /// The outcomes ran out while the machine still wanted to write.
    Unsettled,
}

/// A clogging run's result: how it ended, the total delay it requested, and
/// how many outcomes it consumed.
#[derive(Clone, Copy, Debug, PartialEq, Eq, Structural)]
pub struct ClogRun {
    pub outcome: ClogOutcome,
    pub delay_ms: u64,
    pub consumed: usize,
}

/// A run of the clogging machine over a sequence of write outcomes: the
/// final outcome, the total requested delay in milliseconds, and the number
/// of outcomes consumed.
pub open spec fn spec_clog_run(s: ClogState, evs: Seq<WriteOutcome>) -> (ClogOutcome, int, int)
    decreases evs.len(),
{
    if evs.len() == 0 {
        (ClogOutcome::Unsettled, 0, 0)
    } else {
        let stepped = spec_clog_step(s, evs[0]);
        match stepped.1 {
            ClogAction::WriteChunk { delay_ms, chunk_len } => {
                let rest = spec_clog_run(stepped.0, evs.skip(1));
                (rest.0, delay_ms + rest.1, 1 + rest.2)
            },
            ClogAction::Stop { written } => (ClogOutcome::Clogged { written }, 0, 1),
            ClogAction::ZeroWrite => (ClogOutcome::ZeroWrite, 0, 1),
            ClogAction::IoError => (ClogOutcome::IoError, 0, 1),
        }
    }
}

/// Total bytes the kernel accepted over a sequence of write outcomes.
pub open spec fn spec_wrote_sum(evs: Seq<WriteOutcome>) -> int
    decreases evs.len(),
{
    if evs.len() == 0 {
        0
    } else {
        (match evs[0] {
            WriteOutcome::Wrote(n) => n as int,
            _ => 0,
        }) + spec_wrote_sum(evs.skip(1))
    }
}

/// The accepted-byte total of a sequence of outcomes is never negative.
pub proof fn lemma_wrote_sum_nonneg(evs: Seq<WriteOutcome>)
    ensures
        spec_wrote_sum(evs) >= 0,
    decreases evs.len(),
{
    if evs.len() > 0 {
        lemma_wrote_sum_nonneg(evs.skip(1));
    }
}

/// A clogging run never requests more delay than its remaining retry budget
/// allows: at most `CLOG_RETRY_DELAY_MS` per retry still left.
pub proof fn lemma_clog_delay_bound(s: ClogState, evs: Seq<WriteOutcome>)
    ensures
        0 <= spec_clog_run(s, evs).1 <= CLOG_RETRY_DELAY_MS * s.retries_left,
    decreases evs.len(),
{
    if evs.len() > 0 {
        let stepped = spec_clog_step(s, evs[0]);
        match stepped.1 {
            ClogAction::WriteChunk { .. } => {
                lemma_clog_delay_bound(stepped.0, evs.skip(1));
            },
            _ => {},
        }
    }
}

/// On a socket whose path never unblocks (every write attempt would block),
/// a clogging run terminates: it consumes one outcome per remaining retry,
/// one to shrink to byte granularity if the chunk is still coarse, and one
/// to stop; it requests `CLOG_RETRY_DELAY_MS` per retry and reports exactly
/// the bytes counted so far.
pub proof fn lemma_clog_all_wouldblock(s: ClogState, evs: Seq<WriteOutcome>)
    requires
        forall|i: int| 0 <= i < evs.len() ==> evs[i] == WriteOutcome::WouldBlock,
        evs.len() >= s.retries_left + (if s.chunk_len > 1 { 2int } else { 1int }),
    ensures
        spec_clog_run(s, evs).0 == (ClogOutcome::Clogged { written: s.written }),
        spec_clog_run(s, evs).1 == CLOG_RETRY_DELAY_MS * s.retries_left,
        spec_clog_run(s, evs).2 == s.retries_left + (if s.chunk_len > 1 { 2int } else { 1int }),
    decreases s.retries_left, s.chunk_len,
{
    let stepped = spec_clog_step(s, evs[0]);
    if s.retries_left > 0 {
        assert(forall|i: int| 0 <= i < evs.skip(1).len() ==> evs.skip(1)[i]
            == WriteOutcome::WouldBlock);
        lemma_clog_all_wouldblock(stepped.0, evs.skip(1));
    } else if s.chunk_len > 1 {
        assert(forall|i: int| 0 <= i < evs.skip(1).len() ==> evs.skip(1)[i]
            == WriteOutcome::WouldBlock);
        lemma_clog_all_wouldblock(stepped.0, evs.skip(1));
    }
}

/// A full stall from the initial state: after the whole retry budget, the
/// shrink to byte granularity and one final probe, the machine stops with
/// zero bytes written, having requested the full but bounded delay.
pub proof fn lemma_clog_stall_bounded(evs: Seq<WriteOutcome>)
    requires
        forall|i: int| 0 <= i < evs.len() ==> evs[i] == WriteOutcome::WouldBlock,
        evs.len() >= CLOG_RETRY_BUDGET + 2,
    ensures
        spec_clog_run(spec_clog_init(), evs).0 == (ClogOutcome::Clogged { written: 0 }),
        spec_clog_run(spec_clog_init(), evs).1 == CLOG_RETRY_DELAY_MS * CLOG_RETRY_BUDGET,
        spec_clog_run(spec_clog_init(), evs).2 == CLOG_RETRY_BUDGET + 2,
{
    lemma_clog_all_wouldblock(spec_clog_init(), evs);
}

/// When a clogging run stops normally, the byte count it reports is exact:
/// at least what the machine had already counted, and at most that plus
/// every byte the kernel accepted over the run's outcomes — it never exceeds
/// the capacity the kernel actually granted.
pub proof fn lemma_clog_written_bound(s: ClogState, evs: Seq<WriteOutcome>)
    requires
        s.written + spec_wrote_sum(evs) <= usize::MAX,
    ensures
        (spec_clog_run(s, evs).0 matches ClogOutcome::Clogged { written } ==> s.written
            <= written <= s.written + spec_wrote_sum(evs)),
    decreases evs.len(),
{
    if evs.len() > 0 {
        let stepped = spec_clog_step(s, evs[0]);
        lemma_wrote_sum_nonneg(evs.skip(1));
        match stepped.1 {
            ClogAction::WriteChunk { .. } => {
                lemma_clog_written_bound(stepped.0, evs.skip(1));
            },
            _ => {},
        }
    }
}

/// Runs the clogging machine from its initial state over a recorded sequence
/// of write outcomes.
pub fn clog(outcomes: &Vec<WriteOutcome>) -> (r: ClogRun)
    requires
        spec_wrote_sum(outcomes@) <= usize::MAX,
    ensures
        ({
            let run = spec_clog_run(spec_clog_init(), outcomes@);
            r.outcome == run.0 && r.delay_ms == run.1 && r.consumed == run.2
        }),
{
    let ghost evs = outcomes@;
    let mut s = clog_init();
    let mut delay_acc: u64 = 0;
    let mut i: usize = 0;
    proof {
        assert(evs.skip(0) =~= evs);
        lemma_wrote_sum_nonneg(evs);
    }
    while i < outcomes.len()
        invariant
            0 <= i <= evs.len(),
            evs == outcomes@,
            spec_wrote_sum(evs) <= usize::MAX,
            s.written + spec_wrote_sum(evs.skip(i as int)) == spec_wrote_sum(evs),
            spec_wrote_sum(evs.skip(i as int)) >= 0,
            delay_acc + CLOG_RETRY_DELAY_MS * s.retries_left
                <= CLOG_RETRY_DELAY_MS * CLOG_RETRY_BUDGET,
            ({
                let total = spec_clog_run(spec_clog_init(), evs);
                let rest = spec_clog_run(s, evs.skip(i as int));
                total.0 == rest.0 && total.1 == delay_acc + rest.1 && total.2 == i + rest.2
            }),
        decreases evs.len() - i,
    {
        let ghost tail = evs.skip(i as int);
        proof {
            assert(tail[0] == evs[i as int]);
            assert(tail.skip(1) =~= evs.skip(i as int + 1));
            if evs[i as int] is Wrote {
                lemma_wrote_sum_nonneg(evs.skip(i as int + 1));
            }
        }
        let (s2, action) = clog_step(s, outcomes[i]);
        match action {
            ClogAction::WriteChunk { delay_ms, chunk_len: _ } => {
                s = s2;
                delay_acc = delay_acc + delay_ms;
                i = i + 1;
            },
            ClogAction::Stop { written } => {
                return ClogRun {
                    outcome: ClogOutcome::Clogged { written },
                    delay_ms: delay_acc,
                    consumed: i + 1,
                };
            },
            ClogAction::ZeroWrite => {
                return ClogRun {
                    outcome: ClogOutcome::ZeroWrite,
                    delay_ms: delay_acc,
                    consumed: i + 1,
                };
            },
            ClogAction::IoError => {
                return ClogRun {
                    outcome: ClogOutcome::IoError,
                    delay_ms: delay_acc,
                    consumed: i + 1,
                };
            },
        }
    }
    ClogRun { outcome: ClogOutcome::Unsettled, delay_ms: delay_acc, consumed: i }
}

} // verus!
