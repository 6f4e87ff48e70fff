//! The closedness-polling state machine: decide, within a bounded window,
//! whether a socket's peer has terminated the connection.
//!
//! The machine decides; the caller samples the real socket — the shared
//! closure-notification flag, then the socket's pending-error state — and
//! feeds each sample in. Connection-aborted, connection-reset and
//! broken-pipe are the expected closedness signals; any other pending error
//! is a harness failure. A quiet sample costs one poll interval of sleep;
//! an interrupted probe is retried at once. The run ends as soon as
//! closedness is seen, or once the accumulated waiting passes the deadline.

use vstd::prelude::*;

verus! {

/// How long to sleep between closedness checks, in milliseconds.
pub const POLL_INTERVAL_MS: u64 = 50;

/// What probing the socket's pending-error state came to.
#[derive(Clone, Copy, Debug, PartialEq, Eq, Structural)]
pub enum ErrorProbe {
    /// No pending error.
    NoError,
    /// Pending connection-aborted: the peer closed the connection.
    Aborted,
    /// Pending connection-reset: the peer closed the connection.
    Reset,
    /// Pending broken-pipe: the peer closed the connection.
    BrokenPipe,
    /// Some other pending error: a harness failure, not a closedness signal.
    OtherPending,
    /// The probe itself was interrupted; check again at once.
    ProbeInterrupted,
    /// The probe itself would have blocked; treat as quiet and wait.
    ProbeWouldBlock,
    /// The probe itself failed: a harness failure.
    ProbeFailed,
}

/// One poll iteration's observations: the notification flag's value, then
/// the pending-error probe.
#[derive(Clone, Copy, Debug, PartialEq, Eq, Structural)]
pub struct PollSample {
    /// Whether the external closure-notification flag was set.
    pub flag: bool,
    /// What the pending-error probe returned.
    pub probe: ErrorProbe,
}

/// How a polling run ended.
#[derive(Clone, Copy, Debug, PartialEq, Eq, Structural)]
pub enum PollVerdict {
    /// Closedness was detected, by the flag or by a pending close signal.
    Closed,
    /// The deadline passed with no closedness signal.
    TimedOut,
    /// An unexpected pending error or probe failure: a harness failure.
    Failed,
    /// The samples ran out before a verdict was reached.
    Unsettled,
}

/// A polling run's result: the verdict and the total sleep it accumulated,
/// in milliseconds.
#[derive(Clone, Copy, Debug, PartialEq, Eq, Structural)]
pub struct PollReport {
    pub verdict: PollVerdict,
    pub elapsed_ms: u64,
}

/// What one sample means on its own.
#[derive(Clone, Copy, Debug, PartialEq, Eq, Structural)]
pub enum PollDecision {
    /// The peer terminated the connection: the run ends with closedness.
    ClosednessSeen,
    /// A harness failure: the run ends in error.
    HarnessFailure,
    /// Nothing yet: sleep one poll interval, then sample again.
    WaitAndRetry,
    /// The probe was interrupted: sample again at once.
    RetryAtOnce,
}

/// How one sample is classified: the notification flag first, then the
/// pending-error probe. Connection-aborted, connection-reset and
/// broken-pipe mean closedness; another pending error or a failed probe is
/// a harness failure; a quiet or would-blocked probe waits one interval;
/// an interrupted probe retries at once.
pub open spec fn spec_classify_sample(s: PollSample) -> PollDecision {
    if s.flag {
        PollDecision::ClosednessSeen
    } else {
        match s.probe {
            ErrorProbe::Aborted => PollDecision::ClosednessSeen,
            ErrorProbe::Reset => PollDecision::ClosednessSeen,
            ErrorProbe::BrokenPipe => PollDecision::ClosednessSeen,
            ErrorProbe::OtherPending => PollDecision::HarnessFailure,
            ErrorProbe::ProbeFailed => PollDecision::HarnessFailure,
            ErrorProbe::NoError => PollDecision::WaitAndRetry,
            ErrorProbe::ProbeWouldBlock => PollDecision::WaitAndRetry,
            ErrorProbe::ProbeInterrupted => PollDecision::RetryAtOnce,
        }
    }
}

/// Classifies one poll iteration's observations.
pub fn classify_sample(s: PollSample) -> (r: PollDecision)
    ensures
        r == spec_classify_sample(s),
{
    if s.flag {
        return PollDecision::ClosednessSeen;
    }
    match s.probe {
        ErrorProbe::Aborted => PollDecision::ClosednessSeen,
        ErrorProbe::Reset => PollDecision::ClosednessSeen,
        ErrorProbe::BrokenPipe => PollDecision::ClosednessSeen,
        ErrorProbe::OtherPending => PollDecision::HarnessFailure,
        ErrorProbe::ProbeFailed => PollDecision::HarnessFailure,
        ErrorProbe::NoError => PollDecision::WaitAndRetry,
        ErrorProbe::ProbeWouldBlock => PollDecision::WaitAndRetry,
        ErrorProbe::ProbeInterrupted => PollDecision::RetryAtOnce,
    }
}

/// A run of the polling machine: from the accumulated sleep so far and the
/// samples still to come, the verdict and the final accumulated sleep.
/// Each iteration first checks the deadline, then classifies a sample.
pub open spec fn spec_poll_run(timeout_ms: int, elapsed_ms: int, samples: Seq<PollSample>) -> (
    PollVerdict,
    int,
)
    decreases samples.len(),
{
    if elapsed_ms > timeout_ms {
        (PollVerdict::TimedOut, elapsed_ms)
    } else if samples.len() == 0 {
        (PollVerdict::Unsettled, elapsed_ms)
    } else {
        match spec_classify_sample(samples[0]) {
            PollDecision::ClosednessSeen => (PollVerdict::Closed, elapsed_ms),
            PollDecision::HarnessFailure => (PollVerdict::Failed, elapsed_ms),
            PollDecision::WaitAndRetry => spec_poll_run(
                timeout_ms,
                elapsed_ms + POLL_INTERVAL_MS,
                samples.skip(1),
            ),
            PollDecision::RetryAtOnce => spec_poll_run(timeout_ms, elapsed_ms, samples.skip(1)),
        }
    }
}

/// Runs the polling machine over a recorded sequence of samples, from an
/// empty waiting budget.
pub fn check_closedness(timeout_ms: u64, samples: &Vec<PollSample>) -> (r: PollReport)
    requires
        timeout_ms <= u64::MAX - POLL_INTERVAL_MS,
    ensures
        ({
            let run = spec_poll_run(timeout_ms as int, 0, samples@);
            r.verdict == run.0 && r.elapsed_ms == run.1
        }),
{
    let ghost evs = samples@;
    let mut elapsed: u64 = 0;
    let mut i: usize = 0;
    proof {
        assert(evs.skip(0) =~= evs);
    }
    loop
        invariant
            0 <= i <= evs.len(),
            evs == samples@,
            timeout_ms <= u64::MAX - POLL_INTERVAL_MS,
            elapsed <= timeout_ms + POLL_INTERVAL_MS,
            spec_poll_run(timeout_ms as int, 0, evs) == spec_poll_run(
                timeout_ms as int,
                elapsed as int,
                evs.skip(i as int),
            ),
        decreases evs.len() - i,
    {
        if elapsed > timeout_ms {
            return PollReport { verdict: PollVerdict::TimedOut, elapsed_ms: elapsed };
        }
        if i >= samples.len() {
            return PollReport { verdict: PollVerdict::Unsettled, elapsed_ms: elapsed };
        }
        proof {
            assert(evs.skip(i as int)[0] == evs[i as int]);
            assert(evs.skip(i as int).skip(1) =~= evs.skip(i as int + 1));
        }
        let sample = samples[i];
        match classify_sample(sample) {
            PollDecision::ClosednessSeen => {
                return PollReport { verdict: PollVerdict::Closed, elapsed_ms: elapsed };
            },
            PollDecision::HarnessFailure => {
                return PollReport { verdict: PollVerdict::Failed, elapsed_ms: elapsed };
            },
            PollDecision::WaitAndRetry => {
                elapsed = elapsed + POLL_INTERVAL_MS;
                i = i + 1;
            },
            PollDecision::RetryAtOnce => {
                i = i + 1;
            },
        }
    }
}

/// Whether a sample shows nothing: no flag, no pending error — the probe
/// answered quietly and cost one poll interval.
pub open spec fn spec_sample_quiet(s: PollSample) -> bool {
    !s.flag && (s.probe == ErrorProbe::NoError || s.probe == ErrorProbe::ProbeWouldBlock)
}

/// The poller never cries wolf: a closedness verdict means some sample it
/// consumed carried a closedness signal — the notification flag, or a
/// pending connection-aborted, connection-reset or broken-pipe error.
pub proof fn lemma_poll_closed_is_sound(timeout_ms: int, elapsed_ms: int, samples: Seq<PollSample>)
    requires
        spec_poll_run(timeout_ms, elapsed_ms, samples).0 == PollVerdict::Closed,
    ensures
        exists|i: int|
            0 <= i < samples.len() && spec_classify_sample(samples[i])
                == PollDecision::ClosednessSeen,
    decreases samples.len(),
{
    if elapsed_ms > timeout_ms {
    } else if spec_classify_sample(samples[0]) == PollDecision::ClosednessSeen {
        assert(0 <= 0 < samples.len() && spec_classify_sample(samples[0int])
            == PollDecision::ClosednessSeen);
    } else {
        match spec_classify_sample(samples[0]) {
            PollDecision::WaitAndRetry => {
                lemma_poll_closed_is_sound(
                    timeout_ms,
                    elapsed_ms + POLL_INTERVAL_MS,
                    samples.skip(1),
                );
            },
            PollDecision::RetryAtOnce => {
                lemma_poll_closed_is_sound(timeout_ms, elapsed_ms, samples.skip(1));
            },
            _ => {},
        }
        let i = choose|i: int|
            0 <= i < samples.skip(1).len() && spec_classify_sample(samples.skip(1)[i])
                == PollDecision::ClosednessSeen;
        assert(samples.skip(1)[i] == samples[i + 1]);
    }
}

/// If the polled socket never signals closure and the notification flag
/// never fires, the poller times out — and not before the requested window:
/// the accumulated waiting lands strictly past the timeout but within one
/// poll interval of it.
pub proof fn lemma_poll_quiet_times_out(timeout_ms: int, elapsed_ms: int, samples: Seq<PollSample>)
    requires
        forall|i: int| 0 <= i < samples.len() ==> spec_sample_quiet(samples[i]),
        0 <= elapsed_ms <= timeout_ms + POLL_INTERVAL_MS,
        elapsed_ms + POLL_INTERVAL_MS * samples.len() > timeout_ms,
    ensures
        spec_poll_run(timeout_ms, elapsed_ms, samples).0 == PollVerdict::TimedOut,
        timeout_ms < spec_poll_run(timeout_ms, elapsed_ms, samples).1 <= timeout_ms
            + POLL_INTERVAL_MS,
    decreases samples.len(),
{
    if elapsed_ms > timeout_ms {
    } else {
        assert(samples.len() > 0);
        lemma_poll_quiet_times_out(timeout_ms, elapsed_ms + POLL_INTERVAL_MS, samples.skip(1));
    }
}

} // verus!
