use tunnelcheck::clogger::clog;
use tunnelcheck::clogger::clog_init;
use tunnelcheck::clogger::clog_step;
use tunnelcheck::clogger::ClogAction;
use tunnelcheck::clogger::ClogOutcome;
use tunnelcheck::clogger::WriteOutcome;
use tunnelcheck::drainer::drain;
use tunnelcheck::drainer::drain_init;
use tunnelcheck::drainer::drain_step;
use tunnelcheck::drainer::DrainAction;
use tunnelcheck::drainer::ReadOutcome;
use tunnelcheck::poller::check_closedness;
use tunnelcheck::poller::ErrorProbe;
use tunnelcheck::poller::PollSample;
use tunnelcheck::poller::PollVerdict;

fn quiet() -> PollSample {
    PollSample { flag: false, probe: ErrorProbe::NoError }
}

#[test]
fn clog_on_a_never_unblocking_path_stops_in_bounded_time() {
    // Six delayed coarse retries, one shrink to byte granularity, one final
    // would-block: the run stops with zero bytes after 150 ms of waiting.
    let outcomes = vec![WriteOutcome::WouldBlock; 8];
    let run = clog(&outcomes);
    assert_eq!(run.outcome, ClogOutcome::Clogged { written: 0 });
    assert_eq!(run.delay_ms, 150);
    assert_eq!(run.consumed, 8);
}

#[test]
fn clog_counts_every_accepted_byte() {
    let mut outcomes = vec![WriteOutcome::Wrote(1000), WriteOutcome::Wrote(24)];
    outcomes.extend(vec![WriteOutcome::WouldBlock; 7]);
    outcomes.push(WriteOutcome::Wrote(1));
    outcomes.push(WriteOutcome::Wrote(1));
    outcomes.push(WriteOutcome::Interrupted);
    outcomes.push(WriteOutcome::Wrote(1));
    outcomes.push(WriteOutcome::WouldBlock);
    let run = clog(&outcomes);
    assert_eq!(run.outcome, ClogOutcome::Clogged { written: 1027 });
    assert_eq!(run.delay_ms, 150);
    assert_eq!(run.consumed, outcomes.len());
}

#[test]
fn clog_shrinks_to_byte_probes_after_the_retry_budget() {
    let mut s = clog_init();
    assert_eq!(s.chunk_len, 1024);
    assert_eq!(s.retries_left, 6);
    for _ in 0..6 {
        let (s2, action) = clog_step(s, WriteOutcome::WouldBlock);
        assert_eq!(action, ClogAction::WriteChunk { delay_ms: 25, chunk_len: 1024 });
        s = s2;
    }
    assert_eq!(s.retries_left, 0);
    let (s2, action) = clog_step(s, WriteOutcome::WouldBlock);
    assert_eq!(action, ClogAction::WriteChunk { delay_ms: 0, chunk_len: 1 });
    let (_, action) = clog_step(s2, WriteOutcome::WouldBlock);
    assert_eq!(action, ClogAction::Stop { written: 0 });
}

#[test]
fn clog_treats_a_zero_byte_write_as_a_violation() {
    let outcomes = vec![WriteOutcome::Wrote(10), WriteOutcome::Wrote(0)];
    let run = clog(&outcomes);
    assert_eq!(run.outcome, ClogOutcome::ZeroWrite);
    assert_eq!(run.consumed, 2);
}

#[test]
fn clog_propagates_an_unexpected_error() {
    let outcomes = vec![WriteOutcome::Wrote(10), WriteOutcome::Failed];
    let run = clog(&outcomes);
    assert_eq!(run.outcome, ClogOutcome::IoError);
    assert_eq!(run.consumed, 2);
}

#[test]
fn drain_raises_the_flag_on_end_of_stream() {
    let outcomes = vec![
        ReadOutcome::Data(5),
        ReadOutcome::WouldBlock,
        ReadOutcome::Interrupted,
        ReadOutcome::Eof,
    ];
    let end = drain(true, &outcomes);
    assert!(end.finished);
    assert!(end.flag);
}

#[test]
fn drain_raises_the_flag_on_a_terminal_error_too() {
    let outcomes = vec![ReadOutcome::Data(1), ReadOutcome::Failed];
    let end = drain(true, &outcomes);
    assert!(end.finished);
    assert!(end.flag);
}

#[test]
fn drain_without_a_flag_leaves_it_down() {
    let outcomes = vec![ReadOutcome::Data(5), ReadOutcome::Eof];
    let end = drain(false, &outcomes);
    assert!(end.finished);
    assert!(!end.flag);
}

#[test]
fn drain_flag_stays_up_once_raised() {
    let s = drain_init(true);
    let (s, action) = drain_step(s, ReadOutcome::Eof);
    assert_eq!(action, DrainAction::Finished);
    assert!(s.flag);
    // Even if more outcomes were fed in, the flag would stay raised.
    let (s, _) = drain_step(s, ReadOutcome::WouldBlock);
    assert!(s.flag);
    let (s, _) = drain_step(s, ReadOutcome::Failed);
    assert!(s.flag);
}

#[test]
fn drain_waits_only_after_a_would_block() {
    let s = drain_init(false);
    let (s, action) = drain_step(s, ReadOutcome::Data(100));
    assert_eq!(action, DrainAction::ReadMore { delay_ms: 0 });
    let (s, action) = drain_step(s, ReadOutcome::WouldBlock);
    assert_eq!(action, DrainAction::ReadMore { delay_ms: 10 });
    let (_, action) = drain_step(s, ReadOutcome::Interrupted);
    assert_eq!(action, DrainAction::ReadMore { delay_ms: 0 });
}

#[test]
fn poller_times_out_just_past_the_window_when_nothing_happens() {
    // 500 ms window, quiet 50 ms samples: the verdict comes at 550 ms,
    // no earlier than the window and within one interval past it.
    let samples = vec![quiet(); 20];
    let report = check_closedness(500, &samples);
    assert_eq!(report.verdict, PollVerdict::TimedOut);
    assert_eq!(report.elapsed_ms, 550);
}

#[test]
fn poller_sees_a_reset_at_once() {
    let samples = vec![
        quiet(),
        quiet(),
        PollSample { flag: false, probe: ErrorProbe::Reset },
    ];
    let report = check_closedness(500, &samples);
    assert_eq!(report.verdict, PollVerdict::Closed);
    assert_eq!(report.elapsed_ms, 100);
}

#[test]
fn poller_accepts_each_close_signal() {
    for probe in [ErrorProbe::Aborted, ErrorProbe::Reset, ErrorProbe::BrokenPipe] {
        let samples = vec![PollSample { flag: false, probe }];
        let report = check_closedness(500, &samples);
        assert_eq!(report.verdict, PollVerdict::Closed);
        assert_eq!(report.elapsed_ms, 0);
    }
}

#[test]
fn poller_is_short_circuited_by_the_notification_flag() {
    let samples = vec![quiet(), PollSample { flag: true, probe: ErrorProbe::NoError }];
    let report = check_closedness(500, &samples);
    assert_eq!(report.verdict, PollVerdict::Closed);
    assert_eq!(report.elapsed_ms, 50);
}

#[test]
fn poller_escalates_an_unexpected_pending_error() {
    let samples = vec![quiet(), PollSample { flag: false, probe: ErrorProbe::OtherPending }];
    let report = check_closedness(500, &samples);
    assert_eq!(report.verdict, PollVerdict::Failed);
    let samples = vec![PollSample { flag: false, probe: ErrorProbe::ProbeFailed }];
    let report = check_closedness(500, &samples);
    assert_eq!(report.verdict, PollVerdict::Failed);
}

#[test]
fn poller_retries_an_interrupted_probe_without_waiting() {
    let samples = vec![
        PollSample { flag: false, probe: ErrorProbe::ProbeInterrupted },
        PollSample { flag: false, probe: ErrorProbe::Reset },
    ];
    let report = check_closedness(500, &samples);
    assert_eq!(report.verdict, PollVerdict::Closed);
    assert_eq!(report.elapsed_ms, 0);
}

#[test]
fn poller_treats_a_would_blocked_probe_as_quiet() {
    let samples = vec![PollSample { flag: false, probe: ErrorProbe::ProbeWouldBlock }; 20];
    let report = check_closedness(100, &samples);
    assert_eq!(report.verdict, PollVerdict::TimedOut);
    assert_eq!(report.elapsed_ms, 150);
}
