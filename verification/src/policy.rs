//! Policy vocabulary for a close-detection experiment: how each tunnel leg's
//! write and read direction is treated, which leg is closed and which is
//! polled, and the compact label that names a configuration in reports.

use vstd::prelude::*;

verus! {

/// How a leg's outbound direction is treated before the close test.
#[derive(Clone, Copy, Debug, PartialEq, Eq, Structural)]
pub enum WritingPolicy {
    /// Leave the write half alone.
    Ignore,
    /// Shut the write half down immediately.
    Shutdown,
    /// Saturate the send buffer until the kernel refuses further writes.
    Clog,
}

/// Whether a leg's inbound direction is continuously drained by a
/// background worker.
#[derive(Clone, Copy, Debug, PartialEq, Eq, Structural)]
pub enum ReadingPolicy {
    /// Leave the read half alone.
    Ignore,
    /// Read and discard everything in a background worker.
    Drain,
}

/// Which leg is abruptly closed and which leg is polled afterward.
#[derive(Clone, Copy, Debug, PartialEq, Eq, Structural)]
pub enum CloseDetectMode {
    /// Close the accepted (incoming) leg, poll the dialed (outgoing) leg.
    CloseIncomingCheckOutgoing,
    /// Close the dialed (outgoing) leg, poll the accepted (incoming) leg.
    CloseOutgoingCheckIncoming,
}

/// One close-detection experiment configuration: the policies applied to
/// each leg, the close/check mode, and whether clogged-buffer byte counts
/// are reported for this run.
#[derive(Clone, Copy, Debug, PartialEq, Eq, Structural)]
pub struct CloseDetectOpts {
    pub report_buffer_sizes: bool,
    pub outgoing_write: WritingPolicy,
    pub outgoing_read: ReadingPolicy,
    pub incoming_write: WritingPolicy,
    pub incoming_read: ReadingPolicy,
    pub mode: CloseDetectMode,
}

/// The tag a writing policy contributes to a configuration label.
pub open spec fn spec_write_tag(w: WritingPolicy) -> Seq<char> {
    match w {
        WritingPolicy::Ignore => ""@,
        WritingPolicy::Shutdown => "Shut"@,
        WritingPolicy::Clog => "Clog"@,
    }
}

/// The tag a reading policy contributes to a configuration label.
pub open spec fn spec_read_tag(r: ReadingPolicy) -> Seq<char> {
    match r {
        ReadingPolicy::Ignore => ""@,
        ReadingPolicy::Drain => "Drain"@,
    }
}

/// The tag on the outgoing half of the label: whether that leg is the one
/// checked or the one closed.
pub open spec fn spec_outgoing_mode_tag(m: CloseDetectMode) -> Seq<char> {
    match m {
        CloseDetectMode::CloseIncomingCheckOutgoing => "Check"@,
        CloseDetectMode::CloseOutgoingCheckIncoming => "Close"@,
    }
}

/// The tag on the incoming half of the label: the counterpart of the
/// outgoing tag.
pub open spec fn spec_incoming_mode_tag(m: CloseDetectMode) -> Seq<char> {
    match m {
        CloseDetectMode::CloseIncomingCheckOutgoing => "Close"@,
        CloseDetectMode::CloseOutgoingCheckIncoming => "Check"@,
    }
}

/// The compact label of a configuration: the outgoing leg's policies and
/// role, then the incoming leg's, each prefixed with the leg's name.
pub open spec fn spec_label(c: CloseDetectOpts) -> Seq<char> {
    "out"@ + spec_write_tag(c.outgoing_write) + spec_read_tag(c.outgoing_read)
        + spec_outgoing_mode_tag(c.mode) + "_in"@ + spec_write_tag(c.incoming_write)
        + spec_read_tag(c.incoming_read) + spec_incoming_mode_tag(c.mode)
}

impl CloseDetectOpts {
    /// Builds the label that names this configuration in report lines.
    pub fn label(&self) -> (r: String)
        ensures
            r@ == spec_label(*self),
    {
        let mut s = String::new();
        s.append("out");
        match self.outgoing_write {
            WritingPolicy::Ignore => {}
            WritingPolicy::Shutdown => s.append("Shut"),
            WritingPolicy::Clog => s.append("Clog"),
        }
        match self.outgoing_read {
            ReadingPolicy::Ignore => {}
            ReadingPolicy::Drain => s.append("Drain"),
        }
        match self.mode {
            CloseDetectMode::CloseIncomingCheckOutgoing => s.append("Check"),
            CloseDetectMode::CloseOutgoingCheckIncoming => s.append("Close"),
        }
        s.append("_in");
        match self.incoming_write {
            WritingPolicy::Ignore => {}
            WritingPolicy::Shutdown => s.append("Shut"),
            WritingPolicy::Clog => s.append("Clog"),
        }
        match self.incoming_read {
            ReadingPolicy::Ignore => {}
            ReadingPolicy::Drain => s.append("Drain"),
        }
        match self.mode {
            CloseDetectMode::CloseIncomingCheckOutgoing => s.append("Close"),
            CloseDetectMode::CloseOutgoingCheckIncoming => s.append("Check"),
        }
        proof {
            reveal_strlit("");
            assert(s@ =~= spec_label(*self));
        }
        s
    }
}

} // verus!
