//! The scenario enumerator: the full cross-product of close-detection mode
//! and per-leg write and read policies, pruned of degenerate combinations,
//! in a fixed order — with clogged-buffer reporting enabled on the first
//! surviving configuration only.

use vstd::prelude::*;
use crate::policy::CloseDetectMode;
use crate::policy::CloseDetectOpts;
use crate::policy::ReadingPolicy;
use crate::policy::WritingPolicy;
use crate::experiment::spec_drain_defeats_clog;
use crate::experiment::spec_skip;
use crate::experiment::should_skip;

verus! {

/// How many combinations the cross-product has: two modes, three writing
/// policies per leg, two reading policies per leg.
pub const COMBO_COUNT: usize = 72;

/// The close-detection mode at an outer-loop position.
pub open spec fn spec_mode_of(i: int) -> CloseDetectMode {
    if i == 0 {
        CloseDetectMode::CloseIncomingCheckOutgoing
    } else {
        CloseDetectMode::CloseOutgoingCheckIncoming
    }
}

/// The writing policy at a loop position.
pub open spec fn spec_write_of(i: int) -> WritingPolicy {
    if i == 0 {
        WritingPolicy::Ignore
    } else if i == 1 {
        WritingPolicy::Clog
    } else {
        WritingPolicy::Shutdown
    }
}

/// The reading policy at a loop position.
pub open spec fn spec_read_of(i: int) -> ReadingPolicy {
    if i == 0 {
        ReadingPolicy::Ignore
    } else {
        ReadingPolicy::Drain
    }
}

/// The combination at one position of the enumeration order: mode is the
/// outermost dimension, then the incoming and outgoing writing policies,
/// then the incoming and outgoing reading policies. Buffer-size reporting
/// is decided later, over the surviving combinations.
pub open spec fn spec_combo_at(i: int) -> CloseDetectOpts {
    CloseDetectOpts {
        report_buffer_sizes: false,
        outgoing_write: spec_write_of((i / 4) % 3),
        outgoing_read: spec_read_of(i % 2),
        incoming_write: spec_write_of((i / 12) % 3),
        incoming_read: spec_read_of((i / 2) % 2),
        mode: spec_mode_of(i / 36),
    }
}

/// The whole cross-product, in enumeration order.
pub open spec fn spec_all_combos() -> Seq<CloseDetectOpts> {
    Seq::new(COMBO_COUNT as nat, |i: int| spec_combo_at(i))
}

/// The surviving plan of a sequence of combinations: the ones not pruned,
/// in order, with buffer-size reporting enabled on the first survivor only.
pub open spec fn spec_plan_of_combos(s: Seq<CloseDetectOpts>) -> Seq<CloseDetectOpts>
    decreases s.len(),
{
    if s.len() == 0 {
        Seq::empty()
    } else {
        let p = spec_plan_of_combos(s.drop_last());
        let c = s.last();
        if spec_skip(c) {
            p
        } else {
            p.push(
                CloseDetectOpts {
                    report_buffer_sizes: p.len() == 0,
                    outgoing_write: c.outgoing_write,
                    outgoing_read: c.outgoing_read,
                    incoming_write: c.incoming_write,
                    incoming_read: c.incoming_read,
                    mode: c.mode,
                },
            )
        }
    }
}

/// The enumerator's plan: the pruned cross-product, in order.
pub open spec fn spec_scenario_plan() -> Seq<CloseDetectOpts> {
    spec_plan_of_combos(spec_all_combos())
}

/// The combination at one position of the enumeration order.
pub fn combo_at(i: usize) -> (r: CloseDetectOpts)
    requires
        i < COMBO_COUNT,
    ensures
        r == spec_combo_at(i as int),
{
    let mode = if i / 36 == 0 {
        CloseDetectMode::CloseIncomingCheckOutgoing
    } else {
        CloseDetectMode::CloseOutgoingCheckIncoming
    };
    let incoming_write = if (i / 12) % 3 == 0 {
        WritingPolicy::Ignore
    } else if (i / 12) % 3 == 1 {
        WritingPolicy::Clog
    } else {
        WritingPolicy::Shutdown
    };
    let outgoing_write = if (i / 4) % 3 == 0 {
        WritingPolicy::Ignore
    } else if (i / 4) % 3 == 1 {
        WritingPolicy::Clog
    } else {
        WritingPolicy::Shutdown
    };
    let incoming_read = if (i / 2) % 2 == 0 {
        ReadingPolicy::Ignore
    } else {
        ReadingPolicy::Drain
    };
    let outgoing_read = if i % 2 == 0 {
        ReadingPolicy::Ignore
    } else {
        ReadingPolicy::Drain
    };
    CloseDetectOpts {
        report_buffer_sizes: false,
        outgoing_write,
        outgoing_read,
        incoming_write,
        incoming_read,
        mode,
    }
}

/// Enumerates the scenario plan: every combination of mode and per-leg
/// policies, in the fixed enumeration order, pruned of degenerate ones,
/// with buffer-size reporting enabled on the first survivor only.
pub fn enumerate_scenarios() -> (r: Vec<CloseDetectOpts>)
    ensures
        r@ == spec_scenario_plan(),
{
    let mut plan: Vec<CloseDetectOpts> = Vec::new();
    let mut i: usize = 0;
    proof {
        assert(spec_all_combos().take(0) =~= Seq::<CloseDetectOpts>::empty());
    }
    while i < COMBO_COUNT
        invariant
            0 <= i <= COMBO_COUNT,
            plan@ == spec_plan_of_combos(spec_all_combos().take(i as int)),
        decreases COMBO_COUNT - i,
    {
        proof {
            assert(spec_all_combos().take(i as int + 1).drop_last() =~= spec_all_combos().take(
                i as int,
            ));
            assert(spec_all_combos().take(i as int + 1).last() == spec_combo_at(i as int));
        }
        let c = combo_at(i);
        if !should_skip(&c) {
            let first = plan.len() == 0;
            plan.push(
                CloseDetectOpts {
                    report_buffer_sizes: first,
                    outgoing_write: c.outgoing_write,
                    outgoing_read: c.outgoing_read,
                    incoming_write: c.incoming_write,
                    incoming_read: c.incoming_read,
                    mode: c.mode,
                },
            );
        }
        i = i + 1;
    }
    proof {
        assert(spec_all_combos().take(COMBO_COUNT as int) =~= spec_all_combos());
    }
    plan
}

/// Every configuration in a pruned plan survived the pruning: none is
/// degenerate.
pub proof fn lemma_plan_elements_not_skipped(s: Seq<CloseDetectOpts>, i: int)
    requires
        0 <= i < spec_plan_of_combos(s).len(),
    ensures
        !spec_skip(spec_plan_of_combos(s)[i]),
    decreases s.len(),
{
    if s.len() > 0 {
        let p = spec_plan_of_combos(s.drop_last());
        if spec_skip(s.last()) {
            lemma_plan_elements_not_skipped(s.drop_last(), i);
        } else {
            if i < p.len() {
                lemma_plan_elements_not_skipped(s.drop_last(), i);
            }
        }
    }
}

/// The enumerator never plans a combination where draining one leg is
/// paired with clogging the correspondent leg: such pairs are always
/// pruned.
pub proof fn lemma_plan_never_drain_against_clog(i: int)
    requires
        0 <= i < spec_scenario_plan().len(),
    ensures
        !spec_drain_defeats_clog(spec_scenario_plan()[i]),
{
    lemma_plan_elements_not_skipped(spec_all_combos(), i);
}

/// Buffer-size reporting is enabled on the first planned configuration
/// and on no other.
pub proof fn lemma_plan_first_reports(s: Seq<CloseDetectOpts>, i: int)
    requires
        0 <= i < spec_plan_of_combos(s).len(),
    ensures
        spec_plan_of_combos(s)[i].report_buffer_sizes == (i == 0),
    decreases s.len(),
{
    if s.len() > 0 {
        let p = spec_plan_of_combos(s.drop_last());
        if spec_skip(s.last()) {
            lemma_plan_first_reports(s.drop_last(), i);
        } else {
            if i < p.len() {
                lemma_plan_first_reports(s.drop_last(), i);
            }
        }
    }
}

/// Whether two configurations prescribe the same experiment: equal in
/// everything but the diagnostic buffer-size reporting.
pub open spec fn spec_same_policies(a: CloseDetectOpts, b: CloseDetectOpts) -> bool {
    a.outgoing_write == b.outgoing_write && a.outgoing_read == b.outgoing_read
        && a.incoming_write == b.incoming_write && a.incoming_read == b.incoming_read && a.mode
        == b.mode
}

/// The pruning drops nothing it should keep: every combination that is not
/// degenerate appears in the plan, up to the buffer-size reporting field.
pub proof fn lemma_plan_complete(s: Seq<CloseDetectOpts>, i: int)
    requires
        0 <= i < s.len(),
        !spec_skip(s[i]),
    ensures
        exists|j: int|
            0 <= j < spec_plan_of_combos(s).len() && spec_same_policies(
                spec_plan_of_combos(s)[j],
                s[i],
            ),
    decreases s.len(),
{
    let p = spec_plan_of_combos(s.drop_last());
    if i == s.len() - 1 {
        assert(spec_same_policies(spec_plan_of_combos(s)[p.len() as int], s[i]));
    } else {
        lemma_plan_complete(s.drop_last(), i);
        let j = choose|j: int|
            0 <= j < p.len() && spec_same_policies(p[j], s.drop_last()[i]);
        assert(spec_same_policies(spec_plan_of_combos(s)[j], s[i]));
    }
}

/// Every combination of the cross-product that survives the pruning rules
/// is planned: the enumerator covers the whole policy space.
pub proof fn lemma_every_survivor_is_planned(i: int)
    requires
        0 <= i < COMBO_COUNT,
        !spec_skip(spec_combo_at(i)),
    ensures
        exists|j: int|
            0 <= j < spec_scenario_plan().len() && spec_same_policies(
                spec_scenario_plan()[j],
                spec_combo_at(i),
            ),
{
    assert(spec_all_combos()[i] == spec_combo_at(i));
    lemma_plan_complete(spec_all_combos(), i);
    let j = choose|j: int|
        0 <= j < spec_plan_of_combos(spec_all_combos()).len() && spec_same_policies(
            spec_plan_of_combos(spec_all_combos())[j],
            spec_all_combos()[i],
        );
    assert(0 <= j < spec_scenario_plan().len() && spec_same_policies(
        spec_scenario_plan()[j],
        spec_combo_at(i),
    ));
}

/// The enumeration is deterministic: any two values that meet the
/// enumerator's contract are the same plan, configuration for
/// configuration — so two runs against an unchanged tunnel are offered the
/// same labeled scenarios.
pub proof fn lemma_enumeration_deterministic(a: Seq<CloseDetectOpts>, b: Seq<CloseDetectOpts>)
    requires
        a == spec_scenario_plan(),
        b == spec_scenario_plan(),
    ensures
        a == b,
        a.len() == b.len(),
        forall|i: int|
            0 <= i < a.len() ==> crate::policy::spec_label(a[i]) == crate::policy::spec_label(
                b[i],
            ),
{
}

} // verus!
