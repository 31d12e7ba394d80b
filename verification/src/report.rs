//! The summary of a document: counts, percentages and the verdicts in order.

use vstd::prelude::*;
use crate::verdict::{ClauseVerdict, ClauseVerdictView, Frac, Verdict, verdict_views, zero_frac};

verus! {

/// A percentage `num / den`, kept exact.
#[derive(Clone, Copy, Debug, PartialEq, Eq, Structural)]
pub struct Percent {
    pub num: u128,
    pub den: u128,
}

impl View for Percent {
    type V = Frac;

    open spec fn view(&self) -> Frac {
        Frac { num: self.num as nat, den: self.den as nat }
    }
}

/// `100 * count / total`, and zero where `total` is zero.
pub open spec fn percent(count: nat, total: nat) -> Frac {
    if total == 0 {
        zero_frac()
    } else {
        Frac { num: 100 * count, den: total }
    }
}

/// How many verdicts carry the label `l`.
pub open spec fn count_label(v: Seq<ClauseVerdictView>, l: Verdict) -> nat
    decreases v.len(),
{
    if v.len() == 0 {
        0
    } else {
        count_label(v.drop_last(), l) + if v.last().label == l {
            1nat
        } else {
            0nat
        }
    }
}

/// The report on a document.
#[derive(Debug)]
pub struct AnalysisReport {
    pub total_clauses: usize,
    pub allowed_count: usize,
    pub not_allowed_count: usize,
    pub allowed_pct: Percent,
    pub not_allowed_pct: Percent,
    pub breakdown: Vec<ClauseVerdict>,
}

/// A report as plain values.
pub struct ReportView {
    pub total_clauses: nat,
    pub allowed_count: nat,
    pub not_allowed_count: nat,
    pub allowed_pct: Frac,
    pub not_allowed_pct: Frac,
    pub breakdown: Seq<ClauseVerdictView>,
}

impl View for AnalysisReport {
    type V = ReportView;

    open spec fn view(&self) -> ReportView {
        ReportView {
            total_clauses: self.total_clauses as nat,
            allowed_count: self.allowed_count as nat,
            not_allowed_count: self.not_allowed_count as nat,
            allowed_pct: self.allowed_pct@,
            not_allowed_pct: self.not_allowed_pct@,
            breakdown: verdict_views(self.breakdown@),
        }
    }
}

impl ReportView {
    /// A report is consistent when it has one verdict for each clause, its
    /// counts are those of its verdicts, and its percentages are those of
    /// its counts.
    pub open spec fn wf(self) -> bool {
        &&& self.breakdown.len() == self.total_clauses
        &&& self == summary(self.total_clauses, self.breakdown)
    }
}

/// The report on `total` clauses with the given verdicts, which keep their order.
pub open spec fn summary(total: nat, verdicts: Seq<ClauseVerdictView>) -> ReportView {
    ReportView {
        total_clauses: total,
        allowed_count: count_label(verdicts, Verdict::Allowed),
        not_allowed_count: count_label(verdicts, Verdict::NotAllowed),
        allowed_pct: percent(count_label(verdicts, Verdict::Allowed), total),
        not_allowed_pct: percent(count_label(verdicts, Verdict::NotAllowed), total),
        breakdown: verdicts,
    }
}

/// Allowed and not allowed verdicts together are no more than there are verdicts.
pub proof fn lemma_counts_bounded(v: Seq<ClauseVerdictView>)
    ensures
        count_label(v, Verdict::Allowed) + count_label(v, Verdict::NotAllowed) <= v.len(),
    decreases v.len(),
{
    if v.len() > 0 {
        lemma_counts_bounded(v.drop_last());
    }
}

/// In the report on as many clauses as there are verdicts, the two counts
/// together do not exceed the total and the breakdown has one entry per clause.
pub proof fn lemma_summary_consistent(v: Seq<ClauseVerdictView>)
    ensures
        summary(v.len(), v).allowed_count + summary(v.len(), v).not_allowed_count <= summary(
            v.len(),
            v,
        ).total_clauses,
        summary(v.len(), v).breakdown.len() == summary(v.len(), v).total_clauses,
{
    lemma_counts_bounded(v);
}

/// A report on no clauses has both percentages at zero.
pub proof fn lemma_empty_report_percentages(v: Seq<ClauseVerdictView>)
    ensures
        summary(0, v).allowed_pct.is_zero(),
        summary(0, v).not_allowed_pct.is_zero(),
{
}

/// Computes `100 * count / total`.
pub fn percentage(count: usize, total: usize) -> (r: Percent)
    ensures
        r@ == percent(count as nat, total as nat),
{
    if total == 0 {
        Percent { num: 0, den: 1 }
    } else {
        let c: u128 = count as u128;
        Percent { num: 100 * c, den: total as u128 }
    }
}

/// Reduces the verdicts on a document's clauses to a report.
pub fn aggregate(total: usize, verdicts: Vec<ClauseVerdict>) -> (r: AnalysisReport)
    ensures
        r@ == summary(total as nat, verdict_views(verdicts@)),
        total == 0 ==> r@.allowed_pct.is_zero() && r@.not_allowed_pct.is_zero(),
        total == verdicts.len() ==> r@.wf() && r@.allowed_count + r@.not_allowed_count
            <= r@.total_clauses,
{
    let ghost all = verdict_views(verdicts@);
    let mut allowed: usize = 0;
    let mut not_allowed: usize = 0;
    let mut i: usize = 0;
    assert(all.take(0) =~= Seq::<ClauseVerdictView>::empty());
    while i < verdicts.len()
        invariant
            i <= verdicts.len(),
            all == verdict_views(verdicts@),
            allowed == count_label(all.take(i as int), Verdict::Allowed),
            not_allowed == count_label(all.take(i as int), Verdict::NotAllowed),
            allowed + not_allowed <= i,
        decreases verdicts.len() - i,
    {
        assert(all.take(i + 1).drop_last() =~= all.take(i as int));
        assert(all.take(i + 1).last() == verdicts@[i as int]@);
        match verdicts[i].label {
            Verdict::Allowed => {
                allowed += 1;
            },
            Verdict::NotAllowed => {
                not_allowed += 1;
            },
            _ => {},
        }
        i += 1;
    }
    assert(all.take(verdicts.len() as int) =~= all);
    AnalysisReport {
        total_clauses: total,
        allowed_count: allowed,
        not_allowed_count: not_allowed,
        allowed_pct: percentage(allowed, total),
        not_allowed_pct: percentage(not_allowed, total),
        breakdown: verdicts,
    }
}

} // verus!
