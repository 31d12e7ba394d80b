//! The two tiers that need nothing but the corpus: keyword rules combined
//! with the lookup, and the lookup alone.

use vstd::prelude::*;
use crate::corpus::{LabeledCorpus, RecordView};
use crate::report::{AnalysisReport, aggregate, summary};
use crate::rules::{judge, rule_verdict};
use crate::segment::{clauses, split_clauses};
use crate::similarity::{lemma_nearest_range, lookup, nearest};
use crate::text::{chars_of, string_of, views};
use crate::verdict::{
    AnalysisError,
    ClauseVerdict,
    ClauseVerdictView,
    verdict_on,
    verdict_views,
};

verus! {

/// A tier that classifies from the corpus alone.
#[derive(Clone, Copy, Debug, PartialEq, Eq, Structural)]
pub enum LocalTier {
    /// Keyword rules combined with the lookup.
    Heuristic,
    /// The lookup alone.
    SimilarityOnly,
}

/// What a tier says of one clause.
pub open spec fn local_verdict(
    tier: LocalTier,
    clause: Seq<char>,
    records: Seq<RecordView>,
) -> ClauseVerdictView {
    match tier {
        LocalTier::Heuristic => verdict_on(clause, rule_verdict(clause, nearest(clause, records))),
        LocalTier::SimilarityOnly => verdict_on(clause, nearest(clause, records)),
    }
}

/// What a tier says of each clause, in order.
pub open spec fn local_verdicts(
    tier: LocalTier,
    cs: Seq<Seq<char>>,
    records: Seq<RecordView>,
) -> Seq<ClauseVerdictView> {
    Seq::new(cs.len(), |i: int| local_verdict(tier, cs[i], records))
}

/// Whatever the tier, the confidence of its verdict lies between zero and one.
pub proof fn lemma_local_confidence(tier: LocalTier, clause: Seq<char>, records: Seq<RecordView>)
    ensures
        local_verdict(tier, clause, records).wf(),
        local_verdict(tier, clause, records).clause == clause,
{
    lemma_nearest_range(clause, records);
}

/// Runs a tier over one clause.
pub fn classify_with(tier: LocalTier, clause: &Vec<char>, corpus: &LabeledCorpus) -> (r:
    ClauseVerdict)
    ensures
        r@ == local_verdict(tier, clause@, corpus@),
        r.confidence.wf(),
{
    let base = lookup(clause, corpus);
    let scored = match tier {
        LocalTier::Heuristic => judge(clause, base),
        LocalTier::SimilarityOnly => base,
    };
    ClauseVerdict { clause: string_of(clause), label: scored.0, confidence: scored.1 }
}

/// Runs a tier over all clauses, in order.
pub fn run_tier(tier: LocalTier, cs: &Vec<Vec<char>>, corpus: &LabeledCorpus) -> (r: Vec<
    ClauseVerdict,
>)
    ensures
        verdict_views(r@) == local_verdicts(tier, views(cs@), corpus@),
        r.len() == cs.len(),
{
    let mut out: Vec<ClauseVerdict> = Vec::new();
    let mut i: usize = 0;
    while i < cs.len()
        invariant
            i <= cs.len(),
            out.len() == i,
            forall|j: int|
                0 <= j < i ==> (#[trigger] out@[j])@ == local_verdict(tier, cs@[j]@, corpus@),
        decreases cs.len() - i,
    {
        let v = classify_with(tier, &cs[i], corpus);
        out.push(v);
        i += 1;
    }
    assert(verdict_views(out@) =~= local_verdicts(tier, views(cs@), corpus@));
    out
}

/// The rule tier on a document. It fails on a document without clauses.
pub fn enhanced_analyze(contract_text: &str, corpus: &LabeledCorpus) -> (r: Result<
    Vec<ClauseVerdict>,
    AnalysisError,
>)
    ensures
        clauses(contract_text@).len() == 0 ==> r is Err && r->Err_0 == AnalysisError::EmptyInput,
        clauses(contract_text@).len() > 0 ==> r is Ok && verdict_views(r->Ok_0@) == local_verdicts(
            LocalTier::Heuristic,
            clauses(contract_text@),
            corpus@,
        ),
{
    let cs = split_clauses(&chars_of(contract_text));
    if cs.len() == 0 {
        Err(AnalysisError::EmptyInput)
    } else {
        Ok(run_tier(LocalTier::Heuristic, &cs, corpus))
    }
}

/// The lookup tier on a document. It never fails: a document without clauses
/// gets the report on no clauses.
pub fn fallback_analyze_contract(contract_text: &str, corpus: &LabeledCorpus) -> (r:
    AnalysisReport)
    ensures
        r@ == summary(
            clauses(contract_text@).len(),
            local_verdicts(LocalTier::SimilarityOnly, clauses(contract_text@), corpus@),
        ),
        r@.allowed_count + r@.not_allowed_count <= r@.total_clauses,
        r@.breakdown.len() == r@.total_clauses,
        clauses(contract_text@).len() == 0 ==> r@.allowed_pct.is_zero()
            && r@.not_allowed_pct.is_zero(),
{
    let cs = split_clauses(&chars_of(contract_text));
    let verdicts = run_tier(LocalTier::SimilarityOnly, &cs, corpus);
    aggregate(cs.len(), verdicts)
}

} // verus!
