//! The order of the tiers: the external tier's verdicts where its pass
//! succeeded, else the rule tier's, else the lookup tier's. A report is
//! always made of one tier's verdicts on every clause.

use vstd::prelude::*;
use vstd::pervasive::unreached;
use crate::corpus::{LabeledCorpus, RecordView};
use crate::external::{
    LlmAnalysis,
    LlmStep,
    advance,
    external_entries,
    follows,
    interpret_reply,
    lemma_reply_external,
    lemma_settle_external,
    llm_analyze,
    model_verdict,
    needs_model,
    reply_text,
    settle,
};
use crate::report::{AnalysisReport, ReportView, aggregate, lemma_counts_bounded, summary};
use crate::segment::{clauses, split_clauses};
use crate::text::{chars_of, views};
use crate::tiers::{
    LocalTier,
    enhanced_analyze,
    fallback_analyze_contract,
    local_verdicts,
    run_tier,
};
use crate::verdict::{AnalysisError, ClauseVerdict, ClauseVerdictView, verdict_views};

verus! {

/// The report of the tiers that need no model: the rule tier's on a document
/// with clauses, the lookup tier's on one without.
pub open spec fn local_report(cs: Seq<Seq<char>>, records: Seq<RecordView>) -> ReportView {
    if cs.len() > 0 {
        summary(cs.len(), local_verdicts(LocalTier::Heuristic, cs, records))
    } else {
        summary(0, local_verdicts(LocalTier::SimilarityOnly, cs, records))
    }
}

/// The report on a document, given the verdicts of the external tier where
/// its pass succeeded.
pub open spec fn concluded(
    cs: Seq<Seq<char>>,
    external: Option<Seq<ClauseVerdictView>>,
    records: Seq<RecordView>,
) -> ReportView {
    match external {
        Some(vs) => summary(cs.len(), vs),
        None => local_report(cs, records),
    }
}

/// The verdicts of a pass of the external tier, where it succeeded.
pub open spec fn pass_verdicts(external: Result<Vec<ClauseVerdict>, AnalysisError>) -> Option<
    Seq<ClauseVerdictView>,
> {
    match external {
        Ok(v) => Some(verdict_views(v@)),
        Err(_) => None,
    }
}

/// The report of the tiers that need no model has one entry for each clause,
/// and its two counts together do not exceed the number of clauses.
pub proof fn lemma_local_report_consistent(cs: Seq<Seq<char>>, records: Seq<RecordView>)
    ensures
        local_report(cs, records).breakdown.len() == local_report(cs, records).total_clauses,
        local_report(cs, records).total_clauses == cs.len(),
        local_report(cs, records).allowed_count + local_report(cs, records).not_allowed_count
            <= local_report(cs, records).total_clauses,
        cs.len() == 0 ==> local_report(cs, records).allowed_pct.is_zero() && local_report(
            cs,
            records,
        ).not_allowed_pct.is_zero(),
{
    lemma_counts_bounded(local_verdicts(LocalTier::Heuristic, cs, records));
    lemma_counts_bounded(local_verdicts(LocalTier::SimilarityOnly, cs, records));
}

/// A report is made of one tier's verdicts on every clause: the external
/// tier's where its pass succeeded, else the rule tier's, and the lookup
/// tier's only on a document without clauses.
pub proof fn lemma_report_of_one_tier(
    cs: Seq<Seq<char>>,
    external: Option<Seq<ClauseVerdictView>>,
    records: Seq<RecordView>,
)
    ensures
        external is Some ==> concluded(cs, external, records).breakdown == external->Some_0,
        external is None && cs.len() > 0 ==> concluded(cs, external, records).breakdown
            == local_verdicts(LocalTier::Heuristic, cs, records),
        external is None && cs.len() == 0 ==> concluded(cs, external, records).breakdown
            == local_verdicts(LocalTier::SimilarityOnly, cs, records) && concluded(
            cs,
            external,
            records,
        ).breakdown.len() == 0,
{
}

/// Makes the report on a document from the outcome of the external tier's
/// pass. Where that pass failed, the rule tier runs over the whole document,
/// and where that fails too, the lookup tier, which cannot fail.
pub fn conclude(
    contract_text: &str,
    external: Result<Vec<ClauseVerdict>, AnalysisError>,
    corpus: &LabeledCorpus,
) -> (r: AnalysisReport)
    ensures
        r@ == concluded(clauses(contract_text@), pass_verdicts(external), corpus@),
        r@.total_clauses == clauses(contract_text@).len(),
        external is Err || external->Ok_0.len() == clauses(contract_text@).len() ==> r@.allowed_count
            + r@.not_allowed_count <= r@.total_clauses && r@.breakdown.len() == r@.total_clauses,
        clauses(contract_text@).len() == 0 ==> r@.allowed_pct.is_zero()
            && r@.not_allowed_pct.is_zero(),
{
    proof {
        lemma_local_report_consistent(clauses(contract_text@), corpus@);
    }
    match external {
        Ok(verdicts) => {
            let total: usize = split_clauses(&chars_of(contract_text)).len();
            aggregate(total, verdicts)
        },
        Err(_) => analyze_locally(contract_text, corpus),
    }
}

/// The report on a document without the external tier: the rule tier's, or
/// the lookup tier's where the rule tier fails.
pub fn analyze_locally(contract_text: &str, corpus: &LabeledCorpus) -> (r: AnalysisReport)
    ensures
        r@ == local_report(clauses(contract_text@), corpus@),
        r@.total_clauses == clauses(contract_text@).len(),
        r@.wf(),
        r@.allowed_count + r@.not_allowed_count <= r@.total_clauses,
        clauses(contract_text@).len() == 0 ==> r@.allowed_pct.is_zero()
            && r@.not_allowed_pct.is_zero(),
{
    proof {
        lemma_local_report_consistent(clauses(contract_text@), corpus@);
    }
    match enhanced_analyze(contract_text, corpus) {
        Ok(verdicts) => {
            let total: usize = split_clauses(&chars_of(contract_text)).len();
            aggregate(total, verdicts)
        },
        Err(_) => fallback_analyze_contract(contract_text, corpus),
    }
}

/// Where the analysis of a document stands.
#[derive(Debug)]
pub enum Progress {
    /// The model is to be asked `prompt`; the analysis goes on from `state`
    /// with its reply.
    Ask { state: LlmAnalysis, prompt: String },
    /// The analysis is over.
    Report(AnalysisReport),
}

/// The analysis stands at the clauses `cs` with the settled verdicts `vs` of
/// the external tier: it asks about the next clause, or reports with these
/// verdicts, one for each clause.
pub open spec fn progress_at(p: Progress, cs: Seq<Seq<char>>, vs: Seq<ClauseVerdictView>) -> bool {
    match p {
        Progress::Ask { state, prompt } => follows(LlmStep::Ask { state, prompt }, cs, vs),
        Progress::Report(r) => vs.len() == cs.len() && r@ == summary(cs.len(), vs),
    }
}

/// The analysis asks on, or its report is consistent.
pub open spec fn progress_wf(p: Progress) -> bool {
    match p {
        Progress::Ask { state, prompt } => state.wf(),
        Progress::Report(r) => r@.wf() && r@.allowed_count + r@.not_allowed_count
            <= r@.total_clauses,
    }
}

/// The analysis ended with the report `view`.
pub open spec fn reported(p: Progress, view: ReportView) -> bool {
    match p {
        Progress::Report(r) => r@ == view,
        _ => false,
    }
}

/// What the start of the analysis of `text` gives: the report of the tiers
/// that need no model on a document without clauses, else the step that
/// stands at the settled head of the external tier's pass.
pub open spec fn started(p: Progress, text: Seq<char>, records: Seq<RecordView>) -> bool {
    let cs = clauses(text);
    if cs.len() == 0 {
        reported(p, local_report(cs, records))
    } else {
        progress_at(p, cs, settle(cs, Seq::<ClauseVerdictView>::empty()))
    }
}

/// What a step of the analysis gives from the clauses `cs`, the verdicts
/// `vs` so far and the model's reply for the clause that was asked about.
pub open spec fn continued(
    p: Progress,
    cs: Seq<Seq<char>>,
    vs: Seq<ClauseVerdictView>,
    reply: Option<Seq<char>>,
    records: Seq<RecordView>,
) -> bool {
    match model_verdict(cs[vs.len() as int], reply) {
        None => reported(p, local_report(cs, records)),
        Some(v) => progress_at(p, cs, settle(cs, vs.push(v))),
    }
}

/// Two outcomes agree: both are reports with the same content, or both ask
/// the same question from states with the same clauses and verdicts.
pub open spec fn same_progress(a: Progress, b: Progress) -> bool {
    match (a, b) {
        (Progress::Report(x), Progress::Report(y)) => x@ == y@,
        (
            Progress::Ask { state: s, prompt: q },
            Progress::Ask { state: t, prompt: r },
        ) => {
            &&& q@ == r@
            &&& views(s.clauses@) == views(t.clauses@)
            &&& verdict_views(s.verdicts@) == verdict_views(t.verdicts@)
        },
        _ => false,
    }
}

/// Starting the analysis twice on the same text with the same corpus gives
/// outcomes that agree.
pub proof fn lemma_start_repeatable(
    first: Progress,
    second: Progress,
    text: Seq<char>,
    records: Seq<RecordView>,
)
    requires
        started(first, text, records),
        started(second, text, records),
    ensures
        same_progress(first, second),
{
}

/// Two steps from states with the same clauses and verdicts, with the same
/// reply and the same corpus, give outcomes that agree. With the start this
/// makes the whole analysis repeatable: the same text, corpus and replies
/// lead to the same report.
pub proof fn lemma_step_repeatable(
    first: Progress,
    second: Progress,
    cs: Seq<Seq<char>>,
    vs: Seq<ClauseVerdictView>,
    reply: Option<Seq<char>>,
    records: Seq<RecordView>,
)
    requires
        continued(first, cs, vs, reply, records),
        continued(second, cs, vs, reply, records),
    ensures
        same_progress(first, second),
{
}

/// The verdicts that an outcome holds: those of its report, or those of the
/// pass so far.
pub open spec fn verdicts_of(p: Progress) -> Seq<ClauseVerdictView> {
    match p {
        Progress::Report(r) => r@.breakdown,
        Progress::Ask { state, prompt } => verdict_views(state.verdicts@),
    }
}

/// On a document with clauses, the start holds verdicts of the external
/// tier only, and a report made at the start has one for every clause.
pub proof fn lemma_start_external(p: Progress, text: Seq<char>, records: Seq<RecordView>)
    requires
        clauses(text).len() > 0,
        started(p, text, records),
    ensures
        external_entries(clauses(text), verdicts_of(p)),
        p is Report ==> verdicts_of(p).len() == clauses(text).len(),
{
    lemma_settle_external(clauses(text), Seq::<ClauseVerdictView>::empty());
}

/// A step on a reply that holds a character stays in the external tier:
/// from verdicts of the external tier only it leads to such verdicts again,
/// and a report made by it has one for every clause. So a document whose
/// every question is answered is reported with the external tier's verdicts
/// and with none of another tier.
pub proof fn lemma_answered_step_external(
    p: Progress,
    cs: Seq<Seq<char>>,
    vs: Seq<ClauseVerdictView>,
    reply: Seq<char>,
    records: Seq<RecordView>,
)
    requires
        external_entries(cs, vs),
        vs.len() < cs.len(),
        needs_model(cs[vs.len() as int]),
        reply.len() > 0,
        continued(p, cs, vs, Some(reply), records),
    ensures
        verdicts_of(p) == settle(
            cs,
            vs.push(model_verdict(cs[vs.len() as int], Some(reply))->Some_0),
        ),
        external_entries(cs, verdicts_of(p)),
        p is Report ==> verdicts_of(p).len() == cs.len(),
{
    lemma_reply_external(cs, vs, reply);
    lemma_settle_external(cs, vs.push(model_verdict(cs[vs.len() as int], Some(reply))->Some_0));
}

fn proceed(step: LlmStep, contract_text: &str, corpus: &LabeledCorpus) -> (p: Progress)
    ensures
        match step {
            LlmStep::Ask { state, prompt } => p == (Progress::Ask { state, prompt }),
            LlmStep::Done(Ok(v)) => reported(p, summary(v.len() as nat, verdict_views(v@))),
            LlmStep::Done(Err(_)) => reported(p, local_report(clauses(contract_text@), corpus@)),
        },
        step is Done ==> progress_wf(p),
{
    match step {
        LlmStep::Ask { state, prompt } => Progress::Ask { state, prompt },
        LlmStep::Done(Ok(verdicts)) => Progress::Report(aggregate(verdicts.len(), verdicts)),
        LlmStep::Done(Err(_)) => Progress::Report(analyze_locally(contract_text, corpus)),
    }
}

/// Starts the analysis of a document. The external tier comes first: the
/// analysis asks about the first clause of three words or more, if there is
/// one. A document whose clauses are all shorter is reported with the
/// neutral verdicts, and one without clauses with the report of the tiers
/// that need no model.
pub fn analyze_contract(contract_text: &str, corpus: &LabeledCorpus) -> (p: Progress)
    ensures
        started(p, contract_text@, corpus@),
        progress_wf(p),
{
    proceed(llm_analyze(contract_text), contract_text, corpus)
}

/// Goes on with the model's reply for the clause that was asked about, `None`
/// where the call failed. A failed call or an empty reply ends the external
/// tier for the whole document: the rule tier then runs over all its clauses
/// and the analysis reports. Otherwise the analysis asks about the next
/// clause, or reports with the external tier's verdicts on every clause.
pub fn continue_contract(state: LlmAnalysis, reply: Option<String>, corpus: &LabeledCorpus) -> (p:
    Progress)
    requires
        state.wf(),
    ensures
        continued(
            p,
            views(state.clauses@),
            verdict_views(state.verdicts@),
            reply_text(reply),
            corpus@,
        ),
        progress_wf(p),
{
    let LlmAnalysis { clauses, verdicts } = state;
    let mut verdicts = verdicts;
    match interpret_reply(&clauses[verdicts.len()], reply) {
        Err(_) => {
            proof {
                lemma_local_report_consistent(views(clauses@), corpus@);
            }
            let fallback = run_tier(LocalTier::Heuristic, &clauses, corpus);
            Progress::Report(aggregate(clauses.len(), fallback))
        },
        Ok(v) => {
            let ghost before = verdict_views(verdicts@);
            verdicts.push(v);
            assert(verdict_views(verdicts@) =~= before.push(v@));
            match advance(clauses, verdicts) {
                LlmStep::Ask { state, prompt } => Progress::Ask { state, prompt },
                LlmStep::Done(Ok(all)) => Progress::Report(aggregate(all.len(), all)),
                LlmStep::Done(Err(_)) => unreached(),
            }
        },
    }
}

} // verus!
