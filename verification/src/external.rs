//! The tier that asks an external model: what is asked for each clause, how
//! a reply is read, and the steps of a pass over a document.

use vstd::prelude::*;
use vstd::string::*;
use crate::segment::{clauses, lines, split_clauses, split_lines, split_words, words};
use crate::text::{
    chars_of,
    contains,
    enclose,
    extend,
    find,
    lowercase_of,
    lowercased,
    string_of,
    trim,
    trimmed,
    views,
};
use crate::verdict::{
    AnalysisError,
    ClauseVerdict,
    ClauseVerdictView,
    Ratio,
    Verdict,
    hundredths,
    verdict_on,
    verdict_views,
};

verus! {

/// A line that is dropped from the head of a reply: an empty one, a
/// preamble, or one with a code fence, bold markers or a heading mark.
pub open spec fn is_preamble(line: Seq<char>) -> bool {
    ||| line.len() == 0
    ||| contains(line, "Here's"@)
    ||| contains(line, "Below is"@)
    ||| contains(line, "```"@)
    ||| contains(line, "**"@)
    ||| line[0] == '#'
}

/// The lines from the first that is no preamble on.
pub open spec fn skip_preamble(ls: Seq<Seq<char>>) -> Seq<Seq<char>>
    decreases ls.len(),
{
    if ls.len() > 0 && is_preamble(ls[0]) {
        skip_preamble(ls.drop_first())
    } else {
        ls
    }
}

/// The lines with a line feed between each two.
pub open spec fn join_lines(ls: Seq<Seq<char>>) -> Seq<char>
    decreases ls.len(),
{
    if ls.len() == 0 {
        Seq::<char>::empty()
    } else if ls.len() == 1 {
        ls[0]
    } else {
        join_lines(ls.drop_last()) + seq!['\n'] + ls.last()
    }
}

/// A reply without its leading preamble lines, trimmed.
pub open spec fn cleaned(text: Seq<char>) -> Seq<char> {
    trim(join_lines(skip_preamble(lines(text))))
}

/// The label that a cleaned reply names.
pub open spec fn reply_label(clean: Seq<char>) -> Verdict {
    if contains(lowercase_of(clean), "not allowed"@) {
        Verdict::NotAllowed
    } else if contains(lowercase_of(clean), "allowed"@) {
        Verdict::Allowed
    } else {
        Verdict::Unclassified
    }
}

/// A clause goes to the model only if it has three words or more.
pub open spec fn needs_model(clause: Seq<char>) -> bool {
    words(clause).len() >= 3
}

/// The verdict on a clause that is too short to ask about.
pub open spec fn neutral(clause: Seq<char>) -> ClauseVerdictView {
    verdict_on(clause, (Verdict::Neutral, hundredths(50)))
}

/// What is asked of the model for a clause.
pub open spec fn classification_prompt(clause: Seq<char>) -> Seq<char> {
    "Analyze this contract clause and respond ONLY with either 'Allowed' or 'Not Allowed': '"@
        + clause + "'"@
}

/// The text of a reply, where the call gave one.
pub open spec fn reply_text(reply: Option<String>) -> Option<Seq<char>> {
    match reply {
        Some(s) => Some(s@),
        None => None,
    }
}

/// The verdict that a reply gives for a clause: none where the call failed
/// or the reply holds no character. Every other reply is cleaned and read
/// for its label, and one that names no label is unclassified.
pub open spec fn model_verdict(clause: Seq<char>, reply: Option<Seq<char>>) -> Option<
    ClauseVerdictView,
> {
    match reply {
        None => None,
        Some(t) => if t.len() == 0 {
            None
        } else {
            Some(verdict_on(clause, (reply_label(cleaned(t)), hundredths(90))))
        },
    }
}

/// The verdicts so far, extended by a neutral verdict for each clause that
/// follows and is too short to ask about, up to the next clause to ask about.
pub open spec fn settle(cs: Seq<Seq<char>>, vs: Seq<ClauseVerdictView>) -> Seq<ClauseVerdictView>
    decreases cs.len() - vs.len(),
{
    if vs.len() < cs.len() && !needs_model(cs[vs.len() as int]) {
        settle(cs, vs.push(neutral(cs[vs.len() as int])))
    } else {
        vs
    }
}

/// Settling keeps the verdicts it is given, adds the neutral verdict for
/// clauses of fewer than three words only, and stops before the first clause
/// of three words or more, or at the end.
pub proof fn lemma_settle_extends(cs: Seq<Seq<char>>, vs: Seq<ClauseVerdictView>)
    requires
        vs.len() <= cs.len(),
    ensures
        vs.len() <= settle(cs, vs).len() <= cs.len(),
        forall|i: int| 0 <= i < vs.len() ==> settle(cs, vs)[i] == vs[i],
        forall|i: int|
            vs.len() <= i < settle(cs, vs).len() ==> !needs_model(cs[i]) && settle(cs, vs)[i]
                == neutral(cs[i]),
        settle(cs, vs).len() < cs.len() ==> needs_model(cs[settle(cs, vs).len() as int]),
    decreases cs.len() - vs.len(),
{
    if vs.len() < cs.len() && !needs_model(cs[vs.len() as int]) {
        let next = vs.push(neutral(cs[vs.len() as int]));
        lemma_settle_extends(cs, next);
        assert forall|i: int| 0 <= i < vs.len() implies settle(cs, vs)[i] == vs[i] by {
            assert(next[i] == vs[i]);
        }
        assert forall|i: int| vs.len() <= i < settle(cs, vs).len() implies !needs_model(cs[i])
            && settle(cs, vs)[i] == neutral(cs[i]) by {
            if i == vs.len() {
                assert(next[i] == neutral(cs[i]));
            }
        }
    }
}

/// Every verdict is the external tier's on the clause at its place: the
/// neutral verdict on a clause of fewer than three words, and on any other
/// clause a label read from a reply, with a confidence of nine tenths.
pub open spec fn external_entries(cs: Seq<Seq<char>>, vs: Seq<ClauseVerdictView>) -> bool {
    &&& vs.len() <= cs.len()
    &&& forall|i: int|
        0 <= i < vs.len() ==> if needs_model(cs[i]) {
            &&& (#[trigger] vs[i]).clause == cs[i]
            &&& vs[i].confidence == hundredths(90)
            &&& vs[i].label != Verdict::Neutral
        } else {
            vs[i] == neutral(cs[i])
        }
}

/// Settling keeps a list of the external tier's verdicts one.
pub proof fn lemma_settle_external(cs: Seq<Seq<char>>, vs: Seq<ClauseVerdictView>)
    requires
        external_entries(cs, vs),
    ensures
        external_entries(cs, settle(cs, vs)),
{
    lemma_settle_extends(cs, vs);
    let all = settle(cs, vs);
    assert forall|i: int| 0 <= i < all.len() implies if needs_model(cs[i]) {
        &&& (#[trigger] all[i]).clause == cs[i]
        &&& all[i].confidence == hundredths(90)
        &&& all[i].label != Verdict::Neutral
    } else {
        all[i] == neutral(cs[i])
    } by {
        if i < vs.len() {
            assert(all[i] == vs[i]);
        } else {
            assert(all[i] == neutral(cs[i]) && !needs_model(cs[i]));
        }
    }
}

/// The verdict of a reply on a clause of three words or more, put behind a
/// list of the external tier's verdicts, gives such a list again.
pub proof fn lemma_reply_external(
    cs: Seq<Seq<char>>,
    vs: Seq<ClauseVerdictView>,
    reply: Seq<char>,
)
    requires
        external_entries(cs, vs),
        vs.len() < cs.len(),
        needs_model(cs[vs.len() as int]),
        reply.len() > 0,
    ensures
        model_verdict(cs[vs.len() as int], Some(reply)) is Some,
        external_entries(cs, vs.push(model_verdict(cs[vs.len() as int], Some(reply))->Some_0)),
{
    let v = model_verdict(cs[vs.len() as int], Some(reply))->Some_0;
    let next = vs.push(v);
    assert forall|i: int| 0 <= i < next.len() implies if needs_model(cs[i]) {
        &&& (#[trigger] next[i]).clause == cs[i]
        &&& next[i].confidence == hundredths(90)
        &&& next[i].label != Verdict::Neutral
    } else {
        next[i] == neutral(cs[i])
    } by {
        if i < vs.len() {
            assert(next[i] == vs[i]);
        }
    }
}

fn preamble_line(line: &Vec<char>) -> (r: bool)
    ensures
        r == is_preamble(line@),
{
    line.len() == 0 || find(line, &chars_of("Here's")) || find(line, &chars_of("Below is"))
        || find(line, &chars_of("```")) || find(line, &chars_of("**")) || line[0] == '#'
}

/// Cleans the characters of a reply.
pub fn clean_chars(text: &Vec<char>) -> (r: Vec<char>)
    ensures
        r@ == cleaned(text@),
{
    let ls = split_lines(text);
    let ghost all = views(ls@);
    let n: usize = ls.len();
    let mut k: usize = 0;
    assert(all.skip(0) =~= all);
    while k < n && preamble_line(&ls[k])
        invariant
            k <= n,
            n == ls.len(),
            all == views(ls@),
            skip_preamble(all) == skip_preamble(all.skip(k as int)),
        decreases n - k,
    {
        assert(all.skip(k as int).drop_first() =~= all.skip(k + 1));
        k += 1;
    }
    assert(all.skip(k as int) =~= all.subrange(k as int, n as int));
    let mut out: Vec<char> = Vec::new();
    let mut j: usize = k;
    assert(all.subrange(k as int, k as int) =~= Seq::<Seq<char>>::empty());
    while j < n
        invariant
            k <= j <= n,
            n == ls.len(),
            all == views(ls@),
            out@ == join_lines(all.subrange(k as int, j as int)),
        decreases n - j,
    {
        assert(all.subrange(k as int, j + 1).drop_last() =~= all.subrange(k as int, j as int));
        assert(all.subrange(k as int, j + 1).last() == ls@[j as int]@);
        if j > k {
            out.push('\n');
            extend(&mut out, &ls[j]);
            assert(out@ =~= join_lines(all.subrange(k as int, j as int)) + seq!['\n']
                + ls@[j as int]@);
        } else {
            extend(&mut out, &ls[j]);
            assert(out@ =~= ls@[j as int]@);
        }
        j += 1;
    }
    trimmed(&out)
}

/// Drops the leading preamble lines of a reply and trims what is left.
pub fn clean_llm_response(text: String) -> (r: String)
    ensures
        r@ == cleaned(text@),
{
    string_of(&clean_chars(&chars_of(text.as_str())))
}

/// Reads the label that a cleaned reply names.
pub fn read_label(clean: &Vec<char>) -> (r: Verdict)
    ensures
        r == reply_label(clean@),
{
    let lower = lowercased(clean);
    if find(&lower, &chars_of("not allowed")) {
        Verdict::NotAllowed
    } else if find(&lower, &chars_of("allowed")) {
        Verdict::Allowed
    } else {
        Verdict::Unclassified
    }
}

/// Whether a clause has to be put to the model.
pub fn long_enough(clause: &Vec<char>) -> (r: bool)
    ensures
        r == needs_model(clause@),
{
    split_words(clause).len() >= 3
}

/// The prompt for a clause.
pub fn prompt_for(clause: &Vec<char>) -> (r: String)
    ensures
        r@ == classification_prompt(clause@),
{
    enclose(
        "Analyze this contract clause and respond ONLY with either 'Allowed' or 'Not Allowed': '",
        clause,
        "'",
    )
}

/// Turns the model's reply for a clause into a verdict. A call that failed,
/// or a reply that holds no character, is a failure of the collaborator and
/// never a verdict. Any other reply gives a verdict, also where nothing is
/// left of it after cleaning.
pub fn interpret_reply(clause: &Vec<char>, reply: Option<String>) -> (r: Result<
    ClauseVerdict,
    AnalysisError,
>)
    ensures
        match model_verdict(clause@, reply_text(reply)) {
            Some(v) => r is Ok && r->Ok_0@ == v && r->Ok_0.confidence.wf(),
            None => r is Err && r->Err_0 == AnalysisError::CollaboratorFailure,
        },
{
    match reply {
        None => Err(AnalysisError::CollaboratorFailure),
        Some(text) => {
            let raw = chars_of(text.as_str());
            if raw.len() == 0 {
                Err(AnalysisError::CollaboratorFailure)
            } else {
                let clean = clean_chars(&raw);
                Ok(
                    ClauseVerdict {
                        clause: string_of(clause),
                        label: read_label(&clean),
                        confidence: Ratio::from_hundredths(90),
                    },
                )
            }
        },
    }
}

/// A pass of the external tier that waits for the model's reply on one clause.
#[derive(Debug)]
pub struct LlmAnalysis {
    /// All clauses of the document, in order.
    pub clauses: Vec<Vec<char>>,
    /// The verdicts on the clauses before the one that was asked about.
    pub verdicts: Vec<ClauseVerdict>,
}

impl LlmAnalysis {
    /// A waiting pass has a clause left to ask about, and that clause has
    /// three words or more.
    pub open spec fn wf(&self) -> bool {
        &&& self.verdicts.len() < self.clauses.len()
        &&& needs_model(self.clauses@[self.verdicts.len() as int]@)
    }

    /// Whether the pass is one that waits: to be tested on a state that was
    /// not handed out by this library.
    pub fn is_waiting(&self) -> (r: bool)
        ensures
            r == self.wf(),
    {
        self.verdicts.len() < self.clauses.len() && long_enough(&self.clauses[self.verdicts.len()])
    }

    /// The clause that the pass waits on.
    pub open spec fn pending(&self) -> Seq<char> {
        self.clauses@[self.verdicts.len() as int]@
    }
}

/// Where a pass of the external tier stands.
#[derive(Debug)]
pub enum LlmStep {
    /// The model is to be asked `prompt`, and the pass goes on from `state`
    /// with its reply.
    Ask { state: LlmAnalysis, prompt: String },
    /// The pass is over: with a verdict on every clause, or failed.
    Done(Result<Vec<ClauseVerdict>, AnalysisError>),
}

/// The step that stands at the clauses `cs` with the settled verdicts `vs`:
/// the question about the next clause, or the end with all verdicts.
pub open spec fn follows(step: LlmStep, cs: Seq<Seq<char>>, vs: Seq<ClauseVerdictView>) -> bool {
    match step {
        LlmStep::Ask { state, prompt } => {
            &&& vs.len() < cs.len()
            &&& state.wf()
            &&& views(state.clauses@) == cs
            &&& verdict_views(state.verdicts@) == vs
            &&& prompt@ == classification_prompt(cs[vs.len() as int])
        },
        LlmStep::Done(Ok(v)) => vs.len() == cs.len() && verdict_views(v@) == vs,
        LlmStep::Done(Err(_)) => false,
    }
}

/// The step that ends a pass in failure with the error `e`.
pub open spec fn failed_with(step: LlmStep, e: AnalysisError) -> bool {
    match step {
        LlmStep::Done(Err(got)) => got == e,
        _ => false,
    }
}

/// Goes on from the given verdicts: settles the short clauses that follow,
/// then asks about the next clause or ends the pass.
pub(crate) fn advance(clauses: Vec<Vec<char>>, verdicts: Vec<ClauseVerdict>) -> (step: LlmStep)
    requires
        verdicts.len() <= clauses.len(),
    ensures
        follows(step, views(clauses@), settle(views(clauses@), verdict_views(verdicts@))),
{
    let ghost cs = views(clauses@);
    let ghost start = verdict_views(verdicts@);
    let mut verdicts = verdicts;
    while verdicts.len() < clauses.len() && !long_enough(&clauses[verdicts.len()])
        invariant
            verdicts.len() <= clauses.len(),
            cs == views(clauses@),
            settle(cs, start) == settle(cs, verdict_views(verdicts@)),
        decreases clauses.len() - verdicts.len(),
    {
        let n: usize = verdicts.len();
        let ghost before = verdict_views(verdicts@);
        let v = ClauseVerdict {
            clause: string_of(&clauses[n]),
            label: Verdict::Neutral,
            confidence: Ratio::from_hundredths(50),
        };
        verdicts.push(v);
        assert(verdict_views(verdicts@) =~= before.push(neutral(cs[n as int])));
    }
    if verdicts.len() == clauses.len() {
        LlmStep::Done(Ok(verdicts))
    } else {
        let prompt = prompt_for(&clauses[verdicts.len()]);
        LlmStep::Ask { state: LlmAnalysis { clauses, verdicts }, prompt }
    }
}

/// Starts the external tier on a document. A document without clauses fails
/// as empty input. Otherwise the clauses that are too short to ask about get
/// their neutral verdict, up to the first clause that the model is asked about.
pub fn llm_analyze(contract_text: &str) -> (step: LlmStep)
    ensures
        clauses(contract_text@).len() == 0 ==> failed_with(step, AnalysisError::EmptyInput),
        clauses(contract_text@).len() > 0 ==> follows(
            step,
            clauses(contract_text@),
            settle(clauses(contract_text@), Seq::<ClauseVerdictView>::empty()),
        ),
{
    let cs = split_clauses(&chars_of(contract_text));
    if cs.len() == 0 {
        LlmStep::Done(Err(AnalysisError::EmptyInput))
    } else {
        let verdicts: Vec<ClauseVerdict> = Vec::new();
        assert(verdict_views(verdicts@) =~= Seq::<ClauseVerdictView>::empty());
        advance(cs, verdicts)
    }
}

impl LlmAnalysis {
    /// Goes on with the model's reply for the clause that was asked about:
    /// `None` where the call failed. A failed call or an empty reply fails the
    /// whole tier. Otherwise its verdict is recorded, the short clauses that
    /// follow get their neutral verdict, and the pass asks about the next
    /// clause or ends.
    pub fn resume(self, reply: Option<String>) -> (step: LlmStep)
        requires
            self.wf(),
        ensures
            match model_verdict(self.pending(), reply_text(reply)) {
                None => failed_with(step, AnalysisError::TierFailure),
                Some(v) => follows(
                    step,
                    views(self.clauses@),
                    settle(views(self.clauses@), verdict_views(self.verdicts@).push(v)),
                ),
            },
    {
        let LlmAnalysis { clauses, verdicts } = self;
        let mut verdicts = verdicts;
        let n: usize = verdicts.len();
        match interpret_reply(&clauses[n], reply) {
            Err(_) => LlmStep::Done(Err(AnalysisError::TierFailure)),
            Ok(v) => {
                let ghost before = verdict_views(verdicts@);
                verdicts.push(v);
                assert(verdict_views(verdicts@) =~= before.push(v@));
                advance(clauses, verdicts)
            },
        }
    }
}

} // verus!
