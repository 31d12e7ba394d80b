//! The word-overlap measure and the nearest-neighbour lookup built on it.

use vstd::prelude::*;
use vstd::string::*;
use crate::corpus::{LabeledCorpus, RecordView};
use crate::segment::{split_words, words};
use crate::text::{chars_of, lowercase_of, lowercased, same_chars, trim, trimmed, views};
use crate::verdict::{
    AnalysisError,
    Frac,
    Label,
    Ratio,
    Verdict,
    lemma_frac_below,
    lemma_frac_full,
    lemma_frac_order,
    zero_frac,
};

verus! {

/// How many words of `w1`, counted with repetition, occur somewhere in `w2`.
pub open spec fn common_count(w1: Seq<Seq<char>>, w2: Seq<Seq<char>>) -> nat
    decreases w1.len(),
{
    if w1.len() == 0 {
        0
    } else {
        common_count(w1.drop_last(), w2) + if w2.contains(w1.last()) {
            1nat
        } else {
            0nat
        }
    }
}

/// The share of common words in the longer of two word lists; zero where both are empty.
pub open spec fn word_overlap(w1: Seq<Seq<char>>, w2: Seq<Seq<char>>) -> Frac {
    let longest = if w1.len() >= w2.len() {
        w1.len()
    } else {
        w2.len()
    };
    if longest == 0 {
        zero_frac()
    } else {
        Frac { num: common_count(w1, w2), den: longest }
    }
}

/// The similarity of a text to a reference text. The order of the arguments
/// matters: only the words of `a` are looked up in `b`.
pub open spec fn similarity(a: Seq<char>, b: Seq<char>) -> Frac {
    word_overlap(words(lowercase_of(a)), words(lowercase_of(b)))
}

/// The verdict that a label stands for.
pub open spec fn label_verdict(l: Label) -> Verdict {
    match l {
        Label::Allowed => Verdict::Allowed,
        Label::NotAllowed => Verdict::NotAllowed,
    }
}

/// The nearest record's label and similarity: the records are taken in order,
/// and one replaces the best so far only where it is strictly more similar.
/// Its label counts from a similarity of one half on.
pub open spec fn nearest(clause: Seq<char>, records: Seq<RecordView>) -> (Verdict, Frac)
    decreases records.len(),
{
    if records.len() == 0 {
        (Verdict::Unclassified, zero_frac())
    } else {
        let best = nearest(clause, records.drop_last());
        let sim = similarity(clause, records.last().text);
        if sim.gt(best.1) {
            (
                if sim.at_least(1, 2) {
                    label_verdict(records.last().label)
                } else {
                    Verdict::Unclassified
                },
                sim,
            )
        } else {
            best
        }
    }
}

/// No more words are common than `w1` has.
pub proof fn lemma_common_bound(w1: Seq<Seq<char>>, w2: Seq<Seq<char>>)
    ensures
        common_count(w1, w2) <= w1.len(),
    decreases w1.len(),
{
    if w1.len() > 0 {
        lemma_common_bound(w1.drop_last(), w2);
    }
}

/// Where every word of `w1` occurs in `w2`, all of them are common.
pub proof fn lemma_common_all(w1: Seq<Seq<char>>, w2: Seq<Seq<char>>)
    requires
        forall|i: int| 0 <= i < w1.len() ==> w2.contains(#[trigger] w1[i]),
    ensures
        common_count(w1, w2) == w1.len(),
    decreases w1.len(),
{
    if w1.len() > 0 {
        assert forall|i: int| 0 <= i < w1.drop_last().len() implies w2.contains(
            #[trigger] w1.drop_last()[i],
        ) by {
            assert(w1.drop_last()[i] == w1[i]);
        }
        lemma_common_all(w1.drop_last(), w2);
        assert(w1.last() == w1[w1.len() - 1]);
    }
}

/// A text that has a word after lower-casing is fully similar to itself.
pub proof fn lemma_self_similarity(s: Seq<char>)
    requires
        words(lowercase_of(s)).len() > 0,
    ensures
        similarity(s, s).is_one(),
{
    let w = words(lowercase_of(s));
    assert forall|i: int| 0 <= i < w.len() implies w.contains(#[trigger] w[i]) by {}
    lemma_common_all(w, w);
}

/// The similarity of any two texts lies between zero and one.
pub proof fn lemma_similarity_range(a: Seq<char>, b: Seq<char>)
    ensures
        similarity(a, b).den > 0,
        similarity(a, b).num <= similarity(a, b).den,
{
    lemma_common_bound(words(lowercase_of(a)), words(lowercase_of(b)));
}

/// The similarity found by the lookup is that of no record, or of one of them.
pub proof fn lemma_nearest_range(clause: Seq<char>, records: Seq<RecordView>)
    ensures
        nearest(clause, records).1.den > 0,
        nearest(clause, records).1.num <= nearest(clause, records).1.den,
    decreases records.len(),
{
    if records.len() > 0 {
        lemma_nearest_range(clause, records.drop_last());
        lemma_similarity_range(clause, records.last().text);
    }
}

/// No record is more similar to the clause than the lookup's result says.
pub proof fn lemma_nearest_is_maximal(clause: Seq<char>, records: Seq<RecordView>, i: int)
    requires
        0 <= i < records.len(),
    ensures
        !similarity(clause, records[i].text).gt(nearest(clause, records).1),
    decreases records.len(),
{
    let front = records.drop_last();
    let best = nearest(clause, front).1;
    let sim = similarity(clause, records.last().text);
    lemma_nearest_range(clause, front);
    if i < records.len() - 1 {
        lemma_nearest_is_maximal(clause, front, i);
        assert(front[i] == records[i]);
        if sim.gt(best) {
            lemma_frac_order(similarity(clause, records[i].text), best, sim);
        }
    }
}

/// The label that a record gives at the similarity `sim`.
pub open spec fn label_at(record: RecordView, sim: Frac) -> Verdict {
    if sim.at_least(1, 2) {
        label_verdict(record.label)
    } else {
        Verdict::Unclassified
    }
}

/// Where no record has a word in common with the clause, the lookup gives
/// no label and the similarity zero.
pub proof fn lemma_nearest_nothing(clause: Seq<char>, records: Seq<RecordView>)
    requires
        forall|i: int|
            0 <= i < records.len() ==> similarity(clause, (#[trigger] records[i]).text).num == 0,
    ensures
        nearest(clause, records) == (Verdict::Unclassified, zero_frac()),
    decreases records.len(),
{
    if records.len() > 0 {
        assert forall|i: int| 0 <= i < records.drop_last().len() implies similarity(
            clause,
            (#[trigger] records.drop_last()[i]).text,
        ).num == 0 by {
            assert(records.drop_last()[i] == records[i]);
        }
        lemma_nearest_nothing(clause, records.drop_last());
        assert(records.last() == records[records.len() - 1]);
    }
}

/// Where the lookup finds a similarity above zero, a record attains it: the
/// first of the records that are most similar to the clause. The lookup's
/// similarity is that record's, every earlier record is strictly less
/// similar, and the label is that record's from one half on.
pub proof fn lemma_nearest_winner(clause: Seq<char>, records: Seq<RecordView>) -> (i: int)
    requires
        nearest(clause, records).1.num > 0,
    ensures
        0 <= i < records.len(),
        nearest(clause, records).1 == similarity(clause, records[i].text),
        nearest(clause, records).0 == label_at(records[i], similarity(clause, records[i].text)),
        forall|j: int|
            0 <= j < i ==> similarity(clause, records[i].text).gt(
                similarity(clause, (#[trigger] records[j]).text),
            ),
        forall|j: int|
            0 <= j < records.len() ==> !similarity(clause, (#[trigger] records[j]).text).gt(
                similarity(clause, records[i].text),
            ),
    decreases records.len(),
{
    let front = records.drop_last();
    let best = nearest(clause, front).1;
    let sim = similarity(clause, records.last().text);
    lemma_nearest_range(clause, front);
    assert forall|j: int| 0 <= j < records.len() implies !similarity(
        clause,
        (#[trigger] records[j]).text,
    ).gt(nearest(clause, records).1) by {
        lemma_nearest_is_maximal(clause, records, j);
    }
    if sim.gt(best) {
        let i = records.len() - 1;
        assert forall|j: int| 0 <= j < i implies sim.gt(
            similarity(clause, (#[trigger] records[j]).text),
        ) by {
            lemma_nearest_is_maximal(clause, front, j);
            lemma_similarity_range(clause, records[j].text);
            assert(front[j] == records[j]);
            lemma_frac_below(similarity(clause, records[j].text), best, sim);
        }
        i
    } else {
        let i = lemma_nearest_winner(clause, front);
        assert(front[i] == records[i]);
        assert forall|j: int| 0 <= j < i implies similarity(clause, records[i].text).gt(
            similarity(clause, (#[trigger] records[j]).text),
        ) by {
            assert(front[j] == records[j]);
        }
        i
    }
}

/// A clause that has a word after lower-casing and stands in the corpus as a
/// record's text is found with the similarity one.
pub proof fn lemma_known_clause_scores_one(clause: Seq<char>, records: Seq<RecordView>, i: int)
    requires
        0 <= i < records.len(),
        records[i].text == clause,
        words(lowercase_of(clause)).len() > 0,
    ensures
        nearest(clause, records).1.is_one(),
{
    lemma_self_similarity(clause);
    lemma_nearest_is_maximal(clause, records, i);
    lemma_nearest_range(clause, records);
    lemma_frac_full(similarity(clause, clause), nearest(clause, records).1);
}

/// The lookup gives a label only from a similarity of one half on.
pub proof fn lemma_nearest_label(clause: Seq<char>, records: Seq<RecordView>)
    ensures
        nearest(clause, records).0 == Verdict::Unclassified || (nearest(clause, records).1.at_least(
            1,
            2,
        ) && (nearest(clause, records).0 == Verdict::Allowed || nearest(clause, records).0
            == Verdict::NotAllowed)),
    decreases records.len(),
{
    if records.len() > 0 {
        lemma_nearest_label(clause, records.drop_last());
    }
}

fn has_word(ws: &Vec<Vec<char>>, w: &Vec<char>) -> (r: bool)
    ensures
        r == views(ws@).contains(w@),
{
    let mut k: usize = 0;
    while k < ws.len()
        invariant
            k <= ws.len(),
            forall|j: int| 0 <= j < k ==> views(ws@)[j] != w@,
        decreases ws.len() - k,
    {
        if same_chars(&ws[k], w) {
            assert(views(ws@)[k as int] == w@);
            return true;
        }
        k += 1;
    }
    false
}

/// The word overlap of two word lists.
pub fn overlap(w1: &Vec<Vec<char>>, w2: &Vec<Vec<char>>) -> (r: Ratio)
    ensures
        r@ == word_overlap(views(w1@), views(w2@)),
        r.wf(),
{
    let ghost a = views(w1@);
    let ghost b = views(w2@);
    let mut common: usize = 0;
    let mut i: usize = 0;
    assert(a.take(0) =~= Seq::<Seq<char>>::empty());
    while i < w1.len()
        invariant
            i <= w1.len(),
            a == views(w1@),
            b == views(w2@),
            common == common_count(a.take(i as int), b),
            common <= i,
        decreases w1.len() - i,
    {
        assert(a.take(i + 1).drop_last() =~= a.take(i as int));
        assert(a.take(i + 1).last() == w1@[i as int]@);
        if has_word(w2, &w1[i]) {
            common += 1;
        }
        i += 1;
    }
    assert(a.take(w1.len() as int) =~= a);
    let longest: usize = if w1.len() >= w2.len() {
        w1.len()
    } else {
        w2.len()
    };
    if longest == 0 {
        Ratio::zero()
    } else {
        Ratio { num: common as u64, den: longest as u64 }
    }
}

/// The words of a text after lower-casing.
pub fn lower_words(s: &Vec<char>) -> (r: Vec<Vec<char>>)
    ensures
        views(r@) == words(lowercase_of(s@)),
{
    let lower = lowercased(s);
    split_words(&lower)
}

/// The similarity of `text1` to the reference `text2`.
pub fn text_similarity(text1: &str, text2: &str) -> (r: Ratio)
    ensures
        r@ == similarity(text1@, text2@),
        r.wf(),
{
    let w1 = lower_words(&chars_of(text1));
    let w2 = lower_words(&chars_of(text2));
    overlap(&w1, &w2)
}

/// The verdict of a label.
pub fn verdict_of(l: Label) -> (r: Verdict)
    ensures
        r == label_verdict(l),
{
    match l {
        Label::Allowed => Verdict::Allowed,
        Label::NotAllowed => Verdict::NotAllowed,
    }
}

/// Looks a clause up in the corpus.
pub fn lookup(clause: &Vec<char>, corpus: &LabeledCorpus) -> (r: (Verdict, Ratio))
    ensures
        r.0 == nearest(clause@, corpus@).0,
        r.1@ == nearest(clause@, corpus@).1,
        r.1.wf(),
{
    let w1 = lower_words(clause);
    let mut best_label = Verdict::Unclassified;
    let mut best = Ratio::zero();
    let mut i: usize = 0;
    let ghost recs = corpus@;
    assert(recs.take(0) =~= Seq::<RecordView>::empty());
    while i < corpus.records.len()
        invariant
            i <= corpus.records.len(),
            recs == corpus@,
            recs.len() == corpus.records.len(),
            views(w1@) == words(lowercase_of(clause@)),
            best_label == nearest(clause@, recs.take(i as int)).0,
            best@ == nearest(clause@, recs.take(i as int)).1,
            best.wf(),
        decreases corpus.records.len() - i,
    {
        assert(recs.take(i + 1).drop_last() =~= recs.take(i as int));
        assert(recs.take(i + 1).last() == corpus.records@[i as int]@);
        let record = &corpus.records[i];
        let w2 = lower_words(&chars_of(record.text.as_str()));
        let sim = overlap(&w1, &w2);
        if sim.greater_than(best) {
            best = sim;
            best_label = if sim.at_least(1, 2) {
                verdict_of(record.label)
            } else {
                Verdict::Unclassified
            };
        }
        i += 1;
    }
    assert(recs.take(corpus.records.len() as int) =~= recs);
    (best_label, best)
}

/// Classifies one clause by the nearest reference record. A clause that is
/// blank is refused as empty input.
pub fn classify_clause(clause: &str, corpus: &LabeledCorpus) -> (r: Result<
    (Verdict, Ratio),
    AnalysisError,
>)
    ensures
        trim(clause@).len() == 0 ==> r == Err::<(Verdict, Ratio), AnalysisError>(
            AnalysisError::EmptyInput,
        ),
        trim(clause@).len() > 0 ==> r is Ok && r->Ok_0.0 == nearest(trim(clause@), corpus@).0
            && r->Ok_0.1@ == nearest(trim(clause@), corpus@).1 && r->Ok_0.1.wf(),
{
    let t = trimmed(&chars_of(clause));
    if t.len() == 0 {
        Err(AnalysisError::EmptyInput)
    } else {
        Ok(lookup(&t, corpus))
    }
}

} // verus!
