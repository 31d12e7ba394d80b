//! The keyword rules and the table that combines their score with the
//! nearest-neighbour lookup.

use vstd::prelude::*;
use crate::text::{chars_of, contains, find, lowercase_of, lowercased, views};
use crate::verdict::{Frac, Ratio, Verdict, hundredths};

verus! {

/// Phrases that restrict one side.
pub open spec fn restrictive_phrases() -> Seq<Seq<char>> {
    seq![
        "at any time"@,
        "without notice"@,
        "without consent"@,
        "without reason"@,
        "unlimited"@,
        "no obligation"@,
        "may not request"@,
        "not entitled"@,
        "not responsible"@,
        "not liable"@,
    ]
}

/// Phrases that name a penalty.
pub open spec fn penalty_phrases() -> Seq<Seq<char>> {
    seq![
        "immediate termination"@,
        "forfeit"@,
        "waive all rights"@,
        "no refund"@,
        "20%"@,
        "25%"@,
        "30%"@,
    ]
}

/// Phrases that speak for a fair term.
pub open spec fn fairness_phrases() -> Seq<Seq<char>> {
    seq![
        "right to"@,
        "entitled to"@,
        "reasonable"@,
        "mutual"@,
        "agreed"@,
        "notice"@,
        "consent"@,
    ]
}

/// Some phrase of `ps` is a substring of `s`.
pub open spec fn contains_any(s: Seq<char>, ps: Seq<Seq<char>>) -> bool {
    exists|j: int| 0 <= j < ps.len() && contains(s, #[trigger] ps[j])
}

/// The score of a lower-cased clause, in tenths: three tenths down for a
/// restrictive phrase, three down for a penalty phrase, three up for a
/// fairness phrase, each class counted once.
pub open spec fn rule_score(lower: Seq<char>) -> int {
    (if contains_any(lower, restrictive_phrases()) {
        -3int
    } else {
        0int
    }) + (if contains_any(lower, penalty_phrases()) {
        -3int
    } else {
        0int
    }) + (if contains_any(lower, fairness_phrases()) {
        3int
    } else {
        0int
    })
}

/// The decision table. `score` is in tenths; `base` is what the lookup found.
pub open spec fn decide(score: int, base: (Verdict, Frac)) -> (Verdict, Frac) {
    if score <= -5 {
        (Verdict::NotAllowed, hundredths(85))
    } else if score >= 5 {
        (Verdict::Allowed, hundredths(85))
    } else if base.1.below(3, 5) {
        if score < -2 {
            (Verdict::NotAllowed, hundredths(70))
        } else if score > 2 {
            (Verdict::Allowed, hundredths(70))
        } else {
            base
        }
    } else {
        base
    }
}

/// What the rule tier says of a clause, given what the lookup found for it.
pub open spec fn rule_verdict(clause: Seq<char>, base: (Verdict, Frac)) -> (Verdict, Frac) {
    decide(rule_score(lowercase_of(clause)), base)
}

/// A lower-cased clause with a restrictive and a fairness phrase and no
/// penalty phrase scores zero, and the table then hands the lookup's label
/// and similarity through unchanged.
pub proof fn lemma_balanced_clause_passes_through(lower: Seq<char>, base: (Verdict, Frac))
    requires
        contains_any(lower, restrictive_phrases()),
        contains_any(lower, fairness_phrases()),
        !contains_any(lower, penalty_phrases()),
    ensures
        rule_score(lower) == 0,
        decide(rule_score(lower), base) == base,
{
}

/// The score takes one of four values.
pub proof fn lemma_score_values(lower: Seq<char>)
    ensures
        rule_score(lower) == -6 || rule_score(lower) == -3 || rule_score(lower) == 0
            || rule_score(lower) == 3,
{
}

fn restrictive() -> (r: Vec<Vec<char>>)
    ensures
        views(r@) == restrictive_phrases(),
{
    let mut v: Vec<Vec<char>> = Vec::new();
    v.push(chars_of("at any time"));
    v.push(chars_of("without notice"));
    v.push(chars_of("without consent"));
    v.push(chars_of("without reason"));
    v.push(chars_of("unlimited"));
    v.push(chars_of("no obligation"));
    v.push(chars_of("may not request"));
    v.push(chars_of("not entitled"));
    v.push(chars_of("not responsible"));
    v.push(chars_of("not liable"));
    assert(views(v@) =~= restrictive_phrases());
    v
}

fn penalty() -> (r: Vec<Vec<char>>)
    ensures
        views(r@) == penalty_phrases(),
{
    let mut v: Vec<Vec<char>> = Vec::new();
    v.push(chars_of("immediate termination"));
    v.push(chars_of("forfeit"));
    v.push(chars_of("waive all rights"));
    v.push(chars_of("no refund"));
    v.push(chars_of("20%"));
    v.push(chars_of("25%"));
    v.push(chars_of("30%"));
    assert(views(v@) =~= penalty_phrases());
    v
}

fn fairness() -> (r: Vec<Vec<char>>)
    ensures
        views(r@) == fairness_phrases(),
{
    let mut v: Vec<Vec<char>> = Vec::new();
    v.push(chars_of("right to"));
    v.push(chars_of("entitled to"));
    v.push(chars_of("reasonable"));
    v.push(chars_of("mutual"));
    v.push(chars_of("agreed"));
    v.push(chars_of("notice"));
    v.push(chars_of("consent"));
    assert(views(v@) =~= fairness_phrases());
    v
}

/// Whether some phrase of `ps` occurs in `s`.
pub fn find_any(s: &Vec<char>, ps: &Vec<Vec<char>>) -> (r: bool)
    ensures
        r == contains_any(s@, views(ps@)),
{
    let mut k: usize = 0;
    while k < ps.len()
        invariant
            k <= ps.len(),
            forall|j: int| 0 <= j < k ==> !contains(s@, #[trigger] views(ps@)[j]),
        decreases ps.len() - k,
    {
        if find(s, &ps[k]) {
            assert(contains(s@, views(ps@)[k as int]));
            return true;
        }
        k += 1;
    }
    false
}

/// The score of a lower-cased clause, in tenths.
pub fn score_of(lower: &Vec<char>) -> (r: i32)
    ensures
        r == rule_score(lower@),
{
    let mut score: i32 = 0;
    if find_any(lower, &restrictive()) {
        score = score - 3;
    }
    if find_any(lower, &penalty()) {
        score = score - 3;
    }
    if find_any(lower, &fairness()) {
        score = score + 3;
    }
    score
}

/// Applies the decision table.
pub fn decide_label(score: i32, base: (Verdict, Ratio)) -> (r: (Verdict, Ratio))
    ensures
        r.0 == decide(score as int, (base.0, base.1@)).0,
        r.1@ == decide(score as int, (base.0, base.1@)).1,
        base.1.wf() ==> r.1.wf(),
{
    if score <= -5 {
        (Verdict::NotAllowed, Ratio::from_hundredths(85))
    } else if score >= 5 {
        (Verdict::Allowed, Ratio::from_hundredths(85))
    } else if base.1.below(3, 5) {
        if score < -2 {
            (Verdict::NotAllowed, Ratio::from_hundredths(70))
        } else if score > 2 {
            (Verdict::Allowed, Ratio::from_hundredths(70))
        } else {
            base
        }
    } else {
        base
    }
}

/// The rule tier on one clause, given what the lookup found for it.
pub fn judge(clause: &Vec<char>, base: (Verdict, Ratio)) -> (r: (Verdict, Ratio))
    ensures
        r.0 == rule_verdict(clause@, (base.0, base.1@)).0,
        r.1@ == rule_verdict(clause@, (base.0, base.1@)).1,
        base.1.wf() ==> r.1.wf(),
{
    let lower = lowercased(clause);
    decide_label(score_of(&lower), base)
}

} // verus!
