//! The values that the tiers produce and the report is made of.

use vstd::prelude::*;
use vstd::string::*;

verus! {

/// The outcome assigned to a clause. Only equality is defined on it.
#[derive(Clone, Copy, Debug, PartialEq, Eq, Structural)]
pub enum Verdict {
    Allowed,
    NotAllowed,
    Unclassified,
    Neutral,
}

/// The name under which a verdict is shown.
pub open spec fn verdict_name(v: Verdict) -> Seq<char> {
    match v {
        Verdict::Allowed => "Allowed"@,
        Verdict::NotAllowed => "Not Allowed"@,
        Verdict::Unclassified => "Unclassified"@,
        Verdict::Neutral => "Neutral"@,
    }
}

impl Verdict {
    /// The name under which the verdict is shown.
    pub fn name(&self) -> (r: String)
        ensures
            r@ == verdict_name(*self),
    {
        match self {
            Verdict::Allowed => "Allowed".to_owned(),
            Verdict::NotAllowed => "Not Allowed".to_owned(),
            Verdict::Unclassified => "Unclassified".to_owned(),
            Verdict::Neutral => "Neutral".to_owned(),
        }
    }
}

/// The label of a reference record.
#[derive(Clone, Copy, Debug, PartialEq, Eq, Structural)]
pub enum Label {
    Allowed,
    NotAllowed,
}

/// Why an operation produced no verdicts.
#[derive(Clone, Copy, Debug, PartialEq, Eq, Structural)]
pub enum AnalysisError {
    /// Nothing was left to classify after segmentation or trimming.
    EmptyInput,
    /// A whole tier gave no result.
    TierFailure,
    /// The external model failed or answered with nothing.
    CollaboratorFailure,
}

/// A non-negative fraction `num / den` in the mathematical integers.
pub struct Frac {
    pub num: nat,
    pub den: nat,
}

impl Frac {
    /// `self > other`, by cross-multiplication.
    pub open spec fn gt(self, other: Frac) -> bool {
        self.num * other.den > other.num * self.den
    }

    /// `self >= n / d`.
    pub open spec fn at_least(self, n: nat, d: nat) -> bool {
        self.num * d >= n * self.den
    }

    /// `self < n / d`.
    pub open spec fn below(self, n: nat, d: nat) -> bool {
        self.num * d < n * self.den
    }

    /// The fraction equals one.
    pub open spec fn is_one(self) -> bool {
        self.num == self.den && self.den > 0
    }

    /// The fraction equals zero.
    pub open spec fn is_zero(self) -> bool {
        self.num == 0 && self.den > 0
    }
}

/// Where `a` is at most `b` and `b` is less than `c`, `a` is at most `c`.
pub proof fn lemma_frac_order(a: Frac, b: Frac, c: Frac)
    requires
        b.den > 0,
        !a.gt(b),
        c.gt(b),
    ensures
        !a.gt(c),
{
    let (an, ad) = (a.num as int, a.den as int);
    let (bn, bd) = (b.num as int, b.den as int);
    let (cn, cd) = (c.num as int, c.den as int);
    assert((an * bd) * cd <= (bn * ad) * cd) by (nonlinear_arith)
        requires
            an * bd <= bn * ad,
            cd >= 0,
    ;
    assert((cn * bd) * ad >= (bn * cd) * ad) by (nonlinear_arith)
        requires
            cn * bd > bn * cd,
            ad >= 0,
    ;
    assert((bn * ad) * cd == (bn * cd) * ad) by (nonlinear_arith);
    assert((an * bd) * cd == (an * cd) * bd) by (nonlinear_arith);
    assert((cn * bd) * ad == (cn * ad) * bd) by (nonlinear_arith);
    assert(an * cd <= cn * ad) by (nonlinear_arith)
        requires
            (an * cd) * bd <= (cn * ad) * bd,
            bd > 0,
    ;
}

/// Where `a` is at most `b` and `b` is less than `c`, `a` is less than `c`.
pub proof fn lemma_frac_below(a: Frac, b: Frac, c: Frac)
    requires
        a.den > 0,
        b.den > 0,
        !a.gt(b),
        c.gt(b),
    ensures
        c.gt(a),
{
    let (an, ad) = (a.num as int, a.den as int);
    let (bn, bd) = (b.num as int, b.den as int);
    let (cn, cd) = (c.num as int, c.den as int);
    assert((an * bd) * cd <= (bn * ad) * cd) by (nonlinear_arith)
        requires
            an * bd <= bn * ad,
            cd >= 0,
    ;
    assert((cn * bd) * ad > (bn * cd) * ad) by (nonlinear_arith)
        requires
            cn * bd > bn * cd,
            ad > 0,
    ;
    assert((bn * ad) * cd == (bn * cd) * ad) by (nonlinear_arith);
    assert((an * bd) * cd == (an * cd) * bd) by (nonlinear_arith);
    assert((cn * bd) * ad == (cn * ad) * bd) by (nonlinear_arith);
    assert(cn * ad > an * cd) by (nonlinear_arith)
        requires
            (cn * ad) * bd > (an * cd) * bd,
            bd > 0,
    ;
}

/// A fraction of at most one that is no less than one is one.
pub proof fn lemma_frac_full(one: Frac, f: Frac)
    requires
        one.is_one(),
        f.den > 0,
        f.num <= f.den,
        !one.gt(f),
    ensures
        f.is_one(),
{
    let (n, d) = (one.den as int, f.den as int);
    let m = f.num as int;
    assert(d <= m) by (nonlinear_arith)
        requires
            n * d <= m * n,
            n > 0,
    ;
}

/// A similarity or a confidence: `num / den`, kept exact.
#[derive(Clone, Copy, Debug, PartialEq, Eq, Structural)]
pub struct Ratio {
    pub num: u64,
    pub den: u64,
}

impl View for Ratio {
    type V = Frac;

    open spec fn view(&self) -> Frac {
        Frac { num: self.num as nat, den: self.den as nat }
    }
}

/// Zero, written `0 / 1`.
pub open spec fn zero_frac() -> Frac {
    Frac { num: 0, den: 1 }
}

/// `n / 100`.
pub open spec fn hundredths(n: nat) -> Frac {
    Frac { num: n, den: 100 }
}

impl Ratio {
    /// A ratio is well formed when its denominator is positive and it is at most one.
    pub open spec fn wf(self) -> bool {
        0 < self.den && self.num <= self.den
    }

    /// The ratio zero.
    pub fn zero() -> (r: Ratio)
        ensures
            r@ == zero_frac(),
            r.wf(),
    {
        Ratio { num: 0, den: 1 }
    }

    /// The ratio `n / 100`.
    pub fn from_hundredths(n: u64) -> (r: Ratio)
        ensures
            r@ == hundredths(n as nat),
            n <= 100 ==> r.wf(),
    {
        Ratio { num: n, den: 100 }
    }

    /// Strict comparison of two ratios.
    pub fn greater_than(self, other: Ratio) -> (r: bool)
        ensures
            r == self@.gt(other@),
    {
        let a: u128 = Self::cross(self.num, other.den);
        let b: u128 = Self::cross(other.num, self.den);
        a > b
    }

    /// `self >= n / d`.
    pub fn at_least(self, n: u64, d: u64) -> (r: bool)
        ensures
            r == self@.at_least(n as nat, d as nat),
    {
        let a: u128 = Self::cross(self.num, d);
        let b: u128 = Self::cross(n, self.den);
        a >= b
    }

    /// `self < n / d`.
    pub fn below(self, n: u64, d: u64) -> (r: bool)
        ensures
            r == self@.below(n as nat, d as nat),
    {
        let a: u128 = Self::cross(self.num, d);
        let b: u128 = Self::cross(n, self.den);
        a < b
    }

    fn cross(a: u64, b: u64) -> (r: u128)
        ensures
            r == (a as nat) * (b as nat),
    {
        assert((a as nat) * (b as nat) <= 0xffff_ffff_ffff_ffff * 0xffff_ffff_ffff_ffff)
            by (nonlinear_arith)
            requires
                a <= 0xffff_ffff_ffff_ffff,
                b <= 0xffff_ffff_ffff_ffff,
        ;
        (a as u128) * (b as u128)
    }
}

} // verus!

verus! {

/// The verdict on one clause.
#[derive(Debug)]
pub struct ClauseVerdict {
    pub clause: String,
    pub label: Verdict,
    pub confidence: Ratio,
}

/// The verdict on one clause as plain values.
pub struct ClauseVerdictView {
    pub clause: Seq<char>,
    pub label: Verdict,
    pub confidence: Frac,
}

impl View for ClauseVerdict {
    type V = ClauseVerdictView;

    open spec fn view(&self) -> ClauseVerdictView {
        ClauseVerdictView {
            clause: self.clause@,
            label: self.label,
            confidence: self.confidence@,
        }
    }
}

/// A list of verdicts as plain values.
pub open spec fn verdict_views(v: Seq<ClauseVerdict>) -> Seq<ClauseVerdictView> {
    Seq::new(v.len(), |i: int| v[i]@)
}

impl ClauseVerdictView {
    /// The confidence lies between zero and one.
    pub open spec fn wf(self) -> bool {
        0 < self.confidence.den && self.confidence.num <= self.confidence.den
    }
}

/// A clause with a label and a confidence.
pub open spec fn verdict_on(clause: Seq<char>, scored: (Verdict, Frac)) -> ClauseVerdictView {
    ClauseVerdictView { clause, label: scored.0, confidence: scored.1 }
}

} // verus!
