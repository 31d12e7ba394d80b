//! Cutting text into pieces: words, clauses and lines.

use vstd::prelude::*;
use crate::text::{copy_range, is_space, is_white_space, lemma_trim_shape, trim, trimmed, views};

verus! {

/// The classes of characters at which text is cut.
#[derive(Clone, Copy, Debug, PartialEq, Eq, Structural)]
pub enum Delimiter {
    /// Any white space.
    WhiteSpace,
    /// A full stop or a line feed.
    ClauseEnd,
    /// A line feed.
    LineFeed,
}

impl Delimiter {
    /// Whether `c` belongs to the class.
    pub open spec fn matches(self, c: char) -> bool {
        match self {
            Delimiter::WhiteSpace => is_space(c),
            Delimiter::ClauseEnd => c == '.' || c == '\n',
            Delimiter::LineFeed => c == '\n',
        }
    }

    /// Tests a character against the class.
    pub fn test(self, c: char) -> (r: bool)
        ensures
            r == self.matches(c),
    {
        match self {
            Delimiter::WhiteSpace => is_white_space(c),
            Delimiter::ClauseEnd => c == '.' || c == '\n',
            Delimiter::LineFeed => c == '\n',
        }
    }
}

/// The pieces between delimiters, empty ones included: one more piece than
/// there are delimiters in `s`.
pub open spec fn split(s: Seq<char>, d: Delimiter) -> Seq<Seq<char>>
    decreases s.len(),
{
    if s.len() == 0 {
        seq![Seq::<char>::empty()]
    } else {
        let head = split(s.drop_last(), d);
        if d.matches(s.last()) {
            head.push(Seq::<char>::empty())
        } else {
            head.drop_last().push(head.last().push(s.last()))
        }
    }
}

/// The pieces of `segs` that hold at least one character, in order.
pub open spec fn nonempty(segs: Seq<Seq<char>>) -> Seq<Seq<char>>
    decreases segs.len(),
{
    if segs.len() == 0 {
        Seq::<Seq<char>>::empty()
    } else {
        let head = nonempty(segs.drop_last());
        if segs.last().len() > 0 {
            head.push(segs.last())
        } else {
            head
        }
    }
}

/// Each piece trimmed.
pub open spec fn trim_each(segs: Seq<Seq<char>>) -> Seq<Seq<char>> {
    Seq::new(segs.len(), |i: int| trim(segs[i]))
}

/// The words of a text: its maximal runs of characters that are not white space.
pub open spec fn words(s: Seq<char>) -> Seq<Seq<char>> {
    nonempty(split(s, Delimiter::WhiteSpace))
}

/// The clauses of a document: its pieces between full stops and line feeds,
/// trimmed, without those that are blank.
pub open spec fn clauses(s: Seq<char>) -> Seq<Seq<char>> {
    nonempty(trim_each(split(s, Delimiter::ClauseEnd)))
}

/// A piece without one trailing carriage return.
pub open spec fn strip_cr(seg: Seq<char>) -> Seq<char> {
    if seg.len() > 0 && seg.last() == '\r' {
        seg.drop_last()
    } else {
        seg
    }
}

/// The lines of a text. A line ends at a line feed, and a carriage return
/// just before that line feed belongs to the ending. What follows the last
/// line feed is a line only if it is not empty.
pub open spec fn lines(s: Seq<char>) -> Seq<Seq<char>> {
    let segs = split(s, Delimiter::LineFeed);
    let body = Seq::new((segs.len() - 1) as nat, |i: int| strip_cr(segs[i]));
    if segs.last().len() == 0 {
        body
    } else {
        body.push(segs.last())
    }
}

/// A split always has at least one piece.
pub proof fn lemma_split_len(s: Seq<char>, d: Delimiter)
    ensures
        split(s, d).len() >= 1,
    decreases s.len(),
{
    if s.len() > 0 {
        lemma_split_len(s.drop_last(), d);
    }
}

/// No piece of a split holds a delimiter.
pub proof fn lemma_split_pieces(s: Seq<char>, d: Delimiter)
    ensures
        forall|k: int, j: int|
            0 <= k < split(s, d).len() && 0 <= j < split(s, d)[k].len() ==> !d.matches(
                #[trigger] split(s, d)[k][j],
            ),
    decreases s.len(),
{
    if s.len() > 0 {
        let head = split(s.drop_last(), d);
        lemma_split_pieces(s.drop_last(), d);
        lemma_split_len(s.drop_last(), d);
        assert forall|k: int, j: int|
            0 <= k < split(s, d).len() && 0 <= j < split(s, d)[k].len() implies !d.matches(
            #[trigger] split(s, d)[k][j],
        ) by {
            if k < head.len() - 1 {
                assert(split(s, d)[k] == head[k]);
            } else if d.matches(s.last()) {
                if k == head.len() - 1 {
                    assert(split(s, d)[k] == head[k]);
                }
            } else {
                assert(split(s, d)[k] == head.last().push(s.last()));
                if j < head.last().len() {
                    assert(split(s, d)[k][j] == head[head.len() - 1][j]);
                }
            }
        }
    }
}

/// Every piece that is kept is one of the given pieces and is not empty.
pub proof fn lemma_nonempty_members(segs: Seq<Seq<char>>)
    ensures
        forall|k: int|
            0 <= k < nonempty(segs).len() ==> (#[trigger] nonempty(segs)[k]).len() > 0
                && segs.contains(nonempty(segs)[k]),
    decreases segs.len(),
{
    if segs.len() > 0 {
        let head = nonempty(segs.drop_last());
        lemma_nonempty_members(segs.drop_last());
        assert forall|k: int| 0 <= k < nonempty(segs).len() implies (#[trigger] nonempty(
            segs,
        )[k]).len() > 0 && segs.contains(nonempty(segs)[k]) by {
            if k < head.len() {
                assert(nonempty(segs)[k] == head[k]);
                let i = choose|i: int| 0 <= i < segs.drop_last().len() && segs.drop_last()[i] == head[k];
                assert(segs[i] == head[k]);
            } else {
                assert(nonempty(segs)[k] == segs[segs.len() - 1]);
            }
        }
    }
}

/// Every word holds a character, and none that is white space.
pub proof fn lemma_words_shape(s: Seq<char>)
    ensures
        forall|k: int|
            0 <= k < words(s).len() ==> (#[trigger] words(s)[k]).len() > 0 && forall|j: int|
                0 <= j < words(s)[k].len() ==> !is_space(#[trigger] words(s)[k][j]),
{
    let pieces = split(s, Delimiter::WhiteSpace);
    lemma_split_pieces(s, Delimiter::WhiteSpace);
    lemma_nonempty_members(pieces);
    assert forall|k: int| 0 <= k < words(s).len() implies (#[trigger] words(s)[k]).len() > 0
        && forall|j: int| 0 <= j < words(s)[k].len() ==> !is_space(#[trigger] words(s)[k][j]) by {
        let w = words(s)[k];
        let i = choose|i: int| 0 <= i < pieces.len() && pieces[i] == w;
        assert forall|j: int| 0 <= j < w.len() implies !is_space(#[trigger] w[j]) by {
            assert(!Delimiter::WhiteSpace.matches(pieces[i][j]));
        }
    }
}

/// Every clause holds a character, neither begins nor ends with white
/// space, and holds no full stop and no line feed.
pub proof fn lemma_clauses_shape(s: Seq<char>)
    ensures
        forall|k: int|
            0 <= k < clauses(s).len() ==> {
                let c = #[trigger] clauses(s)[k];
                &&& c.len() > 0
                &&& !is_space(c[0])
                &&& !is_space(c.last())
                &&& forall|j: int| 0 <= j < c.len() ==> #[trigger] c[j] != '.' && c[j] != '\n'
            },
{
    let pieces = split(s, Delimiter::ClauseEnd);
    let cut = trim_each(pieces);
    lemma_split_pieces(s, Delimiter::ClauseEnd);
    lemma_nonempty_members(cut);
    assert forall|k: int| 0 <= k < clauses(s).len() implies {
        let c = #[trigger] clauses(s)[k];
        &&& c.len() > 0
        &&& !is_space(c[0])
        &&& !is_space(c.last())
        &&& forall|j: int| 0 <= j < c.len() ==> #[trigger] c[j] != '.' && c[j] != '\n'
    } by {
        let c = clauses(s)[k];
        let i = choose|i: int| 0 <= i < cut.len() && cut[i] == c;
        assert(c == trim(pieces[i]));
        let ends = lemma_trim_shape(pieces[i]);
        assert forall|j: int| 0 <= j < c.len() implies #[trigger] c[j] != '.' && c[j] != '\n' by {
            assert(c[j] == pieces[i][ends.0 + j]);
            assert(!Delimiter::ClauseEnd.matches(pieces[i][ends.0 + j]));
        }
    }
}

/// A text of white space only.
pub open spec fn is_blank_text(s: Seq<char>) -> bool {
    forall|i: int| 0 <= i < s.len() ==> is_space(#[trigger] s[i])
}

/// Where every character of `s` is a delimiter or white space, every piece
/// of `s` is blank.
pub proof fn lemma_split_blank(s: Seq<char>, d: Delimiter)
    requires
        forall|i: int| 0 <= i < s.len() ==> d.matches(#[trigger] s[i]) || is_space(s[i]),
    ensures
        forall|k: int| 0 <= k < split(s, d).len() ==> is_blank_text(#[trigger] split(s, d)[k]),
    decreases s.len(),
{
    if s.len() > 0 {
        let front = s.drop_last();
        assert forall|i: int| 0 <= i < front.len() implies d.matches(#[trigger] front[i])
            || is_space(front[i]) by {
            assert(front[i] == s[i]);
        }
        lemma_split_blank(front, d);
        lemma_split_len(front, d);
        let head = split(front, d);
        assert(s.last() == s[s.len() - 1]);
        assert forall|k: int| 0 <= k < split(s, d).len() implies is_blank_text(
            #[trigger] split(s, d)[k],
        ) by {
            if k < head.len() - 1 {
                assert(split(s, d)[k] == head[k]);
            } else if d.matches(s.last()) {
                if k == head.len() - 1 {
                    assert(split(s, d)[k] == head[k]);
                }
            } else {
                assert(is_blank_text(head[head.len() - 1]));
                assert(split(s, d)[k] == head.last().push(s.last()));
            }
        }
    }
}

/// Nothing is left of a blank text after trimming.
pub proof fn lemma_trim_blank(s: Seq<char>)
    requires
        is_blank_text(s),
    ensures
        trim(s).len() == 0,
    decreases s.len(),
{
    if s.len() > 0 {
        assert(is_space(s[0]));
        assert forall|i: int| 0 <= i < s.drop_first().len() implies is_space(
            #[trigger] s.drop_first()[i],
        ) by {
            assert(s.drop_first()[i] == s[i + 1]);
        }
        lemma_trim_blank(s.drop_first());
    }
}

/// Where every piece is empty, none is kept.
pub proof fn lemma_nonempty_none(segs: Seq<Seq<char>>)
    requires
        forall|k: int| 0 <= k < segs.len() ==> (#[trigger] segs[k]).len() == 0,
    ensures
        nonempty(segs).len() == 0,
    decreases segs.len(),
{
    if segs.len() > 0 {
        assert forall|k: int| 0 <= k < segs.drop_last().len() implies (#[trigger] segs.drop_last()[k]).len()
            == 0 by {
            assert(segs.drop_last()[k] == segs[k]);
        }
        lemma_nonempty_none(segs.drop_last());
        assert(segs.last() == segs[segs.len() - 1]);
    }
}

/// A document of full stops, line feeds and other white space only has no clauses.
pub proof fn lemma_separators_only(text: Seq<char>)
    requires
        forall|i: int| 0 <= i < text.len() ==> (#[trigger] text[i]) == '.' || is_space(text[i]),
    ensures
        clauses(text).len() == 0,
{
    let pieces = split(text, Delimiter::ClauseEnd);
    lemma_split_blank(text, Delimiter::ClauseEnd);
    assert forall|k: int| 0 <= k < trim_each(pieces).len() implies (#[trigger] trim_each(
        pieces,
    )[k]).len() == 0 by {
        assert(is_blank_text(pieces[k]));
        lemma_trim_blank(pieces[k]);
    }
    lemma_nonempty_none(trim_each(pieces));
}

/// Cuts `s` at every delimiter of class `d`.
pub fn split_on(s: &Vec<char>, d: Delimiter) -> (r: Vec<Vec<char>>)
    ensures
        views(r@) == split(s@, d),
        r.len() >= 1,
{
    let mut done: Vec<Vec<char>> = Vec::new();
    let mut cur: Vec<char> = Vec::new();
    let mut i: usize = 0;
    assert(views(done@).push(cur@) =~= split(s@.take(0), d));
    while i < s.len()
        invariant
            i <= s.len(),
            views(done@).push(cur@) == split(s@.take(i as int), d),
        decreases s.len() - i,
    {
        let c: char = s[i];
        let ghost before = views(done@).push(cur@);
        let ghost old_done = done@;
        let ghost old_cur = cur@;
        assert(s@.take(i + 1).drop_last() =~= s@.take(i as int));
        assert(s@.take(i + 1).last() == c);
        if d.test(c) {
            done.push(cur);
            cur = Vec::new();
            assert(views(done@) =~= before);
        } else {
            cur.push(c);
            assert(before.drop_last() =~= views(old_done));
            assert(before.last() == old_cur);
        }
        i += 1;
    }
    assert(s@.take(s.len() as int) =~= s@);
    let ghost all = views(done@).push(cur@);
    done.push(cur);
    assert(views(done@) =~= all);
    done
}

/// Keeps the pieces that are not empty.
pub fn keep_nonempty(segs: &Vec<Vec<char>>) -> (r: Vec<Vec<char>>)
    ensures
        views(r@) == nonempty(views(segs@)),
{
    let mut out: Vec<Vec<char>> = Vec::new();
    let mut i: usize = 0;
    let ghost src = views(segs@);
    assert(views(out@) =~= nonempty(src.take(0)));
    while i < segs.len()
        invariant
            i <= segs.len(),
            src == views(segs@),
            views(out@) == nonempty(src.take(i as int)),
        decreases segs.len() - i,
    {
        let ghost before = views(out@);
        assert(src.take(i + 1).drop_last() =~= src.take(i as int));
        assert(src.take(i + 1).last() == segs@[i as int]@);
        if segs[i].len() > 0 {
            let piece: Vec<char> = copy_range(&segs[i], 0, segs[i].len());
            assert(piece@ =~= segs@[i as int]@);
            out.push(piece);
            assert(views(out@) =~= before.push(segs@[i as int]@));
        }
        i += 1;
    }
    assert(src.take(segs.len() as int) =~= src);
    out
}

/// Trims every piece and keeps those that are not empty.
pub fn keep_trimmed(segs: &Vec<Vec<char>>) -> (r: Vec<Vec<char>>)
    ensures
        views(r@) == nonempty(trim_each(views(segs@))),
{
    let mut out: Vec<Vec<char>> = Vec::new();
    let mut i: usize = 0;
    let ghost src = trim_each(views(segs@));
    assert(views(out@) =~= nonempty(src.take(0)));
    while i < segs.len()
        invariant
            i <= segs.len(),
            src == trim_each(views(segs@)),
            views(out@) == nonempty(src.take(i as int)),
        decreases segs.len() - i,
    {
        let ghost before = views(out@);
        assert(src.take(i + 1).drop_last() =~= src.take(i as int));
        let piece: Vec<char> = trimmed(&segs[i]);
        assert(src.take(i + 1).last() == piece@);
        if piece.len() > 0 {
            out.push(piece);
            assert(views(out@) =~= before.push(src[i as int]));
        }
        i += 1;
    }
    assert(src.take(segs.len() as int) =~= src);
    out
}

/// The words of `s`, in order.
pub fn split_words(s: &Vec<char>) -> (r: Vec<Vec<char>>)
    ensures
        views(r@) == words(s@),
{
    let segs = split_on(s, Delimiter::WhiteSpace);
    keep_nonempty(&segs)
}

/// The clauses of `s`, in order of appearance.
pub fn split_clauses(s: &Vec<char>) -> (r: Vec<Vec<char>>)
    ensures
        views(r@) == clauses(s@),
{
    let segs = split_on(s, Delimiter::ClauseEnd);
    keep_trimmed(&segs)
}

/// The lines of `s`, in order.
pub fn split_lines(s: &Vec<char>) -> (r: Vec<Vec<char>>)
    ensures
        views(r@) == lines(s@),
{
    let segs = split_on(s, Delimiter::LineFeed);
    let last: usize = segs.len() - 1;
    let mut out: Vec<Vec<char>> = Vec::new();
    let mut i: usize = 0;
    let ghost src = views(segs@);
    let ghost body = Seq::new(last as nat, |k: int| strip_cr(src[k]));
    assert(views(out@) =~= body.take(0));
    while i < last
        invariant
            i <= last,
            last == segs.len() - 1,
            src == views(segs@),
            body == Seq::new(last as nat, |k: int| strip_cr(src[k])),
            views(out@) == body.take(i as int),
        decreases last - i,
    {
        let ghost before = views(out@);
        let seg = &segs[i];
        let n: usize = seg.len();
        let piece: Vec<char> = if n > 0 && seg[n - 1] == '\r' {
            copy_range(seg, 0, n - 1)
        } else {
            copy_range(seg, 0, n)
        };
        assert(piece@ =~= strip_cr(src[i as int]));
        out.push(piece);
        assert(body[i as int] == strip_cr(src[i as int]));
        assert(views(out@) =~= before.push(body[i as int]));
        assert(body.take(i + 1) =~= body.take(i as int).push(body[i as int]));
        i += 1;
    }
    assert(body.take(last as int) =~= body);
    if segs[last].len() > 0 {
        let piece: Vec<char> = copy_range(&segs[last], 0, segs[last].len());
        assert(piece@ =~= src.last());
        out.push(piece);
        assert(views(out@) =~= body.push(src.last()));
    }
    out
}

} // verus!
