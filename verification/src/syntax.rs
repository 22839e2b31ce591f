//! Highlight annotations over the input buffer.
//!
//! The expression evaluator tags ranges of the input with token categories.
//! Here those categories are mapped to a fixed colour palette, and a span of
//! the buffer together with its colour forms a [`SyntaxToken`]. The renderer
//! consumes an ordered, non-overlapping sequence of such tokens.

use vstd::prelude::*;

verus! {

/// A display colour from the fixed palette used by the highlighter.
#[derive(Clone, Copy, Debug, PartialEq, Eq, Structural)]
pub enum Color {
    White,
    Cyan,
    Red,
    Yellow,
}

/// The category the evaluator assigns to a token of the input text.
#[derive(Clone, Copy, Debug, PartialEq, Eq, Structural)]
pub enum TokenKind {
    Text,
    Number,
    Symbol1,
    Symbol2,
    DateTime,
    Operator,
    Comment,
    VariableDefination,
    VariableUse,
    Month,
}

/// A half-open range `start..end` over the input buffer, tagged with the
/// colour its text should be drawn in.
#[derive(Clone, Copy, Debug, PartialEq, Eq, Structural)]
pub struct SyntaxToken {
    pub start: usize,
    pub end: usize,
    pub color: Color,
}

/// The colour the palette assigns to a token category.
pub open spec fn color_of_kind(kind: TokenKind) -> Color {
    match kind {
        TokenKind::Number => Color::Cyan,
        TokenKind::Symbol1 => Color::Red,
        TokenKind::Symbol2 => Color::Red,
        TokenKind::Operator => Color::Yellow,
        _ => Color::White,
    }
}

/// Map a token category to its display colour.
pub fn syntax_color(kind: TokenKind) -> (c: Color)
    ensures
        c == color_of_kind(kind),
{
    match kind {
        TokenKind::Number => Color::Cyan,
        TokenKind::Symbol1 => Color::Red,
        TokenKind::Symbol2 => Color::Red,
        TokenKind::Operator => Color::Yellow,
        _ => Color::White,
    }
}

/// Tokens are well formed over a buffer of length `len` when each range is
/// ordered and in bounds, and consecutive ranges do not overlap.
pub open spec fn spans_wf(toks: Seq<SyntaxToken>, len: nat) -> bool {
    &&& forall|i: int|
        0 <= i < toks.len() ==> (#[trigger] toks[i]).start <= toks[i].end && toks[i].end <= len
    &&& forall|i: int| 0 < i < toks.len() ==> toks[i - 1].end <= (#[trigger] toks[i]).start
}

/// Decide whether `toks` is a well-formed annotation for a buffer of length
/// `len`: ranges ordered, in bounds, and non-overlapping. Annotations coming
/// back from the evaluator are screened with this before they are trusted by
/// the renderer.
/// A run of buffer text to be drawn in one style: either plain (`None`) or
/// in a palette colour.
#[derive(Clone, Debug, PartialEq, Eq)]
pub struct Fragment {
    pub text: Vec<char>,
    pub color: Option<Color>,
}

impl View for Fragment {
    type V = (Seq<char>, Option<Color>);

    open spec fn view(&self) -> Self::V {
        (self.text@, self.color)
    }
}

/// The fragments of each element of `fs`, in order.
pub open spec fn frags_model(fs: Seq<Fragment>) -> Seq<(Seq<char>, Option<Color>)> {
    fs.map_values(|f: Fragment| f@)
}

/// The fragment sequence the highlighter owes for the part of `s` from
/// `index` on, given the remaining tokens: for each token, the plain gap
/// before it (if any) and then its coloured range; after the last token, the
/// plain tail of the buffer (if any).
pub open spec fn highlight_model(
    s: Seq<char>,
    toks: Seq<SyntaxToken>,
    index: int,
) -> Seq<(Seq<char>, Option<Color>)>
    decreases toks.len(),
{
    if toks.len() == 0 {
        if index < s.len() {
            seq![(s.subrange(index, s.len() as int), Option::<Color>::None)]
        } else {
            Seq::empty()
        }
    } else {
        let t = toks[0];
        let gap: Seq<(Seq<char>, Option<Color>)> = if index < t.start {
            seq![(s.subrange(index, t.start as int), Option::<Color>::None)]
        } else {
            Seq::empty()
        };
        gap + seq![(s.subrange(t.start as int, t.end as int), Some(t.color))]
            + highlight_model(s, toks.drop_first(), t.end as int)
    }
}

/// Copy the characters `from..to` of `s` into a fresh vector.
fn copy_range(s: &Vec<char>, from: usize, to: usize) -> (r: Vec<char>)
    requires
        from <= to <= s@.len(),
    ensures
        r@ == s@.subrange(from as int, to as int),
{
    let mut r: Vec<char> = Vec::new();
    let mut i: usize = from;
    while i < to
        invariant
            from <= i <= to <= s@.len(),
            r@ == s@.subrange(from as int, i as int),
        decreases to - i,
    {
        let c = s[i];
        r.push(c);
        proof {
            assert(s@.subrange(from as int, i + 1) =~= s@.subrange(from as int, i as int).push(
                s@[i as int],
            ));
        }
        i += 1;
    }
    r
}

/// Turn the buffer and its (well-formed) highlight annotation into the
/// ordered fragment sequence described by [`highlight_model`]: unannotated
/// stretches plain, annotated ranges in their token's colour.
#[verifier::rlimit(80)]
pub fn syntax_highlight(s: &Vec<char>, tokens: &Vec<SyntaxToken>) -> (frags: Vec<Fragment>)
    requires
        spans_wf(tokens@, s@.len()),
    ensures
        frags_model(frags@) == highlight_model(s@, tokens@, 0),
{
    let n = tokens.len();
    let mut frags: Vec<Fragment> = Vec::new();
    let mut index: usize = 0;
    let mut i: usize = 0;
    proof {
        assert(tokens@.skip(0) =~= tokens@);
        assert(frags_model(frags@) =~= Seq::<(Seq<char>, Option<Color>)>::empty());
        assert(frags_model(frags@) + highlight_model(s@, tokens@, 0) =~= highlight_model(
            s@,
            tokens@,
            0,
        ));
    }
    while i < n
        invariant
            i <= n,
            n == tokens@.len(),
            spans_wf(tokens@, s@.len()),
            i == 0 ==> index == 0,
            i > 0 ==> index == tokens@[i - 1].end,
            index <= s@.len(),
            highlight_model(s@, tokens@, 0) == frags_model(frags@) + highlight_model(
                s@,
                tokens@.skip(i as int),
                index as int,
            ),
        decreases n - i,
    {
        let t = tokens[i];
        let ghost rest = tokens@.skip(i as int);
        let ghost index0: int = index as int;
        let ghost frags0 = frags@;
        proof {
            assert(rest[0] == tokens@[i as int]);
            assert(rest.drop_first() =~= tokens@.skip(i + 1));
        }
        if index < t.start {
            let gap = Fragment { text: copy_range(s, index, t.start), color: None };
            let ghost pre = frags@;
            frags.push(gap);
            proof {
                lemma_frags_model_push(pre, gap);
            }
        }
        let colored = Fragment { text: copy_range(s, t.start, t.end), color: Some(t.color) };
        let ghost pre = frags@;
        frags.push(colored);
        proof {
            lemma_frags_model_push(pre, colored);
            let gapseq: Seq<(Seq<char>, Option<Color>)> = if index0 < t.start {
                seq![(s@.subrange(index0, t.start as int), Option::<Color>::None)]
            } else {
                Seq::empty()
            };
            let tokseq: Seq<(Seq<char>, Option<Color>)> = seq![
                (s@.subrange(t.start as int, t.end as int), Some(t.color)),
            ];
            assert(highlight_model(s@, rest, index0) == gapseq + tokseq + highlight_model(
                s@,
                tokens@.skip(i + 1),
                t.end as int,
            ));
            assert(frags_model(frags@) =~= frags_model(frags0) + gapseq + tokseq);
            assert(frags_model(frags0) + (gapseq + tokseq + highlight_model(
                s@,
                tokens@.skip(i + 1),
                t.end as int,
            )) =~= (frags_model(frags0) + gapseq + tokseq) + highlight_model(
                s@,
                tokens@.skip(i + 1),
                t.end as int,
            ));
        }
        index = t.end;
        i += 1;
    }
    proof {
        assert(tokens@.skip(n as int) =~= Seq::<SyntaxToken>::empty());
    }
    if index < s.len() {
        let tail = Fragment { text: copy_range(s, index, s.len()), color: None };
        let ghost pre = frags@;
        frags.push(tail);
        proof {
            lemma_frags_model_push(pre, tail);
        }
    }
    frags
}

/// Appending one fragment appends exactly its model.
proof fn lemma_frags_model_push(fs: Seq<Fragment>, f: Fragment)
    ensures
        frags_model(fs.push(f)) == frags_model(fs) + seq![f@],
{
    assert(frags_model(fs.push(f)) =~= frags_model(fs) + seq![f@]);
}

#[verifier::rlimit(50)]
pub fn check_spans(toks: &Vec<SyntaxToken>, len: usize) -> (ok: bool)
    ensures
        ok == spans_wf(toks@, len as nat),
{
    let n = toks.len();
    let mut i: usize = 0;
    while i < n
        invariant
            i <= n,
            n == toks@.len(),
            forall|j: int|
                0 <= j < i ==> (#[trigger] toks@[j]).start <= toks@[j].end && toks@[j].end
                    <= len,
            forall|j: int| 0 < j < i ==> toks@[j - 1].end <= (#[trigger] toks@[j]).start,
        decreases n - i,
    {
        let t = toks[i];
        if !(t.start <= t.end && t.end <= len) {
            proof {
                assert(!(toks@[i as int].start <= toks@[i as int].end && toks@[i as int].end
                    <= len));
            }
            return false;
        }
        if i > 0 && toks[i - 1].end > t.start {
            proof {
                assert(!(toks@[i as int - 1].end <= toks@[i as int].start));
            }
            return false;
        }
        i += 1;
    }
    true
}

} // verus!
