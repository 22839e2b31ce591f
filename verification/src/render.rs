//! The render formatter and the per-tick repaint decision.
//!
//! A [`Frame`] is everything one repaint needs: the prompt prefix, the
//! buffer broken into styled fragments, the hint text, and the column the
//! terminal cursor must end up in. [`render_frame`] builds it as a pure
//! function of the prompt state; [`render_tick`] is the action the periodic
//! render task runs — it repaints only when the state is dirty, and marks it
//! clean, so consecutive ticks without an intervening mutation repaint at
//! most once.

use vstd::prelude::*;

use crate::prompt::PromptState;
use crate::syntax::{frags_model, highlight_model, Fragment, SyntaxToken};

verus! {

/// One repaint's worth of output: prefix, styled body fragments, hint, and
/// the column the caret belongs in.
pub struct Frame {
    pub prefix: Vec<char>,
    pub frags: Vec<Fragment>,
    pub hint: String,
    pub cursor_col: usize,
}

/// `f` is the faithful rendering of `st` behind the prompt prefix: the body
/// fragments follow the highlight annotation (plain throughout when there is
/// none), the hint is carried verbatim, and the cursor column is the prefix
/// width plus the caret position inside the buffer.
pub open spec fn frame_matches(f: Frame, st: PromptState, prefix: Seq<char>) -> bool {
    &&& f.prefix@ == prefix
    &&& f.hint@ == st.hint@
    &&& f.cursor_col == prefix.len() + st.input@.len() - st.cur_offset
    &&& match st.syntax_tokens {
        Some(toks) => frags_model(f.frags@) == highlight_model(st.input@, toks@, 0),
        None => frags_model(f.frags@) == highlight_model(
            st.input@,
            Seq::<SyntaxToken>::empty(),
            0,
        ),
    }
}

/// Render the state into a frame. Pure: reads the state's fields only.
pub fn render_frame(prefix: &Vec<char>, st: &PromptState) -> (f: Frame)
    requires
        st.wf(),
        prefix@.len() + st.input@.len() <= usize::MAX,
    ensures
        frame_matches(f, *st, prefix@),
{
    let frags = match &st.syntax_tokens {
        Some(toks) => crate::syntax::syntax_highlight(&st.input, toks),
        None => {
            let no_tokens: Vec<SyntaxToken> = Vec::new();
            crate::syntax::syntax_highlight(&st.input, &no_tokens)
        },
    };
    let cursor_col = prefix.len() + st.input.len() - st.cur_offset;
    Frame { prefix: prefix.clone(), frags, hint: st.hint.clone(), cursor_col }
}

/// How one render tick relates the state before (`pre`) and after (`post`)
/// and what it put out: a clean state passes untouched with no output; a
/// dirty state is rendered — the frame reflecting exactly `pre` — and marked
/// clean. Either way the state ends clean.
pub open spec fn render_tick_rel(
    pre: PromptState,
    post: PromptState,
    out: Option<Frame>,
    prefix: Seq<char>,
) -> bool {
    &&& !pre.dirty ==> out is None && post == pre
    &&& pre.dirty ==> (out matches Some(f) && frame_matches(f, pre, prefix)) && post
        == (PromptState { dirty: false, ..pre })
    &&& !post.dirty
}

/// One tick of the periodic render task: repaint only when dirty, then mark
/// clean. Returns the frame to write, or `None` when nothing changed since
/// the last repaint.
pub fn render_tick(st: &mut PromptState, prefix: &Vec<char>) -> (out: Option<Frame>)
    requires
        old(st).wf(),
        prefix@.len() + old(st).input@.len() <= usize::MAX,
    ensures
        render_tick_rel(*old(st), *final(st), out, prefix@),
        final(st).wf(),
{
    if !st.dirty {
        return None;
    }
    let frame = render_frame(prefix, st);
    st.mark_clean();
    Some(frame)
}

/// Repaints coalesce: however many mutations happened before the first of
/// two back-to-back render ticks, the first repaints at most once — showing
/// the state as the mutations left it — and the second, with nothing changed
/// in between, repaints nothing and leaves the state as it was.
pub proof fn lemma_repaint_coalesces(
    s0: PromptState,
    s1: PromptState,
    s2: PromptState,
    o1: Option<Frame>,
    o2: Option<Frame>,
    prefix: Seq<char>,
)
    requires
        render_tick_rel(s0, s1, o1, prefix),
        render_tick_rel(s1, s2, o2, prefix),
    ensures
        o2 is None,
        s2 == s1,
        s0.dirty ==> (o1 matches Some(f) && frame_matches(f, s0, prefix)),
{
}

/// Dirty-flag coalescing in full: start from the clean state the last
/// repaint left behind, run any number of mutator calls, then let the
/// render task tick twice. If any call changed anything, the first tick
/// repaints exactly once, showing the state as the calls left it; if none
/// did, it repaints nothing; and the second tick never repaints — N
/// mutations never yield N repaints.
pub proof fn lemma_mutations_coalesce(
    trace: Seq<PromptState>,
    t1: PromptState,
    t2: PromptState,
    o1: Option<Frame>,
    o2: Option<Frame>,
    prefix: Seq<char>,
)
    requires
        trace.len() >= 2,
        !trace[0].dirty,
        forall|i: int|
            0 <= i < trace.len() - 1 ==> #[trigger] PromptState::mutator_step(
                trace[i],
                trace[i + 1],
            ),
        render_tick_rel(trace.last(), t1, o1, prefix),
        render_tick_rel(t1, t2, o2, prefix),
    ensures
        trace.last() != trace[0] ==> (o1 matches Some(f) && frame_matches(
            f,
            trace.last(),
            prefix,
        )),
        trace.last() == trace[0] ==> o1 is None,
        o2 is None,
        t2 == t1,
{
    crate::prompt::lemma_mutator_trace_dirty_or_same(trace);
}

} // verus!
