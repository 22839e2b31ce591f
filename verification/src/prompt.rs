//! The shared prompt state: text buffer, cursor, hint, highlight annotations
//! and the dirty flag.
//!
//! One instance is shared by the input loop, the background compute actor and
//! the periodic render actor; the binary guards it with a mutual-exclusion
//! lock and every access happens under that lock. The state itself is plain
//! data: each mutator below says exactly what it changes, marks the state
//! dirty, and keeps the invariant [`PromptState::wf`].

use vstd::prelude::*;
use vstd::string::StrSliceExecFns;

use crate::syntax::{spans_wf, SyntaxToken};

verus! {

/// The data shared between the input, compute and render actors.
///
/// `cur_offset` measures the caret position backwards from the end of
/// `input`: 0 means the caret sits after the last character. `syntax_tokens`
/// is `None` when no highlight annotation is available, which forces plain
/// rendering. `dirty` is true exactly when the state has changed since the
/// last repaint.
pub struct PromptState {
    pub dirty: bool,
    pub syntax_tokens: Option<Vec<SyntaxToken>>,
    pub cur_offset: usize,
    pub input: Vec<char>,
    pub hint: String,
}

impl PromptState {
    /// The caret never lies outside the buffer, and any highlight annotation
    /// present is well formed over the buffer.
    pub open spec fn wf(self) -> bool {
        &&& self.cur_offset <= self.input@.len()
        &&& match self.syntax_tokens {
            Some(toks) => spans_wf(toks@, self.input@.len()),
            None => true,
        }
    }

    /// The index of the caret counted from the start of the buffer.
    pub open spec fn caret(self) -> int {
        self.input@.len() - self.cur_offset
    }

    /// An empty, clean state: no input, no hint, no annotation, caret at the
    /// end.
    pub fn new() -> (s: Self)
        ensures
            s.wf(),
            !s.dirty,
            s.syntax_tokens is None,
            s.cur_offset == 0,
            s.input@ == Seq::<char>::empty(),
            s.hint@ == Seq::<char>::empty(),
    {
        Self {
            dirty: false,
            syntax_tokens: None,
            cur_offset: 0,
            input: Vec::new(),
            hint: String::new(),
        }
    }

    /// Mark the state as dirty after mutating one or more fields.
    pub fn mark_dirty(&mut self)
        ensures
            Self::mark_dirty_rel(*old(self), *final(self)),
    {
        self.dirty = true;
    }

    /// Mark the state as repainted; only the render path calls this.
    pub fn mark_clean(&mut self)
        ensures
            *final(self) == (PromptState { dirty: false, ..*old(self) }),
    {
        self.dirty = false;
    }

    /// What [`Self::insert_input`] does: the character goes in at the caret,
    /// the offset from the end and the hint are kept, the annotation is
    /// dropped and the state is dirty.
    pub open spec fn insert_rel(pre: PromptState, post: PromptState, c: char) -> bool {
        &&& post.input@ == pre.input@.insert(pre.caret(), c)
        &&& post.cur_offset == pre.cur_offset
        &&& post.hint == pre.hint
        &&& post.syntax_tokens is None
        &&& post.dirty
    }

    /// What [`Self::delete_backward`] does: with the caret past the start,
    /// the character before it goes away and all else but the annotation and
    /// the dirty flag is kept; with the caret at the start, nothing happens.
    pub open spec fn delete_backward_rel(pre: PromptState, post: PromptState) -> bool {
        &&& pre.caret() > 0 ==> {
            &&& post.input@ == pre.input@.remove(pre.caret() - 1)
            &&& post.cur_offset == pre.cur_offset
            &&& post.hint == pre.hint
            &&& post.syntax_tokens is None
            &&& post.dirty
        }
        &&& pre.caret() <= 0 ==> post == pre
    }

    /// What [`Self::delete_forward`] does: with the caret short of the end,
    /// the character at it goes away and the offset shrinks by one; with the
    /// caret at the end, nothing happens.
    pub open spec fn delete_forward_rel(pre: PromptState, post: PromptState) -> bool {
        &&& pre.cur_offset > 0 ==> {
            &&& post.input@ == pre.input@.remove(pre.caret())
            &&& post.cur_offset == pre.cur_offset - 1
            &&& post.hint == pre.hint
            &&& post.syntax_tokens is None
            &&& post.dirty
        }
        &&& pre.cur_offset == 0 ==> post == pre
    }

    /// What [`Self::cursor_left`] does: the offset grows by one unless that
    /// would take it past the buffer length.
    pub open spec fn cursor_left_rel(pre: PromptState, post: PromptState) -> bool {
        &&& pre.cur_offset < pre.input@.len() ==> post == (PromptState {
            cur_offset: (pre.cur_offset + 1) as usize,
            dirty: true,
            ..pre
        })
        &&& pre.cur_offset >= pre.input@.len() ==> post == pre
    }

    /// What [`Self::cursor_right`] does: the offset shrinks by one unless it
    /// is already zero.
    pub open spec fn cursor_right_rel(pre: PromptState, post: PromptState) -> bool {
        &&& pre.cur_offset > 0 ==> post == (PromptState {
            cur_offset: (pre.cur_offset - 1) as usize,
            dirty: true,
            ..pre
        })
        &&& pre.cur_offset == 0 ==> post == pre
    }

    /// What [`Self::mark_dirty`] does.
    pub open spec fn mark_dirty_rel(pre: PromptState, post: PromptState) -> bool {
        post == (PromptState { dirty: true, ..pre })
    }

    /// What [`Self::set_hint`] — and, with `h` empty, [`Self::clear_hint`] —
    /// does: the hint becomes `h`, all else is kept, the state is dirty.
    pub open spec fn set_hint_rel(pre: PromptState, post: PromptState, h: Seq<char>) -> bool {
        &&& post == (PromptState { hint: post.hint, dirty: true, ..pre })
        &&& post.hint@ == h
    }

    /// What [`Self::set_syntax_tokens`] does.
    pub open spec fn set_tokens_rel(
        pre: PromptState,
        post: PromptState,
        toks: Vec<SyntaxToken>,
    ) -> bool {
        post == (PromptState { syntax_tokens: Some(toks), dirty: true, ..pre })
    }

    /// What [`Self::clear_syntax_tokens`] does.
    pub open spec fn clear_tokens_rel(pre: PromptState, post: PromptState) -> bool {
        post == (PromptState { syntax_tokens: None, dirty: true, ..pre })
    }

    /// What [`Self::clear_input`] does.
    pub open spec fn clear_input_rel(pre: PromptState, post: PromptState) -> bool {
        &&& post == (PromptState {
            input: post.input,
            cur_offset: 0,
            syntax_tokens: None,
            dirty: true,
            ..pre
        })
        &&& post.input@ == Seq::<char>::empty()
    }

    /// What [`Self::append_input`] does.
    pub open spec fn append_rel(pre: PromptState, post: PromptState, s: Seq<char>) -> bool {
        &&& post.input@ == pre.input@ + s
        &&& post.cur_offset == pre.cur_offset
        &&& post.hint == pre.hint
        &&& post.syntax_tokens == pre.syntax_tokens
        &&& post.dirty
    }

    /// One call of any mutator, whichever it was and with whatever argument.
    /// `mark_clean` is not among them: only the repaint path calls that.
    pub open spec fn mutator_step(pre: PromptState, post: PromptState) -> bool {
        ||| exists|c: char| Self::insert_rel(pre, post, c)
        ||| Self::delete_backward_rel(pre, post)
        ||| Self::delete_forward_rel(pre, post)
        ||| Self::cursor_left_rel(pre, post)
        ||| Self::cursor_right_rel(pre, post)
        ||| exists|h: Seq<char>| Self::set_hint_rel(pre, post, h)
        ||| exists|toks: Vec<SyntaxToken>| Self::set_tokens_rel(pre, post, toks)
        ||| Self::clear_tokens_rel(pre, post)
        ||| Self::clear_input_rel(pre, post)
        ||| exists|s: Seq<char>| Self::append_rel(pre, post, s)
        ||| Self::mark_dirty_rel(pre, post)
    }

    /// Append a whole string at the end of the buffer. The caret offset —
    /// measured from the end — is unchanged, and an annotation stays: the
    /// old ranges still lie within the grown buffer.
    pub fn append_input(&mut self, input: &str)
        requires
            old(self).wf(),
        ensures
            Self::append_rel(*old(self), *final(self), input@),
            final(self).wf(),
    {
        let n = input.unicode_len();
        let mut i: usize = 0;
        while i < n
            invariant
                i <= n,
                n == input@.len(),
                self.input@ == old(self).input@ + input@.subrange(0, i as int),
                self.cur_offset == old(self).cur_offset,
                self.hint == old(self).hint,
                self.syntax_tokens == old(self).syntax_tokens,
                self.dirty == old(self).dirty,
            decreases n - i,
        {
            let c = input.get_char(i);
            self.input.push(c);
            proof {
                assert(old(self).input@ + input@.subrange(0, i + 1) =~= (old(self).input@
                    + input@.subrange(0, i as int)).push(input@[i as int]));
            }
            i += 1;
        }
        proof {
            assert(input@.subrange(0, n as int) =~= input@);
        }
        self.mark_dirty();
    }

    /// Insert `c` at the caret. The offset from the end is unchanged, so the
    /// caret stays just after the inserted character. The annotation is
    /// dropped: its positions may no longer match the buffer.
    pub fn insert_input(&mut self, c: char)
        requires
            old(self).wf(),
        ensures
            Self::insert_rel(*old(self), *final(self), c),
            final(self).wf(),
    {
        let idx = self.input.len() - self.cur_offset;
        self.input.insert(idx, c);
        self.syntax_tokens = None;
        self.mark_dirty();
    }

    /// Remove the character just before the caret, if there is one; a no-op
    /// when the caret is at the start. Removal drops the annotation.
    pub fn delete_backward(&mut self)
        requires
            old(self).wf(),
        ensures
            Self::delete_backward_rel(*old(self), *final(self)),
            final(self).wf(),
    {
        let cursor_idx = self.input.len() - self.cur_offset;
        if cursor_idx > 0 {
            self.input.remove(cursor_idx - 1);
            self.syntax_tokens = None;
            self.mark_dirty();
        }
    }

    /// Remove the character at the caret, if there is one, and pull the
    /// caret offset in by one; a no-op when the caret is at the end.
    /// Removal drops the annotation.
    pub fn delete_forward(&mut self)
        requires
            old(self).wf(),
        ensures
            Self::delete_forward_rel(*old(self), *final(self)),
            final(self).wf(),
    {
        if self.cur_offset > 0 {
            let idx = self.input.len() - self.cur_offset;
            self.input.remove(idx);
            self.cur_offset -= 1;
            self.syntax_tokens = None;
            self.mark_dirty();
        }
    }

    /// Move the caret one step toward the start of the buffer, clamped so
    /// that the offset never exceeds the buffer length.
    pub fn cursor_left(&mut self)
        requires
            old(self).wf(),
        ensures
            Self::cursor_left_rel(*old(self), *final(self)),
            final(self).cur_offset <= final(self).input@.len(),
            final(self).wf(),
    {
        if self.cur_offset < self.input.len() {
            self.cur_offset += 1;
            self.mark_dirty();
        }
    }

    /// Move the caret one step toward the end of the buffer, clamped so that
    /// the offset never drops below zero.
    pub fn cursor_right(&mut self)
        requires
            old(self).wf(),
        ensures
            Self::cursor_right_rel(*old(self), *final(self)),
            final(self).cur_offset <= final(self).input@.len(),
            final(self).wf(),
    {
        if self.cur_offset > 0 {
            self.cur_offset -= 1;
            self.mark_dirty();
        }
    }

    /// Replace the hint text.
    pub fn set_hint(&mut self, hint: &str)
        ensures
            Self::set_hint_rel(*old(self), *final(self), hint@),
            old(self).wf() ==> final(self).wf(),
    {
        self.hint = hint.to_owned();
        self.mark_dirty();
    }

    /// Empty the hint text.
    pub fn clear_hint(&mut self)
        ensures
            Self::set_hint_rel(*old(self), *final(self), Seq::<char>::empty()),
            old(self).wf() ==> final(self).wf(),
    {
        self.hint = String::new();
        self.mark_dirty();
    }

    /// Install a highlight annotation. The caller vouches for its validity
    /// over the current buffer; annotations of unknown provenance go through
    /// [`crate::syntax::check_spans`] first.
    pub fn set_syntax_tokens(&mut self, tokens: Vec<SyntaxToken>)
        requires
            old(self).wf(),
            spans_wf(tokens@, old(self).input@.len()),
        ensures
            Self::set_tokens_rel(*old(self), *final(self), tokens),
            final(self).wf(),
    {
        self.syntax_tokens = Some(tokens);
        self.mark_dirty();
    }

    /// Drop the highlight annotation, forcing plain rendering.
    pub fn clear_syntax_tokens(&mut self)
        ensures
            Self::clear_tokens_rel(*old(self), *final(self)),
            old(self).wf() ==> final(self).wf(),
    {
        self.syntax_tokens = None;
        self.mark_dirty();
    }

    /// Empty the buffer, reset the caret and drop the annotation, as on
    /// committing a line. The hint is left alone.
    pub fn clear_input(&mut self)
        ensures
            Self::clear_input_rel(*old(self), *final(self)),
            final(self).wf(),
    {
        self.input.clear();
        self.cur_offset = 0;
        self.syntax_tokens = None;
        self.mark_dirty();
    }
}

/// Insert/delete round trip: from any well-formed state, inserting a
/// character and immediately deleting backward restores the buffer and the
/// cursor offset.
pub proof fn lemma_insert_delete_round_trip(
    s0: PromptState,
    s1: PromptState,
    s2: PromptState,
    c: char,
)
    requires
        s0.wf(),
        PromptState::insert_rel(s0, s1, c),
        PromptState::delete_backward_rel(s1, s2),
    ensures
        s2.input@ == s0.input@,
        s2.cur_offset == s0.cur_offset,
{
    assert(s1.caret() == s0.caret() + 1);
    assert(s2.input@ == s1.input@.remove(s0.caret()));
    assert(s0.input@.insert(s0.caret(), c).remove(s0.caret()) =~= s0.input@);
}

/// Cursor clamping: a cursor move from a well-formed state never takes the
/// offset outside `0..=len(buffer)`; with the offset a natural number, the
/// content is that it never exceeds the buffer length.
pub proof fn lemma_cursor_clamped(pre: PromptState, post: PromptState)
    requires
        pre.wf(),
        PromptState::cursor_left_rel(pre, post) || PromptState::cursor_right_rel(pre, post),
    ensures
        post.cur_offset <= post.input@.len(),
{
}

/// Any single mutator call either changes nothing or leaves the state
/// dirty.
pub proof fn lemma_mutator_step_dirty_or_same(pre: PromptState, post: PromptState)
    requires
        PromptState::mutator_step(pre, post),
    ensures
        post == pre || post.dirty,
{
}

/// Along any run of mutator calls, the end state either equals the start
/// state or is dirty: once some call changed something, the dirty flag
/// stays up until a repaint takes it down.
pub proof fn lemma_mutator_trace_dirty_or_same(trace: Seq<PromptState>)
    requires
        trace.len() >= 1,
        forall|i: int|
            0 <= i < trace.len() - 1 ==> #[trigger] PromptState::mutator_step(
                trace[i],
                trace[i + 1],
            ),
    ensures
        trace.last() == trace[0] || trace.last().dirty,
    decreases trace.len(),
{
    if trace.len() > 1 {
        let prefix = trace.drop_last();
        assert forall|i: int| 0 <= i < prefix.len() - 1 implies #[trigger] PromptState::mutator_step(
            prefix[i],
            prefix[i + 1],
        ) by {
            assert(prefix[i] == trace[i]);
            assert(prefix[i + 1] == trace[i + 1]);
            assert(PromptState::mutator_step(trace[i], trace[i + 1]));
        }
        lemma_mutator_trace_dirty_or_same(prefix);
        let k: int = trace.len() - 2;
        assert(PromptState::mutator_step(trace[k], trace[k + 1]));
        lemma_mutator_step_dirty_or_same(trace[k], trace.last());
    }
}

/// Highlight invalidation: an insert, or a delete that actually removes a
/// character, always leaves the state without a highlight annotation.
pub proof fn lemma_mutation_invalidates_highlight(
    pre: PromptState,
    post: PromptState,
    c: char,
)
    requires
        PromptState::insert_rel(pre, post, c) || (pre.caret() > 0
            && PromptState::delete_backward_rel(pre, post)) || (pre.cur_offset > 0
            && PromptState::delete_forward_rel(pre, post)),
    ensures
        post.syntax_tokens is None,
{
}

} // verus!
