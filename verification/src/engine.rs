//! Per-event decision logic for the actors around the prompt state.
//!
//! The input loop blocks on keystrokes and the compute actor blocks on the
//! evaluator; neither decision belongs in that plumbing. [`handle_key`] maps
//! one key event to the mutator calls it stands for and says what the caller
//! must do next; [`apply_evaluation`] writes one evaluator outcome back into
//! the state, screening the returned annotation before trusting it.

use vstd::prelude::*;

use crate::prompt::PromptState;
use crate::syntax::{check_spans, spans_wf, SyntaxToken};

verus! {

/// A key event, as the input loop reports it: a printable character, an
/// editing key, Enter, one of the quit combinations, or anything else.
#[derive(Clone, Copy, Debug, PartialEq, Eq, Structural)]
pub enum Key {
    Char(char),
    Left,
    Right,
    Backspace,
    Delete,
    Enter,
    CtrlC,
    CtrlD,
    Other,
}

/// What the input loop must do after a key has been applied: keep reading,
/// echo a committed line (carrying the hint that was current at commit), or
/// shut the session down.
#[derive(Clone, Debug, PartialEq, Eq)]
pub enum Outcome {
    Continue,
    Commit(String),
    Quit,
}

/// `c` is an ASCII character; only those are accepted into the buffer.
pub open spec fn is_ascii_char(c: char) -> bool {
    c <= '\u{7f}'
}

/// Apply one key event to the state and say what the caller does next.
///
/// Printable ASCII characters are inserted at the caret; non-ASCII
/// characters and unrecognized keys are ignored. Arrows move the caret,
/// Backspace and Delete edit around it. Enter commits: the line and the
/// annotation are cleared, the caret resets, and the hint as of the commit
/// is handed back for echoing. The quit combinations clear the hint (so the
/// parting repaint erases it) and ask for shutdown.
pub fn handle_key(st: &mut PromptState, key: Key) -> (out: Outcome)
    requires
        old(st).wf(),
    ensures
        final(st).wf(),
        key matches Key::Char(c) ==> {
            &&& is_ascii_char(c) ==> PromptState::insert_rel(*old(st), *final(st), c)
            &&& !is_ascii_char(c) ==> *final(st) == *old(st)
            &&& out == Outcome::Continue
        },
        key == Key::Left ==> PromptState::cursor_left_rel(*old(st), *final(st)) && out
            == Outcome::Continue,
        key == Key::Right ==> PromptState::cursor_right_rel(*old(st), *final(st)) && out
            == Outcome::Continue,
        key == Key::Backspace ==> PromptState::delete_backward_rel(*old(st), *final(st)) && out
            == Outcome::Continue,
        key == Key::Delete ==> PromptState::delete_forward_rel(*old(st), *final(st)) && out
            == Outcome::Continue,
        key == Key::Enter ==> {
            &&& final(st).input@ == Seq::<char>::empty()
            &&& final(st).cur_offset == 0
            &&& final(st).syntax_tokens is None
            &&& final(st).hint@ == Seq::<char>::empty()
            &&& final(st).dirty
            &&& (out matches Outcome::Commit(h) && h@ == old(st).hint@)
        },
        key == Key::CtrlC || key == Key::CtrlD ==> {
            &&& *final(st) == (PromptState { hint: final(st).hint, dirty: true, ..*old(st) })
            &&& final(st).hint@ == Seq::<char>::empty()
            &&& out == Outcome::Quit
        },
        key == Key::Other ==> *final(st) == *old(st) && out == Outcome::Continue,
{
    match key {
        Key::Char(c) => {
            if c <= '\u{7f}' {
                st.insert_input(c);
            }
            Outcome::Continue
        },
        Key::Left => {
            st.cursor_left();
            Outcome::Continue
        },
        Key::Right => {
            st.cursor_right();
            Outcome::Continue
        },
        Key::Backspace => {
            st.delete_backward();
            Outcome::Continue
        },
        Key::Delete => {
            st.delete_forward();
            Outcome::Continue
        },
        Key::Enter => {
            let committed = st.hint.clone();
            st.clear_hint();
            st.clear_input();
            Outcome::Commit(committed)
        },
        Key::CtrlC => {
            st.clear_hint();
            Outcome::Quit
        },
        Key::CtrlD => {
            st.clear_hint();
            Outcome::Quit
        },
        Key::Other => Outcome::Continue,
    }
}

/// Write one evaluator outcome back into the state.
///
/// A successful evaluation replaces the hint, and its token spans become the
/// highlight annotation — but only after they are checked against the
/// current buffer; a malformed annotation is dropped and rendering falls
/// back to plain text. A failed evaluation silently clears the hint.
pub fn apply_evaluation(st: &mut PromptState, result: Option<(String, Vec<SyntaxToken>)>)
    requires
        old(st).wf(),
    ensures
        final(st).wf(),
        final(st).input@ == old(st).input@,
        final(st).cur_offset == old(st).cur_offset,
        final(st).dirty,
        result matches Some(p) ==> {
            &&& final(st).hint@ == p.0@
            &&& spans_wf(p.1@, old(st).input@.len()) ==> final(st).syntax_tokens == Some(p.1)
            &&& !spans_wf(p.1@, old(st).input@.len()) ==> final(st).syntax_tokens is None
        },
        result is None ==> {
            &&& final(st).hint@ == Seq::<char>::empty()
            &&& final(st).syntax_tokens == old(st).syntax_tokens
        },
{
    match result {
        Some((output, tokens)) => {
            st.set_hint(output.as_str());
            if check_spans(&tokens, st.input.len()) {
                st.set_syntax_tokens(tokens);
            } else {
                st.clear_syntax_tokens();
            }
        },
        None => {
            st.clear_hint();
        },
    }
}

/// Advance the activity spinner to its next of `count` glyphs.
pub fn spinner_next(state: usize, count: usize) -> (next: usize)
    requires
        0 < count,
        state < count,
    ensures
        next == (state + 1) % (count as int),
        next < count,
{
    (state + 1) % count
}

} // verus!
