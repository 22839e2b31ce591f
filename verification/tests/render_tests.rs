use colored::Colorize;
use smartcalc_tui::prompt::PromptState;
use smartcalc_tui::render::{render_frame, render_tick};
use smartcalc_tui::syntax::{syntax_highlight, Color, Fragment, SyntaxToken};

fn chars(s: &str) -> Vec<char> {
    s.chars().collect()
}

fn text_of(f: &Fragment) -> String {
    f.text.iter().collect()
}

/// Format a fragment the way the terminal writer does: plain text as is,
/// coloured text through the palette.
fn paint(f: &Fragment) -> String {
    let text = text_of(f);
    match f.color {
        None => text,
        Some(Color::White) => format!("{}", text.white()),
        Some(Color::Cyan) => format!("{}", text.cyan()),
        Some(Color::Red) => format!("{}", text.red()),
        Some(Color::Yellow) => format!("{}", text.yellow()),
    }
}

fn paint_all(frags: &[Fragment]) -> String {
    let mut output = String::with_capacity(128);
    for f in frags {
        output.push_str(&paint(f));
    }
    output
}

#[test]
fn test_syntax_highlight() {
    let mut tokens = Vec::new();
    assert_eq!(paint_all(&syntax_highlight(&chars(""), &tokens)), "");

    // skipping whitespace
    assert_eq!(paint_all(&syntax_highlight(&chars("foo bar"), &tokens)), "foo bar");
    tokens.push(SyntaxToken { start: 0, end: 3, color: Color::Cyan });
    assert_eq!(
        paint_all(&syntax_highlight(&chars("foo bar"), &tokens)),
        format!("{} bar", "foo".cyan())
    );
    tokens.push(SyntaxToken { start: 4, end: 7, color: Color::Red });
    assert_eq!(
        paint_all(&syntax_highlight(&chars("foo bar"), &tokens)),
        format!("{} {}", "foo".cyan(), "bar".red())
    );

    // skipping text at the start
    let tokens = vec![SyntaxToken { start: 4, end: 7, color: Color::Red }];
    assert_eq!(
        paint_all(&syntax_highlight(&chars("foo bar"), &tokens)),
        format!("foo {}", "bar".red())
    );
}

#[test]
fn formatter_number_span() {
    let frags = syntax_highlight(
        &chars("foo bar"),
        &vec![SyntaxToken { start: 0, end: 3, color: Color::Cyan }],
    );
    assert_eq!(frags.len(), 2);
    assert_eq!(text_of(&frags[0]), "foo");
    assert_eq!(frags[0].color, Some(Color::Cyan));
    assert_eq!(text_of(&frags[1]), " bar");
    assert_eq!(frags[1].color, None);
}

#[test]
fn formatter_number_and_symbol_spans() {
    let frags = syntax_highlight(
        &chars("foo bar"),
        &vec![
            SyntaxToken { start: 0, end: 3, color: Color::Cyan },
            SyntaxToken { start: 4, end: 7, color: Color::Red },
        ],
    );
    assert_eq!(frags.len(), 3);
    assert_eq!(text_of(&frags[0]), "foo");
    assert_eq!(frags[0].color, Some(Color::Cyan));
    assert_eq!(text_of(&frags[1]), " ");
    assert_eq!(frags[1].color, None);
    assert_eq!(text_of(&frags[2]), "bar");
    assert_eq!(frags[2].color, Some(Color::Red));
}

#[test]
fn formatter_symbol_span_only() {
    let frags = syntax_highlight(
        &chars("foo bar"),
        &vec![SyntaxToken { start: 4, end: 7, color: Color::Red }],
    );
    assert_eq!(frags.len(), 2);
    assert_eq!(text_of(&frags[0]), "foo ");
    assert_eq!(frags[0].color, None);
    assert_eq!(text_of(&frags[1]), "bar");
    assert_eq!(frags[1].color, Some(Color::Red));
}

#[test]
fn formatter_empty_buffer_no_spans() {
    let frags = syntax_highlight(&chars(""), &Vec::new());
    assert!(frags.is_empty());
}

#[test]
fn render_frame_carries_prefix_hint_and_cursor_column() {
    let mut st = PromptState::new();
    st.insert_input('a');
    st.insert_input('b');
    st.cursor_left();
    st.set_hint("2");

    let prefix = chars("# ");
    let frame = render_frame(&prefix, &st);
    assert_eq!(frame.prefix, prefix);
    assert_eq!(frame.hint, "2");
    // prefix width 2 + buffer length 2 - offset 1
    assert_eq!(frame.cursor_col, 3);
    assert_eq!(frame.frags.len(), 1);
    assert_eq!(text_of(&frame.frags[0]), "ab");
    assert_eq!(frame.frags[0].color, None);
}

#[test]
fn render_frame_uses_highlight_annotation() {
    let mut st = PromptState::new();
    st.insert_input('7');
    st.insert_input('+');
    st.set_syntax_tokens(vec![SyntaxToken { start: 0, end: 1, color: Color::Cyan }]);

    let frame = render_frame(&chars("# "), &st);
    assert_eq!(frame.frags.len(), 2);
    assert_eq!(text_of(&frame.frags[0]), "7");
    assert_eq!(frame.frags[0].color, Some(Color::Cyan));
    assert_eq!(text_of(&frame.frags[1]), "+");
    assert_eq!(frame.frags[1].color, None);
}

#[test]
fn repaint_ticks_coalesce_mutations() {
    let mut st = PromptState::new();
    let prefix = chars("# ");

    // A clean state repaints nothing.
    assert!(render_tick(&mut st, &prefix).is_none());

    // Several mutations before the next tick yield exactly one repaint,
    // showing the final state.
    st.insert_input('a');
    st.insert_input('b');
    st.set_hint("hint");
    let frame = render_tick(&mut st, &prefix).expect("dirty state must repaint");
    assert_eq!(text_of(&frame.frags[0]), "ab");
    assert_eq!(frame.hint, "hint");

    // Nothing changed since: the very next tick repaints nothing.
    assert!(render_tick(&mut st, &prefix).is_none());
}
