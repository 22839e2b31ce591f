use smartcalc_tui::calculate::{radix_literals_fit, tokens_from_raw, Calculate, RawToken};
use smartcalc_tui::syntax::{Color, SyntaxToken, TokenKind};

fn evaluator() -> Calculate {
    Calculate::new(".".to_string(), ",".to_string(), "UTC".to_string())
}

fn kind_of(ui_type: &smartcalc::UiTokenType) -> TokenKind {
    match ui_type {
        smartcalc::UiTokenType::Text => TokenKind::Text,
        smartcalc::UiTokenType::Number => TokenKind::Number,
        smartcalc::UiTokenType::Symbol1 => TokenKind::Symbol1,
        smartcalc::UiTokenType::Symbol2 => TokenKind::Symbol2,
        smartcalc::UiTokenType::DateTime => TokenKind::DateTime,
        smartcalc::UiTokenType::Operator => TokenKind::Operator,
        smartcalc::UiTokenType::Comment => TokenKind::Comment,
        smartcalc::UiTokenType::VariableDefination => TokenKind::VariableDefination,
        smartcalc::UiTokenType::VariableUse => TokenKind::VariableUse,
        smartcalc::UiTokenType::Month => TokenKind::Month,
    }
}

/// Drive the engine the way the binary's compute actor does (without its
/// panic barrier, which tests must not need): set the text, execute, take
/// the first line's outcome, and colour the spans through the library.
fn evaluate(calc: &mut Calculate, input: &str) -> Option<(String, Vec<SyntaxToken>)> {
    calc.session.set_text(input.to_string());
    let result = calc.app.execute_session(&calc.session);
    let line = match result.lines.first() {
        Some(Some(line)) => line,
        _ => return None,
    };
    let ok = match &line.result {
        Ok(ok) => ok,
        Err(_) => return None,
    };
    let raws: Vec<RawToken> = line
        .ui_tokens
        .iter()
        .map(|t| RawToken { start: t.start, end: t.end, kind: kind_of(&t.ui_type) })
        .collect();
    Some((ok.output.clone(), tokens_from_raw(&raws)))
}

#[test]
fn raw_tokens_take_the_palette_colors() {
    let raws = vec![
        RawToken { start: 0, end: 1, kind: TokenKind::Number },
        RawToken { start: 2, end: 3, kind: TokenKind::Operator },
        RawToken { start: 4, end: 5, kind: TokenKind::Symbol1 },
        RawToken { start: 5, end: 6, kind: TokenKind::Symbol2 },
        RawToken { start: 6, end: 9, kind: TokenKind::Text },
        RawToken { start: 9, end: 12, kind: TokenKind::Month },
    ];
    let toks = tokens_from_raw(&raws);
    assert_eq!(
        toks,
        vec![
            SyntaxToken { start: 0, end: 1, color: Color::Cyan },
            SyntaxToken { start: 2, end: 3, color: Color::Yellow },
            SyntaxToken { start: 4, end: 5, color: Color::Red },
            SyntaxToken { start: 5, end: 6, color: Color::Red },
            SyntaxToken { start: 6, end: 9, color: Color::White },
            SyntaxToken { start: 9, end: 12, color: Color::White },
        ]
    );
}

#[test]
fn simple_sum_evaluates_with_colored_tokens() {
    let mut calc = evaluator();
    let (output, tokens) = evaluate(&mut calc, "1 + 1").expect("a plain sum must evaluate");
    assert_eq!(output, "2");
    // The numbers come back cyan: the annotation went through the palette.
    assert!(tokens.iter().any(|t| t.color == Color::Cyan));
}

#[test]
fn empty_input_evaluates_to_nothing() {
    let mut calc = evaluator();
    assert!(evaluate(&mut calc, "").is_none());
}

fn chars(s: &str) -> Vec<char> {
    s.chars().collect()
}

#[test]
fn radix_screen_accepts_fitting_literals() {
    assert!(radix_literals_fit(&chars("")));
    assert!(radix_literals_fit(&chars("1 + 2 * 3")));
    assert!(radix_literals_fit(&chars("0xff + 0b101 + 0o17")));
    // The largest values a 64-bit signed number holds, in every base.
    assert!(radix_literals_fit(&chars("0x7fffffffffffffff")));
    assert!(radix_literals_fit(&chars("0o777777777777777777777")));
    assert!(radix_literals_fit(&chars(
        "0b111111111111111111111111111111111111111111111111111111111111111"
    )));
    // Leading zeros do not change the value.
    assert!(radix_literals_fit(&chars("0x0000000000000000001")));
}

#[test]
fn radix_screen_rejects_overflowing_literals() {
    assert!(!radix_literals_fit(&chars("0xffffffffffffffff")));
    assert!(!radix_literals_fit(&chars("0x8000000000000000")));
    assert!(!radix_literals_fit(&chars("0o1000000000000000000000")));
    assert!(!radix_literals_fit(&chars(
        "0b1000000000000000000000000000000000000000000000000000000000000000"
    )));
    // Anywhere in the text, either letter case.
    assert!(!radix_literals_fit(&chars("2 + 0Xffffffffffffffff")));
}

#[test]
fn fitting_radix_literal_still_evaluates() {
    let mut calc = evaluator();
    assert!(evaluate(&mut calc, "0xff").is_some());
}

#[test]
fn evaluator_is_reusable_across_inputs() {
    let mut calc = evaluator();
    let first = evaluate(&mut calc, "2 * 3").expect("a plain product must evaluate");
    assert_eq!(first.0, "6");
    let second = evaluate(&mut calc, "10 - 4").expect("a plain difference must evaluate");
    assert_eq!(second.0, "6");
}
