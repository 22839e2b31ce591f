//! The expression evaluator behind the hint.
//!
//! The evaluation itself is done by the `smartcalc` crate and is opaque to
//! this library. A [`Calculate`] owns the configured engine and the session
//! it feeds; configuring them is verified code over the trusted items below,
//! all of them plain stores that cannot fail. Running the engine is another
//! matter: it can panic on unusual input — unchecked parses in its number,
//! percent and bracket-atom tokenizers and in its date rules, some of them
//! depending on the configured separators or the clock — so no contract this
//! library could state would delimit those inputs truthfully. The evaluation
//! call therefore lives with the binary, behind a panic barrier that turns
//! any engine panic into a plain failure, as the evaluator's interface
//! demands; this library cannot hold that barrier, since catching an unwind
//! is not available to verified code here. What the library does hold, and
//! verifies exactly, is everything around the call: the one screen that is
//! statable — [`radix_literals_fit`], which turns away the engine's known
//! oversized-radix-literal defect before an unwind is ever paid for — and
//! the step from the engine's raw token spans ([`RawToken`]) to coloured
//! [`SyntaxToken`]s.

use vstd::prelude::*;

use crate::syntax::{color_of_kind, syntax_color, SyntaxToken, TokenKind};

verus! {

/// `i64::MAX`, as the unsigned accumulator [`run_fits`] counts in.
const RADIX_VALUE_CAP: u64 = 0x7fff_ffff_ffff_ffff;

/// The numeric value of one digit character, hexadecimal letters included;
/// zero for anything that is no digit.
pub open spec fn digit_val(c: char) -> int {
    if '0' <= c <= '9' {
        c as u32 - '0' as u32
    } else if 'a' <= c <= 'f' {
        10 + (c as u32 - 'a' as u32)
    } else if 'A' <= c <= 'F' {
        10 + (c as u32 - 'A' as u32)
    } else {
        0
    }
}

/// Whether `c` is a digit of the given radix (2, 8 or 16).
pub open spec fn is_radix_digit(c: char, radix: u32) -> bool {
    if radix == 16 {
        ('0' <= c <= '9') || ('a' <= c <= 'f') || ('A' <= c <= 'F')
    } else if radix == 8 {
        '0' <= c <= '7'
    } else {
        c == '0' || c == '1'
    }
}

/// The value of a digit string read in the given radix.
pub open spec fn digits_value(s: Seq<char>, radix: u32) -> int
    decreases s.len(),
{
    if s.len() == 0 {
        0
    } else {
        digits_value(s.drop_last(), radix) * radix + digit_val(s.last())
    }
}

/// Where the digit run that starts at `i` ends: the first position at or
/// after `i` that is past the end of `s` or holds no digit of the radix.
pub open spec fn run_end(s: Seq<char>, i: int, radix: u32) -> int
    decreases s.len() - i,
{
    if i < 0 || i >= s.len() || !is_radix_digit(s[i], radix) {
        i
    } else {
        run_end(s, i + 1, radix)
    }
}

/// A hex, octal or binary literal begins at `i`: a zero, the radix letter,
/// and at least one digit.
pub open spec fn radix_prefix_at(s: Seq<char>, i: int, radix: u32) -> bool {
    &&& 0 <= i
    &&& i + 2 < s.len()
    &&& s[i] == '0'
    &&& if radix == 16 {
        s[i + 1] == 'x' || s[i + 1] == 'X'
    } else if radix == 8 {
        s[i + 1] == 'o' || s[i + 1] == 'O'
    } else {
        s[i + 1] == 'b' || s[i + 1] == 'B'
    }
    &&& is_radix_digit(s[i + 2], radix)
}

/// No hex, octal or binary literal anywhere in `s` has a value above
/// `i64::MAX`. The evaluator's number tokenizer reads such literals with an
/// unchecked 64-bit signed conversion that panics beyond that bound; text
/// failing this screen is turned away as a plain failure instead of being
/// evaluated.
pub open spec fn radix_safe(s: Seq<char>) -> bool {
    forall|i: int, radix: u32|
        (radix == 2 || radix == 8 || radix == 16) && #[trigger] radix_prefix_at(s, i, radix)
            ==> digits_value(s.subrange(i + 2, run_end(s, i + 2, radix)), radix) <= i64::MAX
}

/// A digit string's value is never negative.
proof fn lemma_digits_value_nonneg(s: Seq<char>, radix: u32)
    ensures
        digits_value(s, radix) >= 0,
    decreases s.len(),
{
    if s.len() > 0 {
        lemma_digits_value_nonneg(s.drop_last(), radix);
        let prev = digits_value(s.drop_last(), radix);
        assert(prev * radix >= 0) by (nonlinear_arith)
            requires
                prev >= 0,
        ;
    }
}

/// Appending a digit never shrinks the value.
proof fn lemma_digits_value_extend(s: Seq<char>, radix: u32)
    requires
        s.len() > 0,
        radix >= 2,
    ensures
        digits_value(s, radix) >= digits_value(s.drop_last(), radix),
{
    lemma_digits_value_nonneg(s.drop_last(), radix);
    let prev = digits_value(s.drop_last(), radix);
    assert(prev * radix >= prev) by (nonlinear_arith)
        requires
            prev >= 0,
            radix >= 2,
    ;
}

/// A token span as the evaluator reports it: a half-open range over the
/// input and the category of what it holds.
#[derive(Clone, Copy, Debug, PartialEq, Eq, Structural)]
pub struct RawToken {
    pub start: usize,
    pub end: usize,
    pub kind: TokenKind,
}

/// Decide [`is_radix_digit`].
fn radix_digit(c: char, radix: u32) -> (b: bool)
    ensures
        b == is_radix_digit(c, radix),
{
    if radix == 16 {
        (c >= '0' && c <= '9') || (c >= 'a' && c <= 'f') || (c >= 'A' && c <= 'F')
    } else if radix == 8 {
        c >= '0' && c <= '7'
    } else {
        c == '0' || c == '1'
    }
}

/// Compute [`digit_val`].
fn digit_value(c: char) -> (v: u32)
    ensures
        v == digit_val(c),
        v <= 15,
{
    if c >= '0' && c <= '9' {
        (c as u32) - ('0' as u32)
    } else if c >= 'a' && c <= 'f' {
        10 + (c as u32) - ('a' as u32)
    } else if c >= 'A' && c <= 'F' {
        10 + (c as u32) - ('A' as u32)
    } else {
        0
    }
}

/// Walk the digit run that begins at `start` and decide whether its value
/// fits `i64`; also hand back where the run ends.
fn run_fits(s: &Vec<char>, start: usize, radix: u32) -> (res: (usize, bool))
    requires
        radix == 2 || radix == 8 || radix == 16,
        start <= s@.len(),
    ensures
        res.0 == run_end(s@, start as int, radix),
        res.1 == (digits_value(s@.subrange(start as int, run_end(s@, start as int, radix)), radix)
            <= i64::MAX),
{
    let len = s.len();
    let mut j = start;
    let mut acc: u64 = 0;
    let mut fits = true;
    proof {
        assert(s@.subrange(start as int, start as int) =~= Seq::<char>::empty());
    }
    while j < len && radix_digit(s[j], radix)
        invariant
            start <= j <= len,
            len == s@.len(),
            radix == 2 || radix == 8 || radix == 16,
            run_end(s@, start as int, radix) == run_end(s@, j as int, radix),
            fits ==> acc == digits_value(s@.subrange(start as int, j as int), radix) && acc
                <= RADIX_VALUE_CAP,
            !fits ==> digits_value(s@.subrange(start as int, j as int), radix)
                > RADIX_VALUE_CAP,
        decreases len - j,
    {
        let d = digit_value(s[j]);
        let ghost prev_val = digits_value(s@.subrange(start as int, j as int), radix);
        proof {
            assert(s@.subrange(start as int, j + 1).drop_last() =~= s@.subrange(
                start as int,
                j as int,
            ));
            assert(s@.subrange(start as int, j + 1).last() == s@[j as int]);
            assert(digits_value(s@.subrange(start as int, j + 1), radix) == prev_val * radix
                + digit_val(s@[j as int]));
        }
        if fits {
            let head = (RADIX_VALUE_CAP - (d as u64)) / (radix as u64);
            if acc > head {
                proof {
                    let q = head as int;
                    let cap = RADIX_VALUE_CAP as int;
                    assert(q == (cap - d) / (radix as int));
                    assert(cap - d == (radix as int) * q + (cap - d) % (radix as int));
                    assert((cap - d) % (radix as int) < radix);
                    assert(acc * radix >= (q + 1) * radix) by (nonlinear_arith)
                        requires
                            acc >= q + 1,
                            radix >= 2,
                            q >= 0,
                    ;
                    assert((q + 1) * radix == q * (radix as int) + radix) by (nonlinear_arith);
                    assert(acc * radix + d > cap);
                }
                fits = false;
            } else {
                proof {
                    let q = head as int;
                    let cap = RADIX_VALUE_CAP as int;
                    assert(cap - d == (radix as int) * q + (cap - d) % (radix as int));
                    assert((cap - d) % (radix as int) >= 0);
                    assert(acc * radix <= q * radix) by (nonlinear_arith)
                        requires
                            0 <= acc <= q,
                            radix >= 2,
                    ;
                    assert(q * radix == (radix as int) * q) by (nonlinear_arith);
                    assert(acc * radix + d <= cap);
                }
                acc = acc * (radix as u64) + (d as u64);
            }
        } else {
            proof {
                lemma_digits_value_extend(s@.subrange(start as int, j + 1), radix);
            }
        }
        j += 1;
    }
    proof {
        assert(run_end(s@, j as int, radix) == j);
    }
    (j, fits)
}

/// Decide [`radix_safe`]: scan the text for hex, octal and binary literals
/// and hold each one's digit run against the 64-bit bound.
pub fn radix_literals_fit(s: &Vec<char>) -> (ok: bool)
    ensures
        ok == radix_safe(s@),
{
    let len = s.len();
    let mut i: usize = 0;
    while i < len
        invariant
            i <= len,
            len == s@.len(),
            forall|k: int, radix: u32|
                k < i && (radix == 2 || radix == 8 || radix == 16) && #[trigger] radix_prefix_at(
                    s@,
                    k,
                    radix,
                ) ==> digits_value(s@.subrange(k + 2, run_end(s@, k + 2, radix)), radix)
                    <= i64::MAX,
        decreases len - i,
    {
        if s[i] == '0' && len - i > 2 {
            let p = s[i + 1];
            let radix: u32 = if p == 'x' || p == 'X' {
                16
            } else if p == 'o' || p == 'O' {
                8
            } else if p == 'b' || p == 'B' {
                2
            } else {
                0
            };
            if radix != 0 && radix_digit(s[i + 2], radix) {
                let run = run_fits(s, i + 2, radix);
                if !run.1 {
                    proof {
                        assert(radix_prefix_at(s@, i as int, radix));
                        assert(!radix_safe(s@));
                    }
                    return false;
                }
            }
        }
        i += 1;
    }
    true
}

#[verifier::external_type_specification]
#[verifier::external_body]
pub struct ExSmartCalc(smartcalc::SmartCalc);

#[verifier::external_type_specification]
#[verifier::external_body]
pub struct ExSession(smartcalc::Session);

/// Relies on smartcalc::SmartCalc::default: a freshly configured engine.
#[verifier::external_body]
fn smartcalc_default() -> smartcalc::SmartCalc {
    smartcalc::SmartCalc::default()
}

/// Relies on smartcalc::Session::new: an empty session.
#[verifier::external_body]
fn session_new() -> smartcalc::Session {
    smartcalc::Session::new()
}

/// Relies on smartcalc::Session::set_language: stores the language the
/// session's text is interpreted in.
#[verifier::external_body]
fn session_set_language(session: &mut smartcalc::Session, language: String) {
    session.set_language(language);
}

/// Relies on smartcalc::SmartCalc::set_decimal_seperator.
#[verifier::external_body]
fn smartcalc_set_decimal_separator(app: &mut smartcalc::SmartCalc, separator: String) {
    app.set_decimal_seperator(separator);
}

/// Relies on smartcalc::SmartCalc::set_thousand_separator.
#[verifier::external_body]
fn smartcalc_set_thousand_separator(app: &mut smartcalc::SmartCalc, separator: String) {
    app.set_thousand_separator(separator);
}

/// Relies on smartcalc::SmartCalc::set_timezone, which accepts the name or
/// rejects it with an error; the result tells which happened.
#[verifier::external_body]
fn smartcalc_set_timezone(app: &mut smartcalc::SmartCalc, timezone: String) -> bool {
    app.set_timezone(timezone).is_ok()
}

/// The coloured token a raw evaluator token maps to: range copied, colour
/// from the palette.
pub open spec fn token_of_raw(raw: RawToken) -> SyntaxToken {
    SyntaxToken { start: raw.start, end: raw.end, color: color_of_kind(raw.kind) }
}

/// The coloured tokens for a whole raw sequence, in order.
pub open spec fn tokens_of_raw(raws: Seq<RawToken>) -> Seq<SyntaxToken> {
    raws.map_values(|raw: RawToken| token_of_raw(raw))
}

/// Colour every raw evaluator token with the palette.
pub fn tokens_from_raw(raws: &Vec<RawToken>) -> (toks: Vec<SyntaxToken>)
    ensures
        toks@ == tokens_of_raw(raws@),
{
    let n = raws.len();
    let mut toks: Vec<SyntaxToken> = Vec::new();
    let mut i: usize = 0;
    while i < n
        invariant
            i <= n,
            n == raws@.len(),
            toks@ == tokens_of_raw(raws@.subrange(0, i as int)),
        decreases n - i,
    {
        let raw = raws[i];
        let colored = SyntaxToken { start: raw.start, end: raw.end, color: syntax_color(raw.kind) };
        toks.push(colored);
        proof {
            assert(raws@.subrange(0, i + 1) =~= raws@.subrange(0, i as int).push(raw));
            assert(tokens_of_raw(raws@.subrange(0, i + 1)) =~= tokens_of_raw(
                raws@.subrange(0, i as int),
            ).push(token_of_raw(raw)));
        }
        i += 1;
    }
    proof {
        assert(raws@.subrange(0, n as int) =~= raws@);
    }
    toks
}

/// A configured evaluator: the engine and the session it feeds. The fields
/// are open so that the binary, which alone may confine the engine's
/// panics, can make the evaluation call; the engine's value is opaque here
/// either way.
pub struct Calculate {
    pub app: smartcalc::SmartCalc,
    pub session: smartcalc::Session,
}

impl Calculate {
    /// Configure an evaluator for the session's language and the machine's
    /// number formatting and timezone, all passed in as plain text. A
    /// timezone name the engine does not recognize is left alone: the
    /// engine then keeps its own default.
    pub fn new(decimal_separator: String, thousand_separator: String, timezone: String) -> Self {
        let mut app = smartcalc_default();
        smartcalc_set_decimal_separator(&mut app, decimal_separator);
        smartcalc_set_thousand_separator(&mut app, thousand_separator);
        let _ = smartcalc_set_timezone(&mut app, timezone);
        let mut session = session_new();
        session_set_language(&mut session, "en".to_owned());
        Self { app, session }
    }
}

} // verus!
