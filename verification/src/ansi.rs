//! A model of the escape sequences that styled output carries, and the
//! trusted rendering primitives.
//!
//! Styled output wraps the text in a Select Graphic Rendition sequence: an
//! escape character, `[`, the code for a 256-color foreground, and a final
//! `m`, followed after the text by the reset sequence. The spec functions
//! here state that shape exactly, so that callers can reason about what a
//! rendered string holds and what remains once the sequences are stripped.

use vstd::prelude::*;

verus! {

/// The character of a decimal digit.
pub open spec fn digit_char(d: nat) -> char {
    if d == 0 {
        '0'
    } else if d == 1 {
        '1'
    } else if d == 2 {
        '2'
    } else if d == 3 {
        '3'
    } else if d == 4 {
        '4'
    } else if d == 5 {
        '5'
    } else if d == 6 {
        '6'
    } else if d == 7 {
        '7'
    } else if d == 8 {
        '8'
    } else {
        '9'
    }
}

/// The standard decimal rendering of a number: most significant digit first,
/// no leading zeros (a lone zero for zero itself).
pub open spec fn decimal_digits(n: nat) -> Seq<char>
    decreases n,
{
    if n < 10 {
        seq![digit_char(n)]
    } else {
        decimal_digits(n / 10).push(digit_char(n % 10))
    }
}

/// The escape sequence that switches the foreground to palette index `idx`.
pub open spec fn sgr_fixed_prefix(idx: u8) -> Seq<char> {
    seq!['\u{1b}', '[', '3', '8', ';', '5', ';'] + decimal_digits(idx as nat) + seq!['m']
}

/// The escape sequence that resets all styling.
pub open spec fn sgr_reset() -> Seq<char> {
    seq!['\u{1b}', '[', '0', 'm']
}

/// Text rendered in the foreground color of palette index `idx`: the color
/// prefix, the text itself, then the reset sequence.
pub open spec fn painted(idx: u8, text: Seq<char>) -> Seq<char> {
    sgr_fixed_prefix(idx) + text + sgr_reset()
}

/// One step of stripping: outside an escape sequence, an escape character
/// opens one and everything else is kept; inside, everything up to and
/// including the final `m` is dropped.
pub open spec fn strip_from(s: Seq<char>, in_escape: bool) -> Seq<char>
    decreases s.len(),
{
    if s.len() == 0 {
        Seq::empty()
    } else if in_escape {
        strip_from(s.drop_first(), s.first() != 'm')
    } else if s.first() == '\u{1b}' {
        strip_from(s.drop_first(), true)
    } else {
        seq![s.first()] + strip_from(s.drop_first(), false)
    }
}

/// What remains of a string once every escape sequence is stripped.
pub open spec fn strip_ansi_codes(s: Seq<char>) -> Seq<char> {
    strip_from(s, false)
}

/// Every character of a decimal rendering is a digit, so none is an escape
/// character and none is the final `m` of an escape sequence.
proof fn lemma_decimal_digits_are_digits(n: nat)
    ensures
        forall|i: int|
            0 <= i < decimal_digits(n).len() ==> decimal_digits(n)[i] != 'm'
                && decimal_digits(n)[i] != '\u{1b}',
    decreases n,
{
    if n >= 10 {
        lemma_decimal_digits_are_digits(n / 10);
        let whole = decimal_digits(n);
        let high = decimal_digits(n / 10);
        assert forall|i: int| 0 <= i < whole.len() implies whole[i] != 'm' && whole[i]
            != '\u{1b}' by {
            if i < high.len() {
                assert(whole[i] == high[i]);
            } else {
                assert(whole[i] == digit_char(n % 10));
            }
        }
    }
}

/// Stripping walks over escape-free text unchanged.
proof fn lemma_strip_past_plain(t: Seq<char>, rest: Seq<char>)
    requires
        forall|i: int| 0 <= i < t.len() ==> t[i] != '\u{1b}',
    ensures
        strip_from(t + rest, false) == t + strip_from(rest, false),
    decreases t.len(),
{
    if t.len() == 0 {
        assert(t + rest =~= rest);
        assert(t + strip_from(rest, false) =~= strip_from(rest, false));
    } else {
        assert((t + rest).drop_first() =~= t.drop_first() + rest);
        lemma_strip_past_plain(t.drop_first(), rest);
        assert(seq![t.first()] + (t.drop_first() + strip_from(rest, false)) =~= t + strip_from(
            rest,
            false,
        ));
    }
}

/// Inside an escape sequence, stripping drops everything up to and including
/// the final `m`.
proof fn lemma_strip_escape_body(body: Seq<char>, rest: Seq<char>)
    requires
        forall|i: int| 0 <= i < body.len() ==> body[i] != 'm',
    ensures
        strip_from(body + seq!['m'] + rest, true) == strip_from(rest, false),
    decreases body.len(),
{
    if body.len() == 0 {
        assert(body + seq!['m'] + rest =~= seq!['m'] + rest);
        assert((seq!['m'] + rest).drop_first() =~= rest);
    } else {
        assert((body + seq!['m'] + rest).drop_first() =~= body.drop_first() + seq!['m'] + rest);
        lemma_strip_escape_body(body.drop_first(), rest);
    }
}

/// Stripping the escape sequences from text rendered in a fixed color yields
/// exactly the text that was painted. Stated for text that holds no escape
/// character of its own.
pub proof fn lemma_strip_painted(idx: u8, text: Seq<char>)
    requires
        forall|i: int| 0 <= i < text.len() ==> text[i] != '\u{1b}',
    ensures
        strip_ansi_codes(painted(idx, text)) == text,
{
    let open_body = seq!['[', '3', '8', ';', '5', ';'] + decimal_digits(idx as nat);
    let reset_body = seq!['[', '0'];
    lemma_decimal_digits_are_digits(idx as nat);
    assert(painted(idx, text).drop_first() =~= open_body + seq!['m'] + (text + sgr_reset()));
    lemma_strip_escape_body(open_body, text + sgr_reset());
    lemma_strip_past_plain(text, sgr_reset());
    assert(sgr_reset().drop_first() =~= reset_body + seq!['m'] + Seq::<char>::empty());
    lemma_strip_escape_body(reset_body, Seq::<char>::empty());
    assert(strip_from(Seq::<char>::empty(), false) =~= Seq::<char>::empty());
    assert(text + Seq::<char>::empty() =~= text);
}

/// Relies on `ansi_term::Colour::Fixed(idx).paint(text)`: its rendered form
/// is the 256-color foreground prefix, the text, then the reset sequence.
#[verifier::external_body]
pub(crate) fn paint_fixed(idx: u8, text: String) -> (r: String)
    ensures
        r@ == painted(idx, text@),
{
    ansi_term::Colour::Fixed(idx).paint(text).to_string()
}

/// Relies on `ansi_term::Style::default().paint(text)`: a style with no
/// properties set renders the exact same text, with no escape bytes added.
#[verifier::external_body]
pub(crate) fn paint_plain(text: String) -> (r: String)
    ensures
        r@ == text@,
{
    ansi_term::Style::default().paint(text).to_string()
}

} // verus!
