//! The JASC-PAL text format: a signature line, a version line, the number of
//! colours, then one line of three decimal numbers for each colour.

use vstd::prelude::*;
use crate::image::Rgb;

verus! {

/// The byte of a line feed.
pub const LINE_FEED: u8 = 10;

/// The byte of a space.
pub const SPACE: u8 = 32;

/// The byte of the digit zero.
pub const ZERO: u8 = 48;

/// The decimal digits of `n` without leading zeros, as ASCII bytes.
pub open spec fn decimal(n: nat) -> Seq<u8>
    decreases n,
{
    if n < 10 {
        seq![(ZERO + n) as u8]
    } else {
        decimal(n / 10).push((ZERO + n % 10) as u8)
    }
}

/// The signature line and the version line: `JASC-PAL`, then `0100`.
pub open spec fn preamble() -> Seq<u8> {
    seq![74u8, 65u8, 83u8, 67u8, 45u8, 80u8, 65u8, 76u8, 10u8, 48u8, 49u8, 48u8, 48u8, 10u8]
}

/// The line of one colour.
pub open spec fn color_line(c: Rgb) -> Seq<u8> {
    decimal(c.0 as nat).push(SPACE) + decimal(c.1 as nat).push(SPACE) + decimal(c.2 as nat).push(
        LINE_FEED,
    )
}

/// The lines of a sequence of colours, in order.
pub open spec fn color_lines(colors: Seq<Rgb>) -> Seq<u8>
    decreases colors.len(),
{
    if colors.len() == 0 {
        Seq::empty()
    } else {
        color_lines(colors.drop_last()) + color_line(colors.last())
    }
}

/// The whole document of a palette.
pub open spec fn document(colors: Seq<Rgb>) -> Seq<u8> {
    preamble() + decimal(colors.len()).push(LINE_FEED) + color_lines(colors)
}

/// Appends the decimal digits of `n`.
pub fn push_decimal(out: &mut Vec<u8>, n: usize)
    ensures
        final(out)@ == old(out)@ + decimal(n as nat),
    decreases n,
{
    if n >= 10 {
        push_decimal(out, n / 10);
    }
    let digit: u8 = (n % 10) as u8;
    out.push(ZERO + digit);
    assert(final(out)@ =~= old(out)@ + decimal(n as nat));
}

/// Appends the line of one colour.
pub fn push_color_line(out: &mut Vec<u8>, c: Rgb)
    ensures
        final(out)@ == old(out)@ + color_line(c),
{
    push_decimal(out, c.0 as usize);
    out.push(SPACE);
    push_decimal(out, c.1 as usize);
    out.push(SPACE);
    push_decimal(out, c.2 as usize);
    out.push(LINE_FEED);
    proof {
        assert(final(out)@ =~= old(out)@ + color_line(c));
    }
}

/// Writes a palette as a JASC-PAL document.
pub fn render_pal(palette: &[Rgb]) -> (doc: Vec<u8>)
    ensures
        doc@ == document(palette@),
{
    let mut doc: Vec<u8> = vec![74u8, 65u8, 83u8, 67u8, 45u8, 80u8, 65u8, 76u8, 10u8, 48u8, 49u8, 48u8, 48u8, 10u8];
    assert(doc@ =~= preamble());
    push_decimal(&mut doc, palette.len());
    doc.push(LINE_FEED);
    let ghost head = doc@;
    let mut i: usize = 0;
    while i < palette.len()
        invariant
            i <= palette.len(),
            head == preamble() + decimal(palette@.len()).push(LINE_FEED),
            doc@ == head + color_lines(palette@.take(i as int)),
        decreases palette.len() - i,
    {
        push_color_line(&mut doc, palette[i]);
        proof {
            let next = palette@.take(i + 1);
            assert(next.drop_last() =~= palette@.take(i as int));
            assert(next.last() == palette@[i as int]);
            assert(doc@ =~= head + color_lines(next));
        }
        i += 1;
    }
    proof {
        assert(palette@.take(i as int) =~= palette@);
    }
    doc
}

/// Whether a byte is an ASCII digit.
pub open spec fn is_digit(b: u8) -> bool {
    ZERO <= b <= ZERO + 9
}

/// The number of digits that `s` begins with.
pub open spec fn digit_run(s: Seq<u8>) -> nat
    decreases s.len(),
{
    if s.len() > 0 && is_digit(s[0]) {
        1 + digit_run(s.skip(1))
    } else {
        0
    }
}

/// The number that a sequence of digits writes in base ten.
pub open spec fn digits_value(digits: Seq<u8>) -> nat
    decreases digits.len(),
{
    if digits.len() == 0 {
        0
    } else {
        digits_value(digits.drop_last()) * 10 + (digits.last() - ZERO) as nat
    }
}

/// Reads a number from the front of `s`: one digit or more, closed by the
/// byte `end`. The result is the number and what follows `end`.
pub open spec fn read_number(s: Seq<u8>, end: u8) -> Option<(nat, Seq<u8>)> {
    let run = digit_run(s);
    if 0 < run < s.len() && s[run as int] == end {
        Some((digits_value(s.take(run as int)), s.skip((run + 1) as int)))
    } else {
        None
    }
}

/// Reads the line of one colour from the front of `s`: three numbers, none
/// above 255, two closed by a space and the last by a line feed.
pub open spec fn read_color(s: Seq<u8>) -> Option<(Rgb, Seq<u8>)> {
    match read_number(s, SPACE) {
        None => None,
        Some((r, after_r)) => match read_number(after_r, SPACE) {
            None => None,
            Some((g, after_g)) => match read_number(after_g, LINE_FEED) {
                None => None,
                Some((b, rest)) => if r <= 255 && g <= 255 && b <= 255 {
                    Some(((r as u8, g as u8, b as u8), rest))
                } else {
                    None
                },
            },
        },
    }
}

/// Reads `count` colour lines, which must take up all of `s`.
pub open spec fn read_colors(s: Seq<u8>, count: nat) -> Option<Seq<Rgb>>
    decreases count,
{
    if count == 0 {
        if s.len() == 0 {
            Some(Seq::empty())
        } else {
            None
        }
    } else {
        match read_color(s) {
            None => None,
            Some((c, rest)) => match read_colors(rest, (count - 1) as nat) {
                None => None,
                Some(others) => Some(seq![c] + others),
            },
        }
    }
}

/// Reads a whole document: the signature and version lines, the count line,
/// then as many colour lines as the count says and nothing more.
pub open spec fn parse_document(s: Seq<u8>) -> Option<Seq<Rgb>> {
    if preamble().is_prefix_of(s) {
        match read_number(s.skip(preamble().len() as int), LINE_FEED) {
            None => None,
            Some((count, rest)) => read_colors(rest, count),
        }
    } else {
        None
    }
}

/// The decimal form of a number is made of digits, one at least, and writes
/// that number.
pub proof fn lemma_decimal_digits(n: nat)
    ensures
        decimal(n).len() > 0,
        forall|i: int| 0 <= i < decimal(n).len() ==> is_digit(#[trigger] decimal(n)[i]),
        digits_value(decimal(n)) == n,
    decreases n,
{
    if n < 10 {
        assert(decimal(n).drop_last() =~= Seq::<u8>::empty());
        assert(digits_value(decimal(n).drop_last()) == 0);
    } else {
        lemma_decimal_digits(n / 10);
        assert(decimal(n).drop_last() =~= decimal(n / 10));
    }
}

/// Digits followed by something that does not begin with a digit form a run
/// of exactly their own length.
pub proof fn lemma_digit_run(digits: Seq<u8>, rest: Seq<u8>)
    requires
        forall|i: int| 0 <= i < digits.len() ==> is_digit(#[trigger] digits[i]),
        rest.len() == 0 || !is_digit(rest[0]),
    ensures
        digit_run(digits + rest) == digits.len(),
    decreases digits.len(),
{
    if digits.len() == 0 {
        assert(digits + rest =~= rest);
    } else {
        assert((digits + rest)[0] == digits[0]);
        assert((digits + rest).skip(1) =~= digits.skip(1) + rest);
        lemma_digit_run(digits.skip(1), rest);
    }
}

/// A number written in decimal and closed by a byte that is no digit is read
/// back as that number, and what followed is left over.
pub proof fn lemma_read_number(n: nat, end: u8, tail: Seq<u8>)
    requires
        !is_digit(end),
    ensures
        read_number(decimal(n).push(end) + tail, end) == Some((n, tail)),
{
    let digits = decimal(n);
    let s = digits.push(end) + tail;
    lemma_decimal_digits(n);
    lemma_digit_run(digits, seq![end] + tail);
    assert(s =~= digits + (seq![end] + tail));
    assert(s.take(digits.len() as int) =~= digits);
    assert(s.skip((digits.len() + 1) as int) =~= tail);
}

/// The line of a colour is read back as that colour.
pub proof fn lemma_read_color(c: Rgb, tail: Seq<u8>)
    ensures
        read_color(color_line(c) + tail) == Some((c, tail)),
{
    let after_g = decimal(c.2 as nat).push(LINE_FEED) + tail;
    let after_r = decimal(c.1 as nat).push(SPACE) + after_g;
    assert(color_line(c) + tail =~= decimal(c.0 as nat).push(SPACE) + after_r);
    lemma_read_number(c.0 as nat, SPACE, after_r);
    lemma_read_number(c.1 as nat, SPACE, after_g);
    lemma_read_number(c.2 as nat, LINE_FEED, tail);
}

/// The lines of two sequences of colours, one after the other, are the lines
/// of the two sequences joined.
pub proof fn lemma_color_lines_concat(first: Seq<Rgb>, second: Seq<Rgb>)
    ensures
        color_lines(first + second) == color_lines(first) + color_lines(second),
    decreases second.len(),
{
    if second.len() == 0 {
        assert(first + second =~= first);
        assert(color_lines(first) + color_lines(second) =~= color_lines(first));
    } else {
        lemma_color_lines_concat(first, second.drop_last());
        assert((first + second).drop_last() =~= first + second.drop_last());
        assert((first + second).last() == second.last());
        assert(color_lines(first + second) =~= color_lines(first) + color_lines(second));
    }
}

/// The lines of a sequence of colours are read back as that sequence.
pub proof fn lemma_read_colors(colors: Seq<Rgb>)
    ensures
        read_colors(color_lines(colors), colors.len()) == Some(colors),
    decreases colors.len(),
{
    if colors.len() == 0 {
        assert(colors =~= Seq::<Rgb>::empty());
    } else {
        let c = colors[0];
        let others = colors.skip(1);
        assert(colors =~= seq![c] + others);
        lemma_color_lines_concat(seq![c], others);
        assert(seq![c].drop_last() =~= Seq::<Rgb>::empty());
        assert(seq![c].last() == c);
        assert(color_lines(Seq::<Rgb>::empty()) =~= Seq::<u8>::empty());
        assert(color_lines(seq![c]) =~= color_line(c));
        lemma_read_color(c, color_lines(others));
        lemma_read_colors(others);
    }
}

/// Writing a palette and reading the document back gives the same colours in
/// the same order, whatever the palette.
pub proof fn lemma_document_roundtrip(colors: Seq<Rgb>)
    ensures
        parse_document(document(colors)) == Some(colors),
{
    let s = document(colors);
    assert(preamble().is_prefix_of(s));
    assert(s.skip(preamble().len() as int) =~= decimal(colors.len()).push(LINE_FEED)
        + color_lines(colors));
    lemma_read_number(colors.len(), LINE_FEED, color_lines(colors));
    lemma_read_colors(colors);
}

/// Two palettes with the same document are the same palette.
pub proof fn lemma_document_injective(a: Seq<Rgb>, b: Seq<Rgb>)
    requires
        document(a) == document(b),
    ensures
        a == b,
{
    lemma_document_roundtrip(a);
    lemma_document_roundtrip(b);
}

} // verus!
