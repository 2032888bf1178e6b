//! The status line shown in the window's title.
//!
//! Real values arrive as fixed-point decimal text, already formatted by the
//! caller to twenty fractional digits.  This module trims, signs, pads and
//! joins that text.  Text is a vector of characters, so that widths count
//! characters.

use vstd::prelude::*;

verus! {

/// Width to which each number of the status line is padded.
pub const COLUMN_WIDTH: usize = 25;

/// `n` spaces.
pub open spec fn blanks(n: nat) -> Seq<char> {
    Seq::new(n, |i: int| ' ')
}

/// Number of spaces that bring text of length `len` up to `width`.
pub open spec fn shortfall(len: nat, width: nat) -> nat {
    if len < width {
        (width - len) as nat
    } else {
        0
    }
}

/// `text` followed by as many spaces as bring it up to `width` characters.
pub open spec fn flush_left(text: Seq<char>, width: nat) -> Seq<char> {
    text + blanks(shortfall(text.len(), width))
}

/// `text` preceded by as many spaces as bring it up to `width` characters.
pub open spec fn flush_right(text: Seq<char>, width: nat) -> Seq<char> {
    blanks(shortfall(text.len(), width)) + text
}

/// `text` without the zeros at its end.
pub open spec fn trimmed(text: Seq<char>) -> Seq<char>
    decreases text.len(),
{
    if text.len() > 0 && text.last() == '0' {
        trimmed(text.drop_last())
    } else {
        text
    }
}

/// The character for a decimal digit.
pub open spec fn digit(d: nat) -> char {
    if d == 0 {
        '0'
    } else if d == 1 {
        '1'
    } else if d == 2 {
        '2'
    } else if d == 3 {
        '3'
    } else if d == 4 {
        '4'
    } else if d == 5 {
        '5'
    } else if d == 6 {
        '6'
    } else if d == 7 {
        '7'
    } else if d == 8 {
        '8'
    } else {
        '9'
    }
}

/// `n` in decimal, without leading zeros.
pub open spec fn decimal(n: nat) -> Seq<char>
    decreases n,
{
    if n < 10 {
        seq![digit(n)]
    } else {
        decimal(n / 10).push(digit(n % 10))
    }
}

/// A complex number as decimal text.
#[derive(Debug, PartialEq, Eq)]
pub struct ComplexText {
    /// The real part, in fixed-point notation.
    pub re: Vec<char>,
    /// The imaginary part, in fixed-point notation.
    pub im: Vec<char>,
    /// Whether the imaginary part compares greater than or equal to zero.
    pub im_non_negative: bool,
}

/// The real part as shown: trimmed and flush right in its column.
pub open spec fn shown_real(re: Seq<char>) -> Seq<char> {
    flush_right(trimmed(re), COLUMN_WIDTH as nat)
}

/// The imaginary part as shown: a plus sign where it is not negative (a minus
/// sign is part of the digits), then the trimmed digits with the suffix `i`,
/// flush left in their column.
pub open spec fn shown_imaginary(im: Seq<char>, non_negative: bool) -> Seq<char> {
    (if non_negative {
        seq!['+']
    } else {
        Seq::<char>::empty()
    }) + flush_left(trimmed(im).push('i'), COLUMN_WIDTH as nat)
}

/// A complex number as shown: real part, then imaginary part.
pub open spec fn shown_complex(re: Seq<char>, im: Seq<char>, non_negative: bool) -> Seq<char> {
    shown_real(re) + shown_imaginary(im, non_negative)
}

/// The status line.
pub open spec fn status_text(
    magnification: Seq<char>,
    max_iterations: u32,
    center: ComplexText,
    mouse: ComplexText,
) -> Seq<char> {
    "Mandelbrot | Zoom = x"@ + flush_left(trimmed(magnification), COLUMN_WIDTH as nat)
        + " | Max Iter = "@ + decimal(max_iterations as nat) + " | Center = "@ + shown_complex(
        center.re@,
        center.im@,
        center.im_non_negative,
    ) + " | Mouse = "@ + shown_complex(mouse.re@, mouse.im@, mouse.im_non_negative)
}

/// What `trimmed` keeps is the start of the text, what it drops is zeros, and
/// what it keeps does not end in a zero.
pub proof fn lemma_trimmed(text: Seq<char>)
    ensures
        trimmed(text).len() <= text.len(),
        trimmed(text) == text.subrange(0, trimmed(text).len() as int),
        forall|i: int| trimmed(text).len() <= i < text.len() ==> text[i] == '0',
        trimmed(text).len() > 0 ==> trimmed(text).last() != '0',
    decreases text.len(),
{
    if text.len() > 0 && text.last() == '0' {
        let shorter = text.drop_last();
        lemma_trimmed(shorter);
        assert(trimmed(text) =~= text.subrange(0, trimmed(text).len() as int));
        assert forall|i: int| trimmed(text).len() <= i < text.len() implies text[i] == '0' by {
            if i < shorter.len() {
                assert(shorter[i] == text[i]);
            }
        }
    } else {
        assert(text =~= text.subrange(0, text.len() as int));
    }
}

/// Padding brings short text up to the width and leaves other text alone.
pub proof fn lemma_padding(text: Seq<char>, width: nat)
    ensures
        flush_left(text, width).len() == flush_right(text, width).len(),
        text.len() < width ==> flush_left(text, width).len() == width,
        text.len() >= width ==> flush_left(text, width) == text && flush_right(text, width)
            == text,
{
    if text.len() >= width {
        assert(flush_left(text, width) =~= text);
        assert(flush_right(text, width) =~= text);
    }
}

/// Removes the zeros at the end of `text`.
pub fn trim_trailing_zeros(text: &Vec<char>) -> (r: Vec<char>)
    ensures
        r@ == trimmed(text@),
{
    let mut end: usize = text.len();
    proof {
        assert(text@.subrange(0, end as int) =~= text@);
    }
    while end > 0 && text[end - 1] == '0'
        invariant
            end <= text.len(),
            trimmed(text@) == trimmed(text@.subrange(0, end as int)),
        decreases end,
    {
        proof {
            let part = text@.subrange(0, end as int);
            assert(part.last() == '0');
            assert(part.drop_last() =~= text@.subrange(0, end - 1));
        }
        end -= 1;
    }
    let mut r: Vec<char> = Vec::new();
    let mut i: usize = 0;
    while i < end
        invariant
            i <= end <= text.len(),
            r@ == text@.subrange(0, i as int),
        decreases end - i,
    {
        r.push(text[i]);
        proof {
            assert(r@ =~= text@.subrange(0, i + 1));
        }
        i += 1;
    }
    r
}

/// Appends `n` spaces to `out`.
fn push_blanks(out: &mut Vec<char>, n: usize)
    ensures
        final(out)@ == old(out)@ + blanks(n as nat),
{
    let mut i: usize = 0;
    proof {
        assert(out@ =~= old(out)@ + blanks(0));
    }
    while i < n
        invariant
            i <= n,
            out@ == old(out)@ + blanks(i as nat),
        decreases n - i,
    {
        out.push(' ');
        proof {
            assert(out@ =~= old(out)@ + blanks((i + 1) as nat));
        }
        i += 1;
    }
}

/// Appends `text` to `out`.
fn push_text(out: &mut Vec<char>, text: &Vec<char>)
    ensures
        final(out)@ == old(out)@ + text@,
{
    out.extend_from_slice(text.as_slice());
}

/// Appends the characters of `s` to `out`.
fn push_str(out: &mut Vec<char>, s: &str)
    ensures
        final(out)@ == old(out)@ + s@,
{
    let n = s.unicode_len();
    let mut i: usize = 0;
    proof {
        assert(out@ =~= old(out)@ + s@.subrange(0, 0));
    }
    while i < n
        invariant
            i <= n,
            n == s@.len(),
            out@ == old(out)@ + s@.subrange(0, i as int),
        decreases n - i,
    {
        out.push(s.get_char(i));
        proof {
            assert(out@ =~= old(out)@ + s@.subrange(0, i + 1));
        }
        i += 1;
    }
    proof {
        assert(s@.subrange(0, n as int) =~= s@);
    }
}

/// Number of spaces that bring text of length `len` up to `width`.
fn shortfall_of(len: usize, width: usize) -> (n: usize)
    ensures
        n == shortfall(len as nat, width as nat),
{
    if len < width {
        width - len
    } else {
        0
    }
}

/// Pads `text` with spaces on its right up to `width` characters.
pub fn pad_right(text: &Vec<char>, width: usize) -> (r: Vec<char>)
    ensures
        r@ == flush_left(text@, width as nat),
{
    let mut r: Vec<char> = Vec::new();
    push_text(&mut r, text);
    push_blanks(&mut r, shortfall_of(text.len(), width));
    proof {
        assert(r@ =~= flush_left(text@, width as nat));
    }
    r
}

/// Pads `text` with spaces on its left up to `width` characters.
pub fn pad_left(text: &Vec<char>, width: usize) -> (r: Vec<char>)
    ensures
        r@ == flush_right(text@, width as nat),
{
    let mut r: Vec<char> = Vec::new();
    push_blanks(&mut r, shortfall_of(text.len(), width));
    push_text(&mut r, text);
    proof {
        assert(r@ =~= flush_right(text@, width as nat));
    }
    r
}

/// The character for a decimal digit.
fn digit_of(d: u32) -> (c: char)
    requires
        d < 10,
    ensures
        c == digit(d as nat),
{
    match d {
        0 => '0',
        1 => '1',
        2 => '2',
        3 => '3',
        4 => '4',
        5 => '5',
        6 => '6',
        7 => '7',
        8 => '8',
        _ => '9',
    }
}

/// `n` in decimal, without leading zeros.
pub fn decimal_text(n: u32) -> (r: Vec<char>)
    ensures
        r@ == decimal(n as nat),
    decreases n,
{
    if n < 10 {
        let mut r: Vec<char> = Vec::new();
        r.push(digit_of(n));
        proof {
            assert(r@ =~= seq![digit(n as nat)]);
        }
        r
    } else {
        let mut r = decimal_text(n / 10);
        r.push(digit_of(n % 10));
        r
    }
}

/// A complex number as shown in the status line.
pub fn complex_text(value: &ComplexText) -> (r: Vec<char>)
    ensures
        r@ == shown_complex(value.re@, value.im@, value.im_non_negative),
{
    let mut r = pad_left(&trim_trailing_zeros(&value.re), COLUMN_WIDTH);
    if value.im_non_negative {
        r.push('+');
    }
    let mut im = trim_trailing_zeros(&value.im);
    im.push('i');
    let column = pad_right(&im, COLUMN_WIDTH);
    push_text(&mut r, &column);
    proof {
        assert(r@ =~= shown_complex(value.re@, value.im@, value.im_non_negative));
    }
    r
}

/// The status line: the magnification (the reciprocal of the zoom factor),
/// the iteration budget, the centre of the view and the point under the
/// cursor.
pub fn status_line(
    magnification: &Vec<char>,
    max_iterations: u32,
    center: &ComplexText,
    mouse: &ComplexText,
) -> (line: Vec<char>)
    ensures
        line@ == status_text(magnification@, max_iterations, *center, *mouse),
{
    let mut line: Vec<char> = Vec::new();
    push_str(&mut line, "Mandelbrot | Zoom = x");
    push_text(&mut line, &pad_right(&trim_trailing_zeros(magnification), COLUMN_WIDTH));
    push_str(&mut line, " | Max Iter = ");
    push_text(&mut line, &decimal_text(max_iterations));
    push_str(&mut line, " | Center = ");
    push_text(&mut line, &complex_text(center));
    push_str(&mut line, " | Mouse = ");
    push_text(&mut line, &complex_text(mouse));
    proof {
        assert(line@ =~= status_text(magnification@, max_iterations, *center, *mouse));
    }
    line
}

} // verus!
