//! Terminal control sequences, byte for byte, and the primitives that append
//! them to an output buffer.
//!
//! Every sequence is given twice: as a spec function returning the exact bytes
//! and as an executable function that appends those bytes to a `Vec<u8>`.

use crate::row::chars_of;
use crate::width::{
    fit_prefix, fitted, lemma_fitted_is_longest, lemma_total_width_of_text, text_width,
    widths_of_text,
};
use vstd::prelude::*;
use vstd::utf8::*;

verus! {

/// The decimal digits of `n`, most significant first, as ASCII bytes.
pub open spec fn decimal(n: nat) -> Seq<u8>
    decreases n,
{
    if n < 10 {
        seq![(48 + n) as u8]
    } else {
        decimal(n / 10).push((48 + n % 10) as u8)
    }
}

/// `n` space characters.
pub open spec fn spaces(n: nat) -> Seq<u8> {
    Seq::new(n, |i: int| 0x20u8)
}

/// The first `width` bytes of `bytes`, and all of them when there are no
/// more than `width`.
pub open spec fn clamp(bytes: Seq<u8>, width: nat) -> Seq<u8> {
    if bytes.len() <= width {
        bytes
    } else {
        bytes.take(width as int)
    }
}

/// `ESC [`, the control sequence introducer.
pub open spec fn csi() -> Seq<u8> {
    seq![0x1bu8, 0x5bu8]
}

/// `ESC [ {line} H`: move the cursor to the start of a physical line (1-based).
pub open spec fn move_to_line(line: nat) -> Seq<u8> {
    csi() + decimal(line) + seq![0x48u8]
}

/// `ESC [ {row} ; {col} H`: move the cursor to a cell (both 1-based).
pub open spec fn move_to(row: nat, col: nat) -> Seq<u8> {
    csi() + decimal(row) + seq![0x3bu8] + decimal(col) + seq![0x48u8]
}

/// `ESC [ K`: erase from the cursor to the end of the line.
pub open spec fn clear_to_eol() -> Seq<u8> {
    seq![0x1bu8, 0x5bu8, 0x4bu8]
}

/// `ESC [ ? 25 l`: hide the cursor.
pub open spec fn hide_cursor() -> Seq<u8> {
    seq![0x1bu8, 0x5bu8, 0x3fu8, 0x32u8, 0x35u8, 0x6cu8]
}

/// `ESC [ ? 25 h`: show the cursor.
pub open spec fn show_cursor() -> Seq<u8> {
    seq![0x1bu8, 0x5bu8, 0x3fu8, 0x32u8, 0x35u8, 0x68u8]
}

/// `ESC [ ? 47 h`: enter the alternate screen buffer.
pub open spec fn enter_alternate_screen() -> Seq<u8> {
    seq![0x1bu8, 0x5bu8, 0x3fu8, 0x34u8, 0x37u8, 0x68u8]
}

/// `ESC [ ? 47 l` then `ESC [ H`: leave the alternate screen buffer and home
/// the cursor.
pub open spec fn leave_alternate_screen() -> Seq<u8> {
    seq![0x1bu8, 0x5bu8, 0x3fu8, 0x34u8, 0x37u8, 0x6cu8, 0x1bu8, 0x5bu8, 0x48u8]
}

/// `ESC [ 9999 C`, `ESC [ 9999 B`, `ESC [ 6 n`: push the cursor to the far
/// corner, then ask where it is.
pub open spec fn size_probe() -> Seq<u8> {
    seq![
        0x1bu8, 0x5bu8, 0x39u8, 0x39u8, 0x39u8, 0x39u8, 0x43u8,
        0x1bu8, 0x5bu8, 0x39u8, 0x39u8, 0x39u8, 0x39u8, 0x42u8,
        0x1bu8, 0x5bu8, 0x36u8, 0x6eu8,
    ]
}

/// Appends a copy of `bytes`.
pub fn push_bytes(buf: &mut Vec<u8>, bytes: &[u8])
    ensures
        final(buf)@ == old(buf)@ + bytes@,
{
    let n = bytes.len();
    let mut i: usize = 0;
    while i < n
        invariant
            i <= n,
            n == bytes@.len(),
            buf@ == old(buf)@ + bytes@.take(i as int),
        decreases n - i,
    {
        buf.push(bytes[i]);
        i += 1;
    }
    assert(bytes@.take(n as int) == bytes@);
}

/// Appends the UTF-8 bytes of `text`.
pub fn push_str(buf: &mut Vec<u8>, text: &str)
    ensures
        final(buf)@ == old(buf)@ + encode_utf8(text@),
{
    push_bytes(buf, text.as_bytes());
}

/// Appends `n` spaces.
pub fn push_spaces(buf: &mut Vec<u8>, n: usize)
    ensures
        final(buf)@ == old(buf)@ + spaces(n as nat),
{
    let mut i: usize = 0;
    while i < n
        invariant
            i <= n,
            buf@ == old(buf)@ + spaces(i as nat),
        decreases n - i,
    {
        buf.push(0x20);
        assert(spaces(i as nat).push(0x20u8) == spaces((i + 1) as nat));
        i += 1;
    }
}

/// Appends `n` in decimal.
pub fn push_decimal(buf: &mut Vec<u8>, n: usize)
    ensures
        final(buf)@ == old(buf)@ + decimal(n as nat),
    decreases n,
{
    if n >= 10 {
        push_decimal(buf, n / 10);
    }
    let digit: u8 = 48 + (n % 10) as u8;
    buf.push(digit);
    assert(n < 10 ==> old(buf)@ + decimal(n as nat) == old(buf)@.push(digit));
    assert(n >= 10 ==> old(buf)@ + decimal(n as nat) == (old(buf)@ + decimal((n / 10) as nat)).push(
        digit,
    ));
}

/// Appends the one to four bytes that encode `c` in UTF-8.
pub fn push_char(buf: &mut Vec<u8>, c: char)
    ensures
        final(buf)@ == old(buf)@ + encode_scalar(c as u32),
{
    let v: u32 = c as u32;
    proof {
        char_is_scalar(c);
    }
    if v <= 0x7f {
        let b1: u8 = (v & 0x7f) as u8;
        buf.push(b1);
        assert(old(buf)@ + encode_scalar(v) == old(buf)@.push(b1));
    } else if v <= 0x7ff {
        let b1: u8 = 0xc0 | ((v >> 6) & 0x1f) as u8;
        let b2: u8 = 0x80 | (v & 0x3f) as u8;
        buf.push(b1);
        buf.push(b2);
        assert(old(buf)@ + encode_scalar(v) == old(buf)@.push(b1).push(b2));
    } else if v <= 0xffff {
        let b1: u8 = 0xe0 | ((v >> 12) & 0x0f) as u8;
        let b2: u8 = 0x80 | ((v >> 6) & 0x3f) as u8;
        let b3: u8 = 0x80 | (v & 0x3f) as u8;
        buf.push(b1);
        buf.push(b2);
        buf.push(b3);
        assert(old(buf)@ + encode_scalar(v) == old(buf)@.push(b1).push(b2).push(b3));
    } else {
        let b1: u8 = 0xf0 | ((v >> 18) & 0x07) as u8;
        let b2: u8 = 0x80 | ((v >> 12) & 0x3f) as u8;
        let b3: u8 = 0x80 | ((v >> 6) & 0x3f) as u8;
        let b4: u8 = 0x80 | (v & 0x3f) as u8;
        buf.push(b1);
        buf.push(b2);
        buf.push(b3);
        buf.push(b4);
        assert(old(buf)@ + encode_scalar(v) == old(buf)@.push(b1).push(b2).push(b3).push(b4));
    }
}

/// Appends `ESC [ {line} H`.
pub fn push_move_to_line(buf: &mut Vec<u8>, line: usize)
    ensures
        final(buf)@ == old(buf)@ + move_to_line(line as nat),
{
    buf.push(0x1b);
    buf.push(0x5b);
    push_decimal(buf, line);
    buf.push(0x48);
    assert(buf@ == old(buf)@ + move_to_line(line as nat));
}

/// Appends `ESC [ {row} ; {col} H`.
pub fn push_move_to(buf: &mut Vec<u8>, row: usize, col: usize)
    ensures
        final(buf)@ == old(buf)@ + move_to(row as nat, col as nat),
{
    buf.push(0x1b);
    buf.push(0x5b);
    push_decimal(buf, row);
    buf.push(0x3b);
    push_decimal(buf, col);
    buf.push(0x48);
    assert(buf@ == old(buf)@ + move_to(row as nat, col as nat));
}

/// Appends `ESC [ K`.
pub fn push_clear_to_eol(buf: &mut Vec<u8>)
    ensures
        final(buf)@ == old(buf)@ + clear_to_eol(),
{
    buf.push(0x1b);
    buf.push(0x5b);
    buf.push(0x4b);
    assert(buf@ == old(buf)@ + clear_to_eol());
}

/// Appends `ESC [ ? 25 h`.
pub fn push_show_cursor(buf: &mut Vec<u8>)
    ensures
        final(buf)@ == old(buf)@ + show_cursor(),
{
    buf.push(0x1b);
    buf.push(0x5b);
    buf.push(0x3f);
    buf.push(0x32);
    buf.push(0x35);
    buf.push(0x68);
    assert(buf@ == old(buf)@ + show_cursor());
}

/// The bytes of `ESC [ ? 25 l`.
pub fn hide_cursor_sequence() -> (out: Vec<u8>)
    ensures
        out@ == hide_cursor(),
{
    let mut out: Vec<u8> = Vec::new();
    out.push(0x1b);
    out.push(0x5b);
    out.push(0x3f);
    out.push(0x32);
    out.push(0x35);
    out.push(0x6c);
    assert(out@ == hide_cursor());
    out
}

/// The bytes that enter the alternate screen buffer, written once when the
/// screen is set up.
pub fn enter_alternate_screen_sequence() -> (out: Vec<u8>)
    ensures
        out@ == enter_alternate_screen(),
{
    let mut out: Vec<u8> = Vec::new();
    out.push(0x1b);
    out.push(0x5b);
    out.push(0x3f);
    out.push(0x34);
    out.push(0x37);
    out.push(0x68);
    assert(out@ == enter_alternate_screen());
    out
}

/// The bytes that restore the primary screen buffer, written once when the
/// screen is torn down.
pub fn leave_alternate_screen_sequence() -> (out: Vec<u8>)
    ensures
        out@ == leave_alternate_screen(),
{
    let mut out: Vec<u8> = Vec::new();
    out.push(0x1b);
    out.push(0x5b);
    out.push(0x3f);
    out.push(0x34);
    out.push(0x37);
    out.push(0x6c);
    out.push(0x1b);
    out.push(0x5b);
    out.push(0x48);
    assert(out@ == leave_alternate_screen());
    out
}

/// The bytes of the window-size probe.
pub fn size_probe_sequence() -> (out: Vec<u8>)
    ensures
        out@ == size_probe(),
{
    let mut out: Vec<u8> = Vec::new();
    out.push(0x1b);
    out.push(0x5b);
    out.push(0x39);
    out.push(0x39);
    out.push(0x39);
    out.push(0x39);
    out.push(0x43);
    out.push(0x1b);
    out.push(0x5b);
    out.push(0x39);
    out.push(0x39);
    out.push(0x39);
    out.push(0x39);
    out.push(0x42);
    out.push(0x1b);
    out.push(0x5b);
    out.push(0x36);
    out.push(0x6e);
    assert(out@ == size_probe());
    out
}

/// Encoding a text with one more character appends that character's bytes.
pub proof fn lemma_encode_push(text: Seq<char>, c: char)
    ensures
        encode_utf8(text.push(c)) == encode_utf8(text) + encode_scalar(c as u32),
    decreases text.len(),
{
    if text.len() == 0 {
        assert(text.push(c).drop_first() == Seq::<char>::empty());
        assert(encode_utf8(text.push(c)) == encode_scalar(c as u32) + encode_utf8(
            Seq::<char>::empty(),
        ));
    } else {
        assert(text.push(c).drop_first() == text.drop_first().push(c));
        lemma_encode_push(text.drop_first(), c);
        assert(encode_utf8(text.push(c)) == encode_scalar(text[0] as u32) + (encode_utf8(
            text.drop_first(),
        ) + encode_scalar(c as u32)));
    }
}

/// Appends the first `count` characters of `text` in UTF-8.
pub fn push_chars(buf: &mut Vec<u8>, text: &Vec<char>, count: usize)
    requires
        count <= text@.len(),
    ensures
        final(buf)@ == old(buf)@ + encode_utf8(text@.take(count as int)),
{
    let mut i: usize = 0;
    assert(text@.take(0) == Seq::<char>::empty());
    assert(buf@ == old(buf)@ + encode_utf8(text@.take(0)));
    while i < count
        invariant
            i <= count <= text@.len(),
            buf@ == old(buf)@ + encode_utf8(text@.take(i as int)),
        decreases count - i,
    {
        proof {
            lemma_encode_push(text@.take(i as int), text@[i as int]);
            assert(text@.take(i as int).push(text@[i as int]) == text@.take(i + 1));
        }
        push_char(buf, text[i]);
        i += 1;
    }
}

/// Measures `text` against `limit` columns: the columns of its longest prefix
/// that is no wider, and whether that is the whole text.
pub fn fit_text(text: &str, limit: usize) -> (fit: (usize, bool))
    ensures
        fit.0 == text_width(fitted(text@, limit as nat)),
        fit.0 <= limit,
        fit.1 == (text_width(text@) <= limit),
{
    let chars = chars_of(text);
    let widths = widths_of_text(&chars);
    let (count, columns) = fit_prefix(widths.as_slice(), limit);
    proof {
        lemma_fitted_is_longest(chars@, limit as nat);
        lemma_total_width_of_text(chars@, count as int);
    }
    (columns, count == chars.len())
}

/// Appends the longest prefix of `text` that is no more than `limit` columns
/// wide, whole characters only, and returns the columns that it takes and
/// whether it is the whole text.
pub fn push_fitted(buf: &mut Vec<u8>, text: &str, limit: usize) -> (fit: (usize, bool))
    ensures
        final(buf)@ == old(buf)@ + encode_utf8(fitted(text@, limit as nat)),
        fit.0 == text_width(fitted(text@, limit as nat)),
        fit.0 <= limit,
        fit.1 == (text_width(text@) <= limit),
{
    let chars = chars_of(text);
    let widths = widths_of_text(&chars);
    let (count, columns) = fit_prefix(widths.as_slice(), limit);
    proof {
        lemma_fitted_is_longest(chars@, limit as nat);
        lemma_total_width_of_text(chars@, count as int);
    }
    push_chars(buf, &chars, count);
    (columns, count == chars.len())
}

} // verus!
