//! The frame codec: hexadecimal encoding and decoding of byte frames and
//! the rendering of received buffers in the active display formats.
//!
//! Everything is specified at the character level: each executable routine
//! states exactly which character sequence it produces or which bytes it
//! decodes.

use vstd::prelude::*;
use vstd::utf8::{decode_utf8, valid_utf8};
use crate::text::{push_char, spec_dec, u64_to_dec};

verus! {

/// An ASCII hexadecimal digit, either case.
pub open spec fn is_hex_digit(c: char) -> bool {
    ('0' <= c && c <= '9') || ('a' <= c && c <= 'f') || ('A' <= c && c <= 'F')
}

/// The numeric value of a hexadecimal digit.
pub open spec fn hex_val(c: char) -> u8
    recommends
        is_hex_digit(c),
{
    if '0' <= c && c <= '9' {
        (c as u32 - '0' as u32) as u8
    } else if 'a' <= c && c <= 'f' {
        (c as u32 - 'a' as u32 + 10) as u8
    } else {
        (c as u32 - 'A' as u32 + 10) as u8
    }
}

pub open spec fn all_hex_digits(s: Seq<char>) -> bool {
    forall|i: int| 0 <= i < s.len() ==> is_hex_digit(#[trigger] s[i])
}

/// The bytes encoded by an even-length sequence of hexadecimal digits,
/// two digits per byte, high digit first.
pub open spec fn spec_hex_decode(s: Seq<char>) -> Seq<u8>
    recommends
        s.len() % 2 == 0,
        all_hex_digits(s),
    decreases s.len(),
{
    if s.len() < 2 {
        Seq::empty()
    } else {
        seq![((hex_val(s[0]) as u32) * 16 + (hex_val(s[1]) as u32)) as u8] + spec_hex_decode(
            s.skip(2),
        )
    }
}

/// The uppercase hexadecimal digit for a value below sixteen.
pub open spec fn spec_hex_digit_char(n: u8) -> char
    recommends
        n < 16,
{
    if n == 0 {
        '0'
    } else if n == 1 {
        '1'
    } else if n == 2 {
        '2'
    } else if n == 3 {
        '3'
    } else if n == 4 {
        '4'
    } else if n == 5 {
        '5'
    } else if n == 6 {
        '6'
    } else if n == 7 {
        '7'
    } else if n == 8 {
        '8'
    } else if n == 9 {
        '9'
    } else if n == 10 {
        'A'
    } else if n == 11 {
        'B'
    } else if n == 12 {
        'C'
    } else if n == 13 {
        'D'
    } else if n == 14 {
        'E'
    } else {
        'F'
    }
}

/// The two-digit uppercase hexadecimal rendering of one byte.
pub open spec fn byte_hex_chars(b: u8) -> Seq<char> {
    seq![spec_hex_digit_char(b / 16), spec_hex_digit_char(b % 16)]
}

pub open spec fn spec_bin_digit_char(n: u8) -> char {
    if n == 1 {
        '1'
    } else {
        '0'
    }
}

/// The eight-digit binary rendering of one byte, most significant bit first.
pub open spec fn byte_bin_chars(b: u8) -> Seq<char> {
    seq![
        spec_bin_digit_char(b / 128 % 2),
        spec_bin_digit_char(b / 64 % 2),
        spec_bin_digit_char(b / 32 % 2),
        spec_bin_digit_char(b / 16 % 2),
        spec_bin_digit_char(b / 8 % 2),
        spec_bin_digit_char(b / 4 % 2),
        spec_bin_digit_char(b / 2 % 2),
        spec_bin_digit_char(b % 2),
    ]
}

/// Each byte rendered by `f`, with single spaces between renderings.
pub open spec fn spec_join_bytes(b: Seq<u8>, f: spec_fn(u8) -> Seq<char>) -> Seq<char>
    decreases b.len(),
{
    if b.len() == 0 {
        Seq::empty()
    } else if b.len() == 1 {
        f(b[0])
    } else {
        f(b[0]) + seq![' '] + spec_join_bytes(b.drop_first(), f)
    }
}

/// The space-separated uppercase hexadecimal rendering of a buffer.
pub open spec fn spec_hex_render(b: Seq<u8>) -> Seq<char> {
    spec_join_bytes(b, |x: u8| byte_hex_chars(x))
}

/// The space-separated binary rendering of a buffer.
pub open spec fn spec_bin_render(b: Seq<u8>) -> Seq<char> {
    spec_join_bytes(b, |x: u8| byte_bin_chars(x))
}

/// The input with every ASCII space character removed.
pub open spec fn spec_strip_spaces(s: Seq<char>) -> Seq<char>
    decreases s.len(),
{
    if s.len() == 0 {
        Seq::empty()
    } else if s[0] == ' ' {
        spec_strip_spaces(s.drop_first())
    } else {
        seq![s[0]] + spec_strip_spaces(s.drop_first())
    }
}

fn hex_digit_char(n: u8) -> (c: char)
    requires
        n < 16,
    ensures
        c == spec_hex_digit_char(n),
{
    match n {
        0 => '0',
        1 => '1',
        2 => '2',
        3 => '3',
        4 => '4',
        5 => '5',
        6 => '6',
        7 => '7',
        8 => '8',
        9 => '9',
        10 => 'A',
        11 => 'B',
        12 => 'C',
        13 => 'D',
        14 => 'E',
        _ => 'F',
    }
}

fn bin_digit_char(n: u8) -> (c: char)
    ensures
        c == spec_bin_digit_char(n),
{
    if n == 1 {
        '1'
    } else {
        '0'
    }
}

proof fn lemma_strip_snoc(t: Seq<char>, c: char)
    ensures
        spec_strip_spaces(t.push(c)) == if c == ' ' {
            spec_strip_spaces(t)
        } else {
            spec_strip_spaces(t).push(c)
        },
    decreases t.len(),
{
    if t.len() == 0 {
        assert(t.push(c).drop_first() =~= Seq::<char>::empty());
        if c != ' ' {
            assert(seq![c] + spec_strip_spaces(Seq::<char>::empty()) =~= spec_strip_spaces(
                Seq::<char>::empty(),
            ).push(c));
        }
    } else {
        assert(t.push(c).drop_first() =~= t.drop_first().push(c));
        lemma_strip_snoc(t.drop_first(), c);
        assert(t.push(c)[0] == t[0]);
        if t[0] != ' ' && c != ' ' {
            assert(seq![t[0]] + spec_strip_spaces(t.drop_first()).push(c) =~= (seq![t[0]]
                + spec_strip_spaces(t.drop_first())).push(c));
        }
    }
}

proof fn lemma_join_snoc(b: Seq<u8>, x: u8, f: spec_fn(u8) -> Seq<char>)
    ensures
        spec_join_bytes(b.push(x), f) == if b.len() == 0 {
            f(x)
        } else {
            spec_join_bytes(b, f) + seq![' '] + f(x)
        },
    decreases b.len(),
{
    if b.len() == 0 {
        assert(b.push(x)[0] == x);
        assert(spec_join_bytes(b.push(x), f) == f(x));
    } else if b.len() == 1 {
        assert(b.push(x).drop_first() =~= seq![x]);
        assert(spec_join_bytes(seq![x], f) == f(x));
        assert(spec_join_bytes(b.push(x), f) == f(b[0]) + seq![' '] + f(x));
    } else {
        assert(b.push(x).drop_first() =~= b.drop_first().push(x));
        lemma_join_snoc(b.drop_first(), x, f);
        assert((f(b[0]) + seq![' ']) + (spec_join_bytes(b.drop_first(), f) + seq![' '] + f(x)) =~= (
        (f(b[0]) + seq![' ']) + spec_join_bytes(b.drop_first(), f)) + seq![' '] + f(x));
    }
}

fn push_hex_byte(r: &mut String, b: u8)
    ensures
        final(r)@ == old(r)@ + byte_hex_chars(b),
{
    push_char(r, hex_digit_char(b / 16));
    push_char(r, hex_digit_char(b % 16));
    proof {
        assert(r@ =~= old(r)@ + byte_hex_chars(b));
    }
}

fn push_bin_byte(r: &mut String, b: u8)
    ensures
        final(r)@ == old(r)@ + byte_bin_chars(b),
{
    push_char(r, bin_digit_char(b / 128 % 2));
    push_char(r, bin_digit_char(b / 64 % 2));
    push_char(r, bin_digit_char(b / 32 % 2));
    push_char(r, bin_digit_char(b / 16 % 2));
    push_char(r, bin_digit_char(b / 8 % 2));
    push_char(r, bin_digit_char(b / 4 % 2));
    push_char(r, bin_digit_char(b / 2 % 2));
    push_char(r, bin_digit_char(b % 2));
    proof {
        assert(r@ =~= old(r)@ + byte_bin_chars(b));
    }
}

/// Removes every ASCII space character from a string.
pub fn strip_spaces(s: &str) -> (r: String)
    ensures
        r@ == spec_strip_spaces(s@),
{
    let len = s.unicode_len();
    let mut r = String::new();
    let mut i: usize = 0;
    while i < len
        invariant
            i <= len,
            len == s@.len(),
            r@ == spec_strip_spaces(s@.take(i as int)),
        decreases len - i,
    {
        let c = s.get_char(i);
        if c != ' ' {
            push_char(&mut r, c);
        }
        proof {
            lemma_strip_snoc(s@.take(i as int), s@[i as int]);
            assert(s@.take(i + 1) =~= s@.take(i as int).push(s@[i as int]));
        }
        i += 1;
    }
    proof {
        assert(s@.take(len as int) =~= s@);
    }
    r
}

/// Renders a buffer as space-separated uppercase two-digit hexadecimal groups.
pub fn format_hex_spaced(buf: &Vec<u8>) -> (r: String)
    ensures
        r@ == spec_hex_render(buf@),
{
    let mut r = String::new();
    let mut i: usize = 0;
    while i < buf.len()
        invariant
            i <= buf.len(),
            r@ == spec_hex_render(buf@.take(i as int)),
        decreases buf.len() - i,
    {
        if i > 0 {
            push_char(&mut r, ' ');
        }
        let b = buf[i];
        push_hex_byte(&mut r, b);
        proof {
            lemma_join_snoc(buf@.take(i as int), buf@[i as int], |x: u8| byte_hex_chars(x));
            assert(buf@.take(i + 1) =~= buf@.take(i as int).push(buf@[i as int]));
            assert(r@ =~= spec_hex_render(buf@.take(i + 1)));
        }
        i += 1;
    }
    proof {
        assert(buf@.take(buf@.len() as int) =~= buf@);
    }
    r
}

/// Renders a buffer as space-separated eight-digit binary groups.
pub fn format_bin_spaced(buf: &Vec<u8>) -> (r: String)
    ensures
        r@ == spec_bin_render(buf@),
{
    let mut r = String::new();
    let mut i: usize = 0;
    while i < buf.len()
        invariant
            i <= buf.len(),
            r@ == spec_bin_render(buf@.take(i as int)),
        decreases buf.len() - i,
    {
        if i > 0 {
            push_char(&mut r, ' ');
        }
        let b = buf[i];
        push_bin_byte(&mut r, b);
        proof {
            lemma_join_snoc(buf@.take(i as int), buf@[i as int], |x: u8| byte_bin_chars(x));
            assert(buf@.take(i + 1) =~= buf@.take(i as int).push(buf@[i as int]));
            assert(r@ =~= spec_bin_render(buf@.take(i + 1)));
        }
        i += 1;
    }
    proof {
        assert(buf@.take(buf@.len() as int) =~= buf@);
    }
    r
}

/// The message text of the error that decoding a given character sequence
/// with the hexadecimal decoder yields; it depends on the input alone.
pub uninterp spec fn hex_err_text(s: Seq<char>) -> Seq<char>;

/// The message text of the error that decoding a given byte sequence as
/// UTF-8 yields; it depends on the bytes alone.
pub uninterp spec fn utf8_err_text(bytes: Seq<u8>) -> Seq<char>;

/// A failure of [`hex_decode`].
#[derive(Debug)]
pub enum HexDecodeError {
    /// The stripped input had an odd number of characters.
    OddLength,
    /// Some character was not a hexadecimal digit; the field carries the
    /// decoder's message.
    BadDigit(String),
}

/// Relies on `hex::decode`: an even number of hexadecimal digits decodes
/// to the bytes that the digit pairs spell (`val(hi) << 4 | val(lo)`, which
/// for digit values below sixteen equals `hi * 16 + lo`); any other input
/// is an error. A character outside the hexadecimal digits is never a
/// one-byte UTF-8 hexadecimal digit, so such inputs land in the error case
/// at the byte level as well.
#[verifier::external_body]
fn hex_decode_call(s: &str) -> (r: Result<Vec<u8>, String>)
    ensures
        (match r {
            Ok(v) => s@.len() % 2 == 0 && all_hex_digits(s@) && v@ == spec_hex_decode(s@),
            Err(m) => !(s@.len() % 2 == 0 && all_hex_digits(s@)) && m@ == hex_err_text(s@),
        }),
{
    match hex::decode(s) {
        Ok(v) => Ok(v),
        Err(e) => Err(format!("{e}")),
    }
}

/// Relies on `String::from_utf8`: valid UTF-8 bytes decode to exactly the
/// characters they encode, anything else is an error whose message depends
/// on the bytes alone.
#[verifier::external_body]
fn utf8_decode_call(buf: &Vec<u8>) -> (r: Result<String, String>)
    ensures
        (match r {
            Ok(t) => valid_utf8(buf@) && t@ == decode_utf8(buf@),
            Err(m) => !valid_utf8(buf@) && m@ == utf8_err_text(buf@),
        }),
{
    match String::from_utf8(buf.clone()) {
        Ok(t) => Ok(t),
        Err(e) => Err(format!("{e}")),
    }
}

/// What the received-buffer text rendering shows: the decoded characters
/// for valid UTF-8, the decoder's message otherwise.
pub open spec fn spec_utf8_render(b: Seq<u8>) -> Seq<char> {
    if valid_utf8(b) {
        decode_utf8(b)
    } else {
        utf8_err_text(b)
    }
}

/// Renders a received buffer as text: the decoded string when the bytes
/// are valid UTF-8, the decode error's message otherwise.
pub fn render_utf8(buf: &Vec<u8>) -> (r: String)
    ensures
        r@ == spec_utf8_render(buf@),
{
    match utf8_decode_call(buf) {
        Ok(t) => t,
        Err(m) => m,
    }
}

/// Decodes a composed hexadecimal command: ASCII spaces are stripped, the
/// remainder must be an even number of hexadecimal digits. An odd length is
/// [`HexDecodeError::OddLength`]; a stray character is
/// [`HexDecodeError::BadDigit`] with the decoder's message.
pub fn hex_decode(s: &str) -> (r: Result<Vec<u8>, HexDecodeError>)
    ensures
        (match r {
            Ok(v) => spec_strip_spaces(s@).len() % 2 == 0 && all_hex_digits(spec_strip_spaces(s@))
                && v@ == spec_hex_decode(spec_strip_spaces(s@)),
            Err(HexDecodeError::OddLength) => spec_strip_spaces(s@).len() % 2 != 0,
            Err(HexDecodeError::BadDigit(m)) => spec_strip_spaces(s@).len() % 2 == 0
                && !all_hex_digits(spec_strip_spaces(s@)) && m@ == hex_err_text(
                spec_strip_spaces(s@),
            ),
        }),
{
    let stripped = strip_spaces(s);
    if stripped.as_str().unicode_len() % 2 != 0 {
        return Err(HexDecodeError::OddLength);
    }
    match hex_decode_call(stripped.as_str()) {
        Ok(v) => Ok(v),
        Err(m) => Err(HexDecodeError::BadDigit(m)),
    }
}

/// The set of display formats active for received buffers.
#[derive(Clone, Copy, Debug, PartialEq, Eq, Structural)]
pub struct RxFormats {
    pub utf8: bool,
    pub hex: bool,
    pub bin: bool,
}

/// The `Received <n> bytes: ` prefix of every received-buffer log line.
pub open spec fn spec_recv_prefix(count: u64) -> Seq<char> {
    "Received "@ + spec_dec(count as nat) + " bytes: "@
}

/// The log lines a received buffer produces: one per active format, in the
/// order hexadecimal, binary, text.
pub open spec fn spec_render_lines(count: u64, b: Seq<u8>, f: RxFormats) -> Seq<Seq<char>> {
    (if f.hex {
        seq![spec_recv_prefix(count) + spec_hex_render(b)]
    } else {
        Seq::empty()
    }) + (if f.bin {
        seq![spec_recv_prefix(count) + spec_bin_render(b)]
    } else {
        Seq::empty()
    }) + (if f.utf8 {
        seq![spec_recv_prefix(count) + spec_utf8_render(b)]
    } else {
        Seq::empty()
    })
}

fn recv_prefix(count: u64) -> (r: String)
    ensures
        r@ == spec_recv_prefix(count),
{
    let mut r = "Received ".to_owned();
    r.append(u64_to_dec(count).as_str());
    r.append(" bytes: ");
    r
}

/// Renders a received buffer once per active format, reporting `count` as
/// the number of bytes read, in the order hexadecimal, binary, text.
pub fn render_bytes(count: u64, buf: &Vec<u8>, formats: RxFormats) -> (r: Vec<String>)
    ensures
        r.deep_view() == spec_render_lines(count, buf@, formats),
{
    let mut r: Vec<String> = Vec::new();
    if formats.hex {
        let mut line = recv_prefix(count);
        line.append(format_hex_spaced(buf).as_str());
        r.push(line);
    }
    if formats.bin {
        let mut line = recv_prefix(count);
        line.append(format_bin_spaced(buf).as_str());
        r.push(line);
    }
    if formats.utf8 {
        let mut line = recv_prefix(count);
        line.append(render_utf8(buf).as_str());
        r.push(line);
    }
    proof {
        assert(r.deep_view() =~~= spec_render_lines(count, buf@, formats));
    }
    r
}

proof fn lemma_strip_concat(u: Seq<char>, v: Seq<char>)
    ensures
        spec_strip_spaces(u + v) == spec_strip_spaces(u) + spec_strip_spaces(v),
    decreases u.len(),
{
    if u.len() == 0 {
        assert(u + v =~= v);
        assert(spec_strip_spaces(u) + spec_strip_spaces(v) =~= spec_strip_spaces(v));
    } else {
        assert((u + v).drop_first() =~= u.drop_first() + v);
        lemma_strip_concat(u.drop_first(), v);
        if u[0] != ' ' {
            assert(seq![u[0]] + (spec_strip_spaces(u.drop_first()) + spec_strip_spaces(v)) =~= (
            seq![u[0]] + spec_strip_spaces(u.drop_first())) + spec_strip_spaces(v));
        }
    }
}

proof fn lemma_strip_no_spaces(t: Seq<char>)
    requires
        forall|i: int| 0 <= i < t.len() ==> t[i] != ' ',
    ensures
        spec_strip_spaces(t) == t,
    decreases t.len(),
{
    if t.len() > 0 {
        lemma_strip_no_spaces(t.drop_first());
        assert(seq![t[0]] + t.drop_first() =~= t);
    }
}

proof fn lemma_hex_digit_val(n: u8)
    requires
        n < 16,
    ensures
        is_hex_digit(spec_hex_digit_char(n)),
        hex_val(spec_hex_digit_char(n)) == n,
        spec_hex_digit_char(n) != ' ',
{
}

proof fn lemma_decode_snoc(t: Seq<char>, x: u8)
    requires
        t.len() % 2 == 0,
        all_hex_digits(t),
    ensures
        spec_hex_decode(t + byte_hex_chars(x)) == spec_hex_decode(t).push(x),
    decreases t.len(),
{
    lemma_hex_digit_val(x / 16);
    lemma_hex_digit_val(x % 16);
    if t.len() == 0 {
        reveal_with_fuel(spec_hex_decode, 2);
        assert(t + byte_hex_chars(x) =~= byte_hex_chars(x));
        let u = byte_hex_chars(x);
        assert(u.skip(2) =~= Seq::<char>::empty());
        assert(spec_hex_decode(u.skip(2)) == Seq::<u8>::empty());
        assert((x / 16) as u32 * 16 + (x % 16) as u32 == x as u32) by {
            vstd::arithmetic::div_mod::lemma_fundamental_div_mod(x as int, 16);
        }
        assert(spec_hex_decode(u) =~= spec_hex_decode(t).push(x));
    } else {
        assert((t + byte_hex_chars(x)).skip(2) =~= t.skip(2) + byte_hex_chars(x));
        assert(t.skip(2).len() % 2 == 0);
        assert(all_hex_digits(t.skip(2))) by {
            assert(forall|i: int|
                0 <= i < t.skip(2).len() ==> #[trigger] t.skip(2)[i] == t[i + 2]);
        }
        lemma_decode_snoc(t.skip(2), x);
        assert((t + byte_hex_chars(x))[0] == t[0]);
        assert((t + byte_hex_chars(x))[1] == t[1]);
        assert(spec_hex_decode(t + byte_hex_chars(x)) =~= spec_hex_decode(t).push(x));
    }
}

/// The codec round trip: rendering any byte sequence as space-separated
/// hexadecimal groups and decoding the rendering (spaces stripped) yields
/// the same bytes again, and the rendering consists of exactly one
/// two-digit group per byte, single spaces in between.
pub proof fn lemma_hex_round_trip(b: Seq<u8>)
    ensures
        spec_strip_spaces(spec_hex_render(b)).len() == 2 * b.len(),
        all_hex_digits(spec_strip_spaces(spec_hex_render(b))),
        spec_hex_decode(spec_strip_spaces(spec_hex_render(b))) == b,
        spec_hex_render(b).len() == if b.len() == 0 {
            0
        } else {
            3 * b.len() - 1
        },
    decreases b.len(),
{
    if b.len() == 0 {
    } else {
        let c = b.drop_last();
        let x = b.last();
        lemma_hex_round_trip(c);
        assert(b =~= c.push(x));
        lemma_join_snoc(c, x, |y: u8| byte_hex_chars(y));
        lemma_hex_digit_val(x / 16);
        lemma_hex_digit_val(x % 16);
        lemma_strip_no_spaces(byte_hex_chars(x));
        let sc = spec_strip_spaces(spec_hex_render(c));
        if c.len() == 0 {
            assert(spec_hex_render(b) == byte_hex_chars(x));
            assert(sc =~= Seq::<char>::empty());
            lemma_decode_snoc(sc, x);
            assert(sc + byte_hex_chars(x) =~= byte_hex_chars(x));
            assert(spec_hex_decode(spec_strip_spaces(spec_hex_render(b))) =~= b);
        } else {
            assert(spec_hex_render(b) == spec_hex_render(c) + seq![' '] + byte_hex_chars(x));
            lemma_strip_concat(spec_hex_render(c) + seq![' '], byte_hex_chars(x));
            lemma_strip_concat(spec_hex_render(c), seq![' ']);
            assert(seq![' '].drop_first() =~= Seq::<char>::empty());
            assert(spec_strip_spaces(seq![' ']) =~= Seq::<char>::empty()) by {
                reveal_with_fuel(spec_strip_spaces, 2);
            }
            assert(sc + Seq::<char>::empty() =~= sc);
            assert(spec_strip_spaces(spec_hex_render(b)) == sc + byte_hex_chars(x));
            lemma_decode_snoc(sc, x);
            assert(spec_hex_decode(sc).push(x) =~= b);
        }
    }
}

} // verus!
