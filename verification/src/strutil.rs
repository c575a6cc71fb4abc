//! Verified string helpers: decimal rendering, comparison, and parsing.

use vstd::prelude::*;
use vstd::utf8::{decode_utf8, encode_utf8, is_ascii_chars, valid_utf8};

verus! {

/// The character for a single decimal digit.
pub open spec fn dec_digit(d: nat) -> char {
    if d == 0 {
        '0'
    } else if d == 1 {
        '1'
    } else if d == 2 {
        '2'
    } else if d == 3 {
        '3'
    } else if d == 4 {
        '4'
    } else if d == 5 {
        '5'
    } else if d == 6 {
        '6'
    } else if d == 7 {
        '7'
    } else if d == 8 {
        '8'
    } else {
        '9'
    }
}

/// The decimal representation of a natural number, without a sign and
/// without leading zeros (`0` is rendered as `"0"`).
pub open spec fn dec_of_nat(n: nat) -> Seq<char>
    decreases n,
{
    if n < 10 {
        seq![dec_digit(n)]
    } else {
        dec_of_nat(n / 10).push(dec_digit(n % 10))
    }
}

/// The decimal representation of an integer: a `-` sign for negative
/// values, then the digits of the magnitude.
pub open spec fn dec_of_int(v: int) -> Seq<char> {
    if v < 0 {
        seq!['-'] + dec_of_nat((-v) as nat)
    } else {
        dec_of_nat(v as nat)
    }
}

/// Relies on `String::from_utf8`: it succeeds exactly on valid UTF-8 input
/// and then returns the string holding the decoded characters.
#[verifier::external_body]
pub(crate) fn string_from_utf8(bytes: Vec<u8>) -> (r: Option<String>)
    ensures
        r is Some <==> valid_utf8(bytes@),
        r matches Some(s) ==> s@ == decode_utf8(bytes@),
{
    String::from_utf8(bytes).ok()
}

/// A byte sequence agreeing byte-for-byte with an ASCII character sequence
/// is valid UTF-8 and decodes to exactly those characters.
proof fn lemma_ascii_bytes_decode(chars: Seq<char>, bytes: Seq<u8>)
    requires
        is_ascii_chars(chars),
        bytes.len() == chars.len(),
        forall|i: int| 0 <= i < chars.len() ==> bytes[i] == #[trigger] chars[i] as u8,
    ensures
        valid_utf8(bytes),
        decode_utf8(bytes) == chars,
{
    broadcast use vstd::utf8::is_ascii_chars_encode_utf8;
    broadcast use vstd::utf8::encode_utf8_valid_utf8;
    broadcast use vstd::utf8::encode_utf8_decode_utf8;

    assert(encode_utf8(chars) =~= bytes);
}

/// Builds a string from bytes known to be ASCII codes of the given
/// character sequence.
fn ascii_to_string(bytes: Vec<u8>, Ghost(chars): Ghost<Seq<char>>) -> (s: String)
    requires
        is_ascii_chars(chars),
        bytes@.len() == chars.len(),
        forall|i: int| 0 <= i < chars.len() ==> bytes@[i] == #[trigger] chars[i] as u8,
    ensures
        s@ == chars,
{
    proof {
        lemma_ascii_bytes_decode(chars, bytes@);
    }
    match string_from_utf8(bytes) {
        Some(s) => s,
        None => {
            proof {
                assert(false);
            }
            String::new()
        },
    }
}

/// The ASCII code of a decimal digit character.
proof fn lemma_dec_digit_byte(d: nat)
    requires
        d < 10,
    ensures
        '0' <= dec_digit(d) <= '9',
        dec_digit(d) as u8 == 48 + d,
{
}

/// Every character of a decimal rendering is a digit, hence ASCII.
proof fn lemma_dec_of_nat_ascii(n: nat)
    ensures
        is_ascii_chars(dec_of_nat(n)),
        forall|i: int|
            0 <= i < dec_of_nat(n).len() ==> '0' <= #[trigger] dec_of_nat(n)[i] <= '9',
    decreases n,
{
    lemma_dec_digit_byte(n % 10);
    if n < 10 {
    } else {
        lemma_dec_of_nat_ascii(n / 10);
    }
}

/// Appends the ASCII bytes of the decimal rendering of `n`.
fn push_dec_bytes(n: u64, out: &mut Vec<u8>)
    ensures
        final(out)@.len() == old(out)@.len() + dec_of_nat(n as nat).len(),
        final(out)@ =~= old(out)@ + Seq::new(
            dec_of_nat(n as nat).len(),
            |i: int| dec_of_nat(n as nat)[i] as u8,
        ),
    decreases n,
{
    if n >= 10 {
        push_dec_bytes(n / 10, out);
    }
    let d: u8 = (n % 10) as u8;
    proof {
        lemma_dec_digit_byte((n % 10) as nat);
    }
    out.push(48 + d);
}

/// The decimal rendering of an unsigned 64-bit value.
pub fn u64_to_dec_string(n: u64) -> (s: String)
    ensures
        s@ == dec_of_nat(n as nat),
{
    let mut bytes: Vec<u8> = Vec::new();
    push_dec_bytes(n, &mut bytes);
    proof {
        lemma_dec_of_nat_ascii(n as nat);
    }
    ascii_to_string(bytes, Ghost(dec_of_nat(n as nat)))
}

/// The decimal rendering of a signed 64-bit value.
pub fn i64_to_dec_string(v: i64) -> (s: String)
    requires
        v > i64::MIN,
    ensures
        s@ == dec_of_int(v as int),
{
    if v < 0 {
        let mut bytes: Vec<u8> = vec![45u8];
        let m: u64 = (-v) as u64;
        push_dec_bytes(m, &mut bytes);
        proof {
            lemma_dec_of_nat_ascii(m as nat);
            assert(bytes@ =~= Seq::new(
                dec_of_int(v as int).len(),
                |i: int| dec_of_int(v as int)[i] as u8,
            ));
        }
        ascii_to_string(bytes, Ghost(dec_of_int(v as int)))
    } else {
        u64_to_dec_string(v as u64)
    }
}

/// The fractional digits of `rem / gain` produced by decimal long
/// division, stopping at a zero remainder or after `fuel` digits.  For a
/// power-of-ten divisor this is the exact fraction with trailing zeros
/// dropped.
pub open spec fn frac_digits(rem: nat, gain: nat, fuel: nat) -> Seq<char>
    recommends
        gain >= 1,
        rem < gain,
    decreases fuel,
{
    if rem == 0 || fuel == 0 || gain == 0 {
        Seq::empty()
    } else {
        seq![dec_digit((rem * 10) / gain)] + frac_digits((rem * 10) % gain, gain, (fuel - 1) as nat)
    }
}

/// How many fractional digits the long division may produce before it is
/// cut off.
pub open spec fn spec_frac_digit_limit() -> nat {
    10
}

/// The decimal-fraction rendering of `v / gain`: sign, integer part, and,
/// when the remainder is non-zero, a `.` followed by the long-division
/// digits of the remainder.
pub open spec fn scaled_dec(v: int, gain: nat) -> Seq<char>
    recommends
        gain >= 1,
{
    let a = if v < 0 {
        (-v) as nat
    } else {
        v as nat
    };
    let frac = frac_digits(a % gain, gain, spec_frac_digit_limit());
    let body = if frac.len() == 0 {
        dec_of_nat(a / gain)
    } else {
        dec_of_nat(a / gain) + seq!['.'] + frac
    };
    if v < 0 {
        seq!['-'] + body
    } else {
        body
    }
}

/// Every character of a fractional rendering is a digit.
proof fn lemma_frac_digits_ascii(rem: nat, gain: nat, fuel: nat)
    requires
        gain >= 1,
        rem < gain,
    ensures
        is_ascii_chars(frac_digits(rem, gain, fuel)),
        forall|i: int|
            0 <= i < frac_digits(rem, gain, fuel).len() ==> '0' <= #[trigger] frac_digits(
                rem,
                gain,
                fuel,
            )[i] <= '9',
    decreases fuel,
{
    if rem == 0 || fuel == 0 {
    } else {
        assert((rem * 10) / gain < 10) by (nonlinear_arith)
            requires
                gain >= 1,
                rem < gain,
        ;
        lemma_dec_digit_byte((rem * 10) / gain);
        lemma_frac_digits_ascii((rem * 10) % gain, gain, (fuel - 1) as nat);
    }
}

/// Appends the ASCII bytes of the long-division digits of `rem / gain`.
fn push_frac_bytes(rem: u32, gain: u32, fuel: u8, out: &mut Vec<u8>)
    requires
        1 <= gain <= 0xffff,
        rem < gain,
    ensures
        final(out)@.len() == old(out)@.len() + frac_digits(
            rem as nat,
            gain as nat,
            fuel as nat,
        ).len(),
        final(out)@ =~= old(out)@ + Seq::new(
            frac_digits(rem as nat, gain as nat, fuel as nat).len(),
            |i: int| frac_digits(rem as nat, gain as nat, fuel as nat)[i] as u8,
        ),
    decreases fuel,
{
    proof {
        lemma_frac_digits_ascii(rem as nat, gain as nat, fuel as nat);
    }
    if rem == 0 || fuel == 0 {
        return ;
    }
    let t: u32 = rem * 10;
    let d: u32 = t / gain;
    proof {
        assert(t / gain < 10) by (nonlinear_arith)
            requires
                gain >= 1,
                rem < gain,
                t == rem * 10,
        ;
        lemma_dec_digit_byte((t / gain) as nat);
    }
    out.push(48 + d as u8);
    push_frac_bytes(t % gain, gain, fuel - 1, out);
}

/// The decimal-fraction rendering of `v / gain`, e.g. `1234 / 10` as
/// `"123.4"` and `12300 / 100` as `"123"`.
pub fn scaled_to_dec_string(v: i64, gain: u16) -> (s: String)
    requires
        gain >= 1,
        v > i64::MIN,
    ensures
        s@ == scaled_dec(v as int, gain as nat),
{
    let a: u64 = if v < 0 {
        (-v) as u64
    } else {
        v as u64
    };
    let q: u64 = a / gain as u64;
    let r: u32 = (a % gain as u64) as u32;
    let ghost target = scaled_dec(v as int, gain as nat);
    let mut bytes: Vec<u8> = Vec::new();
    if v < 0 {
        bytes.push(45);
    }
    push_dec_bytes(q, &mut bytes);
    proof {
        lemma_dec_of_nat_ascii(q as nat);
        lemma_frac_digits_ascii(r as nat, gain as nat, spec_frac_digit_limit());
    }
    if r > 0 {
        bytes.push(46);
        push_frac_bytes(r, gain as u32, 10, &mut bytes);
    }
    proof {
        assert(bytes@ =~= Seq::new(target.len(), |i: int| target[i] as u8));
    }
    ascii_to_string(bytes, Ghost(target))
}

/// Relies on `String::from_iter`: the string holding exactly the given
/// characters, in order.
#[verifier::external_body]
pub(crate) fn string_from_chars(chars: Vec<char>) -> (r: String)
    ensures
        r@ == chars@,
{
    String::from_iter(chars)
}

/// The characters of a string slice as a vector.
pub fn str_chars_vec(s: &str) -> (r: Vec<char>)
    ensures
        r@ == s@,
{
    let n = s.unicode_len();
    let mut r: Vec<char> = Vec::new();
    let mut i: usize = 0;
    while i < n
        invariant
            i <= n,
            n == s@.len(),
            r@ == s@.take(i as int),
        decreases n - i,
    {
        r.push(s.get_char(i));
        proof {
            assert(r@ =~= s@.take(i + 1));
        }
        i += 1;
    }
    proof {
        assert(s@.take(n as int) =~= s@);
    }
    r
}

/// Copies the characters of `v` in the index range `[from, to)`.
pub fn copy_char_range(v: &Vec<char>, from: usize, to: usize) -> (r: Vec<char>)
    requires
        from <= to <= v@.len(),
    ensures
        r@ == v@.subrange(from as int, to as int),
{
    let mut r: Vec<char> = Vec::new();
    let mut i: usize = from;
    while i < to
        invariant
            from <= i <= to <= v@.len(),
            r@ == v@.subrange(from as int, i as int),
        decreases to - i,
    {
        r.push(v[i]);
        proof {
            assert(r@ =~= v@.subrange(from as int, i + 1));
        }
        i += 1;
    }
    r
}

/// Whether `p` is a prefix of `s`.
pub open spec fn has_prefix(s: Seq<char>, p: Seq<char>) -> bool {
    p.len() <= s.len() && s.subrange(0, p.len() as int) == p
}

/// Whether `p` is a suffix of `s`.
pub open spec fn has_suffix(s: Seq<char>, p: Seq<char>) -> bool {
    p.len() <= s.len() && s.subrange(s.len() - p.len(), s.len() as int) == p
}

/// Character-for-character string equality.
pub fn str_eq(a: &str, b: &str) -> (r: bool)
    ensures
        r == (a@ == b@),
{
    let n = a.unicode_len();
    if n != b.unicode_len() {
        return false;
    }
    let mut i: usize = 0;
    while i < n
        invariant
            i <= n,
            n == a@.len(),
            n == b@.len(),
            forall|j: int| 0 <= j < i ==> a@[j] == b@[j],
        decreases n - i,
    {
        if a.get_char(i) != b.get_char(i) {
            return false;
        }
        i += 1;
    }
    proof {
        assert(a@ =~= b@);
    }
    true
}

/// Whether the string `s` starts with `p`.
pub fn str_has_prefix(s: &str, p: &str) -> (r: bool)
    ensures
        r == has_prefix(s@, p@),
{
    let np = p.unicode_len();
    if np > s.unicode_len() {
        return false;
    }
    let mut i: usize = 0;
    while i < np
        invariant
            i <= np,
            np == p@.len(),
            np <= s@.len(),
            forall|j: int| 0 <= j < i ==> s@[j] == p@[j],
        decreases np - i,
    {
        if s.get_char(i) != p.get_char(i) {
            return false;
        }
        i += 1;
    }
    proof {
        assert(s@.subrange(0, p@.len() as int) =~= p@);
    }
    true
}

/// Whether the string `s` ends with `p`.
pub fn str_has_suffix(s: &str, p: &str) -> (r: bool)
    ensures
        r == has_suffix(s@, p@),
{
    let np = p.unicode_len();
    let ns = s.unicode_len();
    if np > ns {
        return false;
    }
    let off: usize = ns - np;
    let mut i: usize = 0;
    while i < np
        invariant
            i <= np,
            np == p@.len(),
            ns == s@.len(),
            off == ns - np,
            forall|j: int| 0 <= j < i ==> s@[off + j] == p@[j],
        decreases np - i,
    {
        if s.get_char(off + i) != p.get_char(i) {
            return false;
        }
        i += 1;
    }
    proof {
        assert(s@.subrange(s@.len() - p@.len(), s@.len() as int) =~= p@);
    }
    true
}

/// Whether `c` is a decimal digit.
pub open spec fn is_dec_digit_char(c: char) -> bool {
    '0' <= c <= '9'
}

/// The numeric value of a decimal digit character.
pub open spec fn digit_of_char(c: char) -> nat
    recommends
        is_dec_digit_char(c),
{
    (c as u32 - '0' as u32) as nat
}

/// Whether every character of `s` is a decimal digit.
pub open spec fn all_dec_digits(s: Seq<char>) -> bool {
    forall|i: int| 0 <= i < s.len() ==> is_dec_digit_char(#[trigger] s[i])
}

/// The numeric value of a digit sequence, most significant digit first.
pub open spec fn dec_value(s: Seq<char>) -> nat
    recommends
        all_dec_digits(s),
    decreases s.len(),
{
    if s.len() == 0 {
        0
    } else {
        dec_value(s.drop_last()) * 10 + digit_of_char(s.last())
    }
}

/// What parsing a decimal unsigned integer yields: an optional leading
/// `+`, then at least one digit, with the value within range.
pub open spec fn parse_u64_spec(s: Seq<char>) -> Option<u64> {
    let body = if s.len() > 0 && s[0] == '+' {
        s.drop_first()
    } else {
        s
    };
    if body.len() > 0 && all_dec_digits(body) && dec_value(body) <= u64::MAX {
        Some(dec_value(body) as u64)
    } else {
        None
    }
}

/// A digit string's value only grows as more digits are appended.
proof fn lemma_dec_value_take_bound(s: Seq<char>, i: int)
    requires
        0 <= i <= s.len(),
    ensures
        dec_value(s) >= dec_value(s.take(i)),
    decreases s.len() - i,
{
    if i < s.len() {
        assert(s.take(i + 1).drop_last() =~= s.take(i));
        assert(dec_value(s.take(i + 1)) >= dec_value(s.take(i)));
        lemma_dec_value_take_bound(s, i + 1);
        assert(s.take(s.len() as int) =~= s);
    } else {
        assert(s.take(i) =~= s);
    }
}

/// Parses a decimal unsigned 64-bit integer: an optional leading `+`,
/// then one or more digits; rejects anything else or an out-of-range
/// value.
pub fn parse_u64(s: &str) -> (r: Option<u64>)
    ensures
        r == parse_u64_spec(s@),
{
    let n = s.unicode_len();
    let start: usize = if n > 0 && s.get_char(0) == '+' {
        1
    } else {
        0
    };
    let ghost body = if s@.len() > 0 && s@[0] == '+' {
        s@.drop_first()
    } else {
        s@
    };
    proof {
        assert(body =~= s@.subrange(start as int, n as int));
    }
    if start >= n {
        return None;
    }
    let mut acc: u64 = 0;
    let mut i: usize = start;
    while i < n
        invariant
            start <= i <= n,
            n == s@.len(),
            body == (if s@.len() > 0 && s@[0] == '+' {
                s@.drop_first()
            } else {
                s@
            }),
            body.len() == n - start,
            forall|j: int| 0 <= j < body.len() ==> #[trigger] body[j] == s@[j + start],
            all_dec_digits(body.take(i - start)),
            acc == dec_value(body.take(i - start)),
        decreases n - i,
    {
        let c = s.get_char(i);
        let cu: u32 = c as u32;
        if !(48 <= cu && cu <= 57) {
            assert(!all_dec_digits(body)) by {
                assert(body[i - start] == c);
            }
            return None;
        }
        let d: u64 = (cu - 48) as u64;
        proof {
            assert(body.take(i - start + 1).drop_last() =~= body.take(i - start));
        }
        if acc > (u64::MAX - d) / 10 {
            proof {
                let done = body.take(i - start + 1);
                assert(dec_value(done) == acc * 10 + d);
                assert(acc * 10 + d > u64::MAX) by (nonlinear_arith)
                    requires
                        acc > (u64::MAX - d) / 10,
                        d <= 9,
                ;
                lemma_dec_value_take_bound(body, i - start + 1);
                assert(body.take(body.len() as int) =~= body);
            }
            return None;
        }
        proof {
            assert(acc * 10 + d <= u64::MAX) by (nonlinear_arith)
                requires
                    acc <= (u64::MAX - d) / 10,
                    d <= 9,
            ;
        }
        acc = acc * 10 + d;
        i += 1;
    }
    proof {
        assert(body.take(body.len() as int) =~= body);
    }
    Some(acc)
}

/// What parsing a decimal `u8` yields: as [`parse_u64_spec`], further
/// rejecting values above 255.
pub open spec fn parse_u8_spec(s: Seq<char>) -> Option<u8> {
    match parse_u64_spec(s) {
        Some(v) => if v <= 255 {
            Some(v as u8)
        } else {
            None
        },
        None => None,
    }
}

/// Parses a decimal unsigned 8-bit integer.
pub fn parse_u8(s: &str) -> (r: Option<u8>)
    ensures
        r == parse_u8_spec(s@),
{
    match parse_u64(s) {
        Some(v) => if v <= 255 {
            Some(v as u8)
        } else {
            None
        },
        None => None,
    }
}

} // verus!
