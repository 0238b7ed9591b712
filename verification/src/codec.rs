//! The window identifier codec: between the canonical 32-bit window id and
//! the textual and numeric forms in which the desktop environments write it.
//!
//! The id `0` is reserved: every text that does not decode yields `0`, and no
//! window carries it.

use vstd::prelude::*;
use crate::text::{to_chars, from_chars};

verus! {

/// The value of `c` as a digit in bases up to 36: `0`-`9`, then the letters
/// in either case for ten and upwards.
pub open spec fn digit_value(c: char) -> Option<nat> {
    let n = c as u32;
    if 0x30 <= n <= 0x39 {
        Some((n - 0x30) as nat)
    } else if 0x61 <= n <= 0x7A {
        Some((n - 0x61 + 10) as nat)
    } else if 0x41 <= n <= 0x5A {
        Some((n - 0x41 + 10) as nat)
    } else {
        None
    }
}

/// Whether `c` is a digit of base `radix`.
pub open spec fn is_digit(c: char, radix: nat) -> bool {
    match digit_value(c) {
        Some(d) => d < radix,
        None => false,
    }
}

/// The lower-case digit character for `d`, below 36.
pub open spec fn digit_char(d: nat) -> char {
    if d < 10 {
        (0x30 + d) as char
    } else {
        (0x61 + d - 10) as char
    }
}

/// The number that the digits `s` denote in base `radix`, most significant
/// first, if every character is a digit of that base.
pub open spec fn digits_value(s: Seq<char>, radix: nat) -> Option<nat>
    decreases s.len(),
{
    if s.len() == 0 {
        Some(0)
    } else {
        match (digits_value(s.drop_last(), radix), digit_value(s.last())) {
            (Some(v), Some(d)) => if d < radix {
                Some(v * radix + d)
            } else {
                None
            },
            _ => None,
        }
    }
}

/// An unsigned 32-bit number written in base `radix`: an optional `+`, then
/// at least one digit and nothing else, the value within range.
pub open spec fn parse_u32(s: Seq<char>, radix: nat) -> Option<u32> {
    let body = if s.len() > 0 && s[0] == '+' {
        s.skip(1)
    } else {
        s
    };
    if body.len() == 0 {
        None
    } else {
        match digits_value(body, radix) {
            Some(v) => if v <= u32::MAX {
                Some(v as u32)
            } else {
                None
            },
            None => None,
        }
    }
}

/// The digits of `n` in base `radix`, without leading zeros; `0` is "0".
pub open spec fn digits(n: nat, radix: nat) -> Seq<char>
    decreases n,
{
    if radix < 2 || n < radix {
        seq![digit_char(n)]
    } else {
        proof {
            assert(n / radix < n) by (nonlinear_arith)
                requires
                    radix >= 2,
                    n >= radix,
            ;
        }
        digits(n / radix, radix).push(digit_char(n % radix))
    }
}

/// The last `width` digits of `n` in base `radix`, zeros included.
pub open spec fn fixed_digits(n: nat, radix: nat, width: nat) -> Seq<char>
    decreases width,
{
    if width == 0 {
        Seq::empty()
    } else {
        fixed_digits(n / radix, radix, (width - 1) as nat).push(digit_char(n % radix))
    }
}

/// Whether `width` digits of base `radix` are enough to write `n`.
pub open spec fn fits(n: nat, radix: nat, width: nat) -> bool
    decreases width,
{
    if width == 0 {
        n == 0
    } else {
        fits(n / radix, radix, (width - 1) as nat)
    }
}

/// The marker `0x` that introduces a hexadecimal id.
pub open spec fn hex_marker() -> Seq<char> {
    seq!['0', 'x']
}

/// `0x` and eight lower-case hexadecimal digits.
pub open spec fn hex8(id: u32) -> Seq<char> {
    hex_marker() + fixed_digits(id as nat, 16, 8)
}

/// `0x` and the hexadecimal digits without leading zeros.
pub open spec fn hex(id: u32) -> Seq<char> {
    hex_marker() + digits(id as nat, 16)
}

/// The decimal digits.
pub open spec fn decimal(n: u32) -> Seq<char> {
    digits(n as nat, 10)
}

/// The decimal digits of a signed number, after `-` where it is negative.
pub open spec fn signed_decimal(n: i32) -> Seq<char> {
    if n < 0 {
        seq!['-'] + digits((-n) as nat, 10)
    } else {
        digits(n as nat, 10)
    }
}

/// The id that a window-listing tool wrote: hexadecimal after `0x`, decimal
/// otherwise, `0` where the text is no such number.
pub open spec fn window_id(s: Seq<char>) -> u32 {
    let parsed = if hex_marker().is_prefix_of(s) {
        parse_u32(s.skip(2), 16)
    } else {
        parse_u32(s, 10)
    };
    match parsed {
        Some(id) => id,
        None => 0,
    }
}

/// The id that an address denotes: hexadecimal after `0x`, and `0` for every
/// other text.
pub open spec fn address_id(s: Seq<char>) -> u32 {
    if hex_marker().is_prefix_of(s) {
        match parse_u32(s.skip(2), 16) {
            Some(id) => id,
            None => 0,
        }
    } else {
        0
    }
}

/// The low 32 bits of a 64-bit container id.
pub open spec fn low_bits(n: u64) -> u32 {
    (n % 0x1_0000_0000) as u32
}

/// A digit character denotes the digit it was made for, and is no sign.
pub proof fn lemma_digit_char(d: nat)
    requires
        d < 36,
    ensures
        digit_value(digit_char(d)) == Some(d),
        digit_char(d) != '+',
{
    if d < 10 {
        assert(digit_char(d) as u32 == 0x30 + d);
    } else {
        assert(digit_char(d) as u32 == 0x61 + d - 10);
    }
}

/// A prefix of valid digits is valid, and denotes no more than the whole.
pub proof fn lemma_digits_prefix(s: Seq<char>, radix: nat, k: int)
    requires
        0 <= k <= s.len(),
        digits_value(s, radix) is Some,
    ensures
        digits_value(s.take(k), radix) is Some,
        digits_value(s.take(k), radix)->Some_0 <= digits_value(s, radix)->Some_0,
    decreases s.len(),
{
    if k == s.len() {
        assert(s.take(k) == s);
    } else {
        let front = s.drop_last();
        assert(front.take(k) == s.take(k));
        lemma_digits_prefix(front, radix, k);
        let v = digits_value(front, radix)->Some_0;
        assert(v <= v * radix) by (nonlinear_arith)
            requires
                radix >= 1,
        ;
    }
}

/// Writing a number and reading it back gives the number.
pub proof fn lemma_digits_round_trip(n: nat, radix: nat)
    requires
        2 <= radix <= 36,
    ensures
        digits(n, radix).len() >= 1,
        digits_value(digits(n, radix), radix) == Some(n),
        forall|i: int|
            0 <= i < digits(n, radix).len() ==> is_digit(#[trigger] digits(n, radix)[i], radix),
    decreases n,
{
    if n < radix {
        lemma_digit_char(n);
        let s = seq![digit_char(n)];
        assert(digits(n, radix) == s);
        assert(s.drop_last() == Seq::<char>::empty());
        assert(digits_value(s.drop_last(), radix) == Some(0nat));
        assert(s.last() == digit_char(n));
        assert(0 * radix == 0);
        assert(digits_value(s, radix) == Some(n));
    } else {
        assert(n / radix < n && n / radix >= 1) by (nonlinear_arith)
            requires
                radix >= 2,
                n >= radix,
        ;
        assert((n / radix) * radix + n % radix == n) by (nonlinear_arith)
            requires
                radix >= 2,
        ;
        assert(n % radix < radix) by (nonlinear_arith)
            requires
                radix >= 2,
        ;
        lemma_digits_round_trip(n / radix, radix);
        lemma_digit_char(n % radix);
        let front = digits(n / radix, radix);
        let s = front.push(digit_char(n % radix));
        assert(digits(n, radix) == s);
        assert(s.drop_last() == front);
        assert(s.last() == digit_char(n % radix));
        assert(digits_value(s, radix) == Some(n));
        assert forall|i: int| 0 <= i < s.len() implies is_digit(#[trigger] s[i], radix) by {
            if i < front.len() {
                assert(s[i] == front[i]);
            }
        }
    }
}

/// Reading back a number written with a fixed width gives the number, if
/// the width holds it.
pub proof fn lemma_fixed_digits_round_trip(n: nat, radix: nat, width: nat)
    requires
        2 <= radix <= 36,
        fits(n, radix, width),
    ensures
        fixed_digits(n, radix, width).len() == width,
        digits_value(fixed_digits(n, radix, width), radix) == Some(n),
        forall|i: int| 0 <= i < width ==> #[trigger] fixed_digits(n, radix, width)[i] != '+',
    decreases width,
{
    if width == 0 {
    } else {
        assert((n / radix) * radix + n % radix == n) by (nonlinear_arith)
            requires
                radix >= 2,
        ;
        assert(n % radix < radix) by (nonlinear_arith)
            requires
                radix >= 2,
        ;
        lemma_fixed_digits_round_trip(n / radix, radix, (width - 1) as nat);
        lemma_digit_char(n % radix);
        let front = fixed_digits(n / radix, radix, (width - 1) as nat);
        assert(front.push(digit_char(n % radix)).drop_last() == front);
    }
}

/// The eight-digit hexadecimal form decodes to the id it was made from.
pub proof fn lemma_hex8_round_trip(id: u32)
    ensures
        window_id(hex8(id)) == id,
        address_id(hex8(id)) == id,
{
    assert(fits(id as nat, 16, 8)) by {
        reveal_with_fuel(fits, 9);
    }
    lemma_fixed_digits_round_trip(id as nat, 16, 8);
    let body = fixed_digits(id as nat, 16, 8);
    assert(hex8(id).skip(2) == body);
    assert(hex8(id).subrange(0, 2) == hex_marker());
    assert(body[0] != '+');
}

/// The short hexadecimal form decodes to the id it was made from.
pub proof fn lemma_hex_round_trip(id: u32)
    ensures
        window_id(hex(id)) == id,
        address_id(hex(id)) == id,
{
    lemma_digits_round_trip(id as nat, 16);
    let body = digits(id as nat, 16);
    assert(hex(id).skip(2) == body);
    assert(hex(id).subrange(0, 2) == hex_marker());
    assert(is_digit(body[0], 16));
}

/// The decimal form decodes to the id it was made from.
pub proof fn lemma_decimal_round_trip(id: u32)
    ensures
        parse_u32(decimal(id), 10) == Some(id),
        window_id(decimal(id)) == id,
{
    lemma_digits_round_trip(id as nat, 10);
    let s = decimal(id);
    assert(is_digit(s[0], 10));
    if hex_marker().is_prefix_of(s) {
        assert(s.subrange(0, 2)[1] == 'x');
        assert(is_digit(s[1], 10));
    }
}

/// The value of `c` as a digit, if it is one.
pub fn digit_of(c: char) -> (d: Option<u32>)
    ensures
        match d {
            Some(v) => digit_value(c) == Some(v as nat),
            None => digit_value(c) is None,
        },
{
    let n: u32 = c as u32;
    if 0x30 <= n && n <= 0x39 {
        Some(n - 0x30)
    } else if 0x61 <= n && n <= 0x7A {
        Some(n - 0x61 + 10)
    } else if 0x41 <= n && n <= 0x5A {
        Some(n - 0x41 + 10)
    } else {
        None
    }
}

/// The lower-case digit character for `d`.
pub fn char_of_digit(d: u32) -> (c: char)
    requires
        d < 36,
    ensures
        c == digit_char(d as nat),
{
    let code: u8 = if d < 10 {
        (0x30 + d) as u8
    } else {
        (0x61 + d - 10) as u8
    };
    code as char
}

/// Reads the characters of `s` from position `from` on as an unsigned
/// 32-bit number in base `radix`.
#[verifier::loop_isolation(false)]
pub fn parse_number(s: &Vec<char>, from: usize, radix: u32) -> (r: Option<u32>)
    requires
        from <= s.len(),
        2 <= radix <= 36,
    ensures
        r == parse_u32(s@.skip(from as int), radix as nat),
{
    let ghost text = s@.skip(from as int);
    let start: usize = if from < s.len() && s[from] == '+' {
        from + 1
    } else {
        from
    };
    let ghost body = s@.skip(start as int);
    assert(body == if text.len() > 0 && text[0] == '+' {
        text.skip(1)
    } else {
        text
    });
    if start == s.len() {
        return None;
    }
    let mut acc: u64 = 0;
    let mut i: usize = start;
    assert(body.take(0) == Seq::<char>::empty());
    while i < s.len()
        invariant
            start <= i <= s.len(),
            2 <= radix <= 36,
            body == s@.skip(start as int),
            digits_value(body.take(i - start), radix as nat) == Some(acc as nat),
            acc <= u32::MAX,
        decreases s.len() - i,
    {
        let ghost before = body.take(i - start);
        let ghost after = body.take(i - start + 1);
        proof {
            assert(after.drop_last() == before);
            assert(after.last() == s@[i as int]);
            if digits_value(body, radix as nat) is Some {
                lemma_digits_prefix(body, radix as nat, i - start + 1);
            }
            assert(digits_value(after, radix as nat) == match digit_value(s@[i as int]) {
                Some(d) => if d < radix {
                    Some((acc * radix + d) as nat)
                } else {
                    None
                },
                None => None,
            });
        }
        let next: u64 = match digit_of(s[i]) {
            Some(d) => {
                if d >= radix {
                    return None;
                }
                assert(acc * radix + d <= 0xFFFF_FFFF * 36 + 35) by (nonlinear_arith)
                    requires
                        acc <= 0xFFFF_FFFF,
                        radix <= 36,
                        d < 36,
                ;
                acc * (radix as u64) + (d as u64)
            },
            None => {
                return None;
            },
        };
        if next > 0xFFFF_FFFF {
            return None;
        }
        acc = next;
        i += 1;
    }
    assert(body.take(body.len() as int) == body);
    Some(acc as u32)
}

/// Decodes the id that a window-listing tool wrote.
pub fn decode_window_id(id: &str) -> (r: u32)
    ensures
        r == window_id(id@),
{
    let chars = to_chars(id);
    assert(chars@.skip(0) == chars@);
    if has_hex_marker(&chars) {
        match parse_number(&chars, 2, 16) {
            Some(v) => v,
            None => 0,
        }
    } else {
        match parse_number(&chars, 0, 10) {
            Some(v) => v,
            None => 0,
        }
    }
}

/// Decodes a window address.
pub fn decode_address(address: &str) -> (r: u32)
    ensures
        r == address_id(address@),
{
    let chars = to_chars(address);
    if has_hex_marker(&chars) {
        match parse_number(&chars, 2, 16) {
            Some(v) => v,
            None => 0,
        }
    } else {
        0
    }
}

/// Reads a decimal unsigned 32-bit number.
pub fn parse_decimal(s: &Vec<char>) -> (r: Option<u32>)
    ensures
        r == parse_u32(s@, 10),
{
    assert(s@.skip(0) == s@);
    parse_number(s, 0, 10)
}

/// Whether `s` begins with `0x`.
pub fn has_hex_marker(s: &Vec<char>) -> (b: bool)
    ensures
        b == hex_marker().is_prefix_of(s@),
        b ==> s.len() >= 2,
{
    let b = s.len() >= 2 && s[0] == '0' && s[1] == 'x';
    proof {
        if b {
            assert(s@.subrange(0, 2) == hex_marker());
        } else if s.len() >= 2 {
            assert(s@.subrange(0, 2)[0] == s@[0]);
            assert(s@.subrange(0, 2)[1] == s@[1]);
        }
    }
    b
}

/// Truncates a 64-bit container id to the canonical 32 bits.
pub fn truncate_id(n: u64) -> (id: u32)
    ensures
        id == low_bits(n),
{
    assert((n as u32) as u64 == n % 0x1_0000_0000u64) by (bit_vector);
    #[verifier::truncate]
    (n as u32)
}

/// Appends the digits of `n` in base `radix` to `out`.
pub fn push_digits(out: &mut Vec<char>, n: u32, radix: u32)
    requires
        2 <= radix <= 36,
    ensures
        final(out)@ == old(out)@ + digits(n as nat, radix as nat),
    decreases n,
{
    if n >= radix {
        assert(n / radix < n) by (nonlinear_arith)
            requires
                radix >= 2,
                n >= radix,
        ;
        push_digits(out, n / radix, radix);
    }
    out.push(char_of_digit(n % radix));
    proof {
        let ghost front = if n >= radix {
            digits((n / radix) as nat, radix as nat)
        } else {
            Seq::<char>::empty()
        };
        if n < radix {
            vstd::arithmetic::div_mod::lemma_small_mod(n as nat, radix as nat);
        }
        assert(digits(n as nat, radix as nat) == front.push(digit_char((n % radix) as nat)));
        assert(out@ == old(out)@ + front.push(digit_char((n % radix) as nat)));
    }
}

/// Appends the last `width` digits of `n` in base `radix` to `out`.
pub fn push_fixed_digits(out: &mut Vec<char>, n: u32, radix: u32, width: u32)
    requires
        2 <= radix <= 36,
    ensures
        final(out)@ == old(out)@ + fixed_digits(n as nat, radix as nat, width as nat),
    decreases width,
{
    if width > 0 {
        push_fixed_digits(out, n / radix, radix, width - 1);
        out.push(char_of_digit(n % radix));
        proof {
            let ghost front = fixed_digits((n / radix) as nat, radix as nat, (width - 1) as nat);
            assert(out@ == old(out)@ + front.push(digit_char((n % radix) as nat)));
        }
    }
}

/// Appends the decimal digits of `n` to `out`.
pub fn push_decimal(out: &mut Vec<char>, n: u32)
    ensures
        final(out)@ == old(out)@ + decimal(n),
{
    push_digits(out, n, 10);
}

/// Appends the signed decimal form of `n` to `out`.
pub fn push_signed_decimal(out: &mut Vec<char>, n: i32)
    ensures
        final(out)@ == old(out)@ + signed_decimal(n),
{
    if n < 0 {
        out.push('-');
        let magnitude: u32 = (-(n as i64)) as u32;
        push_digits(out, magnitude, 10);
        assert(out@ == old(out)@ + (seq!['-'] + digits((-n) as nat, 10)));
    } else {
        push_digits(out, n as u32, 10);
    }
}

/// The id as `0x` and eight lower-case hexadecimal digits.
pub fn encode_hex8(id: u32) -> (s: String)
    ensures
        s@ == hex8(id),
{
    let mut out: Vec<char> = Vec::new();
    out.push('0');
    out.push('x');
    assert(out@ == hex_marker());
    push_fixed_digits(&mut out, id, 16, 8);
    from_chars(&out)
}

/// The id as `0x` and its hexadecimal digits, without leading zeros.
pub fn encode_hex(id: u32) -> (s: String)
    ensures
        s@ == hex(id),
{
    let mut out: Vec<char> = Vec::new();
    out.push('0');
    out.push('x');
    assert(out@ == hex_marker());
    push_digits(&mut out, id, 16);
    from_chars(&out)
}

/// The number in decimal digits.
pub fn encode_decimal(n: u32) -> (s: String)
    ensures
        s@ == decimal(n),
{
    let mut out: Vec<char> = Vec::new();
    push_digits(&mut out, n, 10);
    from_chars(&out)
}

} // verus!
