//! Fixed-width decimal and hexadecimal text for unsigned numbers.
//!
//! Session tokens, challenge codes and attempt identifiers are all built
//! from numbers rendered at a fixed width, so parsing is positional and the
//! round trip between a number and its text can be proved exactly.

use vstd::prelude::*;
use vstd::arithmetic::div_mod::lemma_div_denominator;

verus! {

pub open spec fn pow10(k: nat) -> nat
    decreases k,
{
    if k == 0 {
        1
    } else {
        10 * pow10((k - 1) as nat)
    }
}

pub open spec fn pow16(k: nat) -> nat
    decreases k,
{
    if k == 0 {
        1
    } else {
        16 * pow16((k - 1) as nat)
    }
}

/// The digit character for a value below ten.
pub open spec fn dec_char(d: nat) -> char {
    if d == 0 {
        '0'
    } else if d == 1 {
        '1'
    } else if d == 2 {
        '2'
    } else if d == 3 {
        '3'
    } else if d == 4 {
        '4'
    } else if d == 5 {
        '5'
    } else if d == 6 {
        '6'
    } else if d == 7 {
        '7'
    } else if d == 8 {
        '8'
    } else {
        '9'
    }
}

/// The lower-case digit character for a value below sixteen.
pub open spec fn hex_char(d: nat) -> char {
    if d < 10 {
        dec_char(d)
    } else if d == 10 {
        'a'
    } else if d == 11 {
        'b'
    } else if d == 12 {
        'c'
    } else if d == 13 {
        'd'
    } else if d == 14 {
        'e'
    } else {
        'f'
    }
}

pub open spec fn is_dec_char(c: char) -> bool {
    '0' as int <= c as int <= '9' as int
}

pub open spec fn is_hex_char(c: char) -> bool {
    is_dec_char(c) || ('a' as int <= c as int <= 'f' as int)
}

pub open spec fn dec_val(c: char) -> nat {
    (c as int - '0' as int) as nat
}

pub open spec fn all_dec(s: Seq<char>) -> bool {
    forall|i: int| 0 <= i < s.len() ==> is_dec_char(#[trigger] s[i])
}

pub open spec fn all_hex(s: Seq<char>) -> bool {
    forall|i: int| 0 <= i < s.len() ==> is_hex_char(#[trigger] s[i])
}

/// `n` written in decimal over exactly `w` characters, zero-padded.
pub open spec fn pad_dec(n: nat, w: nat) -> Seq<char> {
    Seq::new(w, |i: int| dec_char((n / pow10((w - 1 - i) as nat)) % 10))
}

/// `n` written in lower-case hexadecimal over exactly `w` characters.
pub open spec fn pad_hex(n: nat, w: nat) -> Seq<char> {
    Seq::new(w, |i: int| hex_char((n / pow16((w - 1 - i) as nat)) % 16))
}

/// The number a run of decimal digit characters denotes.
pub open spec fn parse_dec(s: Seq<char>) -> nat
    decreases s.len(),
{
    if s.len() == 0 {
        0
    } else {
        parse_dec(s.drop_last()) * 10 + dec_val(s.last())
    }
}

pub proof fn lemma_pow10_pos(k: nat)
    ensures
        pow10(k) >= 1,
    decreases k,
{
    if k > 0 {
        lemma_pow10_pos((k - 1) as nat);
    }
}

pub proof fn lemma_pow16_pos(k: nat)
    ensures
        pow16(k) >= 1,
    decreases k,
{
    if k > 0 {
        lemma_pow16_pos((k - 1) as nat);
    }
}

pub proof fn lemma_pow10_le(a: nat, b: nat)
    requires
        a <= b,
    ensures
        pow10(a) <= pow10(b),
    decreases b,
{
    if a < b {
        lemma_pow10_le(a, (b - 1) as nat);
        lemma_pow10_pos((b - 1) as nat);
    }
}

pub proof fn lemma_pow16_le(a: nat, b: nat)
    requires
        a <= b,
    ensures
        pow16(a) <= pow16(b),
    decreases b,
{
    if a < b {
        lemma_pow16_le(a, (b - 1) as nat);
        lemma_pow16_pos((b - 1) as nat);
    }
}

pub proof fn lemma_pow10_19_value()
    ensures
        pow10(19) == 10_000_000_000_000_000_000,
{
    reveal_with_fuel(pow10, 21);
}

pub proof fn lemma_pow16_15_value()
    ensures
        pow16(15) == 0x1000_0000_0000_0000,
{
    reveal_with_fuel(pow16, 17);
}

/// Every character that `pad_dec` produces is a decimal digit, and every
/// character of `pad_hex` a hexadecimal one.
pub proof fn lemma_pad_dec_chars(n: nat, w: nat)
    ensures
        all_dec(pad_dec(n, w)),
        pad_dec(n, w).len() == w,
{
}

pub proof fn lemma_pad_hex_chars(n: nat, w: nat)
    ensures
        all_hex(pad_hex(n, w)),
        pad_hex(n, w).len() == w,
{
}

/// Reading back a zero-padded decimal rendering gives the number itself.
pub proof fn lemma_parse_pad_dec(n: nat, w: nat)
    requires
        n < pow10(w),
    ensures
        parse_dec(pad_dec(n, w)) == n,
    decreases w,
{
    if w == 0 {
        assert(pad_dec(n, 0) =~= Seq::<char>::empty());
    } else {
        let s = pad_dec(n, w);
        assert(s.last() == dec_char((n / pow10(0)) % 10));
        assert(pow10(0) == 1);
        assert(n / 1 == n) by (nonlinear_arith);
        assert(n / pow10(0) == n);
        assert(dec_val(s.last()) == n % 10);
        assert forall|i: int| 0 <= i < w - 1 implies s.drop_last()[i] == pad_dec(
            n / 10,
            (w - 1) as nat,
        )[i] by {
            let k = (w - 2 - i) as nat;
            lemma_pow10_pos(k);
            lemma_div_denominator(n as int, 10, pow10(k) as int);
            assert(pow10((w - 1 - i) as nat) == 10 * pow10(k));
        }
        assert(s.drop_last() =~= pad_dec(n / 10, (w - 1) as nat));
        assert(n / 10 < pow10((w - 1) as nat)) by {
            lemma_pow10_pos((w - 1) as nat);
            assert(pow10(w) == 10 * pow10((w - 1) as nat));
            assert(n < 10 * pow10((w - 1) as nat));
        }
        lemma_parse_pad_dec(n / 10, (w - 1) as nat);
        assert(parse_dec(s) == (n / 10) * 10 + n % 10);
    }
}

/// A longer run of digits denotes at least as large a number.
pub proof fn lemma_parse_dec_prefix_le(s: Seq<char>, j: int)
    requires
        0 <= j <= s.len(),
    ensures
        parse_dec(s.subrange(0, j)) <= parse_dec(s),
    decreases s.len() - j,
{
    if j < s.len() {
        lemma_parse_dec_prefix_le(s, j + 1);
        let t = s.subrange(0, j + 1);
        assert(t.drop_last() =~= s.subrange(0, j));
        assert(parse_dec(t) == parse_dec(s.subrange(0, j)) * 10 + dec_val(t.last()));
    } else {
        assert(s.subrange(0, j) =~= s);
    }
}

/// An exact power of ten, as a machine word.
pub fn pow10_u64(k: usize) -> (r: u64)
    requires
        k <= 19,
    ensures
        r as nat == pow10(k as nat),
{
    let mut acc: u64 = 1;
    let mut j: usize = 0;
    while j < k
        invariant
            j <= k <= 19,
            acc as nat == pow10(j as nat),
        decreases k - j,
    {
        proof {
            lemma_pow10_le((j + 1) as nat, 19);
            lemma_pow10_19_value();
            assert(pow10((j + 1) as nat) == 10 * pow10(j as nat));
        }
        acc = acc * 10;
        j = j + 1;
    }
    acc
}

/// An exact power of sixteen, as a machine word.
pub fn pow16_u64(k: usize) -> (r: u64)
    requires
        k <= 15,
    ensures
        r as nat == pow16(k as nat),
{
    let mut acc: u64 = 1;
    let mut j: usize = 0;
    while j < k
        invariant
            j <= k <= 15,
            acc as nat == pow16(j as nat),
        decreases k - j,
    {
        proof {
            lemma_pow16_le((j + 1) as nat, 15);
            lemma_pow16_15_value();
            assert(pow16((j + 1) as nat) == 16 * pow16(j as nat));
        }
        acc = acc * 16;
        j = j + 1;
    }
    acc
}

/// The one-character string for a digit below ten.
pub fn dec_char_str(d: u64) -> (r: &'static str)
    requires
        d < 10,
    ensures
        r@ =~= seq![dec_char(d as nat)],
{
    if d == 0 {
        proof {
            reveal_strlit("0");
        }
        "0"
    } else if d == 1 {
        proof {
            reveal_strlit("1");
        }
        "1"
    } else if d == 2 {
        proof {
            reveal_strlit("2");
        }
        "2"
    } else if d == 3 {
        proof {
            reveal_strlit("3");
        }
        "3"
    } else if d == 4 {
        proof {
            reveal_strlit("4");
        }
        "4"
    } else if d == 5 {
        proof {
            reveal_strlit("5");
        }
        "5"
    } else if d == 6 {
        proof {
            reveal_strlit("6");
        }
        "6"
    } else if d == 7 {
        proof {
            reveal_strlit("7");
        }
        "7"
    } else if d == 8 {
        proof {
            reveal_strlit("8");
        }
        "8"
    } else {
        proof {
            reveal_strlit("9");
        }
        "9"
    }
}

/// The one-character string for a digit below sixteen, lower case.
pub fn hex_char_str(d: u64) -> (r: &'static str)
    requires
        d < 16,
    ensures
        r@ =~= seq![hex_char(d as nat)],
{
    if d < 10 {
        dec_char_str(d)
    } else if d == 10 {
        proof {
            reveal_strlit("a");
        }
        "a"
    } else if d == 11 {
        proof {
            reveal_strlit("b");
        }
        "b"
    } else if d == 12 {
        proof {
            reveal_strlit("c");
        }
        "c"
    } else if d == 13 {
        proof {
            reveal_strlit("d");
        }
        "d"
    } else if d == 14 {
        proof {
            reveal_strlit("e");
        }
        "e"
    } else {
        proof {
            reveal_strlit("f");
        }
        "f"
    }
}

/// `n` rendered in decimal over exactly `w` characters.
pub fn format_dec(n: u64, w: usize) -> (r: String)
    requires
        1 <= w <= 20,
        (n as nat) < pow10(w as nat),
    ensures
        r@ == pad_dec(n as nat, w as nat),
        r@.len() == w,
{
    let mut out = String::new();
    let mut i: usize = 0;
    while i < w
        invariant
            1 <= w <= 20,
            i <= w,
            (n as nat) < pow10(w as nat),
            out@ =~= pad_dec(n as nat, w as nat).subrange(0, i as int),
        decreases w - i,
    {
        let p = pow10_u64(w - 1 - i);
        proof {
            lemma_pow10_pos((w - 1 - i) as nat);
        }
        let d = (n / p) % 10;
        let ds = dec_char_str(d);
        out.append(ds);
        proof {
            assert(pad_dec(n as nat, w as nat)[i as int] == dec_char(d as nat));
            assert(out@ =~= pad_dec(n as nat, w as nat).subrange(0, i + 1));
        }
        i = i + 1;
    }
    proof {
        assert(pad_dec(n as nat, w as nat).subrange(0, w as int) =~= pad_dec(
            n as nat,
            w as nat,
        ));
    }
    out
}

/// `n` rendered in lower-case hexadecimal over exactly `w` characters.
pub fn format_hex(n: u64, w: usize) -> (r: String)
    requires
        1 <= w <= 16,
        (n as nat) < pow16(w as nat),
    ensures
        r@ == pad_hex(n as nat, w as nat),
        r@.len() == w,
{
    let mut out = String::new();
    let mut i: usize = 0;
    while i < w
        invariant
            1 <= w <= 16,
            i <= w,
            (n as nat) < pow16(w as nat),
            out@ =~= pad_hex(n as nat, w as nat).subrange(0, i as int),
        decreases w - i,
    {
        let p = pow16_u64(w - 1 - i);
        proof {
            lemma_pow16_pos((w - 1 - i) as nat);
        }
        let d = (n / p) % 16;
        let ds = hex_char_str(d);
        out.append(ds);
        proof {
            assert(pad_hex(n as nat, w as nat)[i as int] == hex_char(d as nat));
            assert(out@ =~= pad_hex(n as nat, w as nat).subrange(0, i + 1));
        }
        i = i + 1;
    }
    proof {
        assert(pad_hex(n as nat, w as nat).subrange(0, w as int) =~= pad_hex(
            n as nat,
            w as nat,
        ));
    }
    out
}

/// Reads a run of decimal digits; `None` when a character is not a digit or
/// the value does not fit in a machine word.
pub fn parse_dec_u64(s: &str) -> (r: Option<u64>)
    ensures
        r matches Some(v) ==> all_dec(s@) && v as nat == parse_dec(s@),
        r is None ==> !all_dec(s@) || parse_dec(s@) > u64::MAX,
{
    let len = s.unicode_len();
    let mut acc: u64 = 0;
    let mut i: usize = 0;
    while i < len
        invariant
            len == s@.len(),
            i <= len,
            forall|j: int| 0 <= j < i ==> is_dec_char(#[trigger] s@[j]),
            acc as nat == parse_dec(s@.subrange(0, i as int)),
        decreases len - i,
    {
        let c = s.get_char(i);
        let cv = c as u32;
        if cv < 48 || cv > 57 {
            proof {
                assert(!is_dec_char(s@[i as int]));
            }
            return None;
        }
        let d = (cv - 48) as u64;
        let wide: u128 = (acc as u128) * 10 + (d as u128);
        proof {
            let t = s@.subrange(0, i + 1);
            assert(t.drop_last() =~= s@.subrange(0, i as int));
            assert(t.last() == s@[i as int]);
            assert(dec_val(s@[i as int]) == d as nat);
            assert(parse_dec(t) == (acc as nat) * 10 + d as nat);
        }
        if wide > u64::MAX as u128 {
            proof {
                lemma_parse_dec_prefix_le(s@, i + 1);
            }
            return None;
        }
        acc = (wide) as u64;
        i = i + 1;
    }
    proof {
        assert(s@.subrange(0, len as int) =~= s@);
    }
    Some(acc)
}

/// True exactly when every character of `s` is a decimal digit.
pub fn check_all_dec(s: &str) -> (r: bool)
    ensures
        r == all_dec(s@),
{
    let len = s.unicode_len();
    let mut i: usize = 0;
    while i < len
        invariant
            len == s@.len(),
            i <= len,
            forall|j: int| 0 <= j < i ==> is_dec_char(#[trigger] s@[j]),
        decreases len - i,
    {
        let cv = s.get_char(i) as u32;
        if cv < 48 || cv > 57 {
            proof {
                assert(!is_dec_char(s@[i as int]));
            }
            return false;
        }
        i = i + 1;
    }
    true
}

/// True exactly when every character of `s` is a lower-case hex digit.
pub fn check_all_hex(s: &str) -> (r: bool)
    ensures
        r == all_hex(s@),
{
    let len = s.unicode_len();
    let mut i: usize = 0;
    while i < len
        invariant
            len == s@.len(),
            i <= len,
            forall|j: int| 0 <= j < i ==> is_hex_char(#[trigger] s@[j]),
        decreases len - i,
    {
        let cv = s.get_char(i) as u32;
        if !(48 <= cv && cv <= 57) && !(97 <= cv && cv <= 102) {
            proof {
                assert(!is_hex_char(s@[i as int]));
            }
            return false;
        }
        i = i + 1;
    }
    true
}

} // verus!
