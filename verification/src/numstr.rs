//! Rendering of unsigned integers as decimal and fixed-width upper-case
//! hexadecimal text, and parsing of decimal text back into integers.
//!
//! Object-store keys embed both forms, so the exact character sequences
//! are specified here and the executable renderers are proved against
//! those specifications.

use vstd::prelude::*;

verus! {

/// The character for one digit value below 16: `0`-`9` then `A`-`F`.
pub open spec fn digit_char(d: nat) -> char {
    if d == 0 {
        '0'
    } else if d == 1 {
        '1'
    } else if d == 2 {
        '2'
    } else if d == 3 {
        '3'
    } else if d == 4 {
        '4'
    } else if d == 5 {
        '5'
    } else if d == 6 {
        '6'
    } else if d == 7 {
        '7'
    } else if d == 8 {
        '8'
    } else if d == 9 {
        '9'
    } else if d == 10 {
        'A'
    } else if d == 11 {
        'B'
    } else if d == 12 {
        'C'
    } else if d == 13 {
        'D'
    } else if d == 14 {
        'E'
    } else {
        'F'
    }
}

/// Decimal rendering of `n`, most significant digit first, no leading zeros.
pub open spec fn dec_of(n: nat) -> Seq<char>
    decreases n,
{
    if n < 10 {
        seq![digit_char(n)]
    } else {
        dec_of(n / 10) + seq![digit_char(n % 10)]
    }
}

/// Hexadecimal rendering of `n` in exactly `w` digits, zero padded,
/// most significant digit first.
pub open spec fn hex_of(n: nat, w: nat) -> Seq<char>
    decreases w,
{
    if w == 0 {
        Seq::empty()
    } else {
        hex_of(n / 16, (w - 1) as nat) + seq![digit_char(n % 16)]
    }
}

/// The eight-digit upper-case hexadecimal form used inside object-store keys.
pub open spec fn hex8_of(n: u32) -> Seq<char> {
    hex_of(n as nat, 8)
}

pub(crate) fn digit_str(d: u32) -> (r: &'static str)
    requires
        d < 16,
    ensures
        r@ =~= seq![digit_char(d as nat)],
{
    proof {
        reveal_strlit("0");
        reveal_strlit("1");
        reveal_strlit("2");
        reveal_strlit("3");
        reveal_strlit("4");
        reveal_strlit("5");
        reveal_strlit("6");
        reveal_strlit("7");
        reveal_strlit("8");
        reveal_strlit("9");
        reveal_strlit("A");
        reveal_strlit("B");
        reveal_strlit("C");
        reveal_strlit("D");
        reveal_strlit("E");
        reveal_strlit("F");
    }
    match d {
        0 => "0",
        1 => "1",
        2 => "2",
        3 => "3",
        4 => "4",
        5 => "5",
        6 => "6",
        7 => "7",
        8 => "8",
        9 => "9",
        10 => "A",
        11 => "B",
        12 => "C",
        13 => "D",
        14 => "E",
        _ => "F",
    }
}

/// Renders `n` in decimal.
pub fn u32_to_dec(n: u32) -> (r: String)
    ensures
        r@ == dec_of(n as nat),
    decreases n,
{
    if n < 10 {
        let r = digit_str(n).to_owned();
        proof {
            assert(r@ =~= dec_of(n as nat));
        }
        r
    } else {
        let mut r = u32_to_dec(n / 10);
        r.append(digit_str(n % 10));
        proof {
            assert(r@ =~= dec_of(n as nat));
        }
        r
    }
}

/// Renders `n` in exactly `w` upper-case hexadecimal digits.
pub fn u32_to_hex(n: u32, w: u32) -> (r: String)
    ensures
        r@ == hex_of(n as nat, w as nat),
    decreases w,
{
    if w == 0 {
        let r = String::new();
        proof {
            assert(r@ =~= hex_of(n as nat, 0));
        }
        r
    } else {
        let mut r = u32_to_hex(n / 16, w - 1);
        r.append(digit_str(n % 16));
        proof {
            assert(r@ =~= hex_of(n as nat, w as nat));
        }
        r
    }
}

/// Renders `n` as the eight-digit hexadecimal form used in keys.
pub fn hex8(n: u32) -> (r: String)
    ensures
        r@ == hex8_of(n),
{
    u32_to_hex(n, 8)
}

/// True for the characters `0` through `9`.
pub open spec fn is_digit_char(c: char) -> bool {
    48 <= c as u32 <= 57
}

/// The numeric value of a decimal digit character.
pub open spec fn digit_val(c: char) -> nat {
    (c as u32 - 48) as nat
}

/// True when every character of `s` is a decimal digit.
pub open spec fn all_digits(s: Seq<char>) -> bool {
    forall|i: int| 0 <= i < s.len() ==> is_digit_char(s[i])
}

/// The numeric value of a digit string, most significant digit first.
pub open spec fn dec_val(s: Seq<char>) -> nat
    decreases s.len(),
{
    if s.len() == 0 {
        0
    } else {
        dec_val(s.drop_last()) * 10 + digit_val(s.last())
    }
}

/// What parsing an unsigned 32-bit decimal number from `s` yields: an
/// optional leading `+`, then one or more digits, value within range.
pub open spec fn parse_u32_spec(s: Seq<char>) -> Option<u32> {
    let body = if s.len() > 0 && s[0] == '+' {
        s.drop_first()
    } else {
        s
    };
    if body.len() == 0 || !all_digits(body) || dec_val(body) > u32::MAX {
        None
    } else {
        Some(dec_val(body) as u32)
    }
}

proof fn lemma_dec_val_prefix_le(s: Seq<char>, k: int)
    requires
        0 <= k <= s.len(),
    ensures
        dec_val(s.subrange(0, k)) <= dec_val(s),
    decreases s.len() - k,
{
    if k == s.len() {
        assert(s.subrange(0, k) =~= s);
    } else {
        let a = s.subrange(0, k);
        let b = s.subrange(0, k + 1);
        assert(b.drop_last() =~= a);
        assert(dec_val(b) == dec_val(a) * 10 + digit_val(b.last()));
        lemma_dec_val_prefix_le(s, k + 1);
    }
}

/// Parses an unsigned 32-bit decimal number, as `parse_u32_spec` states.
pub fn parse_u32(s: &str) -> (r: Option<u32>)
    ensures
        r == parse_u32_spec(s@),
{
    let n = s.unicode_len();
    let start: usize = if n > 0 && s.get_char(0) == '+' {
        1
    } else {
        0
    };
    let ghost body = if s@.len() > 0 && s@[0] == '+' {
        s@.drop_first()
    } else {
        s@
    };
    proof {
        assert(body =~= s@.subrange(start as int, n as int));
    }
    if start == n {
        return None;
    }
    let mut i: usize = start;
    let mut val: u64 = 0;
    while i < n
        invariant
            n == s@.len(),
            start <= i <= n,
            start < n,
            body == (if s@.len() > 0 && s@[0] == '+' {
                s@.drop_first()
            } else {
                s@
            }),
            body == s@.subrange(start as int, n as int),
            all_digits(s@.subrange(start as int, i as int)),
            val == dec_val(s@.subrange(start as int, i as int)),
            val <= u32::MAX,
        decreases n - i,
    {
        let c = s.get_char(i);
        let code = c as u32;
        if code < 48 || code > 57 {
            assert(body[i - start as int] == s@[i as int]);
            assert(!all_digits(body));
            return None;
        }
        let d = (code - 48) as u64;
        let ghost prev = s@.subrange(start as int, i as int);
        val = val * 10 + d;
        proof {
            let cur = s@.subrange(start as int, i + 1);
            assert(cur.drop_last() =~= prev);
            assert(dec_val(cur) == dec_val(prev) * 10 + digit_val(c));
        }
        i = i + 1;
        if val > 0xFFFF_FFFF {
            proof {
                lemma_dec_val_prefix_le(body, i - start);
                assert(s@.subrange(start as int, i as int) =~= body.subrange(
                    0,
                    i - start as int,
                ));
            }
            return None;
        }
    }
    proof {
        assert(s@.subrange(start as int, n as int) =~= body);
    }
    Some(val as u32)
}

/// Strict lexicographic order on character sequences of equal length:
/// the sequences agree on a prefix and then differ at one position.
pub open spec fn lex_lt(a: Seq<char>, b: Seq<char>) -> bool {
    exists|k: int|
        0 <= k < a.len() && k < b.len() && a.subrange(0, k) == b.subrange(0, k) && (a[k] as u32)
            < (b[k] as u32)
}

/// Sixteen to the power `w`.
pub open spec fn pow16(w: nat) -> nat
    decreases w,
{
    if w == 0 {
        1
    } else {
        16 * pow16((w - 1) as nat)
    }
}

proof fn lemma_digit_char_order(d1: nat, d2: nat)
    requires
        d1 < d2 < 16,
    ensures
        (digit_char(d1) as u32) < (digit_char(d2) as u32),
{
}

proof fn lemma_hex_lex_lt(a: nat, b: nat, w: nat)
    requires
        a < b,
        b < pow16(w),
    ensures
        lex_lt(hex_of(a, w), hex_of(b, w)),
    decreases w,
{
    let sa = hex_of(a, w);
    let sb = hex_of(b, w);
    let pa = hex_of(a / 16, (w - 1) as nat);
    let pb = hex_of(b / 16, (w - 1) as nat);
    lemma_hex_len(a, w);
    lemma_hex_len(b, w);
    lemma_hex_len(a / 16, (w - 1) as nat);
    lemma_hex_len(b / 16, (w - 1) as nat);
    assert(a / 16 <= b / 16 && a % 16 < 16 && b % 16 < 16 && a == 16 * (a / 16) + a % 16 && b
        == 16 * (b / 16) + b % 16) by (nonlinear_arith)
        requires
            a < b,
    ;
    assert(b / 16 < pow16((w - 1) as nat)) by (nonlinear_arith)
        requires
            b < pow16(w),
            pow16(w) == 16 * pow16((w - 1) as nat),
    ;
    if a / 16 == b / 16 {
        assert(a % 16 < b % 16);
        lemma_digit_char_order(a % 16, b % 16);
        let k = w - 1;
        assert(sa.subrange(0, k as int) =~= pa);
        assert(sb.subrange(0, k as int) =~= pb);
        assert(sa[k as int] == digit_char(a % 16));
        assert(sb[k as int] == digit_char(b % 16));
        assert(lex_lt(sa, sb));
    } else {
        lemma_hex_lex_lt(a / 16, b / 16, (w - 1) as nat);
        let k = choose|k: int|
            0 <= k < pa.len() && k < pb.len() && pa.subrange(0, k) == pb.subrange(0, k) && (
            pa[k] as u32) < (pb[k] as u32);
        assert(sa.subrange(0, k) =~= pa.subrange(0, k));
        assert(sb.subrange(0, k) =~= pb.subrange(0, k));
        assert(sa[k] == pa[k]);
        assert(sb[k] == pb[k]);
        assert(lex_lt(sa, sb));
    }
}

proof fn lemma_hex_len(n: nat, w: nat)
    ensures
        hex_of(n, w).len() == w,
    decreases w,
{
    if w > 0 {
        lemma_hex_len(n / 16, (w - 1) as nat);
    }
}

/// The bit-inverted value a sequence number is rendered from inside keys.
pub open spec fn invert32(p: u32) -> u32 {
    (u32::MAX - p) as u32
}

/// Keys embed `hex8(u32::MAX - partition_start)`, so the hexadecimal
/// prefix of a later partition sorts strictly before that of an earlier
/// one: lexicographic listing order is descending numeric order.
pub proof fn lemma_partition_key_order(p1: u32, p2: u32)
    requires
        p1 < p2,
    ensures
        lex_lt(hex8_of(invert32(p2)), hex8_of(invert32(p1))),
{
    assert(pow16(8) == 0x1_0000_0000) by {
        reveal_with_fuel(pow16, 9);
    }
    lemma_hex_lex_lt(invert32(p2) as nat, invert32(p1) as nat, 8);
}

} // verus!
