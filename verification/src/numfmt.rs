//! Decimal rendering of the integers that appear in the emitted document:
//! object identities, byte lengths, page counts, and the fixed-width
//! zero-padded offsets of the cross-reference table.

use vstd::prelude::*;

verus! {

use vstd::string::StringExecFns;

/// The decimal digits of `n`, most significant first, as ASCII bytes.
pub open spec fn dec_bytes(n: nat) -> Seq<u8>
    decreases n,
{
    if n < 10 {
        seq![(0x30 + n) as u8]
    } else {
        dec_bytes(n / 10) + seq![(0x30 + n % 10) as u8]
    }
}

/// The decimal digits of `v` as ASCII bytes, with a leading minus sign
/// when `v` is negative.
pub open spec fn int_bytes(v: int) -> Seq<u8> {
    if v < 0 {
        seq![0x2du8] + dec_bytes((-v) as nat)
    } else {
        dec_bytes(v as nat)
    }
}

/// The decimal digits of `n`, left-padded with zeros to at least ten
/// bytes, as the cross-reference table's fixed-width offset field asks.
pub open spec fn pad10_bytes(n: nat) -> Seq<u8> {
    if dec_bytes(n).len() >= 10 {
        dec_bytes(n)
    } else {
        Seq::new((10 - dec_bytes(n).len()) as nat, |i: int| 0x30u8) + dec_bytes(n)
    }
}

/// The decimal digits of `n`, most significant first, as characters.
pub open spec fn dec_chars(n: nat) -> Seq<char>
    decreases n,
{
    if n < 10 {
        seq![digit_char(n)]
    } else {
        dec_chars(n / 10) + seq![digit_char(n % 10)]
    }
}

/// The character for one decimal digit.
pub open spec fn digit_char(d: nat) -> char {
    if d == 0 {
        '0'
    } else if d == 1 {
        '1'
    } else if d == 2 {
        '2'
    } else if d == 3 {
        '3'
    } else if d == 4 {
        '4'
    } else if d == 5 {
        '5'
    } else if d == 6 {
        '6'
    } else if d == 7 {
        '7'
    } else if d == 8 {
        '8'
    } else {
        '9'
    }
}

pub proof fn lemma_dec_bytes_len(n: nat)
    ensures
        dec_bytes(n).len() >= 1,
{
}

pub proof fn lemma_dec_chars_len(n: nat)
    ensures
        dec_chars(n).len() >= 1,
{
}

/// Two distinct numbers never render to the same digit string.
pub proof fn lemma_dec_chars_injective(m: nat, n: nat)
    requires
        m != n,
    ensures
        dec_chars(m) != dec_chars(n),
    decreases m + n,
{
    if m < 10 && n < 10 {
        assert(dec_chars(m)[0] != dec_chars(n)[0]);
    } else if m < 10 && n >= 10 {
        lemma_dec_chars_len(n / 10);
        assert(dec_chars(n).len() >= 2);
    } else if m >= 10 && n < 10 {
        lemma_dec_chars_len(m / 10);
        assert(dec_chars(m).len() >= 2);
    } else {
        if m % 10 != n % 10 {
            let lm = dec_chars(m).len();
            let ln = dec_chars(n).len();
            if dec_chars(m) == dec_chars(n) {
                assert(dec_chars(m)[lm - 1] == digit_char(m % 10));
                assert(dec_chars(n)[ln - 1] == digit_char(n % 10));
                assert(false);
            }
        } else {
            lemma_dec_chars_injective(m / 10, n / 10);
            let lm = dec_chars(m).len();
            let ln = dec_chars(n).len();
            if dec_chars(m) == dec_chars(n) {
                assert(dec_chars(m / 10) =~= dec_chars(m).subrange(0, lm - 1));
                assert(dec_chars(n / 10) =~= dec_chars(n).subrange(0, ln - 1));
                assert(false);
            }
        }
    }
}

/// Appends the decimal digits of `n` to `buf`.
pub fn push_dec_u64(buf: &mut Vec<u8>, n: u64)
    ensures
        final(buf)@ == old(buf)@ + dec_bytes(n as nat),
    decreases n,
{
    if n < 10 {
        buf.push(0x30 + n as u8);
        proof {
            assert(buf@ =~= old(buf)@ + dec_bytes(n as nat));
        }
    } else {
        push_dec_u64(buf, n / 10);
        buf.push(0x30 + (n % 10) as u8);
        proof {
            assert(buf@ =~= old(buf)@ + dec_bytes(n as nat));
        }
    }
}

/// Appends the decimal digits of `v`, sign included, to `buf`.
pub fn push_dec_i64(buf: &mut Vec<u8>, v: i64)
    requires
        v > i64::MIN,
    ensures
        final(buf)@ == old(buf)@ + int_bytes(v as int),
{
    if v < 0 {
        buf.push(0x2d);
        push_dec_u64(buf, (-v) as u64);
        proof {
            assert(buf@ =~= old(buf)@ + int_bytes(v as int));
        }
    } else {
        push_dec_u64(buf, v as u64);
    }
}

/// The number of digits that `dec_bytes` renders for `n`.
fn dec_len_u64(n: u64) -> (r: usize)
    ensures
        r == dec_bytes(n as nat).len(),
        1 <= r <= 20,
    decreases n,
{
    proof {
        lemma_dec_len_le_20(n as nat);
    }
    if n < 10 {
        1
    } else {
        1 + dec_len_u64(n / 10)
    }
}

/// Ten to the power `d`.
pub open spec fn pow10(d: nat) -> nat
    decreases d,
{
    if d == 0 {
        1
    } else {
        10 * pow10((d - 1) as nat)
    }
}

proof fn lemma_dec_len_bounded(n: nat, d: nat)
    requires
        1 <= d,
        n < pow10(d),
    ensures
        dec_bytes(n).len() <= d,
    decreases d,
{
    if n < 10 {
    } else {
        assert(pow10(d) == 10 * pow10((d - 1) as nat));
        if d == 1 {
            assert(pow10(1) == 10 * pow10(0));
            assert(pow10(0) == 1);
            assert(false);
        }
        assert(n / 10 < pow10((d - 1) as nat)) by (nonlinear_arith)
            requires
                n < 10 * pow10((d - 1) as nat),
        {
        }
        lemma_dec_len_bounded(n / 10, (d - 1) as nat);
    }
}

proof fn lemma_dec_len_le_20(n: nat)
    requires
        n < 0x10000000000000000,
    ensures
        dec_bytes(n).len() <= 20,
{
    assert(pow10(20) == 100000000000000000000) by {
        reveal_with_fuel(pow10, 21);
    }
    lemma_dec_len_bounded(n, 20);
}

/// Appends the ten-byte zero-padded decimal form of `n` to `buf`.
pub fn push_dec_pad10(buf: &mut Vec<u8>, n: u64)
    ensures
        final(buf)@ == old(buf)@ + pad10_bytes(n as nat),
{
    let digits = dec_len_u64(n);
    if digits < 10 {
        let mut i: usize = 0;
        let pad: usize = 10 - digits;
        while i < pad
            invariant
                i <= pad,
                buf@ == old(buf)@ + Seq::new(i as nat, |j: int| 0x30u8),
            decreases pad - i,
        {
            buf.push(0x30);
            proof {
                assert(buf@ =~= old(buf)@ + Seq::new((i + 1) as nat, |j: int| 0x30u8));
            }
            i += 1;
        }
        push_dec_u64(buf, n);
        proof {
            assert(buf@ =~= old(buf)@ + pad10_bytes(n as nat));
        }
    } else {
        push_dec_u64(buf, n);
    }
}

/// Appends the decimal digit characters of `n` to `s`.
pub fn push_dec_string(s: &mut String, n: u64)
    ensures
        final(s)@ == old(s)@ + dec_chars(n as nat),
    decreases n,
{
    if n < 10 {
        s.append(digit_str(n));
        proof {
            assert(s@ =~= old(s)@ + dec_chars(n as nat));
        }
    } else {
        push_dec_string(s, n / 10);
        s.append(digit_str(n % 10));
        proof {
            assert(s@ =~= old(s)@ + dec_chars(n as nat));
        }
    }
}

/// One decimal digit as a string slice.
fn digit_str(d: u64) -> (r: &'static str)
    requires
        d < 10,
    ensures
        r@ == seq![digit_char(d as nat)],
{
    proof {
        reveal_strlit("0");
        reveal_strlit("1");
        reveal_strlit("2");
        reveal_strlit("3");
        reveal_strlit("4");
        reveal_strlit("5");
        reveal_strlit("6");
        reveal_strlit("7");
        reveal_strlit("8");
        reveal_strlit("9");
    }
    let r = if d == 0 {
        "0"
    } else if d == 1 {
        "1"
    } else if d == 2 {
        "2"
    } else if d == 3 {
        "3"
    } else if d == 4 {
        "4"
    } else if d == 5 {
        "5"
    } else if d == 6 {
        "6"
    } else if d == 7 {
        "7"
    } else if d == 8 {
        "8"
    } else {
        "9"
    };
    proof {
        assert(r@ =~= seq![digit_char(d as nat)]);
    }
    r
}

} // verus!
