//! Decimal text: fixed-width rendering of counters (with an injectivity law
//! that underpins collision-free secret-file names) and parsing of the repeat
//! count from the command line.

use vstd::arithmetic::div_mod::lemma_breakdown;
use vstd::arithmetic::div_mod::lemma_small_mod;
use vstd::prelude::*;

verus! {

/// Width in digits of a fixed-width rendered counter; enough for any `u64`.
pub const DEC_WIDTH: usize = 20;

/// The decimal digit character for a value below 10.
pub open spec fn dec_char_of(d: u8) -> char {
    (d + 48) as char
}

/// Whether `c` is a decimal digit.
pub open spec fn is_dec_char(c: char) -> bool {
    48 <= c as int <= 57
}

/// The value of a decimal digit character.
pub open spec fn dec_val(c: char) -> nat {
    (c as int - 48) as nat
}

/// Ten to the `k`.
pub open spec fn pow10(k: nat) -> nat
    decreases k,
{
    if k == 0 {
        1
    } else {
        10 * pow10((k - 1) as nat)
    }
}

/// The `w`-digit decimal rendering of `n % pow10(w)`, most significant first.
pub open spec fn dec_fix(n: nat, w: nat) -> Seq<char>
    decreases w,
{
    if w == 0 {
        Seq::empty()
    } else {
        dec_fix(n / 10, (w - 1) as nat) + seq![dec_char_of((n % 10) as u8)]
    }
}

/// The numeric value of a string of decimal digits (0 for the empty string).
pub open spec fn dec_value(s: Seq<char>) -> nat
    decreases s.len(),
{
    if s.len() == 0 {
        0
    } else {
        dec_value(s.drop_last()) * 10 + dec_val(s.last())
    }
}

/// Ten to the `k` is positive.
pub proof fn lemma_pow10_pos(k: nat)
    ensures
        pow10(k) >= 1,
    decreases k,
{
    if k > 0 {
        lemma_pow10_pos((k - 1) as nat);
    }
}

/// Reading back a fixed-width rendering gives the rendered value modulo the width.
pub proof fn lemma_dec_fix_value(n: nat, w: nat)
    ensures
        dec_fix(n, w).len() == w,
        dec_value(dec_fix(n, w)) == n % pow10(w),
        forall|i: int| 0 <= i < w ==> is_dec_char(#[trigger] dec_fix(n, w)[i]),
    decreases w,
{
    if w > 0 {
        lemma_dec_fix_value(n / 10, (w - 1) as nat);
        let s = dec_fix(n, w);
        let head = dec_fix(n / 10, (w - 1) as nat);
        assert(s.drop_last() =~= head);
        assert(s.last() == dec_char_of((n % 10) as u8));
        assert(dec_val(dec_char_of((n % 10) as u8)) == n % 10);
        assert(dec_value(s) == ((n / 10) % pow10((w - 1) as nat)) * 10 + n % 10);
        lemma_pow10_pos((w - 1) as nat);
        lemma_breakdown(n as int, 10, pow10((w - 1) as nat) as int);
        assert(pow10(w) == 10 * pow10((w - 1) as nat));
        assert(n % pow10(w) == 10 * ((n / 10) % pow10((w - 1) as nat)) + n % 10);
    }
}

/// Fixed-width decimal rendering is injective on values that fit the width.
pub proof fn lemma_dec_fix_injective(a: nat, b: nat, w: nat)
    requires
        a < pow10(w),
        b < pow10(w),
        dec_fix(a, w) == dec_fix(b, w),
    ensures
        a == b,
{
    lemma_dec_fix_value(a, w);
    lemma_dec_fix_value(b, w);
    lemma_small_mod(a, pow10(w));
    lemma_small_mod(b, pow10(w));
}

/// Every `u64` fits in `DEC_WIDTH` digits.
pub proof fn lemma_u64_fits_dec_width(n: u64)
    ensures
        (n as nat) < pow10(DEC_WIDTH as nat),
{
    reveal_with_fuel(pow10, 21);
    assert(pow10(20) == 0x56bc75e2d63100000);
}

/// Append the ASCII bytes of the `w`-digit rendering of `n` to `out`.
pub fn push_dec_fix(n: u64, w: usize, out: &mut Vec<u8>)
    ensures
        final(out)@.len() == old(out)@.len() + w,
        final(out)@.take(old(out)@.len() as int) == old(out)@,
        forall|i: int|
            old(out)@.len() <= i < final(out)@.len() ==> #[trigger] final(out)@[i] < 128
                && final(out)@[i] as char == dec_fix(n as nat, w as nat)[i - old(out)@.len()],
    decreases w,
{
    if w > 0 {
        push_dec_fix(n / 10, w - 1, out);
        let d: u8 = (n % 10) as u8;
        out.push(d + 48);
        proof {
            let s = dec_fix(n as nat, w as nat);
            let head = dec_fix(n as nat / 10, (w - 1) as nat);
            lemma_dec_fix_value(n as nat, w as nat);
            lemma_dec_fix_value(n as nat / 10, (w - 1) as nat);
            assert(s =~= head + seq![dec_char_of((n as nat % 10) as u8)]);
            assert(out@.take(old(out)@.len() as int) =~= old(out)@);
        }
    } else {
        proof {
            assert(out@.take(old(out)@.len() as int) =~= old(out)@);
        }
    }
}

/// The repeat count a digit string denotes: defined when the string is
/// nonempty, all digits, positive, and fits a `u64`.
pub open spec fn parse_count_spec(s: Seq<char>) -> Option<u64> {
    if s.len() > 0 && (forall|i: int| 0 <= i < s.len() ==> is_dec_char(#[trigger] s[i]))
        && 1 <= dec_value(s) <= u64::MAX {
        Some(dec_value(s) as u64)
    } else {
        None
    }
}

/// Appending a digit multiplies the value by ten and adds the digit.
proof fn lemma_dec_value_step(s: Seq<char>, i: int)
    requires
        0 <= i < s.len(),
    ensures
        dec_value(s.take(i + 1)) == dec_value(s.take(i)) * 10 + dec_val(s[i]),
{
    assert(s.take(i + 1).drop_last() =~= s.take(i));
    assert(s.take(i + 1).last() == s[i]);
}

/// The value of a digit string never shrinks as digits are appended.
proof fn lemma_dec_value_monotone(s: Seq<char>, i: int, j: int)
    requires
        0 <= i <= j <= s.len(),
    ensures
        dec_value(s.take(i)) <= dec_value(s.take(j)),
    decreases j - i,
{
    if i < j {
        lemma_dec_value_monotone(s, i, j - 1);
        lemma_dec_value_step(s, j - 1);
    }
}

/// Parse a repeat count; accepts exactly the strings `parse_count_spec` accepts.
pub fn parse_count(s: &str) -> (r: Option<u64>)
    ensures
        r == parse_count_spec(s@),
{
    let n = s.unicode_len();
    if n == 0 {
        return None;
    }
    let mut acc: u64 = 0;
    let mut i: usize = 0;
    while i < n
        invariant
            n == s@.len(),
            i <= n,
            forall|k: int| 0 <= k < i ==> is_dec_char(#[trigger] s@[k]),
            acc as nat == dec_value(s@.take(i as int)),
        decreases n - i,
    {
        let c = s.get_char(i);
        let u = c as u32;
        if !(48 <= u && u <= 57) {
            return None;
        }
        let d: u64 = (u - 48) as u64;
        proof {
            lemma_dec_value_step(s@, i as int);
        }
        if acc > (u64::MAX - d) / 10 {
            proof {
                assert(acc as nat * 10 + d as nat > u64::MAX) by (nonlinear_arith)
                    requires
                        acc as nat > (u64::MAX - d as nat) / 10,
                        d < 10,
                ;
                lemma_dec_value_monotone(s@, i + 1, s@.len() as int);
                assert(s@.take(s@.len() as int) =~= s@);
            }
            return None;
        }
        proof {
            assert(acc * 10 + d <= u64::MAX) by (nonlinear_arith)
                requires
                    acc as nat <= (u64::MAX - d as nat) / 10,
                    d < 10,
            ;
        }
        acc = acc * 10 + d;
        i = i + 1;
    }
    proof {
        assert(s@.take(n as int) =~= s@);
    }
    if acc == 0 {
        return None;
    }
    Some(acc)
}

} // verus!
