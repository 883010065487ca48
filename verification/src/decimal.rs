//! Decimal number text: rendering integers for the wire, and parsing wire
//! number text into the engine's scaled fixed-point representation.

use vstd::prelude::*;
use vstd::string::StrSliceExecFns;
use vstd::string::StringExecFns;

use crate::settings::{FP_SCALE, MAX_PRICE};

verus! {

/// Decimal digit characters.
pub open spec fn dec_digit(d: int) -> char {
    if d == 0 {
        '0'
    } else if d == 1 {
        '1'
    } else if d == 2 {
        '2'
    } else if d == 3 {
        '3'
    } else if d == 4 {
        '4'
    } else if d == 5 {
        '5'
    } else if d == 6 {
        '6'
    } else if d == 7 {
        '7'
    } else if d == 8 {
        '8'
    } else {
        '9'
    }
}

/// The decimal digits of a natural number, most significant first.
pub open spec fn dec_nat(n: nat) -> Seq<char>
    decreases n,
{
    if n < 10 {
        seq![dec_digit(n as int)]
    } else {
        dec_nat(n / 10).push(dec_digit((n % 10) as int))
    }
}

/// The decimal representation of an integer, with a leading minus sign for
/// negative values.
pub open spec fn dec_int(n: int) -> Seq<char> {
    if n < 0 {
        seq!['-'] + dec_nat((-n) as nat)
    } else {
        dec_nat(n as nat)
    }
}

/// Append the decimal digits of `n`, most significant first.
fn push_dec_digits(s: &mut String, n: u64)
    ensures
        final(s)@ == old(s)@ + dec_nat(n as nat),
    decreases n,
{
    if n >= 10 {
        push_dec_digits(s, n / 10);
    }
    let ghost mid = s@;
    let d: u64 = n % 10;
    proof {
        reveal_strlit("0");
        reveal_strlit("1");
        reveal_strlit("2");
        reveal_strlit("3");
        reveal_strlit("4");
        reveal_strlit("5");
        reveal_strlit("6");
        reveal_strlit("7");
        reveal_strlit("8");
        reveal_strlit("9");
    }
    if d == 0 {
        s.append("0");
    } else if d == 1 {
        s.append("1");
    } else if d == 2 {
        s.append("2");
    } else if d == 3 {
        s.append("3");
    } else if d == 4 {
        s.append("4");
    } else if d == 5 {
        s.append("5");
    } else if d == 6 {
        s.append("6");
    } else if d == 7 {
        s.append("7");
    } else if d == 8 {
        s.append("8");
    } else {
        s.append("9");
    }
    proof {
        assert(s@ =~= mid.push(dec_digit((n % 10) as int)));
        if n < 10 {
            assert(dec_nat(n as nat) =~= seq![dec_digit(n as int)]);
            assert(s@ =~= old(s)@ + dec_nat(n as nat));
        } else {
            assert(mid == old(s)@ + dec_nat((n / 10) as nat));
            assert(dec_nat(n as nat) == dec_nat((n / 10) as nat).push(
                dec_digit((n % 10) as int),
            ));
            assert(s@ =~= old(s)@ + dec_nat(n as nat));
        }
    }
}

/// Render an integer as decimal text, a leading minus sign for negative
/// values.
pub(crate) fn i64_to_string(n: i64) -> (r: String)
    ensures
        r@ == dec_int(n as int),
{
    let mut s: String = String::new();
    if n < 0 {
        s.append("-");
        proof {
            reveal_strlit("-");
            assert(s@ =~= seq!['-']);
        }
        let mag: u64 = (-(n as i128)) as u64;
        push_dec_digits(&mut s, mag);
        proof {
            assert(s@ =~= seq!['-'] + dec_nat(mag as nat));
            assert(mag as nat == (-(n as int)) as nat);
        }
    } else {
        push_dec_digits(&mut s, n as u64);
    }
    s
}

pub open spec fn is_dec_digit(c: char) -> bool {
    48 <= c as int <= 57
}

pub open spec fn digit_val(c: char) -> int {
    c as int - 48
}

/// The value of a digit string, most significant digit first.
pub open spec fn digits_val(s: Seq<char>) -> int
    decreases s.len(),
{
    if s.len() == 0 {
        0
    } else {
        digits_val(s.drop_last()) * 10 + digit_val(s.last())
    }
}

/// Index of the first non-digit at or after `i`, or the length.
pub open spec fn digit_run_end(s: Seq<char>, i: int) -> int
    decreases s.len() - i when 0 <= i <= s.len()
{
    if i >= s.len() {
        i
    } else if is_dec_digit(s[i]) {
        digit_run_end(s, i + 1)
    } else {
        i
    }
}

pub open spec fn pow10(n: int) -> int {
    if n <= 0 {
        1
    } else if n == 1 {
        10
    } else if n == 2 {
        100
    } else if n == 3 {
        1000
    } else if n == 4 {
        10_000
    } else {
        100_000
    }
}

/// From `start`, the text reads as an unsigned decimal literal to its end:
/// digits, optionally a point and further digits.
pub open spec fn dec_shape_at(s: Seq<char>, start: int) -> bool {
    let k = digit_run_end(s, start);
    &&& start < s.len()
    &&& k > start
    &&& (k == s.len() || (s[k] == '.' && k + 1 < s.len() && digit_run_end(s, k + 1)
        == s.len()))
}

/// The scaled value of the literal at `start`; fractional digits past the
/// scale's five places are truncated toward zero.
pub open spec fn dec_value_scaled_at(s: Seq<char>, start: int) -> int {
    let k = digit_run_end(s, start);
    if k == s.len() {
        digits_val(s.subrange(start, k)) * FP_SCALE
    } else {
        let kept_end = if s.len() - (k + 1) >= 5 {
            k + 6
        } else {
            s.len() as int
        };
        digits_val(s.subrange(start, k)) * FP_SCALE + digits_val(s.subrange(k + 1, kept_end))
            * pow10(5 - (kept_end - (k + 1)))
    }
}

/// The scaled fixed-point reading of decimal text: `None` where the text is
/// not a plain decimal literal (an exponent form is not one) or its
/// magnitude exceeds `MAX_PRICE`.
pub open spec fn scaled_of(s: Seq<char>) -> Option<i64> {
    let neg = s.len() > 0 && s[0] == '-';
    let start: int = if neg {
        1
    } else {
        0
    };
    if !dec_shape_at(s, start) {
        None
    } else {
        let v = dec_value_scaled_at(s, start);
        if v > MAX_PRICE {
            None
        } else if neg {
            Some((-v) as i64)
        } else {
            Some(v as i64)
        }
    }
}

proof fn lemma_digits_val_nonneg(s: Seq<char>)
    requires
        forall|i: int| 0 <= i < s.len() ==> is_dec_digit(#[trigger] s[i]),
    ensures
        digits_val(s) >= 0,
    decreases s.len(),
{
    if s.len() > 0 {
        lemma_digits_val_nonneg(s.drop_last());
        assert(digits_val(s.drop_last()) * 10 >= 0) by (nonlinear_arith)
            requires digits_val(s.drop_last()) >= 0;
    }
}

/// A run of at most five digits stays under the scale.
proof fn lemma_digits_val_small(s: Seq<char>)
    requires
        forall|i: int| 0 <= i < s.len() ==> is_dec_digit(#[trigger] s[i]),
        s.len() <= 5,
    ensures
        0 <= digits_val(s) < pow10(s.len() as int),
    decreases s.len(),
{
    if s.len() > 0 {
        lemma_digits_val_small(s.drop_last());
        let v = digits_val(s.drop_last());
        assert(v * 10 + digit_val(s.last()) < pow10(s.len() as int)) by (nonlinear_arith)
            requires
                0 <= v < pow10(s.len() - 1),
                0 <= digit_val(s.last()) <= 9,
                pow10(s.len() as int) == 10 * pow10(s.len() - 1),
        ;
    }
}

proof fn lemma_digit_run_all_digits(s: Seq<char>, i: int, j: int)
    requires
        0 <= i <= s.len(),
        i <= j < digit_run_end(s, i),
    ensures
        is_dec_digit(s[j]),
    decreases s.len() - i,
{
    if i < s.len() && is_dec_digit(s[i]) {
        if j > i {
            lemma_digit_run_all_digits(s, i + 1, j);
        }
    }
}

/// A digit string's value only grows as digits are appended.
proof fn lemma_digits_prefix_monotone(s: Seq<char>, from: int, mid: int, to: int)
    requires
        0 <= from <= mid <= to <= s.len(),
        forall|j: int| from <= j < to ==> is_dec_digit(#[trigger] s[j]),
    ensures
        digits_val(s.subrange(from, mid)) <= digits_val(s.subrange(from, to)),
    decreases to - mid,
{
    if mid < to {
        let shorter = s.subrange(from, to - 1);
        let longer = s.subrange(from, to);
        assert(longer.drop_last() =~= shorter);
        lemma_digits_prefix_monotone(s, from, mid, to - 1);
        assert(forall|j: int| 0 <= j < shorter.len() ==> is_dec_digit(#[trigger] shorter[j]));
        lemma_digits_val_nonneg(shorter);
        assert(longer.last() == s[to - 1]);
        assert(is_dec_digit(s[to - 1]));
        assert(digits_val(shorter) * 10 + digit_val(longer.last()) >= digits_val(shorter))
            by (nonlinear_arith)
            requires
                digits_val(shorter) >= 0,
                digit_val(longer.last()) >= 0,
        ;
    }
}

/// Accumulate the value of the digit run `s[from..to]`, stopping with
/// `None` as soon as the value exceeds `MAX_PRICE`.
fn digits_value_capped(s: &str, from: usize, to: usize) -> (r: Option<i64>)
    requires
        from <= to <= s@.len(),
        forall|j: int| from <= j < to ==> is_dec_digit(#[trigger] s@[j]),
    ensures
        match r {
            Some(v) => v == digits_val(s@.subrange(from as int, to as int)) && 0 <= v
                <= MAX_PRICE,
            None => digits_val(s@.subrange(from as int, to as int)) > MAX_PRICE,
        },
{
    let mut val: i64 = 0;
    let mut i: usize = from;
    proof {
        assert(s@.subrange(from as int, from as int) =~= Seq::<char>::empty());
    }
    while i < to
        invariant
            from <= i <= to <= s@.len(),
            forall|j: int| from <= j < to ==> is_dec_digit(#[trigger] s@[j]),
            0 <= val <= MAX_PRICE,
            val == digits_val(s@.subrange(from as int, i as int)),
        decreases to - i,
    {
        proof {
            assert(s@.subrange(from as int, i + 1).drop_last() =~= s@.subrange(
                from as int,
                i as int,
            ));
            assert(s@.subrange(from as int, i + 1).last() == s@[i as int]);
        }
        let c: char = s.get_char(i);
        let d: i64 = (c as u32) as i64 - 48;
        if val > (MAX_PRICE - d) / 10 {
            proof {
                assert(val * 10 + d > MAX_PRICE) by (nonlinear_arith)
                    requires
                        val > (MAX_PRICE - d) / 10,
                        0 <= d <= 9,
                        MAX_PRICE == 10_000_000_000_000,
                        0 <= val,
                ;
                lemma_digits_prefix_monotone(s@, from as int, i + 1, to as int);
            }
            return None;
        }
        proof {
            assert(val * 10 + d <= MAX_PRICE) by (nonlinear_arith)
                requires
                    val <= (MAX_PRICE - d) / 10,
                    0 <= d <= 9,
                    MAX_PRICE == 10_000_000_000_000,
                    0 <= val,
            ;
        }
        val = val * 10 + d;
        i = i + 1;
    }
    proof {
        assert(s@.subrange(from as int, to as int) =~= s@.subrange(from as int, i as int));
    }
    Some(val)
}

fn digit_run_end_exec(s: &str, from: usize, n: usize) -> (r: usize)
    requires
        from <= n,
        n == s@.len(),
    ensures
        r == digit_run_end(s@, from as int),
        from <= r <= n,
    decreases n - from,
{
    if from < n {
        let c: char = s.get_char(from);
        let cv: u32 = c as u32;
        if 48 <= cv && cv <= 57 {
            return digit_run_end_exec(s, from + 1, n);
        }
    }
    from
}

/// Parse decimal text into the scaled fixed-point value `scaled_of` gives.
#[verifier::rlimit(100)]
#[verifier::spinoff_prover]
pub fn parse_scaled_decimal(s: &str) -> (r: Option<i64>)
    ensures
        r == scaled_of(s@),
{
    let n: usize = s.unicode_len();
    if n == 0 {
        return None;
    }
    let neg: bool = s.get_char(0) == '-';
    let start: usize = if neg {
        1
    } else {
        0
    };
    if start >= n {
        return None;
    }
    let k: usize = digit_run_end_exec(s, start, n);
    if k == start {
        return None;
    }
    proof {
        assert forall|j: int| start <= j < k implies is_dec_digit(#[trigger] s@[j]) by {
            lemma_digit_run_all_digits(s@, start as int, j);
        }
    }
    let int_part: Option<i64> = digits_value_capped(s, start, k);
    let int_val: i64 = match int_part {
        Some(v) => v,
        None => {
            // The integer part alone already exceeds the cap.
            proof {
                let whole = s@.subrange(start as int, k as int);
                lemma_digits_val_nonneg(whole);
                assert(digits_val(whole) * FP_SCALE >= digits_val(whole)) by (nonlinear_arith)
                    requires
                        digits_val(whole) >= 0,
                        FP_SCALE >= 1,
                ;
                if k < n {
                    let kept_end: int = if n - (k + 1) >= 5 {
                        k + 6
                    } else {
                        n as int
                    };
                    if dec_shape_at(s@, start as int) {
                        assert forall|j: int| k + 1 <= j < n implies is_dec_digit(
                            #[trigger] s@[j],
                        ) by {
                            lemma_digit_run_all_digits(s@, k + 1, j);
                        }
                        let frac = s@.subrange(k + 1, kept_end);
                        assert(forall|j: int|
                            0 <= j < frac.len() ==> is_dec_digit(#[trigger] frac[j]));
                        lemma_digits_val_nonneg(frac);
                        assert(digits_val(frac) * pow10(5 - (kept_end - (k + 1))) >= 0)
                            by (nonlinear_arith)
                            requires
                                digits_val(frac) >= 0,
                                pow10(5 - (kept_end - (k + 1))) >= 1,
                        ;
                    }
                }
            }
            return None;
        },
    };
    if k == n {
        let v: i64 = int_val * FP_SCALE;
        if v > MAX_PRICE {
            return None;
        }
        return if neg {
            Some(-v)
        } else {
            Some(v)
        };
    }
    if s.get_char(k) != '.' {
        return None;
    }
    if k + 1 >= n {
        return None;
    }
    let frac_end: usize = digit_run_end_exec(s, k + 1, n);
    if frac_end != n {
        return None;
    }
    proof {
        assert forall|j: int| k + 1 <= j < n implies is_dec_digit(#[trigger] s@[j]) by {
            lemma_digit_run_all_digits(s@, k + 1, j);
        }
    }
    let kept_end: usize = if n - (k + 1) >= 5 {
        k + 6
    } else {
        n
    };
    proof {
        let frac = s@.subrange(k + 1, kept_end as int);
        assert(forall|j: int| 0 <= j < frac.len() ==> is_dec_digit(#[trigger] frac[j]));
        lemma_digits_val_small(frac);
    }
    let frac_part: Option<i64> = digits_value_capped(s, k + 1, kept_end);
    let frac_val: i64 = match frac_part {
        Some(v) => v,
        None => 0,
    };
    let places: usize = kept_end - (k + 1);
    let scaled_frac: i64 = if places >= 5 {
        frac_val
    } else if places == 4 {
        frac_val * 10
    } else if places == 3 {
        frac_val * 100
    } else if places == 2 {
        frac_val * 1000
    } else {
        frac_val * 10_000
    };
    let v: i64 = int_val * FP_SCALE + scaled_frac;
    if v > MAX_PRICE {
        return None;
    }
    if neg {
        Some(-v)
    } else {
        Some(v)
    }
}

} // verus!
