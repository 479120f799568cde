//! Rendering raw values as text.
use vstd::prelude::*;
use vstd::string::*;
use crate::ratio::{abs_int, Ratio};
use num_format::{Locale, ToFormattedString};

verus! {

/// The character of a decimal digit.
pub open spec fn digit_char(d: int) -> char {
    if d == 0 {
        '0'
    } else if d == 1 {
        '1'
    } else if d == 2 {
        '2'
    } else if d == 3 {
        '3'
    } else if d == 4 {
        '4'
    } else if d == 5 {
        '5'
    } else if d == 6 {
        '6'
    } else if d == 7 {
        '7'
    } else if d == 8 {
        '8'
    } else {
        '9'
    }
}

/// The decimal digits of `n`, most significant first.
pub open spec fn digits(n: nat) -> Seq<char>
    decreases n,
{
    if n < 10 {
        seq![digit_char(n as int)]
    } else {
        digits(n / 10).push(digit_char((n % 10) as int))
    }
}

/// `n` in decimal, with a leading `-` when it is negative.
pub open spec fn decimal(n: int) -> Seq<char> {
    if n < 0 {
        seq!['-'] + digits((-n) as nat)
    } else {
        digits(n as nat)
    }
}

/// The three decimal digits of `k < 1000`, with leading zeros.
pub open spec fn three_digits(k: nat) -> Seq<char> {
    seq![digit_char((k / 100) as int), digit_char(((k / 10) % 10) as int), digit_char((k % 10) as int)]
}

/// The decimal digits of `n` in groups of three separated by `,`.
pub open spec fn grouped_digits(n: nat) -> Seq<char>
    decreases n,
{
    if n < 1000 {
        digits(n)
    } else {
        grouped_digits(n / 1000) + seq![','] + three_digits(n % 1000)
    }
}

/// `n` in decimal with its digits grouped by three, and a leading `-`
/// when it is negative.
pub open spec fn grouped(n: int) -> Seq<char> {
    if n < 0 {
        seq!['-'] + grouped_digits((-n) as nat)
    } else {
        grouped_digits(n as nat)
    }
}

/// Ten to the power `p`.
pub open spec fn pow10(p: nat) -> int
    decreases p,
{
    if p == 0 {
        1
    } else {
        10 * pow10((p - 1) as nat)
    }
}

/// `v * 10^p` rounded to the nearest integer, halves away from zero.
pub open spec fn rounded_scaled(v: Ratio, p: nat) -> int {
    let x = v.n() * pow10(p);
    if x >= 0 {
        (2 * x + v.d()) / (2 * v.d())
    } else {
        -((-2 * x + v.d()) / (2 * v.d()))
    }
}

/// `s` with zeros put in front up to the width `w`.
pub open spec fn padded(s: Seq<char>, w: nat) -> Seq<char> {
    if s.len() < w {
        Seq::new((w - s.len()) as nat, |i: int| '0') + s
    } else {
        s
    }
}

/// `v` rounded to `p` decimal places and written out with exactly `p`
/// digits after the point (and no point when `p` is zero).
pub open spec fn fixed(v: Ratio, p: nat) -> Seq<char> {
    let m = rounded_scaled(v, p);
    let a = abs_int(m);
    let whole = (if m < 0 {
        seq!['-']
    } else {
        Seq::<char>::empty()
    }) + digits((a / pow10(p)) as nat);
    if p == 0 {
        whole
    } else {
        whole + seq!['.'] + padded(digits((a % pow10(p)) as nat), p)
    }
}

proof fn lemma_pow10_bounds(p: nat)
    ensures
        1 <= pow10(p),
        p <= 18 ==> pow10(p) <= 1_000_000_000_000_000_000,
    decreases p,
{
    if p > 0 {
        lemma_pow10_bounds((p - 1) as nat);
    }
    if p <= 18 {
        lemma_pow10_monotonic(p, 18);
        reveal_with_fuel(pow10, 19);
        assert(pow10(18) == 1_000_000_000_000_000_000);
    }
}

proof fn lemma_pow10_monotonic(p: nat, q: nat)
    requires
        p <= q,
    ensures
        pow10(p) <= pow10(q),
    decreases q,
{
    if p < q {
        lemma_pow10_monotonic(p, (q - 1) as nat);
        lemma_pow10_positive((q - 1) as nat);
    }
}

proof fn lemma_pow10_positive(p: nat)
    ensures
        1 <= pow10(p),
    decreases p,
{
    if p > 0 {
        lemma_pow10_positive((p - 1) as nat);
    }
}

/// Relies on the `Display` impl of `u128`, through `to_string`: the
/// decimal digits of the value, most significant first.
#[verifier::external_body]
fn decimal_text(n: u128) -> (r: String)
    ensures
        r@ == digits(n as nat),
{
    n.to_string()
}

/// Relies on num_format's `to_formatted_string` with `Locale::en`, whose
/// grouping is by three digits with the separator `,` and the minus sign
/// `-`.
#[verifier::external_body]
pub(crate) fn grouped_text(n: i64) -> (r: String)
    ensures
        r@ == grouped(n as int),
{
    n.to_formatted_string(&Locale::en)
}

/// `v` rounded to `places` decimal places, halves away from zero.
pub fn fixed_text(v: Ratio, places: u32) -> (r: String)
    requires
        v.wf(),
        places <= 18,
    ensures
        r@ == fixed(v, places as nat),
{
    let mut pow: u128 = 1;
    let mut k: u32 = 0;
    proof {
        lemma_pow10_bounds(places as nat);
    }
    while k < places
        invariant
            k <= places <= 18,
            pow == pow10(k as nat),
        decreases places - k,
    {
        proof {
            lemma_pow10_bounds(k as nat);
        }
        pow = pow * 10;
        k = k + 1;
    }
    proof {
        lemma_pow10_bounds(places as nat);
    }
    let d: u128 = v.den as u128;
    let na: u128 = if v.num < 0 { (-(v.num as i128)) as u128 } else { v.num as u128 };
    assert(na * pow <= 0x8000_0000_0000_0000 * 1_000_000_000_000_000_000) by (nonlinear_arith)
        requires
            na <= 0x8000_0000_0000_0000,
            pow <= 1_000_000_000_000_000_000,
    ;
    let xa: u128 = na * pow;
    let a: u128 = (2 * xa + d) / (2 * d);
    proof {
        let x = v.n() * pow10(places as nat);
        if v.n() >= 0 {
            assert(x == na * pow);
            assert(x >= 0) by (nonlinear_arith)
                requires
                    x == na * pow,
                    na >= 0,
                    pow >= 0,
            ;
        } else {
            assert(x == -(na * pow)) by (nonlinear_arith)
                requires
                    x == v.n() * pow,
                    na == -v.n(),
            ;
        }
    }
    let ghost m = rounded_scaled(v, places as nat);
    let negative: bool = v.num < 0 && a > 0;
    proof {
        let x = v.n() * pow10(places as nat);
        if v.n() >= 0 {
            assert(x == xa as int);
            assert(m == a);
        } else {
            assert(xa > 0) by (nonlinear_arith)
                requires
                    xa == na * pow,
                    na > 0,
                    pow >= 1,
            ;
            assert(x == -(xa as int));
            assert(-2 * x + v.d() == 2 * xa + d);
            assert(m == -(a as int));
        }
        assert(abs_int(m) == a);
        assert((m < 0) == negative);
    }
    let mut s = String::new();
    if negative {
        s.append("-");
    }
    proof {
        reveal_strlit("-");
        assert(s@ =~= (if m < 0 { seq!['-'] } else { Seq::<char>::empty() }));
    }
    let whole: String = decimal_text(a / pow);
    s.append(whole.as_str());
    let ghost head = s@;
    if places > 0 {
        s.append(".");
        let frac: String = decimal_text(a % pow);
        let len: usize = frac.as_str().unicode_len();
        let mut w: usize = len;
        let ghost pre = s@;
        while w < places as usize
            invariant
                len <= w,
                w <= places as usize || w == len,
                len == frac@.len(),
                s@ == pre + Seq::new((w - len) as nat, |i: int| '0'),
            decreases places - w,
        {
            s.append("0");
            proof {
                reveal_strlit("0");
                assert(s@ =~= pre + Seq::new((w + 1 - len) as nat, |i: int| '0'));
            }
            w = w + 1;
        }
        s.append(frac.as_str());
        proof {
            reveal_strlit(".");
            assert(pre =~= head + seq!['.']);
            assert(Seq::new((w - len) as nat, |i: int| '0') + frac@ =~= padded(frac@, places as nat));
            assert(s@ =~= head + seq!['.'] + padded(frac@, places as nat));
        }
    }
    s
}

} // verus!
