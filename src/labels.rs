//! Human-readable renderings of some quantities.
use vstd::prelude::*;
use vstd::string::*;
use crate::catalog::{whole, SECONDS_PER_DAY};
use crate::ratio::{abs_int, Ratio};
use crate::text::{fixed, fixed_text, grouped, grouped_text};
use crate::units::{Duration, Mass, MassRate, Population, Price};

verus! {

/// `n / m` rounded toward zero, for a positive `m`.
pub open spec fn trunc_div(n: int, m: int) -> int {
    if n >= 0 {
        n / m
    } else {
        -((-n) / m)
    }
}

/// `n / m` rounded toward zero.
fn trunc_div_exec(n: i128, m: i128) -> (r: i128)
    requires
        m > 0,
        n > i128::MIN,
    ensures
        r == trunc_div(n as int, m as int),
        abs_int(r as int) <= abs_int(n as int),
{
    if n >= 0 {
        assert(n / m <= n) by (nonlinear_arith)
            requires
                n >= 0,
                m > 0,
        ;
        n / m
    } else {
        let p: i128 = -n;
        assert(p / m <= p) by (nonlinear_arith)
            requires
                p >= 0,
                m > 0,
        ;
        -(p / m)
    }
}

/// Whole metric tons in `v` kilograms, rounded toward zero.
pub open spec fn whole_tons(v: Ratio) -> int {
    trunc_div(v.n(), 1000 * v.d())
}

/// Whole metric tons per day in `v` kilograms per second, rounded toward
/// zero.
pub open spec fn whole_tons_per_day(v: Ratio) -> int {
    trunc_div(v.n() * SECONDS_PER_DAY, 1000 * v.d())
}

/// A mass, shown in whole metric tons.
pub struct Tons(pub Mass);

/// A mass rate, shown in whole metric tons per day.
pub struct TonsPerDay(pub MassRate);

/// A span of time, shown in days.
pub struct Days(pub Duration);

impl Mass {
    /// This mass, shown in tons.
    pub fn tons(self) -> (r: Tons)
        ensures
            r.0 == self,
    {
        Tons(self)
    }

    /// The mass in whole kilograms: `25 kg`.
    pub fn to_text(&self) -> (r: String)
        requires
            self.wf(),
        ensures
            r@ == fixed(self.value, 0) + seq![' ', 'k', 'g'],
    {
        let mut s = fixed_text(self.value, 0);
        s.append(" kg");
        proof {
            reveal_strlit(" kg");
        }
        s
    }
}

impl Tons {
    /// The mass in whole tons, digits grouped by three: `12,345 t`.
    pub fn to_text(&self) -> (r: String)
        requires
            self.0.wf(),
        ensures
            r@ == grouped(whole_tons(self.0.value)) + seq![' ', 't'],
    {
        let v = self.0.value;
        let t = trunc_div_exec(v.num as i128, 1000 * (v.den as i128));
        let mut s = grouped_text(t as i64);
        s.append(" t");
        proof {
            reveal_strlit(" t");
        }
        s
    }
}

impl MassRate {
    /// This rate, shown in tons per day.
    pub fn tons_per_day(self) -> (r: TonsPerDay)
        ensures
            r.0 == self,
    {
        TonsPerDay(self)
    }
}

impl TonsPerDay {
    /// The rate in whole tons per day, digits grouped by three:
    /// `1,000 t/day`.
    pub fn to_text(&self) -> (r: String)
        requires
            self.0.wf(),
            i64::MIN <= whole_tons_per_day(self.0.value) <= i64::MAX,
        ensures
            r@ == grouped(whole_tons_per_day(self.0.value)) + seq![' ', 't', '/', 'd', 'a', 'y'],
    {
        let v = self.0.value;
        let t = trunc_div_exec((v.num as i128) * (SECONDS_PER_DAY as i128), 1000 * (v.den as i128));
        let mut s = grouped_text(t as i64);
        s.append(" t/day");
        proof {
            reveal_strlit(" t/day");
        }
        s
    }
}

impl Duration {
    /// This span, shown in days.
    pub fn days(&self) -> (r: Days)
        ensures
            r.0 == *self,
    {
        Days(*self)
    }
}

impl Days {
    /// The span in days with one decimal: `1.5 days`.
    pub fn to_text(&self) -> (r: String)
        requires
            self.0.value.quotient_ok(whole(SECONDS_PER_DAY as int)),
        ensures
            r@ == fixed(self.0.value.quotient(whole(SECONDS_PER_DAY as int)), 1) + seq![
                ' ',
                'd',
                'a',
                'y',
                's',
            ],
    {
        let days = self.0.value.over(Ratio::from_int(SECONDS_PER_DAY));
        let mut s = fixed_text(days, 1);
        s.append(" days");
        proof {
            reveal_strlit(" days");
        }
        s
    }
}

impl Price {
    /// The price in credits per kilogram with two decimals: `$3.33/kg`.
    pub fn to_text(&self) -> (r: String)
        requires
            self.wf(),
        ensures
            r@ == seq!['$'] + fixed(self.value, 2) + seq!['/', 'k', 'g'],
    {
        let mut s = String::new();
        s.append("$");
        let amount = fixed_text(self.value, 2);
        s.append(amount.as_str());
        s.append("/kg");
        proof {
            reveal_strlit("$");
            reveal_strlit("/kg");
        }
        s
    }
}

/// `|v| < bound`.
pub open spec fn below(v: Ratio, bound: int) -> bool {
    abs_int(v.n()) < bound * v.d()
}

/// The divisor by which a population of magnitude `v` is shown, and the
/// number of decimals kept, following the table of `population_text`.
pub open spec fn population_scale(v: Ratio) -> (int, nat) {
    if below(v, 10_000) {
        (1, 0)
    } else if below(v, 100_000) {
        (1000, 1)
    } else if below(v, 1_000_000) {
        (1000, 0)
    } else if below(v, 10_000_000) {
        (1_000_000, 2)
    } else if below(v, 100_000_000) {
        (1_000_000, 1)
    } else if below(v, 1_000_000_000) {
        (1_000_000, 0)
    } else if below(v, 10_000_000_000) {
        (1_000_000_000, 2)
    } else if below(v, 100_000_000_000) {
        (1_000_000_000, 1)
    } else {
        (1_000_000_000, 0)
    }
}

/// The suffix that names the divisor.
pub open spec fn population_suffix(divisor: int) -> Seq<char> {
    if divisor == 1 {
        Seq::<char>::empty()
    } else if divisor == 1000 {
        seq![' ', 'k']
    } else if divisor == 1_000_000 {
        seq![' ', 'M']
    } else {
        seq![' ', 'B']
    }
}

/// A population written with about three significant digits: below ten
/// thousand in people, then in thousands (`k`), millions (`M`) and
/// billions (`B`).
pub open spec fn population_text(v: Ratio) -> Seq<char> {
    let (divisor, places) = population_scale(v);
    fixed(v.quotient(whole(divisor)), places) + population_suffix(divisor)
}

/// `|v| < bound`, computed.
fn below_exec(v: Ratio, bound: i64) -> (r: bool)
    requires
        v.wf(),
        0 < bound,
    ensures
        r == below(v, bound as int),
{
    let a: i128 = if v.num < 0 { -(v.num as i128) } else { v.num as i128 };
    proof {
        crate::ratio::lemma_product_fits_wide(bound as int, v.d());
    }
    a < (bound as i128) * (v.den as i128)
}

impl Population {
    /// The population with about three significant digits: `10.0 k`,
    /// `1.00 M`, `100 B`.
    pub fn to_text(&self) -> (r: String)
        requires
            self.wf(),
            self.value.n() > i64::MIN,
            self.value.d() * 1_000_000_000 <= i64::MAX,
        ensures
            r@ == population_text(self.value),
    {
        let v = self.value;
        let (divisor, places, suffix): (i64, u32, &str) = if below_exec(v, 10_000) {
            (1, 0, "")
        } else if below_exec(v, 100_000) {
            (1000, 1, " k")
        } else if below_exec(v, 1_000_000) {
            (1000, 0, " k")
        } else if below_exec(v, 10_000_000) {
            (1_000_000, 2, " M")
        } else if below_exec(v, 100_000_000) {
            (1_000_000, 1, " M")
        } else if below_exec(v, 1_000_000_000) {
            (1_000_000, 0, " M")
        } else if below_exec(v, 10_000_000_000) {
            (1_000_000_000, 2, " B")
        } else if below_exec(v, 100_000_000_000) {
            (1_000_000_000, 1, " B")
        } else {
            (1_000_000_000, 0, " B")
        };
        proof {
            reveal_strlit("");
            reveal_strlit(" k");
            reveal_strlit(" M");
            reveal_strlit(" B");
            assert(population_scale(v) == (divisor as int, places as nat));
            assert(suffix@ == population_suffix(divisor as int));
            assert(v.d() * divisor <= i64::MAX) by (nonlinear_arith)
                requires
                    v.d() * 1_000_000_000 <= i64::MAX,
                    0 < divisor <= 1_000_000_000,
                    v.d() > 0,
            ;
            assert(v.n() * 1 == v.n());
        }
        let scaled = v.over(Ratio::from_int(divisor));
        let mut s = fixed_text(scaled, places);
        s.append(suffix);
        s
    }
}

} // verus!
