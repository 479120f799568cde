//! Points on a timeline of elapsed seconds.
use vstd::prelude::*;
use crate::catalog::{whole, SECONDS_PER_DAY};
use crate::labels::trunc_div;
use crate::quantity::Quantity;
use crate::ratio::Ratio;
use crate::units::Duration;
use core::cmp::Ordering;
use core::marker::PhantomData;

verus! {

#[verifier::external_type_specification]
#[verifier::external_body]
pub struct ExTimeDelta(chrono::TimeDelta);

/// Relies on chrono's `TimeDelta::num_milliseconds`: the whole number of
/// milliseconds in the span.
#[verifier::external_body]
fn chrono_millis(d: &chrono::TimeDelta) -> (r: i64) {
    d.num_milliseconds()
}

/// Relies on chrono's `TimeDelta::microseconds`, which accepts every `i64`.
#[verifier::external_body]
fn chrono_micros(us: i64) -> (r: chrono::TimeDelta) {
    chrono::TimeDelta::microseconds(us)
}

/// Relies on `std::time::Duration::from_micros`, which accepts every `u64`.
#[verifier::external_body]
fn std_micros(us: u64) -> (r: std::time::Duration) {
    std::time::Duration::from_micros(us)
}

/// Whole microseconds in `v` seconds, rounded toward zero.
pub open spec fn whole_micros(v: Ratio) -> int {
    trunc_div(v.n() * 1_000_000, v.d())
}

impl Duration {
    /// The span of `ms` milliseconds.
    pub fn from_millis(ms: i64) -> (r: Duration)
        ensures
            r.wf(),
            r.value == (Ratio { num: ms, den: 1000 }),
    {
        Duration::in_s(Ratio::new(ms, 1000))
    }

    /// The span of a chrono duration, to the millisecond.
    pub fn from_chrono(d: &chrono::TimeDelta) -> (r: Duration)
        ensures
            r.wf(),
            r.value.d() == 1000,
    {
        Duration::from_millis(chrono_millis(d))
    }

    /// The span in whole microseconds, rounded toward zero.
    pub fn in_whole_micros(&self) -> (r: i64)
        requires
            self.wf(),
            i64::MIN <= whole_micros(self.value) <= i64::MAX,
        ensures
            r == whole_micros(self.value),
    {
        let n: i128 = (self.value.num as i128) * 1_000_000;
        let d: i128 = self.value.den as i128;
        let q: i128 = if n >= 0 {
            n / d
        } else {
            -((-n) / d)
        };
        q as i64
    }

    /// The span as a chrono duration, to the microsecond.
    pub fn to_chrono(&self) -> (r: chrono::TimeDelta)
        requires
            self.wf(),
            i64::MIN <= whole_micros(self.value) <= i64::MAX,
    {
        chrono_micros(self.in_whole_micros())
    }

    /// A non-negative span as a standard duration, to the microsecond.
    pub fn to_std(&self) -> (r: std::time::Duration)
        requires
            self.wf(),
            0 <= whole_micros(self.value) <= i64::MAX,
    {
        std_micros(self.in_whole_micros() as u64)
    }
}

/// Elapsed time, as the span since a fixed origin.
#[derive(Clone, Copy, Debug)]
pub struct TimeFloat {
    pub value: Duration,
}

impl TimeFloat {
    /// The raw value is well formed.
    pub open spec fn wf(self) -> bool {
        self.value.wf()
    }

    /// The instant `seconds` seconds after the origin.
    pub fn in_s(seconds: Ratio) -> (r: TimeFloat)
        requires
            seconds.wf(),
        ensures
            r.wf(),
            r.value.value == seconds,
    {
        TimeFloat { value: Quantity { value: seconds, unit: PhantomData } }
    }

    /// The instant `days` days after the origin.
    pub fn in_days(days: Ratio) -> (r: TimeFloat)
        requires
            days.product_ok(whole(SECONDS_PER_DAY as int)),
        ensures
            r.wf(),
            r.value.value == days.product(whole(SECONDS_PER_DAY as int)),
    {
        TimeFloat::in_s(days.times(Ratio::from_int(SECONDS_PER_DAY)))
    }
}

/// The instant `rhs` later.
impl core::ops::Add<Duration> for TimeFloat {
    type Output = TimeFloat;

    fn add(self, rhs: Duration) -> (r: TimeFloat) {
        TimeFloat { value: Quantity::new(self.value.value.plus(rhs.value)) }
    }
}

impl vstd::std_specs::ops::AddSpecImpl<Duration> for TimeFloat {
    open spec fn obeys_add_spec() -> bool {
        true
    }

    open spec fn add_req(self, rhs: Duration) -> bool {
        self.value.value.sum_ok(rhs.value)
    }

    open spec fn add_spec(self, rhs: Duration) -> TimeFloat {
        TimeFloat { value: Quantity::of(self.value.value.sum(rhs.value)) }
    }
}

/// Moves the instant `rhs` later.
impl core::ops::AddAssign<Duration> for TimeFloat {
    fn add_assign(&mut self, rhs: Duration)
        requires
            old(self).value.value.sum_ok(rhs.value),
        ensures
            final(self).value.value == old(self).value.value.sum(rhs.value),
    {
        self.value.value = self.value.value.plus(rhs.value);
    }
}

/// The instant `rhs` earlier.
impl core::ops::Sub<Duration> for TimeFloat {
    type Output = TimeFloat;

    fn sub(self, rhs: Duration) -> (r: TimeFloat) {
        TimeFloat { value: Quantity::new(self.value.value.minus(rhs.value)) }
    }
}

impl vstd::std_specs::ops::SubSpecImpl<Duration> for TimeFloat {
    open spec fn obeys_sub_spec() -> bool {
        true
    }

    open spec fn sub_req(self, rhs: Duration) -> bool {
        self.value.value.difference_ok(rhs.value)
    }

    open spec fn sub_spec(self, rhs: Duration) -> TimeFloat {
        TimeFloat { value: Quantity::of(self.value.value.difference(rhs.value)) }
    }
}

/// The span from `rhs` to `self`.
impl core::ops::Sub for TimeFloat {
    type Output = Duration;

    fn sub(self, rhs: TimeFloat) -> (r: Duration) {
        Quantity::new(self.value.value.minus(rhs.value.value))
    }
}

impl vstd::std_specs::ops::SubSpecImpl for TimeFloat {
    open spec fn obeys_sub_spec() -> bool {
        true
    }

    open spec fn sub_req(self, rhs: TimeFloat) -> bool {
        self.value.value.difference_ok(rhs.value.value)
    }

    open spec fn sub_spec(self, rhs: TimeFloat) -> Duration {
        Quantity::of(self.value.value.difference(rhs.value.value))
    }
}

/// The ratio of the two spans since the origin.
impl core::ops::Div for TimeFloat {
    type Output = Ratio;

    fn div(self, rhs: TimeFloat) -> (r: Ratio) {
        self.value.value.over(rhs.value.value)
    }
}

impl vstd::std_specs::ops::DivSpecImpl for TimeFloat {
    open spec fn obeys_div_spec() -> bool {
        true
    }

    open spec fn div_req(self, rhs: TimeFloat) -> bool {
        self.value.value.quotient_ok(rhs.value.value)
    }

    open spec fn div_spec(self, rhs: TimeFloat) -> Ratio {
        self.value.value.quotient(rhs.value.value)
    }
}

/// How many times `rhs` fits in the span since the origin.
impl core::ops::Div<Duration> for TimeFloat {
    type Output = Ratio;

    fn div(self, rhs: Duration) -> (r: Ratio) {
        self.value.value.over(rhs.value)
    }
}

impl vstd::std_specs::ops::DivSpecImpl<Duration> for TimeFloat {
    open spec fn obeys_div_spec() -> bool {
        true
    }

    open spec fn div_req(self, rhs: Duration) -> bool {
        self.value.value.quotient_ok(rhs.value)
    }

    open spec fn div_spec(self, rhs: Duration) -> Ratio {
        self.value.value.quotient(rhs.value)
    }
}

impl PartialEq for TimeFloat {
    fn eq(&self, other: &TimeFloat) -> (r: bool) {
        self.value.value == other.value.value
    }
}

impl vstd::std_specs::cmp::PartialEqSpecImpl for TimeFloat {
    open spec fn obeys_eq_spec() -> bool {
        true
    }

    open spec fn eq_spec(&self, other: &TimeFloat) -> bool {
        self.value.value.same(other.value.value)
    }
}

impl Eq for TimeFloat {
}

impl PartialOrd for TimeFloat {
    fn partial_cmp(&self, other: &TimeFloat) -> (r: Option<Ordering>) {
        self.value.value.partial_cmp(&other.value.value)
    }
}

impl vstd::std_specs::cmp::PartialOrdSpecImpl for TimeFloat {
    open spec fn obeys_partial_cmp_spec() -> bool {
        true
    }

    open spec fn partial_cmp_spec(&self, other: &TimeFloat) -> Option<Ordering> {
        Some(self.value.value.compare(other.value.value))
    }
}

} // verus!
