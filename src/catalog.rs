//! Named constants, units other than the base ones, and the physical
//! formulas that combine quantities.
use vstd::prelude::*;
use crate::ratio::Ratio;
use crate::units::{
    Acceleration, AngularSpeed, Area, Duration, Length, Mass, MassRate, MolecularMass, Population,
    PopulationDensity, Pressure, Temperature,
};

verus! {

/// Numerator of the gravitational constant, in m^3 kg^-1 s^-2.
pub const G_NUM: i64 = 66_743_015;

/// Denominator of the gravitational constant.
pub const G_DEN: i64 = 1_000_000_000_000_000_000;

/// The gravitational constant, 6.6743015e-11 m^3 kg^-1 s^-2.
pub open spec fn gravity() -> Ratio {
    Ratio { num: G_NUM, den: G_DEN }
}

/// Seconds in an hour.
pub const SECONDS_PER_HOUR: i64 = 3600;

/// Seconds in a day.
pub const SECONDS_PER_DAY: i64 = 86400;

/// The raw integer `n`.
pub open spec fn whole(n: int) -> Ratio {
    Ratio { num: n as i64, den: 1 }
}

impl Duration {
    /// The span of `hours` hours.
    pub fn in_hours(hours: Ratio) -> (r: Duration)
        requires
            hours.product_ok(whole(SECONDS_PER_HOUR as int)),
        ensures
            r.wf(),
            r.value == hours.product(whole(SECONDS_PER_HOUR as int)),
    {
        Duration::in_s(hours.times(Ratio::from_int(SECONDS_PER_HOUR)))
    }

    /// The span of `days` days.
    pub fn in_days(days: Ratio) -> (r: Duration)
        requires
            days.product_ok(whole(SECONDS_PER_DAY as int)),
        ensures
            r.wf(),
            r.value == days.product(whole(SECONDS_PER_DAY as int)),
    {
        Duration::in_s(days.times(Ratio::from_int(SECONDS_PER_DAY)))
    }
}

impl Area {
    /// The area of `value` square kilometres.
    pub fn in_square_km(value: Ratio) -> (r: Area)
        requires
            value.product_ok(whole(1_000_000)),
        ensures
            r.wf(),
            r.value == value.product(whole(1_000_000)),
    {
        Area::in_m2(value.times(Ratio::from_int(1_000_000)))
    }
}

impl Pressure {
    /// The pressure of `kilopascals` kilopascals.
    pub fn in_kpa(kilopascals: Ratio) -> (r: Pressure)
        requires
            kilopascals.product_ok(whole(1000)),
        ensures
            r.wf(),
            r.value == kilopascals.product(whole(1000)),
    {
        Pressure::in_pa(kilopascals.times(Ratio::from_int(1000)))
    }

    /// The pressure of `atmospheres` standard atmospheres of 101.325 kPa.
    pub fn in_atm(atmospheres: Ratio) -> (r: Pressure)
        requires
            atmospheres.product_ok(whole(101_325)),
        ensures
            r.wf(),
            r.value == atmospheres.product(whole(101_325)),
    {
        Pressure::in_pa(atmospheres.times(Ratio::from_int(101_325)))
    }
}

impl Temperature {
    /// The temperature of `celsius` degrees Celsius.
    pub fn in_c(celsius: Ratio) -> (r: Temperature)
        requires
            celsius.sum_ok(Ratio { num: 27315, den: 100 }),
        ensures
            r.wf(),
            r.value == celsius.sum(Ratio { num: 27315, den: 100 }),
    {
        Temperature::in_k(celsius.plus(Ratio::new(27315, 100)))
    }
}

impl MolecularMass {
    /// The molecular mass of `grams_per_mole` grams per mole.
    pub fn in_g_per_mol(grams_per_mole: Ratio) -> (r: MolecularMass)
        requires
            grams_per_mole.product_ok(Ratio { num: 1, den: 1000 }),
        ensures
            r.wf(),
            r.value == grams_per_mole.product(Ratio { num: 1, den: 1000 }),
    {
        MolecularMass::in_kg_per_mol(grams_per_mole.times(Ratio::new(1, 1000)))
    }
}

impl Population {
    /// The population of `mm_people` million people.
    pub fn in_millions(mm_people: Ratio) -> (r: Population)
        requires
            mm_people.product_ok(whole(1_000_000)),
        ensures
            r.wf(),
            r.value == mm_people.product(whole(1_000_000)),
    {
        Population::in_people(mm_people.times(Ratio::from_int(1_000_000)))
    }

    /// The food a population eats: two kilograms per person and day.
    pub fn get_food_requirement(&self) -> (r: MassRate)
        requires
            self.value.product_ok(Ratio { num: 2, den: SECONDS_PER_DAY }),
        ensures
            r.wf(),
            r.value == self.value.product(Ratio { num: 2, den: SECONDS_PER_DAY }),
    {
        MassRate::in_kg_per_s(self.value.times(Ratio::new(2, SECONDS_PER_DAY)))
    }
}

impl PopulationDensity {
    /// The density of `value` people per square kilometre.
    pub fn in_people_per_square_km(value: Ratio) -> (r: PopulationDensity)
        requires
            value.product_ok(Ratio { num: 1, den: 1_000_000 }),
        ensures
            r.wf(),
            r.value == value.product(Ratio { num: 1, den: 1_000_000 }),
    {
        PopulationDensity::in_people_per_square_m(value.times(Ratio::new(1, 1_000_000)))
    }
}

impl MassRate {
    /// The rate of `tons_per_day` metric tons per day.
    pub fn in_tons_per_day(tons_per_day: Ratio) -> (r: MassRate)
        requires
            tons_per_day.product_ok(Ratio { num: 1000, den: SECONDS_PER_DAY }),
        ensures
            r.wf(),
            r.value == tons_per_day.product(Ratio { num: 1000, den: SECONDS_PER_DAY }),
    {
        MassRate::in_kg_per_s(tons_per_day.times(Ratio::new(1000, SECONDS_PER_DAY)))
    }
}

impl Acceleration {
    /// The acceleration that a body of `mass` causes at `distance`:
    /// `G * m / d^2`.
    pub fn from_gravity(mass: Mass, distance: Length) -> (r: Acceleration)
        requires
            gravity().product_ok(mass.value),
            distance.value.product_ok(distance.value),
            gravity().product(mass.value).quotient_ok(distance.value.product(distance.value)),
        ensures
            r.wf(),
            r.value == gravity().product(mass.value).quotient(distance.value.product(distance.value)),
    {
        let g = Ratio::new(G_NUM, G_DEN);
        let d2 = distance.value.times(distance.value);
        Acceleration::in_m_per_s2(g.times(mass.value).over(d2))
    }
}

/// `G * m / r^3` for a body of mass `m` at radius `r`.
pub open spec fn orbit_rate_squared(mass: Ratio, radius: Ratio) -> Ratio {
    gravity().product(mass).quotient(radius.product(radius).product(radius))
}

impl AngularSpeed {
    /// The angular speed of a circular orbit of `radius` around a body of
    /// `mass`: the square root of `G * m / r^3`, to the precision of the
    /// denominator of that value.
    pub fn of_orbit(mass: Mass, radius: Length) -> (r: AngularSpeed)
        requires
            gravity().product_ok(mass.value),
            radius.value.product_ok(radius.value),
            radius.value.product(radius.value).product_ok(radius.value),
            gravity().product(mass.value).quotient_ok(radius.value.product(radius.value).product(radius.value)),
            orbit_rate_squared(mass.value, radius.value).n() >= 0,
        ensures
            r.wf(),
            r.value == orbit_rate_squared(mass.value, radius.value).root(),
    {
        let g = Ratio::new(G_NUM, G_DEN);
        let r3 = radius.value.times(radius.value).times(radius.value);
        let w2 = g.times(mass.value).over(r3);
        AngularSpeed::in_rad_per_s(w2.square_root())
    }
}

} // verus!
