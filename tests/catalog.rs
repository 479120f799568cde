use quantity::{
    Acceleration, Amount, Area, Duration, Energy, Force, GasConstant, Length, Mass, MassRate,
    Population, Power, Pressure, Price, Quantity, Ratio, Speed, Sqrt, Squared, Temperature,
    TimeFloat, Vector2, Vector3, Volume,
};
use std::cmp::Ordering;
use std::mem::size_of;
use std::ops::{AddAssign, SubAssign};

fn r(n: i64) -> Ratio {
    Ratio::from_int(n)
}

fn one() -> Ratio {
    r(1)
}

#[test]
fn price_display() {
    let p = Price::in_credits_per_kg(Ratio::new(3_333_333, 1_000_000));
    assert_eq!(&p.to_text(), "$3.33/kg");
}

#[test]
fn energy_conversion() {
    let n = Force::in_newtons(one());
    let m = Length::in_m(one());
    assert_eq!(Energy::in_joules(one()), n * m)
}

#[test]
fn force_conversion() {
    let m = Length::in_m(one());
    let s = Duration::in_s(one());
    let kg = Mass::in_kg(one());
    assert_eq!(Force::in_newtons(one()), m / s / s * kg)
}

#[test]
fn gas_constant_unit_composition() {
    let gc = GasConstant::in_j_per_mol_k(one());
    let n = Force::in_newtons(one());
    let m2 = Area::in_m2(one());
    let m3 = Volume::in_m3(one());
    let mol = Amount::in_mol(one());
    let k = Temperature::in_k(one());
    let pa = Pressure::in_pa(one());
    assert_eq!(gc, n / m2 * m3 / mol / k);
    assert_eq!(mol, pa * m3 / k / gc);
}

#[test]
fn ideal_gas_state_change() {
    let p1 = Pressure::in_pa(one());
    let t1 = Temperature::in_k(one());
    let v1 = Volume::in_m3(one());

    let p2 = r(2) * Pressure::in_pa(one());
    let t2 = Ratio::new(1, 2) * Temperature::in_k(one());

    // p1 * v1 / t1 = p2 * v2 / t2
    let v2 = p1 * v1 / t1 / p2 * t2;

    assert_eq!(Ratio::new(1, 4) * v1, v2);
}

#[test]
fn request_enough() {
    let mut mass = Mass::in_kg(r(3));
    let amount = Mass::in_kg(r(2));

    let actual = mass.request(amount);
    let expected = Mass::in_kg(r(2));

    assert_eq!(mass, Mass::in_kg(r(1)));
    assert_eq!(actual, expected);
}

#[test]
fn request_insufficient() {
    let mut mass = Mass::in_kg(r(2));
    let amount = Mass::in_kg(r(3));

    let actual = mass.request(amount);
    let expected = Mass::in_kg(r(2));

    assert_eq!(mass, Mass::zero());
    assert_eq!(actual, expected);
}

#[test]
fn mass_display() {
    assert_eq!("25 kg", Mass::in_kg(r(25)).to_text());
}

#[test]
fn power_coversion() {
    let j = Energy::in_joules(one());
    let s = Duration::in_s(one());
    let n = Force::in_newtons(one());
    let m = Length::in_m(one());
    assert_eq!(Power::in_watts(one()), j / s);
    assert_eq!(Power::in_watts(one()), n * m / s);
}

#[test]
fn population_to_string() {
    let assert_pop = |exp: &str, pop: i64| {
        assert_eq!(exp, Population::in_people(r(pop)).to_text())
    };

    assert_pop("0", 0);
    assert_pop("1", 1);
    assert_pop("10", 10);
    assert_pop("100", 100);
    assert_pop("1000", 1000);
    assert_pop("10.0 k", 10_000);
    assert_pop("100 k", 100_000);
    assert_pop("1.00 M", 1_000_000);
    assert_pop("10.0 M", 10_000_000);
    assert_pop("100 M", 100_000_000);
    assert_pop("1.00 B", 1_000_000_000);
    assert_pop("10.0 B", 10_000_000_000);
    assert_pop("100 B", 100_000_000_000);
    assert_pop("1000 B", 1_000_000_000_000);
    assert_pop("-10.0 k", -10_000);
}

#[test]
fn vector_size() {
    assert_eq!(8, size_of::<Vector2<f32>>());
    assert_eq!(12, size_of::<Vector3<f32>>());
    assert_eq!(16, size_of::<Vector2<f64>>());
    assert_eq!(24, size_of::<Vector3<f64>>());
}

fn len(n: i64) -> Length {
    Length::in_m(r(n))
}

#[test]
fn vector_add() {
    let a = Vector2 { x: len(1), y: len(2) };
    let b = Vector2 { x: len(2), y: len(3) };
    let c = Vector2 { x: len(3), y: len(5) };

    assert_eq!(c, a + b);
    assert_eq!(c, a + &b);
    assert_eq!(c, &a + b);
    assert_eq!(c, &a + &b);
}

#[test]
fn vector_sub() {
    let a = Vector2 { x: len(3), y: len(5) };
    let b = Vector2 { x: len(2), y: len(3) };
    let c = Vector2 { x: len(1), y: len(2) };

    assert_eq!(c, a - b);
    assert_eq!(c, a - &b);
    assert_eq!(c, &a - b);
    assert_eq!(c, &a - &b);
}

#[test]
fn vector_add_assign() {
    let get_a = || Vector2 { x: len(1), y: len(2) };
    let b = Vector2 { x: len(2), y: len(3) };
    let c = Vector2 { x: len(3), y: len(5) };

    let mut a = get_a();
    a.add_assign(b);
    assert_eq!(c, a);

    let mut a = get_a();
    a.add_assign(&b);
    assert_eq!(c, a);
}

#[test]
fn vector_sub_assign() {
    let get_a = || Vector2 { x: len(3), y: len(5) };
    let b = Vector2 { x: len(2), y: len(3) };
    let c = Vector2 { x: len(1), y: len(2) };

    let mut a = get_a();
    a.sub_assign(b);
    assert_eq!(c, a);

    let mut a = get_a();
    a.sub_assign(&b);
    assert_eq!(c, a);
}

#[test]
fn vector_mul_assign() {
    let mut d = Vector2::in_m(r(1), r(2));
    let d2 = Vector2::in_m(r(2), r(4));

    d *= r(2);

    assert_eq!(d2, d);
}

#[test]
fn vector_div_assign() {
    let mut d2 = Vector2::in_m(r(2), r(4));
    let d = Vector2::in_m(r(1), r(2));

    d2 /= r(2);

    assert_eq!(d2, d);
}

#[test]
fn relation_round_trip_on_speed() {
    let len = Length::in_m(r(6));
    let dur = Duration::in_s(r(2));
    let spd = Speed::in_m_per_s(r(3));
    assert_eq!(len / dur, spd);
    assert_eq!(spd * dur, len);
    assert_eq!(dur * spd, len);
    assert_eq!(len / spd, dur);
}

#[test]
fn squaring_round_trip() {
    let base = Length::in_m(r(2));
    assert_eq!((base * base).sqrt(), base);
    assert_eq!((base * base) / base, base);
    assert_eq!(base.squared(), Area::in_m2(r(4)));
}

#[test]
fn square_root_is_rounded_down_to_the_denominator() {
    let two = Area::in_m2(r(2));
    assert_eq!(two.sqrt(), Length::in_m(r(1)));
    let quarter = Area::in_m2(Ratio::new(1, 4));
    assert_eq!(quarter.sqrt(), Length::in_m(Ratio::new(2, 4)));
}

#[test]
fn summation_of_lengths() {
    let items = [Length::in_m(r(1)), Length::in_m(r(2)), Length::in_m(r(3))];
    assert_eq!(Length::sum(&items), Length::in_m(r(6)));
    assert_eq!(Length::sum(&[]), Length::in_m(r(0)));
}

#[test]
fn add_then_subtract_gives_back() {
    let a = Length::in_m(Ratio::new(7, 3));
    let b = Length::in_m(Ratio::new(-5, 2));
    assert_eq!(a + b - b, a);
    assert_eq!(a - a, Length::zero());
}

#[test]
fn scale_then_divide_gives_back() {
    let a = Length::in_m(Ratio::new(7, 3));
    let s = Ratio::new(-5, 2);
    assert_eq!((a * s) / s, a);
}

#[test]
fn ordering_agrees_with_equality() {
    let a = Length::in_m(r(1));
    let b = Length::in_m(Ratio::new(1_000_001, 1_000_000));
    assert!(a != b);
    assert_eq!(a.cmp(&b), Ordering::Less);
    assert_eq!(a.cmp(&Length::in_m(Ratio::new(3, 3))), Ordering::Equal);
}

#[test]
fn new_keeps_the_value() {
    let v = Ratio::new(-17, 5);
    assert_eq!(Length::new(v).value(), v);
    assert_eq!(Length::new(v).value().num, -17);
}

#[test]
fn give_moves_everything() {
    let mut pool = Mass::in_kg(r(5));
    let mut other = Mass::in_kg(r(2));
    pool.give(&mut other);
    assert_eq!(pool, Mass::in_kg(r(7)));
    assert!(other.is_none());
    assert!(pool.is_some());
}

#[test]
fn mul_add_assign_and_abs() {
    let mut a = Length::in_m(r(2));
    a.mul_add_assign(r(3), Length::in_m(r(-10)));
    assert_eq!(a, Length::in_m(r(-4)));
    assert_eq!(a.abs(), Length::in_m(r(4)));
}

#[test]
fn remainder_follows_the_dividend_sign() {
    assert_eq!(len(-5) % len(3), len(-2));
    assert_eq!(Length::in_m(Ratio::new(7, 2)) % len(1), Length::in_m(Ratio::new(1, 2)));
}

#[test]
fn tons_are_grouped_and_truncated() {
    assert_eq!(Mass::in_kg(r(12_345_678)).tons().to_text(), "12,345 t");
    assert_eq!(Mass::in_kg(r(-1_500_000)).tons().to_text(), "-1,500 t");
    assert_eq!(Mass::in_kg(r(999)).tons().to_text(), "0 t");
}

#[test]
fn tons_per_day_text() {
    let rate = MassRate::in_tons_per_day(r(1200));
    assert_eq!(rate.tons_per_day().to_text(), "1,200 t/day");
}

#[test]
fn days_text() {
    let d = Duration::in_hours(r(36));
    assert_eq!(d.days().to_text(), "1.5 days");
}

#[test]
fn food_requirement_is_two_kilograms_per_day() {
    let people = Population::in_people(r(43_200));
    let food = people.get_food_requirement();
    assert_eq!(food, MassRate::in_kg_per_s(r(1)));
}

#[test]
fn gravity_at_a_distance() {
    let g = Acceleration::from_gravity(Mass::in_kg(r(1_000_000_000)), Length::in_m(r(1)));
    assert_eq!(g.value(), Ratio::new(66_743_015, 1_000_000_000));
}

#[test]
fn time_float_arithmetic() {
    let t0 = TimeFloat::in_days(r(1));
    let t1 = t0 + Duration::in_s(r(600));
    assert_eq!(t1 - t0, Duration::in_s(r(600)));
    assert_eq!(t1 / Duration::in_s(r(600)), r(145));
    assert!(t0 < t1);
    let mut t2 = t0;
    t2 += Duration::in_s(r(600));
    assert_eq!(t2, t1);
}

#[test]
fn vector_projection_and_lift() {
    let v = Vector3 { x: len(1), y: len(2), z: len(3) };
    assert_eq!(v.project_xy(), Vector2 { x: len(1), y: len(2) });
    let lifted: Vector3<Length> = Vector2 { x: len(4), y: len(5) }.into();
    assert_eq!(lifted, Vector3 { x: len(4), y: len(5), z: len(0) });
}

#[test]
fn unit_of_quantity_new_in_scaled_units() {
    assert_eq!(Pressure::in_atm(r(1)), Pressure::in_kpa(Ratio::new(101_325, 1000)));
    assert_eq!(Temperature::in_c(r(0)), Temperature::in_k(Ratio::new(27315, 100)));
    assert_eq!(Area::in_square_km(r(1)), Area::in_m2(r(1_000_000)));
    let _: Quantity<quantity::kind::Length> = Length::zero();
}

#[test]
fn vector_magnitude_and_dot() {
    let v = Vector2::in_m(r(3), r(4));
    assert_eq!(v.magnitude(), len(5));
    assert_eq!(v.magnitude_squared(), Area::in_m2(r(25)));
    let w = Vector2::in_m(r(2), r(-1));
    assert_eq!(v.dot(w), Area::in_m2(r(2)));
}

#[test]
fn vector_from_direction_and_magnitude() {
    let d = quantity::Direction { cos: Ratio::new(3, 5), sin: Ratio::new(4, 5) };
    let v = Vector2::from_angle_and_magnitude(d, len(10));
    assert_eq!(v, Vector2::in_m(r(6), r(8)));
}

#[test]
fn polar_scaling_keeps_the_angle() {
    let p = quantity::Polar { magnitude: len(2), angle: quantity::Angle::in_rad(Ratio::new(1, 2)) };
    let q = p.scaled(r(3));
    assert_eq!(q.magnitude, len(6));
    assert_eq!(q.angle, p.angle);
    assert_eq!(q.divided(r(3)), p);
    let sum = p.plus(p);
    assert_eq!(sum.angle, quantity::Angle::in_rad(r(1)));
    assert_eq!(sum.minus(p), p);
}

#[test]
fn position_moves_by_distance() {
    let p = quantity::Position::in_m(r(1), r(2));
    let q = p.moved(Vector2::in_m(r(3), r(-2)));
    assert_eq!(q, quantity::Position::in_m(r(4), r(0)));
    assert_eq!(q.offset_from(p), Vector2::in_m(r(3), r(-2)));
    assert_eq!(quantity::Position::in_ly(r(1), r(0)).0.x, Length::in_m(r(9_460_730_472_580_800)));
}

#[test]
fn orbit_angular_speed() {
    // G * m / r^3 with m = 1e9 kg and r = 1 m is 0.066743015 per square second;
    // its root is kept to eighteen decimals.
    let w = quantity::AngularSpeed::of_orbit(Mass::in_kg(r(1_000_000_000)), len(1));
    let v = w.value();
    assert_eq!(v.den, 1_000_000_000_000_000_000);
    assert_eq!(v.num, 258_346_695_353_356_513);
}

#[test]
fn zero_denominator_is_rejected() {
    assert!(Length::try_new(Ratio { num: 1, den: 0 }).is_none());
    assert!(Length::try_new(Ratio { num: 0, den: 0 }).is_none());
    assert!(Length::try_new(Ratio { num: -1, den: 0 }).is_none());
    assert_eq!(Length::try_new(Ratio::new(5, 2)), Some(Length::in_m(Ratio::new(5, 2))));
}

#[test]
fn raw_numbers_divide_into_inverse_kinds() {
    let period = Duration::in_s(r(4));
    let f = r(1) / period;
    assert_eq!(f, quantity::Frequency::per_s(Ratio::new(1, 4)));
    assert_eq!(f * period, r(1));
    assert_eq!(period * f, r(1));
    assert_eq!(r(1) / f, period);
}

#[test]
fn duration_float_from_duration() {
    let one_second = chrono::Duration::seconds(1);
    let one_second = Duration::from_chrono(&one_second);

    assert_eq!(Duration::in_s(r(1)), one_second);
}

#[test]
fn duration_to_chrono_and_std() {
    let d = Duration::in_s(Ratio::new(3, 2));
    assert_eq!(d.in_whole_micros(), 1_500_000);
    assert_eq!(d.to_chrono(), chrono::Duration::milliseconds(1500));
    assert_eq!(d.to_std(), std::time::Duration::from_millis(1500));
    let back = Duration::from_chrono(&chrono::Duration::milliseconds(-2500));
    assert_eq!(back, Duration::in_s(Ratio::new(-5, 2)));
    assert_eq!(Duration::in_s(Ratio::new(-1, 3)).in_whole_micros(), -333_333);
}
