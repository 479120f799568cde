//! The catalogue of quantities: one type per kind, with its unit
//! constructor.
use vstd::prelude::*;
use crate::kind;
use crate::quantity::Quantity;
use crate::ratio::Ratio;
use core::marker::PhantomData;

verus! {

/// A distance, in metres.
pub type Length = Quantity<kind::Length>;

impl Length {
    /// The quantity of `meters` metres.
    pub fn in_m(meters: Ratio) -> (r: Length)
        requires
            meters.wf(),
        ensures
            r.wf(),
            r.value == meters,
    {
        Quantity { value: meters, unit: PhantomData }
    }
}

/// An inverse distance, in per metre.
pub type LengthInv = Quantity<kind::LengthInv>;

impl LengthInv {
    /// The quantity of `meters_inv` per metre.
    pub fn in_m_inv(meters_inv: Ratio) -> (r: LengthInv)
        requires
            meters_inv.wf(),
        ensures
            r.wf(),
            r.value == meters_inv,
    {
        Quantity { value: meters_inv, unit: PhantomData }
    }
}

/// An area, in square metres.
pub type Area = Quantity<kind::Area>;

impl Area {
    /// The quantity of `square_meters` square metres.
    pub fn in_m2(square_meters: Ratio) -> (r: Area)
        requires
            square_meters.wf(),
        ensures
            r.wf(),
            r.value == square_meters,
    {
        Quantity { value: square_meters, unit: PhantomData }
    }
}

/// An inverse area, in per square metre.
pub type AreaInv = Quantity<kind::AreaInv>;

impl AreaInv {
    /// The quantity of `square_meters_inv` per square metre.
    pub fn in_m2_inv(square_meters_inv: Ratio) -> (r: AreaInv)
        requires
            square_meters_inv.wf(),
        ensures
            r.wf(),
            r.value == square_meters_inv,
    {
        Quantity { value: square_meters_inv, unit: PhantomData }
    }
}

/// A volume, in cubic metres.
pub type Volume = Quantity<kind::Volume>;

impl Volume {
    /// The quantity of `meters_cubed` cubic metres.
    pub fn in_m3(meters_cubed: Ratio) -> (r: Volume)
        requires
            meters_cubed.wf(),
        ensures
            r.wf(),
            r.value == meters_cubed,
    {
        Quantity { value: meters_cubed, unit: PhantomData }
    }
}

/// A mass, in kilograms.
pub type Mass = Quantity<kind::Mass>;

impl Mass {
    /// The quantity of `kilograms` kilograms.
    pub fn in_kg(kilograms: Ratio) -> (r: Mass)
        requires
            kilograms.wf(),
        ensures
            r.wf(),
            r.value == kilograms,
    {
        Quantity { value: kilograms, unit: PhantomData }
    }
}

/// A span of time, in seconds.
pub type Duration = Quantity<kind::Duration>;

impl Duration {
    /// The quantity of `seconds` seconds.
    pub fn in_s(seconds: Ratio) -> (r: Duration)
        requires
            seconds.wf(),
        ensures
            r.wf(),
            r.value == seconds,
    {
        Quantity { value: seconds, unit: PhantomData }
    }
}

/// A squared span of time, in square seconds.
pub type DurationSquared = Quantity<kind::DurationSquared>;

impl DurationSquared {
    /// The quantity of `s2` square seconds.
    pub fn in_s2(s2: Ratio) -> (r: DurationSquared)
        requires
            s2.wf(),
        ensures
            r.wf(),
            r.value == s2,
    {
        Quantity { value: s2, unit: PhantomData }
    }
}

/// A rate of events, in per second.
pub type Frequency = Quantity<kind::Frequency>;

impl Frequency {
    /// The quantity of `s` per second.
    pub fn per_s(s: Ratio) -> (r: Frequency)
        requires
            s.wf(),
        ensures
            r.wf(),
            r.value == s,
    {
        Quantity { value: s, unit: PhantomData }
    }
}

/// A speed, in metres per second.
pub type Speed = Quantity<kind::Speed>;

impl Speed {
    /// The quantity of `meters_per_second` metres per second.
    pub fn in_m_per_s(meters_per_second: Ratio) -> (r: Speed)
        requires
            meters_per_second.wf(),
        ensures
            r.wf(),
            r.value == meters_per_second,
    {
        Quantity { value: meters_per_second, unit: PhantomData }
    }
}

/// An acceleration, in metres per second squared.
pub type Acceleration = Quantity<kind::Acceleration>;

impl Acceleration {
    /// The quantity of `m_per_s2` metres per second squared.
    pub fn in_m_per_s2(m_per_s2: Ratio) -> (r: Acceleration)
        requires
            m_per_s2.wf(),
        ensures
            r.wf(),
            r.value == m_per_s2,
    {
        Quantity { value: m_per_s2, unit: PhantomData }
    }
}

/// A force, in newtons.
pub type Force = Quantity<kind::Force>;

impl Force {
    /// The quantity of `newtons` newtons.
    pub fn in_newtons(newtons: Ratio) -> (r: Force)
        requires
            newtons.wf(),
        ensures
            r.wf(),
            r.value == newtons,
    {
        Quantity { value: newtons, unit: PhantomData }
    }
}

/// An energy, in joules.
pub type Energy = Quantity<kind::Energy>;

impl Energy {
    /// The quantity of `joules` joules.
    pub fn in_joules(joules: Ratio) -> (r: Energy)
        requires
            joules.wf(),
        ensures
            r.wf(),
            r.value == joules,
    {
        Quantity { value: joules, unit: PhantomData }
    }
}

/// A power, in watts.
pub type Power = Quantity<kind::Power>;

impl Power {
    /// The quantity of `watts` watts.
    pub fn in_watts(watts: Ratio) -> (r: Power)
        requires
            watts.wf(),
        ensures
            r.wf(),
            r.value == watts,
    {
        Quantity { value: watts, unit: PhantomData }
    }
}

/// A power per area, in watts per square metre.
pub type FluxDensity = Quantity<kind::FluxDensity>;

impl FluxDensity {
    /// The quantity of `watts_per_meter_squared` watts per square metre.
    pub fn in_w_per_m2(watts_per_meter_squared: Ratio) -> (r: FluxDensity)
        requires
            watts_per_meter_squared.wf(),
        ensures
            r.wf(),
            r.value == watts_per_meter_squared,
    {
        Quantity { value: watts_per_meter_squared, unit: PhantomData }
    }
}

/// A pressure, in pascals.
pub type Pressure = Quantity<kind::Pressure>;

impl Pressure {
    /// The quantity of `pascals` pascals.
    pub fn in_pa(pascals: Ratio) -> (r: Pressure)
        requires
            pascals.wf(),
        ensures
            r.wf(),
            r.value == pascals,
    {
        Quantity { value: pascals, unit: PhantomData }
    }
}

/// A temperature, in kelvin.
pub type Temperature = Quantity<kind::Temperature>;

impl Temperature {
    /// The quantity of `kelvin` kelvin.
    pub fn in_k(kelvin: Ratio) -> (r: Temperature)
        requires
            kelvin.wf(),
        ensures
            r.wf(),
            r.value == kelvin,
    {
        Quantity { value: kelvin, unit: PhantomData }
    }
}

/// An amount of substance, in moles.
pub type Amount = Quantity<kind::Amount>;

impl Amount {
    /// The quantity of `moles` moles.
    pub fn in_mol(moles: Ratio) -> (r: Amount)
        requires
            moles.wf(),
        ensures
            r.wf(),
            r.value == moles,
    {
        Quantity { value: moles, unit: PhantomData }
    }
}

/// A mass per amount of substance, in kilograms per mole.
pub type MolecularMass = Quantity<kind::MolecularMass>;

impl MolecularMass {
    /// The quantity of `kilograms_per_mole` kilograms per mole.
    pub fn in_kg_per_mol(kilograms_per_mole: Ratio) -> (r: MolecularMass)
        requires
            kilograms_per_mole.wf(),
        ensures
            r.wf(),
            r.value == kilograms_per_mole,
    {
        Quantity { value: kilograms_per_mole, unit: PhantomData }
    }
}

/// An energy per amount and temperature, in joules per mole kelvin.
pub type GasConstant = Quantity<kind::GasConstant>;

impl GasConstant {
    /// The quantity of `joules_per_amount_kelvin` joules per mole kelvin.
    pub fn in_j_per_mol_k(joules_per_amount_kelvin: Ratio) -> (r: GasConstant)
        requires
            joules_per_amount_kelvin.wf(),
        ensures
            r.wf(),
            r.value == joules_per_amount_kelvin,
    {
        Quantity { value: joules_per_amount_kelvin, unit: PhantomData }
    }
}

/// An energy per amount of substance, in joules per mole.
pub type EnergyPerAmount = Quantity<kind::EnergyPerAmount>;

impl EnergyPerAmount {
    /// The quantity of `joules_per_amount` joules per mole.
    pub fn in_j_per_mol(joules_per_amount: Ratio) -> (r: EnergyPerAmount)
        requires
            joules_per_amount.wf(),
        ensures
            r.wf(),
            r.value == joules_per_amount,
    {
        Quantity { value: joules_per_amount, unit: PhantomData }
    }
}

/// An energy per temperature, in joules per kelvin.
pub type EnergyPerTemperature = Quantity<kind::EnergyPerTemperature>;

impl EnergyPerTemperature {
    /// The quantity of `joules_per_kelvin` joules per kelvin.
    pub fn in_j_per_k(joules_per_kelvin: Ratio) -> (r: EnergyPerTemperature)
        requires
            joules_per_kelvin.wf(),
        ensures
            r.wf(),
            r.value == joules_per_kelvin,
    {
        Quantity { value: joules_per_kelvin, unit: PhantomData }
    }
}

/// A pressure per amount and temperature, in pascals per mole kelvin.
pub type PressurePerAmountTemperature = Quantity<kind::PressurePerAmountTemperature>;

impl PressurePerAmountTemperature {
    /// The quantity of `pascal_per_amount_kelvin` pascals per mole kelvin.
    pub fn in_pa_per_mol_k(pascal_per_amount_kelvin: Ratio) -> (r: PressurePerAmountTemperature)
        requires
            pascal_per_amount_kelvin.wf(),
        ensures
            r.wf(),
            r.value == pascal_per_amount_kelvin,
    {
        Quantity { value: pascal_per_amount_kelvin, unit: PhantomData }
    }
}

/// A pressure per temperature, in pascals per kelvin.
pub type PressurePerTemperature = Quantity<kind::PressurePerTemperature>;

impl PressurePerTemperature {
    /// The quantity of `pascal_per_kelvin` pascals per kelvin.
    pub fn in_pa_per_k(pascal_per_kelvin: Ratio) -> (r: PressurePerTemperature)
        requires
            pascal_per_kelvin.wf(),
        ensures
            r.wf(),
            r.value == pascal_per_kelvin,
    {
        Quantity { value: pascal_per_kelvin, unit: PhantomData }
    }
}

/// A pressure per amount of substance, in pascals per mole.
pub type PressurePerAmount = Quantity<kind::PressurePerAmount>;

impl PressurePerAmount {
    /// The quantity of `pascal_per_amount` pascals per mole.
    pub fn in_pa_per_mol(pascal_per_amount: Ratio) -> (r: PressurePerAmount)
        requires
            pascal_per_amount.wf(),
        ensures
            r.wf(),
            r.value == pascal_per_amount,
    {
        Quantity { value: pascal_per_amount, unit: PhantomData }
    }
}

/// A volume per amount and temperature, in cubic metres per mole kelvin.
pub type VolumePerAmountTemperature = Quantity<kind::VolumePerAmountTemperature>;

impl VolumePerAmountTemperature {
    /// The quantity of `meters_cubed_per_amount_kelvin` cubic metres per mole kelvin.
    pub fn in_m3_per_mol_k(meters_cubed_per_amount_kelvin: Ratio) -> (r: VolumePerAmountTemperature)
        requires
            meters_cubed_per_amount_kelvin.wf(),
        ensures
            r.wf(),
            r.value == meters_cubed_per_amount_kelvin,
    {
        Quantity { value: meters_cubed_per_amount_kelvin, unit: PhantomData }
    }
}

/// A volume per amount of substance, in cubic metres per mole.
pub type VolumePerAmount = Quantity<kind::VolumePerAmount>;

impl VolumePerAmount {
    /// The quantity of `meters_cubed_per_amount` cubic metres per mole.
    pub fn in_m3_per_mol(meters_cubed_per_amount: Ratio) -> (r: VolumePerAmount)
        requires
            meters_cubed_per_amount.wf(),
        ensures
            r.wf(),
            r.value == meters_cubed_per_amount,
    {
        Quantity { value: meters_cubed_per_amount, unit: PhantomData }
    }
}

/// A volume per temperature, in cubic metres per kelvin.
pub type VolumePerTemperature = Quantity<kind::VolumePerTemperature>;

impl VolumePerTemperature {
    /// The quantity of `meters_cubed_per_kelvin` cubic metres per kelvin.
    pub fn in_m3_per_k(meters_cubed_per_kelvin: Ratio) -> (r: VolumePerTemperature)
        requires
            meters_cubed_per_kelvin.wf(),
        ensures
            r.wf(),
            r.value == meters_cubed_per_kelvin,
    {
        Quantity { value: meters_cubed_per_kelvin, unit: PhantomData }
    }
}

/// An angle, in radians.
pub type Angle = Quantity<kind::Angle>;

impl Angle {
    /// The quantity of `radians` radians.
    pub fn in_rad(radians: Ratio) -> (r: Angle)
        requires
            radians.wf(),
        ensures
            r.wf(),
            r.value == radians,
    {
        Quantity { value: radians, unit: PhantomData }
    }
}

/// A rate of turning, in radians per second.
pub type AngularSpeed = Quantity<kind::AngularSpeed>;

impl AngularSpeed {
    /// The quantity of `rad_per_s` radians per second.
    pub fn in_rad_per_s(rad_per_s: Ratio) -> (r: AngularSpeed)
        requires
            rad_per_s.wf(),
        ensures
            r.wf(),
            r.value == rad_per_s,
    {
        Quantity { value: rad_per_s, unit: PhantomData }
    }
}

/// A mass per time, in kilograms per second.
pub type MassRate = Quantity<kind::MassRate>;

impl MassRate {
    /// The quantity of `kg_per_second` kilograms per second.
    pub fn in_kg_per_s(kg_per_second: Ratio) -> (r: MassRate)
        requires
            kg_per_second.wf(),
        ensures
            r.wf(),
            r.value == kg_per_second,
    {
        Quantity { value: kg_per_second, unit: PhantomData }
    }
}

/// A mass per time and person, in kilograms per second and person.
pub type MassRatePerPerson = Quantity<kind::MassRatePerPerson>;

impl MassRatePerPerson {
    /// The quantity of `kg_per_person_second` kilograms per second and person.
    pub fn in_kg_per_s_person(kg_per_person_second: Ratio) -> (r: MassRatePerPerson)
        requires
            kg_per_person_second.wf(),
        ensures
            r.wf(),
            r.value == kg_per_person_second,
    {
        Quantity { value: kg_per_person_second, unit: PhantomData }
    }
}

/// A mass per person, in kilograms per person.
pub type MassPerPerson = Quantity<kind::MassPerPerson>;

impl MassPerPerson {
    /// The quantity of `kg_per_person` kilograms per person.
    pub fn in_kg_per_person(kg_per_person: Ratio) -> (r: MassPerPerson)
        requires
            kg_per_person.wf(),
        ensures
            r.wf(),
            r.value == kg_per_person,
    {
        Quantity { value: kg_per_person, unit: PhantomData }
    }
}

/// A number of people, in people.
pub type Population = Quantity<kind::Population>;

impl Population {
    /// The quantity of `people` people.
    pub fn in_people(people: Ratio) -> (r: Population)
        requires
            people.wf(),
        ensures
            r.wf(),
            r.value == people,
    {
        Quantity { value: people, unit: PhantomData }
    }
}

/// A number of people per area, in people per square metre.
pub type PopulationDensity = Quantity<kind::PopulationDensity>;

impl PopulationDensity {
    /// The quantity of `people_per_square_meter` people per square metre.
    pub fn in_people_per_square_m(people_per_square_meter: Ratio) -> (r: PopulationDensity)
        requires
            people_per_square_meter.wf(),
        ensures
            r.wf(),
            r.value == people_per_square_meter,
    {
        Quantity { value: people_per_square_meter, unit: PhantomData }
    }
}

/// An amount of money, in credits.
pub type Credits = Quantity<kind::Credits>;

impl Credits {
    /// The quantity of `credits` credits.
    pub fn in_credits(credits: Ratio) -> (r: Credits)
        requires
            credits.wf(),
        ensures
            r.wf(),
            r.value == credits,
    {
        Quantity { value: credits, unit: PhantomData }
    }
}

/// Money per time, in credits per second.
pub type CreditRate = Quantity<kind::CreditRate>;

impl CreditRate {
    /// The quantity of `credits_per_second` credits per second.
    pub fn in_credits_per_s(credits_per_second: Ratio) -> (r: CreditRate)
        requires
            credits_per_second.wf(),
        ensures
            r.wf(),
            r.value == credits_per_second,
    {
        Quantity { value: credits_per_second, unit: PhantomData }
    }
}

/// A price per mass and distance, in credits per kilogram metre.
pub type PricePerMeter = Quantity<kind::PricePerMeter>;

impl PricePerMeter {
    /// The quantity of `credits_per_kilogram_meter` credits per kilogram metre.
    pub fn in_credits_per_kg_m(credits_per_kilogram_meter: Ratio) -> (r: PricePerMeter)
        requires
            credits_per_kilogram_meter.wf(),
        ensures
            r.wf(),
            r.value == credits_per_kilogram_meter,
    {
        Quantity { value: credits_per_kilogram_meter, unit: PhantomData }
    }
}

/// Money per distance, in credits per metre.
pub type CreditsPerMeter = Quantity<kind::CreditsPerMeter>;

impl CreditsPerMeter {
    /// The quantity of `credits_per_meter` credits per metre.
    pub fn in_credits_per_m(credits_per_meter: Ratio) -> (r: CreditsPerMeter)
        requires
            credits_per_meter.wf(),
        ensures
            r.wf(),
            r.value == credits_per_meter,
    {
        Quantity { value: credits_per_meter, unit: PhantomData }
    }
}

/// Money per person, in credits per person.
pub type CreditsPerPerson = Quantity<kind::CreditsPerPerson>;

impl CreditsPerPerson {
    /// The quantity of `credits_per_person` credits per person.
    pub fn in_credits_per_person(credits_per_person: Ratio) -> (r: CreditsPerPerson)
        requires
            credits_per_person.wf(),
        ensures
            r.wf(),
            r.value == credits_per_person,
    {
        Quantity { value: credits_per_person, unit: PhantomData }
    }
}

/// Money per time and person, in credits per second and person.
pub type CreditRatePerPerson = Quantity<kind::CreditRatePerPerson>;

impl CreditRatePerPerson {
    /// The quantity of `credits_per_second_person` credits per second and person.
    pub fn in_credits_per_s_person(credits_per_second_person: Ratio) -> (r: CreditRatePerPerson)
        requires
            credits_per_second_person.wf(),
        ensures
            r.wf(),
            r.value == credits_per_second_person,
    {
        Quantity { value: credits_per_second_person, unit: PhantomData }
    }
}

/// Money per mass, in credits per kilogram.
pub type Price = Quantity<kind::Price>;

impl Price {
    /// The quantity of `credits_per_kilogram` credits per kilogram.
    pub fn in_credits_per_kg(credits_per_kilogram: Ratio) -> (r: Price)
        requires
            credits_per_kilogram.wf(),
        ensures
            r.wf(),
            r.value == credits_per_kilogram,
    {
        Quantity { value: credits_per_kilogram, unit: PhantomData }
    }
}

} // verus!
