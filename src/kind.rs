//! The kinds of quantity: marker types that tell quantities apart, and
//! the relations declared among them.
use vstd::prelude::*;
use crate::quantity::{Product, Quantity, Quotient, Root};
use crate::ratio::Ratio;

verus! {

/// Marks quantities of kind Length.
#[derive(Clone, Copy, Debug)]
pub struct Length;

impl Quotient<Length> for Length {
    type Output = Ratio;
}

/// Marks quantities of kind LengthInv.
#[derive(Clone, Copy, Debug)]
pub struct LengthInv;

impl Quotient<LengthInv> for LengthInv {
    type Output = Ratio;
}

/// Marks quantities of kind Area.
#[derive(Clone, Copy, Debug)]
pub struct Area;

impl Quotient<Area> for Area {
    type Output = Ratio;
}

/// Marks quantities of kind AreaInv.
#[derive(Clone, Copy, Debug)]
pub struct AreaInv;

impl Quotient<AreaInv> for AreaInv {
    type Output = Ratio;
}

/// Marks quantities of kind Volume.
#[derive(Clone, Copy, Debug)]
pub struct Volume;

impl Quotient<Volume> for Volume {
    type Output = Ratio;
}

/// Marks quantities of kind Mass.
#[derive(Clone, Copy, Debug)]
pub struct Mass;

impl Quotient<Mass> for Mass {
    type Output = Ratio;
}

/// Marks quantities of kind Duration.
#[derive(Clone, Copy, Debug)]
pub struct Duration;

impl Quotient<Duration> for Duration {
    type Output = Ratio;
}

/// Marks quantities of kind DurationSquared.
#[derive(Clone, Copy, Debug)]
pub struct DurationSquared;

impl Quotient<DurationSquared> for DurationSquared {
    type Output = Ratio;
}

/// Marks quantities of kind Frequency.
#[derive(Clone, Copy, Debug)]
pub struct Frequency;

impl Quotient<Frequency> for Frequency {
    type Output = Ratio;
}

/// Marks quantities of kind Speed.
#[derive(Clone, Copy, Debug)]
pub struct Speed;

impl Quotient<Speed> for Speed {
    type Output = Ratio;
}

/// Marks quantities of kind Acceleration.
#[derive(Clone, Copy, Debug)]
pub struct Acceleration;

impl Quotient<Acceleration> for Acceleration {
    type Output = Ratio;
}

/// Marks quantities of kind Force.
#[derive(Clone, Copy, Debug)]
pub struct Force;

impl Quotient<Force> for Force {
    type Output = Ratio;
}

/// Marks quantities of kind Energy.
#[derive(Clone, Copy, Debug)]
pub struct Energy;

impl Quotient<Energy> for Energy {
    type Output = Ratio;
}

/// Marks quantities of kind Power.
#[derive(Clone, Copy, Debug)]
pub struct Power;

impl Quotient<Power> for Power {
    type Output = Ratio;
}

/// Marks quantities of kind FluxDensity.
#[derive(Clone, Copy, Debug)]
pub struct FluxDensity;

impl Quotient<FluxDensity> for FluxDensity {
    type Output = Ratio;
}

/// Marks quantities of kind Pressure.
#[derive(Clone, Copy, Debug)]
pub struct Pressure;

impl Quotient<Pressure> for Pressure {
    type Output = Ratio;
}

/// Marks quantities of kind Temperature.
#[derive(Clone, Copy, Debug)]
pub struct Temperature;

impl Quotient<Temperature> for Temperature {
    type Output = Ratio;
}

/// Marks quantities of kind Amount.
#[derive(Clone, Copy, Debug)]
pub struct Amount;

impl Quotient<Amount> for Amount {
    type Output = Ratio;
}

/// Marks quantities of kind MolecularMass.
#[derive(Clone, Copy, Debug)]
pub struct MolecularMass;

impl Quotient<MolecularMass> for MolecularMass {
    type Output = Ratio;
}

/// Marks quantities of kind GasConstant.
#[derive(Clone, Copy, Debug)]
pub struct GasConstant;

impl Quotient<GasConstant> for GasConstant {
    type Output = Ratio;
}

/// Marks quantities of kind EnergyPerAmount.
#[derive(Clone, Copy, Debug)]
pub struct EnergyPerAmount;

impl Quotient<EnergyPerAmount> for EnergyPerAmount {
    type Output = Ratio;
}

/// Marks quantities of kind EnergyPerTemperature.
#[derive(Clone, Copy, Debug)]
pub struct EnergyPerTemperature;

impl Quotient<EnergyPerTemperature> for EnergyPerTemperature {
    type Output = Ratio;
}

/// Marks quantities of kind PressurePerAmountTemperature.
#[derive(Clone, Copy, Debug)]
pub struct PressurePerAmountTemperature;

impl Quotient<PressurePerAmountTemperature> for PressurePerAmountTemperature {
    type Output = Ratio;
}

/// Marks quantities of kind PressurePerTemperature.
#[derive(Clone, Copy, Debug)]
pub struct PressurePerTemperature;

impl Quotient<PressurePerTemperature> for PressurePerTemperature {
    type Output = Ratio;
}

/// Marks quantities of kind PressurePerAmount.
#[derive(Clone, Copy, Debug)]
pub struct PressurePerAmount;

impl Quotient<PressurePerAmount> for PressurePerAmount {
    type Output = Ratio;
}

/// Marks quantities of kind VolumePerAmountTemperature.
#[derive(Clone, Copy, Debug)]
pub struct VolumePerAmountTemperature;

impl Quotient<VolumePerAmountTemperature> for VolumePerAmountTemperature {
    type Output = Ratio;
}

/// Marks quantities of kind VolumePerAmount.
#[derive(Clone, Copy, Debug)]
pub struct VolumePerAmount;

impl Quotient<VolumePerAmount> for VolumePerAmount {
    type Output = Ratio;
}

/// Marks quantities of kind VolumePerTemperature.
#[derive(Clone, Copy, Debug)]
pub struct VolumePerTemperature;

impl Quotient<VolumePerTemperature> for VolumePerTemperature {
    type Output = Ratio;
}

/// Marks quantities of kind Angle.
#[derive(Clone, Copy, Debug)]
pub struct Angle;

impl Quotient<Angle> for Angle {
    type Output = Ratio;
}

/// Marks quantities of kind AngularSpeed.
#[derive(Clone, Copy, Debug)]
pub struct AngularSpeed;

impl Quotient<AngularSpeed> for AngularSpeed {
    type Output = Ratio;
}

/// Marks quantities of kind MassRate.
#[derive(Clone, Copy, Debug)]
pub struct MassRate;

impl Quotient<MassRate> for MassRate {
    type Output = Ratio;
}

/// Marks quantities of kind MassRatePerPerson.
#[derive(Clone, Copy, Debug)]
pub struct MassRatePerPerson;

impl Quotient<MassRatePerPerson> for MassRatePerPerson {
    type Output = Ratio;
}

/// Marks quantities of kind MassPerPerson.
#[derive(Clone, Copy, Debug)]
pub struct MassPerPerson;

impl Quotient<MassPerPerson> for MassPerPerson {
    type Output = Ratio;
}

/// Marks quantities of kind Population.
#[derive(Clone, Copy, Debug)]
pub struct Population;

impl Quotient<Population> for Population {
    type Output = Ratio;
}

/// Marks quantities of kind PopulationDensity.
#[derive(Clone, Copy, Debug)]
pub struct PopulationDensity;

impl Quotient<PopulationDensity> for PopulationDensity {
    type Output = Ratio;
}

/// Marks quantities of kind Credits.
#[derive(Clone, Copy, Debug)]
pub struct Credits;

impl Quotient<Credits> for Credits {
    type Output = Ratio;
}

/// Marks quantities of kind CreditRate.
#[derive(Clone, Copy, Debug)]
pub struct CreditRate;

impl Quotient<CreditRate> for CreditRate {
    type Output = Ratio;
}

/// Marks quantities of kind PricePerMeter.
#[derive(Clone, Copy, Debug)]
pub struct PricePerMeter;

impl Quotient<PricePerMeter> for PricePerMeter {
    type Output = Ratio;
}

/// Marks quantities of kind CreditsPerMeter.
#[derive(Clone, Copy, Debug)]
pub struct CreditsPerMeter;

impl Quotient<CreditsPerMeter> for CreditsPerMeter {
    type Output = Ratio;
}

/// Marks quantities of kind CreditsPerPerson.
#[derive(Clone, Copy, Debug)]
pub struct CreditsPerPerson;

impl Quotient<CreditsPerPerson> for CreditsPerPerson {
    type Output = Ratio;
}

/// Marks quantities of kind CreditRatePerPerson.
#[derive(Clone, Copy, Debug)]
pub struct CreditRatePerPerson;

impl Quotient<CreditRatePerPerson> for CreditRatePerPerson {
    type Output = Ratio;
}

/// Marks quantities of kind Price.
#[derive(Clone, Copy, Debug)]
pub struct Price;

impl Quotient<Price> for Price {
    type Output = Ratio;
}

// Length / Duration = Speed

impl Quotient<Duration> for Length {
    type Output = Quantity<Speed>;
}

impl Quotient<Speed> for Length {
    type Output = Quantity<Duration>;
}

impl Product<Duration> for Speed {
    type Output = Quantity<Length>;
}

impl Product<Speed> for Duration {
    type Output = Quantity<Length>;
}

// Speed / Frequency = Length

impl Quotient<Frequency> for Speed {
    type Output = Quantity<Length>;
}

impl Quotient<Length> for Speed {
    type Output = Quantity<Frequency>;
}

impl Product<Frequency> for Length {
    type Output = Quantity<Speed>;
}

impl Product<Length> for Frequency {
    type Output = Quantity<Speed>;
}

// Speed / Duration = Acceleration

impl Quotient<Duration> for Speed {
    type Output = Quantity<Acceleration>;
}

impl Quotient<Acceleration> for Speed {
    type Output = Quantity<Duration>;
}

impl Product<Duration> for Acceleration {
    type Output = Quantity<Speed>;
}

impl Product<Acceleration> for Duration {
    type Output = Quantity<Speed>;
}

// Length / Acceleration = DurationSquared

impl Quotient<Acceleration> for Length {
    type Output = Quantity<DurationSquared>;
}

impl Quotient<DurationSquared> for Length {
    type Output = Quantity<Acceleration>;
}

impl Product<Acceleration> for DurationSquared {
    type Output = Quantity<Length>;
}

impl Product<DurationSquared> for Acceleration {
    type Output = Quantity<Length>;
}

// Length / Area = LengthInv

impl Quotient<Area> for Length {
    type Output = Quantity<LengthInv>;
}

impl Quotient<LengthInv> for Length {
    type Output = Quantity<Area>;
}

impl Product<Area> for LengthInv {
    type Output = Quantity<Length>;
}

impl Product<LengthInv> for Area {
    type Output = Quantity<Length>;
}

// LengthInv / Length = AreaInv

impl Quotient<Length> for LengthInv {
    type Output = Quantity<AreaInv>;
}

impl Quotient<AreaInv> for LengthInv {
    type Output = Quantity<Length>;
}

impl Product<Length> for AreaInv {
    type Output = Quantity<LengthInv>;
}

impl Product<AreaInv> for Length {
    type Output = Quantity<LengthInv>;
}

// Volume / Area = Length

impl Quotient<Area> for Volume {
    type Output = Quantity<Length>;
}

impl Quotient<Length> for Volume {
    type Output = Quantity<Area>;
}

impl Product<Area> for Length {
    type Output = Quantity<Volume>;
}

impl Product<Length> for Area {
    type Output = Quantity<Volume>;
}

// Force / Acceleration = Mass

impl Quotient<Acceleration> for Force {
    type Output = Quantity<Mass>;
}

impl Quotient<Mass> for Force {
    type Output = Quantity<Acceleration>;
}

impl Product<Acceleration> for Mass {
    type Output = Quantity<Force>;
}

impl Product<Mass> for Acceleration {
    type Output = Quantity<Force>;
}

// Energy / Length = Force

impl Quotient<Length> for Energy {
    type Output = Quantity<Force>;
}

impl Quotient<Force> for Energy {
    type Output = Quantity<Length>;
}

impl Product<Length> for Force {
    type Output = Quantity<Energy>;
}

impl Product<Force> for Length {
    type Output = Quantity<Energy>;
}

// Energy / Pressure = Volume

impl Quotient<Pressure> for Energy {
    type Output = Quantity<Volume>;
}

impl Quotient<Volume> for Energy {
    type Output = Quantity<Pressure>;
}

impl Product<Pressure> for Volume {
    type Output = Quantity<Energy>;
}

impl Product<Volume> for Pressure {
    type Output = Quantity<Energy>;
}

// Energy / Duration = Power

impl Quotient<Duration> for Energy {
    type Output = Quantity<Power>;
}

impl Quotient<Power> for Energy {
    type Output = Quantity<Duration>;
}

impl Product<Duration> for Power {
    type Output = Quantity<Energy>;
}

impl Product<Power> for Duration {
    type Output = Quantity<Energy>;
}

// Power / Speed = Force

impl Quotient<Speed> for Power {
    type Output = Quantity<Force>;
}

impl Quotient<Force> for Power {
    type Output = Quantity<Speed>;
}

impl Product<Speed> for Force {
    type Output = Quantity<Power>;
}

impl Product<Force> for Speed {
    type Output = Quantity<Power>;
}

// Power / Area = FluxDensity

impl Quotient<Area> for Power {
    type Output = Quantity<FluxDensity>;
}

impl Quotient<FluxDensity> for Power {
    type Output = Quantity<Area>;
}

impl Product<Area> for FluxDensity {
    type Output = Quantity<Power>;
}

impl Product<FluxDensity> for Area {
    type Output = Quantity<Power>;
}

// Force / Area = Pressure

impl Quotient<Area> for Force {
    type Output = Quantity<Pressure>;
}

impl Quotient<Pressure> for Force {
    type Output = Quantity<Area>;
}

impl Product<Area> for Pressure {
    type Output = Quantity<Force>;
}

impl Product<Pressure> for Area {
    type Output = Quantity<Force>;
}

// Mass / Amount = MolecularMass

impl Quotient<Amount> for Mass {
    type Output = Quantity<MolecularMass>;
}

impl Quotient<MolecularMass> for Mass {
    type Output = Quantity<Amount>;
}

impl Product<Amount> for MolecularMass {
    type Output = Quantity<Mass>;
}

impl Product<MolecularMass> for Amount {
    type Output = Quantity<Mass>;
}

// GasConstant / Volume = PressurePerAmountTemperature

impl Quotient<Volume> for GasConstant {
    type Output = Quantity<PressurePerAmountTemperature>;
}

impl Quotient<PressurePerAmountTemperature> for GasConstant {
    type Output = Quantity<Volume>;
}

impl Product<Volume> for PressurePerAmountTemperature {
    type Output = Quantity<GasConstant>;
}

impl Product<PressurePerAmountTemperature> for Volume {
    type Output = Quantity<GasConstant>;
}

// EnergyPerAmount / Temperature = GasConstant

impl Quotient<Temperature> for EnergyPerAmount {
    type Output = Quantity<GasConstant>;
}

impl Quotient<GasConstant> for EnergyPerAmount {
    type Output = Quantity<Temperature>;
}

impl Product<Temperature> for GasConstant {
    type Output = Quantity<EnergyPerAmount>;
}

impl Product<GasConstant> for Temperature {
    type Output = Quantity<EnergyPerAmount>;
}

// EnergyPerTemperature / Amount = GasConstant

impl Quotient<Amount> for EnergyPerTemperature {
    type Output = Quantity<GasConstant>;
}

impl Quotient<GasConstant> for EnergyPerTemperature {
    type Output = Quantity<Amount>;
}

impl Product<Amount> for GasConstant {
    type Output = Quantity<EnergyPerTemperature>;
}

impl Product<GasConstant> for Amount {
    type Output = Quantity<EnergyPerTemperature>;
}

// GasConstant / Pressure = VolumePerAmountTemperature

impl Quotient<Pressure> for GasConstant {
    type Output = Quantity<VolumePerAmountTemperature>;
}

impl Quotient<VolumePerAmountTemperature> for GasConstant {
    type Output = Quantity<Pressure>;
}

impl Product<Pressure> for VolumePerAmountTemperature {
    type Output = Quantity<GasConstant>;
}

impl Product<VolumePerAmountTemperature> for Pressure {
    type Output = Quantity<GasConstant>;
}

// Energy / Amount = EnergyPerAmount

impl Quotient<Amount> for Energy {
    type Output = Quantity<EnergyPerAmount>;
}

impl Quotient<EnergyPerAmount> for Energy {
    type Output = Quantity<Amount>;
}

impl Product<Amount> for EnergyPerAmount {
    type Output = Quantity<Energy>;
}

impl Product<EnergyPerAmount> for Amount {
    type Output = Quantity<Energy>;
}

// EnergyPerAmount / Volume = PressurePerAmount

impl Quotient<Volume> for EnergyPerAmount {
    type Output = Quantity<PressurePerAmount>;
}

impl Quotient<PressurePerAmount> for EnergyPerAmount {
    type Output = Quantity<Volume>;
}

impl Product<Volume> for PressurePerAmount {
    type Output = Quantity<EnergyPerAmount>;
}

impl Product<PressurePerAmount> for Volume {
    type Output = Quantity<EnergyPerAmount>;
}

// EnergyPerAmount / Pressure = VolumePerAmount

impl Quotient<Pressure> for EnergyPerAmount {
    type Output = Quantity<VolumePerAmount>;
}

impl Quotient<VolumePerAmount> for EnergyPerAmount {
    type Output = Quantity<Pressure>;
}

impl Product<Pressure> for VolumePerAmount {
    type Output = Quantity<EnergyPerAmount>;
}

impl Product<VolumePerAmount> for Pressure {
    type Output = Quantity<EnergyPerAmount>;
}

// Energy / Temperature = EnergyPerTemperature

impl Quotient<Temperature> for Energy {
    type Output = Quantity<EnergyPerTemperature>;
}

impl Quotient<EnergyPerTemperature> for Energy {
    type Output = Quantity<Temperature>;
}

impl Product<Temperature> for EnergyPerTemperature {
    type Output = Quantity<Energy>;
}

impl Product<EnergyPerTemperature> for Temperature {
    type Output = Quantity<Energy>;
}

// EnergyPerTemperature / Volume = PressurePerTemperature

impl Quotient<Volume> for EnergyPerTemperature {
    type Output = Quantity<PressurePerTemperature>;
}

impl Quotient<PressurePerTemperature> for EnergyPerTemperature {
    type Output = Quantity<Volume>;
}

impl Product<Volume> for PressurePerTemperature {
    type Output = Quantity<EnergyPerTemperature>;
}

impl Product<PressurePerTemperature> for Volume {
    type Output = Quantity<EnergyPerTemperature>;
}

// EnergyPerTemperature / Pressure = VolumePerTemperature

impl Quotient<Pressure> for EnergyPerTemperature {
    type Output = Quantity<VolumePerTemperature>;
}

impl Quotient<VolumePerTemperature> for EnergyPerTemperature {
    type Output = Quantity<Pressure>;
}

impl Product<Pressure> for VolumePerTemperature {
    type Output = Quantity<EnergyPerTemperature>;
}

impl Product<VolumePerTemperature> for Pressure {
    type Output = Quantity<EnergyPerTemperature>;
}

// PressurePerTemperature / Amount = PressurePerAmountTemperature

impl Quotient<Amount> for PressurePerTemperature {
    type Output = Quantity<PressurePerAmountTemperature>;
}

impl Quotient<PressurePerAmountTemperature> for PressurePerTemperature {
    type Output = Quantity<Amount>;
}

impl Product<Amount> for PressurePerAmountTemperature {
    type Output = Quantity<PressurePerTemperature>;
}

impl Product<PressurePerAmountTemperature> for Amount {
    type Output = Quantity<PressurePerTemperature>;
}

// Pressure / Temperature = PressurePerTemperature

impl Quotient<Temperature> for Pressure {
    type Output = Quantity<PressurePerTemperature>;
}

impl Quotient<PressurePerTemperature> for Pressure {
    type Output = Quantity<Temperature>;
}

impl Product<Temperature> for PressurePerTemperature {
    type Output = Quantity<Pressure>;
}

impl Product<PressurePerTemperature> for Temperature {
    type Output = Quantity<Pressure>;
}

// PressurePerAmount / Temperature = PressurePerAmountTemperature

impl Quotient<Temperature> for PressurePerAmount {
    type Output = Quantity<PressurePerAmountTemperature>;
}

impl Quotient<PressurePerAmountTemperature> for PressurePerAmount {
    type Output = Quantity<Temperature>;
}

impl Product<Temperature> for PressurePerAmountTemperature {
    type Output = Quantity<PressurePerAmount>;
}

impl Product<PressurePerAmountTemperature> for Temperature {
    type Output = Quantity<PressurePerAmount>;
}

// Pressure / Amount = PressurePerAmount

impl Quotient<Amount> for Pressure {
    type Output = Quantity<PressurePerAmount>;
}

impl Quotient<PressurePerAmount> for Pressure {
    type Output = Quantity<Amount>;
}

impl Product<Amount> for PressurePerAmount {
    type Output = Quantity<Pressure>;
}

impl Product<PressurePerAmount> for Amount {
    type Output = Quantity<Pressure>;
}

// VolumePerAmount / Temperature = VolumePerAmountTemperature

impl Quotient<Temperature> for VolumePerAmount {
    type Output = Quantity<VolumePerAmountTemperature>;
}

impl Quotient<VolumePerAmountTemperature> for VolumePerAmount {
    type Output = Quantity<Temperature>;
}

impl Product<Temperature> for VolumePerAmountTemperature {
    type Output = Quantity<VolumePerAmount>;
}

impl Product<VolumePerAmountTemperature> for Temperature {
    type Output = Quantity<VolumePerAmount>;
}

// Volume / Amount = VolumePerAmount

impl Quotient<Amount> for Volume {
    type Output = Quantity<VolumePerAmount>;
}

impl Quotient<VolumePerAmount> for Volume {
    type Output = Quantity<Amount>;
}

impl Product<Amount> for VolumePerAmount {
    type Output = Quantity<Volume>;
}

impl Product<VolumePerAmount> for Amount {
    type Output = Quantity<Volume>;
}

// VolumePerTemperature / Amount = VolumePerAmountTemperature

impl Quotient<Amount> for VolumePerTemperature {
    type Output = Quantity<VolumePerAmountTemperature>;
}

impl Quotient<VolumePerAmountTemperature> for VolumePerTemperature {
    type Output = Quantity<Amount>;
}

impl Product<Amount> for VolumePerAmountTemperature {
    type Output = Quantity<VolumePerTemperature>;
}

impl Product<VolumePerAmountTemperature> for Amount {
    type Output = Quantity<VolumePerTemperature>;
}

// Volume / Temperature = VolumePerTemperature

impl Quotient<Temperature> for Volume {
    type Output = Quantity<VolumePerTemperature>;
}

impl Quotient<VolumePerTemperature> for Volume {
    type Output = Quantity<Temperature>;
}

impl Product<Temperature> for VolumePerTemperature {
    type Output = Quantity<Volume>;
}

impl Product<VolumePerTemperature> for Temperature {
    type Output = Quantity<Volume>;
}

// Angle / Duration = AngularSpeed

impl Quotient<Duration> for Angle {
    type Output = Quantity<AngularSpeed>;
}

impl Quotient<AngularSpeed> for Angle {
    type Output = Quantity<Duration>;
}

impl Product<Duration> for AngularSpeed {
    type Output = Quantity<Angle>;
}

impl Product<AngularSpeed> for Duration {
    type Output = Quantity<Angle>;
}

// Mass / Duration = MassRate

impl Quotient<Duration> for Mass {
    type Output = Quantity<MassRate>;
}

impl Quotient<MassRate> for Mass {
    type Output = Quantity<Duration>;
}

impl Product<Duration> for MassRate {
    type Output = Quantity<Mass>;
}

impl Product<MassRate> for Duration {
    type Output = Quantity<Mass>;
}

// MassRate / Frequency = Mass

impl Quotient<Frequency> for MassRate {
    type Output = Quantity<Mass>;
}

impl Quotient<Mass> for MassRate {
    type Output = Quantity<Frequency>;
}

impl Product<Frequency> for Mass {
    type Output = Quantity<MassRate>;
}

impl Product<Mass> for Frequency {
    type Output = Quantity<MassRate>;
}

// MassRate / Population = MassRatePerPerson

impl Quotient<Population> for MassRate {
    type Output = Quantity<MassRatePerPerson>;
}

impl Quotient<MassRatePerPerson> for MassRate {
    type Output = Quantity<Population>;
}

impl Product<Population> for MassRatePerPerson {
    type Output = Quantity<MassRate>;
}

impl Product<MassRatePerPerson> for Population {
    type Output = Quantity<MassRate>;
}

// Population / Area = PopulationDensity

impl Quotient<Area> for Population {
    type Output = Quantity<PopulationDensity>;
}

impl Quotient<PopulationDensity> for Population {
    type Output = Quantity<Area>;
}

impl Product<Area> for PopulationDensity {
    type Output = Quantity<Population>;
}

impl Product<PopulationDensity> for Area {
    type Output = Quantity<Population>;
}

// Mass / Population = MassPerPerson

impl Quotient<Population> for Mass {
    type Output = Quantity<MassPerPerson>;
}

impl Quotient<MassPerPerson> for Mass {
    type Output = Quantity<Population>;
}

impl Product<Population> for MassPerPerson {
    type Output = Quantity<Mass>;
}

impl Product<MassPerPerson> for Population {
    type Output = Quantity<Mass>;
}

// MassPerPerson / Duration = MassRatePerPerson

impl Quotient<Duration> for MassPerPerson {
    type Output = Quantity<MassRatePerPerson>;
}

impl Quotient<MassRatePerPerson> for MassPerPerson {
    type Output = Quantity<Duration>;
}

impl Product<Duration> for MassRatePerPerson {
    type Output = Quantity<MassPerPerson>;
}

impl Product<MassRatePerPerson> for Duration {
    type Output = Quantity<MassPerPerson>;
}

// MassRatePerPerson / Frequency = MassPerPerson

impl Quotient<Frequency> for MassRatePerPerson {
    type Output = Quantity<MassPerPerson>;
}

impl Quotient<MassPerPerson> for MassRatePerPerson {
    type Output = Quantity<Frequency>;
}

impl Product<Frequency> for MassPerPerson {
    type Output = Quantity<MassRatePerPerson>;
}

impl Product<MassPerPerson> for Frequency {
    type Output = Quantity<MassRatePerPerson>;
}

// Credits / Duration = CreditRate

impl Quotient<Duration> for Credits {
    type Output = Quantity<CreditRate>;
}

impl Quotient<CreditRate> for Credits {
    type Output = Quantity<Duration>;
}

impl Product<Duration> for CreditRate {
    type Output = Quantity<Credits>;
}

impl Product<CreditRate> for Duration {
    type Output = Quantity<Credits>;
}

// CreditRate / Frequency = Credits

impl Quotient<Frequency> for CreditRate {
    type Output = Quantity<Credits>;
}

impl Quotient<Credits> for CreditRate {
    type Output = Quantity<Frequency>;
}

impl Product<Frequency> for Credits {
    type Output = Quantity<CreditRate>;
}

impl Product<Credits> for Frequency {
    type Output = Quantity<CreditRate>;
}

// Price / Length = PricePerMeter

impl Quotient<Length> for Price {
    type Output = Quantity<PricePerMeter>;
}

impl Quotient<PricePerMeter> for Price {
    type Output = Quantity<Length>;
}

impl Product<Length> for PricePerMeter {
    type Output = Quantity<Price>;
}

impl Product<PricePerMeter> for Length {
    type Output = Quantity<Price>;
}

// Credits / Length = CreditsPerMeter

impl Quotient<Length> for Credits {
    type Output = Quantity<CreditsPerMeter>;
}

impl Quotient<CreditsPerMeter> for Credits {
    type Output = Quantity<Length>;
}

impl Product<Length> for CreditsPerMeter {
    type Output = Quantity<Credits>;
}

impl Product<CreditsPerMeter> for Length {
    type Output = Quantity<Credits>;
}

// CreditsPerMeter / Mass = PricePerMeter

impl Quotient<Mass> for CreditsPerMeter {
    type Output = Quantity<PricePerMeter>;
}

impl Quotient<PricePerMeter> for CreditsPerMeter {
    type Output = Quantity<Mass>;
}

impl Product<Mass> for PricePerMeter {
    type Output = Quantity<CreditsPerMeter>;
}

impl Product<PricePerMeter> for Mass {
    type Output = Quantity<CreditsPerMeter>;
}

// Credits / Population = CreditsPerPerson

impl Quotient<Population> for Credits {
    type Output = Quantity<CreditsPerPerson>;
}

impl Quotient<CreditsPerPerson> for Credits {
    type Output = Quantity<Population>;
}

impl Product<Population> for CreditsPerPerson {
    type Output = Quantity<Credits>;
}

impl Product<CreditsPerPerson> for Population {
    type Output = Quantity<Credits>;
}

// CreditRate / Population = CreditRatePerPerson

impl Quotient<Population> for CreditRate {
    type Output = Quantity<CreditRatePerPerson>;
}

impl Quotient<CreditRatePerPerson> for CreditRate {
    type Output = Quantity<Population>;
}

impl Product<Population> for CreditRatePerPerson {
    type Output = Quantity<CreditRate>;
}

impl Product<CreditRatePerPerson> for Population {
    type Output = Quantity<CreditRate>;
}

// CreditsPerPerson / Duration = CreditRatePerPerson

impl Quotient<Duration> for CreditsPerPerson {
    type Output = Quantity<CreditRatePerPerson>;
}

impl Quotient<CreditRatePerPerson> for CreditsPerPerson {
    type Output = Quantity<Duration>;
}

impl Product<Duration> for CreditRatePerPerson {
    type Output = Quantity<CreditsPerPerson>;
}

impl Product<CreditRatePerPerson> for Duration {
    type Output = Quantity<CreditsPerPerson>;
}

// CreditRatePerPerson / Frequency = CreditsPerPerson

impl Quotient<Frequency> for CreditRatePerPerson {
    type Output = Quantity<CreditsPerPerson>;
}

impl Quotient<CreditsPerPerson> for CreditRatePerPerson {
    type Output = Quantity<Frequency>;
}

impl Product<Frequency> for CreditsPerPerson {
    type Output = Quantity<CreditRatePerPerson>;
}

impl Product<CreditsPerPerson> for Frequency {
    type Output = Quantity<CreditRatePerPerson>;
}

// Credits / Mass = Price

impl Quotient<Mass> for Credits {
    type Output = Quantity<Price>;
}

impl Quotient<Price> for Credits {
    type Output = Quantity<Mass>;
}

impl Product<Mass> for Price {
    type Output = Quantity<Credits>;
}

impl Product<Price> for Mass {
    type Output = Quantity<Credits>;
}

// CreditRatePerPerson / MassRatePerPerson = Price

impl Quotient<MassRatePerPerson> for CreditRatePerPerson {
    type Output = Quantity<Price>;
}

impl Quotient<Price> for CreditRatePerPerson {
    type Output = Quantity<MassRatePerPerson>;
}

impl Product<MassRatePerPerson> for Price {
    type Output = Quantity<CreditRatePerPerson>;
}

impl Product<Price> for MassRatePerPerson {
    type Output = Quantity<CreditRatePerPerson>;
}

/// Marks raw numbers where they stand in a relation: `Unitless / Duration =
/// Frequency` declares that a raw number divided by a duration is a
/// frequency.
#[derive(Clone, Copy, Debug)]
pub struct Unitless;

// raw / Duration = Frequency

impl Quotient<Duration> for Unitless {
    type Output = Quantity<Frequency>;
}

impl Quotient<Frequency> for Unitless {
    type Output = Quantity<Duration>;
}

impl Product<Duration> for Frequency {
    type Output = Ratio;
}

impl Product<Frequency> for Duration {
    type Output = Ratio;
}

// raw / Length = LengthInv

impl Quotient<Length> for Unitless {
    type Output = Quantity<LengthInv>;
}

impl Quotient<LengthInv> for Unitless {
    type Output = Quantity<Length>;
}

impl Product<Length> for LengthInv {
    type Output = Ratio;
}

impl Product<LengthInv> for Length {
    type Output = Ratio;
}

// raw / Area = AreaInv

impl Quotient<Area> for Unitless {
    type Output = Quantity<AreaInv>;
}

impl Quotient<AreaInv> for Unitless {
    type Output = Quantity<Area>;
}

impl Product<Area> for AreaInv {
    type Output = Ratio;
}

impl Product<AreaInv> for Area {
    type Output = Ratio;
}

// Length * Length = Area

impl Product<Length> for Length {
    type Output = Quantity<Area>;
}

impl Quotient<Length> for Area {
    type Output = Quantity<Length>;
}

impl Root for Area {
    type Base = Length;
}

// LengthInv * LengthInv = AreaInv

impl Product<LengthInv> for LengthInv {
    type Output = Quantity<AreaInv>;
}

impl Quotient<LengthInv> for AreaInv {
    type Output = Quantity<LengthInv>;
}

impl Root for AreaInv {
    type Base = LengthInv;
}

// Duration * Duration = DurationSquared

impl Product<Duration> for Duration {
    type Output = Quantity<DurationSquared>;
}

impl Quotient<Duration> for DurationSquared {
    type Output = Quantity<Duration>;
}

impl Root for DurationSquared {
    type Base = Duration;
}

} // verus!
