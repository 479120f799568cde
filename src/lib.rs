//! Strongly typed physical quantities over exact rational numbers.
//!
//! Every kind of quantity (length, mass, duration, ...) is its own type,
//! all generated from the one generic `Quantity<U>` by a marker type `U`
//! from `kind`. Quantities of one kind add, subtract, compare and sum;
//! any quantity scales by a raw number (`Ratio`); and kinds combine only
//! along relations declared between them, such as `Length / Duration =
//! Speed` or `Length * Length = Area`.
//!
//! Raw values are exact ratios of 64-bit integers. Where a result would
//! not fit, the operation's precondition rules it out, just as a value
//! with a zero denominator (standing for an infinite or undefined number)
//! can never become a quantity.
use vstd::prelude::*;

pub mod ratio;
pub mod quantity;
pub mod kind;
pub mod units;
pub mod laws;
pub mod vector;
pub mod text;
pub mod catalog;
pub mod labels;
pub mod time;

pub use labels::{Days, Tons, TonsPerDay};
pub use quantity::{New, Product, Quantity, Quotient, Root, Scalar, Scalar3, Sqrt, Squared, Wrapper};
pub use ratio::Ratio;
pub use time::TimeFloat;
pub use units::{
    Acceleration, Amount, Angle, AngularSpeed, Area, AreaInv, CreditRate, CreditRatePerPerson,
    Credits, CreditsPerMeter, CreditsPerPerson, Duration, DurationSquared, Energy,
    EnergyPerAmount, EnergyPerTemperature, FluxDensity, Force, Frequency, GasConstant, Length,
    LengthInv, Mass, MassPerPerson, MassRate, MassRatePerPerson, MolecularMass, Population,
    PopulationDensity, Power, Pressure, PressurePerAmount, PressurePerAmountTemperature,
    PressurePerTemperature, Price, PricePerMeter, Speed, Temperature, Volume, VolumePerAmount,
    VolumePerAmountTemperature, VolumePerTemperature,
};
pub use vector::{Direction, Distance, Polar, Position, Spherical, Vector2, Vector3};

verus! {

} // verus!
