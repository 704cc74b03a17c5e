//! Measurement units handled by the toolbox.
//!
//! Every unit is a plain tag; the numeric conversion factors live with the
//! floating-point calculators outside the verified library.  `PressureUnit`
//! carries the one cross-cutting convention of the toolbox: the internal
//! pressure reference is bar, `BarA`/`Atm` are absolute scales, and `MmHg` is
//! read as a gauge scale where 0 is the atmosphere and -760 mmHg is full
//! vacuum.

use vstd::prelude::*;

verus! {

/// Gauge/absolute tag attached to a pressure value.
#[derive(Debug, Clone, Copy, PartialEq, Eq, Structural)]
pub enum PressureKind {
    Gauge,
    Absolute,
}

/// Pressure units accepted at the interface boundary.
#[derive(Debug, Clone, Copy, PartialEq, Eq, Structural)]
pub enum PressureUnit {
    Bar,
    BarA,
    MilliBar,
    Pascal,
    KiloPascal,
    MegaPascal,
    KgPerCm2,
    Psi,
    Atm,
    MmHg,
}

/// Absolute temperature units.
#[derive(Debug, Clone, Copy, PartialEq, Eq, Structural)]
pub enum TemperatureUnit {
    Kelvin,
    Celsius,
    Fahrenheit,
    Rankine,
}

/// Temperature-difference units (scale only, no offset).
#[derive(Debug, Clone, Copy, PartialEq, Eq, Structural)]
pub enum TemperatureDiffUnit {
    Kelvin,
    Celsius,
    Fahrenheit,
    Rankine,
}

/// Length units.
#[derive(Debug, Clone, Copy, PartialEq, Eq, Structural)]
pub enum LengthUnit {
    Meter,
    Millimeter,
    Centimeter,
    Kilometer,
    Inch,
    Foot,
    Yard,
}

/// Area units.
#[derive(Debug, Clone, Copy, PartialEq, Eq, Structural)]
pub enum AreaUnit {
    SquareMeter,
    SquareFoot,
}

/// Volume units.
#[derive(Debug, Clone, Copy, PartialEq, Eq, Structural)]
pub enum VolumeUnit {
    CubicMeter,
    Liter,
    Milliliter,
    CubicFoot,
}

/// Velocity units.
#[derive(Debug, Clone, Copy, PartialEq, Eq, Structural)]
pub enum VelocityUnit {
    MeterPerSecond,
    FootPerSecond,
    KilometerPerHour,
}

/// Mass units.
#[derive(Debug, Clone, Copy, PartialEq, Eq, Structural)]
pub enum MassUnit {
    Kilogram,
    Gram,
    Pound,
}

/// Dynamic-viscosity units.
#[derive(Debug, Clone, Copy, PartialEq, Eq, Structural)]
pub enum ViscosityUnit {
    PascalSecond,
    Centipoise,
}

/// Energy units.
#[derive(Debug, Clone, Copy, PartialEq, Eq, Structural)]
pub enum EnergyUnit {
    Joule,
    Kilojoule,
    KiloCalorie,
    Btu,
}

/// Heat-transfer-coefficient units.
#[derive(Debug, Clone, Copy, PartialEq, Eq, Structural)]
pub enum HeatTransferUnit {
    WPerSquareMeterK,
    BtuPerHourSquareFootF,
}

/// Thermal-conductivity units.
#[derive(Debug, Clone, Copy, PartialEq, Eq, Structural)]
pub enum ConductivityUnit {
    WPerMeterK,
    BtuPerHourFootF,
}

/// Specific-enthalpy units.
#[derive(Debug, Clone, Copy, PartialEq, Eq, Structural)]
pub enum SpecificEnthalpyUnit {
    KjPerKg,
    KcalPerKg,
    BtuPerPound,
}

} // verus!
