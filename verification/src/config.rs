//! The application configuration: the active unit-system preset and the
//! default unit chosen for each quantity.  Loading and saving the
//! configuration file is the I/O layer's task; the model and its defaults
//! live here.

use vstd::prelude::*;

use crate::units::{
    AreaUnit, ConductivityUnit, EnergyUnit, HeatTransferUnit, LengthUnit, MassUnit, PressureUnit,
    SpecificEnthalpyUnit, TemperatureDiffUnit, TemperatureUnit, VelocityUnit, ViscosityUnit,
    VolumeUnit,
};

verus! {

/// The unit-system presets offered by the settings menu.
#[derive(Debug, Clone, Copy, PartialEq, Eq, Structural)]
pub enum UnitSystem {
    /// SI with bar as the pressure unit; the internal reference system.
    SIBar,
    /// SI (pascal-based).
    SI,
    /// Mixed metric (MKS).
    MKS,
    /// Imperial.
    Imperial,
}

/// The default unit for each quantity.
#[derive(Debug, Clone, Copy, PartialEq, Eq, Structural)]
pub struct DefaultUnits {
    pub temperature: TemperatureUnit,
    pub temperature_diff: TemperatureDiffUnit,
    pub pressure: PressureUnit,
    pub length: LengthUnit,
    pub area: AreaUnit,
    pub volume: VolumeUnit,
    pub velocity: VelocityUnit,
    pub mass: MassUnit,
    pub viscosity: ViscosityUnit,
    pub energy: EnergyUnit,
    pub heat_transfer: HeatTransferUnit,
    pub conductivity: ConductivityUnit,
    pub specific_enthalpy: SpecificEnthalpyUnit,
}

/// The factory default unit set: SI(Bar).
pub open spec fn default_units_spec() -> DefaultUnits {
    DefaultUnits {
        temperature: TemperatureUnit::Celsius,
        temperature_diff: TemperatureDiffUnit::Kelvin,
        pressure: PressureUnit::Bar,
        length: LengthUnit::Meter,
        area: AreaUnit::SquareMeter,
        volume: VolumeUnit::CubicMeter,
        velocity: VelocityUnit::MeterPerSecond,
        mass: MassUnit::Kilogram,
        viscosity: ViscosityUnit::PascalSecond,
        energy: EnergyUnit::Joule,
        heat_transfer: HeatTransferUnit::WPerSquareMeterK,
        conductivity: ConductivityUnit::WPerMeterK,
        specific_enthalpy: SpecificEnthalpyUnit::KjPerKg,
    }
}

impl Default for DefaultUnits {
    /// The factory default unit set.
    fn default() -> (r: Self)
        ensures
            r == default_units_spec(),
    {
        DefaultUnits {
            temperature: TemperatureUnit::Celsius,
            temperature_diff: TemperatureDiffUnit::Kelvin,
            pressure: PressureUnit::Bar,
            length: LengthUnit::Meter,
            area: AreaUnit::SquareMeter,
            volume: VolumeUnit::CubicMeter,
            velocity: VelocityUnit::MeterPerSecond,
            mass: MassUnit::Kilogram,
            viscosity: ViscosityUnit::PascalSecond,
            energy: EnergyUnit::Joule,
            heat_transfer: HeatTransferUnit::WPerSquareMeterK,
            conductivity: ConductivityUnit::WPerMeterK,
            specific_enthalpy: SpecificEnthalpyUnit::KjPerKg,
        }
    }
}

/// The persisted application settings.
#[derive(Debug, Clone, Copy, PartialEq, Eq, Structural)]
pub struct Config {
    pub unit_system: UnitSystem,
    pub default_units: DefaultUnits,
}

/// The factory default configuration.
pub open spec fn default_config_spec() -> Config {
    Config { unit_system: UnitSystem::SIBar, default_units: default_units_spec() }
}

impl Default for Config {
    /// The factory default configuration: SI(Bar) with its unit set.
    fn default() -> (r: Self)
        ensures
            r == default_config_spec(),
    {
        Config { unit_system: UnitSystem::SIBar, default_units: DefaultUnits::default() }
    }
}

} // verus!
