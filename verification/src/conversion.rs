//! Unit-code parsing for the unit converter.
//!
//! Each `parse_*` function lowercases its argument (ASCII folding) and maps
//! the recognised unit codes to the matching unit tag; every other string is
//! rejected with `ConversionError::UnknownUnit` carrying the original input.
//! The `*_code_spec` functions are the authoritative tables: a parser returns
//! `Ok(u)` exactly when its table maps the folded input to `u`.

use vstd::prelude::*;

use crate::text::{lower, str_eq, to_lowercase};
use crate::units::{
    AreaUnit, ConductivityUnit, EnergyUnit, HeatTransferUnit, LengthUnit, MassUnit, PressureUnit,
    SpecificEnthalpyUnit, TemperatureDiffUnit, TemperatureUnit, VelocityUnit, ViscosityUnit,
    VolumeUnit,
};

verus! {

/// Failure of the string-to-unit mapping.
#[derive(Debug)]
pub enum ConversionError {
    /// The unit code is not recognised for the requested quantity.
    UnknownUnit(String),
    /// The requested quantity has no conversion table.
    UnsupportedQuantity(&'static str),
}

/// Gauge/absolute mode of a pressure value at the interface boundary.
#[derive(Debug, Clone, Copy, PartialEq, Eq, Structural)]
pub enum PressureMode {
    Gauge,
    Absolute,
}

/// The unit-code table for `TemperatureUnit`, over folded (lowercase) input.
pub open spec fn temperature_unit_code_spec(l: Seq<char>) -> Option<TemperatureUnit> {
    if l == "k"@ || l == "kelvin"@ {
        Some(TemperatureUnit::Kelvin)
    } else if l == "c"@ || l == "celsius"@ || l == "°c"@ {
        Some(TemperatureUnit::Celsius)
    } else if l == "f"@ || l == "fahrenheit"@ || l == "°f"@ {
        Some(TemperatureUnit::Fahrenheit)
    } else if l == "r"@ || l == "rankine"@ {
        Some(TemperatureUnit::Rankine)
    } else {
        None
    }
}

/// Parses a temperature unit code, case-insensitively.
pub fn parse_temperature_unit(s: &str) -> (r: Result<TemperatureUnit, ConversionError>)
    ensures
        match r {
            Ok(u) => temperature_unit_code_spec(lower(s@)) == Some(u),
            Err(e) => temperature_unit_code_spec(lower(s@)) is None && (e matches ConversionError::UnknownUnit(w) && w@ == s@),
        },
{
    let l = to_lowercase(s);
    let c = l.as_str();
    if str_eq(c, "k") || str_eq(c, "kelvin") {
        Ok(TemperatureUnit::Kelvin)
    } else if str_eq(c, "c") || str_eq(c, "celsius") || str_eq(c, "°c") {
        Ok(TemperatureUnit::Celsius)
    } else if str_eq(c, "f") || str_eq(c, "fahrenheit") || str_eq(c, "°f") {
        Ok(TemperatureUnit::Fahrenheit)
    } else if str_eq(c, "r") || str_eq(c, "rankine") {
        Ok(TemperatureUnit::Rankine)
    } else {
        Err(ConversionError::UnknownUnit(s.to_owned()))
    }
}

/// The unit-code table for `TemperatureDiffUnit`, over folded (lowercase) input.
pub open spec fn temperature_diff_unit_code_spec(l: Seq<char>) -> Option<TemperatureDiffUnit> {
    if l == "k"@ || l == "kelvin"@ {
        Some(TemperatureDiffUnit::Kelvin)
    } else if l == "c"@ || l == "celsius"@ || l == "°c"@ {
        Some(TemperatureDiffUnit::Celsius)
    } else if l == "f"@ || l == "fahrenheit"@ || l == "°f"@ {
        Some(TemperatureDiffUnit::Fahrenheit)
    } else if l == "r"@ || l == "rankine"@ {
        Some(TemperatureDiffUnit::Rankine)
    } else {
        None
    }
}

/// Parses a temperature diff unit code, case-insensitively.
pub fn parse_temperature_diff_unit(s: &str) -> (r: Result<TemperatureDiffUnit, ConversionError>)
    ensures
        match r {
            Ok(u) => temperature_diff_unit_code_spec(lower(s@)) == Some(u),
            Err(e) => temperature_diff_unit_code_spec(lower(s@)) is None && (e matches ConversionError::UnknownUnit(w) && w@ == s@),
        },
{
    let l = to_lowercase(s);
    let c = l.as_str();
    if str_eq(c, "k") || str_eq(c, "kelvin") {
        Ok(TemperatureDiffUnit::Kelvin)
    } else if str_eq(c, "c") || str_eq(c, "celsius") || str_eq(c, "°c") {
        Ok(TemperatureDiffUnit::Celsius)
    } else if str_eq(c, "f") || str_eq(c, "fahrenheit") || str_eq(c, "°f") {
        Ok(TemperatureDiffUnit::Fahrenheit)
    } else if str_eq(c, "r") || str_eq(c, "rankine") {
        Ok(TemperatureDiffUnit::Rankine)
    } else {
        Err(ConversionError::UnknownUnit(s.to_owned()))
    }
}

/// The unit-code table for `PressureUnit`, over folded (lowercase) input.
pub open spec fn pressure_unit_code_spec(l: Seq<char>) -> Option<PressureUnit> {
    if l == "bar"@ {
        Some(PressureUnit::Bar)
    } else if l == "bara"@ {
        Some(PressureUnit::BarA)
    } else if l == "mbar"@ || l == "millibar"@ {
        Some(PressureUnit::MilliBar)
    } else if l == "pa"@ || l == "pascal"@ {
        Some(PressureUnit::Pascal)
    } else if l == "kpa"@ || l == "kilopascal"@ {
        Some(PressureUnit::KiloPascal)
    } else if l == "mpa"@ || l == "megapascal"@ {
        Some(PressureUnit::MegaPascal)
    } else if l == "kg/cm2"@ || l == "kgf/cm2"@ {
        Some(PressureUnit::KgPerCm2)
    } else if l == "psi"@ {
        Some(PressureUnit::Psi)
    } else if l == "atm"@ {
        Some(PressureUnit::Atm)
    } else if l == "mmhg"@ || l == "torr"@ {
        Some(PressureUnit::MmHg)
    } else {
        None
    }
}

/// Parses a pressure unit code, case-insensitively.
pub fn parse_pressure_unit(s: &str) -> (r: Result<PressureUnit, ConversionError>)
    ensures
        match r {
            Ok(u) => pressure_unit_code_spec(lower(s@)) == Some(u),
            Err(e) => pressure_unit_code_spec(lower(s@)) is None && (e matches ConversionError::UnknownUnit(w) && w@ == s@),
        },
{
    let l = to_lowercase(s);
    let c = l.as_str();
    if str_eq(c, "bar") {
        Ok(PressureUnit::Bar)
    } else if str_eq(c, "bara") {
        Ok(PressureUnit::BarA)
    } else if str_eq(c, "mbar") || str_eq(c, "millibar") {
        Ok(PressureUnit::MilliBar)
    } else if str_eq(c, "pa") || str_eq(c, "pascal") {
        Ok(PressureUnit::Pascal)
    } else if str_eq(c, "kpa") || str_eq(c, "kilopascal") {
        Ok(PressureUnit::KiloPascal)
    } else if str_eq(c, "mpa") || str_eq(c, "megapascal") {
        Ok(PressureUnit::MegaPascal)
    } else if str_eq(c, "kg/cm2") || str_eq(c, "kgf/cm2") {
        Ok(PressureUnit::KgPerCm2)
    } else if str_eq(c, "psi") {
        Ok(PressureUnit::Psi)
    } else if str_eq(c, "atm") {
        Ok(PressureUnit::Atm)
    } else if str_eq(c, "mmhg") || str_eq(c, "torr") {
        Ok(PressureUnit::MmHg)
    } else {
        Err(ConversionError::UnknownUnit(s.to_owned()))
    }
}

/// The unit-code table for `LengthUnit`, over folded (lowercase) input.
pub open spec fn length_unit_code_spec(l: Seq<char>) -> Option<LengthUnit> {
    if l == "m"@ || l == "meter"@ || l == "metre"@ {
        Some(LengthUnit::Meter)
    } else if l == "mm"@ {
        Some(LengthUnit::Millimeter)
    } else if l == "cm"@ {
        Some(LengthUnit::Centimeter)
    } else if l == "km"@ {
        Some(LengthUnit::Kilometer)
    } else if l == "in"@ || l == "inch"@ {
        Some(LengthUnit::Inch)
    } else if l == "ft"@ || l == "foot"@ {
        Some(LengthUnit::Foot)
    } else if l == "yd"@ || l == "yard"@ {
        Some(LengthUnit::Yard)
    } else {
        None
    }
}

/// Parses a length unit code, case-insensitively.
pub fn parse_length_unit(s: &str) -> (r: Result<LengthUnit, ConversionError>)
    ensures
        match r {
            Ok(u) => length_unit_code_spec(lower(s@)) == Some(u),
            Err(e) => length_unit_code_spec(lower(s@)) is None && (e matches ConversionError::UnknownUnit(w) && w@ == s@),
        },
{
    let l = to_lowercase(s);
    let c = l.as_str();
    if str_eq(c, "m") || str_eq(c, "meter") || str_eq(c, "metre") {
        Ok(LengthUnit::Meter)
    } else if str_eq(c, "mm") {
        Ok(LengthUnit::Millimeter)
    } else if str_eq(c, "cm") {
        Ok(LengthUnit::Centimeter)
    } else if str_eq(c, "km") {
        Ok(LengthUnit::Kilometer)
    } else if str_eq(c, "in") || str_eq(c, "inch") {
        Ok(LengthUnit::Inch)
    } else if str_eq(c, "ft") || str_eq(c, "foot") {
        Ok(LengthUnit::Foot)
    } else if str_eq(c, "yd") || str_eq(c, "yard") {
        Ok(LengthUnit::Yard)
    } else {
        Err(ConversionError::UnknownUnit(s.to_owned()))
    }
}

/// The unit-code table for `AreaUnit`, over folded (lowercase) input.
pub open spec fn area_unit_code_spec(l: Seq<char>) -> Option<AreaUnit> {
    if l == "m2"@ || l == "m^2"@ || l == "sqm"@ {
        Some(AreaUnit::SquareMeter)
    } else if l == "ft2"@ || l == "ft^2"@ || l == "sqft"@ {
        Some(AreaUnit::SquareFoot)
    } else {
        None
    }
}

/// Parses a area unit code, case-insensitively.
pub fn parse_area_unit(s: &str) -> (r: Result<AreaUnit, ConversionError>)
    ensures
        match r {
            Ok(u) => area_unit_code_spec(lower(s@)) == Some(u),
            Err(e) => area_unit_code_spec(lower(s@)) is None && (e matches ConversionError::UnknownUnit(w) && w@ == s@),
        },
{
    let l = to_lowercase(s);
    let c = l.as_str();
    if str_eq(c, "m2") || str_eq(c, "m^2") || str_eq(c, "sqm") {
        Ok(AreaUnit::SquareMeter)
    } else if str_eq(c, "ft2") || str_eq(c, "ft^2") || str_eq(c, "sqft") {
        Ok(AreaUnit::SquareFoot)
    } else {
        Err(ConversionError::UnknownUnit(s.to_owned()))
    }
}

/// The unit-code table for `VolumeUnit`, over folded (lowercase) input.
pub open spec fn volume_unit_code_spec(l: Seq<char>) -> Option<VolumeUnit> {
    if l == "m3"@ || l == "m^3"@ {
        Some(VolumeUnit::CubicMeter)
    } else if l == "l"@ || l == "liter"@ || l == "litre"@ {
        Some(VolumeUnit::Liter)
    } else if l == "ml"@ || l == "milliliter"@ {
        Some(VolumeUnit::Milliliter)
    } else if l == "ft3"@ || l == "ft^3"@ || l == "cuft"@ {
        Some(VolumeUnit::CubicFoot)
    } else {
        None
    }
}

/// Parses a volume unit code, case-insensitively.
pub fn parse_volume_unit(s: &str) -> (r: Result<VolumeUnit, ConversionError>)
    ensures
        match r {
            Ok(u) => volume_unit_code_spec(lower(s@)) == Some(u),
            Err(e) => volume_unit_code_spec(lower(s@)) is None && (e matches ConversionError::UnknownUnit(w) && w@ == s@),
        },
{
    let l = to_lowercase(s);
    let c = l.as_str();
    if str_eq(c, "m3") || str_eq(c, "m^3") {
        Ok(VolumeUnit::CubicMeter)
    } else if str_eq(c, "l") || str_eq(c, "liter") || str_eq(c, "litre") {
        Ok(VolumeUnit::Liter)
    } else if str_eq(c, "ml") || str_eq(c, "milliliter") {
        Ok(VolumeUnit::Milliliter)
    } else if str_eq(c, "ft3") || str_eq(c, "ft^3") || str_eq(c, "cuft") {
        Ok(VolumeUnit::CubicFoot)
    } else {
        Err(ConversionError::UnknownUnit(s.to_owned()))
    }
}

/// The unit-code table for `VelocityUnit`, over folded (lowercase) input.
pub open spec fn velocity_unit_code_spec(l: Seq<char>) -> Option<VelocityUnit> {
    if l == "m/s"@ || l == "mps"@ {
        Some(VelocityUnit::MeterPerSecond)
    } else if l == "ft/s"@ || l == "fps"@ {
        Some(VelocityUnit::FootPerSecond)
    } else if l == "km/h"@ || l == "kph"@ {
        Some(VelocityUnit::KilometerPerHour)
    } else {
        None
    }
}

/// Parses a velocity unit code, case-insensitively.
pub fn parse_velocity_unit(s: &str) -> (r: Result<VelocityUnit, ConversionError>)
    ensures
        match r {
            Ok(u) => velocity_unit_code_spec(lower(s@)) == Some(u),
            Err(e) => velocity_unit_code_spec(lower(s@)) is None && (e matches ConversionError::UnknownUnit(w) && w@ == s@),
        },
{
    let l = to_lowercase(s);
    let c = l.as_str();
    if str_eq(c, "m/s") || str_eq(c, "mps") {
        Ok(VelocityUnit::MeterPerSecond)
    } else if str_eq(c, "ft/s") || str_eq(c, "fps") {
        Ok(VelocityUnit::FootPerSecond)
    } else if str_eq(c, "km/h") || str_eq(c, "kph") {
        Ok(VelocityUnit::KilometerPerHour)
    } else {
        Err(ConversionError::UnknownUnit(s.to_owned()))
    }
}

/// The unit-code table for `MassUnit`, over folded (lowercase) input.
pub open spec fn mass_unit_code_spec(l: Seq<char>) -> Option<MassUnit> {
    if l == "kg"@ {
        Some(MassUnit::Kilogram)
    } else if l == "g"@ {
        Some(MassUnit::Gram)
    } else if l == "lb"@ || l == "lbs"@ || l == "lbm"@ {
        Some(MassUnit::Pound)
    } else {
        None
    }
}

/// Parses a mass unit code, case-insensitively.
pub fn parse_mass_unit(s: &str) -> (r: Result<MassUnit, ConversionError>)
    ensures
        match r {
            Ok(u) => mass_unit_code_spec(lower(s@)) == Some(u),
            Err(e) => mass_unit_code_spec(lower(s@)) is None && (e matches ConversionError::UnknownUnit(w) && w@ == s@),
        },
{
    let l = to_lowercase(s);
    let c = l.as_str();
    if str_eq(c, "kg") {
        Ok(MassUnit::Kilogram)
    } else if str_eq(c, "g") {
        Ok(MassUnit::Gram)
    } else if str_eq(c, "lb") || str_eq(c, "lbs") || str_eq(c, "lbm") {
        Ok(MassUnit::Pound)
    } else {
        Err(ConversionError::UnknownUnit(s.to_owned()))
    }
}

/// The unit-code table for `ViscosityUnit`, over folded (lowercase) input.
pub open spec fn viscosity_unit_code_spec(l: Seq<char>) -> Option<ViscosityUnit> {
    if l == "pa·s"@ || l == "pa.s"@ || l == "pas"@ {
        Some(ViscosityUnit::PascalSecond)
    } else if l == "cps"@ || l == "cp"@ {
        Some(ViscosityUnit::Centipoise)
    } else {
        None
    }
}

/// Parses a viscosity unit code, case-insensitively.
pub fn parse_viscosity_unit(s: &str) -> (r: Result<ViscosityUnit, ConversionError>)
    ensures
        match r {
            Ok(u) => viscosity_unit_code_spec(lower(s@)) == Some(u),
            Err(e) => viscosity_unit_code_spec(lower(s@)) is None && (e matches ConversionError::UnknownUnit(w) && w@ == s@),
        },
{
    let l = to_lowercase(s);
    let c = l.as_str();
    if str_eq(c, "pa·s") || str_eq(c, "pa.s") || str_eq(c, "pas") {
        Ok(ViscosityUnit::PascalSecond)
    } else if str_eq(c, "cps") || str_eq(c, "cp") {
        Ok(ViscosityUnit::Centipoise)
    } else {
        Err(ConversionError::UnknownUnit(s.to_owned()))
    }
}

/// The unit-code table for `EnergyUnit`, over folded (lowercase) input.
pub open spec fn energy_unit_code_spec(l: Seq<char>) -> Option<EnergyUnit> {
    if l == "j"@ || l == "joule"@ {
        Some(EnergyUnit::Joule)
    } else if l == "kj"@ || l == "kilojoule"@ {
        Some(EnergyUnit::Kilojoule)
    } else if l == "kcal"@ || l == "kilocalorie"@ {
        Some(EnergyUnit::KiloCalorie)
    } else if l == "btu"@ {
        Some(EnergyUnit::Btu)
    } else {
        None
    }
}

/// Parses a energy unit code, case-insensitively.
pub fn parse_energy_unit(s: &str) -> (r: Result<EnergyUnit, ConversionError>)
    ensures
        match r {
            Ok(u) => energy_unit_code_spec(lower(s@)) == Some(u),
            Err(e) => energy_unit_code_spec(lower(s@)) is None && (e matches ConversionError::UnknownUnit(w) && w@ == s@),
        },
{
    let l = to_lowercase(s);
    let c = l.as_str();
    if str_eq(c, "j") || str_eq(c, "joule") {
        Ok(EnergyUnit::Joule)
    } else if str_eq(c, "kj") || str_eq(c, "kilojoule") {
        Ok(EnergyUnit::Kilojoule)
    } else if str_eq(c, "kcal") || str_eq(c, "kilocalorie") {
        Ok(EnergyUnit::KiloCalorie)
    } else if str_eq(c, "btu") {
        Ok(EnergyUnit::Btu)
    } else {
        Err(ConversionError::UnknownUnit(s.to_owned()))
    }
}

/// The unit-code table for `HeatTransferUnit`, over folded (lowercase) input.
pub open spec fn heat_transfer_unit_code_spec(l: Seq<char>) -> Option<HeatTransferUnit> {
    if l == "w/m2k"@ || l == "w/m^2k"@ {
        Some(HeatTransferUnit::WPerSquareMeterK)
    } else if l == "btu/h-ft2-f"@ || l == "btu/(h·ft2·f)"@ {
        Some(HeatTransferUnit::BtuPerHourSquareFootF)
    } else {
        None
    }
}

/// Parses a heat transfer unit code, case-insensitively.
pub fn parse_heat_transfer_unit(s: &str) -> (r: Result<HeatTransferUnit, ConversionError>)
    ensures
        match r {
            Ok(u) => heat_transfer_unit_code_spec(lower(s@)) == Some(u),
            Err(e) => heat_transfer_unit_code_spec(lower(s@)) is None && (e matches ConversionError::UnknownUnit(w) && w@ == s@),
        },
{
    let l = to_lowercase(s);
    let c = l.as_str();
    if str_eq(c, "w/m2k") || str_eq(c, "w/m^2k") {
        Ok(HeatTransferUnit::WPerSquareMeterK)
    } else if str_eq(c, "btu/h-ft2-f") || str_eq(c, "btu/(h·ft2·f)") {
        Ok(HeatTransferUnit::BtuPerHourSquareFootF)
    } else {
        Err(ConversionError::UnknownUnit(s.to_owned()))
    }
}

/// The unit-code table for `ConductivityUnit`, over folded (lowercase) input.
pub open spec fn conductivity_unit_code_spec(l: Seq<char>) -> Option<ConductivityUnit> {
    if l == "w/mk"@ || l == "w/(m·k)"@ {
        Some(ConductivityUnit::WPerMeterK)
    } else if l == "btu/h-ft-f"@ || l == "btu/(h·ft·f)"@ {
        Some(ConductivityUnit::BtuPerHourFootF)
    } else {
        None
    }
}

/// Parses a conductivity unit code, case-insensitively.
pub fn parse_conductivity_unit(s: &str) -> (r: Result<ConductivityUnit, ConversionError>)
    ensures
        match r {
            Ok(u) => conductivity_unit_code_spec(lower(s@)) == Some(u),
            Err(e) => conductivity_unit_code_spec(lower(s@)) is None && (e matches ConversionError::UnknownUnit(w) && w@ == s@),
        },
{
    let l = to_lowercase(s);
    let c = l.as_str();
    if str_eq(c, "w/mk") || str_eq(c, "w/(m·k)") {
        Ok(ConductivityUnit::WPerMeterK)
    } else if str_eq(c, "btu/h-ft-f") || str_eq(c, "btu/(h·ft·f)") {
        Ok(ConductivityUnit::BtuPerHourFootF)
    } else {
        Err(ConversionError::UnknownUnit(s.to_owned()))
    }
}

/// The unit-code table for `SpecificEnthalpyUnit`, over folded (lowercase) input.
pub open spec fn specific_enthalpy_unit_code_spec(l: Seq<char>) -> Option<SpecificEnthalpyUnit> {
    if l == "kj/kg"@ {
        Some(SpecificEnthalpyUnit::KjPerKg)
    } else if l == "kcal/kg"@ {
        Some(SpecificEnthalpyUnit::KcalPerKg)
    } else if l == "btu/lb"@ || l == "btu/lbm"@ {
        Some(SpecificEnthalpyUnit::BtuPerPound)
    } else {
        None
    }
}

/// Parses a specific enthalpy unit code, case-insensitively.
pub fn parse_specific_enthalpy_unit(s: &str) -> (r: Result<SpecificEnthalpyUnit, ConversionError>)
    ensures
        match r {
            Ok(u) => specific_enthalpy_unit_code_spec(lower(s@)) == Some(u),
            Err(e) => specific_enthalpy_unit_code_spec(lower(s@)) is None && (e matches ConversionError::UnknownUnit(w) && w@ == s@),
        },
{
    let l = to_lowercase(s);
    let c = l.as_str();
    if str_eq(c, "kj/kg") {
        Ok(SpecificEnthalpyUnit::KjPerKg)
    } else if str_eq(c, "kcal/kg") {
        Ok(SpecificEnthalpyUnit::KcalPerKg)
    } else if str_eq(c, "btu/lb") || str_eq(c, "btu/lbm") {
        Ok(SpecificEnthalpyUnit::BtuPerPound)
    } else {
        Err(ConversionError::UnknownUnit(s.to_owned()))
    }
}

} // verus!
