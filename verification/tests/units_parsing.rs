use steam_engineering_toolbox::conversion::{
    parse_area_unit, parse_conductivity_unit, parse_energy_unit, parse_heat_transfer_unit,
    parse_length_unit, parse_mass_unit, parse_pressure_unit, parse_specific_enthalpy_unit,
    parse_temperature_diff_unit, parse_temperature_unit, parse_velocity_unit,
    parse_viscosity_unit, parse_volume_unit, ConversionError,
};
use steam_engineering_toolbox::quantity::{map_quantity, QuantityKind};
use steam_engineering_toolbox::units::{
    AreaUnit, ConductivityUnit, EnergyUnit, HeatTransferUnit, LengthUnit, MassUnit, PressureUnit,
    SpecificEnthalpyUnit, TemperatureDiffUnit, TemperatureUnit, VelocityUnit, ViscosityUnit,
    VolumeUnit,
};

#[test]
fn temperature_codes_parse_case_insensitively() {
    assert_eq!(parse_temperature_unit("K").unwrap(), TemperatureUnit::Kelvin);
    assert_eq!(parse_temperature_unit("kelvin").unwrap(), TemperatureUnit::Kelvin);
    assert_eq!(parse_temperature_unit("c").unwrap(), TemperatureUnit::Celsius);
    assert_eq!(parse_temperature_unit("Celsius").unwrap(), TemperatureUnit::Celsius);
    assert_eq!(parse_temperature_unit("°C").unwrap(), TemperatureUnit::Celsius);
    assert_eq!(parse_temperature_unit("F").unwrap(), TemperatureUnit::Fahrenheit);
    assert_eq!(parse_temperature_unit("RANKINE").unwrap(), TemperatureUnit::Rankine);
}

#[test]
fn temperature_diff_codes_parse() {
    assert_eq!(parse_temperature_diff_unit("K").unwrap(), TemperatureDiffUnit::Kelvin);
    assert_eq!(parse_temperature_diff_unit("°f").unwrap(), TemperatureDiffUnit::Fahrenheit);
    assert!(parse_temperature_diff_unit("nope").is_err());
}

#[test]
fn pressure_codes_parse() {
    assert_eq!(parse_pressure_unit("bar").unwrap(), PressureUnit::Bar);
    assert_eq!(parse_pressure_unit("BarA").unwrap(), PressureUnit::BarA);
    assert_eq!(parse_pressure_unit("mbar").unwrap(), PressureUnit::MilliBar);
    assert_eq!(parse_pressure_unit("millibar").unwrap(), PressureUnit::MilliBar);
    assert_eq!(parse_pressure_unit("Pa").unwrap(), PressureUnit::Pascal);
    assert_eq!(parse_pressure_unit("kPa").unwrap(), PressureUnit::KiloPascal);
    assert_eq!(parse_pressure_unit("MPA").unwrap(), PressureUnit::MegaPascal);
    assert_eq!(parse_pressure_unit("kg/cm2").unwrap(), PressureUnit::KgPerCm2);
    assert_eq!(parse_pressure_unit("kgf/cm2").unwrap(), PressureUnit::KgPerCm2);
    assert_eq!(parse_pressure_unit("psi").unwrap(), PressureUnit::Psi);
    assert_eq!(parse_pressure_unit("atm").unwrap(), PressureUnit::Atm);
    assert_eq!(parse_pressure_unit("mmHg").unwrap(), PressureUnit::MmHg);
    assert_eq!(parse_pressure_unit("Torr").unwrap(), PressureUnit::MmHg);
}

#[test]
fn unknown_unit_error_carries_the_input() {
    match parse_pressure_unit("furlong") {
        Err(ConversionError::UnknownUnit(s)) => assert_eq!(s, "furlong"),
        other => panic!("expected UnknownUnit, got {other:?}"),
    }
    match parse_length_unit("Lightyear") {
        Err(ConversionError::UnknownUnit(s)) => assert_eq!(s, "Lightyear"),
        other => panic!("expected UnknownUnit, got {other:?}"),
    }
}

#[test]
fn length_codes_parse() {
    assert_eq!(parse_length_unit("m").unwrap(), LengthUnit::Meter);
    assert_eq!(parse_length_unit("metre").unwrap(), LengthUnit::Meter);
    assert_eq!(parse_length_unit("MM").unwrap(), LengthUnit::Millimeter);
    assert_eq!(parse_length_unit("cm").unwrap(), LengthUnit::Centimeter);
    assert_eq!(parse_length_unit("km").unwrap(), LengthUnit::Kilometer);
    assert_eq!(parse_length_unit("inch").unwrap(), LengthUnit::Inch);
    assert_eq!(parse_length_unit("ft").unwrap(), LengthUnit::Foot);
    assert_eq!(parse_length_unit("yard").unwrap(), LengthUnit::Yard);
}

#[test]
fn area_and_volume_codes_parse() {
    assert_eq!(parse_area_unit("m2").unwrap(), AreaUnit::SquareMeter);
    assert_eq!(parse_area_unit("ft^2").unwrap(), AreaUnit::SquareFoot);
    assert_eq!(parse_area_unit("sqft").unwrap(), AreaUnit::SquareFoot);
    assert_eq!(parse_volume_unit("m3").unwrap(), VolumeUnit::CubicMeter);
    assert_eq!(parse_volume_unit("L").unwrap(), VolumeUnit::Liter);
    assert_eq!(parse_volume_unit("ml").unwrap(), VolumeUnit::Milliliter);
    assert_eq!(parse_volume_unit("cuft").unwrap(), VolumeUnit::CubicFoot);
}

#[test]
fn velocity_mass_viscosity_codes_parse() {
    assert_eq!(parse_velocity_unit("m/s").unwrap(), VelocityUnit::MeterPerSecond);
    assert_eq!(parse_velocity_unit("FPS").unwrap(), VelocityUnit::FootPerSecond);
    assert_eq!(parse_velocity_unit("km/h").unwrap(), VelocityUnit::KilometerPerHour);
    assert_eq!(parse_mass_unit("kg").unwrap(), MassUnit::Kilogram);
    assert_eq!(parse_mass_unit("lbs").unwrap(), MassUnit::Pound);
    assert_eq!(parse_viscosity_unit("Pa·s").unwrap(), ViscosityUnit::PascalSecond);
    assert_eq!(parse_viscosity_unit("pa.s").unwrap(), ViscosityUnit::PascalSecond);
    assert_eq!(parse_viscosity_unit("cP").unwrap(), ViscosityUnit::Centipoise);
}

#[test]
fn energy_and_heat_codes_parse() {
    assert_eq!(parse_energy_unit("J").unwrap(), EnergyUnit::Joule);
    assert_eq!(parse_energy_unit("kJ").unwrap(), EnergyUnit::Kilojoule);
    assert_eq!(parse_energy_unit("kcal").unwrap(), EnergyUnit::KiloCalorie);
    assert_eq!(parse_energy_unit("BTU").unwrap(), EnergyUnit::Btu);
    assert_eq!(parse_heat_transfer_unit("W/m2K").unwrap(), HeatTransferUnit::WPerSquareMeterK);
    assert_eq!(
        parse_heat_transfer_unit("btu/h-ft2-f").unwrap(),
        HeatTransferUnit::BtuPerHourSquareFootF
    );
    assert_eq!(parse_conductivity_unit("w/mk").unwrap(), ConductivityUnit::WPerMeterK);
    assert_eq!(
        parse_conductivity_unit("btu/(h·ft·f)").unwrap(),
        ConductivityUnit::BtuPerHourFootF
    );
    assert_eq!(parse_specific_enthalpy_unit("kJ/kg").unwrap(), SpecificEnthalpyUnit::KjPerKg);
    assert_eq!(parse_specific_enthalpy_unit("kcal/kg").unwrap(), SpecificEnthalpyUnit::KcalPerKg);
    assert_eq!(parse_specific_enthalpy_unit("Btu/lbm").unwrap(), SpecificEnthalpyUnit::BtuPerPound);
}

#[test]
fn quantity_numbers_map_one_to_thirteen() {
    assert_eq!(map_quantity(1), Some(QuantityKind::Temperature));
    assert_eq!(map_quantity(2), Some(QuantityKind::TemperatureDifference));
    assert_eq!(map_quantity(3), Some(QuantityKind::Pressure));
    assert_eq!(map_quantity(4), Some(QuantityKind::Length));
    assert_eq!(map_quantity(5), Some(QuantityKind::Area));
    assert_eq!(map_quantity(6), Some(QuantityKind::Volume));
    assert_eq!(map_quantity(7), Some(QuantityKind::Velocity));
    assert_eq!(map_quantity(8), Some(QuantityKind::Mass));
    assert_eq!(map_quantity(9), Some(QuantityKind::Viscosity));
    assert_eq!(map_quantity(10), Some(QuantityKind::Energy));
    assert_eq!(map_quantity(11), Some(QuantityKind::HeatTransferCoeff));
    assert_eq!(map_quantity(12), Some(QuantityKind::ThermalConductivity));
    assert_eq!(map_quantity(13), Some(QuantityKind::SpecificEnthalpy));
    assert_eq!(map_quantity(0), None);
    assert_eq!(map_quantity(14), None);
}
