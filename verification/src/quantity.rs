//! The physical quantities the unit converter handles.

use vstd::prelude::*;

verus! {

/// A physical quantity with its own conversion table.
#[derive(Debug, Clone, Copy, PartialEq, Eq, Structural)]
pub enum QuantityKind {
    Temperature,
    TemperatureDifference,
    Pressure,
    Length,
    Area,
    Volume,
    Velocity,
    Mass,
    Viscosity,
    Energy,
    HeatTransferCoeff,
    ThermalConductivity,
    SpecificEnthalpy,
}

/// The converter menu's numbering of the quantities (1 through 13).
pub open spec fn quantity_number_spec(n: u32) -> Option<QuantityKind> {
    if n == 1 {
        Some(QuantityKind::Temperature)
    } else if n == 2 {
        Some(QuantityKind::TemperatureDifference)
    } else if n == 3 {
        Some(QuantityKind::Pressure)
    } else if n == 4 {
        Some(QuantityKind::Length)
    } else if n == 5 {
        Some(QuantityKind::Area)
    } else if n == 6 {
        Some(QuantityKind::Volume)
    } else if n == 7 {
        Some(QuantityKind::Velocity)
    } else if n == 8 {
        Some(QuantityKind::Mass)
    } else if n == 9 {
        Some(QuantityKind::Viscosity)
    } else if n == 10 {
        Some(QuantityKind::Energy)
    } else if n == 11 {
        Some(QuantityKind::HeatTransferCoeff)
    } else if n == 12 {
        Some(QuantityKind::ThermalConductivity)
    } else if n == 13 {
        Some(QuantityKind::SpecificEnthalpy)
    } else {
        None
    }
}

/// Maps a converter menu number to its quantity.
pub fn map_quantity(n: u32) -> (r: Option<QuantityKind>)
    ensures
        r == quantity_number_spec(n),
{
    match n {
        1 => Some(QuantityKind::Temperature),
        2 => Some(QuantityKind::TemperatureDifference),
        3 => Some(QuantityKind::Pressure),
        4 => Some(QuantityKind::Length),
        5 => Some(QuantityKind::Area),
        6 => Some(QuantityKind::Volume),
        7 => Some(QuantityKind::Velocity),
        8 => Some(QuantityKind::Mass),
        9 => Some(QuantityKind::Viscosity),
        10 => Some(QuantityKind::Energy),
        11 => Some(QuantityKind::HeatTransferCoeff),
        12 => Some(QuantityKind::ThermalConductivity),
        13 => Some(QuantityKind::SpecificEnthalpy),
        _ => None,
    }
}

} // verus!
