//! Decisions behind the interactive menus: which entry a line of user input
//! selects.  The prompt/read loops themselves live with the I/O layer; they
//! hand the raw line to these functions.

use vstd::prelude::*;

use crate::config::UnitSystem;
use crate::text::{ends_with, lower, str_eq, to_lowercase, trim, trim_spec};
use crate::units::{LengthUnit, PressureUnit, TemperatureUnit};

verus! {

/// An entry of the main menu.
#[derive(Debug, Clone, Copy, PartialEq, Eq, Structural)]
pub enum MenuChoice {
    UnitConversion,
    SteamTables,
    SteamPiping,
    SteamValves,
    Settings,
    Exit,
}

/// The main menu's numbering, over trimmed input.
pub open spec fn menu_choice_spec(t: Seq<char>) -> Option<MenuChoice> {
    if t == "1"@ {
        Some(MenuChoice::UnitConversion)
    } else if t == "2"@ {
        Some(MenuChoice::SteamTables)
    } else if t == "3"@ {
        Some(MenuChoice::SteamPiping)
    } else if t == "4"@ {
        Some(MenuChoice::SteamValves)
    } else if t == "5"@ {
        Some(MenuChoice::Settings)
    } else if t == "0"@ {
        Some(MenuChoice::Exit)
    } else {
        None
    }
}

/// Which main-menu entry the input line selects, if any.
pub fn menu_choice_from_input(s: &str) -> (r: Option<MenuChoice>)
    ensures
        r == menu_choice_spec(trim_spec(s@)),
{
    let t = trim(s);
    if str_eq(t, "1") {
        Some(MenuChoice::UnitConversion)
    } else if str_eq(t, "2") {
        Some(MenuChoice::SteamTables)
    } else if str_eq(t, "3") {
        Some(MenuChoice::SteamPiping)
    } else if str_eq(t, "4") {
        Some(MenuChoice::SteamValves)
    } else if str_eq(t, "5") {
        Some(MenuChoice::Settings)
    } else if str_eq(t, "0") {
        Some(MenuChoice::Exit)
    } else {
        None
    }
}

/// The settings menu's numbering of the unit-system presets, over trimmed
/// input.
pub open spec fn unit_system_choice_spec(t: Seq<char>) -> Option<UnitSystem> {
    if t == "1"@ {
        Some(UnitSystem::SIBar)
    } else if t == "2"@ {
        Some(UnitSystem::SI)
    } else if t == "3"@ {
        Some(UnitSystem::MKS)
    } else if t == "4"@ {
        Some(UnitSystem::Imperial)
    } else {
        None
    }
}

/// Which unit-system preset the input line selects, if any.
pub fn unit_system_from_input(s: &str) -> (r: Option<UnitSystem>)
    ensures
        r == unit_system_choice_spec(trim_spec(s@)),
{
    let t = trim(s);
    if str_eq(t, "1") {
        Some(UnitSystem::SIBar)
    } else if str_eq(t, "2") {
        Some(UnitSystem::SI)
    } else if str_eq(t, "3") {
        Some(UnitSystem::MKS)
    } else if str_eq(t, "4") {
        Some(UnitSystem::Imperial)
    } else {
        None
    }
}

/// The steam-tables prompt's numbering of the pressure units; anything else
/// falls back to bar.
pub open spec fn pressure_unit_choice_spec(t: Seq<char>) -> PressureUnit {
    if t == "1"@ {
        PressureUnit::Bar
    } else if t == "2"@ {
        PressureUnit::KiloPascal
    } else if t == "3"@ {
        PressureUnit::MegaPascal
    } else if t == "4"@ {
        PressureUnit::Psi
    } else if t == "5"@ {
        PressureUnit::Atm
    } else {
        PressureUnit::Bar
    }
}

/// Which pressure unit the numbered prompt selects.
pub fn pressure_unit_from_input(s: &str) -> (r: PressureUnit)
    ensures
        r == pressure_unit_choice_spec(trim_spec(s@)),
{
    let t = trim(s);
    if str_eq(t, "1") {
        PressureUnit::Bar
    } else if str_eq(t, "2") {
        PressureUnit::KiloPascal
    } else if str_eq(t, "3") {
        PressureUnit::MegaPascal
    } else if str_eq(t, "4") {
        PressureUnit::Psi
    } else if str_eq(t, "5") {
        PressureUnit::Atm
    } else {
        PressureUnit::Bar
    }
}

/// The steam-tables prompt's numbering of the temperature units; anything
/// else falls back to Celsius.
pub open spec fn temperature_unit_choice_spec(t: Seq<char>) -> TemperatureUnit {
    if t == "1"@ {
        TemperatureUnit::Celsius
    } else if t == "2"@ {
        TemperatureUnit::Kelvin
    } else if t == "3"@ {
        TemperatureUnit::Fahrenheit
    } else if t == "4"@ {
        TemperatureUnit::Rankine
    } else {
        TemperatureUnit::Celsius
    }
}

/// Which temperature unit the numbered prompt selects.
pub fn temperature_unit_from_input(s: &str) -> (r: TemperatureUnit)
    ensures
        r == temperature_unit_choice_spec(trim_spec(s@)),
{
    let t = trim(s);
    if str_eq(t, "1") {
        TemperatureUnit::Celsius
    } else if str_eq(t, "2") {
        TemperatureUnit::Kelvin
    } else if str_eq(t, "3") {
        TemperatureUnit::Fahrenheit
    } else if str_eq(t, "4") {
        TemperatureUnit::Rankine
    } else {
        TemperatureUnit::Celsius
    }
}

/// Whether the folded input ends in the given suffix.
pub open spec fn has_suffix(l: Seq<char>, p: Seq<char>) -> bool {
    l.len() >= p.len() && l.skip(l.len() - p.len()) == p
}

/// How a diameter entry splits into its numeric text and its length unit:
/// an `mm`, `in`, `"` or `m` suffix names the unit, a bare number is read
/// as millimetres, and a blank entry is rejected.  The numeric text is
/// trimmed; parsing it is the caller's task.
pub open spec fn split_diameter_spec(s: Seq<char>) -> Option<(Seq<char>, LengthUnit)> {
    let t = trim_spec(s);
    let l = lower(t);
    if t.len() == 0 {
        None
    } else if has_suffix(l, "mm"@) {
        Some((trim_spec(t.take(t.len() - 2)), LengthUnit::Millimeter))
    } else if has_suffix(l, "in"@) {
        Some((trim_spec(t.take(t.len() - 2)), LengthUnit::Inch))
    } else if t[t.len() - 1] == '"' {
        Some((trim_spec(t.take(t.len() - 1)), LengthUnit::Inch))
    } else if has_suffix(l, "m"@) {
        Some((trim_spec(t.take(t.len() - 1)), LengthUnit::Meter))
    } else {
        Some((t, LengthUnit::Millimeter))
    }
}

/// Splits a diameter entry such as `100mm`, `4"` or `0.1 m` into its
/// numeric text and its length unit.
pub fn split_diameter_input(s: &str) -> (r: Option<(String, LengthUnit)>)
    ensures
        match r {
            Some(p) => split_diameter_spec(s@) == Some((p.0@, p.1)),
            None => split_diameter_spec(s@) is None,
        },
{
    let t = trim(s);
    let low = to_lowercase(t);
    let l = low.as_str();
    let n = t.unicode_len();
    proof {
        reveal_strlit("mm");
        reveal_strlit("in");
        reveal_strlit("m");
    }
    if n == 0 {
        None
    } else if ends_with(l, "mm") {
        let num = t.substring_char(0, n - 2);
        proof {
            assert(num@ =~= t@.take(t@.len() - 2));
        }
        Some((trim(num).to_owned(), LengthUnit::Millimeter))
    } else if ends_with(l, "in") {
        let num = t.substring_char(0, n - 2);
        proof {
            assert(num@ =~= t@.take(t@.len() - 2));
        }
        Some((trim(num).to_owned(), LengthUnit::Inch))
    } else if t.get_char(n - 1) == '"' {
        let num = t.substring_char(0, n - 1);
        proof {
            assert(num@ =~= t@.take(t@.len() - 1));
        }
        Some((trim(num).to_owned(), LengthUnit::Inch))
    } else if ends_with(l, "m") {
        let num = t.substring_char(0, n - 1);
        proof {
            assert(num@ =~= t@.take(t@.len() - 1));
        }
        Some((trim(num).to_owned(), LengthUnit::Meter))
    } else {
        Some((t.to_owned(), LengthUnit::Millimeter))
    }
}

} // verus!
