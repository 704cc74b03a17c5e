use steam_engineering_toolbox::catalog::{
    default_units_for_kind, fill_template, kind_label, parse_pressure_unit_gui,
    pressure_unit_options, quantity_options, temperature_unit_options, unit_label, unit_options,
};
use steam_engineering_toolbox::config::{Config, DefaultUnits, UnitSystem};
use steam_engineering_toolbox::menu::{
    menu_choice_from_input, pressure_unit_from_input, split_diameter_input,
    temperature_unit_from_input, unit_system_from_input, MenuChoice,
};
use steam_engineering_toolbox::quantity::QuantityKind;
use steam_engineering_toolbox::text::{ends_with, replace, starts_with, str_eq, to_lowercase, trim};
use steam_engineering_toolbox::units::{LengthUnit, PressureUnit, TemperatureUnit};

#[test]
fn lowercase_folds_ascii_only() {
    assert_eq!(to_lowercase("BarA"), "bara");
    assert_eq!(to_lowercase("°C"), "°c");
    assert_eq!(to_lowercase("Pa·S"), "pa·s");
    assert_eq!(to_lowercase(""), "");
}

#[test]
fn trim_strips_ascii_whitespace() {
    assert_eq!(trim("  bar \t\r\n"), "bar");
    assert_eq!(trim("bar"), "bar");
    assert_eq!(trim(" \t "), "");
    assert_eq!(trim(""), "");
}

#[test]
fn string_predicates_work() {
    assert!(str_eq("abc", "abc"));
    assert!(!str_eq("abc", "abd"));
    assert!(!str_eq("abc", "ab"));
    assert!(starts_with("en-us", "en"));
    assert!(!starts_with("e", "en"));
    assert!(ends_with("100mm", "mm"));
    assert!(!ends_with("m", "mm"));
}

#[test]
fn replace_scans_left_to_right() {
    assert_eq!(replace("abcabc", "bc", "X"), "aXaX");
    assert_eq!(replace("aaa", "aa", "b"), "ba");
    assert_eq!(replace("hello", "xyz", "!"), "hello");
    assert_eq!(replace("hello", "", "!"), "hello");
}

#[test]
fn fill_template_substitutes_named_placeholders() {
    let vars = vec![
        ("p".to_string(), "3.5".to_string()),
        ("unit".to_string(), "bar".to_string()),
    ];
    assert_eq!(fill_template("P = {p} {unit} ({p})", &vars), "P = 3.5 bar (3.5)");
    assert_eq!(fill_template("no placeholders", &vars), "no placeholders");
    assert_eq!(fill_template("{other} stays", &vars), "{other} stays");
}

#[test]
fn default_config_is_si_bar() {
    let cfg = Config::default();
    assert_eq!(cfg.unit_system, UnitSystem::SIBar);
    let du = DefaultUnits::default();
    assert_eq!(du.temperature, TemperatureUnit::Celsius);
    assert_eq!(du.pressure, PressureUnit::Bar);
    assert_eq!(du.length, LengthUnit::Meter);
    assert_eq!(cfg.default_units, du);
}

#[test]
fn menu_choices_follow_the_numbering() {
    assert_eq!(menu_choice_from_input("1"), Some(MenuChoice::UnitConversion));
    assert_eq!(menu_choice_from_input(" 2\n"), Some(MenuChoice::SteamTables));
    assert_eq!(menu_choice_from_input("3"), Some(MenuChoice::SteamPiping));
    assert_eq!(menu_choice_from_input("4"), Some(MenuChoice::SteamValves));
    assert_eq!(menu_choice_from_input("5"), Some(MenuChoice::Settings));
    assert_eq!(menu_choice_from_input("0"), Some(MenuChoice::Exit));
    assert_eq!(menu_choice_from_input("9"), None);
    assert_eq!(menu_choice_from_input(""), None);
}

#[test]
fn unit_system_selection_follows_the_numbering() {
    assert_eq!(unit_system_from_input("1"), Some(UnitSystem::SIBar));
    assert_eq!(unit_system_from_input("2"), Some(UnitSystem::SI));
    assert_eq!(unit_system_from_input("3"), Some(UnitSystem::MKS));
    assert_eq!(unit_system_from_input("4"), Some(UnitSystem::Imperial));
    assert_eq!(unit_system_from_input("5"), None);
    assert_eq!(unit_system_from_input(" "), None);
}

#[test]
fn numbered_unit_prompts_fall_back_to_defaults() {
    assert_eq!(pressure_unit_from_input("1"), PressureUnit::Bar);
    assert_eq!(pressure_unit_from_input("2"), PressureUnit::KiloPascal);
    assert_eq!(pressure_unit_from_input("3"), PressureUnit::MegaPascal);
    assert_eq!(pressure_unit_from_input("4"), PressureUnit::Psi);
    assert_eq!(pressure_unit_from_input("5"), PressureUnit::Atm);
    assert_eq!(pressure_unit_from_input("x"), PressureUnit::Bar);
    assert_eq!(temperature_unit_from_input("1"), TemperatureUnit::Celsius);
    assert_eq!(temperature_unit_from_input("2"), TemperatureUnit::Kelvin);
    assert_eq!(temperature_unit_from_input("3"), TemperatureUnit::Fahrenheit);
    assert_eq!(temperature_unit_from_input("4"), TemperatureUnit::Rankine);
    assert_eq!(temperature_unit_from_input("junk"), TemperatureUnit::Celsius);
}

#[test]
fn diameter_entries_split_into_number_and_unit() {
    assert_eq!(
        split_diameter_input("100mm"),
        Some(("100".to_string(), LengthUnit::Millimeter))
    );
    assert_eq!(split_diameter_input("2 in"), Some(("2".to_string(), LengthUnit::Inch)));
    assert_eq!(split_diameter_input("4\""), Some(("4".to_string(), LengthUnit::Inch)));
    assert_eq!(split_diameter_input("0.1m"), Some(("0.1".to_string(), LengthUnit::Meter)));
    assert_eq!(split_diameter_input(" 25 "), Some(("25".to_string(), LengthUnit::Millimeter)));
    assert_eq!(split_diameter_input("50 MM"), Some(("50".to_string(), LengthUnit::Millimeter)));
    assert_eq!(split_diameter_input("   "), None);
}

#[test]
fn quantity_catalog_lists_all_thirteen() {
    let opts = quantity_options();
    assert_eq!(opts.len(), 13);
    assert_eq!(opts[0], (QuantityKind::Temperature, "온도"));
    assert_eq!(opts[12], (QuantityKind::SpecificEnthalpy, "비엔탈피"));
    for (kind, label) in &opts {
        assert_eq!(kind_label(*kind), *label);
    }
}

#[test]
fn default_unit_codes_match_the_catalog() {
    assert_eq!(default_units_for_kind(QuantityKind::Temperature), ("C", "K"));
    assert_eq!(default_units_for_kind(QuantityKind::Pressure), ("bar", "kPa"));
    assert_eq!(default_units_for_kind(QuantityKind::SpecificEnthalpy), ("kJ/kg", "kcal/kg"));
}

#[test]
fn unit_option_lists_have_the_expected_entries() {
    let t = unit_options(QuantityKind::Temperature);
    assert_eq!(t[0], ("Celsius (°C)", "C"));
    assert_eq!(t.len(), 4);
    let p = unit_options(QuantityKind::Pressure);
    assert_eq!(p.len(), 8);
    assert_eq!(p[1], ("bar(a)", "bara"));
    assert_eq!(pressure_unit_options(), p);
    let tt = temperature_unit_options();
    assert_eq!(tt[0], ("°C", "C"));
}

#[test]
fn unit_labels_resolve_case_insensitively() {
    assert_eq!(unit_label("bara", QuantityKind::Pressure), "bar(a)");
    assert_eq!(unit_label("BARA", QuantityKind::Pressure), "bar(a)");
    assert_eq!(unit_label("kPa", QuantityKind::Pressure), "kPa");
    assert_eq!(unit_label("unknown", QuantityKind::Pressure), "unknown");
}

#[test]
fn gui_pressure_codes_fall_back_to_bar() {
    assert_eq!(parse_pressure_unit_gui("bar"), PressureUnit::Bar);
    assert_eq!(parse_pressure_unit_gui("bar(a)"), PressureUnit::BarA);
    assert_eq!(parse_pressure_unit_gui("BARA"), PressureUnit::BarA);
    assert_eq!(parse_pressure_unit_gui("kpa"), PressureUnit::KiloPascal);
    assert_eq!(parse_pressure_unit_gui("Pa"), PressureUnit::Pascal);
    assert_eq!(parse_pressure_unit_gui("mmhg"), PressureUnit::MmHg);
    assert_eq!(parse_pressure_unit_gui("weird"), PressureUnit::Bar);
}
