//! The option catalogues an interactive front end draws from: quantity and
//! unit choice lists, display labels, default unit pairs, and the template
//! filler for result strings.

use vstd::prelude::*;

use crate::quantity::QuantityKind;
use crate::text::{lower, pairs_view, push_char, replace, replace_spec, str_eq, to_lowercase};
use crate::units::PressureUnit;

verus! {

/// The view of a vector of label/code pairs.
pub open spec fn str_pairs_view(v: Seq<(&'static str, &'static str)>) -> Seq<
    (Seq<char>, Seq<char>),
> {
    v.map_values(|p: (&'static str, &'static str)| (p.0@, p.1@))
}

/// The converter's quantity list with its display labels.
pub open spec fn quantity_options_spec() -> Seq<(QuantityKind, Seq<char>)> {
    seq![
        (QuantityKind::Temperature, "온도"@),
        (QuantityKind::TemperatureDifference, "온도차"@),
        (QuantityKind::Pressure, "압력"@),
        (QuantityKind::Length, "길이"@),
        (QuantityKind::Area, "면적"@),
        (QuantityKind::Volume, "체적"@),
        (QuantityKind::Velocity, "속도"@),
        (QuantityKind::Mass, "질량"@),
        (QuantityKind::Viscosity, "점도"@),
        (QuantityKind::Energy, "에너지"@),
        (QuantityKind::HeatTransferCoeff, "열전달율"@),
        (QuantityKind::ThermalConductivity, "열전도율"@),
        (QuantityKind::SpecificEnthalpy, "비엔탈피"@),
    ]
}

/// The view of a vector of quantity/label pairs.
pub open spec fn quantity_pairs_view(v: Seq<(QuantityKind, &'static str)>) -> Seq<
    (QuantityKind, Seq<char>),
> {
    v.map_values(|p: (QuantityKind, &'static str)| (p.0, p.1@))
}

/// The quantities offered by the converter, each with its display label.
pub fn quantity_options() -> (r: Vec<(QuantityKind, &'static str)>)
    ensures
        quantity_pairs_view(r@) == quantity_options_spec(),
{
    let opts: Vec<(QuantityKind, &'static str)> = vec![
        (QuantityKind::Temperature, "온도"),
        (QuantityKind::TemperatureDifference, "온도차"),
        (QuantityKind::Pressure, "압력"),
        (QuantityKind::Length, "길이"),
        (QuantityKind::Area, "면적"),
        (QuantityKind::Volume, "체적"),
        (QuantityKind::Velocity, "속도"),
        (QuantityKind::Mass, "질량"),
        (QuantityKind::Viscosity, "점도"),
        (QuantityKind::Energy, "에너지"),
        (QuantityKind::HeatTransferCoeff, "열전달율"),
        (QuantityKind::ThermalConductivity, "열전도율"),
        (QuantityKind::SpecificEnthalpy, "비엔탈피"),
    ];
    proof {
        assert(quantity_pairs_view(opts@) =~= quantity_options_spec());
    }
    opts
}

/// The display label of a quantity.
pub open spec fn kind_label_spec(kind: QuantityKind) -> Seq<char> {
    match kind {
        QuantityKind::Temperature => "온도"@,
        QuantityKind::TemperatureDifference => "온도차"@,
        QuantityKind::Pressure => "압력"@,
        QuantityKind::Length => "길이"@,
        QuantityKind::Area => "면적"@,
        QuantityKind::Volume => "체적"@,
        QuantityKind::Velocity => "속도"@,
        QuantityKind::Mass => "질량"@,
        QuantityKind::Viscosity => "점도"@,
        QuantityKind::Energy => "에너지"@,
        QuantityKind::HeatTransferCoeff => "열전달율"@,
        QuantityKind::ThermalConductivity => "열전도율"@,
        QuantityKind::SpecificEnthalpy => "비엔탈피"@,
    }
}

/// The display label of a quantity.
pub fn kind_label(kind: QuantityKind) -> (r: &'static str)
    ensures
        r@ == kind_label_spec(kind),
{
    match kind {
        QuantityKind::Temperature => "온도",
        QuantityKind::TemperatureDifference => "온도차",
        QuantityKind::Pressure => "압력",
        QuantityKind::Length => "길이",
        QuantityKind::Area => "면적",
        QuantityKind::Volume => "체적",
        QuantityKind::Velocity => "속도",
        QuantityKind::Mass => "질량",
        QuantityKind::Viscosity => "점도",
        QuantityKind::Energy => "에너지",
        QuantityKind::HeatTransferCoeff => "열전달율",
        QuantityKind::ThermalConductivity => "열전도율",
        QuantityKind::SpecificEnthalpy => "비엔탈피",
    }
}

/// The default from/to unit codes of a quantity in the converter.
pub open spec fn default_unit_codes_spec(kind: QuantityKind) -> (Seq<char>, Seq<char>) {
    match kind {
        QuantityKind::Temperature => ("C"@, "K"@),
        QuantityKind::TemperatureDifference => ("C"@, "K"@),
        QuantityKind::Pressure => ("bar"@, "kPa"@),
        QuantityKind::Length => ("m"@, "ft"@),
        QuantityKind::Area => ("m2"@, "ft2"@),
        QuantityKind::Volume => ("m3"@, "l"@),
        QuantityKind::Velocity => ("m/s"@, "km/h"@),
        QuantityKind::Mass => ("kg"@, "lb"@),
        QuantityKind::Viscosity => ("Pa·s"@, "cps"@),
        QuantityKind::Energy => ("J"@, "kJ"@),
        QuantityKind::HeatTransferCoeff => ("W/m2K"@, "Btu/h-ft2-F"@),
        QuantityKind::ThermalConductivity => ("W/mK"@, "Btu/h-ft-F"@),
        QuantityKind::SpecificEnthalpy => ("kJ/kg"@, "kcal/kg"@),
    }
}

/// The default from/to unit codes of a quantity in the converter.
pub fn default_units_for_kind(kind: QuantityKind) -> (r: (&'static str, &'static str))
    ensures
        (r.0@, r.1@) == default_unit_codes_spec(kind),
{
    match kind {
        QuantityKind::Temperature => ("C", "K"),
        QuantityKind::TemperatureDifference => ("C", "K"),
        QuantityKind::Pressure => ("bar", "kPa"),
        QuantityKind::Length => ("m", "ft"),
        QuantityKind::Area => ("m2", "ft2"),
        QuantityKind::Volume => ("m3", "l"),
        QuantityKind::Velocity => ("m/s", "km/h"),
        QuantityKind::Mass => ("kg", "lb"),
        QuantityKind::Viscosity => ("Pa·s", "cps"),
        QuantityKind::Energy => ("J", "kJ"),
        QuantityKind::HeatTransferCoeff => ("W/m2K", "Btu/h-ft2-F"),
        QuantityKind::ThermalConductivity => ("W/mK", "Btu/h-ft-F"),
        QuantityKind::SpecificEnthalpy => ("kJ/kg", "kcal/kg"),
    }
}

/// The label/code pairs offered for a quantity.
pub open spec fn unit_options_spec(kind: QuantityKind) -> Seq<(Seq<char>, Seq<char>)> {
    match kind {
        QuantityKind::Temperature => seq![("Celsius (°C)"@, "C"@), ("Kelvin (K)"@, "K"@), ("Fahrenheit (°F)"@, "F"@), ("Rankine (R)"@, "R"@)],
        QuantityKind::TemperatureDifference => seq![("Δ°C"@, "C"@), ("ΔK"@, "K"@), ("Δ°F"@, "F"@), ("ΔR"@, "R"@)],
        QuantityKind::Pressure => seq![("bar(g)"@, "bar"@), ("bar(a)"@, "bara"@), ("kPa"@, "kPa"@), ("MPa"@, "MPa"@), ("psi"@, "psi"@), ("atm"@, "atm"@), ("Pa"@, "Pa"@), ("mmHg"@, "mmHg"@)],
        QuantityKind::Length => seq![("m"@, "m"@), ("mm"@, "mm"@), ("cm"@, "cm"@), ("inch"@, "in"@), ("ft"@, "ft"@), ("yd"@, "yd"@), ("km"@, "km"@)],
        QuantityKind::Area => seq![("m²"@, "m2"@), ("ft²"@, "ft2"@)],
        QuantityKind::Volume => seq![("m³"@, "m3"@), ("L"@, "l"@), ("mL"@, "ml"@), ("ft³"@, "ft3"@)],
        QuantityKind::Velocity => seq![("m/s"@, "m/s"@), ("km/h"@, "km/h"@), ("ft/s"@, "ft/s"@)],
        QuantityKind::Mass => seq![("kg"@, "kg"@), ("g"@, "g"@), ("lb"@, "lb"@)],
        QuantityKind::Viscosity => seq![("Pa·s"@, "Pa·s"@), ("cP"@, "cps"@)],
        QuantityKind::Energy => seq![("J"@, "J"@), ("kJ"@, "kJ"@), ("kcal"@, "kcal"@), ("Btu"@, "Btu"@)],
        QuantityKind::HeatTransferCoeff => seq![("W/m²·K"@, "W/m2K"@), ("Btu/(h·ft²·F)"@, "Btu/h-ft2-F"@)],
        QuantityKind::ThermalConductivity => seq![("W/m·K"@, "W/mK"@), ("Btu/(h·ft·F)"@, "Btu/h-ft-F"@)],
        QuantityKind::SpecificEnthalpy => seq![("kJ/kg"@, "kJ/kg"@), ("kcal/kg"@, "kcal/kg"@), ("Btu/lb"@, "Btu/lb"@)],
    }
}

/// The label/code pairs offered for a quantity.
pub fn unit_options(kind: QuantityKind) -> (r: Vec<(&'static str, &'static str)>)
    ensures
        str_pairs_view(r@) == unit_options_spec(kind),
{
    let opts: Vec<(&'static str, &'static str)> = match kind {
        QuantityKind::Temperature => vec![("Celsius (°C)", "C"), ("Kelvin (K)", "K"), ("Fahrenheit (°F)", "F"), ("Rankine (R)", "R")],
        QuantityKind::TemperatureDifference => vec![("Δ°C", "C"), ("ΔK", "K"), ("Δ°F", "F"), ("ΔR", "R")],
        QuantityKind::Pressure => vec![("bar(g)", "bar"), ("bar(a)", "bara"), ("kPa", "kPa"), ("MPa", "MPa"), ("psi", "psi"), ("atm", "atm"), ("Pa", "Pa"), ("mmHg", "mmHg")],
        QuantityKind::Length => vec![("m", "m"), ("mm", "mm"), ("cm", "cm"), ("inch", "in"), ("ft", "ft"), ("yd", "yd"), ("km", "km")],
        QuantityKind::Area => vec![("m²", "m2"), ("ft²", "ft2")],
        QuantityKind::Volume => vec![("m³", "m3"), ("L", "l"), ("mL", "ml"), ("ft³", "ft3")],
        QuantityKind::Velocity => vec![("m/s", "m/s"), ("km/h", "km/h"), ("ft/s", "ft/s")],
        QuantityKind::Mass => vec![("kg", "kg"), ("g", "g"), ("lb", "lb")],
        QuantityKind::Viscosity => vec![("Pa·s", "Pa·s"), ("cP", "cps")],
        QuantityKind::Energy => vec![("J", "J"), ("kJ", "kJ"), ("kcal", "kcal"), ("Btu", "Btu")],
        QuantityKind::HeatTransferCoeff => vec![("W/m²·K", "W/m2K"), ("Btu/(h·ft²·F)", "Btu/h-ft2-F")],
        QuantityKind::ThermalConductivity => vec![("W/m·K", "W/mK"), ("Btu/(h·ft·F)", "Btu/h-ft-F")],
        QuantityKind::SpecificEnthalpy => vec![("kJ/kg", "kJ/kg"), ("kcal/kg", "kcal/kg"), ("Btu/lb", "Btu/lb")],
    };
    proof {
        assert(str_pairs_view(opts@) =~= unit_options_spec(kind));
    }
    opts
}

/// The pressure unit choices of the steam panels.
pub open spec fn pressure_unit_options_spec() -> Seq<(Seq<char>, Seq<char>)> {
    seq![
        ("bar(g)"@, "bar"@),
        ("bar(a)"@, "bara"@),
        ("kPa"@, "kPa"@),
        ("MPa"@, "MPa"@),
        ("psi"@, "psi"@),
        ("atm"@, "atm"@),
        ("Pa"@, "Pa"@),
        ("mmHg"@, "mmHg"@),
    ]
}

/// The pressure unit choices of the steam panels.
pub fn pressure_unit_options() -> (r: Vec<(&'static str, &'static str)>)
    ensures
        str_pairs_view(r@) == pressure_unit_options_spec(),
{
    let opts: Vec<(&'static str, &'static str)> = vec![
        ("bar(g)", "bar"),
        ("bar(a)", "bara"),
        ("kPa", "kPa"),
        ("MPa", "MPa"),
        ("psi", "psi"),
        ("atm", "atm"),
        ("Pa", "Pa"),
        ("mmHg", "mmHg"),
    ];
    proof {
        assert(str_pairs_view(opts@) =~= pressure_unit_options_spec());
    }
    opts
}

/// The temperature unit choices of the steam panels.
pub open spec fn temperature_unit_options_spec() -> Seq<(Seq<char>, Seq<char>)> {
    seq![("°C"@, "C"@), ("K"@, "K"@), ("°F"@, "F"@), ("R"@, "R"@)]
}

/// The temperature unit choices of the steam panels.
pub fn temperature_unit_options() -> (r: Vec<(&'static str, &'static str)>)
    ensures
        str_pairs_view(r@) == temperature_unit_options_spec(),
{
    let opts: Vec<(&'static str, &'static str)> = vec![
        ("°C", "C"),
        ("K", "K"),
        ("°F", "F"),
        ("R", "R"),
    ];
    proof {
        assert(str_pairs_view(opts@) =~= temperature_unit_options_spec());
    }
    opts
}

/// The first label whose code matches `code` case-insensitively.
pub open spec fn label_for(opts: Seq<(Seq<char>, Seq<char>)>, code: Seq<char>) -> Option<Seq<char>>
    decreases opts.len(),
{
    if opts.len() == 0 {
        None
    } else if lower(opts[0].1) == lower(code) {
        Some(opts[0].0)
    } else {
        label_for(opts.drop_first(), code)
    }
}

/// The display label of a unit code: its entry in the quantity's option
/// list, or the code itself where the list has none.
pub open spec fn unit_label_spec(code: Seq<char>, kind: QuantityKind) -> Seq<char> {
    match label_for(unit_options_spec(kind), code) {
        Some(l) => l,
        None => code,
    }
}

/// The display label of a unit code within a quantity's option list.
pub fn unit_label(code: &str, kind: QuantityKind) -> (r: String)
    ensures
        r@ == unit_label_spec(code@, kind),
{
    let opts = unit_options(kind);
    let ghost os = str_pairs_view(opts@);
    let n = opts.len();
    let mut i: usize = 0;
    proof {
        assert(os.skip(0) =~= os);
    }
    while i < n
        invariant
            n == opts@.len(),
            i <= n,
            os == str_pairs_view(opts@),
            os == unit_options_spec(kind),
            label_for(os, code@) == label_for(os.skip(i as int), code@),
        decreases n - i,
    {
        let p = opts[i];
        let pl = to_lowercase(p.1);
        let cl = to_lowercase(code);
        proof {
            assert(os[i as int] == (opts@[i as int].0@, opts@[i as int].1@));
            assert(os.skip(i as int)[0] == os[i as int]);
        }
        if str_eq(pl.as_str(), cl.as_str()) {
            proof {
                assert(os.skip(i as int).len() > 0);
                assert(lower(os.skip(i as int)[0].1) == lower(code@));
                assert(label_for(os.skip(i as int), code@) == Some(os[i as int].0));
            }
            return p.0.to_owned();
        }
        proof {
            assert(os.skip(i as int).drop_first() =~= os.skip(i + 1));
        }
        i = i + 1;
    }
    proof {
        assert(os.skip(n as int) =~= Seq::<(Seq<char>, Seq<char>)>::empty());
    }
    code.to_owned()
}

/// The pressure unit a panel's code selects, over folded input; unknown
/// codes fall back to bar.
pub open spec fn pressure_unit_gui_spec(l: Seq<char>) -> PressureUnit {
    if l == "bar"@ {
        PressureUnit::Bar
    } else if l == "bara"@ || l == "bar(a)"@ {
        PressureUnit::BarA
    } else if l == "kpa"@ {
        PressureUnit::KiloPascal
    } else if l == "mpa"@ {
        PressureUnit::MegaPascal
    } else if l == "psi"@ {
        PressureUnit::Psi
    } else if l == "atm"@ {
        PressureUnit::Atm
    } else if l == "pa"@ {
        PressureUnit::Pascal
    } else if l == "mmhg"@ {
        PressureUnit::MmHg
    } else {
        PressureUnit::Bar
    }
}

/// Parses a panel's pressure unit code, case-insensitively; unknown codes
/// fall back to bar.
pub fn parse_pressure_unit_gui(s: &str) -> (r: PressureUnit)
    ensures
        r == pressure_unit_gui_spec(lower(s@)),
{
    let low = to_lowercase(s);
    let c = low.as_str();
    if str_eq(c, "bar") {
        PressureUnit::Bar
    } else if str_eq(c, "bara") || str_eq(c, "bar(a)") {
        PressureUnit::BarA
    } else if str_eq(c, "kpa") {
        PressureUnit::KiloPascal
    } else if str_eq(c, "mpa") {
        PressureUnit::MegaPascal
    } else if str_eq(c, "psi") {
        PressureUnit::Psi
    } else if str_eq(c, "atm") {
        PressureUnit::Atm
    } else if str_eq(c, "pa") {
        PressureUnit::Pascal
    } else if str_eq(c, "mmhg") {
        PressureUnit::MmHg
    } else {
        PressureUnit::Bar
    }
}

/// A placeholder: the variable name in braces.
pub open spec fn brace_key(k: Seq<char>) -> Seq<char> {
    seq!['{'] + k + seq!['}']
}

/// The template with each variable's placeholder replaced by its value, in
/// order.
pub open spec fn fill_spec(t: Seq<char>, vars: Seq<(Seq<char>, Seq<char>)>) -> Seq<char>
    decreases vars.len(),
{
    if vars.len() == 0 {
        t
    } else {
        fill_spec(replace_spec(t, brace_key(vars[0].0), vars[0].1), vars.drop_first())
    }
}

/// Fills a result template: each `{name}` placeholder is replaced by the
/// value paired with `name`, in the order the pairs are given.
pub fn fill_template(template: &str, vars: &Vec<(String, String)>) -> (r: String)
    ensures
        r@ == fill_spec(template@, pairs_view(vars@)),
{
    let ghost vs = pairs_view(vars@);
    let mut out: String = template.to_owned();
    let n = vars.len();
    let mut i: usize = 0;
    proof {
        assert(vs.skip(0) =~= vs);
    }
    while i < n
        invariant
            n == vars@.len(),
            i <= n,
            vs == pairs_view(vars@),
            fill_spec(template@, vs) == fill_spec(out@, vs.skip(i as int)),
        decreases n - i,
    {
        let p = &vars[i];
        let mut pat: String = String::new();
        push_char(&mut pat, '{');
        pat.append(p.0.as_str());
        push_char(&mut pat, '}');
        proof {
            assert(vs[i as int] == (vars@[i as int].0@, vars@[i as int].1@));
            assert(pat@ =~= brace_key(vs[i as int].0));
            assert(vs.skip(i as int)[0] == vs[i as int]);
            assert(vs.skip(i as int).drop_first() =~= vs.skip(i + 1));
        }
        out = replace(out.as_str(), pat.as_str(), p.1.as_str());
        i = i + 1;
    }
    proof {
        assert(vs.skip(n as int) =~= Seq::<(Seq<char>, Seq<char>)>::empty());
    }
    out
}

} // verus!
