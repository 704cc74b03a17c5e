//! The built-in translation tables: the Korean base strings, the English
//! strings, and the construction of a language pack (key/value pairs) from
//! them.  The `*_spec` functions are the authoritative tables; the executable
//! functions return exactly what they state.

use vstd::prelude::*;

use crate::i18n::Language;
use crate::text::{lower, pairs_view, str_eq, to_lowercase};

verus! {

/// The Korean translation table.
pub open spec fn ko_spec(k: Seq<char>) -> Seq<char> {
    if k == "general.error_prefix"@ {
        "오류"@
    } else if k == "general.app_exit"@ {
        "프로그램을 종료합니다."@
    } else if k == "main_menu.title"@ {
        "\n=== Steam Engineering Toolbox ==="@
    } else if k == "main_menu.unit_conversion"@ {
        "1) 단위 변환기"@
    } else if k == "main_menu.steam_tables"@ {
        "2) Steam Tables"@
    } else if k == "main_menu.steam_piping"@ {
        "3) Steam Piping"@
    } else if k == "main_menu.steam_valves"@ {
        "4) Steam Valves & Orifices"@
    } else if k == "main_menu.settings"@ {
        "5) 설정"@
    } else if k == "main_menu.exit"@ {
        "0) 종료"@
    } else if k == "prompt.menu_select"@ {
        "메뉴 선택: "@
    } else if k == "error.invalid_selection_retry"@ {
        "잘못된 입력입니다. 다시 선택하세요."@
    } else if k == "unit_conversion.heading"@ {
        "\n-- 단위 변환 --"@
    } else if k == "unit_conversion.options_line1"@ {
        "1) 온도  2) 온도차  3) 압력  4) 길이  5) 면적  6) 체적"@
    } else if k == "unit_conversion.options_line2"@ {
        "7) 속도  8) 질량  9) 점도 10) 에너지 11) 열전달율 12) 열전도율 13) 비엔탈피"@
    } else if k == "unit_conversion.note_mmhg"@ {
        "참고: mmHg는 게이지 기준(0=대기, -760mmHg=완전진공)으로 처리됩니다."@
    } else if k == "unit_conversion.prompt_kind"@ {
        "항목 번호를 입력: "@
    } else if k == "unit_conversion.prompt_value"@ {
        "값 입력: "@
    } else if k == "unit_conversion.prompt_from_unit"@ {
        "입력 단위(ex: C, bar, m): "@
    } else if k == "unit_conversion.prompt_to_unit"@ {
        "변환 단위(ex: K, psi, ft): "@
    } else if k == "unit_conversion.result"@ {
        "변환 결과:"@
    } else if k == "unit_conversion.unsupported"@ {
        "지원하지 않는 번호입니다."@
    } else if k == "steam_tables.heading"@ {
        "\n-- Steam Tables --"@
    } else if k == "steam_tables.note"@ {
        "참고: 압력 mmHg 입력 시 0=대기, -760mmHg=완전진공으로 해석합니다."@
    } else if k == "steam_tables.options"@ {
        "1) By Pressure  2) By Temperature  3) Superheated (압력+온도)"@
    } else if k == "prompt.select"@ {
        "선택: "@
    } else if k == "prompt.pressure_value"@ {
        "압력 값: "@
    } else if k == "prompt.temperature_value"@ {
        "온도 값: "@
    } else if k == "steam_piping.heading"@ {
        "\n-- Steam Piping --"@
    } else if k == "steam_piping.option_sizing"@ {
        "1) 목표 유속 기준 사이징"@
    } else if k == "steam_piping.option_pressure_drop"@ {
        "2) 압력손실 계산"@
    } else if k == "prompt.mass_flow"@ {
        "질량 유량 [kg/h]: "@
    } else if k == "prompt.operating_pressure"@ {
        "운전 압력 값: "@
    } else if k == "prompt.operating_pressure_mode"@ {
        "운전 압력 값 (절대/게이지 선택): "@
    } else if k == "prompt.operating_temperature"@ {
        "운전 온도 값: "@
    } else if k == "prompt.target_velocity"@ {
        "허용 유속 [m/s]: "@
    } else if k == "result.recommended_id"@ {
        "추천 내경:"@
    } else if k == "result.expected_velocity"@ {
        "예상 유속:"@
    } else if k == "prompt.density_optional"@ {
        "증기 밀도 [kg/m3] (0 입력 시 IF97 기반 자동 계산): "@
    } else if k == "prompt.diameter"@ {
        "배관 내경 [mm] (in/\" 입력 가능): "@
    } else if k == "prompt.length"@ {
        "배관 길이 [m]: "@
    } else if k == "prompt.eq_length"@ {
        "등가 길이 [m] (없으면 0): "@
    } else if k == "prompt.fittings_k"@ {
        "피팅 K 합계 (없으면 0): "@
    } else if k == "prompt.roughness"@ {
        "거칠기 ε [m] (탄소강 배관 약 0.000045): "@
    } else if k == "prompt.viscosity"@ {
        "동점도 [Pa·s] (증기 기본값 1.2e-5 추천): "@
    } else if k == "prompt.sound_speed"@ {
        "음속 [m/s] (기본 450 정도): "@
    } else if k == "result.pressure_drop"@ {
        "압력손실 결과:"@
    } else if k == "steam_valves.heading"@ {
        "\n-- Steam Valves & Orifices --"@
    } else if k == "steam_valves.option_required"@ {
        "1) 필요한 Cv/Kv 계산"@
    } else if k == "steam_valves.option_flow"@ {
        "2) Cv/Kv로 가능한 유량 계산"@
    } else if k == "prompt.volumetric_flow"@ {
        "볼류메트릭 유량 [m3/h]: "@
    } else if k == "prompt.delta_p"@ {
        "차압 [bar]: "@
    } else if k == "prompt.density_generic"@ {
        "밀도 [kg/m3]: "@
    } else if k == "result.required_kv_cv"@ {
        "필요 Kv/Cv:"@
    } else if k == "prompt.input_mode_kv_cv"@ {
        "입력 단위 선택 (1=Kv, 2=Cv): "@
    } else if k == "prompt.kv_cv_value"@ {
        "Kv/Cv 값: "@
    } else if k == "prompt.upstream_pressure"@ {
        "상류 압력 [bar(a)]: "@
    } else if k == "result.possible_flow"@ {
        "가능한 유량:"@
    } else if k == "settings.heading"@ {
        "\n-- 설정 --"@
    } else if k == "settings.current_unit_system"@ {
        "현재 단위 시스템:"@
    } else if k == "settings.options"@ {
        "1) SI(Bar)  2) SI  3) MKS  4) Imperial"@
    } else if k == "settings.prompt_change"@ {
        "변경할 번호(취소하려면 엔터): "@
    } else if k == "settings.invalid"@ {
        "잘못된 입력이므로 변경하지 않습니다."@
    } else if k == "settings.saved"@ {
        "단위 시스템이 변경되었습니다:"@
    } else if k == "unit.pressure_options"@ {
        "압력 단위: 1=bar 2=kPa 3=MPa 4=psi 5=atm"@
    } else if k == "unit.temperature_options"@ {
        "온도 단위: 1=°C 2=K 3=°F 4=R"@
    } else if k == "error.invalid_number"@ {
        "숫자를 입력하세요."@
    } else if k == "state.saturation_temperature"@ {
        "포화 온도:"@
    } else if k == "state.saturation_pressure"@ {
        "포화 압력:"@
    } else if k == "state.enthalpy_volume"@ {
        "비엔탈피/비체적:"@
    } else if k == "state.superheated_enthalpy"@ {
        "과열 비엔탈피:"@
    } else if k == "help.unit_conversion"@ {
        "도움말: 물리량 번호 → 값 → 입력/변환 단위 순으로 입력 (예: bar/kPa/MPa/psi/atm/mmHg, C/K/F)."@
    } else if k == "help.steam_tables"@ {
        "도움말: 압력/온도 입력 시 단위 선택 필요. mmHg는 게이지, bar/psi/atm은 게이지/절대 선택에 따릅니다."@
    } else if k == "help.steam_piping_sizing"@ {
        "도움말: 질량유량[kg/h], 압력(게이지/절대), 온도, 허용 유속 입력. 내경 결과는 mm/in 단위로 표시됩니다."@
    } else if k == "help.steam_piping_drop"@ {
        "도움말: 밀도 0 입력 시 IF97 자동. 내경/두께 mm 또는 in 입력 가능. K 합계/등가길이는 없으면 0."@
    } else if k == "help.steam_valves_required"@ {
        "도움말: 유량[m3/h], ΔP[bar], 밀도[kg/m3] 입력 → 필요 Kv/Cv 계산."@
    } else if k == "help.steam_valves_flow"@ {
        "도움말: Kv 또는 Cv 값, ΔP[bar], 밀도[kg/m3], 상류압[bar(a)] 입력 → 가능한 유량 계산."@
    } else if k == "help.settings"@ {
        "도움말: 단위 시스템 프리셋을 선택하면 기본 단위 세트가 바뀝니다 (SIBar/SI/MKS/Imperial)."@
    } else {
        "[missing translation]"@
    }
}

/// The Korean string for a key; the base language, total over all keys.
pub fn ko(key: &str) -> (r: &'static str)
    ensures
        r@ == ko_spec(key@),
{
    if str_eq(key, "general.error_prefix") {
        "오류"
    } else if str_eq(key, "general.app_exit") {
        "프로그램을 종료합니다."
    } else if str_eq(key, "main_menu.title") {
        "\n=== Steam Engineering Toolbox ==="
    } else if str_eq(key, "main_menu.unit_conversion") {
        "1) 단위 변환기"
    } else if str_eq(key, "main_menu.steam_tables") {
        "2) Steam Tables"
    } else if str_eq(key, "main_menu.steam_piping") {
        "3) Steam Piping"
    } else if str_eq(key, "main_menu.steam_valves") {
        "4) Steam Valves & Orifices"
    } else if str_eq(key, "main_menu.settings") {
        "5) 설정"
    } else if str_eq(key, "main_menu.exit") {
        "0) 종료"
    } else if str_eq(key, "prompt.menu_select") {
        "메뉴 선택: "
    } else if str_eq(key, "error.invalid_selection_retry") {
        "잘못된 입력입니다. 다시 선택하세요."
    } else if str_eq(key, "unit_conversion.heading") {
        "\n-- 단위 변환 --"
    } else if str_eq(key, "unit_conversion.options_line1") {
        "1) 온도  2) 온도차  3) 압력  4) 길이  5) 면적  6) 체적"
    } else if str_eq(key, "unit_conversion.options_line2") {
        "7) 속도  8) 질량  9) 점도 10) 에너지 11) 열전달율 12) 열전도율 13) 비엔탈피"
    } else if str_eq(key, "unit_conversion.note_mmhg") {
        "참고: mmHg는 게이지 기준(0=대기, -760mmHg=완전진공)으로 처리됩니다."
    } else if str_eq(key, "unit_conversion.prompt_kind") {
        "항목 번호를 입력: "
    } else if str_eq(key, "unit_conversion.prompt_value") {
        "값 입력: "
    } else if str_eq(key, "unit_conversion.prompt_from_unit") {
        "입력 단위(ex: C, bar, m): "
    } else if str_eq(key, "unit_conversion.prompt_to_unit") {
        "변환 단위(ex: K, psi, ft): "
    } else if str_eq(key, "unit_conversion.result") {
        "변환 결과:"
    } else if str_eq(key, "unit_conversion.unsupported") {
        "지원하지 않는 번호입니다."
    } else if str_eq(key, "steam_tables.heading") {
        "\n-- Steam Tables --"
    } else if str_eq(key, "steam_tables.note") {
        "참고: 압력 mmHg 입력 시 0=대기, -760mmHg=완전진공으로 해석합니다."
    } else if str_eq(key, "steam_tables.options") {
        "1) By Pressure  2) By Temperature  3) Superheated (압력+온도)"
    } else if str_eq(key, "prompt.select") {
        "선택: "
    } else if str_eq(key, "prompt.pressure_value") {
        "압력 값: "
    } else if str_eq(key, "prompt.temperature_value") {
        "온도 값: "
    } else if str_eq(key, "steam_piping.heading") {
        "\n-- Steam Piping --"
    } else if str_eq(key, "steam_piping.option_sizing") {
        "1) 목표 유속 기준 사이징"
    } else if str_eq(key, "steam_piping.option_pressure_drop") {
        "2) 압력손실 계산"
    } else if str_eq(key, "prompt.mass_flow") {
        "질량 유량 [kg/h]: "
    } else if str_eq(key, "prompt.operating_pressure") {
        "운전 압력 값: "
    } else if str_eq(key, "prompt.operating_pressure_mode") {
        "운전 압력 값 (절대/게이지 선택): "
    } else if str_eq(key, "prompt.operating_temperature") {
        "운전 온도 값: "
    } else if str_eq(key, "prompt.target_velocity") {
        "허용 유속 [m/s]: "
    } else if str_eq(key, "result.recommended_id") {
        "추천 내경:"
    } else if str_eq(key, "result.expected_velocity") {
        "예상 유속:"
    } else if str_eq(key, "prompt.density_optional") {
        "증기 밀도 [kg/m3] (0 입력 시 IF97 기반 자동 계산): "
    } else if str_eq(key, "prompt.diameter") {
        "배관 내경 [mm] (in/\" 입력 가능): "
    } else if str_eq(key, "prompt.length") {
        "배관 길이 [m]: "
    } else if str_eq(key, "prompt.eq_length") {
        "등가 길이 [m] (없으면 0): "
    } else if str_eq(key, "prompt.fittings_k") {
        "피팅 K 합계 (없으면 0): "
    } else if str_eq(key, "prompt.roughness") {
        "거칠기 ε [m] (탄소강 배관 약 0.000045): "
    } else if str_eq(key, "prompt.viscosity") {
        "동점도 [Pa·s] (증기 기본값 1.2e-5 추천): "
    } else if str_eq(key, "prompt.sound_speed") {
        "음속 [m/s] (기본 450 정도): "
    } else if str_eq(key, "result.pressure_drop") {
        "압력손실 결과:"
    } else if str_eq(key, "steam_valves.heading") {
        "\n-- Steam Valves & Orifices --"
    } else if str_eq(key, "steam_valves.option_required") {
        "1) 필요한 Cv/Kv 계산"
    } else if str_eq(key, "steam_valves.option_flow") {
        "2) Cv/Kv로 가능한 유량 계산"
    } else if str_eq(key, "prompt.volumetric_flow") {
        "볼류메트릭 유량 [m3/h]: "
    } else if str_eq(key, "prompt.delta_p") {
        "차압 [bar]: "
    } else if str_eq(key, "prompt.density_generic") {
        "밀도 [kg/m3]: "
    } else if str_eq(key, "result.required_kv_cv") {
        "필요 Kv/Cv:"
    } else if str_eq(key, "prompt.input_mode_kv_cv") {
        "입력 단위 선택 (1=Kv, 2=Cv): "
    } else if str_eq(key, "prompt.kv_cv_value") {
        "Kv/Cv 값: "
    } else if str_eq(key, "prompt.upstream_pressure") {
        "상류 압력 [bar(a)]: "
    } else if str_eq(key, "result.possible_flow") {
        "가능한 유량:"
    } else if str_eq(key, "settings.heading") {
        "\n-- 설정 --"
    } else if str_eq(key, "settings.current_unit_system") {
        "현재 단위 시스템:"
    } else if str_eq(key, "settings.options") {
        "1) SI(Bar)  2) SI  3) MKS  4) Imperial"
    } else if str_eq(key, "settings.prompt_change") {
        "변경할 번호(취소하려면 엔터): "
    } else if str_eq(key, "settings.invalid") {
        "잘못된 입력이므로 변경하지 않습니다."
    } else if str_eq(key, "settings.saved") {
        "단위 시스템이 변경되었습니다:"
    } else if str_eq(key, "unit.pressure_options") {
        "압력 단위: 1=bar 2=kPa 3=MPa 4=psi 5=atm"
    } else if str_eq(key, "unit.temperature_options") {
        "온도 단위: 1=°C 2=K 3=°F 4=R"
    } else if str_eq(key, "error.invalid_number") {
        "숫자를 입력하세요."
    } else if str_eq(key, "state.saturation_temperature") {
        "포화 온도:"
    } else if str_eq(key, "state.saturation_pressure") {
        "포화 압력:"
    } else if str_eq(key, "state.enthalpy_volume") {
        "비엔탈피/비체적:"
    } else if str_eq(key, "state.superheated_enthalpy") {
        "과열 비엔탈피:"
    } else if str_eq(key, "help.unit_conversion") {
        "도움말: 물리량 번호 → 값 → 입력/변환 단위 순으로 입력 (예: bar/kPa/MPa/psi/atm/mmHg, C/K/F)."
    } else if str_eq(key, "help.steam_tables") {
        "도움말: 압력/온도 입력 시 단위 선택 필요. mmHg는 게이지, bar/psi/atm은 게이지/절대 선택에 따릅니다."
    } else if str_eq(key, "help.steam_piping_sizing") {
        "도움말: 질량유량[kg/h], 압력(게이지/절대), 온도, 허용 유속 입력. 내경 결과는 mm/in 단위로 표시됩니다."
    } else if str_eq(key, "help.steam_piping_drop") {
        "도움말: 밀도 0 입력 시 IF97 자동. 내경/두께 mm 또는 in 입력 가능. K 합계/등가길이는 없으면 0."
    } else if str_eq(key, "help.steam_valves_required") {
        "도움말: 유량[m3/h], ΔP[bar], 밀도[kg/m3] 입력 → 필요 Kv/Cv 계산."
    } else if str_eq(key, "help.steam_valves_flow") {
        "도움말: Kv 또는 Cv 값, ΔP[bar], 밀도[kg/m3], 상류압[bar(a)] 입력 → 가능한 유량 계산."
    } else if str_eq(key, "help.settings") {
        "도움말: 단위 시스템 프리셋을 선택하면 기본 단위 세트가 바뀝니다 (SIBar/SI/MKS/Imperial)."
    } else {
        "[missing translation]"
    }
}

/// The English translation table.
pub open spec fn en_spec(k: Seq<char>) -> Option<Seq<char>> {
    if k == "general.error_prefix"@ {
        Some("Error"@)
    } else if k == "general.app_exit"@ {
        Some("Exiting application."@)
    } else if k == "main_menu.title"@ {
        Some("\n=== Steam Engineering Toolbox ==="@)
    } else if k == "main_menu.unit_conversion"@ {
        Some("1) Unit Converter"@)
    } else if k == "main_menu.steam_tables"@ {
        Some("2) Steam Tables"@)
    } else if k == "main_menu.steam_piping"@ {
        Some("3) Steam Piping"@)
    } else if k == "main_menu.steam_valves"@ {
        Some("4) Steam Valves & Orifices"@)
    } else if k == "main_menu.settings"@ {
        Some("5) Settings"@)
    } else if k == "main_menu.exit"@ {
        Some("0) Exit"@)
    } else if k == "prompt.menu_select"@ {
        Some("Select menu: "@)
    } else if k == "error.invalid_selection_retry"@ {
        Some("Invalid input. Please try again."@)
    } else if k == "unit_conversion.heading"@ {
        Some("\n-- Unit Conversion --"@)
    } else if k == "unit_conversion.options_line1"@ {
        Some("1) Temperature  2) ΔTemperature  3) Pressure  4) Length  5) Area  6) Volume"@)
    } else if k == "unit_conversion.options_line2"@ {
        Some("7) Velocity  8) Mass  9) Viscosity 10) Energy 11) Heat Transfer 12) Conductivity 13) Specific Enthalpy"@)
    } else if k == "unit_conversion.note_mmhg"@ {
        Some("Note: mmHg is treated as gauge (0=atm, -760mmHg=vacuum)."@)
    } else if k == "unit_conversion.prompt_kind"@ {
        Some("Enter item number: "@)
    } else if k == "unit_conversion.prompt_value"@ {
        Some("Value: "@)
    } else if k == "unit_conversion.prompt_from_unit"@ {
        Some("From unit (ex: C, bar, m): "@)
    } else if k == "unit_conversion.prompt_to_unit"@ {
        Some("To unit (ex: K, psi, ft): "@)
    } else if k == "unit_conversion.result"@ {
        Some("Result:"@)
    } else if k == "unit_conversion.unsupported"@ {
        Some("Unsupported selection."@)
    } else if k == "steam_tables.heading"@ {
        Some("\n-- Steam Tables --"@)
    } else if k == "steam_tables.note"@ {
        Some("Note: when using mmHg, 0=atm and -760mmHg=vacuum (gauge)."@)
    } else if k == "steam_tables.options"@ {
        Some("1) By Pressure  2) By Temperature  3) Superheated (P+T)"@)
    } else if k == "prompt.select"@ {
        Some("Select: "@)
    } else if k == "prompt.pressure_value"@ {
        Some("Pressure value: "@)
    } else if k == "prompt.temperature_value"@ {
        Some("Temperature value: "@)
    } else if k == "steam_piping.heading"@ {
        Some("\n-- Steam Piping --"@)
    } else if k == "steam_piping.option_sizing"@ {
        Some("1) Size by target velocity"@)
    } else if k == "steam_piping.option_pressure_drop"@ {
        Some("2) Pressure-drop calculation"@)
    } else if k == "prompt.mass_flow"@ {
        Some("Mass flow [kg/h]: "@)
    } else if k == "prompt.operating_pressure"@ {
        Some("Operating pressure value: "@)
    } else if k == "prompt.operating_pressure_mode"@ {
        Some("Operating pressure value (abs/gauge choice): "@)
    } else if k == "prompt.operating_temperature"@ {
        Some("Operating temperature value: "@)
    } else if k == "prompt.target_velocity"@ {
        Some("Target velocity [m/s]: "@)
    } else if k == "result.recommended_id"@ {
        Some("Recommended ID:"@)
    } else if k == "result.expected_velocity"@ {
        Some("Expected velocity:"@)
    } else if k == "prompt.density_optional"@ {
        Some("Steam density [kg/m3] (0 = auto via IF97): "@)
    } else if k == "prompt.diameter"@ {
        Some("Pipe inner diameter [mm] (in/\"): "@)
    } else if k == "prompt.length"@ {
        Some("Pipe length [m]: "@)
    } else if k == "prompt.eq_length"@ {
        Some("Equivalent length [m] (0 if none): "@)
    } else if k == "prompt.fittings_k"@ {
        Some("Fittings K sum (0 if none): "@)
    } else if k == "prompt.roughness"@ {
        Some("Roughness ε [m] (carbon steel ~0.000045): "@)
    } else if k == "prompt.viscosity"@ {
        Some("Dynamic viscosity [Pa·s] (steam ~1.2e-5): "@)
    } else if k == "prompt.sound_speed"@ {
        Some("Speed of sound [m/s] (default ~450): "@)
    } else if k == "result.pressure_drop"@ {
        Some("Pressure-drop result:"@)
    } else if k == "steam_valves.heading"@ {
        Some("\n-- Steam Valves & Orifices --"@)
    } else if k == "steam_valves.option_required"@ {
        Some("1) Required Cv/Kv"@)
    } else if k == "steam_valves.option_flow"@ {
        Some("2) Flow from Cv/Kv"@)
    } else if k == "prompt.volumetric_flow"@ {
        Some("Volumetric flow [m3/h]: "@)
    } else if k == "prompt.delta_p"@ {
        Some("ΔP [bar]: "@)
    } else if k == "prompt.density_generic"@ {
        Some("Density [kg/m3]: "@)
    } else if k == "result.required_kv_cv"@ {
        Some("Required Kv/Cv:"@)
    } else if k == "prompt.input_mode_kv_cv"@ {
        Some("Input mode (1=Kv, 2=Cv): "@)
    } else if k == "prompt.kv_cv_value"@ {
        Some("Kv/Cv value: "@)
    } else if k == "prompt.upstream_pressure"@ {
        Some("Upstream pressure [bar(a)]: "@)
    } else if k == "result.possible_flow"@ {
        Some("Possible flow:"@)
    } else if k == "settings.heading"@ {
        Some("\n-- Settings --"@)
    } else if k == "settings.current_unit_system"@ {
        Some("Current unit system:"@)
    } else if k == "settings.options"@ {
        Some("1) SI(Bar)  2) SI  3) MKS  4) Imperial"@)
    } else if k == "settings.prompt_change"@ {
        Some("Enter number to change (enter to cancel): "@)
    } else if k == "settings.invalid"@ {
        Some("Invalid input; unit system unchanged."@)
    } else if k == "settings.saved"@ {
        Some("Unit system changed to:"@)
    } else if k == "unit.pressure_options"@ {
        Some("Pressure units: 1=bar 2=kPa 3=MPa 4=psi 5=atm"@)
    } else if k == "unit.temperature_options"@ {
        Some("Temperature units: 1=°C 2=K 3=°F 4=R"@)
    } else if k == "error.invalid_number"@ {
        Some("Please enter a number."@)
    } else if k == "state.saturation_temperature"@ {
        Some("Saturation temperature:"@)
    } else if k == "state.saturation_pressure"@ {
        Some("Saturation pressure:"@)
    } else if k == "state.enthalpy_volume"@ {
        Some("Enthalpy/volume:"@)
    } else if k == "state.superheated_enthalpy"@ {
        Some("Superheated enthalpy:"@)
    } else if k == "help.unit_conversion"@ {
        Some("Help: choose quantity → enter value → from/to units (bar/kPa/MPa/psi/atm/mmHg, C/K/F, etc)."@)
    } else if k == "help.steam_tables"@ {
        Some("Help: select unit for pressure/temperature. mmHg is gauge; bar/psi/atm follow your abs/gauge selection."@)
    } else if k == "help.steam_piping_sizing"@ {
        Some("Help: mass flow [kg/h], pressure (abs/gauge), temperature, target velocity. ID result shows mm and inches."@)
    } else if k == "help.steam_piping_drop"@ {
        Some("Help: density 0 => auto IF97. Diameter accepts mm or inch. K-sum/equivalent length can be 0 if none."@)
    } else if k == "help.steam_valves_required"@ {
        Some("Help: flow [m3/h], ΔP [bar], density [kg/m3] → compute required Kv/Cv."@)
    } else if k == "help.steam_valves_flow"@ {
        Some("Help: Kv or Cv, ΔP [bar], density [kg/m3], upstream P [bar(a)] → compute flow."@)
    } else if k == "help.settings"@ {
        Some("Help: unit-system preset changes default units (SIBar/SI/MKS/Imperial)."@)
    } else {
        None
    }
}

/// The English string for a key, where one exists.
pub fn en(key: &str) -> (r: Option<&'static str>)
    ensures
        match r {
            Some(v) => en_spec(key@) == Some(v@),
            None => en_spec(key@) is None,
        },
{
    if str_eq(key, "general.error_prefix") {
        Some("Error")
    } else if str_eq(key, "general.app_exit") {
        Some("Exiting application.")
    } else if str_eq(key, "main_menu.title") {
        Some("\n=== Steam Engineering Toolbox ===")
    } else if str_eq(key, "main_menu.unit_conversion") {
        Some("1) Unit Converter")
    } else if str_eq(key, "main_menu.steam_tables") {
        Some("2) Steam Tables")
    } else if str_eq(key, "main_menu.steam_piping") {
        Some("3) Steam Piping")
    } else if str_eq(key, "main_menu.steam_valves") {
        Some("4) Steam Valves & Orifices")
    } else if str_eq(key, "main_menu.settings") {
        Some("5) Settings")
    } else if str_eq(key, "main_menu.exit") {
        Some("0) Exit")
    } else if str_eq(key, "prompt.menu_select") {
        Some("Select menu: ")
    } else if str_eq(key, "error.invalid_selection_retry") {
        Some("Invalid input. Please try again.")
    } else if str_eq(key, "unit_conversion.heading") {
        Some("\n-- Unit Conversion --")
    } else if str_eq(key, "unit_conversion.options_line1") {
        Some("1) Temperature  2) ΔTemperature  3) Pressure  4) Length  5) Area  6) Volume")
    } else if str_eq(key, "unit_conversion.options_line2") {
        Some("7) Velocity  8) Mass  9) Viscosity 10) Energy 11) Heat Transfer 12) Conductivity 13) Specific Enthalpy")
    } else if str_eq(key, "unit_conversion.note_mmhg") {
        Some("Note: mmHg is treated as gauge (0=atm, -760mmHg=vacuum).")
    } else if str_eq(key, "unit_conversion.prompt_kind") {
        Some("Enter item number: ")
    } else if str_eq(key, "unit_conversion.prompt_value") {
        Some("Value: ")
    } else if str_eq(key, "unit_conversion.prompt_from_unit") {
        Some("From unit (ex: C, bar, m): ")
    } else if str_eq(key, "unit_conversion.prompt_to_unit") {
        Some("To unit (ex: K, psi, ft): ")
    } else if str_eq(key, "unit_conversion.result") {
        Some("Result:")
    } else if str_eq(key, "unit_conversion.unsupported") {
        Some("Unsupported selection.")
    } else if str_eq(key, "steam_tables.heading") {
        Some("\n-- Steam Tables --")
    } else if str_eq(key, "steam_tables.note") {
        Some("Note: when using mmHg, 0=atm and -760mmHg=vacuum (gauge).")
    } else if str_eq(key, "steam_tables.options") {
        Some("1) By Pressure  2) By Temperature  3) Superheated (P+T)")
    } else if str_eq(key, "prompt.select") {
        Some("Select: ")
    } else if str_eq(key, "prompt.pressure_value") {
        Some("Pressure value: ")
    } else if str_eq(key, "prompt.temperature_value") {
        Some("Temperature value: ")
    } else if str_eq(key, "steam_piping.heading") {
        Some("\n-- Steam Piping --")
    } else if str_eq(key, "steam_piping.option_sizing") {
        Some("1) Size by target velocity")
    } else if str_eq(key, "steam_piping.option_pressure_drop") {
        Some("2) Pressure-drop calculation")
    } else if str_eq(key, "prompt.mass_flow") {
        Some("Mass flow [kg/h]: ")
    } else if str_eq(key, "prompt.operating_pressure") {
        Some("Operating pressure value: ")
    } else if str_eq(key, "prompt.operating_pressure_mode") {
        Some("Operating pressure value (abs/gauge choice): ")
    } else if str_eq(key, "prompt.operating_temperature") {
        Some("Operating temperature value: ")
    } else if str_eq(key, "prompt.target_velocity") {
        Some("Target velocity [m/s]: ")
    } else if str_eq(key, "result.recommended_id") {
        Some("Recommended ID:")
    } else if str_eq(key, "result.expected_velocity") {
        Some("Expected velocity:")
    } else if str_eq(key, "prompt.density_optional") {
        Some("Steam density [kg/m3] (0 = auto via IF97): ")
    } else if str_eq(key, "prompt.diameter") {
        Some("Pipe inner diameter [mm] (in/\"): ")
    } else if str_eq(key, "prompt.length") {
        Some("Pipe length [m]: ")
    } else if str_eq(key, "prompt.eq_length") {
        Some("Equivalent length [m] (0 if none): ")
    } else if str_eq(key, "prompt.fittings_k") {
        Some("Fittings K sum (0 if none): ")
    } else if str_eq(key, "prompt.roughness") {
        Some("Roughness ε [m] (carbon steel ~0.000045): ")
    } else if str_eq(key, "prompt.viscosity") {
        Some("Dynamic viscosity [Pa·s] (steam ~1.2e-5): ")
    } else if str_eq(key, "prompt.sound_speed") {
        Some("Speed of sound [m/s] (default ~450): ")
    } else if str_eq(key, "result.pressure_drop") {
        Some("Pressure-drop result:")
    } else if str_eq(key, "steam_valves.heading") {
        Some("\n-- Steam Valves & Orifices --")
    } else if str_eq(key, "steam_valves.option_required") {
        Some("1) Required Cv/Kv")
    } else if str_eq(key, "steam_valves.option_flow") {
        Some("2) Flow from Cv/Kv")
    } else if str_eq(key, "prompt.volumetric_flow") {
        Some("Volumetric flow [m3/h]: ")
    } else if str_eq(key, "prompt.delta_p") {
        Some("ΔP [bar]: ")
    } else if str_eq(key, "prompt.density_generic") {
        Some("Density [kg/m3]: ")
    } else if str_eq(key, "result.required_kv_cv") {
        Some("Required Kv/Cv:")
    } else if str_eq(key, "prompt.input_mode_kv_cv") {
        Some("Input mode (1=Kv, 2=Cv): ")
    } else if str_eq(key, "prompt.kv_cv_value") {
        Some("Kv/Cv value: ")
    } else if str_eq(key, "prompt.upstream_pressure") {
        Some("Upstream pressure [bar(a)]: ")
    } else if str_eq(key, "result.possible_flow") {
        Some("Possible flow:")
    } else if str_eq(key, "settings.heading") {
        Some("\n-- Settings --")
    } else if str_eq(key, "settings.current_unit_system") {
        Some("Current unit system:")
    } else if str_eq(key, "settings.options") {
        Some("1) SI(Bar)  2) SI  3) MKS  4) Imperial")
    } else if str_eq(key, "settings.prompt_change") {
        Some("Enter number to change (enter to cancel): ")
    } else if str_eq(key, "settings.invalid") {
        Some("Invalid input; unit system unchanged.")
    } else if str_eq(key, "settings.saved") {
        Some("Unit system changed to:")
    } else if str_eq(key, "unit.pressure_options") {
        Some("Pressure units: 1=bar 2=kPa 3=MPa 4=psi 5=atm")
    } else if str_eq(key, "unit.temperature_options") {
        Some("Temperature units: 1=°C 2=K 3=°F 4=R")
    } else if str_eq(key, "error.invalid_number") {
        Some("Please enter a number.")
    } else if str_eq(key, "state.saturation_temperature") {
        Some("Saturation temperature:")
    } else if str_eq(key, "state.saturation_pressure") {
        Some("Saturation pressure:")
    } else if str_eq(key, "state.enthalpy_volume") {
        Some("Enthalpy/volume:")
    } else if str_eq(key, "state.superheated_enthalpy") {
        Some("Superheated enthalpy:")
    } else if str_eq(key, "help.unit_conversion") {
        Some("Help: choose quantity → enter value → from/to units (bar/kPa/MPa/psi/atm/mmHg, C/K/F, etc).")
    } else if str_eq(key, "help.steam_tables") {
        Some("Help: select unit for pressure/temperature. mmHg is gauge; bar/psi/atm follow your abs/gauge selection.")
    } else if str_eq(key, "help.steam_piping_sizing") {
        Some("Help: mass flow [kg/h], pressure (abs/gauge), temperature, target velocity. ID result shows mm and inches.")
    } else if str_eq(key, "help.steam_piping_drop") {
        Some("Help: density 0 => auto IF97. Diameter accepts mm or inch. K-sum/equivalent length can be 0 if none.")
    } else if str_eq(key, "help.steam_valves_required") {
        Some("Help: flow [m3/h], ΔP [bar], density [kg/m3] → compute required Kv/Cv.")
    } else if str_eq(key, "help.steam_valves_flow") {
        Some("Help: Kv or Cv, ΔP [bar], density [kg/m3], upstream P [bar(a)] → compute flow.")
    } else if str_eq(key, "help.settings") {
        Some("Help: unit-system preset changes default units (SIBar/SI/MKS/Imperial).")
    } else {
        None
    }
}

/// Every key of the built-in tables, in table order.
pub open spec fn key_list() -> Seq<Seq<char>> {
    seq![
        "general.error_prefix"@,
        "general.app_exit"@,
        "main_menu.title"@,
        "main_menu.unit_conversion"@,
        "main_menu.steam_tables"@,
        "main_menu.steam_piping"@,
        "main_menu.steam_valves"@,
        "main_menu.settings"@,
        "main_menu.exit"@,
        "prompt.menu_select"@,
        "error.invalid_selection_retry"@,
        "unit_conversion.heading"@,
        "unit_conversion.options_line1"@,
        "unit_conversion.options_line2"@,
        "unit_conversion.note_mmhg"@,
        "unit_conversion.prompt_kind"@,
        "unit_conversion.prompt_value"@,
        "unit_conversion.prompt_from_unit"@,
        "unit_conversion.prompt_to_unit"@,
        "unit_conversion.result"@,
        "unit_conversion.unsupported"@,
        "steam_tables.heading"@,
        "steam_tables.note"@,
        "steam_tables.options"@,
        "prompt.select"@,
        "prompt.pressure_value"@,
        "prompt.temperature_value"@,
        "steam_piping.heading"@,
        "steam_piping.option_sizing"@,
        "steam_piping.option_pressure_drop"@,
        "prompt.mass_flow"@,
        "prompt.operating_pressure"@,
        "prompt.operating_pressure_mode"@,
        "prompt.operating_temperature"@,
        "prompt.target_velocity"@,
        "result.recommended_id"@,
        "result.expected_velocity"@,
        "prompt.density_optional"@,
        "prompt.diameter"@,
        "prompt.length"@,
        "prompt.eq_length"@,
        "prompt.fittings_k"@,
        "prompt.roughness"@,
        "prompt.viscosity"@,
        "prompt.sound_speed"@,
        "result.pressure_drop"@,
        "steam_valves.heading"@,
        "steam_valves.option_required"@,
        "steam_valves.option_flow"@,
        "prompt.volumetric_flow"@,
        "prompt.delta_p"@,
        "prompt.density_generic"@,
        "result.required_kv_cv"@,
        "prompt.input_mode_kv_cv"@,
        "prompt.kv_cv_value"@,
        "prompt.upstream_pressure"@,
        "result.possible_flow"@,
        "settings.heading"@,
        "settings.current_unit_system"@,
        "settings.options"@,
        "settings.prompt_change"@,
        "settings.invalid"@,
        "settings.saved"@,
        "unit.pressure_options"@,
        "unit.temperature_options"@,
        "error.invalid_number"@,
        "state.saturation_temperature"@,
        "state.saturation_pressure"@,
        "state.enthalpy_volume"@,
        "state.superheated_enthalpy"@,
        "help.unit_conversion"@,
        "help.steam_tables"@,
        "help.steam_piping_sizing"@,
        "help.steam_piping_drop"@,
        "help.steam_valves_required"@,
        "help.steam_valves_flow"@,
        "help.settings"@,
    ]
}

/// Every key of the built-in tables, in table order.
pub fn all_keys() -> (r: Vec<&'static str>)
    ensures
        r@.map_values(|s: &'static str| s@) == key_list(),
{
    let keys: Vec<&'static str> = vec![
        "general.error_prefix",
        "general.app_exit",
        "main_menu.title",
        "main_menu.unit_conversion",
        "main_menu.steam_tables",
        "main_menu.steam_piping",
        "main_menu.steam_valves",
        "main_menu.settings",
        "main_menu.exit",
        "prompt.menu_select",
        "error.invalid_selection_retry",
        "unit_conversion.heading",
        "unit_conversion.options_line1",
        "unit_conversion.options_line2",
        "unit_conversion.note_mmhg",
        "unit_conversion.prompt_kind",
        "unit_conversion.prompt_value",
        "unit_conversion.prompt_from_unit",
        "unit_conversion.prompt_to_unit",
        "unit_conversion.result",
        "unit_conversion.unsupported",
        "steam_tables.heading",
        "steam_tables.note",
        "steam_tables.options",
        "prompt.select",
        "prompt.pressure_value",
        "prompt.temperature_value",
        "steam_piping.heading",
        "steam_piping.option_sizing",
        "steam_piping.option_pressure_drop",
        "prompt.mass_flow",
        "prompt.operating_pressure",
        "prompt.operating_pressure_mode",
        "prompt.operating_temperature",
        "prompt.target_velocity",
        "result.recommended_id",
        "result.expected_velocity",
        "prompt.density_optional",
        "prompt.diameter",
        "prompt.length",
        "prompt.eq_length",
        "prompt.fittings_k",
        "prompt.roughness",
        "prompt.viscosity",
        "prompt.sound_speed",
        "result.pressure_drop",
        "steam_valves.heading",
        "steam_valves.option_required",
        "steam_valves.option_flow",
        "prompt.volumetric_flow",
        "prompt.delta_p",
        "prompt.density_generic",
        "result.required_kv_cv",
        "prompt.input_mode_kv_cv",
        "prompt.kv_cv_value",
        "prompt.upstream_pressure",
        "result.possible_flow",
        "settings.heading",
        "settings.current_unit_system",
        "settings.options",
        "settings.prompt_change",
        "settings.invalid",
        "settings.saved",
        "unit.pressure_options",
        "unit.temperature_options",
        "error.invalid_number",
        "state.saturation_temperature",
        "state.saturation_pressure",
        "state.enthalpy_volume",
        "state.superheated_enthalpy",
        "help.unit_conversion",
        "help.steam_tables",
        "help.steam_piping_sizing",
        "help.steam_piping_drop",
        "help.steam_valves_required",
        "help.steam_valves_flow",
        "help.settings",
    ];
    proof {
        assert(keys@.map_values(|s: &'static str| s@) =~= key_list());
    }
    keys
}

/// The string a language pack carries for `k` in language `lang`: the
/// English string where one exists, with the Korean base as fallback.
pub open spec fn builtin_value(lang: Language, k: Seq<char>) -> Seq<char> {
    match lang {
        Language::En => match en_spec(k) {
            Some(v) => v,
            None => ko_spec(k),
        },
        Language::Ko => ko_spec(k),
    }
}

/// The key/value pairs of the built-in pack for `lang`.
pub open spec fn builtin_pairs(lang: Language) -> Seq<(Seq<char>, Seq<char>)> {
    key_list().map_values(|k: Seq<char>| (k, builtin_value(lang, k)))
}

/// The built-in pack for a language code, over folded input: English for the
/// `en` family, Korean for the `ko` family, none otherwise.
pub open spec fn builtin_pack_spec(l: Seq<char>) -> Option<Seq<(Seq<char>, Seq<char>)>> {
    if l == "en-us"@ || l == "en"@ || l == "en-uk"@ {
        Some(builtin_pairs(Language::En))
    } else if l == "ko-kr"@ || l == "ko"@ {
        Some(builtin_pairs(Language::Ko))
    } else {
        None
    }
}

/// Builds the pair list of the built-in pack for `lang`.
fn make_pack(lang: Language) -> (r: Vec<(String, String)>)
    ensures
        pairs_view(r@) == builtin_pairs(lang),
{
    let keys = all_keys();
    let n = keys.len();
    let mut out: Vec<(String, String)> = Vec::new();
    let mut i: usize = 0;
    while i < n
        invariant
            n == keys@.len(),
            keys@.map_values(|s: &'static str| s@) == key_list(),
            i <= n,
            pairs_view(out@) =~= builtin_pairs(lang).take(i as int),
        decreases n - i,
    {
        let k: &'static str = keys[i];
        let v: String = match lang {
            Language::En => match en(k) {
                Some(v) => v.to_owned(),
                None => ko(k).to_owned(),
            },
            Language::Ko => ko(k).to_owned(),
        };
        let kk: String = k.to_owned();
        let ghost gk = kk@;
        let ghost gv = v@;
        let ghost prev = out@;
        let pair = (kk, v);
        let ghost gpair = pair;
        out.push(pair);
        proof {
            assert(gk == key_list()[i as int]);
            assert(gv == builtin_value(lang, gk));
            assert(out@ == prev.push(gpair));
            assert(key_list().len() == keys@.len());
            assert(builtin_pairs(lang).len() == key_list().len());
            assert(pairs_view(prev).len() == prev.len());
            assert(prev.len() == i);
            let target = builtin_pairs(lang).take(i + 1);
            assert forall|j: int| 0 <= j < i + 1 implies pairs_view(out@)[j] == target[j] by {
                assert(pairs_view(out@)[j] == (out@[j].0@, out@[j].1@));
                assert(target[j] == builtin_pairs(lang)[j]);
                assert(builtin_pairs(lang)[j] == (
                    key_list()[j],
                    builtin_value(lang, key_list()[j]),
                ));
                if j < i {
                    assert(out@[j] == prev[j]);
                    assert(pairs_view(prev)[j] == (prev[j].0@, prev[j].1@));
                    assert(pairs_view(prev)[j] == builtin_pairs(lang).take(i as int)[j]);
                } else {
                    assert(out@[j] == gpair);
                    assert(gpair.0@ == gk && gpair.1@ == gv);
                }
            }
            assert(pairs_view(out@) =~= builtin_pairs(lang).take(i + 1));
        }
        i = i + 1;
    }
    proof {
        assert(builtin_pairs(lang).take(n as int) =~= builtin_pairs(lang));
    }
    out
}

/// The built-in language pack for a language code, where one exists.
pub fn built_in_pack(lang: &str) -> (r: Option<Vec<(String, String)>>)
    ensures
        match r {
            Some(v) => builtin_pack_spec(lower(lang@)) == Some(pairs_view(v@)),
            None => builtin_pack_spec(lower(lang@)) is None,
        },
{
    let low = to_lowercase(lang);
    let l = low.as_str();
    if str_eq(l, "en-us") || str_eq(l, "en") || str_eq(l, "en-uk") {
        Some(make_pack(Language::En))
    } else if str_eq(l, "ko-kr") || str_eq(l, "ko") {
        Some(make_pack(Language::Ko))
    } else {
        None
    }
}

} // verus!
