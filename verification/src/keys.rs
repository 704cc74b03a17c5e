//! The translation keys served by the interface layer.

use vstd::prelude::*;

verus! {

pub const ERROR_PREFIX: &'static str = "general.error_prefix";

pub const APP_EXIT: &'static str = "general.app_exit";

pub const MAIN_MENU_TITLE: &'static str = "main_menu.title";

pub const MAIN_MENU_UNIT_CONVERSION: &'static str = "main_menu.unit_conversion";

pub const MAIN_MENU_STEAM_TABLES: &'static str = "main_menu.steam_tables";

pub const MAIN_MENU_STEAM_PIPING: &'static str = "main_menu.steam_piping";

pub const MAIN_MENU_STEAM_VALVES: &'static str = "main_menu.steam_valves";

pub const MAIN_MENU_SETTINGS: &'static str = "main_menu.settings";

pub const MAIN_MENU_EXIT: &'static str = "main_menu.exit";

pub const PROMPT_MENU_SELECT: &'static str = "prompt.menu_select";

pub const INVALID_SELECTION_RETRY: &'static str = "error.invalid_selection_retry";

pub const UNIT_CONVERSION_HEADING: &'static str = "unit_conversion.heading";

pub const UNIT_CONVERSION_OPTIONS_LINE1: &'static str = "unit_conversion.options_line1";

pub const UNIT_CONVERSION_OPTIONS_LINE2: &'static str = "unit_conversion.options_line2";

pub const UNIT_CONVERSION_NOTE_MMHG: &'static str = "unit_conversion.note_mmhg";

pub const UNIT_CONVERSION_PROMPT_KIND: &'static str = "unit_conversion.prompt_kind";

pub const UNIT_CONVERSION_PROMPT_VALUE: &'static str = "unit_conversion.prompt_value";

pub const UNIT_CONVERSION_PROMPT_FROM_UNIT: &'static str = "unit_conversion.prompt_from_unit";

pub const UNIT_CONVERSION_PROMPT_TO_UNIT: &'static str = "unit_conversion.prompt_to_unit";

pub const UNIT_CONVERSION_RESULT: &'static str = "unit_conversion.result";

pub const UNIT_CONVERSION_UNSUPPORTED: &'static str = "unit_conversion.unsupported";

pub const STEAM_TABLES_HEADING: &'static str = "steam_tables.heading";

pub const STEAM_TABLES_NOTE: &'static str = "steam_tables.note";

pub const STEAM_TABLES_OPTIONS: &'static str = "steam_tables.options";

pub const PROMPT_SELECT: &'static str = "prompt.select";

pub const PROMPT_PRESSURE_VALUE: &'static str = "prompt.pressure_value";

pub const PROMPT_TEMPERATURE_VALUE: &'static str = "prompt.temperature_value";

pub const STEAM_PIPING_HEADING: &'static str = "steam_piping.heading";

pub const STEAM_PIPING_OPTION_SIZING: &'static str = "steam_piping.option_sizing";

pub const STEAM_PIPING_OPTION_PRESSURE_DROP: &'static str = "steam_piping.option_pressure_drop";

pub const PROMPT_MASS_FLOW: &'static str = "prompt.mass_flow";

pub const PROMPT_OPERATING_PRESSURE: &'static str = "prompt.operating_pressure";

pub const PROMPT_OPERATING_PRESSURE_MODE: &'static str = "prompt.operating_pressure_mode";

pub const PROMPT_OPERATING_TEMPERATURE: &'static str = "prompt.operating_temperature";

pub const PROMPT_TARGET_VELOCITY: &'static str = "prompt.target_velocity";

pub const RESULT_RECOMMENDED_ID: &'static str = "result.recommended_id";

pub const RESULT_EXPECTED_VELOCITY: &'static str = "result.expected_velocity";

pub const PROMPT_DENSITY_OPTIONAL: &'static str = "prompt.density_optional";

pub const PROMPT_DIAMETER: &'static str = "prompt.diameter";

pub const PROMPT_LENGTH: &'static str = "prompt.length";

pub const PROMPT_EQ_LENGTH: &'static str = "prompt.eq_length";

pub const PROMPT_FITTINGS_K: &'static str = "prompt.fittings_k";

pub const PROMPT_ROUGHNESS: &'static str = "prompt.roughness";

pub const PROMPT_VISCOSITY: &'static str = "prompt.viscosity";

pub const PROMPT_SOUND_SPEED: &'static str = "prompt.sound_speed";

pub const RESULT_PRESSURE_DROP: &'static str = "result.pressure_drop";

pub const STEAM_VALVES_HEADING: &'static str = "steam_valves.heading";

pub const STEAM_VALVES_OPTION_REQUIRED: &'static str = "steam_valves.option_required";

pub const STEAM_VALVES_OPTION_FLOW: &'static str = "steam_valves.option_flow";

pub const PROMPT_VOLUMETRIC_FLOW: &'static str = "prompt.volumetric_flow";

pub const PROMPT_DELTA_P: &'static str = "prompt.delta_p";

pub const PROMPT_DENSITY_GENERIC: &'static str = "prompt.density_generic";

pub const RESULT_REQUIRED_KV_CV: &'static str = "result.required_kv_cv";

pub const PROMPT_INPUT_MODE_KV_CV: &'static str = "prompt.input_mode_kv_cv";

pub const PROMPT_KV_CV_VALUE: &'static str = "prompt.kv_cv_value";

pub const PROMPT_UPSTREAM_PRESSURE: &'static str = "prompt.upstream_pressure";

pub const RESULT_POSSIBLE_FLOW: &'static str = "result.possible_flow";

pub const SETTINGS_HEADING: &'static str = "settings.heading";

pub const SETTINGS_CURRENT_UNIT_SYSTEM: &'static str = "settings.current_unit_system";

pub const SETTINGS_OPTIONS: &'static str = "settings.options";

pub const SETTINGS_PROMPT_CHANGE: &'static str = "settings.prompt_change";

pub const SETTINGS_INVALID: &'static str = "settings.invalid";

pub const SETTINGS_SAVED: &'static str = "settings.saved";

pub const PRESSURE_UNIT_OPTIONS: &'static str = "unit.pressure_options";

pub const TEMPERATURE_UNIT_OPTIONS: &'static str = "unit.temperature_options";

pub const ERROR_INVALID_NUMBER: &'static str = "error.invalid_number";

pub const STATE_SATURATION_T: &'static str = "state.saturation_temperature";

pub const STATE_SATURATION_P: &'static str = "state.saturation_pressure";

pub const STATE_ENTHALPY_VOLUME: &'static str = "state.enthalpy_volume";

pub const STATE_SUPERHEATED_ENTHALPY: &'static str = "state.superheated_enthalpy";

pub const HELP_UNIT_CONVERSION: &'static str = "help.unit_conversion";

pub const HELP_STEAM_TABLES: &'static str = "help.steam_tables";

pub const HELP_STEAM_PIPING_SIZING: &'static str = "help.steam_piping_sizing";

pub const HELP_STEAM_PIPING_DROP: &'static str = "help.steam_piping_drop";

pub const HELP_STEAM_VALVES_REQUIRED: &'static str = "help.steam_valves_required";

pub const HELP_STEAM_VALVES_FLOW: &'static str = "help.steam_valves_flow";

pub const HELP_SETTINGS: &'static str = "help.settings";

} // verus!
