//! Steam engineering toolbox: the verified core of a steam-plant calculator.
//!
//! This library holds the parts of the toolbox that are pure data and text
//! logic: the catalogue of physical quantities and measurement units, the
//! parsers that map user-entered unit codes to those units, the pressure
//! gauge/absolute mode tags, the error taxonomy of the calculators, the
//! configuration model with its unit-system presets, and the translation
//! layer that serves the interface strings.
//!
//! The floating-point evaluators (the IAPWS-IF97 property calls and the
//! derived pipe, valve, boiler and heat-balance formulas) consume the types
//! defined here but live outside the verified library, since their arithmetic
//! is not expressible in it.

pub mod catalog;
pub mod config;
pub mod conversion;
pub mod errors;
pub mod i18n;
pub mod keys;
pub mod menu;
pub mod pack;
pub mod quantity;
pub mod text;
pub mod units;
