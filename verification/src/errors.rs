//! The error taxonomy of the calculators.
//!
//! Every calculator returns a typed result; no function substitutes a
//! default or extrapolates silently.  Inputs outside a correlation's range
//! are `OutOfRange`, violated positivity preconditions are `InvalidInput`,
//! and a detected critical-pressure-ratio condition in the valve equations
//! is `ChokedFlow` rather than a silently inaccurate number.

use vstd::prelude::*;

verus! {

/// Failure of a steam-table lookup.
#[derive(Debug)]
pub enum SteamTableError {
    /// The input lies outside the table or correlation range.
    OutOfRange(&'static str),
    /// The requested state is too close to the saturation boundary.
    NearSaturation(&'static str),
}

/// Failure of a pipe-sizing or pressure-drop calculation.
#[derive(Debug)]
pub enum PipeCalcError {
    /// A required argument violates its positivity precondition.
    InvalidInput(&'static str),
}

/// Failure of a valve coefficient or flow calculation.
#[derive(Debug)]
pub enum ValveCalcError {
    /// A required argument violates its positivity precondition.
    InvalidInput(&'static str),
    /// The downstream/upstream pressure ratio is below the critical ratio;
    /// the incompressible valve equation would be wrong here.
    ChokedFlow(&'static str),
}

/// Failure of a condenser, cooling-tower or heat-balance calculation.
#[derive(Debug)]
pub enum CoolingError {
    /// A temperature difference is not strictly positive, so no log-mean
    /// temperature difference exists.
    NegativeDeltaT,
    /// The saturation-property evaluation failed.
    If97(String),
}

} // verus!
