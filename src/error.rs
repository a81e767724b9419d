//! Errors of the planning and control operations, returned as values.
use vstd::prelude::*;

verus! {

#[derive(Clone, Copy, Debug, PartialEq, Eq, Structural)]
pub enum CoreError {
    /// The goal lies in a restricted region.
    RestrictedTarget,
    /// The path needs more energy than the budget allows.
    EnergyInfeasible,
    /// The path's acceptability falls below the floor.
    Acceptability,
    /// The safety latch is tripped; only the emergency command is allowed.
    EmergencyActive,
    /// Navigation was requested from a mode that does not allow it.
    InvalidMode,
    /// There is no current plan to re-evaluate.
    NoCurrentPlan,
}

impl CoreError {
    /// A short description of the error.
    pub fn message(&self) -> (r: &'static str) {
        match self {
            CoreError::RestrictedTarget => "goal lies in a restricted area",
            CoreError::EnergyInfeasible => "insufficient energy for path",
            CoreError::Acceptability => "path is not acceptable",
            CoreError::EmergencyActive => "emergency stop active",
            CoreError::InvalidMode => "invalid mode for navigation",
            CoreError::NoCurrentPlan => "no current path to adjust",
        }
    }
}

} // verus!
