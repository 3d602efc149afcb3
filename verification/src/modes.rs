//! Solver modes and their dispatch.
//!
//! The calculation is asked to solve for one structuring quantity. Two modes
//! have an iterative solver; every other declared mode falls back to a
//! single direct evaluation at the supplied (or default) entry multiple.
//! The debt and covenant kinds are part of the engine's input vocabulary:
//! they are carried as data and do not alter the projection.

use vstd::prelude::*;

verus! {

/// The structuring quantity the calculation solves for.
#[derive(Clone, Copy, Debug, PartialEq, Eq, Structural)]
pub enum LBOSolverMode {
    EntryPrice,
    TargetIrr,
    ExitMultiple,
    Moic,
    OptimalRefinancing,
}

/// The kind of a debt tranche. Carried as data; the projection treats every
/// tranche by its own terms (rate, cash or accruing interest, amortization,
/// sweep priority), not by kind.
#[derive(Clone, Copy, Debug, PartialEq, Eq, Structural)]
pub enum DebtType {
    Senior,
    Mezzanine,
    Exchangeable,
    PreferredEquity,
}

/// The kind of a covenant rule. Accepted as input; not evaluated against
/// the projected state.
#[derive(Clone, Copy, Debug, PartialEq, Eq, Structural)]
pub enum CovenantType {
    MaxDebtEbitda,
    MinInterestCoverage,
}

/// The evaluation route taken for a solver mode.
#[derive(Clone, Copy, Debug, PartialEq, Eq, Structural)]
pub enum SolverAction {
    SolveEntryMultiple,
    SolveExitMultiple,
    EvaluateDirect,
}

/// The route of each mode: the entry-price and exit-multiple modes get
/// their iterative solver; the rest evaluate once, directly.
pub open spec fn spec_solver_action(mode: LBOSolverMode) -> SolverAction {
    match mode {
        LBOSolverMode::EntryPrice => SolverAction::SolveEntryMultiple,
        LBOSolverMode::ExitMultiple => SolverAction::SolveExitMultiple,
        _ => SolverAction::EvaluateDirect,
    }
}

/// Decide how a solver mode is evaluated.
pub fn solver_action(mode: &LBOSolverMode) -> (r: SolverAction)
    ensures
        r == spec_solver_action(*mode),
{
    match mode {
        LBOSolverMode::EntryPrice => SolverAction::SolveEntryMultiple,
        LBOSolverMode::ExitMultiple => SolverAction::SolveExitMultiple,
        _ => SolverAction::EvaluateDirect,
    }
}

} // verus!
