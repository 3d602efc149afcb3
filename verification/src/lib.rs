//! Deterministic core of a private-equity fund simulation and
//! leveraged-buyout analysis engine.
//!
//! The crate holds the parts of the engine whose behaviour is a function of
//! integers, booleans and names: the linear-congruential pseudo-random state
//! machine, deal-timing rules, percentile selection over ordered keys, the
//! priority-ordered cash-sweep schedule, solver-mode dispatch, the recognition
//! of sensitivity-override variable names, and the layout of the sensitivity
//! grid. Each is verified against an exact contract, and the capping
//! disciplines of the waterfall split, the debt paydowns and the
//! net-operating-loss carryforward are stated and proved over exact
//! arithmetic. The monetary arithmetic of the surrounding engine is floating
//! point and lives with the caller; it feeds this crate plain values and
//! follows the decisions made here.

pub mod deals;
pub mod debt;
pub mod grid;
pub mod modes;
pub mod overrides;
pub mod percentiles;
pub mod rng;
pub mod tax;
pub mod waterfall;
