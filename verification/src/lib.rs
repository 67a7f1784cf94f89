//! Unit conversion and process calculation rules for a gas compression or
//! expansion step.
//!
//! The crate holds the exact part of the engine: the unit tables, the
//! conversion formulas as sequences of exact arithmetic steps, the gas presets,
//! the bookkeeping of the three process points over two equation-of-state
//! models, the process quantities as arithmetic terms, and what each key of a
//! session does. Evaluating a formula or a term on machine numbers and
//! querying an equation of state are left to the caller.

pub mod calculations;
pub mod convert;
pub mod display;
pub mod engine;
pub mod exact;
pub mod flow;
pub mod formula;
pub mod gas;
pub mod input;
pub mod state;
pub mod terms;
pub mod units;
