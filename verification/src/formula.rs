//! Conversion formulas: short sequences of exact arithmetic steps.
//!
//! A formula says how a value is carried from one unit to another. It is data:
//! the caller evaluates it step by step on machine numbers. Its meaning is
//! stated here on fractions, where every step is exact.

use vstd::prelude::*;
use crate::exact::{Frac, Ratio};

verus! {

/// What a step multiplies with or divides by.
#[derive(Clone, Copy, Debug, PartialEq, Eq, Structural)]
pub enum Factor {
    /// A constant of the unit tables.
    Constant(Ratio),
    /// The molar mass of the gas in g/mol.
    MolarMass,
    /// The mass density of the gas at the reference condition in kg/m^3.
    ReferenceDensity,
}

/// One arithmetic step of a formula, applied to the value so far.
#[derive(Clone, Copy, Debug, PartialEq, Eq, Structural)]
pub enum Step {
    Multiply(Factor),
    Divide(Factor),
    Add(Ratio),
    Subtract(Ratio),
}

impl Step {
    /// The step that multiplies with the constant `num / den`.
    pub fn multiply_by(num: u64, den: u64) -> (step: Step)
        ensures
            step == Step::Multiply(Factor::Constant(Ratio { num, den })),
    {
        Step::Multiply(Factor::Constant(Ratio { num, den }))
    }

    /// The step that divides by the constant `num / den`.
    pub fn divide_by(num: u64, den: u64) -> (step: Step)
        ensures
            step == Step::Divide(Factor::Constant(Ratio { num, den })),
    {
        Step::Divide(Factor::Constant(Ratio { num, den }))
    }
}

/// The properties of the gas that a formula may refer to.
pub struct Conditions {
    pub molar_mass: Frac,
    pub reference_density: Frac,
}

/// The number that a factor stands for.
pub open spec fn factor_value(factor: Factor, c: Conditions) -> Frac {
    match factor {
        Factor::Constant(r) => r.frac(),
        Factor::MolarMass => c.molar_mass,
        Factor::ReferenceDensity => c.reference_density,
    }
}

/// The value after one step.
pub open spec fn step_value(step: Step, x: Frac, c: Conditions) -> Frac {
    match step {
        Step::Multiply(f) => x.times(factor_value(f, c)),
        Step::Divide(f) => x.over(factor_value(f, c)),
        Step::Add(r) => x.plus(r.frac()),
        Step::Subtract(r) => x.minus(r.frac()),
    }
}

/// The value after the first `k` steps of `steps`, starting from `x`.
pub open spec fn value_after(steps: Seq<Step>, k: nat, x: Frac, c: Conditions) -> Frac
    decreases k,
{
    if k == 0 || k > steps.len() {
        x
    } else {
        step_value(steps[k - 1], value_after(steps, (k - 1) as nat, x, c), c)
    }
}

/// The value of the formula `steps` on `x`: all steps applied in order.
pub open spec fn formula_value(steps: Seq<Step>, x: Frac, c: Conditions) -> Frac {
    value_after(steps, steps.len(), x, c)
}

} // verus!
