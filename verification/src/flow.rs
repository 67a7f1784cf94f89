//! Flow rate conversion. The base unit is the mass flow in kg/s.
//!
//! The mass units differ from it by constants. The volumetric units count
//! volume at a reference condition, so their formulas go through the mass
//! density that the gas has at that condition.

use vstd::prelude::*;
use crate::convert::{ft3_per_m3, lbm_per_kg};
use crate::exact::{
    lemma_common_factor, lemma_constant_first, lemma_there_and_back, Frac, Ratio,
};
use crate::formula::{formula_value, value_after, Conditions, Factor, Step};
use crate::engine::{active, Model};
use crate::units::Flow;

verus! {

/// The state at which a volumetric flow unit counts volume. The reference
/// density of the unit is the density of the gas at this state in kg/m^3:
/// its molar density there times its molar mass.
#[derive(Clone, Copy, Debug, PartialEq, Eq, Structural)]
pub struct ReferenceCondition {
    /// Pressure in kPa.
    pub pressure: Ratio,
    /// Temperature in K.
    pub temperature: Ratio,
}

/// A query for the reference density of the selected gas: the model to ask
/// and the state to ask it about.
#[derive(Clone, Copy, Debug, PartialEq, Eq, Structural)]
pub struct ReferenceQuery {
    pub model: Model,
    pub condition: ReferenceCondition,
}

/// How a flow is converted: the formula, and for a volumetric unit the query
/// for the reference density that the formula goes through. That query is
/// made on a record of its own, never on one of the six records of the
/// process points.
#[derive(Debug)]
pub struct FlowConversion {
    pub steps: Vec<Step>,
    pub reference: Option<ReferenceQuery>,
}

/// The unit counts volume, not mass.
pub open spec fn volumetric(unit: Flow) -> bool {
    unit == Flow::Nm3_h || unit == Flow::scfm || unit == Flow::scfh
}

/// The reference pressure of every volumetric unit: 101.325 kPa.
pub open spec fn reference_pressure() -> Ratio {
    Ratio { num: 101325, den: 1000 }
}

/// The reference temperature of a volumetric unit in K: 273.15 for normal
/// cubic metres; for standard cubic feet 288.706 (60 F) where `stp_60` is set
/// and 294.261 (70 F) where it is not.
pub open spec fn reference_temperature(unit: Flow, stp_60: bool) -> Ratio
    recommends
        volumetric(unit),
{
    if unit == Flow::Nm3_h {
        Ratio { num: 27315, den: 100 }
    } else if stp_60 {
        Ratio { num: 288706, den: 1000 }
    } else {
        Ratio { num: 294261, den: 1000 }
    }
}

/// A flow in `unit`, given in kg/s, for a gas of reference density
/// `c.reference_density`.
pub open spec fn flow_display(kg_s: Frac, unit: Flow, c: Conditions) -> Frac {
    match unit {
        Flow::kg_s => kg_s,
        Flow::kg_m => kg_s.times(Frac::whole(60)),
        Flow::kg_h => kg_s.times(Frac::whole(3600)),
        Flow::lbm_s => kg_s.times(lbm_per_kg()),
        Flow::lbm_m => kg_s.times(lbm_per_kg()).times(Frac::whole(60)),
        Flow::lbm_h => kg_s.times(lbm_per_kg()).times(Frac::whole(3600)),
        Flow::Nm3_h => kg_s.times(Frac::whole(3600)).over(c.reference_density),
        Flow::scfm => kg_s.times(Frac::whole(60)).over(c.reference_density).times(ft3_per_m3()),
        Flow::scfh => kg_s.times(Frac::whole(3600)).over(c.reference_density).times(
            ft3_per_m3(),
        ),
    }
}

/// A flow in kg/s, given in `unit`.
pub open spec fn flow_base(value: Frac, unit: Flow, c: Conditions) -> Frac {
    match unit {
        Flow::kg_s => value,
        Flow::kg_m => value.over(Frac::whole(60)),
        Flow::kg_h => value.over(Frac::whole(3600)),
        Flow::lbm_s => value.over(lbm_per_kg()),
        Flow::lbm_m => value.over(lbm_per_kg()).over(Frac::whole(60)),
        Flow::lbm_h => value.over(lbm_per_kg()).over(Frac::whole(3600)),
        Flow::Nm3_h => value.over(Frac::whole(3600)).times(c.reference_density),
        Flow::scfm => value.over(Frac::whole(60)).times(c.reference_density).over(ft3_per_m3()),
        Flow::scfh => value.over(Frac::whole(3600)).times(c.reference_density).over(
            ft3_per_m3(),
        ),
    }
}

/// The query for the reference density of `unit`: none for a mass unit;
/// for a volumetric unit the active model is asked about the reference
/// condition of the unit.
pub open spec fn reference_query(unit: Flow, stp_60: bool, use_gerg2008: bool) -> Option<
    ReferenceQuery,
> {
    if volumetric(unit) {
        Some(
            ReferenceQuery {
                model: active(use_gerg2008),
                condition: ReferenceCondition {
                    pressure: reference_pressure(),
                    temperature: reference_temperature(unit, stp_60),
                },
            },
        )
    } else {
        None
    }
}

/// The reference condition of `unit`: `None` for a mass unit, and for a
/// volumetric unit the state at which the density of the gas has to be
/// looked up before a formula of that unit can be evaluated.
pub fn reference_condition(unit: Flow, stp_60: bool) -> (condition: Option<ReferenceCondition>)
    ensures
        condition.is_some() <==> volumetric(unit),
        volumetric(unit) ==> condition == Some(
            (ReferenceCondition {
                pressure: reference_pressure(),
                temperature: reference_temperature(unit, stp_60),
            }),
        ),
{
    let pressure = Ratio { num: 101325, den: 1000 };
    match unit {
        Flow::Nm3_h => Some(
            ReferenceCondition { pressure, temperature: Ratio { num: 27315, den: 100 } },
        ),
        Flow::scfm | Flow::scfh => {
            if stp_60 {
                Some(ReferenceCondition { pressure, temperature: Ratio { num: 288706, den: 1000 } })
            } else {
                Some(ReferenceCondition { pressure, temperature: Ratio { num: 294261, den: 1000 } })
            }
        },
        _ => None,
    }
}

fn query(unit: Flow, stp_60: bool, use_gerg2008: bool) -> (reference: Option<ReferenceQuery>)
    ensures
        reference == reference_query(unit, stp_60, use_gerg2008),
{
    let model = if use_gerg2008 {
        Model::Gerg2008
    } else {
        Model::Detail
    };
    match reference_condition(unit, stp_60) {
        Some(condition) => Some(ReferenceQuery { model, condition }),
        None => None,
    }
}

/// How a flow is carried from kg/s to `unit`: the formula, and for a
/// volumetric unit the query for the reference density.
pub fn get_flow(unit: Flow, stp_60: bool, use_gerg2008: bool) -> (conversion: FlowConversion)
    ensures
        forall|x: Frac, c: Conditions| #[trigger]
            formula_value(conversion.steps@, x, c) == flow_display(x, unit, c),
        conversion.reference == reference_query(unit, stp_60, use_gerg2008),
{
    FlowConversion { steps: display_steps(unit), reference: query(unit, stp_60, use_gerg2008) }
}

/// How a flow is carried from `unit` to kg/s: the formula, and for a
/// volumetric unit the query for the reference density.
pub fn set_flow(unit: Flow, stp_60: bool, use_gerg2008: bool) -> (conversion: FlowConversion)
    ensures
        forall|x: Frac, c: Conditions| #[trigger]
            formula_value(conversion.steps@, x, c) == flow_base(x, unit, c),
        conversion.reference == reference_query(unit, stp_60, use_gerg2008),
{
    FlowConversion { steps: base_steps(unit), reference: query(unit, stp_60, use_gerg2008) }
}

fn display_steps(unit: Flow) -> (steps: Vec<Step>)
    ensures
        forall|x: Frac, c: Conditions| #[trigger]
            formula_value(steps@, x, c) == flow_display(x, unit, c),
{
    let steps = match unit {
        Flow::kg_s => Vec::new(),
        Flow::kg_m => vec![Step::multiply_by(60, 1)],
        Flow::kg_h => vec![Step::multiply_by(3600, 1)],
        Flow::lbm_s => vec![Step::multiply_by(220462, 100000)],
        Flow::lbm_m => vec![Step::multiply_by(220462, 100000), Step::multiply_by(60, 1)],
        Flow::lbm_h => vec![Step::multiply_by(220462, 100000), Step::multiply_by(3600, 1)],
        Flow::Nm3_h => vec![Step::multiply_by(3600, 1), Step::Divide(Factor::ReferenceDensity)],
        Flow::scfm => vec![
            Step::multiply_by(60, 1),
            Step::Divide(Factor::ReferenceDensity),
            Step::multiply_by(353147, 10000),
        ],
        Flow::scfh => vec![
            Step::multiply_by(3600, 1),
            Step::Divide(Factor::ReferenceDensity),
            Step::multiply_by(353147, 10000),
        ],
    };
    proof {
        reveal_with_fuel(value_after, 4);
    }
    steps
}

fn base_steps(unit: Flow) -> (steps: Vec<Step>)
    ensures
        forall|x: Frac, c: Conditions| #[trigger]
            formula_value(steps@, x, c) == flow_base(x, unit, c),
{
    let steps = match unit {
        Flow::kg_s => Vec::new(),
        Flow::kg_m => vec![Step::divide_by(60, 1)],
        Flow::kg_h => vec![Step::divide_by(3600, 1)],
        Flow::lbm_s => vec![Step::divide_by(220462, 100000)],
        Flow::lbm_m => vec![Step::divide_by(220462, 100000), Step::divide_by(60, 1)],
        Flow::lbm_h => vec![Step::divide_by(220462, 100000), Step::divide_by(3600, 1)],
        Flow::Nm3_h => vec![Step::divide_by(3600, 1), Step::Multiply(Factor::ReferenceDensity)],
        Flow::scfm => vec![
            Step::divide_by(60, 1),
            Step::Multiply(Factor::ReferenceDensity),
            Step::divide_by(353147, 10000),
        ],
        Flow::scfh => vec![
            Step::divide_by(3600, 1),
            Step::Multiply(Factor::ReferenceDensity),
            Step::divide_by(353147, 10000),
        ],
    };
    proof {
        reveal_with_fuel(value_after, 4);
    }
    steps
}

/// Only the volumetric units depend on the reference density: in a mass unit
/// a flow is the same number whatever the gas.
pub proof fn lemma_mass_flow_ignores_gas(x: Frac, unit: Flow, c1: Conditions, c2: Conditions)
    requires
        !volumetric(unit),
    ensures
        flow_display(x, unit, c1) == flow_display(x, unit, c2),
        flow_base(x, unit, c1) == flow_base(x, unit, c2),
{
}

/// Converting a flow to any display unit and back gives the same number, and
/// so does converting an entered flow to kg/s and back, as long as both
/// directions use one and the same reference density other than zero.
pub proof fn lemma_flow_round_trip(x: Frac, unit: Flow, c: Conditions)
    requires
        x.defined(),
        c.reference_density.nonzero(),
    ensures
        flow_display(x, unit, c).defined(),
        flow_base(x, unit, c).defined(),
        flow_base(flow_display(x, unit, c), unit, c).defined(),
        flow_base(flow_display(x, unit, c), unit, c).same(x),
        flow_display(flow_base(x, unit, c), unit, c).same(x),
{
    let r = c.reference_density;
    let d = flow_display(x, unit, c);
    let b = flow_base(x, unit, c);
    let y = flow_base(d, unit, c);
    let z = flow_display(b, unit, c);
    match unit {
        Flow::kg_s => {},
        Flow::kg_m => {
            lemma_common_factor(x, y, 60);
            lemma_common_factor(x, z, 60);
        },
        Flow::kg_h => {
            lemma_common_factor(x, y, 3600);
            lemma_common_factor(x, z, 3600);
        },
        Flow::lbm_s => {
            lemma_common_factor(x, y, 22046200000);
            lemma_common_factor(x, z, 22046200000);
        },
        Flow::lbm_m => {
            lemma_common_factor(x, y, 1322772000000);
            lemma_common_factor(x, z, 1322772000000);
        },
        Flow::lbm_h => {
            lemma_common_factor(x, y, 79366320000000);
            lemma_common_factor(x, z, 79366320000000);
        },
        Flow::Nm3_h => {
            lemma_constant_first(x.num, 3600, r.den);
            lemma_constant_first(x.den, 3600, r.den);
            lemma_constant_first(d.den, 3600, r.den);
            lemma_constant_first(b.num, 3600, r.den);
            lemma_there_and_back(x, d, y, 3600, 1, r.den, r.num);
            lemma_there_and_back(x, b, z, 1, 3600, r.num, r.den);
        },
        Flow::scfm => {
            lemma_constant_first(x.num, 60, r.den);
            lemma_constant_first(x.den, 60, r.den);
            lemma_constant_first(d.den, 60, r.den);
            lemma_constant_first(b.num, 60, r.den);
            lemma_there_and_back(x, d, y, 21188820, 10000, r.den, r.num);
            lemma_there_and_back(x, b, z, 10000, 21188820, r.num, r.den);
        },
        Flow::scfh => {
            lemma_constant_first(x.num, 3600, r.den);
            lemma_constant_first(x.den, 3600, r.den);
            lemma_constant_first(d.den, 3600, r.den);
            lemma_constant_first(b.num, 3600, r.den);
            lemma_there_and_back(x, d, y, 1271329200, 10000, r.den, r.num);
            lemma_there_and_back(x, b, z, 10000, 1271329200, r.num, r.den);
        },
    }
}

} // verus!
