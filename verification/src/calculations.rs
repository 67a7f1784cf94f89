//! The process quantities between inlet and outlet.
//!
//! Each quantity is given as a term over the records of the active model, and
//! only where both inlet and outlet are defined. The caller evaluates the
//! term on machine numbers; logarithms and powers are the caller's too, and
//! for them the terms of their arguments are given.

use vstd::prelude::*;
use crate::convert::temperature_display;
use crate::engine::{active, Model, ProcessPoint, Property, Record};
use crate::exact::{Frac, Ratio};
use crate::state::App;
use crate::terms::{term_value, Quantity, Readings, Term};
use crate::units::Temperature;

verus! {

/// How a number stands to a reference value. `Unordered` is what a number
/// that is not a number gives.
#[derive(Clone, Copy, Debug, PartialEq, Eq, Structural)]
pub enum Comparison {
    Less,
    Equal,
    Greater,
    Unordered,
}

/// The kind of process between inlet and outlet.
#[derive(Clone, Copy, Debug, PartialEq, Eq, Structural)]
pub enum ProcessMode {
    Expansion,
    Compression,
    Isobaric,
}

/// The two records that a process is calculated from.
#[derive(Clone, Copy, Debug, PartialEq, Eq, Structural)]
pub struct Endpoints {
    pub inlet: Record,
    pub outlet: Record,
}

/// The quotient of two logarithms: `ln(numerator) / ln(denominator)`.
#[derive(Debug, PartialEq, Eq)]
pub struct LogQuotient {
    pub numerator: Term,
    pub denominator: Term,
}

/// A power law: `factor * base ^ exponent`.
#[derive(Debug, PartialEq, Eq)]
pub struct PowerLaw {
    pub factor: Term,
    pub base: Term,
    pub exponent: Term,
}

/// The state at which the isentropic enthalpy is looked up: the selected gas
/// at the given pressure and at the isentropic outlet temperature. The model
/// is run on a record of its own, never on one of the six records of the
/// process points.
#[derive(Debug, PartialEq, Eq)]
pub struct IsentropicState {
    pub model: Model,
    pub pressure: Term,
}

/// A process can be calculated: inlet and outlet are both defined.
pub open spec fn available(app: App) -> bool {
    app.show_inlet_state && app.show_outlet_state
}

/// The inlet record of the active model.
pub open spec fn inlet(app: App) -> Record {
    Record { model: active(app.use_gerg2008), point: ProcessPoint::Inlet }
}

/// The outlet record of the active model.
pub open spec fn outlet(app: App) -> Record {
    Record { model: active(app.use_gerg2008), point: ProcessPoint::Outlet }
}

/// The reading of a property of a record.
pub open spec fn reading(of: Readings, record: Record, property: Property) -> Frac {
    of(Quantity::Recorded(record, property))
}

/// The ratio of a property: its value at the outlet over that at the inlet.
pub open spec fn ratio(app: App, property: Property, of: Readings) -> Frac {
    reading(of, outlet(app), property).over(reading(of, inlet(app), property))
}

/// The change of a property: its value at the outlet minus that at the
/// inlet, in base units.
pub open spec fn change(app: App, property: Property, of: Readings) -> Frac {
    reading(of, outlet(app), property).minus(reading(of, inlet(app), property))
}

/// The change of temperature in the active temperature unit: the difference
/// of the two displayed temperatures.
pub open spec fn displayed_temperature_change(app: App, of: Readings) -> Frac {
    temperature_display(reading(of, outlet(app), Property::Temperature), app.units.temp).minus(
        temperature_display(reading(of, inlet(app), Property::Temperature), app.units.temp),
    )
}

/// The mean of the heat capacity ratios at outlet and inlet.
pub open spec fn mean_kappa(app: App, of: Readings) -> Frac {
    reading(of, outlet(app), Property::Kappa).plus(reading(of, inlet(app), Property::Kappa)).over(
        Frac::whole(2),
    )
}

/// The exponent of the isentropic temperature law: `(k - 1) / k` for the
/// mean heat capacity ratio `k`.
pub open spec fn isentropic_exponent(app: App, of: Readings) -> Frac {
    mean_kappa(app, of).minus(Frac::whole(1)).over(mean_kappa(app, of))
}

/// The isentropic efficiency. For a pressure ratio of 1 or more it is the
/// ideal rise of enthalpy over the actual one, otherwise the actual drop
/// over the ideal one; and it is zero where that denominator is zero.
pub open spec fn efficiency(app: App, of: Readings) -> Frac {
    let h1 = reading(of, inlet(app), Property::Enthalpy);
    let h2 = reading(of, outlet(app), Property::Enthalpy);
    let hs = of(Quantity::IsentropicEnthalpy);
    if ratio(app, Property::Pressure, of).at_least_one() {
        hs.minus(h1).over_or_zero(h2.minus(h1))
    } else {
        h1.minus(h2).over_or_zero(h1.minus(hs))
    }
}

/// The polytropic efficiency `n / (n - 1) * (k - 1) / k` for the polytropic
/// exponent `n` and the mean heat capacity ratio `k`.
pub open spec fn polytropic_efficiency(app: App, of: Readings) -> Frac {
    let n = of(Quantity::PolytropicExponent);
    let k = mean_kappa(app, of);
    n.over(n.minus(Frac::whole(1))).times(k.minus(Frac::whole(1))).over(k)
}

/// The enthalpy of a record per mass, in kJ/kg.
pub open spec fn enthalpy_per_mass(of: Readings, record: Record) -> Frac {
    reading(of, record, Property::Enthalpy).over(reading(of, record, Property::MolarMass))
}

/// The work in kW: the change of enthalpy per mass times the mass flow.
pub open spec fn power(app: App, of: Readings) -> Frac {
    enthalpy_per_mass(of, outlet(app)).minus(enthalpy_per_mass(of, inlet(app))).times(
        of(Quantity::MassFlow),
    )
}

/// The speed of the wheel tip: `pi * diameter * rpm / 60`.
pub open spec fn tip_speed_value(of: Readings) -> Frac {
    of(Quantity::Pi).times(of(Quantity::WheelDiameter)).times(of(Quantity::Rpm)).over(
        Frac::whole(60),
    )
}

/// The records of a process: those of the active model at inlet and outlet.
/// There are none unless both inlet and outlet are defined.
pub fn process_endpoints(app: &App) -> (endpoints: Option<Endpoints>)
    ensures
        endpoints.is_some() <==> available(*app),
        available(*app) ==> endpoints == Some(
            (Endpoints { inlet: inlet(*app), outlet: outlet(*app) }),
        ),
{
    if app.show_inlet_state && app.show_outlet_state {
        Some(
            Endpoints {
                inlet: crate::engine::active_record(app, ProcessPoint::Inlet),
                outlet: crate::engine::active_record(app, ProcessPoint::Outlet),
            },
        )
    } else {
        None
    }
}

fn at_inlet(app: &App, property: Property) -> (term: Term)
    ensures
        term == Term::Value(Quantity::Recorded(inlet(*app), property)),
{
    Term::recorded(crate::engine::active_record(app, ProcessPoint::Inlet), property)
}

fn at_outlet(app: &App, property: Property) -> (term: Term)
    ensures
        term == Term::Value(Quantity::Recorded(outlet(*app), property)),
{
    Term::recorded(crate::engine::active_record(app, ProcessPoint::Outlet), property)
}

fn ratio_of(app: &App, property: Property) -> (term: Term)
    ensures
        forall|of: Readings| #[trigger] term_value(term, of) == ratio(*app, property, of),
{
    let term = at_outlet(app, property).over(at_inlet(app, property));
    proof {
        reveal_with_fuel(term_value, 3);
    }
    term
}

fn change_of(app: &App, property: Property) -> (term: Term)
    ensures
        forall|of: Readings| #[trigger] term_value(term, of) == change(*app, property, of),
{
    let term = at_outlet(app, property).minus(at_inlet(app, property));
    proof {
        reveal_with_fuel(term_value, 3);
    }
    term
}

fn kappa_mean(app: &App) -> (term: Term)
    ensures
        forall|of: Readings| #[trigger] term_value(term, of) == mean_kappa(*app, of),
{
    let term = at_outlet(app, Property::Kappa).plus(at_inlet(app, Property::Kappa)).over(
        Term::whole(2),
    );
    proof {
        reveal_with_fuel(term_value, 4);
    }
    term
}

/// The term of a temperature in `unit`, given the term of it in K.
pub fn temperature_shown(kelvin: Term, unit: Temperature) -> (term: Term)
    ensures
        forall|of: Readings| #[trigger]
            term_value(term, of) == temperature_display(term_value(kelvin, of), unit),
{
    let term = match unit {
        Temperature::K => kelvin,
        Temperature::C => kelvin.minus(Term::Constant(Ratio { num: 27315, den: 100 })),
        Temperature::F => kelvin.minus(Term::Constant(Ratio { num: 27315, den: 100 })).times(
            Term::whole(9),
        ).over(Term::whole(5)).plus(Term::whole(32)),
        Temperature::R => kelvin.times(Term::whole(9)).over(Term::whole(5)),
    };
    proof {
        reveal_with_fuel(term_value, 6);
    }
    term
}

/// The density ratio: the density at the outlet over that at the inlet.
pub fn density_ratio(app: &App) -> (term: Option<Term>)
    ensures
        term.is_some() <==> available(*app),
        available(*app) ==> forall|of: Readings| #[trigger]
            term_value(term.unwrap(), of) == ratio(*app, Property::Density, of),
{
    if app.show_inlet_state && app.show_outlet_state {
        Some(ratio_of(app, Property::Density))
    } else {
        None
    }
}

/// The pressure ratio: the pressure at the outlet over that at the inlet.
pub fn pressure_ratio(app: &App) -> (term: Option<Term>)
    ensures
        term.is_some() <==> available(*app),
        available(*app) ==> forall|of: Readings| #[trigger]
            term_value(term.unwrap(), of) == ratio(*app, Property::Pressure, of),
{
    if app.show_inlet_state && app.show_outlet_state {
        Some(ratio_of(app, Property::Pressure))
    } else {
        None
    }
}

/// The temperature ratio: the temperature at the outlet over that at the
/// inlet, both in K.
pub fn temperature_ratio(app: &App) -> (term: Option<Term>)
    ensures
        term.is_some() <==> available(*app),
        available(*app) ==> forall|of: Readings| #[trigger]
            term_value(term.unwrap(), of) == ratio(*app, Property::Temperature, of),
{
    if app.show_inlet_state && app.show_outlet_state {
        Some(ratio_of(app, Property::Temperature))
    } else {
        None
    }
}

/// The change of temperature in the active temperature unit: both
/// temperatures are carried to that unit first, then subtracted.
pub fn temperature_change(app: &App) -> (term: Option<Term>)
    ensures
        term.is_some() <==> available(*app),
        available(*app) ==> forall|of: Readings| #[trigger]
            term_value(term.unwrap(), of) == displayed_temperature_change(*app, of),
{
    if app.show_inlet_state && app.show_outlet_state {
        let t1 = temperature_shown(at_inlet(app, Property::Temperature), app.units.temp);
        let t2 = temperature_shown(at_outlet(app, Property::Temperature), app.units.temp);
        let ghost (from, to) = (t1, t2);
        let term = t2.minus(t1);
        assert forall|of: Readings| #[trigger]
            term_value(term, of) == displayed_temperature_change(*app, of) by {
            reveal_with_fuel(term_value, 2);
            assert(term_value(term, of) == term_value(to, of).minus(term_value(from, of)));
        }
        Some(term)
    } else {
        None
    }
}

/// The change of enthalpy in J/mol: outlet minus inlet.
pub fn enthalpy_change(app: &App) -> (term: Option<Term>)
    ensures
        term.is_some() <==> available(*app),
        available(*app) ==> forall|of: Readings| #[trigger]
            term_value(term.unwrap(), of) == change(*app, Property::Enthalpy, of),
{
    if app.show_inlet_state && app.show_outlet_state {
        Some(change_of(app, Property::Enthalpy))
    } else {
        None
    }
}

/// The change of entropy in J/(mol-K): outlet minus inlet.
pub fn entropy_change(app: &App) -> (term: Option<Term>)
    ensures
        term.is_some() <==> available(*app),
        available(*app) ==> forall|of: Readings| #[trigger]
            term_value(term.unwrap(), of) == change(*app, Property::Entropy, of),
{
    if app.show_inlet_state && app.show_outlet_state {
        Some(change_of(app, Property::Entropy))
    } else {
        None
    }
}

/// The mean of the heat capacity ratios at outlet and inlet.
pub fn ave_cp_cv(app: &App) -> (term: Option<Term>)
    ensures
        term.is_some() <==> available(*app),
        available(*app) ==> forall|of: Readings| #[trigger]
            term_value(term.unwrap(), of) == mean_kappa(*app, of),
{
    if app.show_inlet_state && app.show_outlet_state {
        Some(kappa_mean(app))
    } else {
        None
    }
}

/// The isentropic efficiency, with its sign convention for compression and
/// expansion, and zero where its denominator is exactly zero.
pub fn isentropic_eff(app: &App) -> (term: Option<Term>)
    ensures
        term.is_some() <==> available(*app),
        available(*app) ==> forall|of: Readings| #[trigger]
            term_value(term.unwrap(), of) == efficiency(*app, of),
{
    if app.show_inlet_state && app.show_outlet_state {
        let ideal_rise = Term::Value(Quantity::IsentropicEnthalpy).minus(
            at_inlet(app, Property::Enthalpy),
        );
        let actual_rise = at_outlet(app, Property::Enthalpy).minus(
            at_inlet(app, Property::Enthalpy),
        );
        let actual_drop = at_inlet(app, Property::Enthalpy).minus(
            at_outlet(app, Property::Enthalpy),
        );
        let ideal_drop = at_inlet(app, Property::Enthalpy).minus(
            Term::Value(Quantity::IsentropicEnthalpy),
        );
        let pressure_ratio = ratio_of(app, Property::Pressure);
        let ghost r = pressure_ratio;
        let term = Term::IfAtLeastOne(
            Box::new(pressure_ratio),
            Box::new(Term::QuotientOrZero(Box::new(ideal_rise), Box::new(actual_rise))),
            Box::new(Term::QuotientOrZero(Box::new(actual_drop), Box::new(ideal_drop))),
        );
        assert forall|of: Readings| #[trigger] term_value(term, of) == efficiency(*app, of) by {
            reveal_with_fuel(term_value, 4);
            assert(term_value(r, of) == ratio(*app, Property::Pressure, of));
        }
        Some(term)
    } else {
        None
    }
}

/// The polytropic exponent `ln(pressure ratio) / ln(density ratio)`, as the
/// two terms whose logarithms are taken.
pub fn compression_polytropic_exp(app: &App) -> (exponent: Option<LogQuotient>)
    ensures
        exponent.is_some() <==> available(*app),
        available(*app) ==> forall|of: Readings| #[trigger]
            term_value(exponent.unwrap().numerator, of) == ratio(*app, Property::Pressure, of),
        available(*app) ==> forall|of: Readings| #[trigger]
            term_value(exponent.unwrap().denominator, of) == ratio(*app, Property::Density, of),
{
    if app.show_inlet_state && app.show_outlet_state {
        Some(
            LogQuotient {
                numerator: ratio_of(app, Property::Pressure),
                denominator: ratio_of(app, Property::Density),
            },
        )
    } else {
        None
    }
}

/// The polytropic efficiency, from the polytropic exponent and the mean heat
/// capacity ratio.
pub fn polytropic_eff(app: &App) -> (term: Option<Term>)
    ensures
        term.is_some() <==> available(*app),
        available(*app) ==> forall|of: Readings| #[trigger]
            term_value(term.unwrap(), of) == polytropic_efficiency(*app, of),
{
    if app.show_inlet_state && app.show_outlet_state {
        let n = Term::Value(Quantity::PolytropicExponent);
        let n_less_one = Term::Value(Quantity::PolytropicExponent).minus(Term::whole(1));
        let k1 = kappa_mean(app);
        let k2 = kappa_mean(app);
        let ghost (first, second) = (k1, k2);
        let term = n.over(n_less_one).times(k1.minus(Term::whole(1))).over(k2);
        assert forall|of: Readings| #[trigger]
            term_value(term, of) == polytropic_efficiency(*app, of) by {
            reveal_with_fuel(term_value, 5);
            assert(term_value(first, of) == mean_kappa(*app, of));
            assert(term_value(second, of) == mean_kappa(*app, of));
        }
        Some(term)
    } else {
        None
    }
}

/// The work in kW: the change of enthalpy per mass times the mass flow.
pub fn work(app: &App) -> (term: Option<Term>)
    ensures
        term.is_some() <==> available(*app),
        available(*app) ==> forall|of: Readings| #[trigger]
            term_value(term.unwrap(), of) == power(*app, of),
{
    if app.show_inlet_state && app.show_outlet_state {
        let h1 = at_inlet(app, Property::Enthalpy).over(at_inlet(app, Property::MolarMass));
        let h2 = at_outlet(app, Property::Enthalpy).over(at_outlet(app, Property::MolarMass));
        let term = h2.minus(h1).times(Term::Value(Quantity::MassFlow));
        proof {
            reveal_with_fuel(term_value, 5);
        }
        Some(term)
    } else {
        None
    }
}

/// The speed of the wheel tip.
pub fn tip_speed() -> (term: Term)
    ensures
        forall|of: Readings| #[trigger] term_value(term, of) == tip_speed_value(of),
{
    let term = Term::Value(Quantity::Pi).times(Term::Value(Quantity::WheelDiameter)).times(
        Term::Value(Quantity::Rpm),
    ).over(Term::whole(60));
    proof {
        reveal_with_fuel(term_value, 5);
    }
    term
}

/// The isentropic outlet temperature in K: the inlet temperature times the
/// pressure ratio to the power of `(k - 1) / k`, with the mean heat capacity
/// ratio `k` of the two ends.
pub fn isentropic_temp(app: &App) -> (law: Option<PowerLaw>)
    ensures
        law.is_some() <==> available(*app),
        available(*app) ==> forall|of: Readings| #[trigger]
            term_value(law.unwrap().factor, of) == reading(
                of,
                inlet(*app),
                Property::Temperature,
            ),
        available(*app) ==> forall|of: Readings| #[trigger]
            term_value(law.unwrap().base, of) == ratio(*app, Property::Pressure, of),
        available(*app) ==> forall|of: Readings| #[trigger]
            term_value(law.unwrap().exponent, of) == isentropic_exponent(*app, of),
{
    if app.show_inlet_state && app.show_outlet_state {
        let k1 = kappa_mean(app);
        let k2 = kappa_mean(app);
        let ghost (first, second) = (k1, k2);
        let exponent = k1.minus(Term::whole(1)).over(k2);
        assert forall|of: Readings| #[trigger]
            term_value(exponent, of) == isentropic_exponent(*app, of) by {
            reveal_with_fuel(term_value, 3);
            assert(term_value(first, of) == mean_kappa(*app, of));
            assert(term_value(second, of) == mean_kappa(*app, of));
        }
        Some(
            PowerLaw {
                factor: at_inlet(app, Property::Temperature),
                base: ratio_of(app, Property::Pressure),
                exponent,
            },
        )
    } else {
        None
    }
}

/// The state at which the isentropic enthalpy is looked up: the active model
/// is asked about the selected gas at the outlet pressure and the isentropic
/// outlet temperature.
pub fn isentropic_enthalpy(app: &App) -> (state: Option<IsentropicState>)
    ensures
        state.is_some() <==> available(*app),
        available(*app) ==> state.unwrap().model == active(app.use_gerg2008),
        available(*app) ==> forall|of: Readings| #[trigger]
            term_value(state.unwrap().pressure, of) == reading(
                of,
                outlet(*app),
                Property::Pressure,
            ),
{
    if app.show_inlet_state && app.show_outlet_state {
        let record = crate::engine::active_record(app, ProcessPoint::Outlet);
        proof {
            reveal_with_fuel(term_value, 2);
        }
        Some(IsentropicState { model: record.model, pressure: Term::recorded(record, Property::Pressure) })
    } else {
        None
    }
}

/// The isentropic change of enthalpy in J/mol: the isentropic enthalpy minus
/// the enthalpy at the inlet.
pub fn isentropic_enthalpy_change(app: &App) -> (term: Option<Term>)
    ensures
        term.is_some() <==> available(*app),
        available(*app) ==> forall|of: Readings| #[trigger]
            term_value(term.unwrap(), of) == of(Quantity::IsentropicEnthalpy).minus(
                reading(of, inlet(*app), Property::Enthalpy),
            ),
{
    if app.show_inlet_state && app.show_outlet_state {
        let term = Term::Value(Quantity::IsentropicEnthalpy).minus(
            at_inlet(app, Property::Enthalpy),
        );
        proof {
            reveal_with_fuel(term_value, 3);
        }
        Some(term)
    } else {
        None
    }
}

/// The kind of process, from how the pressure ratio stands to 1: below it an
/// expansion, above it a compression, and isobaric otherwise.
pub fn process_mode(ratio_to_one: Comparison) -> (mode: ProcessMode)
    ensures
        ratio_to_one == Comparison::Less ==> mode == ProcessMode::Expansion,
        ratio_to_one == Comparison::Greater ==> mode == ProcessMode::Compression,
        ratio_to_one == Comparison::Equal ==> mode == ProcessMode::Isobaric,
        ratio_to_one == Comparison::Unordered ==> mode == ProcessMode::Isobaric,
{
    match ratio_to_one {
        Comparison::Less => ProcessMode::Expansion,
        Comparison::Greater => ProcessMode::Compression,
        _ => ProcessMode::Isobaric,
    }
}

/// An efficiency is reported as implausible where it lies outside of 0 to 1:
/// below 0 or above 1. It is shown as it is all the same.
pub fn efficiency_implausible(to_zero: Comparison, to_one: Comparison) -> (implausible: bool)
    ensures
        implausible <==> to_zero == Comparison::Less || to_one == Comparison::Greater,
{
    match (to_zero, to_one) {
        (Comparison::Less, _) => true,
        (_, Comparison::Greater) => true,
        _ => false,
    }
}

/// The label of a process mode.
pub fn mode_text(mode: ProcessMode) -> (text: &'static str)
    ensures
        mode == ProcessMode::Expansion ==> text@ == "Expansion"@,
        mode == ProcessMode::Compression ==> text@ == "Compression"@,
        mode == ProcessMode::Isobaric ==> text@ == "Isobaric"@,
{
    match mode {
        ProcessMode::Expansion => "Expansion",
        ProcessMode::Compression => "Compression",
        ProcessMode::Isobaric => "Isobaric",
    }
}

/// The isentropic efficiency is exactly zero where its denominator is zero:
/// for a pressure ratio of 1 or more where outlet and inlet enthalpy are the
/// same number, below it where inlet and isentropic enthalpy are.
pub proof fn lemma_efficiency_zero(app: App, of: Readings)
    requires
        ratio(app, Property::Pressure, of).at_least_one() ==> reading(
            of,
            outlet(app),
            Property::Enthalpy,
        ).same(reading(of, inlet(app), Property::Enthalpy)),
        !ratio(app, Property::Pressure, of).at_least_one() ==> reading(
            of,
            inlet(app),
            Property::Enthalpy,
        ).same(of(Quantity::IsentropicEnthalpy)),
    ensures
        efficiency(app, of) == Frac::whole(0),
{
}

/// Switching the model changes the records that every process quantity is
/// computed from, and nothing else of it: each reads the inlet and outlet
/// records of the model that is active then.
pub proof fn lemma_quantities_follow_the_model(app: App)
    ensures
        inlet(App { use_gerg2008: !app.use_gerg2008, ..app }).model != inlet(app).model,
        outlet(App { use_gerg2008: !app.use_gerg2008, ..app }).model != outlet(app).model,
        inlet(App { use_gerg2008: !app.use_gerg2008, ..app }).point == ProcessPoint::Inlet,
        outlet(App { use_gerg2008: !app.use_gerg2008, ..app }).point == ProcessPoint::Outlet,
        available(App { use_gerg2008: !app.use_gerg2008, ..app }) == available(app),
{
}

} // verus!
