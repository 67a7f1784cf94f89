//! What is shown: the properties of a gas state record and the process
//! quantities in the order of their rows, each with its label, its unit and
//! the formula from the base unit; and how an entered flow is taken.

use vstd::prelude::*;
use crate::convert::{
    density_display, energy_display, entropy_display, jt_display, pressure_display,
    speed_display, temperature_display,
};
use crate::calculations::available;
use crate::engine::{active, ProcessPoint, Property, Record};
use crate::exact::Frac;
use crate::flow::{flow_base, reference_query, FlowConversion};
use crate::formula::{formula_value, Conditions, Step};
use crate::state::App;
use crate::units::{PrintUnit, Units};

verus! {

/// What is shown of one process point: the record that is read and the
/// properties in the order of their rows.
#[derive(Debug)]
pub struct PropertyTable {
    pub record: Record,
    pub rows: Vec<Property>,
}

/// A quantity in the lists of process quantities.
#[derive(Clone, Copy, Debug, PartialEq, Eq, Structural)]
pub enum Derived {
    PressureRatio,
    TemperatureRatio,
    TemperatureChange,
    EnthalpyChange,
    EntropyChange,
    AveCpCv,
    IsentropicTemperature,
    IsentropicEnthalpy,
    IsentropicEfficiency,
    IsentropicEnthalpyChange,
}

/// The three lists of process quantities, each from top to bottom.
#[derive(Debug)]
pub struct CalculationTable {
    pub state_change: Vec<Derived>,
    pub isentropic: Vec<Derived>,
    pub summary: Vec<Derived>,
}

/// The list of the changes of state.
pub open spec fn state_change_rows() -> Seq<Derived> {
    seq![
        Derived::PressureRatio,
        Derived::TemperatureRatio,
        Derived::TemperatureChange,
        Derived::EnthalpyChange,
        Derived::EntropyChange,
        Derived::AveCpCv,
    ]
}

/// The list of the isentropic quantities.
pub open spec fn isentropic_rows() -> Seq<Derived> {
    seq![
        Derived::IsentropicTemperature,
        Derived::IsentropicEnthalpy,
        Derived::IsentropicEfficiency,
        Derived::IsentropicEnthalpyChange,
    ]
}

/// The list that sums up: the isentropic quantities with the efficiency last.
pub open spec fn summary_rows() -> Seq<Derived> {
    seq![
        Derived::IsentropicTemperature,
        Derived::IsentropicEnthalpy,
        Derived::IsentropicEnthalpyChange,
        Derived::IsentropicEfficiency,
    ]
}

/// The value that is shown for a process quantity whose value is `x`: base
/// units are carried to the active display unit of the quantity. Ratios and
/// the efficiency have no unit, and the change of temperature is taken in the
/// display unit to begin with.
pub open spec fn shown_derived(which: Derived, x: Frac, units: Units, c: Conditions) -> Frac {
    match which {
        Derived::EnthalpyChange | Derived::IsentropicEnthalpy
        | Derived::IsentropicEnthalpyChange => energy_display(x, units.energy, c),
        Derived::EntropyChange => entropy_display(x, units.entropy, c),
        Derived::IsentropicTemperature => temperature_display(x, units.temp),
        Derived::PressureRatio | Derived::TemperatureRatio | Derived::TemperatureChange
        | Derived::AveCpCv | Derived::IsentropicEfficiency => x,
    }
}

/// The unit that is shown behind a process quantity.
pub open spec fn derived_unit_label(which: Derived, units: Units) -> Seq<char> {
    match which {
        Derived::EnthalpyChange | Derived::IsentropicEnthalpy
        | Derived::IsentropicEnthalpyChange => units.energy.label(),
        Derived::EntropyChange => units.entropy.label(),
        Derived::TemperatureChange | Derived::IsentropicTemperature => units.temp.label(),
        Derived::PressureRatio | Derived::TemperatureRatio | Derived::AveCpCv
        | Derived::IsentropicEfficiency => "[]"@,
    }
}

/// The name of a process quantity in its row.
pub open spec fn derived_name(which: Derived) -> Seq<char> {
    match which {
        Derived::PressureRatio => "Press Ratio:"@,
        Derived::TemperatureRatio => "Temp Ratio:"@,
        Derived::TemperatureChange => "Temp Change:"@,
        Derived::EnthalpyChange => "Enthalpy Change:"@,
        Derived::EntropyChange => "Entropy Change:"@,
        Derived::AveCpCv => "Ave Cp/Cv:"@,
        Derived::IsentropicTemperature => "Temperature Ts:"@,
        Derived::IsentropicEnthalpy => "Enthalpy Hs:"@,
        Derived::IsentropicEfficiency => "Efficiency:"@,
        Derived::IsentropicEnthalpyChange => "Enthalpy Change:"@,
    }
}

/// The rows of a process point, from top to bottom.
pub open spec fn rows() -> Seq<Property> {
    seq![
        Property::Pressure,
        Property::Temperature,
        Property::Density,
        Property::MolarMass,
        Property::InternalEnergy,
        Property::Enthalpy,
        Property::Entropy,
        Property::Cp,
        Property::Cv,
        Property::Kappa,
        Property::Z,
        Property::SpeedOfSound,
        Property::JouleThomson,
    ]
}

/// The value that is shown for a property whose value in base units is `x`.
/// Energies go by the energy unit, entropy and both heat capacities by the
/// entropy unit; molar mass, heat capacity ratio and compressibility factor
/// are shown as they are.
pub open spec fn shown_value(property: Property, x: Frac, units: Units, c: Conditions) -> Frac {
    match property {
        Property::Pressure => pressure_display(x, units.pressure),
        Property::Temperature => temperature_display(x, units.temp),
        Property::Density => density_display(x, units.density, c),
        Property::InternalEnergy | Property::Enthalpy => energy_display(x, units.energy, c),
        Property::Entropy | Property::Cp | Property::Cv => entropy_display(
            x,
            units.entropy,
            c,
        ),
        Property::SpeedOfSound => speed_display(x, units.speed),
        Property::JouleThomson => jt_display(x, units.jt_coeff),
        Property::MolarMass | Property::Kappa | Property::Z => x,
    }
}

/// The unit that is shown behind the value of a property.
pub open spec fn shown_unit(property: Property, units: Units) -> Seq<char> {
    match property {
        Property::Pressure => units.pressure.label(),
        Property::Temperature => units.temp.label(),
        Property::Density => units.density.label(),
        Property::MolarMass => "g/mol"@,
        Property::InternalEnergy | Property::Enthalpy => units.energy.label(),
        Property::Entropy | Property::Cp | Property::Cv => units.entropy.label(),
        Property::Kappa | Property::Z => "[]"@,
        Property::SpeedOfSound => units.speed.label(),
        Property::JouleThomson => units.jt_coeff.label(),
    }
}

/// The name of a property in its row.
pub open spec fn row_name(property: Property) -> Seq<char> {
    match property {
        Property::Pressure => "Pressure:"@,
        Property::Temperature => "Temperature:"@,
        Property::Density => "Density:"@,
        Property::MolarMass => "Molar Mass:"@,
        Property::InternalEnergy => "Internal Energy:"@,
        Property::Enthalpy => "Enthalpy:"@,
        Property::Entropy => "Entropy:"@,
        Property::Cp => "Cp:"@,
        Property::Cv => "Cv:"@,
        Property::Kappa => "Cp/Cv (k):"@,
        Property::Z => "Z:"@,
        Property::SpeedOfSound => "Speed of Sound:"@,
        Property::JouleThomson => "JT Coeff:"@,
    }
}

/// The record that is read for a process point, and the rows that are shown
/// of it.
pub fn get_gas_properties(app: &App, state: ProcessPoint) -> (table: PropertyTable)
    ensures
        table.record == (Record { model: active(app.use_gerg2008), point: state }),
        table.rows@ == rows(),
{
    let rows = vec![
        Property::Pressure,
        Property::Temperature,
        Property::Density,
        Property::MolarMass,
        Property::InternalEnergy,
        Property::Enthalpy,
        Property::Entropy,
        Property::Cp,
        Property::Cv,
        Property::Kappa,
        Property::Z,
        Property::SpeedOfSound,
        Property::JouleThomson,
    ];
    PropertyTable { record: crate::engine::active_record(app, state), rows }
}

/// The formula that carries a property from its base unit to the unit in
/// which it is shown.
pub fn property_formula(property: Property, units: &Units) -> (steps: Vec<Step>)
    ensures
        forall|x: Frac, c: Conditions| #[trigger]
            formula_value(steps@, x, c) == shown_value(property, x, *units, c),
{
    match property {
        Property::Pressure => crate::convert::get_pressure(units.pressure),
        Property::Temperature => crate::convert::get_temperature(units.temp),
        Property::Density => crate::convert::get_density(units.density),
        Property::InternalEnergy | Property::Enthalpy => crate::convert::get_energy(units.energy),
        Property::Entropy | Property::Cp | Property::Cv => crate::convert::get_entropy(
            units.entropy,
        ),
        Property::SpeedOfSound => crate::convert::get_speed(units.speed),
        Property::JouleThomson => crate::convert::get_jt_coeff(units.jt_coeff),
        Property::MolarMass | Property::Kappa | Property::Z => Vec::new(),
    }
}

/// The unit that is shown behind the value of a property.
pub fn property_unit(property: Property, units: &Units) -> (text: &'static str)
    ensures
        text@ == shown_unit(property, *units),
{
    match property {
        Property::Pressure => units.pressure.print_unit(),
        Property::Temperature => units.temp.print_unit(),
        Property::Density => units.density.print_unit(),
        Property::MolarMass => "g/mol",
        Property::InternalEnergy | Property::Enthalpy => units.energy.print_unit(),
        Property::Entropy | Property::Cp | Property::Cv => units.entropy.print_unit(),
        Property::Kappa | Property::Z => "[]",
        Property::SpeedOfSound => units.speed.print_unit(),
        Property::JouleThomson => units.jt_coeff.print_unit(),
    }
}

/// The name of a property in its row.
pub fn property_label(property: Property) -> (text: &'static str)
    ensures
        text@ == row_name(property),
{
    match property {
        Property::Pressure => "Pressure:",
        Property::Temperature => "Temperature:",
        Property::Density => "Density:",
        Property::MolarMass => "Molar Mass:",
        Property::InternalEnergy => "Internal Energy:",
        Property::Enthalpy => "Enthalpy:",
        Property::Entropy => "Entropy:",
        Property::Cp => "Cp:",
        Property::Cv => "Cv:",
        Property::Kappa => "Cp/Cv (k):",
        Property::Z => "Z:",
        Property::SpeedOfSound => "Speed of Sound:",
        Property::JouleThomson => "JT Coeff:",
    }
}

/// The lists of process quantities. There are none unless both inlet and
/// outlet are defined.
pub fn run_calculations(app: &App) -> (table: Option<CalculationTable>)
    ensures
        table.is_some() <==> available(*app),
        available(*app) ==> table.unwrap().state_change@ == state_change_rows(),
        available(*app) ==> table.unwrap().isentropic@ == isentropic_rows(),
        available(*app) ==> table.unwrap().summary@ == summary_rows(),
{
    if app.show_inlet_state && app.show_outlet_state {
        Some(
            CalculationTable {
                state_change: vec![
                    Derived::PressureRatio,
                    Derived::TemperatureRatio,
                    Derived::TemperatureChange,
                    Derived::EnthalpyChange,
                    Derived::EntropyChange,
                    Derived::AveCpCv,
                ],
                isentropic: vec![
                    Derived::IsentropicTemperature,
                    Derived::IsentropicEnthalpy,
                    Derived::IsentropicEfficiency,
                    Derived::IsentropicEnthalpyChange,
                ],
                summary: vec![
                    Derived::IsentropicTemperature,
                    Derived::IsentropicEnthalpy,
                    Derived::IsentropicEnthalpyChange,
                    Derived::IsentropicEfficiency,
                ],
            },
        )
    } else {
        None
    }
}

/// The formula that carries a process quantity to the unit in which it is
/// shown.
pub fn derived_formula(which: Derived, units: &Units) -> (steps: Vec<Step>)
    ensures
        forall|x: Frac, c: Conditions| #[trigger]
            formula_value(steps@, x, c) == shown_derived(which, x, *units, c),
{
    match which {
        Derived::EnthalpyChange | Derived::IsentropicEnthalpy
        | Derived::IsentropicEnthalpyChange => crate::convert::get_energy(units.energy),
        Derived::EntropyChange => crate::convert::get_entropy(units.entropy),
        Derived::IsentropicTemperature => crate::convert::get_temperature(units.temp),
        Derived::PressureRatio | Derived::TemperatureRatio | Derived::TemperatureChange
        | Derived::AveCpCv | Derived::IsentropicEfficiency => Vec::new(),
    }
}

/// The unit that is shown behind a process quantity.
pub fn derived_unit(which: Derived, units: &Units) -> (text: &'static str)
    ensures
        text@ == derived_unit_label(which, *units),
{
    match which {
        Derived::EnthalpyChange | Derived::IsentropicEnthalpy
        | Derived::IsentropicEnthalpyChange => units.energy.print_unit(),
        Derived::EntropyChange => units.entropy.print_unit(),
        Derived::TemperatureChange | Derived::IsentropicTemperature => units.temp.print_unit(),
        Derived::PressureRatio | Derived::TemperatureRatio | Derived::AveCpCv
        | Derived::IsentropicEfficiency => "[]",
    }
}

/// The name of a process quantity in its row.
pub fn derived_label(which: Derived) -> (text: &'static str)
    ensures
        text@ == derived_name(which),
{
    match which {
        Derived::PressureRatio => "Press Ratio:",
        Derived::TemperatureRatio => "Temp Ratio:",
        Derived::TemperatureChange => "Temp Change:",
        Derived::EnthalpyChange => "Enthalpy Change:",
        Derived::EntropyChange => "Entropy Change:",
        Derived::AveCpCv => "Ave Cp/Cv:",
        Derived::IsentropicTemperature => "Temperature Ts:",
        Derived::IsentropicEnthalpy => "Enthalpy Hs:",
        Derived::IsentropicEfficiency => "Efficiency:",
        Derived::IsentropicEnthalpyChange => "Enthalpy Change:",
    }
}

/// How an entered flow is taken: from the active flow unit to kg/s, with
/// the reference density of the active model under the standard that is set.
pub fn set_cur_flow(app: &App) -> (conversion: FlowConversion)
    ensures
        forall|x: Frac, c: Conditions| #[trigger]
            formula_value(conversion.steps@, x, c) == flow_base(x, app.units.flow, c),
        conversion.reference == reference_query(app.units.flow, app.stp_60_F, app.use_gerg2008),
{
    crate::flow::set_flow(app.units.flow, app.stp_60_F, app.use_gerg2008)
}

} // verus!
