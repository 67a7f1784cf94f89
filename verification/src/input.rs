//! What a key press does, depending on the dialog that has the keyboard.
//!
//! The caller reads the keys and owns the line of text that a value is typed
//! into. For each key it asks `handle_key`, which changes the session state
//! and says what is to be done with the line of text and with the gas state
//! records.

use vstd::prelude::*;
use crate::engine::{
    all_records, both_models, schedule, snapshot, Input, Mutation, OracleCall, ProcessPoint,
    Source, Write,
};
use crate::gas::{preset, Gas};
use crate::state::App;
use crate::units::{Density, Energy, Entropy, Flow, Pressure, Speed, Temperature, Units};

verus! {

/// A key.
#[derive(Clone, Copy, Debug, PartialEq, Eq, Structural)]
pub enum Key {
    Enter,
    Esc,
    Backspace,
    Char(char),
    /// Any other key.
    Other,
}

/// The dialog that has the keyboard.
#[derive(Clone, Copy, Debug, PartialEq, Eq, Structural)]
pub enum Dialog {
    /// The line of text in which a value is entered.
    Entry,
    Gas,
    SelectUnit,
    PressureUnits,
    TemperatureUnits,
    DensityUnits,
    EnergyUnits,
    EntropyUnits,
    SpeedUnits,
    FlowUnits,
    /// No dialog: the main screen.
    Main,
}

/// A value that can be entered.
#[derive(Clone, Copy, Debug, PartialEq, Eq, Structural)]
pub enum Field {
    Pressure,
    Temperature,
    Flow,
    InputSpeed,
    GearRatio,
    WheelDiameter,
}

/// What the caller does with the line of text, or that it ends the session.
#[derive(Clone, Copy, Debug, PartialEq, Eq, Structural)]
pub enum Action {
    Nothing,
    /// End the session.
    Quit,
    /// Append the character to the line.
    InsertChar(char),
    /// Delete the last character of the line.
    DeleteChar,
    /// Take the line as the new value of the field, if there is a field and
    /// the line is a number; otherwise leave every value as it is. Then empty
    /// the line.
    Submit(Option<Field>),
    /// Empty the line.
    Discard,
}

/// What becomes of a submitted line of text.
#[derive(Debug)]
pub struct Entry {
    /// The field whose value the caller keeps itself, if the line is taken
    /// for such a field.
    pub keep: Option<Field>,
    /// The records that the value is written to, and the recalculation.
    pub mutation: Mutation,
}

/// What a key press asks of the caller.
#[derive(Debug)]
pub struct Outcome {
    pub action: Action,
    pub mutation: Mutation,
}

/// Whether std's `char::is_numeric` holds of the character.
pub uninterp spec fn char_is_numeric(c: char) -> bool;

/// Calls `char::is_numeric` of std, which tells whether the character is in
/// one of Unicode's general categories for numbers. The result depends on
/// the character alone; nothing else is claimed of it.
#[verifier::external_body]
fn is_numeric(c: char) -> (numeric: bool)
    ensures
        numeric == char_is_numeric(c),
{
    c.is_numeric()
}

/// The dialog that has the keyboard.
pub open spec fn dialog(app: App) -> Dialog {
    if app.input_modal_active {
        Dialog::Entry
    } else if app.gas_modal_visible {
        Dialog::Gas
    } else if app.select_unit_modal_visible {
        Dialog::SelectUnit
    } else if app.pressure_units_modal_visible {
        Dialog::PressureUnits
    } else if app.temperature_units_modal_visible {
        Dialog::TemperatureUnits
    } else if app.density_units_modal_visible {
        Dialog::DensityUnits
    } else if app.energy_units_modal_visible {
        Dialog::EnergyUnits
    } else if app.entropy_units_modal_visible {
        Dialog::EntropyUnits
    } else if app.speed_units_modal_visible {
        Dialog::SpeedUnits
    } else if app.flow_units_modal_visible {
        Dialog::FlowUnits
    } else {
        Dialog::Main
    }
}

/// The field that the line of text is for.
pub open spec fn entry_field(app: App) -> Option<Field> {
    if app.pressure_modal_visible {
        Some(Field::Pressure)
    } else if app.temperature_modal_visible {
        Some(Field::Temperature)
    } else if app.flow_modal_visible {
        Some(Field::Flow)
    } else if app.input_speed_modal_visible {
        Some(Field::InputSpeed)
    } else if app.gear_ratio_modal_visible {
        Some(Field::GearRatio)
    } else if app.wheel_diameter_modal_visible {
        Some(Field::WheelDiameter)
    } else {
        None
    }
}

/// The state with the entry dialog closed, whatever it was for.
pub open spec fn entry_closed(app: App) -> App {
    App {
        input_modal_active: false,
        pressure_modal_visible: false,
        temperature_modal_visible: false,
        flow_modal_visible: false,
        input_speed_modal_visible: false,
        gear_ratio_modal_visible: false,
        wheel_diameter_modal_visible: false,
        ..app
    }
}

/// The gas that a digit selects in the gas dialog.
pub open spec fn gas_choice(c: char) -> Option<Gas> {
    if c == '1' {
        Some(Gas::Air)
    } else if c == '2' {
        Some(Gas::Argon)
    } else if c == '3' {
        Some(Gas::CO)
    } else if c == '4' {
        Some(Gas::CO2)
    } else if c == '5' {
        Some(Gas::Helium)
    } else if c == '6' {
        Some(Gas::Hydrogen)
    } else if c == '7' {
        Some(Gas::Nitrogen)
    } else if c == '8' {
        Some(Gas::Oxygen)
    } else {
        None
    }
}

/// The name under which a preset gas is shown.
pub open spec fn gas_name(gas: Gas) -> &'static str {
    match gas {
        Gas::Air => "Air",
        Gas::Argon => "Argon",
        Gas::CO => "Carbon Monoxide",
        Gas::CO2 => "Carbon Dioxide",
        Gas::Helium => "Helium",
        Gas::Hydrogen => "Hydrogen",
        Gas::Nitrogen => "Nitrogen",
        Gas::Oxygen => "Oxygen",
    }
}

/// The pressure unit that a digit selects.
pub open spec fn pressure_choice(c: char) -> Option<Pressure> {
    if c == '1' {
        Some(Pressure::kPa)
    } else if c == '2' {
        Some(Pressure::Bar)
    } else if c == '3' {
        Some(Pressure::PSI)
    } else {
        None
    }
}

/// The temperature unit that a digit selects.
pub open spec fn temperature_choice(c: char) -> Option<Temperature> {
    if c == '1' {
        Some(Temperature::K)
    } else if c == '2' {
        Some(Temperature::C)
    } else if c == '3' {
        Some(Temperature::R)
    } else if c == '4' {
        Some(Temperature::F)
    } else {
        None
    }
}

/// The density unit that a digit selects.
pub open spec fn density_choice(c: char) -> Option<Density> {
    if c == '1' {
        Some(Density::mol_l)
    } else if c == '2' {
        Some(Density::kg_m3)
    } else if c == '3' {
        Some(Density::lbm_ft3)
    } else {
        None
    }
}

/// The energy unit that a digit selects.
pub open spec fn energy_choice(c: char) -> Option<Energy> {
    if c == '1' {
        Some(Energy::J_mol)
    } else if c == '2' {
        Some(Energy::kJ_kg)
    } else if c == '3' {
        Some(Energy::BTU_lbm)
    } else {
        None
    }
}

/// The entropy unit that a digit selects.
pub open spec fn entropy_choice(c: char) -> Option<Entropy> {
    if c == '1' {
        Some(Entropy::J_mol_K)
    } else if c == '2' {
        Some(Entropy::kJ_kg_K)
    } else if c == '3' {
        Some(Entropy::BTU_lbm_R)
    } else {
        None
    }
}

/// The speed unit that a digit selects.
pub open spec fn speed_choice(c: char) -> Option<Speed> {
    if c == '1' {
        Some(Speed::m_s)
    } else if c == '2' {
        Some(Speed::ft_s)
    } else {
        None
    }
}

/// The flow unit that a digit selects.
pub open spec fn flow_choice(c: char) -> Option<Flow> {
    if c == '1' {
        Some(Flow::kg_s)
    } else if c == '2' {
        Some(Flow::kg_m)
    } else if c == '3' {
        Some(Flow::kg_h)
    } else if c == '4' {
        Some(Flow::lbm_s)
    } else if c == '5' {
        Some(Flow::lbm_m)
    } else if c == '6' {
        Some(Flow::lbm_h)
    } else if c == '7' {
        Some(Flow::Nm3_h)
    } else if c == '8' {
        Some(Flow::scfm)
    } else if c == '9' {
        Some(Flow::scfh)
    } else {
        None
    }
}

/// A character that may be typed into the line of text: a numeric character,
/// a point or a minus sign. `numeric` says whether the character is numeric.
pub open spec fn typed(c: char, numeric: bool) -> bool {
    numeric || c == '.' || c == '-'
}

/// The state after a key in the entry dialog. Enter and Esc close it. `u`
/// leaves it for the unit dialog of the value, where the value has units.
pub open spec fn entry_state(app: App, key: Key) -> App {
    match key {
        Key::Enter | Key::Esc => entry_closed(app),
        Key::Char(c) => if c != 'u' {
            app
        } else if app.pressure_modal_visible {
            App {
                pressure_units_modal_visible: true,
                pressure_modal_visible: false,
                input_modal_active: false,
                ..app
            }
        } else if app.temperature_modal_visible {
            App {
                temperature_units_modal_visible: true,
                temperature_modal_visible: false,
                input_modal_active: false,
                ..app
            }
        } else if app.flow_modal_visible {
            App {
                flow_units_modal_visible: true,
                flow_modal_visible: false,
                input_modal_active: false,
                ..app
            }
        } else {
            app
        },
        _ => app,
    }
}

/// What a key in the entry dialog does to the line of text.
pub open spec fn entry_action(app: App, key: Key, numeric: bool) -> Action {
    match key {
        Key::Enter => Action::Submit(entry_field(app)),
        Key::Esc => Action::Discard,
        Key::Backspace => Action::DeleteChar,
        Key::Char(c) => if c != 'u' && typed(c, numeric) {
            Action::InsertChar(c)
        } else {
            Action::Nothing
        },
        Key::Other => Action::Nothing,
    }
}

/// The state after a key in the gas dialog. Enter and Esc close it; a digit
/// from 1 to 8 selects a preset gas, 9 a gas of the user's own.
pub open spec fn gas_state(app: App, key: Key) -> App {
    match key {
        Key::Enter | Key::Esc => App { gas_modal_visible: false, ..app },
        Key::Char(c) => match gas_choice(c) {
            Some(gas) => App {
                gas_comp: preset(gas),
                gas_text: gas_name(gas),
                gas_modal_visible: false,
                ..app
            },
            None => if c == '9' {
                App { gas_text: "Custom", gas_modal_visible: false, ..app }
            } else {
                app
            },
        },
        _ => app,
    }
}

/// The state after a key in the dialog that selects a kind of unit.
pub open spec fn select_unit_state(app: App, key: Key) -> App {
    let closed = App { select_unit_modal_visible: false, ..app };
    match key {
        Key::Enter | Key::Esc => closed,
        Key::Char(c) => if c == '1' {
            App { pressure_units_modal_visible: true, ..closed }
        } else if c == '2' {
            App { temperature_units_modal_visible: true, ..closed }
        } else if c == '3' {
            App { density_units_modal_visible: true, ..closed }
        } else if c == '4' {
            App { energy_units_modal_visible: true, ..closed }
        } else if c == '5' {
            App { entropy_units_modal_visible: true, ..closed }
        } else if c == '6' {
            App { speed_units_modal_visible: true, ..closed }
        } else if c == '7' {
            App { flow_units_modal_visible: true, ..closed }
        } else {
            app
        },
        _ => app,
    }
}

/// The units after a digit in one of the unit dialogs, if the digit stands
/// for a unit there.
pub open spec fn unit_choice(which: Dialog, c: char, units: Units) -> Option<Units> {
    match which {
        Dialog::PressureUnits => match pressure_choice(c) {
            Some(unit) => Some(Units { pressure: unit, ..units }),
            None => None,
        },
        Dialog::TemperatureUnits => match temperature_choice(c) {
            Some(unit) => Some(Units { temp: unit, ..units }),
            None => None,
        },
        Dialog::DensityUnits => match density_choice(c) {
            Some(unit) => Some(Units { density: unit, ..units }),
            None => None,
        },
        Dialog::EnergyUnits => match energy_choice(c) {
            Some(unit) => Some(Units { energy: unit, ..units }),
            None => None,
        },
        Dialog::EntropyUnits => match entropy_choice(c) {
            Some(unit) => Some(Units { entropy: unit, ..units }),
            None => None,
        },
        Dialog::SpeedUnits => match speed_choice(c) {
            Some(unit) => Some(Units { speed: unit, ..units }),
            None => None,
        },
        Dialog::FlowUnits => match flow_choice(c) {
            Some(unit) => Some(Units { flow: unit, ..units }),
            None => None,
        },
        _ => None,
    }
}

/// The state with the unit dialog `which` closed.
pub open spec fn units_closed(app: App, which: Dialog) -> App {
    match which {
        Dialog::PressureUnits => App { pressure_units_modal_visible: false, ..app },
        Dialog::TemperatureUnits => App { temperature_units_modal_visible: false, ..app },
        Dialog::DensityUnits => App { density_units_modal_visible: false, ..app },
        Dialog::EnergyUnits => App { energy_units_modal_visible: false, ..app },
        Dialog::EntropyUnits => App { entropy_units_modal_visible: false, ..app },
        Dialog::SpeedUnits => App { speed_units_modal_visible: false, ..app },
        Dialog::FlowUnits => App { flow_units_modal_visible: false, ..app },
        _ => app,
    }
}

/// The state after a key in one of the unit dialogs. Enter and Esc close the
/// dialog; a digit that stands for a unit selects the unit and closes the
/// dialog. The one exception: with lbm/hr the flow unit dialog stays open,
/// and the speed unit dialog is closed instead.
pub open spec fn units_state(app: App, which: Dialog, key: Key) -> App {
    match key {
        Key::Enter | Key::Esc => units_closed(app, which),
        Key::Char(c) => match unit_choice(which, c, app.units) {
            Some(units) => if which == Dialog::FlowUnits && units.flow == Flow::lbm_h {
                App { units, speed_units_modal_visible: false, ..app }
            } else {
                App { units, ..units_closed(app, which) }
            },
            None => app,
        },
        _ => app,
    }
}

/// The state after a key on the main screen.
pub open spec fn main_state(app: App, key: Key) -> App {
    match key {
        Key::Char(c) => if c == 'p' {
            App { pressure_modal_visible: !app.pressure_modal_visible, ..app }
        } else if c == 't' {
            App { temperature_modal_visible: !app.temperature_modal_visible, ..app }
        } else if c == 'u' {
            App { select_unit_modal_visible: !app.select_unit_modal_visible, ..app }
        } else if c == 'i' {
            App { show_inlet_state: true, ..app }
        } else if c == 'o' {
            App { show_outlet_state: true, ..app }
        } else if c == 'm' {
            App { use_gerg2008: !app.use_gerg2008, ..app }
        } else if c == 'c' {
            App { show_inlet_state: false, show_outlet_state: false, ..app }
        } else if c == 'g' {
            App { gas_modal_visible: !app.gas_modal_visible, ..app }
        } else if c == 'f' {
            App { flow_modal_visible: !app.flow_modal_visible, ..app }
        } else if c == 's' {
            App {
                input_speed_modal_visible: !app.input_speed_modal_visible,
                input_modal_active: true,
                ..app
            }
        } else if c == 'r' {
            App { gear_ratio_modal_visible: true, input_modal_active: true, ..app }
        } else if c == 'w' {
            App { wheel_diameter_modal_visible: true, input_modal_active: true, ..app }
        } else {
            app
        },
        _ => app,
    }
}

/// The state after a key.
pub open spec fn key_state(app: App, key: Key) -> App {
    match dialog(app) {
        Dialog::Entry => entry_state(app, key),
        Dialog::Gas => gas_state(app, key),
        Dialog::SelectUnit => select_unit_state(app, key),
        Dialog::Main => main_state(app, key),
        which => units_state(app, which, key),
    }
}

/// What a key does to the line of text, or that it ends the session. Only
/// the entry dialog touches the line, and only `q` on the main screen ends
/// the session.
pub open spec fn key_action(app: App, key: Key, numeric: bool) -> Action {
    match dialog(app) {
        Dialog::Entry => entry_action(app, key, numeric),
        Dialog::Main => if key == Key::Char('q') {
            Action::Quit
        } else {
            Action::Nothing
        },
        _ => Action::Nothing,
    }
}

/// The records that a key has written: selecting a preset gas writes its
/// composition to all six records, `i` and `o` on the main screen write the
/// snapshot of the current point to inlet and outlet.
pub open spec fn key_writes(app: App, key: Key) -> Seq<Write> {
    match (dialog(app), key) {
        (Dialog::Gas, Key::Char(c)) => if gas_choice(c).is_some() {
            all_records(Input::Composition, Source::SelectedGas)
        } else {
            Seq::empty()
        },
        (Dialog::Main, Key::Char(c)) => if c == 'i' {
            snapshot(ProcessPoint::Inlet)
        } else if c == 'o' {
            snapshot(ProcessPoint::Outlet)
        } else {
            Seq::empty()
        },
        _ => Seq::empty(),
    }
}

/// The key is followed by a recalculation: it selects a preset gas, or it is
/// `i`, `o` or `m` on the main screen.
pub open spec fn key_recalculates(app: App, key: Key) -> bool {
    match (dialog(app), key) {
        (Dialog::Gas, Key::Char(c)) => gas_choice(c).is_some(),
        (Dialog::Main, Key::Char(c)) => c == 'i' || c == 'o' || c == 'm',
        _ => false,
    }
}

/// One for a dialog that is on screen, zero for one that is not.
pub open spec fn shown(flag: bool) -> int {
    if flag {
        1
    } else {
        0
    }
}

/// A submitted line is taken: there is a field for it and it is a number.
pub open spec fn taken(field: Option<Field>, is_number: bool) -> bool {
    field.is_some() && is_number
}

/// The writes of a submitted line: a pressure or a temperature that is taken
/// goes to the current records of both models.
pub open spec fn entry_writes(field: Option<Field>, is_number: bool) -> Seq<Write> {
    if taken(field, is_number) && field == Some(Field::Pressure) {
        both_models(ProcessPoint::Current, Input::Pressure, Source::Entered)
    } else if taken(field, is_number) && field == Some(Field::Temperature) {
        both_models(ProcessPoint::Current, Input::Temperature, Source::Entered)
    } else {
        Seq::empty()
    }
}

/// The number of dialogs on screen.
pub open spec fn dialogs_open(app: App) -> int {
    shown(app.pressure_modal_visible) + shown(app.temperature_modal_visible) + shown(
        app.gas_modal_visible,
    ) + shown(app.flow_modal_visible) + shown(app.select_unit_modal_visible) + shown(
        app.pressure_units_modal_visible,
    ) + shown(app.temperature_units_modal_visible) + shown(app.density_units_modal_visible)
        + shown(app.energy_units_modal_visible) + shown(app.entropy_units_modal_visible) + shown(
        app.speed_units_modal_visible,
    ) + shown(app.flow_units_modal_visible) + shown(app.input_speed_modal_visible) + shown(
        app.gear_ratio_modal_visible,
    ) + shown(app.wheel_diameter_modal_visible)
}

/// The line of text has the keyboard whenever the dialog of a value with
/// units is on screen.
pub open spec fn entry_active(app: App) -> bool {
    app.pressure_modal_visible || app.temperature_modal_visible || app.flow_modal_visible
        ==> app.input_modal_active
}

/// At most one dialog is on screen, and the line of text has the keyboard
/// only while the dialog of a value is, and all the while for a value without
/// units.
pub open spec fn orderly(app: App) -> bool {
    &&& dialogs_open(app) <= 1
    &&& app.input_modal_active ==> entry_field(app).is_some()
    &&& app.input_speed_modal_visible || app.gear_ratio_modal_visible
        || app.wheel_diameter_modal_visible ==> app.input_modal_active
}

/// The dialog that has the keyboard.
pub fn current_dialog(app: &App) -> (which: Dialog)
    ensures
        which == dialog(*app),
{
    if app.input_modal_active {
        Dialog::Entry
    } else if app.gas_modal_visible {
        Dialog::Gas
    } else if app.select_unit_modal_visible {
        Dialog::SelectUnit
    } else if app.pressure_units_modal_visible {
        Dialog::PressureUnits
    } else if app.temperature_units_modal_visible {
        Dialog::TemperatureUnits
    } else if app.density_units_modal_visible {
        Dialog::DensityUnits
    } else if app.energy_units_modal_visible {
        Dialog::EnergyUnits
    } else if app.entropy_units_modal_visible {
        Dialog::EntropyUnits
    } else if app.speed_units_modal_visible {
        Dialog::SpeedUnits
    } else if app.flow_units_modal_visible {
        Dialog::FlowUnits
    } else {
        Dialog::Main
    }
}

/// The name under which a preset gas is shown.
pub fn gas_text(gas: Gas) -> (text: &'static str)
    ensures
        text == gas_name(gas),
{
    match gas {
        Gas::Air => "Air",
        Gas::Argon => "Argon",
        Gas::CO => "Carbon Monoxide",
        Gas::CO2 => "Carbon Dioxide",
        Gas::Helium => "Helium",
        Gas::Hydrogen => "Hydrogen",
        Gas::Nitrogen => "Nitrogen",
        Gas::Oxygen => "Oxygen",
    }
}

fn choose_gas(c: char) -> (choice: Option<Gas>)
    ensures
        choice == gas_choice(c),
{
    if c == '1' {
        Some(Gas::Air)
    } else if c == '2' {
        Some(Gas::Argon)
    } else if c == '3' {
        Some(Gas::CO)
    } else if c == '4' {
        Some(Gas::CO2)
    } else if c == '5' {
        Some(Gas::Helium)
    } else if c == '6' {
        Some(Gas::Hydrogen)
    } else if c == '7' {
        Some(Gas::Nitrogen)
    } else if c == '8' {
        Some(Gas::Oxygen)
    } else {
        None
    }
}

fn choose_flow(c: char) -> (choice: Option<Flow>)
    ensures
        choice == flow_choice(c),
{
    if c == '1' {
        Some(Flow::kg_s)
    } else if c == '2' {
        Some(Flow::kg_m)
    } else if c == '3' {
        Some(Flow::kg_h)
    } else if c == '4' {
        Some(Flow::lbm_s)
    } else if c == '5' {
        Some(Flow::lbm_m)
    } else if c == '6' {
        Some(Flow::lbm_h)
    } else if c == '7' {
        Some(Flow::Nm3_h)
    } else if c == '8' {
        Some(Flow::scfm)
    } else if c == '9' {
        Some(Flow::scfh)
    } else {
        None
    }
}

fn no_mutation() -> (mutation: Mutation)
    ensures
        mutation.writes@ == Seq::<Write>::empty(),
        mutation.recalculation@ == Seq::<OracleCall>::empty(),
{
    Mutation { writes: Vec::new(), recalculation: Vec::new() }
}

fn entry_key(app: &mut App, key: Key, numeric: bool) -> (action: Action)
    ensures
        *final(app) == entry_state(*old(app), key),
        action == entry_action(*old(app), key, numeric),
{
    match key {
        Key::Enter | Key::Esc => {
            let field = if app.pressure_modal_visible {
                Some(Field::Pressure)
            } else if app.temperature_modal_visible {
                Some(Field::Temperature)
            } else if app.flow_modal_visible {
                Some(Field::Flow)
            } else if app.input_speed_modal_visible {
                Some(Field::InputSpeed)
            } else if app.gear_ratio_modal_visible {
                Some(Field::GearRatio)
            } else if app.wheel_diameter_modal_visible {
                Some(Field::WheelDiameter)
            } else {
                None
            };
            *app = App {
                input_modal_active: false,
                pressure_modal_visible: false,
                temperature_modal_visible: false,
                flow_modal_visible: false,
                input_speed_modal_visible: false,
                gear_ratio_modal_visible: false,
                wheel_diameter_modal_visible: false,
                ..*app
            };
            match key {
                Key::Enter => Action::Submit(field),
                _ => Action::Discard,
            }
        },
        Key::Backspace => Action::DeleteChar,
        Key::Char(c) => {
            if c == 'u' {
                if app.pressure_modal_visible {
                    *app = App {
                        pressure_units_modal_visible: true,
                        pressure_modal_visible: false,
                        input_modal_active: false,
                        ..*app
                    };
                } else if app.temperature_modal_visible {
                    *app = App {
                        temperature_units_modal_visible: true,
                        temperature_modal_visible: false,
                        input_modal_active: false,
                        ..*app
                    };
                } else if app.flow_modal_visible {
                    *app = App {
                        flow_units_modal_visible: true,
                        flow_modal_visible: false,
                        input_modal_active: false,
                        ..*app
                    };
                }
                Action::Nothing
            } else if numeric || c == '.' || c == '-' {
                Action::InsertChar(c)
            } else {
                Action::Nothing
            }
        },
        Key::Other => Action::Nothing,
    }
}

fn gas_key(app: &mut App, key: Key) -> (mutation: Mutation)
    requires
        dialog(*old(app)) == Dialog::Gas,
    ensures
        *final(app) == gas_state(*old(app), key),
        mutation.writes@ == key_writes(*old(app), key),
        mutation.recalculation@ == if key_recalculates(*old(app), key) {
            schedule()
        } else {
            Seq::<OracleCall>::empty()
        },
{
    match key {
        Key::Enter | Key::Esc => {
            *app = App { gas_modal_visible: false, ..*app };
            no_mutation()
        },
        Key::Char(c) => match choose_gas(c) {
            Some(gas) => {
                let mutation = crate::engine::set_gas(app, crate::gas::get_gas_comp(gas));
                *app = App { gas_text: gas_text(gas), gas_modal_visible: false, ..*app };
                mutation
            },
            None => {
                if c == '9' {
                    *app = App { gas_text: "Custom", gas_modal_visible: false, ..*app };
                }
                no_mutation()
            },
        },
        _ => no_mutation(),
    }
}

fn select_unit_key(app: &mut App, key: Key)
    ensures
        *final(app) == select_unit_state(*old(app), key),
{
    let closed = App { select_unit_modal_visible: false, ..*app };
    match key {
        Key::Enter | Key::Esc => {
            *app = closed;
        },
        Key::Char(c) => {
            if c == '1' {
                *app = App { pressure_units_modal_visible: true, ..closed };
            } else if c == '2' {
                *app = App { temperature_units_modal_visible: true, ..closed };
            } else if c == '3' {
                *app = App { density_units_modal_visible: true, ..closed };
            } else if c == '4' {
                *app = App { energy_units_modal_visible: true, ..closed };
            } else if c == '5' {
                *app = App { entropy_units_modal_visible: true, ..closed };
            } else if c == '6' {
                *app = App { speed_units_modal_visible: true, ..closed };
            } else if c == '7' {
                *app = App { flow_units_modal_visible: true, ..closed };
            }
        },
        _ => {},
    }
}

fn choose_units(which: Dialog, c: char, units: Units) -> (choice: Option<Units>)
    ensures
        choice == unit_choice(which, c, units),
{
    match which {
        Dialog::PressureUnits => {
            if c == '1' {
                Some(Units { pressure: Pressure::kPa, ..units })
            } else if c == '2' {
                Some(Units { pressure: Pressure::Bar, ..units })
            } else if c == '3' {
                Some(Units { pressure: Pressure::PSI, ..units })
            } else {
                None
            }
        },
        Dialog::TemperatureUnits => {
            if c == '1' {
                Some(Units { temp: Temperature::K, ..units })
            } else if c == '2' {
                Some(Units { temp: Temperature::C, ..units })
            } else if c == '3' {
                Some(Units { temp: Temperature::R, ..units })
            } else if c == '4' {
                Some(Units { temp: Temperature::F, ..units })
            } else {
                None
            }
        },
        Dialog::DensityUnits => {
            if c == '1' {
                Some(Units { density: Density::mol_l, ..units })
            } else if c == '2' {
                Some(Units { density: Density::kg_m3, ..units })
            } else if c == '3' {
                Some(Units { density: Density::lbm_ft3, ..units })
            } else {
                None
            }
        },
        Dialog::EnergyUnits => {
            if c == '1' {
                Some(Units { energy: Energy::J_mol, ..units })
            } else if c == '2' {
                Some(Units { energy: Energy::kJ_kg, ..units })
            } else if c == '3' {
                Some(Units { energy: Energy::BTU_lbm, ..units })
            } else {
                None
            }
        },
        Dialog::EntropyUnits => {
            if c == '1' {
                Some(Units { entropy: Entropy::J_mol_K, ..units })
            } else if c == '2' {
                Some(Units { entropy: Entropy::kJ_kg_K, ..units })
            } else if c == '3' {
                Some(Units { entropy: Entropy::BTU_lbm_R, ..units })
            } else {
                None
            }
        },
        Dialog::SpeedUnits => {
            if c == '1' {
                Some(Units { speed: Speed::m_s, ..units })
            } else if c == '2' {
                Some(Units { speed: Speed::ft_s, ..units })
            } else {
                None
            }
        },
        Dialog::FlowUnits => match choose_flow(c) {
            Some(unit) => Some(Units { flow: unit, ..units }),
            None => None,
        },
        _ => None,
    }
}

fn close_units(app: &App, which: Dialog) -> (closed: App)
    ensures
        closed == units_closed(*app, which),
{
    match which {
        Dialog::PressureUnits => App { pressure_units_modal_visible: false, ..*app },
        Dialog::TemperatureUnits => App { temperature_units_modal_visible: false, ..*app },
        Dialog::DensityUnits => App { density_units_modal_visible: false, ..*app },
        Dialog::EnergyUnits => App { energy_units_modal_visible: false, ..*app },
        Dialog::EntropyUnits => App { entropy_units_modal_visible: false, ..*app },
        Dialog::SpeedUnits => App { speed_units_modal_visible: false, ..*app },
        Dialog::FlowUnits => App { flow_units_modal_visible: false, ..*app },
        _ => *app,
    }
}

fn units_key(app: &mut App, which: Dialog, key: Key)
    ensures
        *final(app) == units_state(*old(app), which, key),
{
    let closed = close_units(app, which);
    match key {
        Key::Enter | Key::Esc => {
            *app = closed;
        },
        Key::Char(c) => match choose_units(which, c, app.units) {
            Some(units) => {
                let stays_open = match (which, units.flow) {
                    (Dialog::FlowUnits, Flow::lbm_h) => true,
                    _ => false,
                };
                if stays_open {
                    *app = App { units, speed_units_modal_visible: false, ..*app };
                } else {
                    *app = App { units, ..closed };
                }
            },
            None => {},
        },
        _ => {},
    }
}

fn main_key(app: &mut App, key: Key) -> (outcome: Outcome)
    requires
        dialog(*old(app)) == Dialog::Main,
    ensures
        *final(app) == main_state(*old(app), key),
        outcome.action == key_action(*old(app), key, false),
        outcome.mutation.writes@ == key_writes(*old(app), key),
        outcome.mutation.recalculation@ == if key_recalculates(*old(app), key) {
            schedule()
        } else {
            Seq::<OracleCall>::empty()
        },
{
    let mut action = Action::Nothing;
    let mut mutation = no_mutation();
    match key {
        Key::Char(c) => {
            if c == 'q' {
                action = Action::Quit;
            } else if c == 'p' {
                *app = App { pressure_modal_visible: !app.pressure_modal_visible, ..*app };
            } else if c == 't' {
                *app = App { temperature_modal_visible: !app.temperature_modal_visible, ..*app };
            } else if c == 'u' {
                *app = App { select_unit_modal_visible: !app.select_unit_modal_visible, ..*app };
            } else if c == 'i' {
                mutation = crate::engine::set_inlet_conditions(app);
            } else if c == 'o' {
                mutation = crate::engine::set_outlet_conditions(app);
            } else if c == 'm' {
                mutation = crate::engine::switch_model(app);
            } else if c == 'c' {
                crate::engine::clear_conditions(app);
            } else if c == 'g' {
                *app = App { gas_modal_visible: !app.gas_modal_visible, ..*app };
            } else if c == 'f' {
                *app = App { flow_modal_visible: !app.flow_modal_visible, ..*app };
            } else if c == 's' {
                *app = App {
                    input_speed_modal_visible: !app.input_speed_modal_visible,
                    input_modal_active: true,
                    ..*app
                };
            } else if c == 'r' {
                *app = App { gear_ratio_modal_visible: true, input_modal_active: true, ..*app };
            } else if c == 'w' {
                *app = App { wheel_diameter_modal_visible: true, input_modal_active: true, ..*app };
            }
        },
        _ => {},
    }
    Outcome { action, mutation }
}

/// Handles a key, given whether it is a numeric character: changes the state
/// and says what is to be done with the line of text and with the records.
/// Whenever records are written, and when the model is switched, a full
/// recalculation follows; otherwise there is none.
pub fn handle_key_with(app: &mut App, key: Key, numeric: bool) -> (outcome: Outcome)
    ensures
        *final(app) == key_state(*old(app), key),
        outcome.action == key_action(*old(app), key, numeric),
        outcome.mutation.writes@ == key_writes(*old(app), key),
        outcome.mutation.recalculation@ == if key_recalculates(*old(app), key) {
            schedule()
        } else {
            Seq::<OracleCall>::empty()
        },
{
    match current_dialog(app) {
        Dialog::Entry => {
            let action = entry_key(app, key, numeric);
            Outcome { action, mutation: no_mutation() }
        },
        Dialog::Gas => {
            let mutation = gas_key(app, key);
            Outcome { action: Action::Nothing, mutation }
        },
        Dialog::SelectUnit => {
            select_unit_key(app, key);
            Outcome { action: Action::Nothing, mutation: no_mutation() }
        },
        Dialog::Main => main_key(app, key),
        which => {
            units_key(app, which, key);
            Outcome { action: Action::Nothing, mutation: no_mutation() }
        },
    }
}

/// Handles a key: as `handle_key_with`, where a character counts as numeric
/// if `char::is_numeric` says so.
pub fn handle_key(app: &mut App, key: Key) -> (outcome: Outcome)
    ensures
        *final(app) == key_state(*old(app), key),
        outcome.action == key_action(
            *old(app),
            key,
            key is Char && char_is_numeric(key->Char_0),
        ),
        outcome.mutation.writes@ == key_writes(*old(app), key),
        outcome.mutation.recalculation@ == if key_recalculates(*old(app), key) {
            schedule()
        } else {
            Seq::<OracleCall>::empty()
        },
{
    let numeric = match key {
        Key::Char(c) => is_numeric(c),
        _ => false,
    };
    handle_key_with(app, key, numeric)
}

/// Decides what becomes of a submitted line of text, given whether it is a
/// number. A line that is no number changes nothing, and neither does a line
/// without a field. A pressure or a temperature is written to the current
/// records of both models and everything is recalculated; the value of any
/// other field is kept by the caller.
pub fn submit(field: Option<Field>, is_number: bool) -> (entry: Entry)
    ensures
        entry.mutation.writes@ == entry_writes(field, is_number),
        entry.mutation.recalculation@ == if entry_writes(field, is_number).len() > 0 {
            schedule()
        } else {
            Seq::<OracleCall>::empty()
        },
        entry.keep == if taken(field, is_number) && field != Some(Field::Pressure) && field
            != Some(Field::Temperature) {
            field
        } else {
            None
        },
{
    if !is_number {
        return Entry { keep: None, mutation: no_mutation() };
    }
    match field {
        Some(Field::Pressure) => Entry {
            keep: None,
            mutation: crate::engine::set_cur_pressure(),
        },
        Some(Field::Temperature) => Entry {
            keep: None,
            mutation: crate::engine::set_cur_temperature(),
        },
        Some(other) => Entry { keep: Some(other), mutation: no_mutation() },
        None => Entry { keep: None, mutation: no_mutation() },
    }
}

/// Gives the keyboard to the line of text where the dialog of a pressure, a
/// temperature or a flow is on screen. This is due before each key is read.
pub fn activate_entry(app: &mut App)
    ensures
        *final(app) == (App {
            input_modal_active: old(app).input_modal_active || old(app).pressure_modal_visible
                || old(app).temperature_modal_visible || old(app).flow_modal_visible,
            ..*old(app)
        }),
        entry_active(*final(app)),
{
    let active = app.input_modal_active || app.pressure_modal_visible
        || app.temperature_modal_visible || app.flow_modal_visible;
    *app = App { input_modal_active: active, ..*app };
}

proof fn lemma_orderly_after_entry_key(app: App, key: Key)
    requires
        orderly(app),
        dialog(app) == Dialog::Entry,
    ensures
        orderly(entry_state(app, key)),
{
}

proof fn lemma_orderly_after_gas_key(app: App, key: Key)
    requires
        orderly(app),
        dialog(app) == Dialog::Gas,
    ensures
        orderly(gas_state(app, key)),
{
}

proof fn lemma_orderly_after_select_unit_key(app: App, key: Key)
    requires
        orderly(app),
        dialog(app) == Dialog::SelectUnit,
    ensures
        orderly(select_unit_state(app, key)),
{
}

proof fn lemma_orderly_after_units_key(app: App, which: Dialog, key: Key)
    requires
        orderly(app),
        dialog(app) == which,
        which != Dialog::Entry,
        which != Dialog::Gas,
        which != Dialog::SelectUnit,
        which != Dialog::Main,
    ensures
        orderly(units_state(app, which, key)),
{
}

proof fn lemma_orderly_after_main_key(app: App, key: Key)
    requires
        orderly(app),
        entry_active(app),
        dialog(app) == Dialog::Main,
    ensures
        orderly(main_state(app, key)),
{
    assert(dialogs_open(app) == 0);
}

/// As long as the keyboard is given to the line of text before each key, at
/// most one dialog is on screen at any time.
pub proof fn lemma_orderly_after_key(app: App, key: Key)
    requires
        orderly(app),
        entry_active(app),
    ensures
        orderly(key_state(app, key)),
{
    match dialog(app) {
        Dialog::Entry => lemma_orderly_after_entry_key(app, key),
        Dialog::Gas => lemma_orderly_after_gas_key(app, key),
        Dialog::SelectUnit => lemma_orderly_after_select_unit_key(app, key),
        Dialog::Main => lemma_orderly_after_main_key(app, key),
        which => lemma_orderly_after_units_key(app, which, key),
    }
}

/// A session starts with no dialog on screen.
pub proof fn lemma_orderly_at_startup()
    ensures
        orderly(App::initial()),
        entry_active(App::initial()),
        dialog(App::initial()) == Dialog::Main,
{
}

/// No key writes a record without a recalculation after it.
pub proof fn lemma_writes_are_recalculated(app: App, key: Key)
    requires
        key_writes(app, key).len() > 0,
    ensures
        key_recalculates(app, key),
{
}

/// No key makes the inlet or the outlet undefined alone: the two become
/// undefined together or not at all.
pub proof fn lemma_cleared_together(app: App, key: Key)
    ensures
        app.show_inlet_state && !key_state(app, key).show_inlet_state ==> !key_state(
            app,
            key,
        ).show_outlet_state,
        app.show_outlet_state && !key_state(app, key).show_outlet_state ==> !key_state(
            app,
            key,
        ).show_inlet_state,
{
}

/// Giving the keyboard to the line of text leaves the dialogs as they are.
pub proof fn lemma_orderly_after_activation(app: App)
    requires
        orderly(app),
    ensures
        orderly(
            App {
                input_modal_active: app.input_modal_active || app.pressure_modal_visible
                    || app.temperature_modal_visible || app.flow_modal_visible,
                ..app
            },
        ),
{
}

} // verus!
