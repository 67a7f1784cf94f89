use gas_process::convert::{get_energy, get_temperature};
use gas_process::display::{
    derived_formula, derived_label, derived_unit, get_gas_properties, property_formula,
    property_label, property_unit, run_calculations, set_cur_flow, Derived,
};
use gas_process::engine::{
    model_text, recalculate, set_inlet_conditions, set_outlet_conditions, Input, Model,
    ProcessPoint, Property, Record, Source,
};
use gas_process::flow::set_flow;
use gas_process::gas::{get_gas_comp, Gas};
use gas_process::input::{
    activate_entry, current_dialog, gas_text, handle_key, handle_key_with, submit, Action,
    Dialog, Field, Key,
};
use gas_process::state::App;
use gas_process::convert::{get_entropy, get_pressure};
use gas_process::units::{
    Density, Energy, Entropy, Flow, Pressure, Speed, Temperature, Units,
};

fn press(app: &mut App, c: char) -> Action {
    activate_entry(app);
    handle_key(app, Key::Char(c)).action
}

fn idle(app: &App) -> bool {
    current_dialog(app) == Dialog::Main
        && !app.pressure_modal_visible
        && !app.temperature_modal_visible
        && !app.flow_modal_visible
        && !app.input_speed_modal_visible
        && !app.gear_ratio_modal_visible
        && !app.wheel_diameter_modal_visible
}

#[test]
fn q_quits_only_on_the_main_screen() {
    let mut app = App::default();
    assert_eq!(press(&mut app, 'q'), Action::Quit);
    press(&mut app, 'g');
    assert_eq!(current_dialog(&app), Dialog::Gas);
    assert_eq!(press(&mut app, 'q'), Action::Nothing);
    assert_eq!(current_dialog(&app), Dialog::Gas);
}

#[test]
fn entering_a_pressure() {
    let mut app = App::default();
    assert_eq!(press(&mut app, 'p'), Action::Nothing);
    assert!(app.pressure_modal_visible);
    activate_entry(&mut app);
    assert_eq!(current_dialog(&app), Dialog::Entry);
    assert_eq!(press(&mut app, '1'), Action::InsertChar('1'));
    assert_eq!(press(&mut app, '4'), Action::InsertChar('4'));
    assert_eq!(press(&mut app, '.'), Action::InsertChar('.'));
    assert_eq!(press(&mut app, '7'), Action::InsertChar('7'));
    assert_eq!(handle_key(&mut app, Key::Backspace).action, Action::DeleteChar);
    let done = handle_key(&mut app, Key::Enter);
    assert_eq!(done.action, Action::Submit(Some(Field::Pressure)));
    assert!(done.mutation.writes.is_empty());
    assert!(done.mutation.recalculation.is_empty());
    assert!(idle(&app));
}

#[test]
fn only_numbers_point_and_minus_are_typed() {
    let mut app = App::default();
    press(&mut app, 't');
    activate_entry(&mut app);
    assert_eq!(press(&mut app, '-'), Action::InsertChar('-'));
    assert_eq!(press(&mut app, '0'), Action::InsertChar('0'));
    assert_eq!(press(&mut app, '9'), Action::InsertChar('9'));
    assert_eq!(press(&mut app, 'a'), Action::Nothing);
    assert_eq!(press(&mut app, 'e'), Action::Nothing);
    assert_eq!(press(&mut app, ' '), Action::Nothing);
    assert_eq!(press(&mut app, '+'), Action::Nothing);
    assert_eq!(handle_key(&mut app, Key::Other).action, Action::Nothing);
    assert_eq!(current_dialog(&app), Dialog::Entry);
    assert_eq!(handle_key(&mut app, Key::Enter).action, Action::Submit(Some(Field::Temperature)));
}

#[test]
fn numeric_is_what_the_caller_says_in_handle_key_with() {
    let mut app = App::default();
    press(&mut app, 'f');
    activate_entry(&mut app);
    assert_eq!(handle_key_with(&mut app, Key::Char('x'), true).action, Action::InsertChar('x'));
    assert_eq!(handle_key_with(&mut app, Key::Char('5'), false).action, Action::Nothing);
    assert_eq!(handle_key_with(&mut app, Key::Char('.'), false).action, Action::InsertChar('.'));
    assert_eq!(handle_key_with(&mut app, Key::Char('u'), true).action, Action::Nothing);
    assert_eq!(current_dialog(&app), Dialog::FlowUnits);
}

#[test]
fn esc_discards_the_entry() {
    let mut app = App::default();
    press(&mut app, 'f');
    activate_entry(&mut app);
    assert_eq!(press(&mut app, '3'), Action::InsertChar('3'));
    assert_eq!(handle_key(&mut app, Key::Esc).action, Action::Discard);
    assert!(idle(&app));
}

#[test]
fn wheel_data_is_entered_without_units() {
    for (key, field) in
        [('s', Field::InputSpeed), ('r', Field::GearRatio), ('w', Field::WheelDiameter)]
    {
        let mut app = App::default();
        press(&mut app, key);
        assert_eq!(current_dialog(&app), Dialog::Entry);
        assert_eq!(press(&mut app, 'u'), Action::Nothing);
        assert_eq!(current_dialog(&app), Dialog::Entry);
        assert_eq!(handle_key(&mut app, Key::Enter).action, Action::Submit(Some(field)));
        assert!(idle(&app));
    }
}

#[test]
fn u_in_an_entry_opens_the_units_of_the_value() {
    let mut app = App::default();
    press(&mut app, 'p');
    activate_entry(&mut app);
    assert_eq!(press(&mut app, 'u'), Action::Nothing);
    assert_eq!(current_dialog(&app), Dialog::PressureUnits);
    assert!(!app.pressure_modal_visible);
    assert_eq!(press(&mut app, '1'), Action::Nothing);
    assert_eq!(app.units.pressure, Pressure::kPa);
    assert!(idle(&app));
}

#[test]
fn selecting_a_gas() {
    let mut app = App::default();
    press(&mut app, 'g');
    activate_entry(&mut app);
    let outcome = handle_key(&mut app, Key::Char('7'));
    assert_eq!(outcome.action, Action::Nothing);
    assert_eq!(app.gas_text, "Nitrogen");
    assert_eq!(app.gas_comp, get_gas_comp(Gas::Nitrogen));
    assert_eq!(outcome.mutation.writes.len(), 6);
    assert!(outcome
        .mutation
        .writes
        .iter()
        .all(|w| w.input == Input::Composition && w.source == Source::SelectedGas));
    assert_eq!(outcome.mutation.recalculation, recalculate());
    assert!(idle(&app));
}

#[test]
fn gas_names() {
    assert_eq!(gas_text(Gas::Air), "Air");
    assert_eq!(gas_text(Gas::Argon), "Argon");
    assert_eq!(gas_text(Gas::CO), "Carbon Monoxide");
    assert_eq!(gas_text(Gas::CO2), "Carbon Dioxide");
    assert_eq!(gas_text(Gas::Helium), "Helium");
    assert_eq!(gas_text(Gas::Hydrogen), "Hydrogen");
    assert_eq!(gas_text(Gas::Nitrogen), "Nitrogen");
    assert_eq!(gas_text(Gas::Oxygen), "Oxygen");
}

#[test]
fn every_gas_digit() {
    let gases = [
        ('1', Gas::Air),
        ('2', Gas::Argon),
        ('3', Gas::CO),
        ('4', Gas::CO2),
        ('5', Gas::Helium),
        ('6', Gas::Hydrogen),
        ('7', Gas::Nitrogen),
        ('8', Gas::Oxygen),
    ];
    for (digit, gas) in gases {
        let mut app = App::default();
        press(&mut app, 'g');
        press(&mut app, digit);
        assert_eq!(app.gas_comp, get_gas_comp(gas));
        assert_eq!(app.gas_text, gas_text(gas));
    }
}

#[test]
fn custom_gas_keeps_the_composition() {
    let mut app = App::default();
    press(&mut app, 'g');
    press(&mut app, '2');
    press(&mut app, 'g');
    activate_entry(&mut app);
    let outcome = handle_key(&mut app, Key::Char('9'));
    assert_eq!(app.gas_text, "Custom");
    assert_eq!(app.gas_comp, get_gas_comp(Gas::Argon));
    assert!(outcome.mutation.writes.is_empty());
    assert!(outcome.mutation.recalculation.is_empty());
    assert!(idle(&app));
}

#[test]
fn choosing_units_through_the_unit_menu() {
    let mut app = App::default();
    press(&mut app, 'u');
    assert_eq!(current_dialog(&app), Dialog::SelectUnit);
    press(&mut app, '2');
    assert_eq!(current_dialog(&app), Dialog::TemperatureUnits);
    press(&mut app, '3');
    assert_eq!(app.units.temp, Temperature::R);
    assert!(idle(&app));
    let expected = Units { temp: Temperature::R, ..Units::default() };
    assert_eq!(app.units, expected);
}

#[test]
fn every_unit_dialog() {
    let mut app = App::default();
    for (menu, digit) in [('1', '2'), ('2', '1'), ('3', '2'), ('4', '1'), ('5', '2'), ('6', '1')] {
        press(&mut app, 'u');
        press(&mut app, menu);
        press(&mut app, digit);
        assert!(idle(&app));
    }
    assert_eq!(app.units.pressure, Pressure::Bar);
    assert_eq!(app.units.temp, Temperature::K);
    assert_eq!(app.units.density, Density::kg_m3);
    assert_eq!(app.units.energy, Energy::J_mol);
    assert_eq!(app.units.entropy, Entropy::kJ_kg_K);
    assert_eq!(app.units.speed, Speed::m_s);
    press(&mut app, 'u');
    press(&mut app, '7');
    assert_eq!(current_dialog(&app), Dialog::FlowUnits);
    press(&mut app, '7');
    assert_eq!(app.units.flow, Flow::Nm3_h);
    assert!(idle(&app));
}

#[test]
fn flow_unit_digits() {
    let units = [
        ('1', Flow::kg_s),
        ('2', Flow::kg_m),
        ('3', Flow::kg_h),
        ('4', Flow::lbm_s),
        ('5', Flow::lbm_m),
        ('7', Flow::Nm3_h),
        ('8', Flow::scfm),
        ('9', Flow::scfh),
    ];
    for (digit, unit) in units {
        let mut app = App::default();
        press(&mut app, 'u');
        press(&mut app, '7');
        press(&mut app, digit);
        assert_eq!(app.units.flow, unit);
        assert!(idle(&app));
    }
}

#[test]
fn pounds_per_hour_leaves_the_flow_dialog_open() {
    let mut app = App::default();
    press(&mut app, 'u');
    press(&mut app, '7');
    press(&mut app, '6');
    assert_eq!(app.units.flow, Flow::lbm_h);
    assert_eq!(current_dialog(&app), Dialog::FlowUnits);
    activate_entry(&mut app);
    handle_key(&mut app, Key::Enter);
    assert!(idle(&app));
}

#[test]
fn inlet_outlet_clear_and_model_keys() {
    let mut app = App::default();
    activate_entry(&mut app);
    let inlet = handle_key(&mut app, Key::Char('i'));
    assert!(app.show_inlet_state);
    assert_eq!(inlet.mutation.writes.len(), 6);
    assert_eq!(
        inlet.mutation.writes[0].record,
        Record { model: Model::Detail, point: ProcessPoint::Inlet }
    );
    assert_eq!(inlet.mutation.recalculation, recalculate());
    let outlet = handle_key(&mut app, Key::Char('o'));
    assert!(app.show_outlet_state);
    assert_eq!(outlet.mutation.writes[5].record.point, ProcessPoint::Outlet);
    assert_eq!(outlet.mutation.recalculation, recalculate());
    let model = handle_key(&mut app, Key::Char('m'));
    assert!(!app.use_gerg2008);
    assert!(model.mutation.writes.is_empty());
    assert_eq!(model.mutation.recalculation, recalculate());
    let clear = handle_key(&mut app, Key::Char('c'));
    assert!(!app.show_inlet_state && !app.show_outlet_state);
    assert!(clear.mutation.writes.is_empty());
    assert!(clear.mutation.recalculation.is_empty());
}

#[test]
fn enter_and_esc_close_the_dialogs() {
    for open in ['g', 'u'] {
        for close in [Key::Enter, Key::Esc] {
            let mut app = App::default();
            press(&mut app, open);
            assert!(!idle(&app));
            activate_entry(&mut app);
            assert_eq!(handle_key(&mut app, close).action, Action::Nothing);
            assert!(idle(&app));
        }
    }
}

#[test]
fn property_rows_and_labels() {
    let app = App::default();
    let table = get_gas_properties(&app, ProcessPoint::Inlet);
    assert_eq!(table.record, Record { model: Model::Gerg2008, point: ProcessPoint::Inlet });
    assert_eq!(table.rows.len(), 13);
    assert_eq!(table.rows[0], Property::Pressure);
    assert_eq!(table.rows[3], Property::MolarMass);
    assert_eq!(table.rows[12], Property::JouleThomson);
    assert_eq!(property_label(Property::Pressure), "Pressure:");
    assert_eq!(property_label(Property::Kappa), "Cp/Cv (k):");
    assert_eq!(property_label(Property::SpeedOfSound), "Speed of Sound:");
    assert_eq!(property_unit(Property::MolarMass, &app.units), "g/mol");
    assert_eq!(property_unit(Property::Z, &app.units), "[]");
    assert_eq!(property_unit(Property::Cp, &app.units), "BTU/(lbm-R)");
    assert_eq!(property_unit(Property::Enthalpy, &app.units), "BTU/lbm");
    assert_eq!(property_unit(Property::Pressure, &app.units), "PSI");
    assert_eq!(property_unit(Property::Temperature, &app.units), "F");
    assert_eq!(property_unit(Property::Density, &app.units), "lbm/ft^3");
    assert_eq!(property_unit(Property::SpeedOfSound, &app.units), "ft/s");
    assert_eq!(property_unit(Property::JouleThomson, &app.units), "R/PSI");
}

#[test]
fn property_formulas_follow_the_units() {
    let units = Units::default();
    assert_eq!(property_formula(Property::Pressure, &units), get_pressure(Pressure::PSI));
    assert_eq!(property_formula(Property::Cp, &units), get_entropy(Entropy::BTU_lbm_R));
    assert_eq!(property_formula(Property::Cv, &units), get_entropy(Entropy::BTU_lbm_R));
    assert_eq!(property_formula(Property::Entropy, &units), get_entropy(Entropy::BTU_lbm_R));
    assert!(property_formula(Property::MolarMass, &units).is_empty());
    assert!(property_formula(Property::Kappa, &units).is_empty());
    assert!(property_formula(Property::Z, &units).is_empty());
}

#[test]
fn entered_flow_uses_active_unit_standard_and_model() {
    let mut app = App::default();
    let conversion = set_cur_flow(&app);
    let expected = set_flow(Flow::scfm, true, true);
    assert_eq!(conversion.steps, expected.steps);
    assert_eq!(conversion.reference, expected.reference);
    assert_eq!(conversion.reference.unwrap().model, Model::Gerg2008);
    press(&mut app, 'm');
    assert_eq!(set_cur_flow(&app).reference.unwrap().model, Model::Detail);
    app.units.flow = Flow::kg_h;
    assert_eq!(set_cur_flow(&app).reference, None);
}

#[test]
fn calculation_lists() {
    let mut app = App::default();
    assert!(run_calculations(&app).is_none());
    set_inlet_conditions(&mut app);
    assert!(run_calculations(&app).is_none());
    set_outlet_conditions(&mut app);
    let table = run_calculations(&app).unwrap();
    assert_eq!(
        table.state_change,
        vec![
            Derived::PressureRatio,
            Derived::TemperatureRatio,
            Derived::TemperatureChange,
            Derived::EnthalpyChange,
            Derived::EntropyChange,
            Derived::AveCpCv,
        ]
    );
    assert_eq!(
        table.isentropic,
        vec![
            Derived::IsentropicTemperature,
            Derived::IsentropicEnthalpy,
            Derived::IsentropicEfficiency,
            Derived::IsentropicEnthalpyChange,
        ]
    );
    assert_eq!(
        table.summary,
        vec![
            Derived::IsentropicTemperature,
            Derived::IsentropicEnthalpy,
            Derived::IsentropicEnthalpyChange,
            Derived::IsentropicEfficiency,
        ]
    );
}

#[test]
fn calculation_labels_units_and_formulas() {
    let units = Units::default();
    assert_eq!(derived_label(Derived::PressureRatio), "Press Ratio:");
    assert_eq!(derived_label(Derived::TemperatureRatio), "Temp Ratio:");
    assert_eq!(derived_label(Derived::TemperatureChange), "Temp Change:");
    assert_eq!(derived_label(Derived::EnthalpyChange), "Enthalpy Change:");
    assert_eq!(derived_label(Derived::EntropyChange), "Entropy Change:");
    assert_eq!(derived_label(Derived::AveCpCv), "Ave Cp/Cv:");
    assert_eq!(derived_label(Derived::IsentropicTemperature), "Temperature Ts:");
    assert_eq!(derived_label(Derived::IsentropicEnthalpy), "Enthalpy Hs:");
    assert_eq!(derived_label(Derived::IsentropicEfficiency), "Efficiency:");
    assert_eq!(derived_label(Derived::IsentropicEnthalpyChange), "Enthalpy Change:");
    assert_eq!(derived_unit(Derived::PressureRatio, &units), "[]");
    assert_eq!(derived_unit(Derived::IsentropicEfficiency, &units), "[]");
    assert_eq!(derived_unit(Derived::TemperatureChange, &units), "F");
    assert_eq!(derived_unit(Derived::IsentropicTemperature, &units), "F");
    assert_eq!(derived_unit(Derived::EnthalpyChange, &units), "BTU/lbm");
    assert_eq!(derived_unit(Derived::EntropyChange, &units), "BTU/(lbm-R)");
    assert!(derived_formula(Derived::PressureRatio, &units).is_empty());
    assert!(derived_formula(Derived::TemperatureChange, &units).is_empty());
    assert!(derived_formula(Derived::IsentropicEfficiency, &units).is_empty());
    assert_eq!(derived_formula(Derived::EnthalpyChange, &units), get_energy(Energy::BTU_lbm));
    assert_eq!(derived_formula(Derived::IsentropicEnthalpy, &units), get_energy(Energy::BTU_lbm));
    assert_eq!(
        derived_formula(Derived::EntropyChange, &units),
        get_entropy(Entropy::BTU_lbm_R)
    );
    assert_eq!(
        derived_formula(Derived::IsentropicTemperature, &units),
        get_temperature(Temperature::F)
    );
}

#[test]
fn model_names() {
    assert_eq!(model_text(Model::Detail), "AGA8");
    assert_eq!(model_text(Model::Gerg2008), "GERG-2008");
}

#[test]
fn a_line_that_is_no_number_changes_nothing() {
    for field in [
        None,
        Some(Field::Pressure),
        Some(Field::Temperature),
        Some(Field::Flow),
        Some(Field::InputSpeed),
        Some(Field::GearRatio),
        Some(Field::WheelDiameter),
    ] {
        let entry = submit(field, false);
        assert_eq!(entry.keep, None);
        assert!(entry.mutation.writes.is_empty());
        assert!(entry.mutation.recalculation.is_empty());
    }
    let entry = submit(None, true);
    assert_eq!(entry.keep, None);
    assert!(entry.mutation.writes.is_empty());
    assert!(entry.mutation.recalculation.is_empty());
}

#[test]
fn a_number_goes_to_its_field() {
    let p = submit(Some(Field::Pressure), true);
    assert_eq!(p.keep, None);
    assert_eq!(p.mutation.writes.len(), 2);
    assert!(p.mutation.writes.iter().all(|w| w.input == Input::Pressure
        && w.source == Source::Entered
        && w.record.point == ProcessPoint::Current));
    assert_eq!(p.mutation.recalculation, recalculate());
    let t = submit(Some(Field::Temperature), true);
    assert_eq!(t.keep, None);
    assert!(t.mutation.writes.iter().all(|w| w.input == Input::Temperature));
    assert_eq!(t.mutation.writes[0].record.model, Model::Detail);
    assert_eq!(t.mutation.writes[1].record.model, Model::Gerg2008);
    assert_eq!(t.mutation.recalculation, recalculate());
    for field in [Field::Flow, Field::InputSpeed, Field::GearRatio, Field::WheelDiameter] {
        let entry = submit(Some(field), true);
        assert_eq!(entry.keep, Some(field));
        assert!(entry.mutation.writes.is_empty());
        assert!(entry.mutation.recalculation.is_empty());
    }
}
