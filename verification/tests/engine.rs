use gas_process::calculations::{
    efficiency_implausible, mode_text, process_endpoints, process_mode, Comparison, ProcessMode,
};
use gas_process::convert::set_pressure;
use gas_process::engine::{
    active_record, app_setup, clear_conditions, recalculate, set_cur_pressure,
    set_cur_temperature, set_gas, set_inlet_conditions, set_outlet_conditions, startup_condition,
    switch_model, Input, Model, OracleCall, ProcessPoint, Record, Routine, Source, Write,
};
use gas_process::exact::Ratio;
use gas_process::formula::{Factor, Step};
use gas_process::gas::{get_gas_comp, Gas};
use gas_process::state::App;
use gas_process::units::{Pressure, Temperature};

fn compare(a: f64, b: f64) -> Comparison {
    if a < b {
        Comparison::Less
    } else if a > b {
        Comparison::Greater
    } else if a == b {
        Comparison::Equal
    } else {
        Comparison::Unordered
    }
}

fn call(model: Model, point: ProcessPoint, routine: Routine) -> OracleCall {
    OracleCall { record: Record { model, point }, routine }
}

fn write(model: Model, point: ProcessPoint, input: Input, source: Source) -> Write {
    Write { record: Record { model, point }, input, source }
}

#[test]
fn recalculation_runs_both_routines_on_all_six_records() {
    let calls = recalculate();
    assert_eq!(calls.len(), 12);
    for point in [ProcessPoint::Current, ProcessPoint::Inlet, ProcessPoint::Outlet] {
        for model in [Model::Detail, Model::Gerg2008] {
            let density = call(model, point, Routine::Density);
            let properties = call(model, point, Routine::Properties);
            let first = calls.iter().position(|c| *c == density).unwrap();
            let second = calls.iter().position(|c| *c == properties).unwrap();
            assert!(first < second);
            assert_eq!(calls.iter().filter(|c| **c == density).count(), 1);
            assert_eq!(calls.iter().filter(|c| **c == properties).count(), 1);
        }
    }
}

#[test]
fn recalculation_order() {
    let calls = recalculate();
    assert_eq!(calls[0], call(Model::Detail, ProcessPoint::Current, Routine::Density));
    assert_eq!(calls[1], call(Model::Gerg2008, ProcessPoint::Current, Routine::Density));
    assert_eq!(calls[2], call(Model::Detail, ProcessPoint::Current, Routine::Properties));
    assert_eq!(calls[3], call(Model::Gerg2008, ProcessPoint::Current, Routine::Properties));
    assert_eq!(calls[4], call(Model::Detail, ProcessPoint::Inlet, Routine::Density));
    assert_eq!(calls[7], call(Model::Gerg2008, ProcessPoint::Inlet, Routine::Properties));
    assert_eq!(calls[8], call(Model::Detail, ProcessPoint::Outlet, Routine::Density));
    assert_eq!(calls[11], call(Model::Gerg2008, ProcessPoint::Outlet, Routine::Properties));
}

#[test]
fn startup_state() {
    let app = App::default();
    assert!(app.use_gerg2008);
    assert!(app.stp_60_F);
    assert!(!app.show_inlet_state);
    assert!(!app.show_outlet_state);
    assert!(!app.input_modal_active);
    assert_eq!(app.gas_text, "Air");
    assert_eq!(app.units.pressure, Pressure::PSI);
}

#[test]
fn setup_loads_air_and_the_startup_condition() {
    let mut app = App::default();
    let mutation = app_setup(&mut app);
    assert_eq!(app.gas_comp, get_gas_comp(Gas::Air));
    assert_eq!(mutation.writes.len(), 18);
    assert_eq!(
        mutation.writes[0],
        write(Model::Detail, ProcessPoint::Current, Input::Composition, Source::SelectedGas)
    );
    assert_eq!(
        mutation.writes[6],
        write(Model::Detail, ProcessPoint::Current, Input::Pressure, Source::Startup)
    );
    assert_eq!(
        mutation.writes[17],
        write(Model::Gerg2008, ProcessPoint::Outlet, Input::Temperature, Source::Startup)
    );
    assert_eq!(mutation.recalculation, recalculate());
    let start = startup_condition();
    assert_eq!(start.pressure, Ratio { num: 14696, den: 1000 });
    assert_eq!(start.pressure_unit, Pressure::PSI);
    assert_eq!(start.temperature, Ratio { num: 60, den: 1 });
    assert_eq!(start.temperature_unit, Temperature::F);
}

#[test]
fn startup_pressure_in_base_units() {
    let start = startup_condition();
    let mut p = start.pressure.num as f64 / start.pressure.den as f64;
    assert_eq!(p, 14.696);
    for step in set_pressure(start.pressure_unit) {
        p = match step {
            Step::Divide(Factor::Constant(r)) => p / (r.num as f64 / r.den as f64),
            _ => panic!("the formula from PSI is one division"),
        };
    }
    assert!((p - 101.325).abs() < 0.01);
}

#[test]
fn selecting_a_gas_writes_all_six_records_and_recalculates() {
    let mut app = App::default();
    let nitrogen = get_gas_comp(Gas::Nitrogen);
    let mutation = set_gas(&mut app, nitrogen);
    assert_eq!(app.gas_comp, nitrogen);
    assert_eq!(mutation.writes.len(), 6);
    let mut seen = Vec::new();
    for w in &mutation.writes {
        assert_eq!(w.input, Input::Composition);
        assert_eq!(w.source, Source::SelectedGas);
        assert!(!seen.contains(&w.record));
        seen.push(w.record);
    }
    assert_eq!(mutation.recalculation, recalculate());
}

#[test]
fn entered_pressure_and_temperature_go_to_both_current_records() {
    let p = set_cur_pressure();
    assert_eq!(
        p.writes,
        vec![
            write(Model::Detail, ProcessPoint::Current, Input::Pressure, Source::Entered),
            write(Model::Gerg2008, ProcessPoint::Current, Input::Pressure, Source::Entered),
        ]
    );
    assert_eq!(p.recalculation, recalculate());
    let t = set_cur_temperature();
    assert_eq!(
        t.writes,
        vec![
            write(Model::Detail, ProcessPoint::Current, Input::Temperature, Source::Entered),
            write(Model::Gerg2008, ProcessPoint::Current, Input::Temperature, Source::Entered),
        ]
    );
    assert_eq!(t.recalculation, recalculate());
}

#[test]
fn copying_to_a_point_writes_both_models() {
    let m = gas_process::engine::set_pressure(ProcessPoint::Outlet);
    assert_eq!(
        m.writes,
        vec![
            write(Model::Detail, ProcessPoint::Outlet, Input::Pressure, Source::Current),
            write(Model::Gerg2008, ProcessPoint::Outlet, Input::Pressure, Source::Current),
        ]
    );
    assert_eq!(m.recalculation, recalculate());
    let t = gas_process::engine::set_temperature(ProcessPoint::Inlet);
    assert_eq!(t.writes[1].record, Record { model: Model::Gerg2008, point: ProcessPoint::Inlet });
    assert_eq!(t.writes[1].input, Input::Temperature);
    let nothing = gas_process::engine::set_pressure(ProcessPoint::Current);
    assert!(nothing.writes.is_empty());
    assert!(nothing.recalculation.is_empty());
    let nothing = gas_process::engine::set_temperature(ProcessPoint::Current);
    assert!(nothing.writes.is_empty());
    assert!(nothing.recalculation.is_empty());
}

#[test]
fn inlet_and_outlet_are_set_one_by_one_and_cleared_together() {
    let mut app = App::default();
    assert_eq!(process_endpoints(&app), None);
    let inlet = set_inlet_conditions(&mut app);
    assert!(app.show_inlet_state && !app.show_outlet_state);
    assert_eq!(process_endpoints(&app), None);
    assert_eq!(inlet.writes.len(), 6);
    assert_eq!(
        inlet.writes[0],
        write(Model::Detail, ProcessPoint::Inlet, Input::Composition, Source::SelectedGas)
    );
    assert_eq!(
        inlet.writes[3],
        write(Model::Gerg2008, ProcessPoint::Inlet, Input::Pressure, Source::Current)
    );
    assert_eq!(
        inlet.writes[4],
        write(Model::Detail, ProcessPoint::Inlet, Input::Temperature, Source::Current)
    );
    assert_eq!(inlet.recalculation, recalculate());
    let outlet = set_outlet_conditions(&mut app);
    assert!(app.show_inlet_state && app.show_outlet_state);
    assert_eq!(outlet.writes[5].record.point, ProcessPoint::Outlet);
    assert_eq!(outlet.recalculation, recalculate());
    assert!(process_endpoints(&app).is_some());
    clear_conditions(&mut app);
    assert!(!app.show_inlet_state && !app.show_outlet_state);
    assert_eq!(process_endpoints(&app), None);
}

#[test]
fn switching_the_model_changes_the_records_that_are_read() {
    let mut app = App::default();
    set_inlet_conditions(&mut app);
    set_outlet_conditions(&mut app);
    let before = process_endpoints(&app).unwrap();
    assert_eq!(before.inlet, Record { model: Model::Gerg2008, point: ProcessPoint::Inlet });
    assert_eq!(before.outlet, Record { model: Model::Gerg2008, point: ProcessPoint::Outlet });
    assert_eq!(active_record(&app, ProcessPoint::Current).model, Model::Gerg2008);
    let mutation = switch_model(&mut app);
    assert!(mutation.writes.is_empty());
    assert!(!app.use_gerg2008);
    let after = process_endpoints(&app).unwrap();
    assert_eq!(after.inlet, Record { model: Model::Detail, point: ProcessPoint::Inlet });
    assert_eq!(after.outlet, Record { model: Model::Detail, point: ProcessPoint::Outlet });
    assert_eq!(active_record(&app, ProcessPoint::Current).model, Model::Detail);
    switch_model(&mut app);
    assert_eq!(process_endpoints(&app).unwrap(), before);
}

#[test]
fn process_mode_follows_the_pressure_ratio() {
    assert_eq!(process_mode(compare(0.5, 1.0)), ProcessMode::Expansion);
    assert_eq!(process_mode(compare(1.0, 1.0)), ProcessMode::Isobaric);
    assert_eq!(process_mode(compare(1.5, 1.0)), ProcessMode::Compression);
    assert_eq!(process_mode(compare(f64::NAN, 1.0)), ProcessMode::Isobaric);
    assert_eq!(mode_text(ProcessMode::Expansion), "Expansion");
    assert_eq!(mode_text(ProcessMode::Compression), "Compression");
    assert_eq!(mode_text(ProcessMode::Isobaric), "Isobaric");
}

#[test]
fn doubling_the_pressure_is_a_compression() {
    let inlet_p = 100.0;
    let outlet_p = 200.0;
    let pressure_ratio: f64 = outlet_p / inlet_p;
    assert_eq!(pressure_ratio, 2.0);
    assert_eq!(process_mode(compare(pressure_ratio, 1.0)), ProcessMode::Compression);
}

#[test]
fn efficiency_outside_of_zero_to_one_is_implausible() {
    let flagged = |e: f64| efficiency_implausible(compare(e, 0.0), compare(e, 1.0));
    assert!(flagged(-0.1));
    assert!(flagged(1.2));
    assert!(!flagged(0.0));
    assert!(!flagged(0.85));
    assert!(!flagged(1.0));
    assert!(!flagged(f64::NAN));
}
