//! The gas state mirror and its recalculation.
//!
//! Each of the three process points has two gas state records, one per
//! equation-of-state model. The records hold machine numbers and belong to the
//! caller. This module decides which records a change writes to, in which
//! order the models are run afterwards, and which record is read.

use vstd::prelude::*;
use crate::exact::Ratio;
use crate::gas::{preset, Composition, Gas};
use crate::state::App;
use crate::units::{Pressure, Temperature};

verus! {

/// The two equation-of-state models.
#[derive(Clone, Copy, Debug, PartialEq, Eq, Structural)]
pub enum Model {
    /// AGA8-DETAIL.
    Detail,
    /// GERG-2008.
    Gerg2008,
}

/// The three process points.
#[derive(Clone, Copy, Debug, PartialEq, Eq, Structural)]
pub enum ProcessPoint {
    Current,
    Inlet,
    Outlet,
}

/// One of the six gas state records.
#[derive(Clone, Copy, Debug, PartialEq, Eq, Structural)]
pub struct Record {
    pub model: Model,
    pub point: ProcessPoint,
}

/// A property of a gas state record.
#[derive(Clone, Copy, Debug, PartialEq, Eq, Structural)]
pub enum Property {
    Pressure,
    Temperature,
    Density,
    MolarMass,
    InternalEnergy,
    Enthalpy,
    Entropy,
    Cp,
    Cv,
    Kappa,
    Z,
    SpeedOfSound,
    JouleThomson,
}

/// The two routines of a model. `Density` solves the density of a record from
/// its composition, pressure and temperature; `Properties` then fills in all
/// other properties.
#[derive(Clone, Copy, Debug, PartialEq, Eq, Structural)]
pub enum Routine {
    Density,
    Properties,
}

/// One run of a routine on a record.
#[derive(Clone, Copy, Debug, PartialEq, Eq, Structural)]
pub struct OracleCall {
    pub record: Record,
    pub routine: Routine,
}

/// An input of a record.
#[derive(Clone, Copy, Debug, PartialEq, Eq, Structural)]
pub enum Input {
    Composition,
    Pressure,
    Temperature,
}

/// Where a written input comes from.
#[derive(Clone, Copy, Debug, PartialEq, Eq, Structural)]
pub enum Source {
    /// The composition of the selected gas, `App::gas_comp`.
    SelectedGas,
    /// The value that was entered, carried from the active display unit to
    /// the base unit.
    Entered,
    /// The startup condition, carried from its unit to the base unit.
    Startup,
    /// The same input of the current record of the same model, as displayed:
    /// carried to the active display unit and back to the base unit.
    Current,
}

/// One input of one record to be written.
#[derive(Clone, Copy, Debug, PartialEq, Eq, Structural)]
pub struct Write {
    pub record: Record,
    pub input: Input,
    pub source: Source,
}

/// What a change asks of the caller: first the writes, in order, then the
/// runs of the models, in order.
#[derive(Debug)]
pub struct Mutation {
    pub writes: Vec<Write>,
    pub recalculation: Vec<OracleCall>,
}

/// The pressure and temperature of every record at startup.
#[derive(Clone, Copy, Debug, PartialEq, Eq, Structural)]
pub struct StartupCondition {
    pub pressure: Ratio,
    pub pressure_unit: Pressure,
    pub temperature: Ratio,
    pub temperature_unit: Temperature,
}

/// The process point with the given index: 0, 1, 2 for current, inlet, outlet.
pub open spec fn point_at(i: int) -> ProcessPoint {
    if i == 0 {
        ProcessPoint::Current
    } else if i == 1 {
        ProcessPoint::Inlet
    } else {
        ProcessPoint::Outlet
    }
}

/// The index of a process point.
pub open spec fn point_index(point: ProcessPoint) -> int {
    match point {
        ProcessPoint::Current => 0,
        ProcessPoint::Inlet => 1,
        ProcessPoint::Outlet => 2,
    }
}

/// The index of a model.
pub open spec fn model_index(model: Model) -> int {
    match model {
        Model::Detail => 0,
        Model::Gerg2008 => 1,
    }
}

/// The call at place `i` of a recalculation. The points come one after the
/// other; for each point the densities of both models are solved first, then
/// the properties of both are filled in.
pub open spec fn scheduled_call(i: int) -> OracleCall {
    OracleCall {
        record: Record {
            model: if i % 2 == 0 {
                Model::Detail
            } else {
                Model::Gerg2008
            },
            point: point_at(i / 4),
        },
        routine: if i % 4 < 2 {
            Routine::Density
        } else {
            Routine::Properties
        },
    }
}

/// The twelve calls of a recalculation.
pub open spec fn schedule() -> Seq<OracleCall> {
    Seq::new(12, |i: int| scheduled_call(i))
}

/// The place at which a recalculation solves the density of `record`; it
/// fills in the properties of `record` two places later.
pub open spec fn density_place(record: Record) -> int {
    4 * point_index(record.point) + model_index(record.model)
}

/// The writes of one input from one source to the records of both models at
/// `point`.
pub open spec fn both_models(point: ProcessPoint, input: Input, source: Source) -> Seq<Write> {
    seq![
        Write { record: Record { model: Model::Detail, point }, input, source },
        Write { record: Record { model: Model::Gerg2008, point }, input, source },
    ]
}

/// The writes of one input from one source to all six records.
pub open spec fn all_records(input: Input, source: Source) -> Seq<Write> {
    both_models(ProcessPoint::Current, input, source) + both_models(
        ProcessPoint::Inlet,
        input,
        source,
    ) + both_models(ProcessPoint::Outlet, input, source)
}

/// The writes that make `point` a snapshot of the current point: the
/// composition of the selected gas, then the displayed pressure and the
/// displayed temperature of the current point.
pub open spec fn snapshot(point: ProcessPoint) -> Seq<Write> {
    both_models(point, Input::Composition, Source::SelectedGas) + both_models(
        point,
        Input::Pressure,
        Source::Current,
    ) + both_models(point, Input::Temperature, Source::Current)
}

/// The model that is active under the flag.
pub open spec fn active(use_gerg2008: bool) -> Model {
    if use_gerg2008 {
        Model::Gerg2008
    } else {
        Model::Detail
    }
}

fn nth_point(i: usize) -> (point: ProcessPoint)
    requires
        i < 3,
    ensures
        point == point_at(i as int),
{
    if i == 0 {
        ProcessPoint::Current
    } else if i == 1 {
        ProcessPoint::Inlet
    } else {
        ProcessPoint::Outlet
    }
}

fn push_both(writes: &mut Vec<Write>, point: ProcessPoint, input: Input, source: Source)
    ensures
        final(writes)@ == old(writes)@ + both_models(point, input, source),
{
    writes.push(Write { record: Record { model: Model::Detail, point }, input, source });
    writes.push(Write { record: Record { model: Model::Gerg2008, point }, input, source });
    assert(writes@ =~= old(writes)@ + both_models(point, input, source));
}

/// The recalculation: for each of the six records the density routine and
/// then the property routine, whatever has changed.
pub fn recalculate() -> (calls: Vec<OracleCall>)
    ensures
        calls@ == schedule(),
{
    let mut calls: Vec<OracleCall> = Vec::new();
    let mut i: usize = 0;
    while i < 3
        invariant
            i <= 3,
            calls@.len() == 4 * i,
            forall|k: int| 0 <= k < calls@.len() ==> calls@[k] == scheduled_call(k),
        decreases 3 - i,
    {
        let point = nth_point(i);
        let detail = Record { model: Model::Detail, point };
        let gerg = Record { model: Model::Gerg2008, point };
        calls.push(OracleCall { record: detail, routine: Routine::Density });
        calls.push(OracleCall { record: gerg, routine: Routine::Density });
        calls.push(OracleCall { record: detail, routine: Routine::Properties });
        calls.push(OracleCall { record: gerg, routine: Routine::Properties });
        i += 1;
    }
    assert(calls@ =~= schedule());
    calls
}

/// The name of a model.
pub fn model_text(model: Model) -> (text: &'static str)
    ensures
        model == Model::Detail ==> text@ == "AGA8"@,
        model == Model::Gerg2008 ==> text@ == "GERG-2008"@,
{
    match model {
        Model::Detail => "AGA8",
        Model::Gerg2008 => "GERG-2008",
    }
}

/// The record of `point` that is read: that of the active model.
pub fn active_record(app: &App, point: ProcessPoint) -> (record: Record)
    ensures
        record == (Record { model: active(app.use_gerg2008), point }),
{
    if app.use_gerg2008 {
        Record { model: Model::Gerg2008, point }
    } else {
        Record { model: Model::Detail, point }
    }
}

/// The condition that every record starts from: 14.696 PSI and 60 F.
pub fn startup_condition() -> (condition: StartupCondition)
    ensures
        condition == (StartupCondition {
            pressure: Ratio { num: 14696, den: 1000 },
            pressure_unit: Pressure::PSI,
            temperature: Ratio { num: 60, den: 1 },
            temperature_unit: Temperature::F,
        }),
{
    StartupCondition {
        pressure: Ratio { num: 14696, den: 1000 },
        pressure_unit: Pressure::PSI,
        temperature: Ratio { num: 60, den: 1 },
        temperature_unit: Temperature::F,
    }
}

/// Prepares a session: selects air, and has air and the startup condition
/// written to all six records before they are calculated.
pub fn app_setup(app: &mut App) -> (mutation: Mutation)
    ensures
        *final(app) == (App { gas_comp: preset(Gas::Air), ..*old(app) }),
        mutation.writes@ == all_records(Input::Composition, Source::SelectedGas) + all_records(
            Input::Pressure,
            Source::Startup,
        ) + all_records(Input::Temperature, Source::Startup),
        mutation.recalculation@ == schedule(),
{
    let gas_comp = crate::gas::get_gas_comp(Gas::Air);
    *app = App { gas_comp, ..*app };
    let mut writes: Vec<Write> = Vec::new();
    push_all(&mut writes, Input::Composition, Source::SelectedGas);
    push_all(&mut writes, Input::Pressure, Source::Startup);
    push_all(&mut writes, Input::Temperature, Source::Startup);
    Mutation { writes, recalculation: recalculate() }
}

fn push_all(writes: &mut Vec<Write>, input: Input, source: Source)
    ensures
        final(writes)@ == old(writes)@ + all_records(input, source),
{
    push_both(writes, ProcessPoint::Current, input, source);
    push_both(writes, ProcessPoint::Inlet, input, source);
    push_both(writes, ProcessPoint::Outlet, input, source);
    assert(writes@ =~= old(writes)@ + all_records(input, source));
}

/// Selects a gas: its composition overwrites that of all six records at once,
/// and everything is recalculated.
pub fn set_gas(app: &mut App, composition: Composition) -> (mutation: Mutation)
    ensures
        *final(app) == (App { gas_comp: composition, ..*old(app) }),
        mutation.writes@ == all_records(Input::Composition, Source::SelectedGas),
        mutation.recalculation@ == schedule(),
{
    *app = App { gas_comp: composition, ..*app };
    let mut writes: Vec<Write> = Vec::new();
    push_all(&mut writes, Input::Composition, Source::SelectedGas);
    Mutation { writes, recalculation: recalculate() }
}

/// Takes an entered pressure: it goes to the current records of both models,
/// and everything is recalculated.
pub fn set_cur_pressure() -> (mutation: Mutation)
    ensures
        mutation.writes@ == both_models(ProcessPoint::Current, Input::Pressure, Source::Entered),
        mutation.recalculation@ == schedule(),
{
    let mut writes: Vec<Write> = Vec::new();
    push_both(&mut writes, ProcessPoint::Current, Input::Pressure, Source::Entered);
    Mutation { writes, recalculation: recalculate() }
}

/// Takes an entered temperature: it goes to the current records of both
/// models, and everything is recalculated.
pub fn set_cur_temperature() -> (mutation: Mutation)
    ensures
        mutation.writes@ == both_models(
            ProcessPoint::Current,
            Input::Temperature,
            Source::Entered,
        ),
        mutation.recalculation@ == schedule(),
{
    let mut writes: Vec<Write> = Vec::new();
    push_both(&mut writes, ProcessPoint::Current, Input::Temperature, Source::Entered);
    Mutation { writes, recalculation: recalculate() }
}

/// Gives the inlet or the outlet the displayed pressure of the current point
/// and recalculates everything. For the current point itself nothing is to be
/// done.
pub fn set_pressure(state: ProcessPoint) -> (mutation: Mutation)
    ensures
        state == ProcessPoint::Current ==> mutation.writes@ == Seq::<Write>::empty()
            && mutation.recalculation@ == Seq::<OracleCall>::empty(),
        state != ProcessPoint::Current ==> mutation.writes@ == both_models(
            state,
            Input::Pressure,
            Source::Current,
        ) && mutation.recalculation@ == schedule(),
{
    copy_from_current(state, Input::Pressure)
}

/// Gives the inlet or the outlet the displayed temperature of the current
/// point and recalculates everything. For the current point itself nothing is
/// to be done.
pub fn set_temperature(state: ProcessPoint) -> (mutation: Mutation)
    ensures
        state == ProcessPoint::Current ==> mutation.writes@ == Seq::<Write>::empty()
            && mutation.recalculation@ == Seq::<OracleCall>::empty(),
        state != ProcessPoint::Current ==> mutation.writes@ == both_models(
            state,
            Input::Temperature,
            Source::Current,
        ) && mutation.recalculation@ == schedule(),
{
    copy_from_current(state, Input::Temperature)
}

fn copy_from_current(state: ProcessPoint, input: Input) -> (mutation: Mutation)
    ensures
        state == ProcessPoint::Current ==> mutation.writes@ == Seq::<Write>::empty()
            && mutation.recalculation@ == Seq::<OracleCall>::empty(),
        state != ProcessPoint::Current ==> mutation.writes@ == both_models(
            state,
            input,
            Source::Current,
        ) && mutation.recalculation@ == schedule(),
{
    let mut writes: Vec<Write> = Vec::new();
    match state {
        ProcessPoint::Current => Mutation { writes, recalculation: Vec::new() },
        _ => {
            push_both(&mut writes, state, input, Source::Current);
            Mutation { writes, recalculation: recalculate() }
        },
    }
}

fn set_conditions(point: ProcessPoint) -> (mutation: Mutation)
    ensures
        mutation.writes@ == snapshot(point),
        mutation.recalculation@ == schedule(),
{
    let mut writes: Vec<Write> = Vec::new();
    push_both(&mut writes, point, Input::Composition, Source::SelectedGas);
    push_both(&mut writes, point, Input::Pressure, Source::Current);
    push_both(&mut writes, point, Input::Temperature, Source::Current);
    Mutation { writes, recalculation: recalculate() }
}

/// Defines the inlet as a snapshot of the current point: composition,
/// displayed pressure and displayed temperature. Everything is recalculated.
pub fn set_inlet_conditions(app: &mut App) -> (mutation: Mutation)
    ensures
        *final(app) == (App { show_inlet_state: true, ..*old(app) }),
        mutation.writes@ == snapshot(ProcessPoint::Inlet),
        mutation.recalculation@ == schedule(),
{
    *app = App { show_inlet_state: true, ..*app };
    set_conditions(ProcessPoint::Inlet)
}

/// Defines the outlet as a snapshot of the current point: composition,
/// displayed pressure and displayed temperature. Everything is recalculated.
pub fn set_outlet_conditions(app: &mut App) -> (mutation: Mutation)
    ensures
        *final(app) == (App { show_outlet_state: true, ..*old(app) }),
        mutation.writes@ == snapshot(ProcessPoint::Outlet),
        mutation.recalculation@ == schedule(),
{
    *app = App { show_outlet_state: true, ..*app };
    set_conditions(ProcessPoint::Outlet)
}

/// Makes inlet and outlet undefined again, both together.
pub fn clear_conditions(app: &mut App)
    ensures
        *final(app) == (App { show_inlet_state: false, show_outlet_state: false, ..*old(app) }),
{
    *app = App { show_inlet_state: false, show_outlet_state: false, ..*app };
}

/// Makes the other model the active one. No record is written; everything is
/// recalculated.
pub fn switch_model(app: &mut App) -> (mutation: Mutation)
    ensures
        *final(app) == (App { use_gerg2008: !old(app).use_gerg2008, ..*old(app) }),
        mutation.writes@ == Seq::<Write>::empty(),
        mutation.recalculation@ == schedule(),
{
    let use_gerg2008 = !app.use_gerg2008;
    *app = App { use_gerg2008, ..*app };
    Mutation { writes: Vec::new(), recalculation: recalculate() }
}

/// A recalculation runs both routines on every record, each once, and the
/// density routine before the property routine.
pub proof fn lemma_schedule_covers(record: Record)
    ensures
        0 <= density_place(record) < density_place(record) + 2 < schedule().len(),
        schedule()[density_place(record)] == (OracleCall { record, routine: Routine::Density }),
        schedule()[density_place(record) + 2] == (OracleCall {
            record,
            routine: Routine::Properties,
        }),
        forall|k: int|
            0 <= k < schedule().len() && (#[trigger] schedule()[k]).record == record ==> k
                == density_place(record) || k == density_place(record) + 2,
{
}

/// Switching the model changes which record of a point is read and nothing
/// else. The record that is read from then on is one that every
/// recalculation has kept up to date, whichever model was active: no further
/// recalculation is needed for it.
pub proof fn lemma_switch_reads_other_mirror(use_gerg2008: bool, point: ProcessPoint)
    ensures
        active(!use_gerg2008) != active(use_gerg2008),
        schedule()[density_place(Record { model: active(!use_gerg2008), point })] == (OracleCall {
            record: Record { model: active(!use_gerg2008), point },
            routine: Routine::Density,
        }),
        schedule()[density_place(Record { model: active(!use_gerg2008), point }) + 2]
            == (OracleCall {
            record: Record { model: active(!use_gerg2008), point },
            routine: Routine::Properties,
        }),
{
    lemma_schedule_covers(Record { model: active(!use_gerg2008), point });
}

} // verus!
