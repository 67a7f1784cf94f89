//! The state of a session: the dialogs on screen, the selections, and which
//! process points are defined.
//!
//! The numbers of a session (the six gas state records, the flow, the wheel
//! data) are kept by the caller; this state decides what is done with them.

use vstd::prelude::*;
use crate::gas::Composition;
use crate::units::Units;

verus! {

/// The state of a session.
#[allow(non_snake_case)]
#[derive(Clone, Copy, Debug)]
pub struct App {
    pub pressure_modal_visible: bool,
    pub temperature_modal_visible: bool,
    pub gas_modal_visible: bool,
    pub flow_modal_visible: bool,
    pub select_unit_modal_visible: bool,
    pub pressure_units_modal_visible: bool,
    pub temperature_units_modal_visible: bool,
    pub density_units_modal_visible: bool,
    pub energy_units_modal_visible: bool,
    pub entropy_units_modal_visible: bool,
    pub speed_units_modal_visible: bool,
    pub flow_units_modal_visible: bool,
    pub input_speed_modal_visible: bool,
    pub gear_ratio_modal_visible: bool,
    pub wheel_diameter_modal_visible: bool,
    /// The composition of the selected gas.
    pub gas_comp: Composition,
    /// GERG-2008 is the active model; otherwise AGA8-DETAIL is.
    pub use_gerg2008: bool,
    pub units: Units,
    /// The inlet is defined.
    pub show_inlet_state: bool,
    /// The outlet is defined.
    pub show_outlet_state: bool,
    /// Keys go to the line of text that a value is entered in.
    pub input_modal_active: bool,
    /// The name of the selected gas.
    pub gas_text: &'static str,
    /// Standard cubic feet are counted at 60 F; otherwise at 70 F.
    pub stp_60_F: bool,
}

impl App {
    /// The state at startup: no dialog on screen, GERG-2008 active, the US
    /// customary units, neither inlet nor outlet defined, and no gas loaded
    /// yet under the name of air.
    pub open spec fn initial() -> App {
        App {
            pressure_modal_visible: false,
            temperature_modal_visible: false,
            gas_modal_visible: false,
            flow_modal_visible: false,
            select_unit_modal_visible: false,
            pressure_units_modal_visible: false,
            temperature_units_modal_visible: false,
            density_units_modal_visible: false,
            energy_units_modal_visible: false,
            entropy_units_modal_visible: false,
            speed_units_modal_visible: false,
            flow_units_modal_visible: false,
            input_speed_modal_visible: false,
            gear_ratio_modal_visible: false,
            wheel_diameter_modal_visible: false,
            gas_comp: Composition::empty(),
            use_gerg2008: true,
            units: Units::initial(),
            show_inlet_state: false,
            show_outlet_state: false,
            input_modal_active: false,
            gas_text: "Air",
            stp_60_F: true,
        }
    }
}

impl Default for App {
    fn default() -> (app: App)
        ensures
            app == App::initial(),
    {
        App {
            pressure_modal_visible: false,
            temperature_modal_visible: false,
            gas_modal_visible: false,
            flow_modal_visible: false,
            select_unit_modal_visible: false,
            pressure_units_modal_visible: false,
            temperature_units_modal_visible: false,
            density_units_modal_visible: false,
            energy_units_modal_visible: false,
            entropy_units_modal_visible: false,
            speed_units_modal_visible: false,
            flow_units_modal_visible: false,
            input_speed_modal_visible: false,
            gear_ratio_modal_visible: false,
            wheel_diameter_modal_visible: false,
            gas_comp: Composition::default(),
            use_gerg2008: true,
            units: Units::default(),
            show_inlet_state: false,
            show_outlet_state: false,
            input_modal_active: false,
            gas_text: "Air",
            stp_60_F: true,
        }
    }
}

} // verus!
