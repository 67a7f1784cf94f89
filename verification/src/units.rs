//! The display units of every quantity domain and their labels.

use vstd::prelude::*;

verus! {

/// A unit that has a canonical label for display.
pub trait PrintUnit {
    /// The characters of the label.
    spec fn label(&self) -> Seq<char>;

    /// Returns the label of the unit.
    fn print_unit(&self) -> (text: &'static str)
        ensures
            text@ == self.label(),
    ;
}

/// Pressure units; kPa is the base unit.
#[allow(non_camel_case_types)]
#[derive(Clone, Copy, Debug, PartialEq, Eq, Structural)]
pub enum Pressure {
    kPa,
    PSI,
    Bar,
}

impl PrintUnit for Pressure {
    open spec fn label(&self) -> Seq<char> {
        match self {
            Pressure::kPa => "kPa"@,
            Pressure::Bar => "Bar"@,
            Pressure::PSI => "PSI"@,
        }
    }

    fn print_unit(&self) -> (text: &'static str) {
        match self {
            Pressure::kPa => "kPa",
            Pressure::Bar => "Bar",
            Pressure::PSI => "PSI",
        }
    }
}

/// Temperature units; K is the base unit.
#[derive(Clone, Copy, Debug, PartialEq, Eq, Structural)]
pub enum Temperature {
    C,
    K,
    F,
    R,
}

impl PrintUnit for Temperature {
    open spec fn label(&self) -> Seq<char> {
        match self {
            Temperature::C => "C"@,
            Temperature::K => "K"@,
            Temperature::F => "F"@,
            Temperature::R => "R"@,
        }
    }

    fn print_unit(&self) -> (text: &'static str) {
        match self {
            Temperature::C => "C",
            Temperature::K => "K",
            Temperature::F => "F",
            Temperature::R => "R",
        }
    }
}

/// Density units; mol/l is the base unit.
#[allow(non_camel_case_types)]
#[derive(Clone, Copy, Debug, PartialEq, Eq, Structural)]
pub enum Density {
    mol_l,
    kg_m3,
    lbm_ft3,
}

impl PrintUnit for Density {
    open spec fn label(&self) -> Seq<char> {
        match self {
            Density::mol_l => "mol/l"@,
            Density::kg_m3 => "kg/m^3"@,
            Density::lbm_ft3 => "lbm/ft^3"@,
        }
    }

    fn print_unit(&self) -> (text: &'static str) {
        match self {
            Density::mol_l => "mol/l",
            Density::kg_m3 => "kg/m^3",
            Density::lbm_ft3 => "lbm/ft^3",
        }
    }
}

/// Energy units; J/mol is the base unit.
#[allow(non_camel_case_types)]
#[derive(Clone, Copy, Debug, PartialEq, Eq, Structural)]
pub enum Energy {
    J_mol,
    kJ_kg,
    BTU_lbm,
}

impl PrintUnit for Energy {
    open spec fn label(&self) -> Seq<char> {
        match self {
            Energy::J_mol => "J/mol"@,
            Energy::kJ_kg => "kJ/kg"@,
            Energy::BTU_lbm => "BTU/lbm"@,
        }
    }

    fn print_unit(&self) -> (text: &'static str) {
        match self {
            Energy::J_mol => "J/mol",
            Energy::kJ_kg => "kJ/kg",
            Energy::BTU_lbm => "BTU/lbm",
        }
    }
}

/// Entropy and heat capacity units; J/(mol-K) is the base unit.
#[allow(non_camel_case_types)]
#[derive(Clone, Copy, Debug, PartialEq, Eq, Structural)]
pub enum Entropy {
    J_mol_K,
    kJ_kg_K,
    BTU_lbm_R,
}

impl PrintUnit for Entropy {
    open spec fn label(&self) -> Seq<char> {
        match self {
            Entropy::J_mol_K => "J/(mol-K)"@,
            Entropy::kJ_kg_K => "kJ/(kg-K)"@,
            Entropy::BTU_lbm_R => "BTU/(lbm-R)"@,
        }
    }

    fn print_unit(&self) -> (text: &'static str) {
        match self {
            Entropy::J_mol_K => "J/(mol-K)",
            Entropy::kJ_kg_K => "kJ/(kg-K)",
            Entropy::BTU_lbm_R => "BTU/(lbm-R)",
        }
    }
}

/// Speed units; m/s is the base unit.
#[allow(non_camel_case_types)]
#[derive(Clone, Copy, Debug, PartialEq, Eq, Structural)]
pub enum Speed {
    m_s,
    ft_s,
}

impl PrintUnit for Speed {
    open spec fn label(&self) -> Seq<char> {
        match self {
            Speed::m_s => "m/s"@,
            Speed::ft_s => "ft/s"@,
        }
    }

    fn print_unit(&self) -> (text: &'static str) {
        match self {
            Speed::m_s => "m/s",
            Speed::ft_s => "ft/s",
        }
    }
}

/// Units of the Joule-Thomson coefficient; K/kPa is the base unit.
#[allow(non_camel_case_types)]
#[derive(Clone, Copy, Debug, PartialEq, Eq, Structural)]
pub enum JT_Coeff {
    K_kPa,
    K_bar,
    R_PSI,
}

impl PrintUnit for JT_Coeff {
    open spec fn label(&self) -> Seq<char> {
        match self {
            JT_Coeff::K_kPa => "K/kPa"@,
            JT_Coeff::K_bar => "K/Bar"@,
            JT_Coeff::R_PSI => "R/PSI"@,
        }
    }

    fn print_unit(&self) -> (text: &'static str) {
        match self {
            JT_Coeff::K_kPa => "K/kPa",
            JT_Coeff::K_bar => "K/Bar",
            JT_Coeff::R_PSI => "R/PSI",
        }
    }
}

/// Flow units; the mass flow kg/s is the base unit.
///
/// `Nm3_h`, `scfm` and `scfh` are volumetric: they are related to the base
/// unit through the density of the gas at a reference condition.
#[allow(non_camel_case_types)]
#[derive(Clone, Copy, Debug, PartialEq, Eq, Structural)]
pub enum Flow {
    kg_s,
    kg_m,
    kg_h,
    lbm_s,
    lbm_m,
    lbm_h,
    Nm3_h,
    scfm,
    scfh,
}

impl PrintUnit for Flow {
    open spec fn label(&self) -> Seq<char> {
        match self {
            Flow::kg_s => "kg/s"@,
            Flow::kg_m => "kg/min"@,
            Flow::kg_h => "kg/hr"@,
            Flow::lbm_s => "lbm/s"@,
            Flow::lbm_m => "lbm/min"@,
            Flow::lbm_h => "lbm/hr"@,
            Flow::Nm3_h => "Nm^3/hr"@,
            Flow::scfm => "scfm"@,
            Flow::scfh => "scfh"@,
        }
    }

    fn print_unit(&self) -> (text: &'static str) {
        match self {
            Flow::kg_s => "kg/s",
            Flow::kg_m => "kg/min",
            Flow::kg_h => "kg/hr",
            Flow::lbm_s => "lbm/s",
            Flow::lbm_m => "lbm/min",
            Flow::lbm_h => "lbm/hr",
            Flow::Nm3_h => "Nm^3/hr",
            Flow::scfm => "scfm",
            Flow::scfh => "scfh",
        }
    }
}

/// The display unit that is active in each quantity domain.
#[derive(Clone, Copy, Debug, PartialEq, Eq, Structural)]
pub struct Units {
    pub pressure: Pressure,
    pub temp: Temperature,
    pub density: Density,
    pub energy: Energy,
    pub entropy: Entropy,
    pub speed: Speed,
    pub jt_coeff: JT_Coeff,
    pub flow: Flow,
}

impl Units {
    /// The units that are active at startup: the US customary ones.
    pub open spec fn initial() -> Units {
        Units {
            pressure: Pressure::PSI,
            temp: Temperature::F,
            density: Density::lbm_ft3,
            energy: Energy::BTU_lbm,
            entropy: Entropy::BTU_lbm_R,
            speed: Speed::ft_s,
            jt_coeff: JT_Coeff::R_PSI,
            flow: Flow::scfm,
        }
    }
}

impl Default for Units {
    fn default() -> (units: Units)
        ensures
            units == Units::initial(),
    {
        Units {
            pressure: Pressure::PSI,
            temp: Temperature::F,
            density: Density::lbm_ft3,
            energy: Energy::BTU_lbm,
            entropy: Entropy::BTU_lbm_R,
            speed: Speed::ft_s,
            jt_coeff: JT_Coeff::R_PSI,
            flow: Flow::scfm,
        }
    }
}

} // verus!
