//! The conversion formulas between the base unit of each quantity domain and
//! its display units.
//!
//! Each `get_` function gives the formula from the base unit to a display
//! unit, each `set_` function the formula back. What a formula computes is
//! stated by a spec function on fractions, and the laws below show that the
//! two directions undo each other exactly.

use vstd::prelude::*;
use crate::exact::{lemma_common_factor, lemma_there_and_back, Frac, Ratio};
use crate::formula::{formula_value, value_after, Conditions, Factor, Step};
use crate::units::{Density, Energy, Entropy, JT_Coeff, Pressure, Speed, Temperature};

verus! {

/// Bar per kPa: 0.01.
pub open spec fn bar_per_kpa() -> Frac {
    Frac { num: 1, den: 100 }
}

/// PSI per kPa: 0.145038.
pub open spec fn psi_per_kpa() -> Frac {
    Frac { num: 145038, den: 1000000 }
}

/// The Kelvin value of 0 degrees Celsius: 273.15.
pub open spec fn celsius_zero() -> Frac {
    Frac { num: 27315, den: 100 }
}

/// The Fahrenheit value of 0 degrees Celsius: 32.
pub open spec fn fahrenheit_zero() -> Frac {
    Frac::whole(32)
}

/// Pounds per kilogram: 2.20462.
pub open spec fn lbm_per_kg() -> Frac {
    Frac { num: 220462, den: 100000 }
}

/// Cubic feet per cubic metre: 35.3147.
pub open spec fn ft3_per_m3() -> Frac {
    Frac { num: 353147, den: 10000 }
}

/// BTU/lbm per kJ/kg: 0.429923.
pub open spec fn btu_lbm_per_kj_kg() -> Frac {
    Frac { num: 429923, den: 1000000 }
}

/// Feet per metre: 3.28084.
pub open spec fn ft_per_m() -> Frac {
    Frac { num: 328084, den: 100000 }
}

/// A pressure in `unit`, given in kPa.
pub open spec fn pressure_display(kpa: Frac, unit: Pressure) -> Frac {
    match unit {
        Pressure::kPa => kpa,
        Pressure::Bar => kpa.times(bar_per_kpa()),
        Pressure::PSI => kpa.times(psi_per_kpa()),
    }
}

/// A pressure in kPa, given in `unit`.
pub open spec fn pressure_base(value: Frac, unit: Pressure) -> Frac {
    match unit {
        Pressure::kPa => value,
        Pressure::Bar => value.over(bar_per_kpa()),
        Pressure::PSI => value.over(psi_per_kpa()),
    }
}

/// A temperature in `unit`, given in K.
pub open spec fn temperature_display(kelvin: Frac, unit: Temperature) -> Frac {
    match unit {
        Temperature::K => kelvin,
        Temperature::C => kelvin.minus(celsius_zero()),
        Temperature::F => kelvin.minus(celsius_zero()).times(Frac::whole(9)).over(
            Frac::whole(5),
        ).plus(fahrenheit_zero()),
        Temperature::R => kelvin.times(Frac::whole(9)).over(Frac::whole(5)),
    }
}

/// A temperature in K, given in `unit`.
pub open spec fn temperature_base(value: Frac, unit: Temperature) -> Frac {
    match unit {
        Temperature::K => value,
        Temperature::C => value.plus(celsius_zero()),
        Temperature::F => value.minus(fahrenheit_zero()).times(Frac::whole(5)).over(
            Frac::whole(9),
        ).plus(celsius_zero()),
        Temperature::R => value.times(Frac::whole(5)).over(Frac::whole(9)),
    }
}

/// The size of a Kelvin in degrees of `unit`: 1 in K and C, 9/5 in F and R.
pub open spec fn degrees_per_kelvin(unit: Temperature) -> Frac {
    match unit {
        Temperature::K | Temperature::C => Frac::whole(1),
        Temperature::F | Temperature::R => Frac { num: 9, den: 5 },
    }
}

/// A density in `unit`, given in mol/l, for a gas of molar mass
/// `c.molar_mass`.
pub open spec fn density_display(mol_l: Frac, unit: Density, c: Conditions) -> Frac {
    match unit {
        Density::mol_l => mol_l,
        Density::kg_m3 => mol_l.times(c.molar_mass),
        Density::lbm_ft3 => mol_l.times(c.molar_mass).times(lbm_per_kg()).over(ft3_per_m3()),
    }
}

/// An energy in `unit`, given in J/mol, for a gas of molar mass
/// `c.molar_mass`.
pub open spec fn energy_display(j_mol: Frac, unit: Energy, c: Conditions) -> Frac {
    match unit {
        Energy::J_mol => j_mol,
        Energy::kJ_kg => j_mol.over(c.molar_mass),
        Energy::BTU_lbm => j_mol.over(c.molar_mass).times(btu_lbm_per_kj_kg()),
    }
}

/// An energy in J/mol, given in `unit`.
pub open spec fn energy_base(value: Frac, unit: Energy, c: Conditions) -> Frac {
    match unit {
        Energy::J_mol => value,
        Energy::kJ_kg => value.times(c.molar_mass),
        Energy::BTU_lbm => value.times(c.molar_mass).over(btu_lbm_per_kj_kg()),
    }
}

/// An entropy or heat capacity in `unit`, given in J/(mol-K). The customary
/// unit is per degree Rankine, which is 5/9 of a Kelvin.
pub open spec fn entropy_display(j_mol_k: Frac, unit: Entropy, c: Conditions) -> Frac {
    match unit {
        Entropy::J_mol_K => j_mol_k,
        Entropy::kJ_kg_K => j_mol_k.over(c.molar_mass),
        Entropy::BTU_lbm_R => j_mol_k.over(c.molar_mass).times(btu_lbm_per_kj_kg()).times(
            Frac::whole(5),
        ).over(Frac::whole(9)),
    }
}

/// An entropy or heat capacity in J/(mol-K), given in `unit`.
pub open spec fn entropy_base(value: Frac, unit: Entropy, c: Conditions) -> Frac {
    match unit {
        Entropy::J_mol_K => value,
        Entropy::kJ_kg_K => value.times(c.molar_mass),
        Entropy::BTU_lbm_R => value.times(c.molar_mass).over(btu_lbm_per_kj_kg()).over(
            Frac::whole(5),
        ).times(Frac::whole(9)),
    }
}

/// A speed in `unit`, given in m/s.
pub open spec fn speed_display(m_s: Frac, unit: Speed) -> Frac {
    match unit {
        Speed::m_s => m_s,
        Speed::ft_s => m_s.times(ft_per_m()),
    }
}

/// A speed in m/s, given in `unit`.
pub open spec fn speed_base(value: Frac, unit: Speed) -> Frac {
    match unit {
        Speed::m_s => value,
        Speed::ft_s => value.over(ft_per_m()),
    }
}

/// A Gibbs energy for display. It is reported per unit of pressure and per
/// unit of temperature: the value is divided by the factor of the pressure
/// unit and, for the Fahrenheit-sized degrees, multiplied by 9/5.
pub open spec fn gibbs_display(g: Frac, p: Pressure, t: Temperature) -> Frac {
    let by_pressure = match p {
        Pressure::kPa => g,
        Pressure::Bar => g.over(bar_per_kpa()),
        Pressure::PSI => g.over(psi_per_kpa()),
    };
    match t {
        Temperature::K | Temperature::C => by_pressure,
        Temperature::R | Temperature::F => by_pressure.times(Frac::whole(9)).over(
            Frac::whole(5),
        ),
    }
}

/// A Joule-Thomson coefficient in `unit`, given in K/kPa.
pub open spec fn jt_display(k_kpa: Frac, unit: JT_Coeff) -> Frac {
    match unit {
        JT_Coeff::K_kPa => k_kpa,
        JT_Coeff::K_bar => k_kpa.times(bar_per_kpa()),
        JT_Coeff::R_PSI => k_kpa.times(Frac::whole(9)).over(Frac::whole(5)).over(
            psi_per_kpa(),
        ),
    }
}

/// A Joule-Thomson coefficient in K/kPa, given in `unit`.
pub open spec fn jt_base(value: Frac, unit: JT_Coeff) -> Frac {
    match unit {
        JT_Coeff::K_kPa => value,
        JT_Coeff::K_bar => value.over(bar_per_kpa()),
        JT_Coeff::R_PSI => value.over(Frac::whole(9)).times(Frac::whole(5)).times(
            psi_per_kpa(),
        ),
    }
}

/// The formula that carries a pressure from kPa to `unit`.
pub fn get_pressure(unit: Pressure) -> (steps: Vec<Step>)
    ensures
        forall|x: Frac, c: Conditions| #[trigger]
            formula_value(steps@, x, c) == pressure_display(x, unit),
{
    let steps = match unit {
        Pressure::kPa => Vec::new(),
        Pressure::Bar => vec![Step::multiply_by(1, 100)],
        Pressure::PSI => vec![Step::multiply_by(145038, 1000000)],
    };
    proof {
        reveal_with_fuel(value_after, 2);
    }
    steps
}

/// The formula that carries a pressure from `unit` to kPa.
pub fn set_pressure(unit: Pressure) -> (steps: Vec<Step>)
    ensures
        forall|x: Frac, c: Conditions| #[trigger]
            formula_value(steps@, x, c) == pressure_base(x, unit),
{
    let steps = match unit {
        Pressure::kPa => Vec::new(),
        Pressure::Bar => vec![Step::divide_by(1, 100)],
        Pressure::PSI => vec![Step::divide_by(145038, 1000000)],
    };
    proof {
        reveal_with_fuel(value_after, 2);
    }
    steps
}

/// The formula that carries a temperature from K to `unit`.
pub fn get_temperature(unit: Temperature) -> (steps: Vec<Step>)
    ensures
        forall|x: Frac, c: Conditions| #[trigger]
            formula_value(steps@, x, c) == temperature_display(x, unit),
{
    let steps = match unit {
        Temperature::K => Vec::new(),
        Temperature::C => vec![Step::Subtract(Ratio { num: 27315, den: 100 })],
        Temperature::F => vec![
            Step::Subtract(Ratio { num: 27315, den: 100 }),
            Step::multiply_by(9, 1),
            Step::divide_by(5, 1),
            Step::Add(Ratio { num: 32, den: 1 }),
        ],
        Temperature::R => vec![Step::multiply_by(9, 1), Step::divide_by(5, 1)],
    };
    proof {
        reveal_with_fuel(value_after, 5);
    }
    steps
}

/// The formula that carries a temperature from `unit` to K.
pub fn set_temperature(unit: Temperature) -> (steps: Vec<Step>)
    ensures
        forall|x: Frac, c: Conditions| #[trigger]
            formula_value(steps@, x, c) == temperature_base(x, unit),
{
    let steps = match unit {
        Temperature::K => Vec::new(),
        Temperature::C => vec![Step::Add(Ratio { num: 27315, den: 100 })],
        Temperature::F => vec![
            Step::Subtract(Ratio { num: 32, den: 1 }),
            Step::multiply_by(5, 1),
            Step::divide_by(9, 1),
            Step::Add(Ratio { num: 27315, den: 100 }),
        ],
        Temperature::R => vec![Step::multiply_by(5, 1), Step::divide_by(9, 1)],
    };
    proof {
        reveal_with_fuel(value_after, 5);
    }
    steps
}

/// The formula that carries a density from mol/l to `unit`.
pub fn get_density(unit: Density) -> (steps: Vec<Step>)
    ensures
        forall|x: Frac, c: Conditions| #[trigger]
            formula_value(steps@, x, c) == density_display(x, unit, c),
{
    let steps = match unit {
        Density::mol_l => Vec::new(),
        Density::kg_m3 => vec![Step::Multiply(Factor::MolarMass)],
        Density::lbm_ft3 => vec![
            Step::Multiply(Factor::MolarMass),
            Step::multiply_by(220462, 100000),
            Step::divide_by(353147, 10000),
        ],
    };
    proof {
        reveal_with_fuel(value_after, 4);
    }
    steps
}

/// The formula that carries an energy from J/mol to `unit`.
pub fn get_energy(unit: Energy) -> (steps: Vec<Step>)
    ensures
        forall|x: Frac, c: Conditions| #[trigger]
            formula_value(steps@, x, c) == energy_display(x, unit, c),
{
    let steps = match unit {
        Energy::J_mol => Vec::new(),
        Energy::kJ_kg => vec![Step::Divide(Factor::MolarMass)],
        Energy::BTU_lbm => vec![Step::Divide(Factor::MolarMass), Step::multiply_by(429923, 1000000)],
    };
    proof {
        reveal_with_fuel(value_after, 3);
    }
    steps
}

/// The formula that carries an energy from `unit` to J/mol.
pub fn set_energy(unit: Energy) -> (steps: Vec<Step>)
    ensures
        forall|x: Frac, c: Conditions| #[trigger]
            formula_value(steps@, x, c) == energy_base(x, unit, c),
{
    let steps = match unit {
        Energy::J_mol => Vec::new(),
        Energy::kJ_kg => vec![Step::Multiply(Factor::MolarMass)],
        Energy::BTU_lbm => vec![Step::Multiply(Factor::MolarMass), Step::divide_by(429923, 1000000)],
    };
    proof {
        reveal_with_fuel(value_after, 3);
    }
    steps
}

/// The formula that carries an entropy or heat capacity from J/(mol-K) to
/// `unit`.
pub fn get_entropy(unit: Entropy) -> (steps: Vec<Step>)
    ensures
        forall|x: Frac, c: Conditions| #[trigger]
            formula_value(steps@, x, c) == entropy_display(x, unit, c),
{
    let steps = match unit {
        Entropy::J_mol_K => Vec::new(),
        Entropy::kJ_kg_K => vec![Step::Divide(Factor::MolarMass)],
        Entropy::BTU_lbm_R => vec![
            Step::Divide(Factor::MolarMass),
            Step::multiply_by(429923, 1000000),
            Step::multiply_by(5, 1),
            Step::divide_by(9, 1),
        ],
    };
    proof {
        reveal_with_fuel(value_after, 5);
    }
    steps
}

/// The formula that carries an entropy or heat capacity from `unit` to
/// J/(mol-K).
pub fn set_entropy(unit: Entropy) -> (steps: Vec<Step>)
    ensures
        forall|x: Frac, c: Conditions| #[trigger]
            formula_value(steps@, x, c) == entropy_base(x, unit, c),
{
    let steps = match unit {
        Entropy::J_mol_K => Vec::new(),
        Entropy::kJ_kg_K => vec![Step::Multiply(Factor::MolarMass)],
        Entropy::BTU_lbm_R => vec![
            Step::Multiply(Factor::MolarMass),
            Step::divide_by(429923, 1000000),
            Step::divide_by(5, 1),
            Step::multiply_by(9, 1),
        ],
    };
    proof {
        reveal_with_fuel(value_after, 5);
    }
    steps
}

/// The formula that carries a speed from m/s to `unit`.
pub fn get_speed(unit: Speed) -> (steps: Vec<Step>)
    ensures
        forall|x: Frac, c: Conditions| #[trigger]
            formula_value(steps@, x, c) == speed_display(x, unit),
{
    let steps = match unit {
        Speed::m_s => Vec::new(),
        Speed::ft_s => vec![Step::multiply_by(328084, 100000)],
    };
    proof {
        reveal_with_fuel(value_after, 2);
    }
    steps
}

/// The formula that carries a speed from `unit` to m/s.
pub fn set_speed(unit: Speed) -> (steps: Vec<Step>)
    ensures
        forall|x: Frac, c: Conditions| #[trigger]
            formula_value(steps@, x, c) == speed_base(x, unit),
{
    let steps = match unit {
        Speed::m_s => Vec::new(),
        Speed::ft_s => vec![Step::divide_by(328084, 100000)],
    };
    proof {
        reveal_with_fuel(value_after, 2);
    }
    steps
}

/// The formula that prepares a Gibbs energy for display under the pressure
/// unit `p` and the temperature unit `t`.
pub fn get_gibbs_energy(p: Pressure, t: Temperature) -> (steps: Vec<Step>)
    ensures
        forall|x: Frac, c: Conditions| #[trigger]
            formula_value(steps@, x, c) == gibbs_display(x, p, t),
{
    let mut steps = match p {
        Pressure::kPa => Vec::new(),
        Pressure::Bar => vec![Step::divide_by(1, 100)],
        Pressure::PSI => vec![Step::divide_by(145038, 1000000)],
    };
    match t {
        Temperature::K | Temperature::C => {},
        Temperature::R | Temperature::F => {
            steps.push(Step::multiply_by(9, 1));
            steps.push(Step::divide_by(5, 1));
        },
    }
    proof {
        reveal_with_fuel(value_after, 4);
    }
    steps
}

/// The formula that carries a Joule-Thomson coefficient from K/kPa to `unit`.
pub fn get_jt_coeff(unit: JT_Coeff) -> (steps: Vec<Step>)
    ensures
        forall|x: Frac, c: Conditions| #[trigger]
            formula_value(steps@, x, c) == jt_display(x, unit),
{
    let steps = match unit {
        JT_Coeff::K_kPa => Vec::new(),
        JT_Coeff::K_bar => vec![Step::multiply_by(1, 100)],
        JT_Coeff::R_PSI => vec![Step::multiply_by(9, 1), Step::divide_by(5, 1), Step::divide_by(145038, 1000000)],
    };
    proof {
        reveal_with_fuel(value_after, 4);
    }
    steps
}

/// The formula that carries a Joule-Thomson coefficient from `unit` to K/kPa.
pub fn set_jt_coeff(unit: JT_Coeff) -> (steps: Vec<Step>)
    ensures
        forall|x: Frac, c: Conditions| #[trigger]
            formula_value(steps@, x, c) == jt_base(x, unit),
{
    let steps = match unit {
        JT_Coeff::K_kPa => Vec::new(),
        JT_Coeff::K_bar => vec![Step::divide_by(1, 100)],
        JT_Coeff::R_PSI => vec![Step::divide_by(9, 1), Step::multiply_by(5, 1), Step::multiply_by(145038, 1000000)],
    };
    proof {
        reveal_with_fuel(value_after, 4);
    }
    steps
}

/// Converting a pressure to any display unit and back gives the same number,
/// and so does converting an entered pressure to kPa and back.
pub proof fn lemma_pressure_round_trip(x: Frac, unit: Pressure)
    requires
        x.defined(),
    ensures
        pressure_display(x, unit).defined(),
        pressure_base(x, unit).defined(),
        pressure_base(pressure_display(x, unit), unit).defined(),
        pressure_base(pressure_display(x, unit), unit).same(x),
        pressure_display(pressure_base(x, unit), unit).same(x),
{
    let y = pressure_base(pressure_display(x, unit), unit);
    let z = pressure_display(pressure_base(x, unit), unit);
    match unit {
        Pressure::kPa => {},
        Pressure::Bar => {
            lemma_common_factor(x, y, 100);
            lemma_common_factor(x, z, 100);
        },
        Pressure::PSI => {
            lemma_common_factor(x, y, 145038000000);
            lemma_common_factor(x, z, 145038000000);
        },
    }
}

/// Converting a temperature to any display unit and back gives the same
/// number, and so does converting an entered temperature to K and back.
pub proof fn lemma_temperature_round_trip(x: Frac, unit: Temperature)
    requires
        x.defined(),
    ensures
        temperature_display(x, unit).defined(),
        temperature_base(x, unit).defined(),
        temperature_base(temperature_display(x, unit), unit).defined(),
        temperature_base(temperature_display(x, unit), unit).same(x),
        temperature_display(temperature_base(x, unit), unit).same(x),
{
    let y = temperature_base(temperature_display(x, unit), unit);
    let z = temperature_display(temperature_base(x, unit), unit);
    match unit {
        Temperature::K => {},
        Temperature::C => {
            lemma_common_factor(x, y, 10000);
            lemma_common_factor(x, z, 10000);
        },
        Temperature::F => {
            lemma_common_factor(x, y, 450000);
            lemma_common_factor(x, z, 450000);
        },
        Temperature::R => {
            lemma_common_factor(x, y, 45);
            lemma_common_factor(x, z, 45);
        },
    }
}

/// The difference of two displayed temperatures is the difference in K times
/// the size of a Kelvin in the display unit: the zero point of the scale
/// drops out. So a change of temperature differs between units by the degree
/// size alone.
pub proof fn lemma_temperature_difference(from: Frac, to: Frac, unit: Temperature)
    requires
        from.defined(),
        to.defined(),
    ensures
        temperature_display(to, unit).minus(temperature_display(from, unit)).defined(),
        temperature_display(to, unit).minus(temperature_display(from, unit)).same(
            to.minus(from).times(degrees_per_kelvin(unit)),
        ),
{
    let shown = temperature_display(to, unit).minus(temperature_display(from, unit));
    let scaled = to.minus(from).times(degrees_per_kelvin(unit));
    let a = to.num * from.den;
    let b = from.num * to.den;
    let d = to.den * from.den;
    assert(d != 0) by (nonlinear_arith)
        requires
            d == to.den * from.den,
            to.den != 0,
            from.den != 0,
    ;
    match unit {
        Temperature::K => {
            assert(shown.num * scaled.den == scaled.num * shown.den) by (nonlinear_arith)
                requires
                    shown.num == a - b,
                    shown.den == d,
                    scaled.num == (a - b) * 1,
                    scaled.den == d * 1,
            ;
        },
        Temperature::C => {
            assert((to.num * 100 - 27315 * to.den) * (from.den * 100) - (from.num * 100 - 27315
                * from.den) * (to.den * 100) == 10000 * (a - b)) by (nonlinear_arith)
                requires
                    a == to.num * from.den,
                    b == from.num * to.den,
            ;
            assert((to.den * 100) * (from.den * 100) == 10000 * d) by (nonlinear_arith)
                requires
                    d == to.den * from.den,
            ;
            assert(shown.num * scaled.den == scaled.num * shown.den) by (nonlinear_arith)
                requires
                    shown.num == 10000 * (a - b),
                    shown.den == 10000 * d,
                    scaled.num == (a - b) * 1,
                    scaled.den == d * 1,
            ;
        },
        Temperature::F => {
            let t = temperature_display(to, unit);
            let f = temperature_display(from, unit);
            assert(t.num == 900 * to.num - 229835 * to.den && t.den == 500 * to.den);
            assert(f.num == 900 * from.num - 229835 * from.den && f.den == 500 * from.den);
            assert((900 * to.num - 229835 * to.den) * (500 * from.den) - (900 * from.num - 229835
                * from.den) * (500 * to.den) == 450000 * (a - b)) by (nonlinear_arith)
                requires
                    a == to.num * from.den,
                    b == from.num * to.den,
            ;
            assert((500 * to.den) * (500 * from.den) == 250000 * d) by (nonlinear_arith)
                requires
                    d == to.den * from.den,
            ;
            assert(shown.num * scaled.den == scaled.num * shown.den) by (nonlinear_arith)
                requires
                    shown.num == 450000 * (a - b),
                    shown.den == 250000 * d,
                    scaled.num == (a - b) * 9,
                    scaled.den == d * 5,
            ;
        },
        Temperature::R => {
            assert((to.num * 9) * (from.den * 5) - (from.num * 9) * (to.den * 5) == 45 * (a - b))
                by (nonlinear_arith)
                requires
                    a == to.num * from.den,
                    b == from.num * to.den,
            ;
            assert((to.den * 5) * (from.den * 5) == 25 * d) by (nonlinear_arith)
                requires
                    d == to.den * from.den,
            ;
            assert(shown.num * scaled.den == scaled.num * shown.den) by (nonlinear_arith)
                requires
                    shown.num == 45 * (a - b),
                    shown.den == 25 * d,
                    scaled.num == (a - b) * 9,
                    scaled.den == d * 5,
            ;
        },
    }
}

/// Converting an energy to any display unit and back gives the same number,
/// and so does converting an entered energy to J/mol and back, for one and
/// the same molar mass other than zero.
pub proof fn lemma_energy_round_trip(x: Frac, unit: Energy, c: Conditions)
    requires
        x.defined(),
        c.molar_mass.nonzero(),
    ensures
        energy_display(x, unit, c).defined(),
        energy_base(x, unit, c).defined(),
        energy_base(energy_display(x, unit, c), unit, c).defined(),
        energy_base(energy_display(x, unit, c), unit, c).same(x),
        energy_display(energy_base(x, unit, c), unit, c).same(x),
{
    let m = c.molar_mass;
    let d = energy_display(x, unit, c);
    let b = energy_base(x, unit, c);
    let y = energy_base(d, unit, c);
    let z = energy_display(b, unit, c);
    match unit {
        Energy::J_mol => {},
        Energy::kJ_kg => {
            lemma_there_and_back(x, d, y, 1, 1, m.den, m.num);
            lemma_there_and_back(x, b, z, 1, 1, m.num, m.den);
        },
        Energy::BTU_lbm => {
            lemma_there_and_back(x, d, y, 429923, 1000000, m.den, m.num);
            lemma_there_and_back(x, b, z, 1000000, 429923, m.num, m.den);
        },
    }
}

/// Converting an entropy or heat capacity to any display unit and back gives
/// the same number, and so does converting an entered value to J/(mol-K) and
/// back, for one and the same molar mass other than zero.
pub proof fn lemma_entropy_round_trip(x: Frac, unit: Entropy, c: Conditions)
    requires
        x.defined(),
        c.molar_mass.nonzero(),
    ensures
        entropy_display(x, unit, c).defined(),
        entropy_base(x, unit, c).defined(),
        entropy_base(entropy_display(x, unit, c), unit, c).defined(),
        entropy_base(entropy_display(x, unit, c), unit, c).same(x),
        entropy_display(entropy_base(x, unit, c), unit, c).same(x),
{
    let m = c.molar_mass;
    let d = entropy_display(x, unit, c);
    let b = entropy_base(x, unit, c);
    let y = entropy_base(d, unit, c);
    let z = entropy_display(b, unit, c);
    match unit {
        Entropy::J_mol_K => {},
        Entropy::kJ_kg_K => {
            lemma_there_and_back(x, d, y, 1, 1, m.den, m.num);
            lemma_there_and_back(x, b, z, 1, 1, m.num, m.den);
        },
        Entropy::BTU_lbm_R => {
            lemma_there_and_back(x, d, y, 2149615, 9000000, m.den, m.num);
            lemma_there_and_back(x, b, z, 9000000, 2149615, m.num, m.den);
        },
    }
}

/// Converting a speed to any display unit and back gives the same number, and
/// so does converting an entered speed to m/s and back.
pub proof fn lemma_speed_round_trip(x: Frac, unit: Speed)
    requires
        x.defined(),
    ensures
        speed_display(x, unit).defined(),
        speed_base(x, unit).defined(),
        speed_base(speed_display(x, unit), unit).defined(),
        speed_base(speed_display(x, unit), unit).same(x),
        speed_display(speed_base(x, unit), unit).same(x),
{
    let y = speed_base(speed_display(x, unit), unit);
    let z = speed_display(speed_base(x, unit), unit);
    match unit {
        Speed::m_s => {},
        Speed::ft_s => {
            lemma_common_factor(x, y, 32808400000);
            lemma_common_factor(x, z, 32808400000);
        },
    }
}

/// Converting a Joule-Thomson coefficient to any display unit and back gives
/// the same number, and so does converting an entered value to K/kPa and back.
pub proof fn lemma_jt_round_trip(x: Frac, unit: JT_Coeff)
    requires
        x.defined(),
    ensures
        jt_display(x, unit).defined(),
        jt_base(x, unit).defined(),
        jt_base(jt_display(x, unit), unit).defined(),
        jt_base(jt_display(x, unit), unit).same(x),
        jt_display(jt_base(x, unit), unit).same(x),
{
    let y = jt_base(jt_display(x, unit), unit);
    let z = jt_display(jt_base(x, unit), unit);
    match unit {
        JT_Coeff::K_kPa => {},
        JT_Coeff::K_bar => {
            lemma_common_factor(x, y, 100);
            lemma_common_factor(x, z, 100);
        },
        JT_Coeff::R_PSI => {
            lemma_common_factor(x, y, 6526710000000);
            lemma_common_factor(x, z, 6526710000000);
        },
    }
}

} // verus!
