use gas_process::convert::{
    get_density, get_energy, get_entropy, get_gibbs_energy, get_jt_coeff, get_pressure,
    get_speed, get_temperature, set_energy, set_entropy, set_jt_coeff, set_pressure, set_speed,
    set_temperature,
};
use gas_process::exact::Ratio;
use gas_process::formula::{Factor, Step};
use gas_process::units::{Density, Energy, Entropy, JT_Coeff, Pressure, Speed, Temperature};

fn number(r: Ratio) -> f64 {
    r.num as f64 / r.den as f64
}

fn factor(f: Factor, molar_mass: f64, reference_density: f64) -> f64 {
    match f {
        Factor::Constant(r) => number(r),
        Factor::MolarMass => molar_mass,
        Factor::ReferenceDensity => reference_density,
    }
}

fn evaluate(steps: &[Step], x: f64, molar_mass: f64, reference_density: f64) -> f64 {
    let mut value = x;
    for step in steps {
        value = match *step {
            Step::Multiply(f) => value * factor(f, molar_mass, reference_density),
            Step::Divide(f) => value / factor(f, molar_mass, reference_density),
            Step::Add(r) => value + number(r),
            Step::Subtract(r) => value - number(r),
        };
    }
    value
}

fn plain(steps: &[Step], x: f64) -> f64 {
    evaluate(steps, x, 1.0, 1.0)
}

fn close(a: f64, b: f64) -> bool {
    (a - b).abs() <= 1e-9 * (1.0 + a.abs().max(b.abs()))
}

#[test]
fn base_unit_formulas_are_empty() {
    assert!(get_pressure(Pressure::kPa).is_empty());
    assert!(set_pressure(Pressure::kPa).is_empty());
    assert!(get_temperature(Temperature::K).is_empty());
    assert!(set_temperature(Temperature::K).is_empty());
    assert!(get_density(Density::mol_l).is_empty());
    assert!(get_energy(Energy::J_mol).is_empty());
    assert!(set_energy(Energy::J_mol).is_empty());
    assert!(get_entropy(Entropy::J_mol_K).is_empty());
    assert!(set_entropy(Entropy::J_mol_K).is_empty());
    assert!(get_speed(Speed::m_s).is_empty());
    assert!(set_speed(Speed::m_s).is_empty());
    assert!(get_jt_coeff(JT_Coeff::K_kPa).is_empty());
    assert!(set_jt_coeff(JT_Coeff::K_kPa).is_empty());
    assert!(get_gibbs_energy(Pressure::kPa, Temperature::K).is_empty());
    assert!(get_gibbs_energy(Pressure::kPa, Temperature::C).is_empty());
}

#[test]
fn pressure_steps_are_the_table_constants() {
    assert_eq!(
        get_pressure(Pressure::PSI),
        vec![Step::Multiply(Factor::Constant(Ratio { num: 145038, den: 1000000 }))]
    );
    assert_eq!(
        set_pressure(Pressure::Bar),
        vec![Step::Divide(Factor::Constant(Ratio { num: 1, den: 100 }))]
    );
}

#[test]
fn pressure_display_values() {
    assert_eq!(plain(&get_pressure(Pressure::kPa), 250.0), 250.0);
    assert_eq!(plain(&get_pressure(Pressure::Bar), 250.0), 250.0 * 0.01);
    assert_eq!(plain(&get_pressure(Pressure::PSI), 100.0), 100.0 * 0.145038);
    assert_eq!(plain(&set_pressure(Pressure::PSI), 14.5038), 14.5038 / 0.145038);
}

#[test]
fn temperature_display_values() {
    assert_eq!(plain(&get_temperature(Temperature::C), 300.0), 300.0 - 273.15);
    assert_eq!(
        plain(&get_temperature(Temperature::F), 300.0),
        (300.0 - 273.15) * 9.0 / 5.0 + 32.0
    );
    assert_eq!(plain(&get_temperature(Temperature::R), 300.0), 300.0 * 9.0 / 5.0);
    assert!(close(plain(&get_temperature(Temperature::F), 273.15), 32.0));
    assert!(close(plain(&get_temperature(Temperature::R), 100.0), 180.0));
}

#[test]
fn temperature_base_values() {
    assert_eq!(plain(&set_temperature(Temperature::C), 25.0), 25.0 + 273.15);
    assert_eq!(
        plain(&set_temperature(Temperature::F), 212.0),
        (212.0 - 32.0) * 5.0 / 9.0 + 273.15
    );
    assert!(close(plain(&set_temperature(Temperature::F), 212.0), 373.15));
    assert!(close(plain(&set_temperature(Temperature::R), 180.0), 100.0));
}

#[test]
fn startup_scenario_converts_to_base_units() {
    let p = plain(&set_pressure(Pressure::PSI), 14.696);
    let t = plain(&set_temperature(Temperature::F), 60.0);
    assert!((p - 101.325).abs() < 0.01);
    assert!((t - 288.71).abs() < 0.01);
}

#[test]
fn density_display_values() {
    let mm = 28.0;
    assert_eq!(evaluate(&get_density(Density::kg_m3), 2.0, mm, 1.0), 2.0 * mm);
    assert_eq!(
        evaluate(&get_density(Density::lbm_ft3), 2.0, mm, 1.0),
        2.0 * mm * 2.20462 / 35.3147
    );
}

#[test]
fn energy_values() {
    let mm = 16.0;
    assert_eq!(evaluate(&get_energy(Energy::kJ_kg), 800.0, mm, 1.0), 800.0 / mm);
    assert_eq!(evaluate(&get_energy(Energy::BTU_lbm), 800.0, mm, 1.0), 800.0 / mm * 0.429923);
    assert_eq!(evaluate(&set_energy(Energy::kJ_kg), 50.0, mm, 1.0), 50.0 * mm);
    assert_eq!(evaluate(&set_energy(Energy::BTU_lbm), 50.0, mm, 1.0), 50.0 * mm / 0.429923);
}

#[test]
fn entropy_values() {
    let mm = 16.0;
    assert_eq!(evaluate(&get_entropy(Entropy::kJ_kg_K), 80.0, mm, 1.0), 80.0 / mm);
    assert_eq!(
        evaluate(&get_entropy(Entropy::BTU_lbm_R), 80.0, mm, 1.0),
        80.0 / mm * 0.429923 * 5.0 / 9.0
    );
    assert_eq!(evaluate(&set_entropy(Entropy::kJ_kg_K), 5.0, mm, 1.0), 5.0 * mm);
    assert_eq!(
        evaluate(&set_entropy(Entropy::BTU_lbm_R), 5.0, mm, 1.0),
        5.0 * mm / 0.429923 / 5.0 * 9.0
    );
}

#[test]
fn speed_values() {
    assert_eq!(plain(&get_speed(Speed::ft_s), 340.0), 340.0 * 3.28084);
    assert_eq!(plain(&set_speed(Speed::ft_s), 1000.0), 1000.0 / 3.28084);
}

#[test]
fn joule_thomson_values() {
    assert_eq!(plain(&get_jt_coeff(JT_Coeff::K_bar), 0.5), 0.5 * 0.01);
    assert_eq!(plain(&get_jt_coeff(JT_Coeff::R_PSI), 0.5), 0.5 * 9.0 / 5.0 / 0.145038);
    assert_eq!(plain(&set_jt_coeff(JT_Coeff::K_bar), 0.5), 0.5 / 0.01);
    assert_eq!(plain(&set_jt_coeff(JT_Coeff::R_PSI), 0.5), 0.5 / 9.0 * 5.0 * 0.145038);
}

#[test]
fn gibbs_energy_values() {
    let g = -1234.5;
    assert_eq!(plain(&get_gibbs_energy(Pressure::Bar, Temperature::K), g), g / 0.01);
    assert_eq!(plain(&get_gibbs_energy(Pressure::PSI, Temperature::C), g), g / 0.145038);
    assert_eq!(plain(&get_gibbs_energy(Pressure::kPa, Temperature::R), g), g * 9.0 / 5.0);
    assert_eq!(
        plain(&get_gibbs_energy(Pressure::PSI, Temperature::F), g),
        g / 0.145038 * 9.0 / 5.0
    );
}

#[test]
fn round_trip_pressure_all_units() {
    for unit in [Pressure::kPa, Pressure::Bar, Pressure::PSI] {
        for x in [0.0, 1.0, 101.325, 5000.0] {
            let back = plain(&set_pressure(unit), plain(&get_pressure(unit), x));
            assert!(close(back, x));
        }
    }
}

#[test]
fn round_trip_temperature_all_units() {
    for unit in [Temperature::K, Temperature::C, Temperature::F, Temperature::R] {
        for x in [0.0, 273.15, 288.706, 1000.0] {
            let back = plain(&set_temperature(unit), plain(&get_temperature(unit), x));
            assert!(close(back, x));
        }
    }
}

#[test]
fn round_trip_energy_and_entropy_all_units() {
    let mm = 28.9;
    for unit in [Energy::J_mol, Energy::kJ_kg, Energy::BTU_lbm] {
        for x in [-8000.0, 0.0, 12.5] {
            let shown = evaluate(&get_energy(unit), x, mm, 1.0);
            assert!(close(evaluate(&set_energy(unit), shown, mm, 1.0), x));
        }
    }
    for unit in [Entropy::J_mol_K, Entropy::kJ_kg_K, Entropy::BTU_lbm_R] {
        for x in [-80.0, 0.0, 29.1] {
            let shown = evaluate(&get_entropy(unit), x, mm, 1.0);
            assert!(close(evaluate(&set_entropy(unit), shown, mm, 1.0), x));
        }
    }
}

#[test]
fn round_trip_speed_and_joule_thomson_all_units() {
    for unit in [Speed::m_s, Speed::ft_s] {
        let back = plain(&set_speed(unit), plain(&get_speed(unit), 343.2));
        assert!(close(back, 343.2));
    }
    for unit in [JT_Coeff::K_kPa, JT_Coeff::K_bar, JT_Coeff::R_PSI] {
        let back = plain(&set_jt_coeff(unit), plain(&get_jt_coeff(unit), 0.0025));
        assert!(close(back, 0.0025));
    }
}

#[test]
fn step_constructors_hold_the_constant() {
    assert_eq!(
        Step::multiply_by(9, 5),
        Step::Multiply(Factor::Constant(Ratio { num: 9, den: 5 }))
    );
    assert_eq!(Step::divide_by(9, 5), Step::Divide(Factor::Constant(Ratio { num: 9, den: 5 })));
}
