//! The gases that can be selected and their compositions.

use vstd::prelude::*;

verus! {

/// The preset gases.
#[derive(Clone, Copy, Debug, PartialEq, Eq, Structural)]
pub enum Gas {
    Air,
    Argon,
    CO,
    CO2,
    Helium,
    Hydrogen,
    Nitrogen,
    Oxygen,
}

/// A gas composition: the mole fraction of each of the 21 pure components, in
/// percent. The fractions need not add up to 100.
#[derive(Clone, Copy, Debug, PartialEq, Eq, Structural)]
pub struct Composition {
    pub methane: u32,
    pub nitrogen: u32,
    pub carbon_dioxide: u32,
    pub ethane: u32,
    pub propane: u32,
    pub isobutane: u32,
    pub n_butane: u32,
    pub isopentane: u32,
    pub n_pentane: u32,
    pub hexane: u32,
    pub heptane: u32,
    pub octane: u32,
    pub nonane: u32,
    pub decane: u32,
    pub hydrogen: u32,
    pub oxygen: u32,
    pub carbon_monoxide: u32,
    pub water: u32,
    pub hydrogen_sulfide: u32,
    pub helium: u32,
    pub argon: u32,
}

impl Composition {
    /// The composition without any component.
    pub open spec fn empty() -> Composition {
        Composition {
            methane: 0,
            nitrogen: 0,
            carbon_dioxide: 0,
            ethane: 0,
            propane: 0,
            isobutane: 0,
            n_butane: 0,
            isopentane: 0,
            n_pentane: 0,
            hexane: 0,
            heptane: 0,
            octane: 0,
            nonane: 0,
            decane: 0,
            hydrogen: 0,
            oxygen: 0,
            carbon_monoxide: 0,
            water: 0,
            hydrogen_sulfide: 0,
            helium: 0,
            argon: 0,
        }
    }

    /// The sum of all mole fractions, in percent.
    pub open spec fn total(self) -> int {
        self.methane + self.nitrogen + self.carbon_dioxide + self.ethane + self.propane
            + self.isobutane + self.n_butane + self.isopentane + self.n_pentane + self.hexane
            + self.heptane + self.octane + self.nonane + self.decane + self.hydrogen + self.oxygen
            + self.carbon_monoxide + self.water + self.hydrogen_sulfide + self.helium + self.argon
    }
}

impl Default for Composition {
    fn default() -> (comp: Composition)
        ensures
            comp == Composition::empty(),
    {
        Composition {
            methane: 0,
            nitrogen: 0,
            carbon_dioxide: 0,
            ethane: 0,
            propane: 0,
            isobutane: 0,
            n_butane: 0,
            isopentane: 0,
            n_pentane: 0,
            hexane: 0,
            heptane: 0,
            octane: 0,
            nonane: 0,
            decane: 0,
            hydrogen: 0,
            oxygen: 0,
            carbon_monoxide: 0,
            water: 0,
            hydrogen_sulfide: 0,
            helium: 0,
            argon: 0,
        }
    }
}

/// The composition of a preset gas: air is 78 % nitrogen, 21 % oxygen and 1 %
/// argon, every other preset is one pure component.
pub open spec fn preset(gas: Gas) -> Composition {
    match gas {
        Gas::Air => Composition { nitrogen: 78, oxygen: 21, argon: 1, ..Composition::empty() },
        Gas::Argon => Composition { argon: 100, ..Composition::empty() },
        Gas::CO => Composition { carbon_monoxide: 100, ..Composition::empty() },
        Gas::CO2 => Composition { carbon_dioxide: 100, ..Composition::empty() },
        Gas::Helium => Composition { helium: 100, ..Composition::empty() },
        Gas::Hydrogen => Composition { hydrogen: 100, ..Composition::empty() },
        Gas::Nitrogen => Composition { nitrogen: 100, ..Composition::empty() },
        Gas::Oxygen => Composition { oxygen: 100, ..Composition::empty() },
    }
}

/// Returns the composition of a preset gas.
pub fn get_gas_comp(gas_comp: Gas) -> (comp: Composition)
    ensures
        comp == preset(gas_comp),
        comp.total() == 100,
{
    let none = Composition::default();
    match gas_comp {
        Gas::Air => Composition { nitrogen: 78, oxygen: 21, argon: 1, ..none },
        Gas::Argon => Composition { argon: 100, ..none },
        Gas::CO => Composition { carbon_monoxide: 100, ..none },
        Gas::CO2 => Composition { carbon_dioxide: 100, ..none },
        Gas::Helium => Composition { helium: 100, ..none },
        Gas::Hydrogen => Composition { hydrogen: 100, ..none },
        Gas::Nitrogen => Composition { nitrogen: 100, ..none },
        Gas::Oxygen => Composition { oxygen: 100, ..none },
    }
}

} // verus!
