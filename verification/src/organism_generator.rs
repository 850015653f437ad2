//! Organisms: a barcode and six traits, of which only the solvent depends on
//! the planet so far.

use crate::planet_generator::{Ocean, Planet};
use crate::rng::{draw_letters, is_alphanumeric, letters, seeded, Draw};
use vstd::pervasive::unreached;
use vstd::prelude::*;
use vstd::string::StringExecFns;

verus! {

/// The length of the barcode of an organism.
pub const BARCODE_LENGTH: usize = 5;

#[derive(Clone, Copy, Debug, PartialEq, Eq, Structural)]
pub enum Size {
    SingleCell,
    MultiCellular,
}

#[derive(Clone, Copy, Debug, PartialEq, Eq, Structural)]
pub enum Organization {
    Modular,
    Unitary,
}

#[derive(Clone, Copy, Debug, PartialEq, Eq, Structural)]
pub enum Symmetry {
    Asymmetrical,
    Spherical,
    Radial,
    Bilateral,
}

/// What the chains of an organism are made of. Life on Earth is made of
/// chains of carbon and hydrogen; chains of carbon and oxygen form where
/// hydrogen is scarce, and chains of silicon and oxygen where it is too hot
/// for carbon.
#[derive(Clone, Copy, Debug, PartialEq, Eq, Structural)]
pub enum Structure {
    CarbonHydrogen,
    Oxocarbon,
    Siloxane,
}

#[derive(Clone, Copy, Debug, PartialEq, Eq, Structural)]
pub enum Solvent {
    Water,
    Ammonia,
}

#[derive(Clone, Copy, Debug, PartialEq, Eq, Structural)]
pub enum Metabolism {
    Aerobic,
    Anaerobic,
}

/// A form of life, with the barcode that tells it from the others.
#[derive(Debug, PartialEq, Eq)]
pub struct Organism {
    name: String,
    size: Size,
    organization: Organization,
    symmetry: Symmetry,
    structure: Structure,
    solvent: Solvent,
    metabolism: Metabolism,
}

/// What an organism is, with its barcode as a sequence of characters.
pub struct OrganismView {
    pub name: Seq<char>,
    pub size: Size,
    pub organization: Organization,
    pub symmetry: Symmetry,
    pub structure: Structure,
    pub solvent: Solvent,
    pub metabolism: Metabolism,
}

impl View for Organism {
    type V = OrganismView;

    closed spec fn view(&self) -> OrganismView {
        OrganismView {
            name: self.name@,
            size: self.size,
            organization: self.organization,
            symmetry: self.symmetry,
            structure: self.structure,
            solvent: self.solvent,
            metabolism: self.metabolism,
        }
    }
}

impl Size {
    /// The name of the size.
    pub open spec fn label_text(self) -> Seq<char> {
        match self {
            Size::SingleCell => "SingleCell"@,
            Size::MultiCellular => "MultiCellular"@,
        }
    }

    pub fn label(self) -> (label: &'static str)
        ensures
            label@ == self.label_text(),
    {
        match self {
            Size::SingleCell => "SingleCell",
            Size::MultiCellular => "MultiCellular",
        }
    }
}

impl Organization {
    /// The name of the organization.
    pub open spec fn label_text(self) -> Seq<char> {
        match self {
            Organization::Modular => "Modular"@,
            Organization::Unitary => "Unitary"@,
        }
    }

    pub fn label(self) -> (label: &'static str)
        ensures
            label@ == self.label_text(),
    {
        match self {
            Organization::Modular => "Modular",
            Organization::Unitary => "Unitary",
        }
    }
}

impl Symmetry {
    /// The name of the symmetry.
    pub open spec fn label_text(self) -> Seq<char> {
        match self {
            Symmetry::Asymmetrical => "Asymmetrical"@,
            Symmetry::Spherical => "Spherical"@,
            Symmetry::Radial => "Radial"@,
            Symmetry::Bilateral => "Bilateral"@,
        }
    }

    pub fn label(self) -> (label: &'static str)
        ensures
            label@ == self.label_text(),
    {
        match self {
            Symmetry::Asymmetrical => "Asymmetrical",
            Symmetry::Spherical => "Spherical",
            Symmetry::Radial => "Radial",
            Symmetry::Bilateral => "Bilateral",
        }
    }
}

impl Structure {
    /// The name of the structure.
    pub open spec fn label_text(self) -> Seq<char> {
        match self {
            Structure::CarbonHydrogen => "CarbonHydrogen"@,
            Structure::Oxocarbon => "Oxocarbon"@,
            Structure::Siloxane => "Siloxane"@,
        }
    }

    pub fn label(self) -> (label: &'static str)
        ensures
            label@ == self.label_text(),
    {
        match self {
            Structure::CarbonHydrogen => "CarbonHydrogen",
            Structure::Oxocarbon => "Oxocarbon",
            Structure::Siloxane => "Siloxane",
        }
    }
}

impl Solvent {
    /// The name of the solvent.
    pub open spec fn label_text(self) -> Seq<char> {
        match self {
            Solvent::Water => "Water"@,
            Solvent::Ammonia => "Ammonia"@,
        }
    }

    pub fn label(self) -> (label: &'static str)
        ensures
            label@ == self.label_text(),
    {
        match self {
            Solvent::Water => "Water",
            Solvent::Ammonia => "Ammonia",
        }
    }

    /// The solvent of the life that starts in `ocean`: the liquid of the
    /// ocean, where there is one.
    pub open spec fn of_ocean(ocean: Ocean) -> Option<Solvent> {
        match ocean {
            Ocean::Water => Some(Solvent::Water),
            Ocean::Ammonia => Some(Solvent::Ammonia),
            Ocean::Dry => None,
        }
    }

    pub fn from_ocean(ocean: Ocean) -> (solvent: Option<Solvent>)
        ensures
            solvent == Solvent::of_ocean(ocean),
    {
        match ocean {
            Ocean::Water => Some(Solvent::Water),
            Ocean::Ammonia => Some(Solvent::Ammonia),
            Ocean::Dry => None,
        }
    }
}

impl Metabolism {
    /// The name of the metabolism.
    pub open spec fn label_text(self) -> Seq<char> {
        match self {
            Metabolism::Aerobic => "Aerobic"@,
            Metabolism::Anaerobic => "Anaerobic"@,
        }
    }

    pub fn label(self) -> (label: &'static str)
        ensures
            label@ == self.label_text(),
    {
        match self {
            Metabolism::Aerobic => "Aerobic",
            Metabolism::Anaerobic => "Anaerobic",
        }
    }
}

/// The organism with the barcode `name` that lives in `solvent`. Its other
/// traits are the same for every organism.
pub open spec fn organism_from(name: Seq<char>, solvent: Solvent) -> OrganismView {
    OrganismView {
        name,
        size: Size::SingleCell,
        organization: Organization::Modular,
        symmetry: Symmetry::Asymmetrical,
        structure: Structure::CarbonHydrogen,
        solvent,
        metabolism: Metabolism::Anaerobic,
    }
}

/// The barcode that `seed` gives.
pub open spec fn barcode_of(seed: u64) -> Seq<char> {
    letters(seed, Seq::<Draw>::empty(), BARCODE_LENGTH as nat)
}

/// The organism that `seed` gives in an ocean of water or ammonia.
pub open spec fn organism_of(ocean: Ocean, seed: u64) -> OrganismView {
    organism_from(barcode_of(seed), Solvent::of_ocean(ocean)->0)
}

/// The description of an organism.
pub open spec fn organism_info_text(organism: OrganismView) -> Seq<char> {
    "This organism is barcoded: "@ + organism.name + ". It is "@ + organism.size.label_text()
        + " and "@ + organism.organization.label_text() + ", has "@
        + organism.symmetry.label_text() + " symmetry, is made of "@
        + organism.structure.label_text() + ", uses "@ + organism.solvent.label_text()
        + " for a solvent, and is "@ + organism.metabolism.label_text() + "."@
}

impl Organism {
    /// Generates an organism of `planet` from `seed`. The planet has an
    /// ocean: nothing lives on a dry one. Two calls for the same ocean and
    /// seed return the same organism.
    pub fn new(planet: &Planet, seed: u64) -> (organism: Organism)
        requires
            planet.ocean != Ocean::Dry,
        ensures
            organism@ == organism_of(planet.ocean, seed),
            organism@.name.len() == BARCODE_LENGTH,
            forall|i: int|
                0 <= i < organism@.name.len() ==> is_alphanumeric(#[trigger] organism@.name[i]),
    {
        let mut rng = seeded(seed);
        let solvent = match Solvent::from_ocean(planet.ocean) {
            Some(solvent) => solvent,
            None => unreached(),
        };
        Self::from_draws(draw_letters(&mut rng, BARCODE_LENGTH), solvent)
    }

    /// Builds the organism from the barcode drawn for it.
    pub fn from_draws(name: String, solvent: Solvent) -> (organism: Organism)
        ensures
            organism@ == organism_from(name@, solvent),
    {
        Organism {
            name,
            size: Size::SingleCell,
            organization: Organization::Modular,
            symmetry: Symmetry::Asymmetrical,
            structure: Structure::CarbonHydrogen,
            solvent,
            metabolism: Metabolism::Anaerobic,
        }
    }

    pub fn get_info(&self) -> (info: String)
        ensures
            info@ == organism_info_text(self@),
    {
        let mut info = String::from_str("This organism is barcoded: ");
        info.append(self.name.as_str());
        info.append(". It is ");
        info.append(self.size.label());
        info.append(" and ");
        info.append(self.organization.label());
        info.append(", has ");
        info.append(self.symmetry.label());
        info.append(" symmetry, is made of ");
        info.append(self.structure.label());
        info.append(", uses ");
        info.append(self.solvent.label());
        info.append(" for a solvent, and is ");
        info.append(self.metabolism.label());
        info.append(".");
        info
    }

    pub fn get_name(&self) -> (name: &String)
        ensures
            name@ == self@.name,
    {
        &self.name
    }

    pub fn get_size(&self) -> (size: &Size)
        ensures
            *size == self@.size,
    {
        &self.size
    }

    pub fn get_organization(&self) -> (organization: &Organization)
        ensures
            *organization == self@.organization,
    {
        &self.organization
    }

    pub fn get_symmetry(&self) -> (symmetry: &Symmetry)
        ensures
            *symmetry == self@.symmetry,
    {
        &self.symmetry
    }

    pub fn get_structure(&self) -> (structure: &Structure)
        ensures
            *structure == self@.structure,
    {
        &self.structure
    }

    pub fn get_solvent(&self) -> (solvent: &Solvent)
        ensures
            *solvent == self@.solvent,
    {
        &self.solvent
    }

    pub fn get_metabolism(&self) -> (metabolism: &Metabolism)
        ensures
            *metabolism == self@.metabolism,
    {
        &self.metabolism
    }
}

} // verus!
