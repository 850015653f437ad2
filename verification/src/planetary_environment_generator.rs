//! Planetary environments: the moons of a planet and, on a habitable
//! planet, the organisms that live there.

use crate::game_manager::{Scene, SceneName};
use crate::organism_generator::{organism_info_text, organism_of, Organism, OrganismView};
use crate::planet_generator::{Ocean, Planet, PlanetClass};
use crate::rng::{draw_u64, draw_u8, drawn, seeded, Draw};
use crate::text::{decimal, listing, push_decimal, push_entry};
use vstd::prelude::*;
use vstd::string::StringExecFns;

verus! {

pub const RICHNESS_MINIMUM: u8 = 3;

pub const RICHNESS_MAXIMUM: u8 = 12;

/// The moons of a planet and the organisms that live on it.
pub struct PlanetaryEnvironment {
    moons: usize,
    biosphere: Vec<Organism>,
}

/// What an environment holds.
pub struct EnvironmentView {
    pub moons: nat,
    pub biosphere: Seq<OrganismView>,
}

impl View for PlanetaryEnvironment {
    type V = EnvironmentView;

    closed spec fn view(&self) -> EnvironmentView {
        EnvironmentView { moons: self.moons as nat, biosphere: organism_views(self.biosphere@) }
    }
}

/// What each of `organisms` is, in their order.
pub open spec fn organism_views(organisms: Seq<Organism>) -> Seq<OrganismView> {
    Seq::new(organisms.len(), |i: int| organisms[i]@)
}

/// The fewest moons of a planet of class `class`.
pub open spec fn moons_minimum(class: PlanetClass) -> u64 {
    match class {
        PlanetClass::Rocky | PlanetClass::Dwarf => 0,
        PlanetClass::GasGiant | PlanetClass::IceGiant => 15,
    }
}

/// The most moons of a planet of class `class`.
pub open spec fn moons_maximum(class: PlanetClass) -> u64 {
    match class {
        PlanetClass::Rocky | PlanetClass::Dwarf => 5,
        PlanetClass::GasGiant => 80,
        PlanetClass::IceGiant => 30,
    }
}

/// The seed of the environment of `planet`.
pub open spec fn environment_seed(planet: Planet) -> u64 {
    planet.temperature as u64
}

/// The draw of the moons of a planet of class `class`.
pub open spec fn moons_draw(class: PlanetClass) -> Draw {
    Draw::Number { bits: 64, low: moons_minimum(class) as int, high: moons_maximum(class) as int }
}

/// How many moons `planet` has, drawn within the bounds of its class.
pub open spec fn moons_of(planet: Planet) -> int {
    drawn(
        environment_seed(planet),
        Seq::<Draw>::empty(),
        64,
        moons_minimum(planet.class) as int,
        moons_maximum(planet.class) as int,
    )
}

/// How many organisms `planet` has if it is habitable: between 3 and 12.
pub open spec fn richness_of(planet: Planet) -> int {
    drawn(
        environment_seed(planet),
        Seq::<Draw>::empty().push(moons_draw(planet.class)),
        8,
        RICHNESS_MINIMUM as int,
        RICHNESS_MAXIMUM as int,
    )
}

/// The seed of the organism in place `slot` of the biosphere of `planet`,
/// the first in place 0.
pub open spec fn organism_seed(planet: Planet, slot: int) -> u64 {
    (planet.temperature + slot + 1) as u64
}

/// The first `count` organisms of `planet` if it is habitable, and none if
/// it is not.
pub open spec fn organisms_of(planet: Planet, count: nat) -> Seq<OrganismView> {
    if planet.habitable {
        Seq::new(count, |i: int| organism_of(planet.ocean, organism_seed(planet, i)))
    } else {
        Seq::empty()
    }
}

/// The environment of `planet` with `moons` moons and, if the planet is
/// habitable, `richness` organisms.
pub open spec fn environment_from(planet: Planet, moons: nat, richness: nat) -> EnvironmentView {
    EnvironmentView { moons, biosphere: organisms_of(planet, richness) }
}

/// The environment of `planet`.
pub open spec fn environment_of(planet: Planet) -> EnvironmentView {
    environment_from(planet, moons_of(planet) as nat, richness_of(planet) as nat)
}

/// The names of the sizes of `organisms`, in their order.
pub open spec fn organism_labels(organisms: Seq<OrganismView>) -> Seq<Seq<char>> {
    Seq::new(organisms.len(), |i: int| organisms[i].size.label_text())
}

/// The bounds of the number of moons of a planet of class `class`.
pub fn moons_range(class: PlanetClass) -> (range: (u64, u64))
    ensures
        range.0 == moons_minimum(class),
        range.1 == moons_maximum(class),
        range.0 <= range.1 <= 80,
{
    match class {
        PlanetClass::Rocky => (0, 5),
        PlanetClass::GasGiant => (15, 80),
        PlanetClass::IceGiant => (15, 30),
        PlanetClass::Dwarf => (0, 5),
    }
}

impl PlanetaryEnvironment {
    /// Generates the environment of `planet`, which has an ocean if it is
    /// habitable. Two calls for the same planet return the same environment.
    pub fn new(planet: &Planet) -> (environment: PlanetaryEnvironment)
        requires
            planet.habitable ==> planet.ocean != Ocean::Dry,
        ensures
            environment@ == environment_of(*planet),
            moons_minimum(planet.class) <= environment@.moons <= moons_maximum(planet.class),
            !planet.habitable ==> environment@.biosphere.len() == 0,
            planet.habitable ==> RICHNESS_MINIMUM <= environment@.biosphere.len()
                <= RICHNESS_MAXIMUM,
    {
        let mut rng = seeded(planet.temperature as u64);
        let range = moons_range(planet.class);
        let number_of_moons = draw_u64(&mut rng, range.0, range.1) as usize;
        let richness = draw_u8(&mut rng, RICHNESS_MINIMUM, RICHNESS_MAXIMUM);
        Self::from_draws(planet, number_of_moons, richness)
    }

    /// Builds the environment of `planet` from the numbers drawn for it.
    pub fn from_draws(planet: &Planet, moons: usize, richness: u8) -> (environment:
        PlanetaryEnvironment)
        requires
            planet.habitable ==> planet.ocean != Ocean::Dry,
        ensures
            environment@ == environment_from(*planet, moons as nat, richness as nat),
    {
        PlanetaryEnvironment { moons, biosphere: Self::generate_organisms(planet, richness) }
    }

    pub fn get_moons(&self) -> (moons: usize)
        ensures
            moons == self@.moons,
    {
        self.moons
    }

    pub fn get_biosphere(&self) -> (biosphere: &Vec<Organism>)
        ensures
            organism_views(biosphere@) == self@.biosphere,
    {
        &self.biosphere
    }

    /// Generates `richness` organisms if `planet` is habitable, and none if
    /// it is not.
    pub fn generate_organisms(planet: &Planet, richness: u8) -> (organisms: Vec<Organism>)
        requires
            planet.habitable ==> planet.ocean != Ocean::Dry,
        ensures
            organism_views(organisms@) == organisms_of(*planet, richness as nat),
    {
        let mut organisms: Vec<Organism> = Vec::new();
        if planet.habitable {
            let mut i: u8 = 0;
            while i < richness
                invariant
                    i <= richness,
                    planet.habitable,
                    planet.ocean != Ocean::Dry,
                    organisms@.len() == i,
                    organism_views(organisms@) == organisms_of(*planet, i as nat),
                decreases richness - i,
            {
                let ghost before = organisms@;
                i += 1;
                organisms.push(Organism::new(planet, planet.temperature as u64 + i as u64));
                assert forall|k: int| 0 <= k < i implies organism_views(organisms@)[k]
                    == organisms_of(*planet, i as nat)[k] by {
                    if k < i - 1 {
                        assert(organisms@[k] == before[k]);
                        assert(organism_views(before)[k] == organisms_of(*planet, (i - 1) as nat)[k]);
                    }
                }
                assert(organism_views(organisms@) =~= organisms_of(*planet, i as nat));
            }
        }
        assert(organism_views(organisms@) =~= organisms_of(*planet, richness as nat));
        organisms
    }
}

impl Scene for PlanetaryEnvironment {
    open spec fn scene_name(&self) -> SceneName {
        SceneName::PlanetaryEnvironment
    }

    open spec fn unit_count(&self) -> nat {
        self@.biosphere.len()
    }

    /// The number of moons, and the size of each organism with its place in
    /// the biosphere.
    open spec fn system_info(&self) -> Seq<char> {
        "There are "@ + decimal(self@.moons) + " moons and "@ + listing(
            organism_labels(self@.biosphere),
            self@.biosphere.len(),
        )
    }

    open spec fn unit_info(&self, index: int) -> Seq<char> {
        organism_info_text(self@.biosphere[index])
    }

    fn get_scene_name(&self) -> (name: SceneName) {
        SceneName::PlanetaryEnvironment
    }

    fn get_system_info(&self) -> (info: String) {
        let mut info = String::from_str("There are ");
        push_decimal(&mut info, self.moons as u64);
        info.append(" moons and ");
        let ghost head = info@;
        let mut i: usize = 0;
        while i < self.biosphere.len()
            invariant
                i <= self.biosphere@.len(),
                info@ == head + listing(organism_labels(self@.biosphere), i as nat),
            decreases self.biosphere@.len() - i,
        {
            push_entry(&mut info, self.biosphere[i].get_size().label(), i);
            assert(info@ =~= head + listing(organism_labels(self@.biosphere), (i + 1) as nat));
            i += 1;
        }
        info
    }

    fn get_unit_info(&self, index: usize) -> (info: String) {
        if index < self.biosphere.len() {
            self.biosphere[index].get_info()
        } else {
            String::from_str("Invalid coordinates.")
        }
    }
}

/// No organism lives on a planet that is not habitable.
pub proof fn barren_planet_has_no_life(planet: Planet)
    requires
        !planet.habitable,
    ensures
        environment_of(planet).biosphere.len() == 0,
{
}

} // verus!
