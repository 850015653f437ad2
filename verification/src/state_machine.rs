//! The state machine of the game: the level that the player looks at, and
//! what it takes to build the levels around it again.
//!
//! A scene keeps the size of the galaxy, the star that was chosen in the
//! galaxy and the planet that was chosen in the star's system. Going inward
//! takes the chosen unit out of the level and generates the next level from
//! it; going outward generates the level above again.

use crate::galaxy_generator::Galaxy;
use crate::game_manager::Scene as _;
use crate::game_manager::{can_be_explored, chosen, SceneName};
use crate::planet_generator::{planet_of, Planet};
use crate::planetary_environment_generator::{environment_of, PlanetaryEnvironment};
use crate::planetary_system_generator::{system_of, PlanetarySystem};
use crate::star_generator::Star;
use crate::text::invalid_coordinates;
use vstd::prelude::*;

verus! {

/// A level of the game with what the game remembers beside it.
pub struct Scene<S> {
    state: S,
    galaxy_size: u64,
    star_seed: Star,
    planet_seed: Planet,
}

/// The scene that the player looks at, by its level.
pub enum SceneId {
    Galaxy(Scene<Galaxy>),
    Star(Scene<PlanetarySystem>),
    Planet(Scene<PlanetaryEnvironment>),
}

/// A game, which is at one scene at a time.
pub struct Game {
    pub scene_id: SceneId,
}

impl<S> Scene<S> {
    /// The level that the scene shows.
    pub closed spec fn state(&self) -> S {
        self.state
    }

    /// The number of stars of every galaxy of this game.
    pub closed spec fn galaxy_size(&self) -> u64 {
        self.galaxy_size
    }

    /// The star that was chosen last.
    pub closed spec fn star_seed(&self) -> Star {
        self.star_seed
    }

    /// The planet that was chosen last.
    pub closed spec fn planet_seed(&self) -> Planet {
        self.planet_seed
    }

    /// Whether `next` keeps what this scene remembers.
    pub open spec fn has_memory_of<T>(&self, next: Scene<T>) -> bool {
        &&& next.galaxy_size() == self.galaxy_size()
        &&& next.star_seed() == self.star_seed()
        &&& next.planet_seed() == self.planet_seed()
    }

    pub fn get_state(&self) -> (state: &S)
        ensures
            *state == self.state(),
    {
        &self.state
    }

    pub fn get_galaxy_size(&self) -> (galaxy_size: u64)
        ensures
            galaxy_size == self.galaxy_size(),
    {
        self.galaxy_size
    }

    pub fn get_star_seed(&self) -> (star: Star)
        ensures
            star == self.star_seed(),
    {
        self.star_seed
    }

    pub fn get_planet_seed(&self) -> (planet: Planet)
        ensures
            planet == self.planet_seed(),
    {
        self.planet_seed
    }
}

impl Scene<Galaxy> {
    /// The galaxy has as many stars as the game began with, and every star
    /// in it and in memory is one that its class admits.
    pub open spec fn wf(&self) -> bool {
        &&& self.state()@.len() == self.galaxy_size()
        &&& self.state().wf()
        &&& self.star_seed().wf()
        &&& can_be_explored(self.planet_seed())
    }

    /// Whether `next` is what going inward at `index` leads to: the system
    /// of the star at `index`, which is now the star in memory.
    pub open spec fn descends_to(&self, index: usize, next: Scene<PlanetarySystem>) -> bool {
        &&& next.galaxy_size() == self.galaxy_size()
        &&& next.star_seed() == chosen(self.state()@, index, self.star_seed())
        &&& next.planet_seed() == self.planet_seed()
        &&& next.state()@ == system_of(next.star_seed().age, next.star_seed().temperature)
    }

    /// A galaxy of `number_of_stars` stars, with a star and its first planet
    /// in memory.
    pub fn new(number_of_stars: u64) -> (scene: Scene<Galaxy>)
        ensures
            scene.wf(),
            scene.galaxy_size() == number_of_stars,
            scene.planet_seed() == planet_of(
                scene.star_seed().age,
                scene.star_seed().temperature,
                1,
            ),
    {
        let star = Star::new();
        let planet = Planet::new(&star, 1);
        Scene {
            state: Galaxy::new(number_of_stars),
            galaxy_size: number_of_stars,
            star_seed: star,
            planet_seed: planet,
        }
    }

    /// Goes inward: takes the star at `index` out of the galaxy and
    /// generates its planetary system.
    pub fn descend(self, index: usize) -> (next: Scene<PlanetarySystem>)
        requires
            self.wf(),
        ensures
            self.descends_to(index, next),
            next.wf(),
    {
        let mut scene = self;
        let star = match scene.state.get_star(index) {
            Some(star) => star,
            None => scene.star_seed,
        };
        Scene {
            state: PlanetarySystem::new(&star),
            galaxy_size: scene.galaxy_size,
            star_seed: star,
            planet_seed: scene.planet_seed,
        }
    }
}

impl Scene<PlanetarySystem> {
    /// The system is the one of the star in memory.
    pub open spec fn wf(&self) -> bool {
        &&& self.state()@ == system_of(self.star_seed().age, self.star_seed().temperature)
        &&& self.state().wf()
        &&& self.star_seed().wf()
        &&& can_be_explored(self.planet_seed())
    }

    /// Whether `next` is what going inward at `index` leads to: the
    /// environment of the planet at `index`, which is now the planet in
    /// memory.
    pub open spec fn descends_to(&self, index: usize, next: Scene<PlanetaryEnvironment>) -> bool {
        &&& next.galaxy_size() == self.galaxy_size()
        &&& next.star_seed() == self.star_seed()
        &&& next.planet_seed() == chosen(self.state()@, index, self.planet_seed())
        &&& next.state()@ == environment_of(next.planet_seed())
    }

    /// Whether `next` is what going outward leads to: a galaxy of the size
    /// in memory.
    pub open spec fn ascends_to(&self, next: Scene<Galaxy>) -> bool {
        &&& self.has_memory_of(next)
        &&& next.state()@.len() == self.galaxy_size()
    }

    /// Goes inward: takes the planet at `index` out of the system and
    /// generates its environment.
    pub fn descend(self, index: usize) -> (next: Scene<PlanetaryEnvironment>)
        requires
            self.wf(),
        ensures
            self.descends_to(index, next),
            next.wf(),
    {
        let mut scene = self;
        let planet = match scene.state.get_planet(index) {
            Some(planet) => planet,
            None => scene.planet_seed,
        };
        Scene {
            state: PlanetaryEnvironment::new(&planet),
            galaxy_size: scene.galaxy_size,
            star_seed: scene.star_seed,
            planet_seed: planet,
        }
    }

    /// Goes outward: generates a galaxy of the size in memory. Its stars are
    /// new ones, not those of the galaxy that the player came from.
    pub fn ascend(self) -> (next: Scene<Galaxy>)
        requires
            self.wf(),
        ensures
            self.ascends_to(next),
            next.wf(),
    {
        Scene {
            state: Galaxy::new(self.galaxy_size),
            galaxy_size: self.galaxy_size,
            star_seed: self.star_seed,
            planet_seed: self.planet_seed,
        }
    }
}

impl Scene<PlanetaryEnvironment> {
    /// The environment is the one of the planet in memory.
    pub open spec fn wf(&self) -> bool {
        &&& self.state()@ == environment_of(self.planet_seed())
        &&& self.star_seed().wf()
        &&& can_be_explored(self.planet_seed())
    }

    /// Whether `next` is what going outward leads to: the system of the star
    /// in memory, as it was before a planet was taken out of it.
    pub open spec fn ascends_to(&self, next: Scene<PlanetarySystem>) -> bool {
        &&& self.has_memory_of(next)
        &&& next.state()@ == system_of(self.star_seed().age, self.star_seed().temperature)
    }

    /// Whether `next` shows the same environment with the same memory.
    pub open spec fn stays_at(&self, next: Scene<PlanetaryEnvironment>) -> bool {
        &&& self.has_memory_of(next)
        &&& next.state()@ == self.state()@
    }

    /// Goes no further inward: generates the environment of the planet in
    /// memory again.
    pub fn descend(self) -> (next: Scene<PlanetaryEnvironment>)
        requires
            self.wf(),
        ensures
            self.stays_at(next),
            next.wf(),
    {
        Scene {
            state: PlanetaryEnvironment::new(&self.planet_seed),
            galaxy_size: self.galaxy_size,
            star_seed: self.star_seed,
            planet_seed: self.planet_seed,
        }
    }

    /// Goes outward: generates the system of the star in memory again.
    pub fn ascend(self) -> (next: Scene<PlanetarySystem>)
        requires
            self.wf(),
        ensures
            self.ascends_to(next),
            next.wf(),
    {
        Scene {
            state: PlanetarySystem::new(&self.star_seed),
            galaxy_size: self.galaxy_size,
            star_seed: self.star_seed,
            planet_seed: self.planet_seed,
        }
    }
}

/// Going inward from a system and outward again shows the system as it was,
/// whichever planet was chosen.
pub proof fn system_is_shown_again(
    system: Scene<PlanetarySystem>,
    index: usize,
    environment: Scene<PlanetaryEnvironment>,
    back: Scene<PlanetarySystem>,
)
    requires
        system.wf(),
        system.descends_to(index, environment),
        environment.ascends_to(back),
    ensures
        back.state()@ == system.state()@,
        back.star_seed() == system.star_seed(),
        back.galaxy_size() == system.galaxy_size(),
{
}

/// Going inward from an environment shows the same environment, and keeps
/// what the scene remembers.
pub proof fn environment_is_shown_again(
    environment: Scene<PlanetaryEnvironment>,
    again: Scene<PlanetaryEnvironment>,
)
    requires
        environment.wf(),
        environment.stays_at(again),
    ensures
        again.state()@ == environment_of(environment.planet_seed()),
        again.wf(),
{
}

impl SceneId {
    /// Whether the scene is as its level requires.
    pub open spec fn wf(&self) -> bool {
        match self {
            SceneId::Galaxy(scene) => scene.wf(),
            SceneId::Star(scene) => scene.wf(),
            SceneId::Planet(scene) => scene.wf(),
        }
    }

    /// The level of the scene.
    pub open spec fn scene_name(&self) -> SceneName {
        match self {
            SceneId::Galaxy(_) => SceneName::Galaxy,
            SceneId::Star(_) => SceneName::PlanetarySystem,
            SceneId::Planet(_) => SceneName::PlanetaryEnvironment,
        }
    }

    /// How many units the level holds.
    pub open spec fn unit_count(&self) -> nat {
        match self {
            SceneId::Galaxy(scene) => scene.state().unit_count(),
            SceneId::Star(scene) => scene.state().unit_count(),
            SceneId::Planet(scene) => scene.state().unit_count(),
        }
    }

    /// The summary of the level.
    pub open spec fn system_info(&self) -> Seq<char> {
        match self {
            SceneId::Galaxy(scene) => scene.state().system_info(),
            SceneId::Star(scene) => scene.state().system_info(),
            SceneId::Planet(scene) => scene.state().system_info(),
        }
    }

    /// The description of the unit at `index` of the level.
    pub open spec fn unit_info(&self, index: int) -> Seq<char> {
        match self {
            SceneId::Galaxy(scene) => scene.state().unit_info(index),
            SceneId::Star(scene) => scene.state().unit_info(index),
            SceneId::Planet(scene) => scene.state().unit_info(index),
        }
    }

    /// The star that was chosen last.
    pub open spec fn star_seed(&self) -> Star {
        match self {
            SceneId::Galaxy(scene) => scene.star_seed(),
            SceneId::Star(scene) => scene.star_seed(),
            SceneId::Planet(scene) => scene.star_seed(),
        }
    }

    /// The planet that was chosen last.
    pub open spec fn planet_seed(&self) -> Planet {
        match self {
            SceneId::Galaxy(scene) => scene.planet_seed(),
            SceneId::Star(scene) => scene.planet_seed(),
            SceneId::Planet(scene) => scene.planet_seed(),
        }
    }

    /// The number of stars of every galaxy of this game.
    pub open spec fn galaxy_size(&self) -> u64 {
        match self {
            SceneId::Galaxy(scene) => scene.galaxy_size(),
            SceneId::Star(scene) => scene.galaxy_size(),
            SceneId::Planet(scene) => scene.galaxy_size(),
        }
    }

    pub fn get_scene_name(&self) -> (name: SceneName)
        ensures
            name == self.scene_name(),
    {
        match self {
            SceneId::Galaxy(scene) => scene.state.get_scene_name(),
            SceneId::Star(scene) => scene.state.get_scene_name(),
            SceneId::Planet(scene) => scene.state.get_scene_name(),
        }
    }

    pub fn get_unit_count(&self) -> (count: usize)
        ensures
            count == self.unit_count(),
    {
        match self {
            SceneId::Galaxy(scene) => scene.state.get_stars().len(),
            SceneId::Star(scene) => scene.state.get_planets().len(),
            SceneId::Planet(scene) => scene.state.get_biosphere().len(),
        }
    }

    /// Summarizes the level. The scene stays as it is.
    pub fn get_system_info(&self) -> (info: String)
        ensures
            info@ == self.system_info(),
    {
        match self {
            SceneId::Galaxy(scene) => scene.state.get_system_info(),
            SceneId::Star(scene) => scene.state.get_system_info(),
            SceneId::Planet(scene) => scene.state.get_system_info(),
        }
    }

    /// Describes the unit at `index` of the level, or says that the level
    /// holds none there. The scene stays as it is.
    pub fn get_unit_info(&self, index: usize) -> (info: String)
        ensures
            info@ == if index < self.unit_count() {
                self.unit_info(index as int)
            } else {
                invalid_coordinates()
            },
    {
        match self {
            SceneId::Galaxy(scene) => scene.state.get_unit_info(index),
            SceneId::Star(scene) => scene.state.get_unit_info(index),
            SceneId::Planet(scene) => scene.state.get_unit_info(index),
        }
    }

    pub fn get_star_seed(&self) -> (star: Star)
        ensures
            star == self.star_seed(),
    {
        match self {
            SceneId::Galaxy(scene) => scene.get_star_seed(),
            SceneId::Star(scene) => scene.get_star_seed(),
            SceneId::Planet(scene) => scene.get_star_seed(),
        }
    }

    pub fn get_planet_seed(&self) -> (planet: Planet)
        ensures
            planet == self.planet_seed(),
    {
        match self {
            SceneId::Galaxy(scene) => scene.get_planet_seed(),
            SceneId::Star(scene) => scene.get_planet_seed(),
            SceneId::Planet(scene) => scene.get_planet_seed(),
        }
    }

    pub fn get_galaxy_size(&self) -> (galaxy_size: u64)
        ensures
            galaxy_size == self.galaxy_size(),
    {
        match self {
            SceneId::Galaxy(scene) => scene.get_galaxy_size(),
            SceneId::Star(scene) => scene.get_galaxy_size(),
            SceneId::Planet(scene) => scene.get_galaxy_size(),
        }
    }

    /// Goes one level inward at the unit `seed`: from the galaxy to the
    /// system of a star, from a system to the environment of a planet. An
    /// environment is the innermost level; there the scene is generated
    /// again and shows the same.
    pub fn step_in(self, seed: usize) -> (next: SceneId)
        requires
            self.wf(),
        ensures
            next.wf(),
            match self {
                SceneId::Galaxy(scene) => next matches SceneId::Star(inner) && scene.descends_to(
                    seed,
                    inner,
                ),
                SceneId::Star(scene) => next matches SceneId::Planet(inner) && scene.descends_to(
                    seed,
                    inner,
                ),
                SceneId::Planet(scene) => next matches SceneId::Planet(same) && scene.stays_at(
                    same,
                ),
            },
    {
        match self {
            SceneId::Galaxy(scene) => SceneId::Star(scene.descend(seed)),
            SceneId::Star(scene) => SceneId::Planet(scene.descend(seed)),
            SceneId::Planet(scene) => SceneId::Planet(scene.descend()),
        }
    }

    /// Goes one level outward: from an environment to the system of the star
    /// in memory, from a system to a new galaxy. The galaxy is the outermost
    /// level, and there is no way out of it.
    pub fn step_out(self) -> (next: SceneId)
        requires
            self.wf(),
            !(self is Galaxy),
        ensures
            next.wf(),
            match self {
                SceneId::Galaxy(scene) => true,
                SceneId::Star(scene) => next matches SceneId::Galaxy(outer) && scene.ascends_to(
                    outer,
                ),
                SceneId::Planet(scene) => next matches SceneId::Star(outer) && scene.ascends_to(
                    outer,
                ),
            },
    {
        match self {
            SceneId::Galaxy(scene) => SceneId::Galaxy(scene),
            SceneId::Star(scene) => SceneId::Galaxy(scene.ascend()),
            SceneId::Planet(scene) => SceneId::Star(scene.ascend()),
        }
    }
}

impl Game {
    /// A game that starts in a galaxy of `stars_in_galaxy` stars.
    pub fn new(stars_in_galaxy: u64) -> (game: Game)
        ensures
            game.scene_id.wf(),
            game.scene_id matches SceneId::Galaxy(scene) && scene.galaxy_size() == stars_in_galaxy,
    {
        Game { scene_id: SceneId::Galaxy(Scene::new(stars_in_galaxy)) }
    }
}

} // verus!
