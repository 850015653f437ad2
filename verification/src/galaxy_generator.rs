//! The galaxy: the stars that the game starts from.

use crate::game_manager::{clamped, Scene, SceneName};
use crate::star_generator::Star;
use crate::text::{listing, push_entry};
use vstd::prelude::*;
use vstd::string::StringExecFns;

verus! {

/// The stars of a galaxy, in the order in which the player counts them.
pub struct Galaxy {
    stars: Vec<Star>,
}

impl View for Galaxy {
    type V = Seq<Star>;

    closed spec fn view(&self) -> Seq<Star> {
        self.stars@
    }
}

/// The names of the classes of `stars`, in their order.
pub open spec fn star_labels(stars: Seq<Star>) -> Seq<Seq<char>> {
    Seq::new(stars.len(), |i: int| stars[i].class.label_text())
}

impl Galaxy {
    /// A galaxy of `number_of_stars` new stars.
    pub fn new(number_of_stars: u64) -> (galaxy: Galaxy)
        ensures
            galaxy@.len() == number_of_stars,
            galaxy.wf(),
    {
        let mut stars: Vec<Star> = Vec::new();
        let mut i: u64 = 0;
        while i < number_of_stars
            invariant
                i <= number_of_stars,
                stars@.len() == i,
                forall|k: int| 0 <= k < stars@.len() ==> (#[trigger] stars@[k]).wf(),
            decreases number_of_stars - i,
        {
            stars.push(Star::new());
            i += 1;
        }
        Galaxy { stars }
    }

    /// Whether every star of the galaxy is one that its class admits.
    pub open spec fn wf(&self) -> bool {
        forall|k: int| 0 <= k < self@.len() ==> (#[trigger] self@[k]).wf()
    }

    pub fn get_stars(&self) -> (stars: &Vec<Star>)
        ensures
            stars@ == self@,
    {
        &self.stars
    }

    /// Takes the star at `index` out of the galaxy, or the first star where
    /// there is none at `index`. An empty galaxy gives no star.
    pub fn get_star(&mut self, index: usize) -> (star: Option<Star>)
        ensures
            old(self)@.len() == 0 ==> star is None && final(self)@ == old(self)@,
            old(self)@.len() > 0 ==> star == Some(old(self)@[clamped(index, old(self)@.len())])
                && final(self)@ == old(self)@.remove(clamped(index, old(self)@.len())),
    {
        if self.stars.len() == 0 {
            None
        } else if index < self.stars.len() {
            Some(self.stars.remove(index))
        } else {
            Some(self.stars.remove(0))
        }
    }
}

impl Scene for Galaxy {
    open spec fn scene_name(&self) -> SceneName {
        SceneName::Galaxy
    }

    open spec fn unit_count(&self) -> nat {
        self@.len()
    }

    /// The class of every star with its place in the galaxy.
    open spec fn system_info(&self) -> Seq<char> {
        listing(star_labels(self@), self@.len())
    }

    open spec fn unit_info(&self, index: int) -> Seq<char> {
        self@[index].info_text()
    }

    fn get_scene_name(&self) -> (name: SceneName) {
        SceneName::Galaxy
    }

    fn get_system_info(&self) -> (info: String) {
        let mut info = String::new();
        let mut i: usize = 0;
        while i < self.stars.len()
            invariant
                i <= self.stars@.len(),
                info@ == listing(star_labels(self@), i as nat),
            decreases self.stars@.len() - i,
        {
            push_entry(&mut info, self.stars[i].class.label(), i);
            i += 1;
        }
        info
    }

    fn get_unit_info(&self, index: usize) -> (info: String) {
        if index < self.stars.len() {
            self.stars[index].get_info()
        } else {
            String::from_str("Invalid coordinates.")
        }
    }
}

} // verus!
