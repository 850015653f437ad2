//! Stars: spectral class, colour, mass, age and surface temperature.
//!
//! Masses are kept in hundredths of a solar mass and abundances in parts per
//! ten thousand, so that every table in this module is made of integers.

use crate::rng::{fresh_u32, total_weight};
use crate::sampler::{sample, weights_of};
use crate::text::{decimal, hundredths, push_decimal, push_hundredths};
use vstd::prelude::*;
use vstd::string::StringExecFns;

verus! {

// Ages, in millions of years.
pub const LOW_MASS_STAR_AGE_MINIMUM: u16 = 10;

pub const HIGH_MASS_STAR_AGE_MINIMUM: u16 = 1;

/// A white dwarf has been an A star and a giant before.
pub const WHITE_DWARF_STAR_AGE_MINIMUM: u16 = 1520;

/// A giant has been an A star before.
pub const GIANT_STAR_AGE_MINIMUM: u16 = 400;

/// A supergiant has been an O star before.
pub const SUPER_GIANT_STAR_AGE_MINIMUM: u16 = 8;

// M and K stars outlive the universe, which is 13 billion years old.
pub const M_STAR_AGE_MAXIMUM: u16 = 13000;

pub const K_STAR_AGE_MAXIMUM: u16 = 13000;

pub const G_STAR_AGE_MAXIMUM: u16 = 10000;

pub const F_STAR_AGE_MAXIMUM: u16 = 5000;

pub const A_STAR_AGE_MAXIMUM: u16 = 400;

pub const B_STAR_AGE_MAXIMUM: u16 = 100;

pub const O_STAR_AGE_MAXIMUM: u16 = 8;

pub const WHITE_DWARF_STAR_AGE_MAXIMUM: u16 = 13000;

pub const GIANT_STAR_AGE_MAXIMUM: u16 = 13000;

/// The 50 million years of a supergiant, after the life of a B star.
pub const SUPER_GIANT_STAR_AGE_MAXIMUM: u16 = 150;

// Masses, in hundredths of a solar mass.
pub const M_STAR_MASS_MINIMUM: u32 = 10;

pub const M_STAR_MASS_MAXIMUM: u32 = 45;

pub const K_STAR_MASS_MINIMUM: u32 = 45;

pub const K_STAR_MASS_MAXIMUM: u32 = 80;

pub const G_STAR_MASS_MINIMUM: u32 = 80;

pub const G_STAR_MASS_MAXIMUM: u32 = 100;

pub const F_STAR_MASS_MINIMUM: u32 = 100;

pub const F_STAR_MASS_MAXIMUM: u32 = 140;

pub const A_STAR_MASS_MINIMUM: u32 = 140;

pub const A_STAR_MASS_MAXIMUM: u32 = 200;

pub const B_STAR_MASS_MINIMUM: u32 = 210;

pub const B_STAR_MASS_MAXIMUM: u32 = 1500;

pub const O_STAR_MASS_MINIMUM: u32 = 1500;

pub const O_STAR_MASS_MAXIMUM: u32 = 31500;

pub const WHITE_DWARF_STAR_MASS_MINIMUM: u32 = 50;

pub const WHITE_DWARF_STAR_MASS_MAXIMUM: u32 = 70;

pub const GIANT_STAR_MASS_MINIMUM: u32 = 80;

pub const GIANT_STAR_MASS_MAXIMUM: u32 = 200;

pub const SUPER_GIANT_STAR_MASS_MINIMUM: u32 = 1100;

pub const SUPER_GIANT_STAR_MASS_MAXIMUM: u32 = 31500;

// Abundances, in stars per ten thousand.
pub const M_STAR_ABUNDANCE: u32 = 8000;

pub const K_STAR_ABUNDANCE: u32 = 828;

pub const G_STAR_ABUNDANCE: u32 = 350;

pub const F_STAR_ABUNDANCE: u32 = 200;

pub const A_STAR_ABUNDANCE: u32 = 70;

pub const B_STAR_ABUNDANCE: u32 = 10;

pub const O_STAR_ABUNDANCE: u32 = 1;

pub const WHITE_DWARF_STAR_ABUNDANCE: u32 = 500;

pub const GIANT_STAR_ABUNDANCE: u32 = 40;

pub const SUPER_GIANT_STAR_ABUNDANCE: u32 = 1;

/// The surface temperature of every white dwarf, in kelvins.
pub const WHITE_DWARF_STAR_TEMPERATURE: u16 = 10000;

/// The surface temperature of every giant, in kelvins.
pub const GIANT_STAR_TEMPERATURE: u16 = 4500;

/// The spectral class of a star. Giants and supergiants are kept as classes
/// of their own, though they occur in every spectral class.
#[derive(Clone, Copy, Debug, Hash, PartialEq, Eq, Structural)]
pub enum StarClass {
    O,
    B,
    A,
    F,
    G,
    K,
    M,
    WhiteDwarf,
    Giant,
    SuperGiant,
}

#[derive(Clone, Copy, Debug, PartialEq, Eq, Structural)]
pub enum StarColor {
    Red,
    Yellow,
    Orange,
    Blue,
    White,
}

/// A star. The generator makes the stars that `wf` describes.
#[derive(Clone, Copy, Debug, PartialEq, Eq, Structural)]
pub struct Star {
    pub class: StarClass,
    pub color: StarColor,
    /// In hundredths of a solar mass.
    pub mass: u32,
    /// In millions of years.
    pub age: u16,
    /// In kelvins.
    pub temperature: u16,
}

impl StarClass {
    /// The least mass of a star of this class.
    pub open spec fn mass_minimum(self) -> u32 {
        match self {
            StarClass::M => M_STAR_MASS_MINIMUM,
            StarClass::K => K_STAR_MASS_MINIMUM,
            StarClass::G => G_STAR_MASS_MINIMUM,
            StarClass::F => F_STAR_MASS_MINIMUM,
            StarClass::A => A_STAR_MASS_MINIMUM,
            StarClass::B => B_STAR_MASS_MINIMUM,
            StarClass::O => O_STAR_MASS_MINIMUM,
            StarClass::WhiteDwarf => WHITE_DWARF_STAR_MASS_MINIMUM,
            StarClass::Giant => GIANT_STAR_MASS_MINIMUM,
            StarClass::SuperGiant => SUPER_GIANT_STAR_MASS_MINIMUM,
        }
    }

    /// The greatest mass of a star of this class.
    pub open spec fn mass_maximum(self) -> u32 {
        match self {
            StarClass::M => M_STAR_MASS_MAXIMUM,
            StarClass::K => K_STAR_MASS_MAXIMUM,
            StarClass::G => G_STAR_MASS_MAXIMUM,
            StarClass::F => F_STAR_MASS_MAXIMUM,
            StarClass::A => A_STAR_MASS_MAXIMUM,
            StarClass::B => B_STAR_MASS_MAXIMUM,
            StarClass::O => O_STAR_MASS_MAXIMUM,
            StarClass::WhiteDwarf => WHITE_DWARF_STAR_MASS_MAXIMUM,
            StarClass::Giant => GIANT_STAR_MASS_MAXIMUM,
            StarClass::SuperGiant => SUPER_GIANT_STAR_MASS_MAXIMUM,
        }
    }

    /// The least age of a star of this class.
    pub open spec fn age_minimum(self) -> u16 {
        match self {
            StarClass::M | StarClass::K | StarClass::G | StarClass::F => LOW_MASS_STAR_AGE_MINIMUM,
            StarClass::A | StarClass::B | StarClass::O => HIGH_MASS_STAR_AGE_MINIMUM,
            StarClass::WhiteDwarf => WHITE_DWARF_STAR_AGE_MINIMUM,
            StarClass::Giant => GIANT_STAR_AGE_MINIMUM,
            StarClass::SuperGiant => SUPER_GIANT_STAR_AGE_MINIMUM,
        }
    }

    /// The greatest age of a star of this class.
    pub open spec fn age_maximum(self) -> u16 {
        match self {
            StarClass::M => M_STAR_AGE_MAXIMUM,
            StarClass::K => K_STAR_AGE_MAXIMUM,
            StarClass::G => G_STAR_AGE_MAXIMUM,
            StarClass::F => F_STAR_AGE_MAXIMUM,
            StarClass::A => A_STAR_AGE_MAXIMUM,
            StarClass::B => B_STAR_AGE_MAXIMUM,
            StarClass::O => O_STAR_AGE_MAXIMUM,
            StarClass::WhiteDwarf => WHITE_DWARF_STAR_AGE_MAXIMUM,
            StarClass::Giant => GIANT_STAR_AGE_MAXIMUM,
            StarClass::SuperGiant => SUPER_GIANT_STAR_AGE_MAXIMUM,
        }
    }

    /// The surface temperatures that a star of this class can have. Most
    /// supergiants are of spectral type B, so they share its list.
    pub open spec fn temperatures(self) -> Seq<u16> {
        match self {
            StarClass::M => seq![3600, 3400, 3200, 3100, 2900, 2700, 2600, 2400, 2200, 2000],
            StarClass::K => seq![4500, 4400, 4300, 4200, 4100, 4000, 3900, 3800, 3800, 3700],
            StarClass::G => seq![5800, 5600, 5500, 5200, 5100, 5000, 5000, 5000, 4900, 4600],
            StarClass::F => seq![7700, 7600, 7400, 7200, 7000, 6900, 6600, 6500, 6300, 6100],
            StarClass::A => seq![9900, 9700, 9500, 9200, 9000, 8700, 8600, 8300, 8100, 7900],
            StarClass::B | StarClass::SuperGiant => seq![
                26500,
                24900,
                23500,
                22000,
                20500,
                19000,
                17100,
                15300,
                13500,
                11700,
            ],
            StarClass::O => seq![
                50000,
                47700,
                45400,
                43100,
                40800,
                39000,
                36100,
                33700,
                31300,
                28900,
            ],
            StarClass::WhiteDwarf => seq![WHITE_DWARF_STAR_TEMPERATURE],
            StarClass::Giant => seq![GIANT_STAR_TEMPERATURE],
        }
    }

    /// The colour that every star of this class has, if there is one: giants
    /// and supergiants come in all colours.
    pub open spec fn fixed_color(self) -> Option<StarColor> {
        match self {
            StarClass::M => Some(StarColor::Red),
            StarClass::K => Some(StarColor::Orange),
            StarClass::G => Some(StarColor::Yellow),
            StarClass::F | StarClass::A | StarClass::WhiteDwarf => Some(StarColor::White),
            StarClass::B | StarClass::O => Some(StarColor::Blue),
            StarClass::Giant | StarClass::SuperGiant => None,
        }
    }

    pub fn mass_range(self) -> (range: (u32, u32))
        ensures
            range.0 == self.mass_minimum(),
            range.1 == self.mass_maximum(),
            range.0 <= range.1,
    {
        match self {
            StarClass::M => (M_STAR_MASS_MINIMUM, M_STAR_MASS_MAXIMUM),
            StarClass::K => (K_STAR_MASS_MINIMUM, K_STAR_MASS_MAXIMUM),
            StarClass::G => (G_STAR_MASS_MINIMUM, G_STAR_MASS_MAXIMUM),
            StarClass::F => (F_STAR_MASS_MINIMUM, F_STAR_MASS_MAXIMUM),
            StarClass::A => (A_STAR_MASS_MINIMUM, A_STAR_MASS_MAXIMUM),
            StarClass::B => (B_STAR_MASS_MINIMUM, B_STAR_MASS_MAXIMUM),
            StarClass::O => (O_STAR_MASS_MINIMUM, O_STAR_MASS_MAXIMUM),
            StarClass::WhiteDwarf => (WHITE_DWARF_STAR_MASS_MINIMUM, WHITE_DWARF_STAR_MASS_MAXIMUM),
            StarClass::Giant => (GIANT_STAR_MASS_MINIMUM, GIANT_STAR_MASS_MAXIMUM),
            StarClass::SuperGiant => (SUPER_GIANT_STAR_MASS_MINIMUM, SUPER_GIANT_STAR_MASS_MAXIMUM),
        }
    }

    pub fn age_range(self) -> (range: (u16, u16))
        ensures
            range.0 == self.age_minimum(),
            range.1 == self.age_maximum(),
            range.0 <= range.1,
    {
        match self {
            StarClass::M => (LOW_MASS_STAR_AGE_MINIMUM, M_STAR_AGE_MAXIMUM),
            StarClass::K => (LOW_MASS_STAR_AGE_MINIMUM, K_STAR_AGE_MAXIMUM),
            StarClass::G => (LOW_MASS_STAR_AGE_MINIMUM, G_STAR_AGE_MAXIMUM),
            StarClass::F => (LOW_MASS_STAR_AGE_MINIMUM, F_STAR_AGE_MAXIMUM),
            StarClass::A => (HIGH_MASS_STAR_AGE_MINIMUM, A_STAR_AGE_MAXIMUM),
            StarClass::B => (HIGH_MASS_STAR_AGE_MINIMUM, B_STAR_AGE_MAXIMUM),
            StarClass::O => (HIGH_MASS_STAR_AGE_MINIMUM, O_STAR_AGE_MAXIMUM),
            StarClass::WhiteDwarf => (WHITE_DWARF_STAR_AGE_MINIMUM, WHITE_DWARF_STAR_AGE_MAXIMUM),
            StarClass::Giant => (GIANT_STAR_AGE_MINIMUM, GIANT_STAR_AGE_MAXIMUM),
            StarClass::SuperGiant => (SUPER_GIANT_STAR_AGE_MINIMUM, SUPER_GIANT_STAR_AGE_MAXIMUM),
        }
    }

    pub fn temperature_table(self) -> (table: Vec<u16>)
        ensures
            table@ == self.temperatures(),
            table@.len() == 1 || table@.len() == 10,
    {
        let table = match self {
            StarClass::M => vec![3600, 3400, 3200, 3100, 2900, 2700, 2600, 2400, 2200, 2000],
            StarClass::K => vec![4500, 4400, 4300, 4200, 4100, 4000, 3900, 3800, 3800, 3700],
            StarClass::G => vec![5800, 5600, 5500, 5200, 5100, 5000, 5000, 5000, 4900, 4600],
            StarClass::F => vec![7700, 7600, 7400, 7200, 7000, 6900, 6600, 6500, 6300, 6100],
            StarClass::A => vec![9900, 9700, 9500, 9200, 9000, 8700, 8600, 8300, 8100, 7900],
            StarClass::B | StarClass::SuperGiant => vec![
                26500,
                24900,
                23500,
                22000,
                20500,
                19000,
                17100,
                15300,
                13500,
                11700,
            ],
            StarClass::O => vec![
                50000,
                47700,
                45400,
                43100,
                40800,
                39000,
                36100,
                33700,
                31300,
                28900,
            ],
            StarClass::WhiteDwarf => vec![WHITE_DWARF_STAR_TEMPERATURE],
            StarClass::Giant => vec![GIANT_STAR_TEMPERATURE],
        };
        assert(table@ =~= self.temperatures());
        table
    }

    pub fn color(self) -> (color: Option<StarColor>)
        ensures
            color == self.fixed_color(),
    {
        match self {
            StarClass::M => Some(StarColor::Red),
            StarClass::K => Some(StarColor::Orange),
            StarClass::G => Some(StarColor::Yellow),
            StarClass::F | StarClass::A | StarClass::WhiteDwarf => Some(StarColor::White),
            StarClass::B | StarClass::O => Some(StarColor::Blue),
            StarClass::Giant | StarClass::SuperGiant => None,
        }
    }
}

impl StarClass {
    /// The name of the class.
    pub open spec fn label_text(self) -> Seq<char> {
        match self {
            StarClass::O => "O"@,
            StarClass::B => "B"@,
            StarClass::A => "A"@,
            StarClass::F => "F"@,
            StarClass::G => "G"@,
            StarClass::K => "K"@,
            StarClass::M => "M"@,
            StarClass::WhiteDwarf => "WhiteDwarf"@,
            StarClass::Giant => "Giant"@,
            StarClass::SuperGiant => "SuperGiant"@,
        }
    }

    pub fn label(self) -> (label: &'static str)
        ensures
            label@ == self.label_text(),
    {
        match self {
            StarClass::O => "O",
            StarClass::B => "B",
            StarClass::A => "A",
            StarClass::F => "F",
            StarClass::G => "G",
            StarClass::K => "K",
            StarClass::M => "M",
            StarClass::WhiteDwarf => "WhiteDwarf",
            StarClass::Giant => "Giant",
            StarClass::SuperGiant => "SuperGiant",
        }
    }
}

impl StarColor {
    /// The name of the colour.
    pub open spec fn label_text(self) -> Seq<char> {
        match self {
            StarColor::Red => "Red"@,
            StarColor::Yellow => "Yellow"@,
            StarColor::Orange => "Orange"@,
            StarColor::Blue => "Blue"@,
            StarColor::White => "White"@,
        }
    }

    pub fn label(self) -> (label: &'static str)
        ensures
            label@ == self.label_text(),
    {
        match self {
            StarColor::Red => "Red",
            StarColor::Yellow => "Yellow",
            StarColor::Orange => "Orange",
            StarColor::Blue => "Blue",
            StarColor::White => "White",
        }
    }

    /// The colours in the order in which a draw numbers them.
    pub open spec fn palette() -> Seq<StarColor> {
        seq![
            StarColor::Red,
            StarColor::Yellow,
            StarColor::Orange,
            StarColor::Blue,
            StarColor::White,
        ]
    }

    pub fn from_index(index: u32) -> (color: StarColor)
        requires
            index < 5,
        ensures
            color == Self::palette()[index as int],
    {
        if index == 0 {
            StarColor::Red
        } else if index == 1 {
            StarColor::Yellow
        } else if index == 2 {
            StarColor::Orange
        } else if index == 3 {
            StarColor::Blue
        } else {
            StarColor::White
        }
    }
}

/// How common each class is, most common dwarfs first. Only the proportions
/// between the weights matter.
pub open spec fn census() -> Seq<(StarClass, u32)> {
    seq![
        (StarClass::M, M_STAR_ABUNDANCE),
        (StarClass::K, K_STAR_ABUNDANCE),
        (StarClass::G, G_STAR_ABUNDANCE),
        (StarClass::F, F_STAR_ABUNDANCE),
        (StarClass::A, A_STAR_ABUNDANCE),
        (StarClass::B, B_STAR_ABUNDANCE),
        (StarClass::O, O_STAR_ABUNDANCE),
        (StarClass::WhiteDwarf, WHITE_DWARF_STAR_ABUNDANCE),
        (StarClass::Giant, GIANT_STAR_ABUNDANCE),
        (StarClass::SuperGiant, SUPER_GIANT_STAR_ABUNDANCE),
    ]
}

/// The table of the classes with their abundances.
pub fn abundance_table() -> (table: Vec<(StarClass, u32)>)
    ensures
        table@ == census(),
{
    let table = vec![
        (StarClass::M, M_STAR_ABUNDANCE),
        (StarClass::K, K_STAR_ABUNDANCE),
        (StarClass::G, G_STAR_ABUNDANCE),
        (StarClass::F, F_STAR_ABUNDANCE),
        (StarClass::A, A_STAR_ABUNDANCE),
        (StarClass::B, B_STAR_ABUNDANCE),
        (StarClass::O, O_STAR_ABUNDANCE),
        (StarClass::WhiteDwarf, WHITE_DWARF_STAR_ABUNDANCE),
        (StarClass::Giant, GIANT_STAR_ABUNDANCE),
        (StarClass::SuperGiant, SUPER_GIANT_STAR_ABUNDANCE),
    ];
    assert(table@ =~= census());
    table
}

/// The abundances of all classes add up to ten thousand.
pub proof fn census_total()
    ensures
        census().len() == 10,
        total_weight(weights_of(census())) == 10000,
{
    let weights = weights_of(census());
    assert(weights.len() == 10);
    reveal_with_fuel(crate::rng::weight_before, 11);
}

impl Star {
    /// The star that a class and four draws describe: the mass and the age
    /// as drawn, the temperature at place `slot` of the class's list, and the
    /// colour of the class or, where the class has none, colour `hue` of the
    /// palette.
    pub open spec fn of_draws(class: StarClass, mass: u32, age: u16, slot: int, hue: int) -> Star {
        Star {
            class,
            color: match class.fixed_color() {
                Some(color) => color,
                None => StarColor::palette()[hue],
            },
            mass,
            age,
            temperature: class.temperatures()[slot],
        }
    }

    /// Whether this star is one that its class admits: mass and age within
    /// the bounds of the class, the temperature one of the class's list, and
    /// the colour that of the class where it has one.
    pub open spec fn wf(self) -> bool {
        &&& self.class.mass_minimum() <= self.mass <= self.class.mass_maximum()
        &&& self.class.age_minimum() <= self.age <= self.class.age_maximum()
        &&& self.class.temperatures().contains(self.temperature)
        &&& self.class.fixed_color() matches Some(color) ==> self.color == color
    }

    /// Builds the star from its class and the values drawn for it.
    pub fn from_draws(class: StarClass, mass: u32, age: u16, slot: usize, hue: u32) -> (star: Star)
        requires
            class.mass_minimum() <= mass <= class.mass_maximum(),
            class.age_minimum() <= age <= class.age_maximum(),
            slot < class.temperatures().len(),
            hue < 5,
        ensures
            star == Star::of_draws(class, mass, age, slot as int, hue as int),
            star.wf(),
    {
        let table = class.temperature_table();
        let color = match class.color() {
            Some(color) => color,
            None => StarColor::from_index(hue),
        };
        Star { class, color, mass, age, temperature: table[slot] }
    }

    /// Draws a mass between `min` and `max`, in hundredths of a solar mass.
    fn generate_star_mass(min: u32, max: u32) -> (mass: u32)
        requires
            min <= max,
        ensures
            min <= mass <= max,
    {
        fresh_u32(min, max)
    }

    /// The description of the star.
    pub open spec fn info_text(self) -> Seq<char> {
        "This is a "@ + self.class.label_text() + " class star, which is "@
            + self.color.label_text() + ", mass: "@ + hundredths(self.mass as nat)
            + " solar masses, age: "@ + decimal(self.age as nat)
            + " million years, temperature: "@ + decimal(self.temperature as nat) + " K."@
    }

    pub fn get_info(&self) -> (info: String)
        ensures
            info@ == self.info_text(),
    {
        let mut info = String::from_str("This is a ");
        info.append(self.class.label());
        info.append(" class star, which is ");
        info.append(self.color.label());
        info.append(", mass: ");
        push_hundredths(&mut info, self.mass as u64);
        info.append(" solar masses, age: ");
        push_decimal(&mut info, self.age as u64);
        info.append(" million years, temperature: ");
        push_decimal(&mut info, self.temperature as u64);
        info.append(" K.");
        info
    }

    pub fn get_class(&self) -> (class: StarClass)
        ensures
            class == self.class,
    {
        self.class
    }

    pub fn get_age(&self) -> (age: u16)
        ensures
            age == self.age,
    {
        self.age
    }

    /// A new star: the class by its abundance, then mass, age, temperature
    /// and, for giants and supergiants, colour, each uniformly among what the
    /// class admits.
    pub fn new() -> (star: Star)
        ensures
            star.wf(),
    {
        let table = abundance_table();
        proof {
            census_total();
        }
        let class = sample(&table);
        let masses = class.mass_range();
        let mass = Self::generate_star_mass(masses.0, masses.1);
        let ages = class.age_range();
        let age = fresh_u32(ages.0 as u32, ages.1 as u32) as u16;
        let table = class.temperature_table();
        let slot = if table.len() == 1 {
            0
        } else {
            fresh_u32(0, 9) as usize
        };
        let hue = match class.color() {
            Some(_) => 0,
            None => fresh_u32(0, 4),
        };
        Self::from_draws(class, mass, age, slot, hue)
    }
}

} // verus!
