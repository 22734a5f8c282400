//! Combat stats and their element-dependent derivation.
//!
//! Percentage adjustments are computed in exact integer arithmetic with
//! round-half-away-from-zero (`x * 1.05` becomes `(21*x + 10) / 20`,
//! `x * 0.95` becomes `(19*x + 10) / 20`), and every adjustment saturates
//! at the bounds of the 8-bit stat range instead of wrapping.

use vstd::prelude::*;
use vstd::string::StringExecFns;
use crate::element::Element;

verus! {

/// Base combat stats of a species or creature. `hp`, `attack`, `defense`
/// and `speed` use the full 8-bit range; `dodge` and `accuracy` are
/// percentages (accuracy defaults to 100, dodge to 0).
#[derive(Clone, Copy, PartialEq, Eq, Structural, Debug)]
pub struct Stats {
    pub hp: u8,
    pub attack: u8,
    pub defense: u8,
    pub speed: u8,
    /// Chance to evade, in percent.
    pub dodge: u8,
    /// Chance to hit, in percent.
    pub accuracy: u8,
}

impl Default for Stats {
    fn default() -> (r: Self)
        ensures
            r == (Stats { hp: 0, attack: 0, defense: 0, speed: 0, dodge: 0, accuracy: 0 }),
    {
        Stats { hp: 0, attack: 0, defense: 0, speed: 0, dodge: 0, accuracy: 0 }
    }
}

/// `x * 1.05`, rounded half away from zero and clamped to 255.
pub open spec fn scale_up_spec(x: int) -> int {
    let y = (21 * x + 10) / 20;
    if y > 255 {
        255
    } else {
        y
    }
}

/// `x * 0.95`, rounded half away from zero.
pub open spec fn scale_down_spec(x: int) -> int {
    (19 * x + 10) / 20
}

/// `x + d`, saturating at 255.
pub open spec fn sat_add_spec(x: int, d: int) -> int {
    if x + d > 255 {
        255
    } else {
        x + d
    }
}

/// `x - d`, saturating at 0.
pub open spec fn sat_sub_spec(x: int, d: int) -> int {
    if x - d < 0 {
        0
    } else {
        x - d
    }
}

/// Each percentage formula keeps an 8-bit input inside the 8-bit range:
/// the clamp bounds `scale_up_spec` and rounding never lifts `0.95 * x`
/// above 255 for `x <= 255`.
pub proof fn lemma_scaled_values_in_range(x: int)
    requires
        0 <= x <= 255,
    ensures
        0 <= scale_up_spec(x) <= 255,
        0 <= scale_down_spec(x) <= 255,
{
}

/// The stats a creature of element `e` derives from base stats `s`.
///
/// Each element adjusts exactly two fields, in a fixed order. In the Fire
/// and Earth branches the second write reads the value the first write
/// left behind: Fire's speed boost is overwritten by the defense-based
/// formula, and Earth's speed formula reads the already-raised defense.
pub open spec fn with_element_spec(s: Stats, e: Element) -> Stats {
    match e {
        Element::Fire => Stats { speed: scale_down_spec(s.defense as int) as u8, ..s },
        Element::Water => Stats {
            dodge: sat_add_spec(s.dodge as int, 5) as u8,
            attack: scale_down_spec(s.defense as int) as u8,
            ..s
        },
        Element::Air => Stats {
            attack: scale_up_spec(s.speed as int) as u8,
            accuracy: sat_sub_spec(s.accuracy as int, 5) as u8,
            ..s
        },
        Element::Earth => {
            let d = scale_up_spec(s.speed as int);
            Stats { defense: d as u8, speed: scale_down_spec(d) as u8, ..s }
        },
    }
}

/// Every field of the derived stats stays within [0, 255], for every
/// base Stats and every element.
pub proof fn lemma_with_element_bounds(s: Stats, e: Element)
    ensures
        0 <= with_element_spec(s, e).hp as int <= 255,
        0 <= with_element_spec(s, e).attack as int <= 255,
        0 <= with_element_spec(s, e).defense as int <= 255,
        0 <= with_element_spec(s, e).speed as int <= 255,
        0 <= with_element_spec(s, e).dodge as int <= 255,
        0 <= with_element_spec(s, e).accuracy as int <= 255,
{
}

fn scale_up(x: u8) -> (r: u8)
    ensures
        r as int == scale_up_spec(x as int),
{
    let y: u32 = (21 * (x as u32) + 10) / 20;
    if y > 255 {
        255
    } else {
        y as u8
    }
}

fn scale_down(x: u8) -> (r: u8)
    ensures
        r as int == scale_down_spec(x as int),
{
    ((19 * (x as u32) + 10) / 20) as u8
}

impl Stats {
    /// Base stats as loaded for a species: the four combat fields as
    /// given, dodge 0 and accuracy 100.
    pub fn from_base(hp: u8, attack: u8, defense: u8, speed: u8) -> (r: Stats)
        ensures
            r == (Stats { hp, attack, defense, speed, dodge: 0, accuracy: 100 }),
    {
        Stats { hp, attack, defense, speed, dodge: 0, accuracy: 100 }
    }

    /// Derive the stats of an individual of element `element` from these
    /// base stats. Pure: the result depends on the inputs alone, and
    /// `self` is not changed.
    pub fn with_element(&self, element: Element) -> (r: Stats)
        ensures
            r == with_element_spec(*self, element),
    {
        let mut stats = self.clone();
        match element {
            Element::Fire => {
                stats.speed = scale_up(stats.speed);
                stats.speed = scale_down(stats.defense);
            },
            Element::Water => {
                stats.dodge = if stats.dodge > 250 {
                    255
                } else {
                    stats.dodge + 5
                };
                stats.attack = scale_down(stats.defense);
            },
            Element::Air => {
                stats.attack = scale_up(stats.speed);
                stats.accuracy = if stats.accuracy < 5 {
                    0
                } else {
                    stats.accuracy - 5
                };
            },
            Element::Earth => {
                stats.defense = scale_up(stats.speed);
                stats.speed = scale_down(stats.defense);
            },
        }
        stats
    }

    /// The four displayable base stats, each with its label; the order is
    /// HP, Attack, Defense, Speed.
    pub fn entries(&self) -> (r: Vec<(String, u8)>)
        ensures
            r@.len() == 4,
            r@[0].0@ == "HP"@ && r@[0].1 == self.hp,
            r@[1].0@ == "Attack"@ && r@[1].1 == self.attack,
            r@[2].0@ == "Defense"@ && r@[2].1 == self.defense,
            r@[3].0@ == "Speed"@ && r@[3].1 == self.speed,
    {
        let mut out: Vec<(String, u8)> = Vec::new();
        out.push((String::from_str("HP"), self.hp));
        out.push((String::from_str("Attack"), self.attack));
        out.push((String::from_str("Defense"), self.defense));
        out.push((String::from_str("Speed"), self.speed));
        out
    }
}

} // verus!
