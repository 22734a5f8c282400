//! The four elements of the game. An element gates the magical attacks a
//! creature may use and perturbs its derived stats.

use vstd::prelude::*;
use crate::text::lower_spec;
use crate::text::matches_keyword;

verus! {

/// The four elements. Every creature carries exactly one.
#[derive(Clone, Copy, PartialEq, Eq, Structural, Debug, Hash)]
pub enum Element {
    Fire,
    Air,
    Earth,
    Water,
}

impl Default for Element {
    fn default() -> (r: Self)
        ensures
            r == Element::Fire,
    {
        Element::Fire
    }
}

/// The element named by `s`, compared ASCII-case-insensitively;
/// `None` for any other token.
pub open spec fn element_from_name_spec(s: Seq<char>) -> Option<Element> {
    if lower_spec(s) == "fire"@ {
        Some(Element::Fire)
    } else if lower_spec(s) == "air"@ {
        Some(Element::Air)
    } else if lower_spec(s) == "earth"@ {
        Some(Element::Earth)
    } else if lower_spec(s) == "water"@ {
        Some(Element::Water)
    } else {
        None
    }
}

/// The fixed display name of each element.
pub open spec fn element_name_spec(e: Element) -> Seq<char> {
    match e {
        Element::Fire => "Fire"@,
        Element::Air => "Air"@,
        Element::Earth => "Earth"@,
        Element::Water => "Water"@,
    }
}

impl Element {
    /// Parse an element token, case-insensitively.
    pub fn from_name(s: &str) -> (r: Option<Element>)
        ensures
            r == element_from_name_spec(s@),
    {
        if matches_keyword(s, "fire") {
            Some(Element::Fire)
        } else if matches_keyword(s, "air") {
            Some(Element::Air)
        } else if matches_keyword(s, "earth") {
            Some(Element::Earth)
        } else if matches_keyword(s, "water") {
            Some(Element::Water)
        } else {
            None
        }
    }

    /// Display name of the element.
    pub fn name(&self) -> (r: &'static str)
        ensures
            r@ == element_name_spec(*self),
    {
        match self {
            Element::Fire => "Fire",
            Element::Air => "Air",
            Element::Earth => "Earth",
            Element::Water => "Water",
        }
    }
}

} // verus!
