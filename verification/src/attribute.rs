//! Physical attributes a species may have. A species' attribute set gates
//! which physical attacks its creatures can use.

use vstd::prelude::*;
use crate::text::lower_spec;
use crate::text::matches_keyword;

verus! {

/// The closed vocabulary of physical traits.
#[derive(Clone, Copy, PartialEq, Eq, Structural, Debug, Hash)]
pub enum Attribute {
    Ears,
    Tail,
    Eyes,
    Wings,
    Paws,
    Teeth,
    Hair,
    Legs,
    Beak,
    Claws,
    Tongue,
}

/// The attribute named by `s`, compared ASCII-case-insensitively;
/// `None` for any other token.
pub open spec fn attribute_from_name_spec(s: Seq<char>) -> Option<Attribute> {
    if lower_spec(s) == "ears"@ {
        Some(Attribute::Ears)
    } else if lower_spec(s) == "tail"@ {
        Some(Attribute::Tail)
    } else if lower_spec(s) == "eyes"@ {
        Some(Attribute::Eyes)
    } else if lower_spec(s) == "wings"@ {
        Some(Attribute::Wings)
    } else if lower_spec(s) == "paws"@ {
        Some(Attribute::Paws)
    } else if lower_spec(s) == "teeth"@ {
        Some(Attribute::Teeth)
    } else if lower_spec(s) == "hair"@ {
        Some(Attribute::Hair)
    } else if lower_spec(s) == "legs"@ {
        Some(Attribute::Legs)
    } else if lower_spec(s) == "beak"@ {
        Some(Attribute::Beak)
    } else if lower_spec(s) == "claws"@ {
        Some(Attribute::Claws)
    } else if lower_spec(s) == "tongue"@ {
        Some(Attribute::Tongue)
    } else {
        None
    }
}

impl Attribute {
    /// Parse an attribute token, case-insensitively.
    pub fn from_name(s: &str) -> (r: Option<Attribute>)
        ensures
            r == attribute_from_name_spec(s@),
    {
        if matches_keyword(s, "ears") {
            Some(Attribute::Ears)
        } else if matches_keyword(s, "tail") {
            Some(Attribute::Tail)
        } else if matches_keyword(s, "eyes") {
            Some(Attribute::Eyes)
        } else if matches_keyword(s, "wings") {
            Some(Attribute::Wings)
        } else if matches_keyword(s, "paws") {
            Some(Attribute::Paws)
        } else if matches_keyword(s, "teeth") {
            Some(Attribute::Teeth)
        } else if matches_keyword(s, "hair") {
            Some(Attribute::Hair)
        } else if matches_keyword(s, "legs") {
            Some(Attribute::Legs)
        } else if matches_keyword(s, "beak") {
            Some(Attribute::Beak)
        } else if matches_keyword(s, "claws") {
            Some(Attribute::Claws)
        } else if matches_keyword(s, "tongue") {
            Some(Attribute::Tongue)
        } else {
            None
        }
    }
}

/// `needed` is covered by `have`: every required attribute occurs in `have`.
pub open spec fn attrs_subset_spec(needed: Seq<Attribute>, have: Seq<Attribute>) -> bool {
    forall|i: int| 0 <= i < needed.len() ==> have.contains(needed[i])
}

/// Whether `have` contains the attribute `a`.
pub fn attrs_contain(have: &Vec<Attribute>, a: Attribute) -> (r: bool)
    ensures
        r == have@.contains(a),
{
    let mut i: usize = 0;
    while i < have.len()
        invariant
            i <= have@.len(),
            forall|j: int| 0 <= j < i ==> have@[j] != a,
        decreases have@.len() - i,
    {
        if have[i] == a {
            return true;
        }
        i += 1;
    }
    false
}

/// Whether every attribute in `needed` occurs in `have`.
pub fn attrs_subset(needed: &Vec<Attribute>, have: &Vec<Attribute>) -> (r: bool)
    ensures
        r == attrs_subset_spec(needed@, have@),
{
    let mut i: usize = 0;
    while i < needed.len()
        invariant
            i <= needed@.len(),
            forall|j: int| 0 <= j < i ==> have@.contains(needed@[j]),
        decreases needed@.len() - i,
    {
        if !attrs_contain(have, needed[i]) {
            return false;
        }
        i += 1;
    }
    true
}

} // verus!
