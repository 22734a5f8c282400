//! Who an attack or an item affects.

use vstd::prelude::*;
use crate::text::lower_spec;
use crate::text::matches_keyword;

verus! {

/// Target of an attack or item usage.
#[derive(Clone, Copy, PartialEq, Eq, Structural, Debug)]
pub enum Target {
    /// One enemy only
    Enemy,
    /// All enemies
    Enemies,
    /// All allies
    Allies,
    /// One ally only
    Ally,
    /// Everyone
    All,
    /// Self only
    OneSelf,
    /// Everyone but self
    AllButSelf,
}

/// The target named by `s`, compared ASCII-case-insensitively.
/// "self" and "oneself" both name `OneSelf`; "allbutself" and "abs" both
/// name `AllButSelf`. `None` for any other token.
pub open spec fn target_from_name_spec(s: Seq<char>) -> Option<Target> {
    if lower_spec(s) == "enemy"@ {
        Some(Target::Enemy)
    } else if lower_spec(s) == "enemies"@ {
        Some(Target::Enemies)
    } else if lower_spec(s) == "ally"@ {
        Some(Target::Ally)
    } else if lower_spec(s) == "allies"@ {
        Some(Target::Allies)
    } else if lower_spec(s) == "all"@ {
        Some(Target::All)
    } else if lower_spec(s) == "self"@ || lower_spec(s) == "oneself"@ {
        Some(Target::OneSelf)
    } else if lower_spec(s) == "allbutself"@ || lower_spec(s) == "abs"@ {
        Some(Target::AllButSelf)
    } else {
        None
    }
}

impl Target {
    /// Parse a target token, case-insensitively, aliases included.
    pub fn from_name(s: &str) -> (r: Option<Target>)
        ensures
            r == target_from_name_spec(s@),
    {
        if matches_keyword(s, "enemy") {
            Some(Target::Enemy)
        } else if matches_keyword(s, "enemies") {
            Some(Target::Enemies)
        } else if matches_keyword(s, "ally") {
            Some(Target::Ally)
        } else if matches_keyword(s, "allies") {
            Some(Target::Allies)
        } else if matches_keyword(s, "all") {
            Some(Target::All)
        } else if matches_keyword(s, "self") || matches_keyword(s, "oneself") {
            Some(Target::OneSelf)
        } else if matches_keyword(s, "allbutself") || matches_keyword(s, "abs") {
            Some(Target::AllButSelf)
        } else {
            None
        }
    }
}

} // verus!
