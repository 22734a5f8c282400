//! The player's team: live battle-roster entries referencing creatures
//! in the Dex, each with its own current hp.

use vstd::prelude::*;
use vstd::string::StrSliceExecFns;
use crate::dex::Dex;
use crate::text::lower_spec;

verus! {

/// The player's roster, in slot order.
#[derive(Debug)]
pub struct Team(pub Vec<TeamMember>);

impl Team {
    /// An empty team.
    pub fn new() -> (r: Self)
        ensures
            r.0@.len() == 0,
    {
        Team(Vec::new())
    }
}

impl Clone for Team {
    fn clone(&self) -> (r: Self)
        ensures
            r.0@ == self.0@,
    {
        let mut out: Vec<TeamMember> = Vec::new();
        let mut i: usize = 0;
        while i < self.0.len()
            invariant
                i <= self.0@.len(),
                out@ =~= self.0@.take(i as int),
            decreases self.0@.len() - i,
        {
            out.push(self.0[i].clone());
            i += 1;
        }
        proof {
            assert(self.0@.take(self.0@.len() as int) =~= self.0@);
        }
        Team(out)
    }
}

/// A team member shares its creature's identity through the
/// `(species position, individual position)` reference pair, and adds
/// state of its own: an optional surname and its current hp. Its max hp
/// is always re-read from the Dex.
#[derive(Debug)]
pub struct TeamMember {
    pub surname: Option<String>,
    pub creature_id: (usize, usize),
    pub hp: u8,
}

impl Clone for TeamMember {
    fn clone(&self) -> (r: Self)
        ensures
            r == *self,
    {
        TeamMember {
            surname: match &self.surname {
                Some(s) => Some(s.clone()),
                None => None,
            },
            creature_id: self.creature_id,
            hp: self.hp,
        }
    }
}

impl TeamMember {
    /// A fresh roster entry.
    pub fn new(surname: Option<String>, creature_id: (usize, usize), hp: u8) -> (r: TeamMember)
        ensures
            r.surname == surname,
            r.creature_id == creature_id,
            r.hp == hp,
    {
        TeamMember { surname, creature_id, hp }
    }

    /// The member's display name: its surname if it has one, else the
    /// name of the creature it references.
    pub fn name(&self, dex: &Dex) -> (r: String)
        requires
            self.creature_id.0 < dex.species@.len(),
            self.creature_id.1 < dex.species@[self.creature_id.0 as int].individuals@.len(),
        ensures
            self.surname matches Some(s) ==> r == s,
            self.surname is None ==> r == dex.species@[self.creature_id.0 as int].individuals@[
                self.creature_id.1 as int
            ].name,
    {
        match &self.surname {
            Some(s) => s.clone(),
            None => dex.get_creature(self.creature_id).name.clone(),
        }
    }

    /// The sprite path of the referenced creature.
    pub fn texture_path(&self, dex: &Dex) -> (r: String)
        requires
            self.creature_id.0 < dex.species@.len(),
            self.creature_id.1 < dex.species@[self.creature_id.0 as int].individuals@.len(),
        ensures
            r@ == "assets/"@ + "textures/creatures/"@ + lower_spec(
                dex.species@[self.creature_id.0 as int].individuals@[
                    self.creature_id.1 as int
                ].name@,
            ) + ".gif"@,
    {
        dex.get_creature(self.creature_id).texture_path()
    }

    /// The member's maximum hp: the hp stat of the referenced creature.
    pub fn max_hp(&self, dex: &Dex) -> (r: u8)
        requires
            self.creature_id.0 < dex.species@.len(),
            self.creature_id.1 < dex.species@[self.creature_id.0 as int].individuals@.len(),
        ensures
            r == dex.species@[self.creature_id.0 as int].individuals@[
                self.creature_id.1 as int
            ].stats.hp,
    {
        dex.get_creature(self.creature_id).stats.hp
    }
}

/// What the game persists: the current level, the player's grid
/// coordinates, and the team. The Dex and attack catalog are rebuilt
/// from the bundled data on every load and never saved.
#[derive(Debug)]
pub struct Save {
    pub level: i32,
    pub coords: (i32, i32),
    pub team: Team,
}

impl Save {
    /// Gather what matters into a save record.
    pub fn new(level: i32, coords: (i32, i32), team: Team) -> (r: Save)
        ensures
            r.level == level,
            r.coords == coords,
            r.team == team,
    {
        Save { level, coords, team }
    }
}

} // verus!
