//! The fight state machine: the phases of a battle and the implemented
//! slice of its transition table, plus the wild-encounter roll.

use vstd::prelude::*;
use crate::dex::Dex;
use crate::dex::individuals_of;
use crate::species::Creature;

verus! {

/// The phase a fight is in.
#[derive(Clone, Copy, PartialEq, Eq, Structural, Debug, Hash)]
pub enum FightState {
    /// Setting up the fight.
    Start,
    /// The player chooses whether to attack, use an item, switch, or
    /// flee. The initial phase of a fight.
    MainAction,
    /// The player chooses which of their creatures acts or receives.
    SourceChoice,
    /// The player chooses which attack to use.
    AttackChoice,
    /// The player chooses an item.
    ItemChoice,
    /// The player chooses the target of the attack or item.
    TargetChoice,
    /// The player chooses a replacement creature.
    SwitchChoice,
    /// The selected action happens.
    Action,
    /// The enemy's turn.
    EnemyTurn,
    /// The fight is won.
    Win,
    /// The fight is lost.
    Lose,
}

impl Default for FightState {
    fn default() -> (r: Self)
        ensures
            r == FightState::MainAction,
    {
        FightState::MainAction
    }
}

/// What the player selects in a fight phase.
#[derive(Clone, Copy, PartialEq, Eq, Structural, Debug)]
pub enum FightChoice {
    /// Attack (from the main menu).
    Attack,
    /// Try to tame the opponent.
    Tame,
    /// Open the item menu.
    Items,
    /// Abandon the fight; always succeeds.
    Flee,
    /// Use the attack at this position of the filtered attack list.
    SelectAttack(usize),
}

/// Where a transition leads.
#[derive(Clone, Copy, PartialEq, Eq, Structural, Debug)]
pub enum FightStep {
    /// The fight goes on in this phase.
    Continue(FightState),
    /// The fight is over; control returns to the overworld.
    LeaveFight,
}

/// A transition the game does not resolve yet.
#[derive(Clone, Copy, PartialEq, Eq, Structural, Debug)]
pub enum FightError {
    /// The chosen action has no resolution logic yet: taming, items,
    /// attack resolution, and the remaining choice phases.
    NotYetSupported,
}

/// The implemented slice of the transition table:
/// `MainAction` plus "Attack" enters `AttackChoice`; `MainAction` plus
/// "Flee" leaves the fight unconditionally. Every other pair — taming,
/// items, resolving a selected attack, and the phases with no wired
/// logic — is not yet supported and must say so rather than silently
/// doing nothing.
pub open spec fn fight_step_spec(state: FightState, choice: FightChoice) -> Result<
    FightStep,
    FightError,
> {
    match (state, choice) {
        (FightState::MainAction, FightChoice::Attack) => Ok(
            FightStep::Continue(FightState::AttackChoice),
        ),
        (FightState::MainAction, FightChoice::Flee) => Ok(FightStep::LeaveFight),
        _ => Err(FightError::NotYetSupported),
    }
}

/// Resolve one player choice against the current phase, per the
/// transition table of `fight_step_spec`.
pub fn fight_step(state: FightState, choice: FightChoice) -> (r: Result<FightStep, FightError>)
    ensures
        r == fight_step_spec(state, choice),
{
    match (state, choice) {
        (FightState::MainAction, FightChoice::Attack) => Ok(
            FightStep::Continue(FightState::AttackChoice),
        ),
        (FightState::MainAction, FightChoice::Flee) => Ok(FightStep::LeaveFight),
        _ => Err(FightError::NotYetSupported),
    }
}

/// A running fight: its phase and the opposing wild creature, installed
/// for the duration of the fight when the encounter begins.
#[derive(Debug)]
pub struct Fight {
    pub state: FightState,
    pub opponent: Creature,
}

impl Fight {
    /// Enter a fight against the rolled wild creature. A fight opens in
    /// the `MainAction` phase.
    pub fn begin(opponent: Creature) -> (r: Fight)
        ensures
            r.state == FightState::MainAction,
            r.opponent == opponent,
    {
        Fight { state: FightState::MainAction, opponent }
    }

    /// Feed one player choice to the fight. `Ok(true)` means the fight
    /// goes on in the new phase; `Ok(false)` means the player left the
    /// fight; an unsupported choice changes nothing and says so. The
    /// opponent stays installed throughout.
    pub fn advance(&mut self, choice: FightChoice) -> (r: Result<bool, FightError>)
        ensures
            final(self).opponent == old(self).opponent,
            (match fight_step_spec(old(self).state, choice) {
                Ok(FightStep::Continue(s)) => final(self).state == s && r == Ok::<
                    bool,
                    FightError,
                >(true),
                Ok(FightStep::LeaveFight) => final(self).state == old(self).state && r == Ok::<
                    bool,
                    FightError,
                >(false),
                Err(e) => final(self).state == old(self).state && r == Err::<bool, FightError>(e),
            }),
    {
        match fight_step(self.state, choice) {
            Ok(FightStep::Continue(s)) => {
                self.state = s;
                Ok(true)
            },
            Ok(FightStep::LeaveFight) => Ok(false),
            Err(e) => Err(e),
        }
    }
}

/// Whether a roll starts a wild encounter: the 64 lowest of the 256
/// byte values do, one chance in four.
pub fn encounter_triggered(roll: u8) -> (r: bool)
    ensures
        r == (roll < 64),
{
    roll < 64
}

/// Relies on rand::random: a byte drawn uniformly at random.
#[verifier::external_body]
fn random_u8() -> u8 {
    rand::random()
}

/// Roll for a wild encounter as the player moves through herbs: when
/// the roll succeeds, a uniformly random creature of the Dex comes out.
/// Whatever the roll, an empty Dex yields no encounter.
pub fn maybe_wild_encounter(dex: &Dex) -> (r: Option<Creature>)
    ensures
        r matches Some(c) ==> individuals_of(dex.species@).contains(c),
        individuals_of(dex.species@).len() == 0 ==> r is None,
{
    let roll = random_u8();
    if encounter_triggered(roll) {
        dex.random()
    } else {
        None
    }
}

} // verus!
