use pokeclone::attack::Attacks;
use pokeclone::dex::Dex;
use pokeclone::element::Element;
use pokeclone::fight::Fight;
use pokeclone::fight::FightChoice;
use pokeclone::fight::FightError;
use pokeclone::fight::FightState;
use pokeclone::fight::FightStep;
use pokeclone::fight::encounter_triggered;
use pokeclone::fight::fight_step;
use pokeclone::fight::maybe_wild_encounter;
use pokeclone::species::Creature;
use pokeclone::stats::Stats;

fn wild() -> Creature {
    Creature::new(
        String::from("Emberfox-1"),
        Element::Fire,
        0,
        &Stats::from_base(40, 50, 30, 60),
    )
}

#[test]
fn main_action_attack_enters_attack_choice() {
    assert_eq!(
        fight_step(FightState::MainAction, FightChoice::Attack),
        Ok(FightStep::Continue(FightState::AttackChoice))
    );
}

#[test]
fn main_action_flee_leaves_the_fight() {
    assert_eq!(
        fight_step(FightState::MainAction, FightChoice::Flee),
        Ok(FightStep::LeaveFight)
    );
}

#[test]
fn unresolved_transitions_say_not_yet_supported() {
    assert_eq!(
        fight_step(FightState::MainAction, FightChoice::Tame),
        Err(FightError::NotYetSupported)
    );
    assert_eq!(
        fight_step(FightState::MainAction, FightChoice::Items),
        Err(FightError::NotYetSupported)
    );
    assert_eq!(
        fight_step(FightState::AttackChoice, FightChoice::SelectAttack(0)),
        Err(FightError::NotYetSupported)
    );
    assert_eq!(
        fight_step(FightState::ItemChoice, FightChoice::Attack),
        Err(FightError::NotYetSupported)
    );
    assert_eq!(
        fight_step(FightState::Win, FightChoice::Flee),
        Err(FightError::NotYetSupported)
    );
}

#[test]
fn a_fight_opens_in_main_action_with_the_wild_creature_installed() {
    let fight = Fight::begin(wild());
    assert_eq!(fight.state, FightState::MainAction);
    assert_eq!(fight.opponent.name, String::from("Emberfox-1"));
    assert_eq!(fight.opponent.element, Element::Fire);
}

#[test]
fn advancing_a_fight_follows_the_table() {
    let mut fight = Fight::begin(wild());
    assert_eq!(fight.advance(FightChoice::Attack), Ok(true));
    assert_eq!(fight.state, FightState::AttackChoice);
    // Selecting an attack is not resolved yet; the phase must not move.
    assert_eq!(fight.advance(FightChoice::SelectAttack(0)), Err(FightError::NotYetSupported));
    assert_eq!(fight.state, FightState::AttackChoice);
    assert_eq!(fight.opponent.name, String::from("Emberfox-1"));
}

#[test]
fn fleeing_ends_the_fight_unconditionally() {
    let mut fight = Fight::begin(wild());
    assert_eq!(fight.advance(FightChoice::Flee), Ok(false));
}

#[test]
fn the_default_fight_state_is_main_action() {
    let s: FightState = Default::default();
    assert_eq!(s, FightState::MainAction);
}

#[test]
fn encounter_roll_threshold_is_64() {
    assert!(encounter_triggered(0));
    assert!(encounter_triggered(63));
    assert!(!encounter_triggered(64));
    assert!(!encounter_triggered(255));
    let below = (0u16..256).filter(|&r| encounter_triggered(r as u8)).count();
    assert_eq!(below, 64);
}

#[test]
fn an_empty_dex_never_yields_an_encounter() {
    let dex = Dex { species: Vec::new(), attacks: Attacks(Vec::new()) };
    for _ in 0..200 {
        assert!(maybe_wild_encounter(&dex).is_none());
    }
}
