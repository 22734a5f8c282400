use pokeclone::attack::Attacks;
use pokeclone::dex::Dex;
use pokeclone::element::Element;
use pokeclone::species::Creature;
use pokeclone::species::Species;
use pokeclone::stats::Stats;
use pokeclone::team::Save;
use pokeclone::team::Team;
use pokeclone::team::TeamMember;

fn small_dex() -> Dex {
    let mut sp = Species::new(
        String::from("Emberfox"),
        String::from("8.5"),
        String::from("0.6"),
        vec![],
        Stats::from_base(40, 50, 30, 60),
    );
    sp.individuals = vec![Creature::new(
        String::from("Emberfox-1"),
        Element::Fire,
        0,
        &sp.stats,
    )];
    Dex { species: vec![sp], attacks: Attacks(Vec::new()) }
}

#[test]
fn a_new_team_is_empty() {
    let team = Team::new();
    assert_eq!(team.0.len(), 0);
}

#[test]
fn a_member_without_a_surname_shows_the_creature_name() {
    let dex = small_dex();
    let member = TeamMember::new(None, (0, 0), 40);
    assert_eq!(member.name(&dex), String::from("Emberfox-1"));
}

#[test]
fn a_surname_overrides_the_creature_name() {
    let dex = small_dex();
    let member = TeamMember::new(Some(String::from("Flash")), (0, 0), 40);
    assert_eq!(member.name(&dex), String::from("Flash"));
}

#[test]
fn max_hp_rereads_the_dex() {
    let dex = small_dex();
    let member = TeamMember::new(None, (0, 0), 12);
    assert_eq!(member.hp, 12);
    assert_eq!(member.max_hp(&dex), 40);
}

#[test]
fn member_texture_path_follows_the_creature() {
    let dex = small_dex();
    let member = TeamMember::new(None, (0, 0), 40);
    assert_eq!(
        member.texture_path(&dex),
        String::from("assets/textures/creatures/emberfox-1.gif")
    );
}

#[test]
fn cloning_a_team_keeps_the_members() {
    let mut team = Team::new();
    team.0.push(TeamMember::new(Some(String::from("Flash")), (0, 0), 31));
    let copy = team.clone();
    assert_eq!(copy.0.len(), 1);
    assert_eq!(copy.0[0].surname, Some(String::from("Flash")));
    assert_eq!(copy.0[0].creature_id, (0, 0));
    assert_eq!(copy.0[0].hp, 31);
}

#[test]
fn a_save_gathers_level_coords_and_team() {
    let mut team = Team::new();
    team.0.push(TeamMember::new(None, (0, 0), 40));
    let save = Save::new(3, (7, -2), team);
    assert_eq!(save.level, 3);
    assert_eq!(save.coords, (7, -2));
    assert_eq!(save.team.0.len(), 1);
}
