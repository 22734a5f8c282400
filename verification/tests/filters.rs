use pokeclone::attack::Attack;
use pokeclone::attack::Attacks;
use pokeclone::attack::MagicalAttack;
use pokeclone::attack::PhysicalAttack;
use pokeclone::attribute::Attribute;
use pokeclone::dex::Dex;
use pokeclone::element::Element;
use pokeclone::species::Creature;
use pokeclone::species::Species;
use pokeclone::stats::Stats;
use pokeclone::target::Target;

fn physical(name: &str, source: Vec<Attribute>) -> Attack {
    Attack::Physical(PhysicalAttack {
        name: String::from(name),
        source,
        strong_against: None,
        weak_against: None,
        useless_against: None,
        target_type: Target::Enemy,
        damage: Some(10),
    })
}

fn magical(name: &str, element: Element) -> Attack {
    Attack::Magical(MagicalAttack {
        name: String::from(name),
        element,
        damage: Some(12),
    })
}

fn emberfox_species() -> Species {
    let mut sp = Species::new(
        String::from("Emberfox"),
        String::from("8.5"),
        String::from("0.6"),
        vec![Attribute::Paws, Attribute::Tail],
        Stats::from_base(40, 50, 30, 60),
    );
    let individual = Creature::new(
        String::from("Emberfox-1"),
        Element::Fire,
        0,
        &sp.stats,
    );
    sp.individuals = vec![individual];
    sp
}

fn emberfox_dex(catalog: Vec<Attack>) -> Dex {
    Dex {
        species: vec![emberfox_species()],
        attacks: Attacks(catalog),
    }
}

fn names(attacks: &Attacks) -> Vec<String> {
    let mut out = Vec::new();
    for i in 0..attacks.len() {
        out.push(attacks.get(i).name());
    }
    out
}

#[test]
fn emberfox_gets_scratch_then_fireball() {
    let dex = emberfox_dex(vec![
        physical("Scratch", vec![Attribute::Paws]),
        magical("Fireball", Element::Fire),
    ]);
    let creature = dex.get_creature((0, 0)).clone();
    let result = dex.filter_attacks_for_creature(creature);
    assert_eq!(names(&result), vec![String::from("Scratch"), String::from("Fireball")]);
}

#[test]
fn peck_is_not_offered_without_a_beak() {
    let dex = emberfox_dex(vec![
        physical("Scratch", vec![Attribute::Paws]),
        physical("Peck", vec![Attribute::Beak]),
        magical("Fireball", Element::Fire),
    ]);
    let creature = dex.get_creature((0, 0)).clone();
    let result = dex.filter_attacks_for_creature(creature);
    let got = names(&result);
    assert_eq!(got, vec![String::from("Scratch"), String::from("Fireball")]);
    assert!(!got.contains(&String::from("Peck")));
}

#[test]
fn physical_filter_takes_exactly_the_covered_attacks() {
    let sp = emberfox_species();
    let catalog = Attacks(vec![
        physical("Scratch", vec![Attribute::Paws]),
        physical("Tail Whip", vec![Attribute::Tail, Attribute::Paws]),
        physical("Peck", vec![Attribute::Beak]),
        physical("Roar", vec![]),
        magical("Fireball", Element::Fire),
    ]);
    let result = catalog.filter_for_species(&sp);
    assert_eq!(
        names(&result),
        vec![String::from("Scratch"), String::from("Tail Whip"), String::from("Roar")]
    );
}

#[test]
fn element_filter_takes_exactly_the_matching_magic() {
    let catalog = Attacks(vec![
        physical("Scratch", vec![Attribute::Paws]),
        magical("Fireball", Element::Fire),
        magical("Torrent", Element::Water),
        magical("Ember", Element::Fire),
    ]);
    let result = catalog.filter_by_elem(Element::Fire);
    assert_eq!(names(&result), vec![String::from("Fireball"), String::from("Ember")]);
    let none = catalog.filter_by_elem(Element::Earth);
    assert_eq!(none.len(), 0);
}

#[test]
fn a_species_without_attributes_only_gets_sourceless_attacks() {
    let mut sp = Species::new(
        String::from("Blob"),
        String::from("1.0"),
        String::from("0.2"),
        vec![],
        Stats::from_base(10, 10, 10, 10),
    );
    let individual = Creature::new(String::from("Blob-1"), Element::Water, 0, &sp.stats);
    sp.individuals = vec![individual];
    let catalog = Attacks(vec![
        physical("Scratch", vec![Attribute::Paws]),
        physical("Wiggle", vec![]),
    ]);
    let result = catalog.filter_for_species(&sp);
    assert_eq!(names(&result), vec![String::from("Wiggle")]);
}

#[test]
fn filter_union_has_no_duplicates() {
    let dex = emberfox_dex(vec![
        physical("Scratch", vec![Attribute::Paws]),
        physical("Tail Whip", vec![Attribute::Tail]),
        magical("Fireball", Element::Fire),
        magical("Torrent", Element::Water),
    ]);
    let creature = dex.get_creature((0, 0)).clone();
    let result = dex.filter_attacks_for_creature(creature);
    let got = names(&result);
    for i in 0..got.len() {
        for j in 0..got.len() {
            if i != j {
                assert_ne!(got[i], got[j]);
            }
        }
    }
    assert_eq!(got.len(), 3);
}

#[test]
fn accessors_dispatch_over_both_kinds() {
    let p = physical("Scratch", vec![Attribute::Paws]);
    assert_eq!(p.name(), String::from("Scratch"));
    assert_eq!(p.attributes(), vec![Attribute::Paws]);
    assert_eq!(p.element(), None);
    assert_eq!(p.damage(), Some(10));

    let m = magical("Fireball", Element::Fire);
    assert_eq!(m.name(), String::from("Fireball"));
    assert_eq!(m.attributes(), Vec::<Attribute>::new());
    assert_eq!(m.element(), Some(Element::Fire));
    assert_eq!(m.damage(), Some(12));
}

#[test]
fn creature_texture_paths_lowercase_the_name() {
    let sp = emberfox_species();
    let creature = &sp.individuals[0];
    assert_eq!(creature.assets_texture_path(), String::from("textures/creatures/emberfox-1.gif"));
    assert_eq!(creature.texture_path(), String::from("assets/textures/creatures/emberfox-1.gif"));
}

#[test]
fn compute_stats_matches_with_element() {
    let base = Stats::from_base(40, 50, 30, 60);
    let direct = base.with_element(Element::Fire);
    let via_creature = Creature::compute_stats(&Element::Fire, &base);
    assert_eq!(direct, via_creature);
}
