use pokeclone::attack::Attacks;
use pokeclone::dex::Dex;
use pokeclone::element::Element;
use pokeclone::species::Creature;
use pokeclone::species::Species;
use pokeclone::stats::Stats;

fn dex_with_four_individuals() -> Dex {
    let mut first = Species::new(
        String::from("Emberfox"),
        String::from("8.5"),
        String::from("0.6"),
        vec![],
        Stats::from_base(40, 50, 30, 60),
    );
    first.individuals = vec![
        Creature::new(String::from("Emberfox-1"), Element::Fire, 0, &first.stats),
        Creature::new(String::from("Emberfox-2"), Element::Air, 0, &first.stats),
    ];
    let mut second = Species::new(
        String::from("Gullwing"),
        String::from("2.0"),
        String::from("0.4"),
        vec![],
        Stats::from_base(35, 40, 25, 70),
    );
    second.individuals = vec![
        Creature::new(String::from("Gullwing-1"), Element::Water, 1, &second.stats),
        Creature::new(String::from("Gullwing-2"), Element::Earth, 1, &second.stats),
    ];
    Dex { species: vec![first, second], attacks: Attacks(Vec::new()) }
}

#[test]
fn random_returns_none_only_on_an_empty_dex() {
    let empty = Dex { species: Vec::new(), attacks: Attacks(Vec::new()) };
    assert!(empty.random().is_none());
    let dex = dex_with_four_individuals();
    assert!(dex.random().is_some());
}

#[test]
fn random_draws_every_individual_about_equally_often() {
    let dex = dex_with_four_individuals();
    let names = [
        String::from("Emberfox-1"),
        String::from("Emberfox-2"),
        String::from("Gullwing-1"),
        String::from("Gullwing-2"),
    ];
    let mut counts = [0u32; 4];
    let draws = 100_000u32;
    for _ in 0..draws {
        let c = dex.random().expect("the dex holds individuals");
        let idx = names
            .iter()
            .position(|n| *n == c.name)
            .expect("every draw is one of the four individuals");
        counts[idx] += 1;
    }
    // Each frequency should be near 1/4. With n = 100000 and p = 1/4 the
    // standard deviation is about 137, so a band of plus or minus 1000
    // (about 7 sigma) practically never fails on a uniform draw.
    for &count in &counts {
        assert!(count > 24_000, "frequency too low: {count}");
        assert!(count < 26_000, "frequency too high: {count}");
    }
}
