use pokeclone::element::Element;
use pokeclone::stats::Stats;

fn base() -> Stats {
    Stats::from_base(40, 50, 30, 60)
}

#[test]
fn from_base_defaults() {
    let s = base();
    assert_eq!(s.hp, 40);
    assert_eq!(s.attack, 50);
    assert_eq!(s.defense, 30);
    assert_eq!(s.speed, 60);
    assert_eq!(s.dodge, 0);
    assert_eq!(s.accuracy, 100);
}

#[test]
fn fire_overwrites_speed_with_defense_formula() {
    // Fire first boosts speed, then overwrites it with 0.95 * defense:
    // round(30 * 0.95) = round(28.5) = 29.
    let s = base().with_element(Element::Fire);
    assert_eq!(s.speed, 29);
    assert_eq!(s.hp, 40);
    assert_eq!(s.attack, 50);
    assert_eq!(s.defense, 30);
    assert_eq!(s.dodge, 0);
    assert_eq!(s.accuracy, 100);
}

#[test]
fn water_raises_dodge_and_derives_attack() {
    let s = base().with_element(Element::Water);
    assert_eq!(s.dodge, 5);
    // round(30 * 0.95) = 29
    assert_eq!(s.attack, 29);
    assert_eq!(s.defense, 30);
    assert_eq!(s.speed, 60);
}

#[test]
fn air_derives_attack_and_lowers_accuracy() {
    let s = base().with_element(Element::Air);
    // round(60 * 1.05) = 63
    assert_eq!(s.attack, 63);
    assert_eq!(s.accuracy, 95);
    assert_eq!(s.speed, 60);
}

#[test]
fn earth_speed_reads_the_raised_defense() {
    let s = base().with_element(Element::Earth);
    // defense = round(60 * 1.05) = 63, then speed = round(63 * 0.95) = 60
    assert_eq!(s.defense, 63);
    assert_eq!(s.speed, 60);
    assert_eq!(s.attack, 50);
}

#[test]
fn with_element_is_deterministic() {
    for e in [Element::Fire, Element::Water, Element::Air, Element::Earth] {
        let a = base().with_element(e);
        let b = base().with_element(e);
        assert_eq!(a, b);
    }
}

#[test]
fn with_element_never_mutates_the_base() {
    let s = base();
    let _ = s.with_element(Element::Earth);
    assert_eq!(s, base());
}

#[test]
fn dodge_saturates_at_255() {
    let s = Stats {
        hp: 1,
        attack: 1,
        defense: 1,
        speed: 1,
        dodge: 253,
        accuracy: 100,
    };
    let w = s.with_element(Element::Water);
    assert_eq!(w.dodge, 255);
}

#[test]
fn accuracy_saturates_at_zero() {
    let s = Stats {
        hp: 1,
        attack: 1,
        defense: 1,
        speed: 1,
        dodge: 0,
        accuracy: 3,
    };
    let a = s.with_element(Element::Air);
    assert_eq!(a.accuracy, 0);
}

#[test]
fn scaling_up_saturates_at_255() {
    let s = Stats {
        hp: 1,
        attack: 1,
        defense: 1,
        speed: 255,
        dodge: 0,
        accuracy: 100,
    };
    // round(255 * 1.05) = 268, clamped to 255.
    let a = s.with_element(Element::Air);
    assert_eq!(a.attack, 255);
    let e = s.with_element(Element::Earth);
    assert_eq!(e.defense, 255);
}

#[test]
fn all_outputs_stay_in_the_stat_range() {
    // Sample the corners and a sweep of values; every derived field must
    // stay an 8-bit value without panicking on the way.
    let samples: [u8; 6] = [0, 1, 5, 127, 250, 255];
    for &hp in &samples {
        for &attack in &samples {
            for &defense in &samples {
                for &speed in &samples {
                    let s = Stats {
                        hp,
                        attack,
                        defense,
                        speed,
                        dodge: 250,
                        accuracy: 4,
                    };
                    for e in [Element::Fire, Element::Water, Element::Air, Element::Earth] {
                        let out = s.with_element(e);
                        // u8 fields are bounded by type; voice the intent.
                        assert!(out.hp <= 255);
                        assert!(out.attack <= 255);
                        assert!(out.defense <= 255);
                        assert!(out.speed <= 255);
                        assert!(out.dodge <= 255);
                        assert!(out.accuracy <= 255);
                    }
                }
            }
        }
    }
}

#[test]
fn entries_lists_the_four_displayable_stats() {
    let s = base();
    let entries = s.entries();
    assert_eq!(entries.len(), 4);
    assert_eq!(entries[0], (String::from("HP"), 40));
    assert_eq!(entries[1], (String::from("Attack"), 50));
    assert_eq!(entries[2], (String::from("Defense"), 30));
    assert_eq!(entries[3], (String::from("Speed"), 60));
}

#[test]
fn default_stats_are_zero() {
    let s: Stats = Default::default();
    assert_eq!(s, Stats { hp: 0, attack: 0, defense: 0, speed: 0, dodge: 0, accuracy: 0 });
}
