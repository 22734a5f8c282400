use pokeclone::dex::Dex;
use pokeclone::dex::LoadError;
use pokeclone::element::Element;
use pokeclone::attribute::Attribute;

const SPECIES_JSON: &str = r#"{
    "species": [
        {
            "name": "Emberfox",
            "mass_kg": 8.5,
            "height_m": 0.6,
            "attributes": ["Paws", "Tail"],
            "stats": {"hp": 40, "attack": 50, "defense": 30, "speed": 60},
            "individuals": [
                {"name": "Emberfox-1", "element": "Fire"}
            ]
        },
        {
            "name": "Gullwing",
            "mass_kg": 2.0,
            "height_m": 0.4,
            "attributes": ["wings", "BEAK", "Eyes"],
            "stats": {"hp": 35, "attack": 40, "defense": 25, "speed": 70},
            "individuals": [
                {"name": "Gullwing-1", "element": "air"},
                {"name": "Gullwing-2", "element": "Water"}
            ]
        }
    ]
}"#;

const ATTACKS_JSON: &str = r#"{
    "physical_attacks": [
        {"name": "Scratch", "source": ["Paws"], "target": "enemy", "damage": 10},
        {"name": "Peck", "source": ["Beak"], "target": "Enemy"}
    ],
    "magical_attacks": [
        {"name": "Fireball", "element": "Fire", "damage": 12},
        {"name": "Gust", "element": "Air"}
    ]
}"#;

fn load() -> Dex {
    match Dex::from_json(SPECIES_JSON, ATTACKS_JSON) {
        Ok(dex) => dex,
        Err(e) => panic!("catalog should load: {}", e.message()),
    }
}

#[test]
fn loads_species_in_document_order() {
    let dex = load();
    assert_eq!(dex.species.len(), 2);
    assert_eq!(dex.species[0].name, String::from("Emberfox"));
    assert_eq!(dex.species[1].name, String::from("Gullwing"));
    assert_eq!(dex.species[0].individuals.len(), 1);
    assert_eq!(dex.species[1].individuals.len(), 2);
}

#[test]
fn species_ids_follow_load_order() {
    let dex = load();
    for (i, sp) in dex.species.iter().enumerate() {
        for creature in &sp.individuals {
            assert_eq!(creature.species_id, i);
        }
    }
}

#[test]
fn get_creature_round_trips() {
    let dex = load();
    let c = dex.get_creature((1, 1));
    assert_eq!(c.name, String::from("Gullwing-2"));
    assert_eq!(c.element, Element::Water);
    assert_eq!(c.species_id, 1);
}

#[test]
fn creature_stats_are_derived_from_the_species_base() {
    let dex = load();
    let expected = dex.species[0].stats.with_element(Element::Fire);
    assert_eq!(dex.species[0].individuals[0].stats, expected);
    // Emberfox-1 is Fire: speed = round(30 * 0.95) = 29.
    assert_eq!(dex.species[0].individuals[0].stats.speed, 29);
}

#[test]
fn attribute_tokens_parse_case_insensitively() {
    let dex = load();
    assert_eq!(
        dex.species[1].attributes,
        vec![Attribute::Wings, Attribute::Beak, Attribute::Eyes]
    );
}

#[test]
fn measurements_keep_their_decimal_text() {
    let dex = load();
    assert_eq!(dex.species[0].mass, String::from("8.5"));
    assert_eq!(dex.species[0].height, String::from("0.6"));
}

#[test]
fn catalog_keeps_physical_attacks_before_magical_ones() {
    let dex = load();
    assert_eq!(dex.attacks.len(), 4);
    assert_eq!(dex.attacks.get(0).name(), String::from("Scratch"));
    assert_eq!(dex.attacks.get(1).name(), String::from("Peck"));
    assert_eq!(dex.attacks.get(2).name(), String::from("Fireball"));
    assert_eq!(dex.attacks.get(3).name(), String::from("Gust"));
    assert_eq!(dex.attacks.get(1).damage(), None);
    assert_eq!(dex.attacks.get(3).element(), Some(Element::Air));
}

#[test]
fn individuals_flatten_in_species_order() {
    let dex = load();
    let all = dex.individuals();
    let names: Vec<String> = all.iter().map(|c| c.name.clone()).collect();
    assert_eq!(
        names,
        vec![
            String::from("Emberfox-1"),
            String::from("Gullwing-1"),
            String::from("Gullwing-2")
        ]
    );
}

#[test]
fn try_get_creature_rejects_bad_references() {
    let dex = load();
    assert!(dex.try_get_creature((0, 0)).is_some());
    assert!(dex.try_get_creature((0, 1)).is_none());
    assert!(dex.try_get_creature((2, 0)).is_none());
}

#[test]
fn malformed_json_is_a_syntax_error() {
    let r = Dex::from_json("{not json", ATTACKS_JSON);
    match r {
        Err(LoadError::Syntax(_)) => {}
        _ => panic!("expected a syntax error"),
    }
}

#[test]
fn a_missing_required_field_names_the_key() {
    let r = Dex::from_json(r#"{"species": [{"name": "X"}]}"#, ATTACKS_JSON);
    match r {
        Err(LoadError::Missing(key)) => assert_eq!(key, String::from("mass_kg")),
        _ => panic!("expected a missing-field error"),
    }
    let r2 = Dex::from_json(r#"{}"#, ATTACKS_JSON);
    match r2 {
        Err(LoadError::Missing(key)) => assert_eq!(key, String::from("species")),
        _ => panic!("expected a missing-field error"),
    }
}

#[test]
fn a_wrongly_typed_field_names_the_key() {
    let r = Dex::from_json(r#"{"species": 5}"#, ATTACKS_JSON);
    match r {
        Err(LoadError::WrongType(key)) => assert_eq!(key, String::from("species")),
        _ => panic!("expected a wrong-type error"),
    }
}

#[test]
fn an_unknown_token_is_named() {
    let bad = r#"{
        "species": [
            {
                "name": "X",
                "mass_kg": 1,
                "height_m": 1,
                "attributes": ["horns"],
                "stats": {"hp": 1, "attack": 1, "defense": 1, "speed": 1},
                "individuals": []
            }
        ]
    }"#;
    match Dex::from_json(bad, ATTACKS_JSON) {
        Err(LoadError::UnknownToken(token)) => assert_eq!(token, String::from("horns")),
        _ => panic!("expected an unknown-token error"),
    }
    let bad_element = r#"{
        "species": [
            {
                "name": "X",
                "mass_kg": 1,
                "height_m": 1,
                "attributes": [],
                "stats": {"hp": 1, "attack": 1, "defense": 1, "speed": 1},
                "individuals": [{"name": "X-1", "element": "plasma"}]
            }
        ]
    }"#;
    match Dex::from_json(bad_element, ATTACKS_JSON) {
        Err(LoadError::UnknownToken(token)) => assert_eq!(token, String::from("plasma")),
        _ => panic!("expected an unknown-token error"),
    }
}

#[test]
fn a_bad_attacks_document_fails_the_load() {
    let r = Dex::from_json(SPECIES_JSON, r#"{"physical_attacks": []}"#);
    match r {
        Err(LoadError::Missing(key)) => assert_eq!(key, String::from("magical_attacks")),
        _ => panic!("expected a missing-field error"),
    }
    let bad_target = r#"{
        "physical_attacks": [
            {"name": "Scratch", "source": ["Paws"], "target": "everyone"}
        ],
        "magical_attacks": []
    }"#;
    match Dex::from_json(SPECIES_JSON, bad_target) {
        Err(LoadError::UnknownToken(token)) => assert_eq!(token, String::from("everyone")),
        _ => panic!("expected an unknown-token error"),
    }
}

#[test]
fn error_messages_name_the_offender() {
    let e = match Dex::from_json(r#"{}"#, ATTACKS_JSON) {
        Err(e) => e,
        Ok(_) => panic!("load should fail"),
    };
    assert_eq!(e.message(), String::from("missing required field: species"));
}

#[test]
fn extra_unknown_fields_are_tolerated() {
    let extra = r#"{
        "species": [
            {
                "name": "X",
                "color": "red",
                "mass_kg": 1,
                "height_m": 1,
                "attributes": [],
                "stats": {"hp": 7, "attack": 1, "defense": 1, "speed": 1, "luck": 3},
                "individuals": [{"name": "X-1", "element": "Earth", "mood": "calm"}]
            }
        ]
    }"#;
    let dex = Dex::from_json(extra, ATTACKS_JSON).expect("unknown fields are ignored");
    assert_eq!(dex.species[0].stats.hp, 7);
    assert_eq!(dex.species[0].individuals[0].element, Element::Earth);
}

#[test]
fn a_fractional_stat_is_a_wrong_type() {
    let frac = r#"{
        "species": [
            {
                "name": "X",
                "mass_kg": 1,
                "height_m": 1,
                "attributes": [],
                "stats": {"hp": 1.5, "attack": 1, "defense": 1, "speed": 1},
                "individuals": []
            }
        ]
    }"#;
    match Dex::from_json(frac, ATTACKS_JSON) {
        Err(LoadError::WrongType(key)) => assert_eq!(key, String::from("hp")),
        _ => panic!("expected a wrong-type error"),
    }
}

#[test]
fn oversized_stat_integers_keep_their_low_byte() {
    let big = r#"{
        "species": [
            {
                "name": "X",
                "mass_kg": 1,
                "height_m": 1,
                "attributes": [],
                "stats": {"hp": 300, "attack": 256, "defense": 1, "speed": 2},
                "individuals": []
            }
        ]
    }"#;
    let dex = Dex::from_json(big, ATTACKS_JSON).expect("the catalog should load");
    assert_eq!(dex.species[0].stats.hp, 44);
    assert_eq!(dex.species[0].stats.attack, 0);
    assert_eq!(dex.species[0].stats.defense, 1);
}

#[test]
fn filtering_works_on_a_loaded_dex() {
    let dex = load();
    // Gullwing-1 (Air): Peck (has Beak), plus Gust (Air).
    let creature = dex.get_creature((1, 0)).clone();
    let result = dex.filter_attacks_for_creature(creature);
    assert_eq!(result.len(), 2);
    assert_eq!(result.get(0).name(), String::from("Peck"));
    assert_eq!(result.get(1).name(), String::from("Gust"));
}
