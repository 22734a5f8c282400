//! The Dex: the catalog of every species, their creature individuals and
//! every attack, loaded once from two JSON documents and read-only
//! afterwards. The loader's contracts are stated against the parsed
//! documents themselves: what a well-formed document is, and that the
//! loaded catalog carries exactly its entries, in order.

use vstd::prelude::*;
use vstd::pervasive::arbitrary;
use vstd::string::StringExecFns;
use crate::attack::Attack;
use crate::attack::Attacks;
use crate::attack::AttackView;
use crate::attack::MagicalAttack;
use crate::attack::PhysicalAttack;
use crate::attack::magic_pred;
use crate::attack::phys_pred;
use crate::attack::views_of;
use crate::attribute::Attribute;
use crate::element::Element;
use crate::element::element_from_name_spec;
use crate::attribute::attribute_from_name_spec;
use crate::target::Target;
use crate::target::target_from_name_spec;
use crate::json::JsonValue;
use crate::json::JsonView;
use crate::json::elems_view;
use crate::json::json_doc_spec;
use crate::json::json_error_message;
use crate::json::json_parse;
use crate::json::lemma_elems_view_index;
use crate::json::lemma_elems_view_len;
use crate::species::Creature;
use crate::species::Species;
use crate::stats::Stats;
use crate::stats::with_element_spec;
use crate::team::TeamMember;

verus! {

/// Why loading a catalog document failed. Load-time data errors are
/// fatal: the caller is expected to stop, not to recover.
#[derive(Debug)]
pub enum LoadError {
    /// The document is not well-formed JSON; carries the parser's
    /// message.
    Syntax(String),
    /// A required field is absent; carries the field's key.
    Missing(String),
    /// A field holds the wrong kind of JSON value; carries the field's
    /// key.
    WrongType(String),
    /// An element, attribute or target token is not in its vocabulary;
    /// carries the offending token.
    UnknownToken(String),
}

impl LoadError {
    /// The message text of the error.
    pub open spec fn spec_message(&self) -> Seq<char> {
        match self {
            LoadError::Syntax(m) => "malformed JSON: "@ + m@,
            LoadError::Missing(k) => "missing required field: "@ + k@,
            LoadError::WrongType(k) => "field has the wrong type: "@ + k@,
            LoadError::UnknownToken(t) => "unknown token: "@ + t@,
        }
    }

    /// A human-readable description naming the offending key or token.
    pub fn message(&self) -> (r: String)
        ensures
            r@ == self.spec_message(),
    {
        match self {
            LoadError::Syntax(m) => {
                let mut s = String::from_str("malformed JSON: ");
                s.append(m.as_str());
                s
            },
            LoadError::Missing(k) => {
                let mut s = String::from_str("missing required field: ");
                s.append(k.as_str());
                s
            },
            LoadError::WrongType(k) => {
                let mut s = String::from_str("field has the wrong type: ");
                s.append(k.as_str());
                s
            },
            LoadError::UnknownToken(t) => {
                let mut s = String::from_str("unknown token: ");
                s.append(t.as_str());
                s
            },
        }
    }
}

// ---------------------------------------------------------------------
// The schema of the two catalog documents, over the JSON model.
// ---------------------------------------------------------------------

/// The string under `key` of an object.
pub open spec fn str_field(v: JsonView, key: Seq<char>) -> Option<Seq<char>> {
    match v.get(key) {
        Some(JsonView::Str(s)) => Some(s),
        _ => None,
    }
}

/// The decimal text of the number under `key` of an object.
pub open spec fn num_text_field(v: JsonView, key: Seq<char>) -> Option<Seq<char>> {
    match v.get(key) {
        Some(JsonView::Num { integer: _, text }) => Some(text),
        _ => None,
    }
}

/// The integer under `key` of an object, where the number there has a
/// 64-bit value.
pub open spec fn int_field(v: JsonView, key: Seq<char>) -> Option<u64> {
    match v.get(key) {
        Some(JsonView::Num { integer: Some(n), text: _ }) => Some(n),
        _ => None,
    }
}

/// The elements of the array under `key` of an object.
pub open spec fn arr_field(v: JsonView, key: Seq<char>) -> Option<Seq<JsonView>> {
    match v.get(key) {
        Some(JsonView::Arr(items)) => Some(items),
        _ => None,
    }
}

/// The low byte of a stat integer: how the catalog reads 8-bit stats.
pub open spec fn byte_of(n: u64) -> u8 {
    (n % 256) as u8
}

/// An element token stands under `key`.
pub open spec fn element_field_ok(v: JsonView, key: Seq<char>) -> bool {
    match str_field(v, key) {
        Some(t) => element_from_name_spec(t) is Some,
        None => false,
    }
}

/// One attribute-list item: a string naming an attribute.
pub open spec fn attr_item_ok(x: JsonView) -> bool {
    match x {
        JsonView::Str(s) => attribute_from_name_spec(s) is Some,
        _ => false,
    }
}

/// The attribute an attribute-list item names.
pub open spec fn attr_of_item(x: JsonView) -> Attribute {
    match x {
        JsonView::Str(s) => attribute_from_name_spec(s).unwrap(),
        _ => arbitrary(),
    }
}

/// Every item of an attribute list names an attribute.
pub open spec fn attr_items_ok(items: Seq<JsonView>) -> bool {
    forall|i: int| 0 <= i < items.len() ==> #[trigger] attr_item_ok(items[i])
}

/// The array under `key` is an attribute list.
pub open spec fn attr_list_ok(v: JsonView, key: Seq<char>) -> bool {
    match arr_field(v, key) {
        Some(items) => attr_items_ok(items),
        None => false,
    }
}

/// The attributes an attribute list names, in order.
pub open spec fn attrs_of(items: Seq<JsonView>) -> Seq<Attribute> {
    Seq::new(items.len(), |i: int| attr_of_item(items[i]))
}

/// The optional "damage" field is absent or an integer.
pub open spec fn damage_ok(v: JsonView) -> bool {
    match v.get("damage"@) {
        None => true,
        Some(JsonView::Num { integer: Some(_), text: _ }) => true,
        Some(_) => false,
    }
}

/// The flat damage an attack entry carries, if any.
pub open spec fn damage_of(v: JsonView) -> Option<u8> {
    match v.get("damage"@) {
        Some(JsonView::Num { integer: Some(n), text: _ }) => Some(byte_of(n)),
        _ => None,
    }
}

/// The "stats" object holds the four 8-bit combat fields.
pub open spec fn stats_ok(v: JsonView) -> bool {
    match v.get("stats"@) {
        Some(s) => int_field(s, "hp"@) is Some && int_field(s, "attack"@) is Some && int_field(
            s,
            "defense"@,
        ) is Some && int_field(s, "speed"@) is Some,
        None => false,
    }
}

/// The base stats a species entry carries: the four combat fields, with
/// dodge and accuracy at their defaults.
pub open spec fn stats_of(v: JsonView) -> Stats {
    let s = v.get("stats"@).unwrap();
    Stats {
        hp: byte_of(int_field(s, "hp"@).unwrap()),
        attack: byte_of(int_field(s, "attack"@).unwrap()),
        defense: byte_of(int_field(s, "defense"@).unwrap()),
        speed: byte_of(int_field(s, "speed"@).unwrap()),
        dodge: 0,
        accuracy: 100,
    }
}

/// One individual entry: a name and an element token.
pub open spec fn creature_ok(v: JsonView) -> bool {
    str_field(v, "name"@) is Some && element_field_ok(v, "element"@)
}

/// The creature loaded from one individual entry of species `idx` with
/// base stats `base`: the entry's name and element, the species'
/// position, and stats derived from the base stats by the element.
pub open spec fn creature_rel(c: Creature, v: JsonView, idx: int, base: Stats) -> bool {
    &&& Some(c.name@) == str_field(v, "name"@)
    &&& Some(c.element) == element_from_name_spec(str_field(v, "element"@).unwrap())
    &&& c.species_id as int == idx
    &&& c.stats == with_element_spec(base, c.element)
}

/// A species entry, its individuals aside: name, the two measurements,
/// an attribute list, and the stats object.
pub open spec fn species_head_ok(v: JsonView) -> bool {
    &&& str_field(v, "name"@) is Some
    &&& num_text_field(v, "mass_kg"@) is Some
    &&& num_text_field(v, "height_m"@) is Some
    &&& attr_list_ok(v, "attributes"@)
    &&& stats_ok(v)
}

/// The species fields loaded from one entry, its individuals aside.
pub open spec fn species_head_rel(sp: Species, v: JsonView) -> bool {
    &&& Some(sp.name@) == str_field(v, "name"@)
    &&& Some(sp.mass@) == num_text_field(v, "mass_kg"@)
    &&& Some(sp.height@) == num_text_field(v, "height_m"@)
    &&& sp.attributes@ == attrs_of(arr_field(v, "attributes"@).unwrap())
    &&& sp.stats == stats_of(v)
}

/// A whole species entry, its individuals array included.
pub open spec fn species_ok(v: JsonView) -> bool {
    &&& species_head_ok(v)
    &&& (match arr_field(v, "individuals"@) {
        Some(inds) => forall|j: int| 0 <= j < inds.len() ==> creature_ok(#[trigger] inds[j]),
        None => false,
    })
}

/// The species loaded from the entry at position `idx`: its fields and
/// every individual of the entry, in order.
pub open spec fn species_rel(sp: Species, v: JsonView, idx: int) -> bool {
    &&& species_head_rel(sp, v)
    &&& {
        let inds = arr_field(v, "individuals"@).unwrap();
        &&& sp.individuals@.len() == inds.len()
        &&& forall|j: int|
            0 <= j < inds.len() ==> creature_rel(
                #[trigger] sp.individuals@[j],
                inds[j],
                idx,
                stats_of(v),
            )
    }
}

/// One physical-attack entry: name, a source attribute list, a target
/// token, and optional damage.
pub open spec fn physical_ok(v: JsonView) -> bool {
    &&& str_field(v, "name"@) is Some
    &&& attr_list_ok(v, "source"@)
    &&& (match str_field(v, "target"@) {
        Some(t) => target_from_name_spec(t) is Some,
        None => false,
    })
    &&& damage_ok(v)
}

/// The physical attack loaded from one entry: its fields exactly, the
/// reserved against-lists left empty.
pub open spec fn physical_rel(p: PhysicalAttack, v: JsonView) -> bool {
    &&& Some(p.name@) == str_field(v, "name"@)
    &&& p.source@ == attrs_of(arr_field(v, "source"@).unwrap())
    &&& Some(p.target_type) == target_from_name_spec(str_field(v, "target"@).unwrap())
    &&& p.damage == damage_of(v)
    &&& p.strong_against is None
    &&& p.weak_against is None
    &&& p.useless_against is None
}

/// One magical-attack entry: name, an element token, and optional
/// damage.
pub open spec fn magical_ok(v: JsonView) -> bool {
    str_field(v, "name"@) is Some && element_field_ok(v, "element"@) && damage_ok(v)
}

/// The magical attack loaded from one entry.
pub open spec fn magical_rel(m: MagicalAttack, v: JsonView) -> bool {
    &&& Some(m.name@) == str_field(v, "name"@)
    &&& Some(m.element) == element_from_name_spec(str_field(v, "element"@).unwrap())
    &&& m.damage == damage_of(v)
}

/// A well-formed species document: an object whose "species" array
/// holds whole species entries.
pub open spec fn species_doc_ok(d: JsonView) -> bool {
    match arr_field(d, "species"@) {
        Some(entries) => forall|i: int| 0 <= i < entries.len() ==> species_ok(#[trigger] entries[i]),
        None => false,
    }
}

/// The species list loaded from a well-formed species document: one
/// species per entry, in document order.
pub open spec fn species_list_rel(list: Seq<Species>, d: JsonView) -> bool {
    let entries = arr_field(d, "species"@).unwrap();
    &&& list.len() == entries.len()
    &&& forall|i: int| 0 <= i < entries.len() ==> species_rel(#[trigger] list[i], entries[i], i)
}

/// A well-formed attacks document: an object whose "physical_attacks"
/// and "magical_attacks" arrays hold attack entries.
pub open spec fn attacks_doc_ok(d: JsonView) -> bool {
    &&& (match arr_field(d, "physical_attacks"@) {
        Some(pl) => forall|i: int| 0 <= i < pl.len() ==> physical_ok(#[trigger] pl[i]),
        None => false,
    })
    &&& (match arr_field(d, "magical_attacks"@) {
        Some(ml) => forall|i: int| 0 <= i < ml.len() ==> magical_ok(#[trigger] ml[i]),
        None => false,
    })
}

/// The attack catalog loaded from a well-formed attacks document: each
/// physical entry in document order, then each magical entry in
/// document order.
pub open spec fn attack_list_rel(s: Seq<Attack>, d: JsonView) -> bool {
    let pl = arr_field(d, "physical_attacks"@).unwrap();
    let ml = arr_field(d, "magical_attacks"@).unwrap();
    &&& s.len() == pl.len() + ml.len()
    &&& forall|i: int|
        0 <= i < pl.len() ==> ((#[trigger] s[i]) matches Attack::Physical(p) && physical_rel(
            p,
            pl[i],
        ))
    &&& forall|i: int|
        pl.len() <= i < s.len() ==> ((#[trigger] s[i]) matches Attack::Magical(m) && magical_rel(
            m,
            ml[i - pl.len()],
        ))
}

/// Both catalog documents are well-formed.
pub open spec fn catalog_ok(ds: JsonView, da: JsonView) -> bool {
    species_doc_ok(ds) && attacks_doc_ok(da)
}

/// The Dex loaded from the two documents: its species list and its
/// attack catalog carry exactly the documents' entries, in order.
pub open spec fn catalog_rel(dex: Dex, ds: JsonView, da: JsonView) -> bool {
    species_list_rel(dex.species@, ds) && attack_list_rel(dex.attacks.0@, da)
}

// ---------------------------------------------------------------------
// The loader.
// ---------------------------------------------------------------------

/// An 8-bit stat read as the original reads it: the low byte of the
/// JSON integer.
fn truncate_u8(x: u64) -> (r: u8)
    ensures
        r == byte_of(x),
{
    (x % 256) as u8
}

/// The string under `key`, or the error naming the key.
fn get_string(v: &JsonValue, key: &str) -> (r: Result<String, LoadError>)
    ensures
        r is Ok <==> str_field(v@, key@) is Some,
        r matches Ok(s) ==> Some(s@) == str_field(v@, key@),
{
    match v.get(key) {
        None => Err(LoadError::Missing(key.to_owned())),
        Some(x) => match x.as_str() {
            None => Err(LoadError::WrongType(key.to_owned())),
            Some(s) => Ok(s.to_owned()),
        },
    }
}

/// The decimal text of the number under `key`, or the error naming the
/// key.
fn get_number_text(v: &JsonValue, key: &str) -> (r: Result<String, LoadError>)
    ensures
        r is Ok <==> num_text_field(v@, key@) is Some,
        r matches Ok(t) ==> Some(t@) == num_text_field(v@, key@),
{
    match v.get(key) {
        None => Err(LoadError::Missing(key.to_owned())),
        Some(x) => match x.number_text() {
            None => Err(LoadError::WrongType(key.to_owned())),
            Some(t) => Ok(t),
        },
    }
}

/// The 8-bit integer under `key`, or the error naming the key.
fn get_u8(v: &JsonValue, key: &str) -> (r: Result<u8, LoadError>)
    ensures
        r is Ok <==> int_field(v@, key@) is Some,
        r matches Ok(x) ==> int_field(v@, key@) matches Some(n) && x == byte_of(n),
{
    match v.get(key) {
        None => Err(LoadError::Missing(key.to_owned())),
        Some(x) => match x.as_u64() {
            None => Err(LoadError::WrongType(key.to_owned())),
            Some(n) => Ok(truncate_u8(n)),
        },
    }
}

/// The optional flat damage of an attack: absent is fine, present but
/// not an integer is an error.
fn get_damage(v: &JsonValue) -> (r: Result<Option<u8>, LoadError>)
    ensures
        r is Ok <==> damage_ok(v@),
        r matches Ok(d) ==> d == damage_of(v@),
{
    match v.get("damage") {
        None => Ok(None),
        Some(x) => match x.as_u64() {
            None => Err(LoadError::WrongType("damage".to_owned())),
            Some(n) => Ok(Some(truncate_u8(n))),
        },
    }
}

/// The base stats of a species entry.
fn parse_stats(v: &JsonValue) -> (r: Result<Stats, LoadError>)
    ensures
        r is Ok <==> stats_ok(v@),
        r matches Ok(s) ==> s == stats_of(v@),
{
    let stats_val = match v.get("stats") {
        None => {
            return Err(LoadError::Missing("stats".to_owned()));
        },
        Some(x) => x,
    };
    let hp = match get_u8(stats_val, "hp") {
        Ok(x) => x,
        Err(e) => {
            return Err(e);
        },
    };
    let attack = match get_u8(stats_val, "attack") {
        Ok(x) => x,
        Err(e) => {
            return Err(e);
        },
    };
    let defense = match get_u8(stats_val, "defense") {
        Ok(x) => x,
        Err(e) => {
            return Err(e);
        },
    };
    let speed = match get_u8(stats_val, "speed") {
        Ok(x) => x,
        Err(e) => {
            return Err(e);
        },
    };
    Ok(Stats::from_base(hp, attack, defense, speed))
}

/// The attribute list under `key`: each token parsed
/// case-insensitively, an unknown token named in the error.
#[verifier::loop_isolation(false)]
fn parse_attribute_list(v: &JsonValue, key: &str) -> (r: Result<Vec<Attribute>, LoadError>)
    ensures
        r is Ok <==> attr_list_ok(v@, key@),
        r matches Ok(out) ==> out@ == attrs_of(arr_field(v@, key@).unwrap()),
{
    let arr_val = match v.get(key) {
        None => {
            return Err(LoadError::Missing(key.to_owned()));
        },
        Some(x) => x,
    };
    let arr = match arr_val.as_array() {
        None => {
            return Err(LoadError::WrongType(key.to_owned()));
        },
        Some(a) => a,
    };
    let ghost items = elems_view(arr@);
    proof {
        lemma_elems_view_len(arr@);
    }
    let mut out: Vec<Attribute> = Vec::new();
    let mut i: usize = 0;
    while i < arr.len()
        invariant
            i <= arr@.len(),
            out@.len() == i,
            forall|k: int| 0 <= k < i ==> #[trigger] attr_item_ok(items[k]),
            forall|k: int| 0 <= k < i ==> out@[k] == #[trigger] attr_of_item(items[k]),
        decreases arr@.len() - i,
    {
        proof {
            lemma_elems_view_index(arr@, i as int);
        }
        let token = match arr[i].as_str() {
            None => {
                proof {
                    assert(!attr_item_ok(items[i as int]));
                }
                return Err(LoadError::WrongType(key.to_owned()));
            },
            Some(s) => s,
        };
        let attr = match Attribute::from_name(token) {
            None => {
                proof {
                    assert(!attr_item_ok(items[i as int]));
                }
                return Err(LoadError::UnknownToken(token.to_owned()));
            },
            Some(a) => a,
        };
        out.push(attr);
        i += 1;
    }
    proof {
        assert(out@ =~= attrs_of(items));
    }
    Ok(out)
}

/// The element named under `key`, or the offending token.
fn parse_element(v: &JsonValue, key: &str) -> (r: Result<Element, LoadError>)
    ensures
        r is Ok <==> element_field_ok(v@, key@),
        r matches Ok(e) ==> Some(e) == element_from_name_spec(str_field(v@, key@).unwrap()),
{
    let token = match v.get(key) {
        None => {
            return Err(LoadError::Missing(key.to_owned()));
        },
        Some(x) => match x.as_str() {
            None => {
                return Err(LoadError::WrongType(key.to_owned()));
            },
            Some(s) => s,
        },
    };
    match Element::from_name(token) {
        None => Err(LoadError::UnknownToken(token.to_owned())),
        Some(e) => Ok(e),
    }
}

/// One individual: name, element, and stats derived from the species'
/// base stats by the element.
fn parse_creature(v: &JsonValue, species_id: usize, species_stats: &Stats) -> (r: Result<
    Creature,
    LoadError,
>)
    ensures
        r is Ok <==> creature_ok(v@),
        r matches Ok(c) ==> creature_rel(c, v@, species_id as int, *species_stats),
{
    let name = match get_string(v, "name") {
        Ok(s) => s,
        Err(e) => {
            return Err(e);
        },
    };
    let element = match parse_element(v, "element") {
        Ok(e) => e,
        Err(e) => {
            return Err(e);
        },
    };
    Ok(Creature::new(name, element, species_id, species_stats))
}

/// One species entry, without its individuals.
fn parse_species_entry(v: &JsonValue) -> (r: Result<Species, LoadError>)
    ensures
        r is Ok <==> species_head_ok(v@),
        r matches Ok(sp) ==> species_head_rel(sp, v@) && sp.individuals@.len() == 0,
{
    let name = match get_string(v, "name") {
        Ok(s) => s,
        Err(e) => {
            return Err(e);
        },
    };
    let mass = match get_number_text(v, "mass_kg") {
        Ok(s) => s,
        Err(e) => {
            return Err(e);
        },
    };
    let height = match get_number_text(v, "height_m") {
        Ok(s) => s,
        Err(e) => {
            return Err(e);
        },
    };
    let attributes = match parse_attribute_list(v, "attributes") {
        Ok(a) => a,
        Err(e) => {
            return Err(e);
        },
    };
    let stats = match parse_stats(v) {
        Ok(s) => s,
        Err(e) => {
            return Err(e);
        },
    };
    Ok(Species::new(name, mass, height, attributes, stats))
}

/// One physical attack entry.
fn parse_physical(v: &JsonValue) -> (r: Result<PhysicalAttack, LoadError>)
    ensures
        r is Ok <==> physical_ok(v@),
        r matches Ok(p) ==> physical_rel(p, v@),
{
    let name = match get_string(v, "name") {
        Ok(s) => s,
        Err(e) => {
            return Err(e);
        },
    };
    let source = match parse_attribute_list(v, "source") {
        Ok(a) => a,
        Err(e) => {
            return Err(e);
        },
    };
    let target_token = match get_string(v, "target") {
        Ok(s) => s,
        Err(e) => {
            return Err(e);
        },
    };
    let target_type = match Target::from_name(target_token.as_str()) {
        None => {
            return Err(LoadError::UnknownToken(target_token));
        },
        Some(t) => t,
    };
    let damage = match get_damage(v) {
        Ok(d) => d,
        Err(e) => {
            return Err(e);
        },
    };
    Ok(
        PhysicalAttack {
            name,
            source,
            strong_against: None,
            weak_against: None,
            useless_against: None,
            target_type,
            damage,
        },
    )
}

/// One magical attack entry.
fn parse_magical(v: &JsonValue) -> (r: Result<MagicalAttack, LoadError>)
    ensures
        r is Ok <==> magical_ok(v@),
        r matches Ok(m) ==> magical_rel(m, v@),
{
    let name = match get_string(v, "name") {
        Ok(s) => s,
        Err(e) => {
            return Err(e);
        },
    };
    let element = match parse_element(v, "element") {
        Ok(e) => e,
        Err(e) => {
            return Err(e);
        },
    };
    let damage = match get_damage(v) {
        Ok(d) => d,
        Err(e) => {
            return Err(e);
        },
    };
    Ok(MagicalAttack { name, element, damage })
}

/// Every creature of every species carries its species' position as its
/// `species_id`, and stats derived from that species' base stats by its
/// own element.
pub open spec fn species_list_wf(list: Seq<Species>) -> bool {
    forall|i: int, j: int|
        0 <= i < list.len() && 0 <= j < list[i].individuals@.len() ==> {
            &&& (#[trigger] list[i].individuals@[j]).species_id == i
            &&& list[i].individuals@[j].stats == with_element_spec(
                list[i].stats,
                list[i].individuals@[j].element,
            )
        }
}

/// Every species' base stats carry the loader's defaults: dodge 0 and
/// accuracy 100.
pub open spec fn species_defaults_hold(list: Seq<Species>) -> bool {
    forall|i: int|
        0 <= i < list.len() ==> (#[trigger] list[i]).stats.dodge == 0 && list[i].stats.accuracy
            == 100
}

/// In the loaded catalog every physical attack stands before every
/// magical one.
pub open spec fn phys_before_magic(s: Seq<AttackView>) -> bool {
    forall|i: int, j: int|
        #![trigger s[i], s[j]]
        0 <= i <= j < s.len() && s[j] is Physical ==> s[i] is Physical
}

/// The creatures of a species list, flattened in species order.
pub open spec fn individuals_of(list: Seq<Species>) -> Seq<Creature>
    decreases list.len(),
{
    if list.len() == 0 {
        Seq::empty()
    } else {
        individuals_of(list.drop_last()) + list.last().individuals@
    }
}

/// Relies on rand::random_range: a uniformly distributed index drawn
/// from `0..len`. The call panics only on an empty range, which the
/// precondition excludes.
#[verifier::external_body]
fn random_below(len: usize) -> (r: usize)
    requires
        len > 0,
    ensures
        r < len,
{
    rand::random_range(0..len)
}

/// Holds all species and creatures in the game, and the attack catalog.
/// Built once at startup; read-only afterwards.
#[derive(Debug)]
pub struct Dex {
    pub species: Vec<Species>,
    pub attacks: Attacks,
}

impl Dex {
    /// A well-formed Dex: see `species_list_wf`.
    pub open spec fn wf(&self) -> bool {
        species_list_wf(self.species@)
    }

    /// Load the Dex from the two catalog documents: the species file
    /// and the attacks file. The load succeeds exactly when both texts
    /// parse as JSON and fit the schema; any malformed or missing
    /// required field fails the whole load with an error naming the
    /// offending key or token. On success the Dex carries exactly the
    /// documents' entries, in document order (`catalog_rel`); it is
    /// well-formed — every creature's `species_id` is its species'
    /// load-order position, its stats are derived from its species'
    /// base stats, every species' base dodge and accuracy are at their
    /// defaults — and the attack catalog holds the physical attacks
    /// first, then the magical ones.
    pub fn from_json(species_json: &str, attacks_json: &str) -> (r: Result<Dex, LoadError>)
        ensures
            r is Ok <==> (json_doc_spec(species_json@) matches Some(ds) && json_doc_spec(
                attacks_json@,
            ) matches Some(da) && catalog_ok(ds, da)),
            r matches Ok(dex) ==> {
                &&& catalog_rel(
                    dex,
                    json_doc_spec(species_json@).unwrap(),
                    json_doc_spec(attacks_json@).unwrap(),
                )
                &&& dex.wf()
                &&& species_defaults_hold(dex.species@)
                &&& phys_before_magic(dex.attacks@)
            },
    {
        let species = match Self::load_species_catalog(species_json) {
            Ok(s) => s,
            Err(e) => {
                return Err(e);
            },
        };
        let attacks = match Self::load_attack_catalog(attacks_json) {
            Ok(a) => a,
            Err(e) => {
                return Err(e);
            },
        };
        Ok(Dex { species, attacks })
    }

    #[verifier::loop_isolation(false)]
    fn load_species_catalog(species_json: &str) -> (r: Result<Vec<Species>, LoadError>)
        ensures
            r is Ok <==> (json_doc_spec(species_json@) matches Some(d) && species_doc_ok(d)),
            r matches Ok(list) ==> {
                &&& species_list_rel(list@, json_doc_spec(species_json@).unwrap())
                &&& species_list_wf(list@)
                &&& species_defaults_hold(list@)
            },
    {
        let doc = match json_parse(species_json) {
            Ok(v) => v,
            Err(e) => {
                return Err(LoadError::Syntax(json_error_message(&e)));
            },
        };
        let ghost d = doc@;
        let arr_val = match doc.get("species") {
            None => {
                return Err(LoadError::Missing("species".to_owned()));
            },
            Some(x) => x,
        };
        let arr = match arr_val.as_array() {
            None => {
                return Err(LoadError::WrongType("species".to_owned()));
            },
            Some(a) => a,
        };
        let ghost entries = elems_view(arr@);
        proof {
            lemma_elems_view_len(arr@);
        }
        let mut list: Vec<Species> = Vec::new();
        let mut i: usize = 0;
        while i < arr.len()
            invariant
                i <= arr@.len(),
                list@.len() == i,
                forall|k: int| 0 <= k < i ==> species_ok(#[trigger] entries[k]),
                forall|k: int| 0 <= k < i ==> species_rel(#[trigger] list@[k], entries[k], k),
                species_list_wf(list@),
                species_defaults_hold(list@),
            decreases arr@.len() - i,
        {
            proof {
                lemma_elems_view_index(arr@, i as int);
            }
            let sp_val = &arr[i];
            let mut sp = match parse_species_entry(sp_val) {
                Ok(s) => s,
                Err(e) => {
                    proof {
                        assert(!species_ok(entries[i as int]));
                    }
                    return Err(e);
                },
            };
            let inds_val = match sp_val.get("individuals") {
                None => {
                    proof {
                        assert(!species_ok(entries[i as int]));
                    }
                    return Err(LoadError::Missing("individuals".to_owned()));
                },
                Some(x) => x,
            };
            let inds = match inds_val.as_array() {
                None => {
                    proof {
                        assert(!species_ok(entries[i as int]));
                    }
                    return Err(LoadError::WrongType("individuals".to_owned()));
                },
                Some(a) => a,
            };
            let ghost ivs = elems_view(inds@);
            proof {
                lemma_elems_view_len(inds@);
                assert(arr_field(entries[i as int], "individuals"@) == Some(ivs));
            }
            let mut creatures: Vec<Creature> = Vec::new();
            let mut j: usize = 0;
            while j < inds.len()
                invariant
                    j <= inds@.len(),
                    creatures@.len() == j,
                    forall|k: int| 0 <= k < j ==> creature_ok(#[trigger] ivs[k]),
                    forall|k: int|
                        0 <= k < j ==> creature_rel(
                            #[trigger] creatures@[k],
                            ivs[k],
                            i as int,
                            sp.stats,
                        ),
                decreases inds@.len() - j,
            {
                proof {
                    lemma_elems_view_index(inds@, j as int);
                }
                let cr = match parse_creature(&inds[j], list.len(), &sp.stats) {
                    Ok(c) => c,
                    Err(e) => {
                        proof {
                            assert(!creature_ok(ivs[j as int]));
                            assert(!species_ok(entries[i as int]));
                        }
                        return Err(e);
                    },
                };
                creatures.push(cr);
                j += 1;
            }
            sp.individuals = creatures;
            proof {
                assert(species_ok(entries[i as int]));
                assert(species_rel(sp, entries[i as int], i as int));
            }
            list.push(sp);
            i += 1;
        }
        proof {
            assert(species_doc_ok(d));
            assert(species_list_rel(list@, d));
        }
        Ok(list)
    }

    #[verifier::loop_isolation(false)]
    fn load_attack_catalog(attacks_json: &str) -> (r: Result<Attacks, LoadError>)
        ensures
            r is Ok <==> (json_doc_spec(attacks_json@) matches Some(d) && attacks_doc_ok(d)),
            r matches Ok(atks) ==> {
                &&& attack_list_rel(atks.0@, json_doc_spec(attacks_json@).unwrap())
                &&& phys_before_magic(atks@)
            },
    {
        let doc = match json_parse(attacks_json) {
            Ok(v) => v,
            Err(e) => {
                return Err(LoadError::Syntax(json_error_message(&e)));
            },
        };
        let ghost d = doc@;
        let phys_val = match doc.get("physical_attacks") {
            None => {
                return Err(LoadError::Missing("physical_attacks".to_owned()));
            },
            Some(x) => x,
        };
        let phys_arr = match phys_val.as_array() {
            None => {
                return Err(LoadError::WrongType("physical_attacks".to_owned()));
            },
            Some(a) => a,
        };
        let magic_val = match doc.get("magical_attacks") {
            None => {
                return Err(LoadError::Missing("magical_attacks".to_owned()));
            },
            Some(x) => x,
        };
        let magic_arr = match magic_val.as_array() {
            None => {
                return Err(LoadError::WrongType("magical_attacks".to_owned()));
            },
            Some(a) => a,
        };
        let ghost pl = elems_view(phys_arr@);
        let ghost ml = elems_view(magic_arr@);
        proof {
            lemma_elems_view_len(phys_arr@);
            lemma_elems_view_len(magic_arr@);
        }
        let mut out: Vec<Attack> = Vec::new();
        let mut i: usize = 0;
        while i < phys_arr.len()
            invariant
                i <= pl.len(),
                out@.len() == i,
                forall|k: int| 0 <= k < i ==> physical_ok(#[trigger] pl[k]),
                forall|k: int|
                    0 <= k < i ==> ((#[trigger] out@[k]) matches Attack::Physical(p)
                        && physical_rel(p, pl[k])),
            decreases pl.len() - i,
        {
            proof {
                lemma_elems_view_index(phys_arr@, i as int);
            }
            let pa = match parse_physical(&phys_arr[i]) {
                Ok(p) => p,
                Err(e) => {
                    proof {
                        assert(!physical_ok(pl[i as int]));
                    }
                    return Err(e);
                },
            };
            out.push(Attack::Physical(pa));
            i += 1;
        }
        let mut j: usize = 0;
        while j < magic_arr.len()
            invariant
                j <= ml.len(),
                out@.len() == pl.len() + j,
                forall|k: int|
                    0 <= k < pl.len() ==> ((#[trigger] out@[k]) matches Attack::Physical(p)
                        && physical_rel(p, pl[k])),
                forall|k: int| 0 <= k < j ==> magical_ok(#[trigger] ml[k]),
                forall|k: int|
                    pl.len() <= k < out@.len() ==> ((#[trigger] out@[k]) matches Attack::Magical(m)
                        && magical_rel(m, ml[k - pl.len()])),
            decreases ml.len() - j,
        {
            proof {
                lemma_elems_view_index(magic_arr@, j as int);
            }
            let ma = match parse_magical(&magic_arr[j]) {
                Ok(m) => m,
                Err(e) => {
                    proof {
                        assert(!magical_ok(ml[j as int]));
                    }
                    return Err(e);
                },
            };
            out.push(Attack::Magical(ma));
            j += 1;
        }
        proof {
            assert(attacks_doc_ok(d));
            assert(attack_list_rel(out@, d));
            assert forall|a: int, b: int|
                0 <= a <= b < views_of(out@).len() && views_of(out@)[b] is Physical implies views_of(
                out@,
            )[a] is Physical by {
                assert(views_of(out@)[b] == out@[b]@);
                assert(views_of(out@)[a] == out@[a]@);
                if b >= pl.len() {
                    assert(out@[b] matches Attack::Magical(m) && magical_rel(m, ml[b - pl.len()]));
                    assert(false);
                } else {
                    assert(out@[a] matches Attack::Physical(p) && physical_rel(p, pl[a]));
                }
            }
            assert(phys_before_magic(views_of(out@)));
        }
        Ok(Attacks(out))
    }

    /// A copy of every individual of every species, in species order.
    pub fn individuals(&self) -> (r: Vec<Creature>)
        ensures
            r@ == individuals_of(self.species@),
    {
        let mut out: Vec<Creature> = Vec::new();
        let mut i: usize = 0;
        while i < self.species.len()
            invariant
                i <= self.species@.len(),
                out@ == individuals_of(self.species@.take(i as int)),
            decreases self.species@.len() - i,
        {
            let sp = &self.species[i];
            let mut j: usize = 0;
            while j < sp.individuals.len()
                invariant
                    j <= sp.individuals@.len(),
                    out@ == individuals_of(self.species@.take(i as int)) + sp.individuals@.take(
                        j as int,
                    ),
                decreases sp.individuals@.len() - j,
            {
                out.push(sp.individuals[j].clone());
                proof {
                    assert(individuals_of(self.species@.take(i as int)) + sp.individuals@.take(
                        j + 1,
                    ) =~= (individuals_of(self.species@.take(i as int)) + sp.individuals@.take(
                        j as int,
                    )).push(sp.individuals@[j as int]));
                }
                j += 1;
            }
            proof {
                assert(sp.individuals@.take(sp.individuals@.len() as int) =~= sp.individuals@);
                assert(self.species@.take(i + 1).drop_last() =~= self.species@.take(i as int));
                assert(self.species@.take(i + 1).last() == self.species@[i as int]);
            }
            i += 1;
        }
        proof {
            assert(self.species@.take(self.species@.len() as int) =~= self.species@);
        }
        out
    }

    /// A copy of a uniformly-randomly selected creature; `None` exactly
    /// when the Dex holds no individuals at all.
    pub fn random(&self) -> (r: Option<Creature>)
        ensures
            r is Some <==> individuals_of(self.species@).len() > 0,
            r matches Some(c) ==> individuals_of(self.species@).contains(c),
    {
        let individuals = self.individuals();
        if individuals.len() == 0 {
            None
        } else {
            let idx = random_below(individuals.len());
            let c = individuals[idx].clone();
            proof {
                assert(individuals_of(self.species@)[idx as int] == c);
            }
            Some(c)
        }
    }

    /// The creature at `(species position, individual position)`. Asking
    /// for an unresolvable reference is a programming error, excluded by
    /// the precondition; see `try_get_creature` for the checked form.
    pub fn get_creature(&self, ids: (usize, usize)) -> (r: &Creature)
        requires
            ids.0 < self.species@.len(),
            ids.1 < self.species@[ids.0 as int].individuals@.len(),
        ensures
            *r == self.species@[ids.0 as int].individuals@[ids.1 as int],
    {
        &self.species[ids.0].individuals[ids.1]
    }

    /// The creature at `(species position, individual position)`, or
    /// `None` when either index does not resolve.
    pub fn try_get_creature(&self, ids: (usize, usize)) -> (r: Option<&Creature>)
        ensures
            r is Some <==> (ids.0 < self.species@.len() && ids.1 < self.species@[
                ids.0 as int
            ].individuals@.len()),
            r matches Some(c) ==> *c == self.species@[ids.0 as int].individuals@[ids.1 as int],
    {
        if ids.0 < self.species.len() {
            let sp = &self.species[ids.0];
            if ids.1 < sp.individuals.len() {
                Some(&sp.individuals[ids.1])
            } else {
                None
            }
        } else {
            None
        }
    }

    /// All attacks the given creature may use: the physical attacks its
    /// species' attribute set qualifies it for, then the magical attacks
    /// of its element, each half in catalog order.
    pub fn filter_attacks_for_creature(&self, creature: Creature) -> (r: Attacks)
        requires
            creature.species_id < self.species@.len(),
        ensures
            r@ == self.attacks@.filter(
                phys_pred(self.species@[creature.species_id as int].attributes@),
            ) + self.attacks@.filter(magic_pred(creature.element)),
    {
        let species = &self.species[creature.species_id];
        let mut attacks = self.attacks.filter_for_species(species);
        attacks.append(self.attacks.filter_by_elem(creature.element));
        attacks
    }

    /// All attacks the given team member's creature may use.
    pub fn filter_attacks_for_team_member(&self, member: TeamMember) -> (r: Attacks)
        requires
            self.wf(),
            member.creature_id.0 < self.species@.len(),
            member.creature_id.1 < self.species@[member.creature_id.0 as int].individuals@.len(),
        ensures
            r@ == self.attacks@.filter(
                phys_pred(self.species@[member.creature_id.0 as int].attributes@),
            ) + self.attacks@.filter(
                magic_pred(
                    self.species@[member.creature_id.0 as int].individuals@[
                        member.creature_id.1 as int
                    ].element,
                ),
            ),
    {
        let creature = self.get_creature(member.creature_id);
        self.filter_attacks_for_creature(creature.clone())
    }
}

/// The creature filter never returns the same attack twice: the
/// physical half and the magical half cannot overlap, and each half
/// keeps each catalog entry at most once — whenever the catalog itself
/// holds no attack twice. (The loaded catalog's entries are distinct as
/// long as the documents list no two identical attacks.)
pub proof fn lemma_creature_filter_no_duplicates(dex: Dex, creature: Creature)
    requires
        0 <= creature.species_id < dex.species@.len(),
        dex.attacks@.no_duplicates(),
    ensures
        (dex.attacks@.filter(phys_pred(dex.species@[creature.species_id as int].attributes@))
            + dex.attacks@.filter(magic_pred(creature.element))).no_duplicates(),
{
    crate::attack::lemma_filter_union_no_duplicates(
        dex.attacks@,
        dex.species@[creature.species_id as int].attributes@,
        creature.element,
    );
}

/// Species index stability: in a well-formed Dex the creature stored at
/// `(s, i)` — the one `get_creature((s, i))` returns — carries `s` as
/// its `species_id` and stats derived from species `s`'s base stats by
/// its own element.
pub proof fn lemma_species_index_stability(dex: Dex, s: int, i: int)
    requires
        dex.wf(),
        0 <= s < dex.species@.len(),
        0 <= i < dex.species@[s].individuals@.len(),
    ensures
        dex.species@[s].individuals@[i].species_id == s,
        dex.species@[s].individuals@[i].stats == with_element_spec(
            dex.species@[s].stats,
            dex.species@[s].individuals@[i].element,
        ),
{
}

} // verus!
