//! The attack catalog: physical attacks gated by a species' attribute
//! set, magical attacks gated by a creature's element, and the filters
//! that compute which attacks a creature may use.

use vstd::prelude::*;
use vstd::seq_lib::group_filter_ensures;
use crate::attribute::Attribute;
use crate::attribute::attrs_subset;
use crate::attribute::attrs_subset_spec;
use crate::element::Element;
use crate::species::Species;
use crate::target::Target;

verus! {

broadcast use group_filter_ensures;

/// An attack derived from physical attributes.
#[derive(Debug)]
pub struct PhysicalAttack {
    pub name: String,
    /// Attributes a species must all have for its creatures to use this
    /// attack.
    pub source: Vec<Attribute>,
    /// Reserved: targets this attack is doubly effective against.
    pub strong_against: Option<Vec<Attribute>>,
    /// Reserved: targets this attack is half effective against.
    pub weak_against: Option<Vec<Attribute>>,
    /// Reserved: targets this attack cannot harm.
    pub useless_against: Option<Vec<Attribute>>,
    pub target_type: Target,
    pub damage: Option<u8>,
}

/// The magical attack of one element.
#[derive(Debug)]
pub struct MagicalAttack {
    pub name: String,
    pub element: Element,
    pub damage: Option<u8>,
}

/// An entry of the attack catalog: the closed union of the two attack
/// kinds.
#[derive(Debug)]
pub enum Attack {
    Physical(PhysicalAttack),
    Magical(MagicalAttack),
}

/// Mathematical model of a physical attack.
pub ghost struct PhysicalAttackView {
    pub name: Seq<char>,
    pub source: Seq<Attribute>,
    pub strong_against: Option<Seq<Attribute>>,
    pub weak_against: Option<Seq<Attribute>>,
    pub useless_against: Option<Seq<Attribute>>,
    pub target_type: Target,
    pub damage: Option<u8>,
}

/// Mathematical model of a magical attack.
pub ghost struct MagicalAttackView {
    pub name: Seq<char>,
    pub element: Element,
    pub damage: Option<u8>,
}

/// Mathematical model of a catalog entry.
pub ghost enum AttackView {
    Physical(PhysicalAttackView),
    Magical(MagicalAttackView),
}

/// The model of an optional attribute list.
pub open spec fn opt_attrs_view(v: Option<Vec<Attribute>>) -> Option<Seq<Attribute>> {
    match v {
        Some(x) => Some(x@),
        None => None,
    }
}

impl View for PhysicalAttack {
    type V = PhysicalAttackView;

    open spec fn view(&self) -> PhysicalAttackView {
        PhysicalAttackView {
            name: self.name@,
            source: self.source@,
            strong_against: opt_attrs_view(self.strong_against),
            weak_against: opt_attrs_view(self.weak_against),
            useless_against: opt_attrs_view(self.useless_against),
            target_type: self.target_type,
            damage: self.damage,
        }
    }
}

impl View for MagicalAttack {
    type V = MagicalAttackView;

    open spec fn view(&self) -> MagicalAttackView {
        MagicalAttackView { name: self.name@, element: self.element, damage: self.damage }
    }
}

impl View for Attack {
    type V = AttackView;

    open spec fn view(&self) -> AttackView {
        match self {
            Attack::Physical(p) => AttackView::Physical(p@),
            Attack::Magical(m) => AttackView::Magical(m@),
        }
    }
}

impl AttackView {
    /// The attack's display name.
    pub open spec fn name(self) -> Seq<char> {
        match self {
            AttackView::Physical(p) => p.name,
            AttackView::Magical(m) => m.name,
        }
    }

    /// The attributes the attack requires; empty for a magical attack.
    pub open spec fn attributes(self) -> Seq<Attribute> {
        match self {
            AttackView::Physical(p) => p.source,
            AttackView::Magical(m) => Seq::empty(),
        }
    }

    /// The attack's element; `None` for a physical attack.
    pub open spec fn element(self) -> Option<Element> {
        match self {
            AttackView::Physical(p) => None,
            AttackView::Magical(m) => Some(m.element),
        }
    }

    /// The attack's flat damage, if any.
    pub open spec fn damage(self) -> Option<u8> {
        match self {
            AttackView::Physical(p) => p.damage,
            AttackView::Magical(m) => m.damage,
        }
    }
}

/// The models of a sequence of catalog entries, in order.
pub open spec fn views_of(s: Seq<Attack>) -> Seq<AttackView> {
    Seq::new(s.len(), |i: int| s[i]@)
}

pub proof fn lemma_views_of_push(s: Seq<Attack>, a: Attack)
    ensures
        views_of(s.push(a)) =~= views_of(s).push(a@),
{
    assert forall|j: int| 0 <= j < s.len() + 1 implies views_of(s.push(a))[j] == views_of(s).push(
        a@,
    )[j] by {
        if j < s.len() {
            assert(s.push(a)[j] == s[j]);
        } else {
            assert(s.push(a)[j] == a);
        }
    }
}

proof fn lemma_take_succ_views(s: Seq<Attack>, i: int)
    requires
        0 <= i < s.len(),
    ensures
        views_of(s.take(i + 1)) =~= views_of(s.take(i)).push(s[i]@),
{
    assert(s.take(i + 1) =~= s.take(i).push(s[i]));
    lemma_views_of_push(s.take(i), s[i]);
}

proof fn lemma_views_of_concat(a: Seq<Attack>, b: Seq<Attack>)
    ensures
        views_of(a + b) =~= views_of(a) + views_of(b),
{
    assert forall|j: int| 0 <= j < a.len() + b.len() implies views_of(a + b)[j] == (views_of(a)
        + views_of(b))[j] by {
        if j < a.len() {
            assert((a + b)[j] == a[j]);
        } else {
            assert((a + b)[j] == b[j - a.len()]);
        }
    }
}

fn copy_opt_attrs(v: &Option<Vec<Attribute>>) -> (r: Option<Vec<Attribute>>)
    ensures
        opt_attrs_view(r) == opt_attrs_view(*v),
{
    match v {
        Some(x) => Some(vstd::slice::slice_to_vec(x.as_slice())),
        None => None,
    }
}

impl Clone for PhysicalAttack {
    fn clone(&self) -> (r: Self)
        ensures
            r@ == self@,
    {
        PhysicalAttack {
            name: self.name.clone(),
            source: vstd::slice::slice_to_vec(self.source.as_slice()),
            strong_against: copy_opt_attrs(&self.strong_against),
            weak_against: copy_opt_attrs(&self.weak_against),
            useless_against: copy_opt_attrs(&self.useless_against),
            target_type: self.target_type,
            damage: self.damage,
        }
    }
}

impl Clone for MagicalAttack {
    fn clone(&self) -> (r: Self)
        ensures
            r@ == self@,
    {
        MagicalAttack { name: self.name.clone(), element: self.element, damage: self.damage }
    }
}

impl Clone for Attack {
    fn clone(&self) -> (r: Self)
        ensures
            r@ == self@,
    {
        match self {
            Attack::Physical(p) => Attack::Physical(p.clone()),
            Attack::Magical(m) => Attack::Magical(m.clone()),
        }
    }
}

impl Attack {
    /// The attack's display name.
    pub fn name(&self) -> (r: String)
        ensures
            r@ == self@.name(),
    {
        match self {
            Attack::Physical(p) => p.name.clone(),
            Attack::Magical(m) => m.name.clone(),
        }
    }

    /// The attributes the attack requires; empty for a magical attack.
    pub fn attributes(&self) -> (r: Vec<Attribute>)
        ensures
            r@ == self@.attributes(),
    {
        match self {
            Attack::Physical(p) => vstd::slice::slice_to_vec(p.source.as_slice()),
            Attack::Magical(m) => Vec::new(),
        }
    }

    /// The attack's element; `None` for a physical attack.
    pub fn element(&self) -> (r: Option<Element>)
        ensures
            r == self@.element(),
    {
        match self {
            Attack::Physical(p) => None,
            Attack::Magical(m) => Some(m.element),
        }
    }

    /// The attack's flat damage, if any.
    pub fn damage(&self) -> (r: Option<u8>)
        ensures
            r == self@.damage(),
    {
        match self {
            Attack::Physical(p) => p.damage,
            Attack::Magical(m) => m.damage,
        }
    }
}

/// A physical attack the species qualifies for: the entry is physical
/// and its whole required attribute set occurs among `attrs`.
pub open spec fn physical_qualifies(a: AttackView, attrs: Seq<Attribute>) -> bool {
    a.element() is None && attrs_subset_spec(a.attributes(), attrs)
}

/// A magical attack of element `e`.
pub open spec fn magical_matches(a: AttackView, e: Element) -> bool {
    a.element() == Some(e)
}

/// The predicate the species filter selects by.
pub open spec fn phys_pred(attrs: Seq<Attribute>) -> spec_fn(AttackView) -> bool {
    |a: AttackView| physical_qualifies(a, attrs)
}

/// The predicate the element filter selects by.
pub open spec fn magic_pred(e: Element) -> spec_fn(AttackView) -> bool {
    |a: AttackView| magical_matches(a, e)
}

/// The catalog of all attacks, or a filtered subset of it. Order is the
/// registration order: in the loaded catalog every physical attack comes
/// before every magical one.
#[derive(Debug)]
pub struct Attacks(pub Vec<Attack>);

impl View for Attacks {
    type V = Seq<AttackView>;

    open spec fn view(&self) -> Seq<AttackView> {
        views_of(self.0@)
    }
}

impl Clone for Attacks {
    fn clone(&self) -> (r: Self)
        ensures
            r@ == self@,
    {
        let mut out: Vec<Attack> = Vec::new();
        let mut i: usize = 0;
        while i < self.0.len()
            invariant
                i <= self.0@.len(),
                views_of(out@) =~= views_of(self.0@.take(i as int)),
            decreases self.0@.len() - i,
        {
            let c = self.0[i].clone();
            let ghost prev = out@;
            out.push(c);
            proof {
                lemma_views_of_push(prev, c);
                lemma_take_succ_views(self.0@, i as int);
            }
            i += 1;
        }
        proof {
            assert(self.0@.take(self.0@.len() as int) =~= self.0@);
        }
        Attacks(out)
    }
}

impl Attacks {
    /// The number of attacks held.
    pub fn len(&self) -> (r: usize)
        ensures
            r == self@.len(),
    {
        self.0.len()
    }

    /// The attack at position `i`.
    pub fn get(&self, i: usize) -> (r: &Attack)
        requires
            i < self@.len(),
        ensures
            r@ == self@[i as int],
    {
        &self.0[i]
    }

    /// The subset of the catalog the given species' creatures can use
    /// physically: every physical attack whose required attributes are
    /// all among the species' attributes, in catalog order.
    pub fn filter_for_species(&self, species: &Species) -> (r: Attacks)
        ensures
            r@ == self@.filter(phys_pred(species.attributes@)),
    {
        let ghost pred = phys_pred(species.attributes@);
        let mut out: Vec<Attack> = Vec::new();
        let mut i: usize = 0;
        while i < self.0.len()
            invariant
                i <= self.0@.len(),
                pred == phys_pred(species.attributes@),
                views_of(out@) =~= views_of(self.0@.take(i as int)).filter(pred),
            decreases self.0@.len() - i,
        {
            let keep = match &self.0[i] {
                Attack::Physical(p) => attrs_subset(&p.source, &species.attributes),
                Attack::Magical(_) => false,
            };
            proof {
                lemma_take_succ_views(self.0@, i as int);
                views_of(self.0@.take(i as int)).lemma_filter_push(self.0@[i as int]@, pred);
                assert(keep == pred(self.0@[i as int]@));
            }
            if keep {
                let c = self.0[i].clone();
                let ghost prev = out@;
                out.push(c);
                proof {
                    lemma_views_of_push(prev, c);
                }
            }
            i += 1;
        }
        proof {
            assert(self.0@.take(self.0@.len() as int) =~= self.0@);
        }
        Attacks(out)
    }

    /// The subset of the catalog made of the magical attacks of element
    /// `element`, in catalog order.
    pub fn filter_by_elem(&self, element: Element) -> (r: Attacks)
        ensures
            r@ == self@.filter(magic_pred(element)),
    {
        let ghost pred = magic_pred(element);
        let mut out: Vec<Attack> = Vec::new();
        let mut i: usize = 0;
        while i < self.0.len()
            invariant
                i <= self.0@.len(),
                pred == magic_pred(element),
                views_of(out@) =~= views_of(self.0@.take(i as int)).filter(pred),
            decreases self.0@.len() - i,
        {
            let keep = match &self.0[i] {
                Attack::Physical(_) => false,
                Attack::Magical(m) => m.element == element,
            };
            proof {
                lemma_take_succ_views(self.0@, i as int);
                views_of(self.0@.take(i as int)).lemma_filter_push(self.0@[i as int]@, pred);
                assert(keep == pred(self.0@[i as int]@));
            }
            if keep {
                let c = self.0[i].clone();
                let ghost prev = out@;
                out.push(c);
                proof {
                    lemma_views_of_push(prev, c);
                }
            }
            i += 1;
        }
        proof {
            assert(self.0@.take(self.0@.len() as int) =~= self.0@);
        }
        Attacks(out)
    }

    /// Move every attack of `other` to the end of `self`, keeping order.
    pub fn append(&mut self, other: Attacks)
        ensures
            final(self)@ == old(self)@ + other@,
    {
        let mut rest = other.0;
        let ghost rest_view = rest@;
        self.0.append(&mut rest);
        proof {
            lemma_views_of_concat(old(self).0@, rest_view);
        }
    }
}

/// A physical attack stands in the species filter's result exactly when
/// it stands in the catalog and the species' attribute set covers its
/// required attributes.
pub proof fn lemma_filter_for_species_membership(
    catalog: Seq<AttackView>,
    attrs: Seq<Attribute>,
    a: AttackView,
)
    ensures
        catalog.filter(phys_pred(attrs)).contains(a) <==> (catalog.contains(a)
            && physical_qualifies(a, attrs)),
{
    let pred = phys_pred(attrs);
    if catalog.filter(pred).contains(a) {
        catalog.lemma_filter_contains_rev(pred, a);
        let i = choose|i: int| 0 <= i < catalog.filter(pred).len() && catalog.filter(pred)[i] == a;
        assert(pred(catalog.filter(pred)[i]));
    }
    if catalog.contains(a) && pred(a) {
        let i = choose|i: int| 0 <= i < catalog.len() && catalog[i] == a;
        catalog.lemma_filter_contains(pred, i);
    }
}

/// A magical attack stands in the element filter's result exactly when
/// it stands in the catalog and carries that element; no attack of
/// another element, and no physical attack, is returned.
pub proof fn lemma_filter_by_elem_membership(catalog: Seq<AttackView>, e: Element, a: AttackView)
    ensures
        catalog.filter(magic_pred(e)).contains(a) <==> (catalog.contains(a) && a.element() == Some(
            e,
        )),
{
    let pred = magic_pred(e);
    if catalog.filter(pred).contains(a) {
        catalog.lemma_filter_contains_rev(pred, a);
        let i = choose|i: int| 0 <= i < catalog.filter(pred).len() && catalog.filter(pred)[i] == a;
        assert(pred(catalog.filter(pred)[i]));
    }
    if catalog.contains(a) && pred(a) {
        let i = choose|i: int| 0 <= i < catalog.len() && catalog[i] == a;
        catalog.lemma_filter_contains(pred, i);
    }
}

/// Filtering keeps a duplicate-free sequence duplicate-free.
proof fn lemma_filter_preserves_no_duplicates(s: Seq<AttackView>, pred: spec_fn(AttackView) -> bool)
    requires
        s.no_duplicates(),
    ensures
        s.filter(pred).no_duplicates(),
    decreases s.len(),
{
    reveal(Seq::filter);
    if s.len() != 0 {
        let rest = s.drop_last();
        assert(rest.no_duplicates());
        lemma_filter_preserves_no_duplicates(rest, pred);
        if pred(s.last()) {
            if rest.filter(pred).contains(s.last()) {
                rest.lemma_filter_contains_rev(pred, s.last());
                let i = choose|i: int| 0 <= i < rest.len() && rest[i] == s.last();
                assert(s[i] == s[s.len() - 1]);
                assert(false);
            }
            assert(s.filter(pred) == rest.filter(pred).push(s.last()));
            vstd::seq_lib::lemma_no_dup_in_concat(rest.filter(pred), seq![s.last()]);
            assert(rest.filter(pred).push(s.last()) =~= rest.filter(pred) + seq![s.last()]);
        }
    }
}

/// The union the creature filter returns — the physical matches followed
/// by the magical matches — holds no attack twice, whenever the catalog
/// itself holds no attack twice: the two halves cannot overlap, since a
/// physical match carries no element and a magical match carries one.
pub proof fn lemma_filter_union_no_duplicates(
    catalog: Seq<AttackView>,
    attrs: Seq<Attribute>,
    e: Element,
)
    requires
        catalog.no_duplicates(),
    ensures
        (catalog.filter(phys_pred(attrs)) + catalog.filter(magic_pred(e))).no_duplicates(),
{
    let phys = catalog.filter(phys_pred(attrs));
    let magic = catalog.filter(magic_pred(e));
    lemma_filter_preserves_no_duplicates(catalog, phys_pred(attrs));
    lemma_filter_preserves_no_duplicates(catalog, magic_pred(e));
    assert forall|i: int, j: int| 0 <= i < phys.len() && 0 <= j < magic.len() implies phys[i]
        != magic[j] by {
        assert(physical_qualifies(phys[i], attrs));
        assert(magical_matches(magic[j], e));
    }
    vstd::seq_lib::lemma_no_dup_in_concat(phys, magic);
}

} // verus!
