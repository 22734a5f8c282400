//! Species and the creature individuals that belong to them.

use vstd::prelude::*;
use vstd::string::StrSliceExecFns;
use vstd::string::StringExecFns;
use crate::attribute::Attribute;
use crate::element::Element;
use crate::stats::Stats;
use crate::stats::with_element_spec;
use crate::text::lower_spec;
use crate::text::push_lowered;

verus! {

/// One named individual of a species, with element-adjusted stats and a
/// back-reference (`species_id`) to its species' position in the Dex.
#[derive(Debug)]
pub struct Creature {
    pub name: String,
    pub element: Element,
    pub species_id: usize,
    pub stats: Stats,
}

impl Clone for Creature {
    fn clone(&self) -> (r: Self)
        ensures
            r == *self,
    {
        Creature {
            name: self.name.clone(),
            element: self.element,
            species_id: self.species_id,
            stats: self.stats,
        }
    }
}

impl Creature {
    /// Build an individual: its stats are derived from the species' base
    /// stats by its element.
    pub fn new(name: String, element: Element, species_id: usize, species_stats: &Stats) -> (r:
        Creature)
        ensures
            r.name == name,
            r.element == element,
            r.species_id == species_id,
            r.stats == with_element_spec(*species_stats, element),
    {
        Creature { name, stats: species_stats.with_element(element), element, species_id }
    }

    /// The stats an individual of element `element` derives from its
    /// species' base stats.
    pub fn compute_stats(element: &Element, species_stats: &Stats) -> (r: Stats)
        ensures
            r == with_element_spec(*species_stats, *element),
    {
        species_stats.with_element(*element)
    }

    /// The creature's sprite path below the asset root: its lowercased
    /// name under "textures/creatures/", with a ".gif" ending.
    pub fn assets_texture_path(&self) -> (r: String)
        ensures
            r@ == "textures/creatures/"@ + lower_spec(self.name@) + ".gif"@,
    {
        let mut out = String::from_str("textures/creatures/");
        push_lowered(&mut out, self.name.as_str());
        out.append(".gif");
        proof {
            assert(out@ =~= "textures/creatures/"@ + lower_spec(self.name@) + ".gif"@);
        }
        out
    }

    /// The sprite path from the project root.
    pub fn texture_path(&self) -> (r: String)
        ensures
            r@ == "assets/"@ + "textures/creatures/"@ + lower_spec(self.name@) + ".gif"@,
    {
        let mut out = String::from_str("assets/");
        let rest = self.assets_texture_path();
        out.append(rest.as_str());
        proof {
            assert(out@ =~= "assets/"@ + "textures/creatures/"@ + lower_spec(self.name@)
                + ".gif"@);
        }
        out
    }
}

/// A species: shared name, measurements, attribute set and base stats,
/// plus the ordered list of its individuals. `mass` and `height` keep the
/// decimal text of the numbers the catalog file carries.
#[derive(Debug)]
pub struct Species {
    pub name: String,
    pub mass: String,
    pub height: String,
    pub attributes: Vec<Attribute>,
    pub stats: Stats,
    pub individuals: Vec<Creature>,
}

impl Clone for Species {
    fn clone(&self) -> (r: Self)
        ensures
            r.name == self.name,
            r.mass == self.mass,
            r.height == self.height,
            r.attributes@ == self.attributes@,
            r.stats == self.stats,
            r.individuals@ == self.individuals@,
    {
        let mut individuals: Vec<Creature> = Vec::new();
        let mut i: usize = 0;
        while i < self.individuals.len()
            invariant
                i <= self.individuals@.len(),
                individuals@ =~= self.individuals@.take(i as int),
            decreases self.individuals@.len() - i,
        {
            individuals.push(self.individuals[i].clone());
            i += 1;
        }
        proof {
            assert(self.individuals@.take(self.individuals@.len() as int) =~= self.individuals@);
        }
        Species {
            name: self.name.clone(),
            mass: self.mass.clone(),
            height: self.height.clone(),
            attributes: vstd::slice::slice_to_vec(self.attributes.as_slice()),
            stats: self.stats,
            individuals,
        }
    }
}

impl Species {
    /// Build a species with no individuals yet; the loader fills
    /// `individuals` afterwards.
    pub fn new(name: String, mass: String, height: String, attributes: Vec<Attribute>, stats: Stats)
        -> (r: Species)
        ensures
            r.name == name,
            r.mass == mass,
            r.height == height,
            r.attributes == attributes,
            r.stats == stats,
            r.individuals@.len() == 0,
    {
        Species { name, mass, height, attributes, stats, individuals: Vec::new() }
    }
}

} // verus!
