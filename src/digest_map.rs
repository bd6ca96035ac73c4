//! The digest-to-path result mapping, held in a concurrent map.
use vstd::prelude::*;
use dashmap::DashMap;

verus! {

#[verifier::external_type_specification]
#[verifier::external_body]
#[verifier::reject_recursive_types(K)]
#[verifier::reject_recursive_types(V)]
#[verifier::reject_recursive_types(S)]
pub struct ExDashMap<K, V, S>(DashMap<K, V, S>);

/// The entries of a digest-to-path map.
pub uninterp spec fn dash_contents(m: DashMap<String, String>) -> Map<Seq<char>, Seq<char>>;

/// Relies on dashmap::DashMap::new: a new map is empty.
#[verifier::external_body]
fn dash_new() -> (r: DashMap<String, String>)
    ensures
        dash_contents(r).dom() == Set::<Seq<char>>::empty(),
{
    DashMap::new()
}

/// Relies on dashmap::DashMap::insert: the key now maps to the value, replacing any earlier one.
#[verifier::external_body]
fn dash_insert(m: &mut DashMap<String, String>, key: String, value: String)
    ensures
        dash_contents(*final(m)) == dash_contents(*old(m)).insert(key@, value@),
{
    m.insert(key, value);
}

/// Relies on dashmap::DashMap::iter: each entry is visited once, in an unspecified order.
#[verifier::external_body]
fn dash_entries(m: &DashMap<String, String>) -> (r: Vec<(String, String)>)
    ensures
        forall|i: int| 0 <= i < r@.len() ==> #[trigger] dash_contents(*m).contains_key(r@[i].0@)
            && dash_contents(*m)[r@[i].0@] == r@[i].1@,
        forall|k: Seq<char>| #[trigger] dash_contents(*m).contains_key(k)
            ==> exists|i: int| 0 <= i < r@.len() && r@[i].0@ == k,
        forall|i: int, j: int| 0 <= i < j < r@.len() ==> r@[i].0@ != r@[j].0@,
{
    m.iter().map(|e| (e.key().clone(), e.value().clone())).collect()
}

/// A mapping from content digest to the path of a file with that content.
/// Keys are unique: recording a second path under a digest replaces the first.
pub struct DigestMap {
    map: DashMap<String, String>,
}

impl View for DigestMap {
    type V = Map<Seq<char>, Seq<char>>;

    closed spec fn view(&self) -> Map<Seq<char>, Seq<char>> {
        dash_contents(self.map)
    }
}

impl DigestMap {
    pub fn new() -> (r: DigestMap)
        ensures
            r@.dom() == Set::<Seq<char>>::empty(),
    {
        DigestMap { map: dash_new() }
    }

    /// Records `path` under `digest`; a path already recorded under it is replaced.
    pub fn insert(&mut self, digest: String, path: String)
        ensures
            final(self)@ == old(self)@.insert(digest@, path@),
    {
        dash_insert(&mut self.map, digest, path);
    }

    /// The entries as (digest, path) pairs, in no particular order, each once.
    pub fn entries(&self) -> (r: Vec<(String, String)>)
        ensures
            forall|i: int| 0 <= i < r@.len() ==> #[trigger] self@.contains_key(r@[i].0@)
                && self@[r@[i].0@] == r@[i].1@,
            forall|k: Seq<char>| #[trigger] self@.contains_key(k)
                ==> exists|i: int| 0 <= i < r@.len() && r@[i].0@ == k,
            forall|i: int, j: int| 0 <= i < j < r@.len() ==> r@[i].0@ != r@[j].0@,
    {
        dash_entries(&self.map)
    }
}

} // verus!
