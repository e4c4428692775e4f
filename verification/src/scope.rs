//! The hash collections of rustc_hash that hold a scope: the map from names to
//! thunks, and the set of names bound since the last commit. Their contents are
//! named here, and each method that the context calls is a small wrapper whose
//! contract states what std's `HashMap`/`HashSet` do to those contents.
use vstd::prelude::*;
use rustc_hash::{FxBuildHasher, FxHashMap, FxHashSet};
use crate::value::Thunk;

verus! {

#[verifier::external_type_specification]
#[verifier::external_body]
pub struct ExFxBuildHasher(FxBuildHasher);

/// A map of bindings: names to the thunks bound to them.
pub type Bindings = FxHashMap<String, Thunk>;

/// A set of names.
pub type NameSet = FxHashSet<String>;

/// What a map of bindings holds: the thunk bound to each name, the name taken by its characters.
pub uninterp spec fn scope_entries(m: Bindings) -> Map<Seq<char>, Thunk>;

/// The names that a set of names holds, each by its characters.
pub uninterp spec fn name_set_members(s: NameSet) -> Set<Seq<char>>;

/// The map that binds no name.
pub open spec fn no_bindings() -> Map<Seq<char>, Thunk> {
    Map::empty()
}

/// The characters of each string of a sequence, in order.
pub open spec fn names_of(v: Seq<String>) -> Seq<Seq<char>> {
    v.map_values(|s: String| s@)
}

/// `FxHashMap::default()` (std's `HashMap::default` with rustc_hash's hasher): an empty map.
#[verifier::external_body]
pub fn new_scope() -> (m: Bindings)
    ensures
        scope_entries(m) == no_bindings(),
{
    FxHashMap::default()
}

/// `HashMap::get`: the thunk bound to `name`, if any.
#[verifier::external_body]
pub fn scope_get<'a>(m: &'a Bindings, name: &str) -> (res: Option<&'a Thunk>)
    ensures
        match res {
            Some(t) => scope_entries(*m).contains_key(name@) && *t == scope_entries(*m)[name@],
            None => !scope_entries(*m).contains_key(name@),
        },
{
    m.get(name)
}

/// `HashMap::contains_key`: whether `name` is bound.
#[verifier::external_body]
pub fn scope_contains(m: &Bindings, name: &str) -> (res: bool)
    ensures
        res == scope_entries(*m).contains_key(name@),
{
    m.contains_key(name)
}

/// `HashMap::insert`: binds `name` to `value`, replacing what it was bound to.
#[verifier::external_body]
pub fn scope_insert(m: &mut Bindings, name: String, value: Thunk)
    ensures
        scope_entries(*final(m)) == scope_entries(*old(m)).insert(name@, value),
{
    let _ = m.insert(name, value);
}

/// `HashMap::is_empty`: whether no name is bound.
#[verifier::external_body]
pub fn scope_is_empty(m: &Bindings) -> (res: bool)
    ensures
        res == (scope_entries(*m).dom() == Set::<Seq<char>>::empty()),
{
    m.is_empty()
}

/// `HashMap::clone`: a map with the same bindings.
#[verifier::external_body]
pub fn scope_clone(m: &Bindings) -> (res: Bindings)
    ensures
        scope_entries(res) == scope_entries(*m),
{
    m.clone()
}

/// `HashMap::keys`: each bound name once, in the map's own order (which the hasher decides).
#[verifier::external_body]
pub fn scope_names(m: &Bindings) -> (res: Vec<String>)
    ensures
        names_of(res@).no_duplicates(),
        names_of(res@).to_set() == scope_entries(*m).dom(),
{
    m.keys().cloned().collect()
}

/// `FxHashSet::default()` (std's `HashSet::default` with rustc_hash's hasher): an empty set.
#[verifier::external_body]
pub fn new_name_set() -> (s: NameSet)
    ensures
        name_set_members(s) == Set::<Seq<char>>::empty(),
{
    FxHashSet::default()
}

/// `HashSet::insert`: adds `name`; the result says whether it was absent.
#[verifier::external_body]
pub fn name_set_insert(s: &mut NameSet, name: String) -> (res: bool)
    ensures
        name_set_members(*final(s)) == name_set_members(*old(s)).insert(name@),
        res == !name_set_members(*old(s)).contains(name@),
{
    s.insert(name)
}

/// `HashSet::clone`: a set with the same names.
#[verifier::external_body]
pub fn name_set_clone(s: &NameSet) -> (res: NameSet)
    ensures
        name_set_members(res) == name_set_members(*s),
{
    s.clone()
}

/// `HashSet::clear`: removes every name.
#[verifier::external_body]
pub fn name_set_clear(s: &mut NameSet)
    ensures
        name_set_members(*final(s)) == Set::<Seq<char>>::empty(),
{
    s.clear()
}

} // verus!
