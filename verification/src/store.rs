//! The variable store: a mapping from variable name to resolved string value.
//!
//! One store is created empty per run, mutated only by executing a variable
//! task, and read by the change and move tasks. Its mathematical model is a
//! map from name to value; inserting overwrites any prior value for the name.
use crate::text::str_eq;
use vstd::prelude::*;

verus! {

/// The map modelled by a sequence of name/value entries, later entries
/// overwriting earlier ones.
pub open spec fn map_of(es: Seq<(String, String)>) -> Map<Seq<char>, Seq<char>>
    decreases es.len(),
{
    if es.len() == 0 {
        Map::empty()
    } else {
        map_of(es.drop_last()).insert(es.last().0@, es.last().1@)
    }
}

/// A name matched by no entry is not in the modelled map.
proof fn lemma_map_of_absent(es: Seq<(String, String)>, name: Seq<char>)
    requires
        forall|j: int| 0 <= j < es.len() ==> es[j].0@ != name,
    ensures
        !map_of(es).contains_key(name),
    decreases es.len(),
{
    if es.len() > 0 {
        lemma_map_of_absent(es.drop_last(), name);
    }
}

/// The entry whose name no later entry repeats decides the modelled value.
proof fn lemma_map_of_found(es: Seq<(String, String)>, k: int, name: Seq<char>)
    requires
        0 <= k < es.len(),
        es[k].0@ == name,
        forall|j: int| k < j < es.len() ==> es[j].0@ != name,
    ensures
        map_of(es).contains_key(name),
        map_of(es)[name] == es[k].1@,
    decreases es.len(),
{
    if k + 1 < es.len() {
        lemma_map_of_found(es.drop_last(), k, name);
    }
}

/// The store of resolved variable values, keyed by variable name.
#[derive(Debug, Clone)]
pub struct VariableStore {
    entries: Vec<(String, String)>,
}

impl View for VariableStore {
    type V = Map<Seq<char>, Seq<char>>;

    closed spec fn view(&self) -> Map<Seq<char>, Seq<char>> {
        map_of(self.entries@)
    }
}

impl VariableStore {
    /// A store with no resolved value in it.
    pub fn new() -> (r: VariableStore)
        ensures
            r@ == Map::<Seq<char>, Seq<char>>::empty(),
    {
        VariableStore { entries: Vec::new() }
    }

    /// Records the resolved value for a name, overwriting any prior value.
    pub fn insert(&mut self, name: String, value: String)
        ensures
            final(self)@ == old(self)@.insert(name@, value@),
    {
        let ghost es0 = self.entries@;
        self.entries.push((name, value));
        proof {
            assert(self.entries@.drop_last() =~= es0);
        }
    }

    /// Looks the name up, returning its resolved value when one is recorded.
    pub fn get(&self, name: &str) -> (r: Option<String>)
        ensures
            match r {
                Some(v) => self@.contains_key(name@) && v@ == self@[name@],
                None => !self@.contains_key(name@),
            },
    {
        let mut k = self.entries.len();
        while k > 0
            invariant
                k <= self.entries.len(),
                forall|j: int| k <= j < self.entries@.len() ==> self.entries@[j].0@ != name@,
            decreases k,
        {
            k = k - 1;
            if str_eq(self.entries[k].0.as_str(), name) {
                proof {
                    lemma_map_of_found(self.entries@, k as int, name@);
                }
                return Some(self.entries[k].1.clone());
            }
        }
        proof {
            lemma_map_of_absent(self.entries@, name@);
        }
        None
    }

    /// Whether the name has a resolved value.
    pub fn contains(&self, name: &str) -> (r: bool)
        ensures
            r == self@.contains_key(name@),
    {
        match self.get(name) {
            Some(_) => true,
            None => false,
        }
    }
}

} // verus!
