//! The generic document value that every format is read into and written
//! from.

use crate::tree::{bind, distinct_keys, lemma_bind_distinct, position_of, Tree};
use vstd::prelude::*;

verus! {

/// A document: a scalar, a sequence of documents, or a mapping from strings
/// to documents.
#[derive(Debug, PartialEq)]
pub enum GenericValue {
    Null,
    Bool(bool),
    Number(serde_json::Number),
    String(String),
    Sequence(Vec<GenericValue>),
    Mapping(Mapping),
}

/// An ordered collection of entries whose keys are pairwise distinct. Entries
/// stay in the order in which their keys were first inserted.
#[derive(Debug, PartialEq)]
pub struct Mapping {
    entries: Vec<(String, GenericValue)>,
}

impl View for GenericValue {
    type V = Tree;

    open spec fn view(&self) -> Tree
        decreases self,
    {
        match self {
            GenericValue::Null => Tree::Null,
            GenericValue::Bool(b) => Tree::Bool(*b),
            GenericValue::Number(n) => Tree::Number(*n),
            GenericValue::String(s) => Tree::String(s@),
            GenericValue::Sequence(items) => Tree::Sequence(
                Seq::new(
                    items@.len(),
                    |i: int|
                        if 0 <= i < items@.len() {
                            items@[i]@
                        } else {
                            Tree::Null
                        },
                ),
            ),
            GenericValue::Mapping(m) => Tree::Mapping(m@),
        }
    }
}

impl View for Mapping {
    type V = Seq<(Seq<char>, Tree)>;

    closed spec fn view(&self) -> Seq<(Seq<char>, Tree)>
        decreases self,
    {
        Seq::new(
            self.entries@.len(),
            |i: int|
                if 0 <= i < self.entries@.len() {
                    (self.entries@[i].0@, self.entries@[i].1@)
                } else {
                    (Seq::empty(), Tree::Null)
                },
        )
    }
}

impl GenericValue {
    /// Whether the value is a mapping.
    pub fn is_mapping(&self) -> (b: bool)
        ensures
            b == (self@ is Mapping),
    {
        match self {
            GenericValue::Mapping(_) => true,
            _ => false,
        }
    }

    /// Whether the value is a sequence or a mapping.
    pub fn is_container(&self) -> (b: bool)
        ensures
            b == self@.is_container(),
    {
        match self {
            GenericValue::Sequence(_) => true,
            GenericValue::Mapping(_) => true,
            _ => false,
        }
    }

    /// Whether the value is a mapping none of whose values is a sequence or
    /// a mapping.
    pub fn is_flat_mapping(&self) -> (b: bool)
        ensures
            b == self@.is_flat_mapping(),
    {
        match self {
            GenericValue::Mapping(m) => {
                let mut i: usize = 0;
                while i < m.len()
                    invariant
                        i <= m@.len(),
                        self@ == Tree::Mapping(m@),
                        forall|j: int| 0 <= j < i ==> !(#[trigger] m@[j]).1.is_container(),
                    decreases m@.len() - i,
                {
                    if m.value_at(i).is_container() {
                        assert(m@[i as int].1.is_container());
                        assert(self@->Mapping_0 == m@);
                        return false;
                    }
                    i += 1;
                }
                true
            },
            _ => false,
        }
    }
}

impl Mapping {
    /// The keys of the entries are pairwise distinct.
    #[verifier::type_invariant]
    pub open spec fn keys_are_distinct(self) -> bool {
        distinct_keys(self@)
    }

    /// A mapping without entries.
    pub fn new() -> (m: Mapping)
        ensures
            m@ == Seq::<(Seq<char>, Tree)>::empty(),
    {
        let m = Mapping { entries: Vec::new() };
        assert(m@ =~= Seq::<(Seq<char>, Tree)>::empty());
        m
    }

    /// The number of entries.
    pub fn len(&self) -> (n: usize)
        ensures
            n == self@.len(),
    {
        self.entries.len()
    }

    /// The entry at `index`, counting from the first; none past the last.
    pub fn entry(&self, index: usize) -> (found: Option<(&String, &GenericValue)>)
        ensures
            match found {
                Some((key, value)) => index < self@.len() && self@[index as int] == (
                    key@,
                    value@,
                ),
                None => index >= self@.len(),
            },
    {
        if index < self.entries.len() {
            Some((&self.entries[index].0, &self.entries[index].1))
        } else {
            None
        }
    }

    /// The key of the entry at `index`.
    pub(crate) fn key_at(&self, index: usize) -> (key: &String)
        requires
            index < self@.len(),
        ensures
            key@ == self@[index as int].0,
    {
        &self.entries[index].0
    }

    /// The value of the entry at `index`, which is a part of this mapping.
    pub(crate) fn value_at(&self, index: usize) -> (value: &GenericValue)
        requires
            index < self@.len(),
        ensures
            value@ == self@[index as int].1,
            decreases_to!(*self => *value),
    {
        let entry = &self.entries[index];
        proof {
            assert(decreases_to!(self.entries => self.entries[index as int]));
            assert(decreases_to!(*entry => entry.1));
        }
        &entry.1
    }

    /// The place of `key` among the entries, if it is bound.
    pub fn find(&self, key: &str) -> (found: Option<usize>)
        ensures
            match found {
                Some(i) => position_of(self@, key@) == Some(i as int) && i < self@.len()
                    && self@[i as int].0 == key@,
                None => position_of(self@, key@).is_none(),
            },
    {
        proof {
            use_type_invariant(self);
        }
        let wanted = key.to_owned();
        let mut i: usize = 0;
        while i < self.entries.len()
            invariant
                i <= self.entries@.len(),
                self@.len() == self.entries@.len(),
                distinct_keys(self@),
                wanted@ == key@,
                forall|j: int| 0 <= j < i ==> (#[trigger] self@[j]).0 != key@,
            decreases self.entries@.len() - i,
        {
            if self.entries[i].0 == wanted {
                assert(self@[i as int].0 == key@);
                return Some(i);
            }
            i += 1;
        }
        None
    }

    /// The value bound to `key`, if there is one.
    pub fn get(&self, key: &str) -> (value: Option<&GenericValue>)
        ensures
            match value {
                Some(v) => position_of(self@, key@).is_some() && v@ == self@[position_of(
                    self@,
                    key@,
                ).unwrap()].1,
                None => position_of(self@, key@).is_none(),
            },
    {
        match self.find(key) {
            Some(i) => Some(&self.entries[i].1),
            None => None,
        }
    }

    /// Binds `key` to `value`. A key that is already bound keeps its place
    /// and takes the new value; a new key goes last.
    pub fn insert(&mut self, key: String, value: GenericValue)
        ensures
            final(self)@ == bind(old(self)@, key@, value@),
    {
        proof {
            use_type_invariant(&*self);
            lemma_bind_distinct(self@, key@, value@);
        }
        let found = self.find(key.as_str());
        let mut taken = Mapping::new();
        core::mem::swap(self, &mut taken);
        let mut entries = taken.entries;
        match found {
            Some(i) => {
                entries[i] = (key, value);
            },
            None => {
                entries.push((key, value));
            },
        }
        proof {
            let bound = Mapping { entries };
            assert(bound@ =~= bind(old(self)@, key@, value@));
        }
        *self = Mapping { entries };
    }
}

} // verus!
