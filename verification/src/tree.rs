//! The mathematical model of a document: a finite tree of scalars, sequences
//! and string-keyed mappings.

use vstd::prelude::*;

verus! {

/// The number type of the pivot codec. A number is carried through a
/// conversion untouched, so nothing is said of what it holds.
#[verifier::external_type_specification]
#[verifier::external_body]
pub struct ExNumber(serde_json::Number);

/// `Clone::clone` of `serde_json::Number`: the copy is the number it was
/// made from.
pub assume_specification[ <serde_json::Number as Clone>::clone ](
    n: &serde_json::Number,
) -> (r: serde_json::Number)
    ensures
        r == *n,
;

/// What a document is, independent of how it is stored.
pub enum Tree {
    Null,
    Bool(bool),
    Number(serde_json::Number),
    String(Seq<char>),
    Sequence(Seq<Tree>),
    Mapping(Seq<(Seq<char>, Tree)>),
}

/// No key occurs twice among `entries`.
pub open spec fn distinct_keys<V>(entries: Seq<(Seq<char>, V)>) -> bool {
    forall|i: int, j: int|
        0 <= i < j < entries.len() ==> (#[trigger] entries[i]).0 != (#[trigger] entries[j]).0
}

/// The position of `key` among `entries`, if it occurs there.
pub open spec fn position_of<V>(entries: Seq<(Seq<char>, V)>, key: Seq<char>) -> Option<int> {
    if exists|i: int| 0 <= i < entries.len() && (#[trigger] entries[i]).0 == key {
        Some(choose|i: int| 0 <= i < entries.len() && (#[trigger] entries[i]).0 == key)
    } else {
        None
    }
}

/// `entries` after `key` has been bound to `value`: a key that is already
/// present keeps its place and takes the new value, a new key goes last.
pub open spec fn bind<V>(entries: Seq<(Seq<char>, V)>, key: Seq<char>, value: V) -> Seq<
    (Seq<char>, V),
> {
    match position_of(entries, key) {
        Some(i) => entries.update(i, (key, value)),
        None => entries.push((key, value)),
    }
}

/// The mapping that results from binding each of `pairs` in turn, starting
/// from nothing.
pub open spec fn bind_all<V>(pairs: Seq<(Seq<char>, V)>) -> Seq<(Seq<char>, V)>
    decreases pairs.len(),
{
    if pairs.len() == 0 {
        Seq::empty()
    } else {
        let last = pairs.last();
        bind(bind_all(pairs.drop_last()), last.0, last.1)
    }
}

impl Tree {
    /// Every mapping in the tree, at any depth, has distinct keys.
    pub open spec fn well_formed(self) -> bool
        decreases self,
    {
        match self {
            Tree::Sequence(items) => forall|i: int|
                0 <= i < items.len() ==> (#[trigger] items[i]).well_formed(),
            Tree::Mapping(entries) => distinct_keys(entries) && forall|i: int|
                0 <= i < entries.len() ==> (#[trigger] entries[i]).1.well_formed(),
            _ => true,
        }
    }

    /// The tree is a sequence or a mapping.
    pub open spec fn is_container(self) -> bool {
        self is Sequence || self is Mapping
    }

    /// The tree is a mapping none of whose values is a sequence or a mapping.
    pub open spec fn is_flat_mapping(self) -> bool {
        match self {
            Tree::Mapping(entries) => forall|i: int|
                0 <= i < entries.len() ==> !(#[trigger] entries[i]).1.is_container(),
            _ => false,
        }
    }
}

/// Binding a key keeps the keys distinct.
pub proof fn lemma_bind_distinct<V>(entries: Seq<(Seq<char>, V)>, key: Seq<char>, value: V)
    requires
        distinct_keys(entries),
    ensures
        distinct_keys(bind(entries, key, value)),
{
    let after = bind(entries, key, value);
    match position_of(entries, key) {
        Some(p) => {
            assert forall|i: int, j: int| 0 <= i < j < after.len() implies (#[trigger] after[i]).0
                != (#[trigger] after[j]).0 by {
                assert(entries[i].0 != entries[j].0);
            }
        },
        None => {
            assert forall|i: int, j: int| 0 <= i < j < after.len() implies (#[trigger] after[i]).0
                != (#[trigger] after[j]).0 by {
                if j < entries.len() {
                    assert(entries[i].0 != entries[j].0);
                } else {
                    assert(entries[i].0 != key);
                }
            }
        },
    }
}

/// Binding every pair in turn yields distinct keys.
pub proof fn lemma_bind_all_distinct<V>(pairs: Seq<(Seq<char>, V)>)
    ensures
        distinct_keys(bind_all(pairs)),
    decreases pairs.len(),
{
    if pairs.len() > 0 {
        lemma_bind_all_distinct(pairs.drop_last());
        lemma_bind_distinct(bind_all(pairs.drop_last()), pairs.last().0, pairs.last().1);
    }
}

} // verus!
