//! Passage between the library's own value and the codecs' document type.
//! Both directions are verified against the tree that each side stands for.

use crate::codec::{doc_tree, entry_trees, item_trees, pack, unpack, Node};
use crate::tree::{bind, distinct_keys, position_of, Tree};
use crate::value::{GenericValue, Mapping};
use vstd::prelude::*;

verus! {

/// Turns a codec document into a value that holds the same tree.
pub fn from_document(doc: serde_json::Value) -> (value: GenericValue)
    ensures
        value@ == doc_tree(doc),
        value@.well_formed(),
    decreases doc_tree(doc),
{
    match unpack(doc) {
        Node::Null => GenericValue::Null,
        Node::Bool(b) => GenericValue::Bool(b),
        Node::Number(n) => GenericValue::Number(n),
        Node::String(s) => GenericValue::String(s),
        Node::Sequence(items) => {
            let ghost all = items@;
            let ghost trees = item_trees(all);
            let mut values: Vec<GenericValue> = Vec::new();
            for item in it: items
                invariant
                    it.seq() == all,
                    doc_tree(doc) == Tree::Sequence(trees),
                    trees == item_trees(all),
                    values@.len() == it.index(),
                    forall|i: int| 0 <= i < values@.len() ==> (#[trigger] values@[i])@ == trees[i],
                    forall|i: int| 0 <= i < values@.len() ==> (#[trigger] trees[i]).well_formed(),
            {
                proof {
                    let i = it.index() as int;
                    assert(trees[i] == doc_tree(item));
                    assert(decreases_to!(trees => trees[i]));
                    assert(trees == doc_tree(doc)->Sequence_0);
                    assert(decreases_to!(doc_tree(doc) => doc_tree(doc)->Sequence_0));
                }
                let value = from_document(item);
                values.push(value);
            }
            let value = GenericValue::Sequence(values);
            assert(value@->Sequence_0 =~= trees);
            value
        },
        Node::Mapping(entries) => {
            let ghost all = entries@;
            let ghost trees = entry_trees(all);
            let mut mapping = Mapping::new();
            for entry in it: entries
                invariant
                    it.seq() == all,
                    doc_tree(doc) == Tree::Mapping(trees),
                    trees == entry_trees(all),
                    distinct_keys(trees),
                    mapping@ == trees.take(it.index() as int),
                    forall|j: int| 0 <= j < it.index() ==> (#[trigger] trees[j]).1.well_formed(),
            {
                let ghost i = it.index() as int;
                proof {
                    assert(trees[i] == (entry.0@, doc_tree(entry.1)));
                    assert(trees == doc_tree(doc)->Mapping_0);
                    assert(decreases_to!(doc_tree(doc) => doc_tree(doc)->Mapping_0));
                    assert(decreases_to!(trees => trees[i]));
                    assert(decreases_to!(trees[i] => trees[i].1));
                }
                let (key, child) = entry;
                let value = from_document(child);
                proof {
                    let before = trees.take(i);
                    assert forall|j: int| 0 <= j < before.len() implies (#[trigger] before[j]).0
                        != key@ by {
                        assert(trees[j].0 != trees[i].0);
                    }
                    assert(position_of(before, key@).is_none());
                    assert(bind(before, key@, value@) =~= trees.take(i + 1));
                }
                mapping.insert(key, value);
            }
            assert(trees.take(trees.len() as int) =~= trees);
            GenericValue::Mapping(mapping)
        },
    }
}

/// Turns a value into a codec document that holds the same tree.
pub fn to_document(value: &GenericValue) -> (doc: serde_json::Value)
    ensures
        doc_tree(doc) == value@,
    decreases value,
{
    match value {
        GenericValue::Null => pack(Node::Null),
        GenericValue::Bool(b) => pack(Node::Bool(*b)),
        GenericValue::Number(n) => pack(Node::Number(n.clone())),
        GenericValue::String(s) => pack(Node::String(s.clone())),
        GenericValue::Sequence(items) => {
            let mut docs: Vec<serde_json::Value> = Vec::new();
            let mut i: usize = 0;
            while i < items.len()
                invariant
                    i <= items@.len(),
                    docs@.len() == i,
                    *value is Sequence,
                    value->Sequence_0 == *items,
                    forall|j: int| 0 <= j < i ==> doc_tree(#[trigger] docs@[j]) == items@[j]@,
                decreases items@.len() - i,
            {
                proof {
                    assert(decreases_to!(*items => items[i as int]));
                    assert(decreases_to!(*value => value->Sequence_0));
                }
                let doc = to_document(&items[i]);
                docs.push(doc);
                i += 1;
            }
            let node = Node::Sequence(docs);
            assert(item_trees(docs@) =~= value@->Sequence_0);
            pack(node)
        },
        GenericValue::Mapping(m) => {
            let mut docs: Vec<(String, serde_json::Value)> = Vec::new();
            let mut i: usize = 0;
            while i < m.len()
                invariant
                    i <= m@.len(),
                    docs@.len() == i,
                    *value is Mapping,
                    value->Mapping_0 == *m,
                    forall|j: int|
                        0 <= j < i ==> (#[trigger] docs@[j]).0@ == m@[j].0 && doc_tree(docs@[j].1)
                            == m@[j].1,
                decreases m@.len() - i,
            {
                let key = m.key_at(i).clone();
                let child = m.value_at(i);
                proof {
                    assert(decreases_to!(*value => value->Mapping_0));
                }
                let doc = to_document(child);
                docs.push((key, doc));
                i += 1;
            }
            proof {
                use_type_invariant(m);
                assert(entry_trees(docs@) =~= m@);
            }
            pack(Node::Mapping(docs))
        },
    }
}

} // verus!
