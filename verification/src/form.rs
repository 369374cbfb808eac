//! Form data: the check of its percent-encoding, and the flat mapping that
//! its pairs stand for.

use crate::codec::pair_views;
use crate::tree::{bind_all, lemma_bind_all_distinct, Tree};
use crate::value::{GenericValue, Mapping};
use vstd::prelude::*;

verus! {

/// A hexadecimal digit, in either case.
pub open spec fn hex_digit(c: char) -> bool {
    ('0' <= c && c <= '9') || ('a' <= c && c <= 'f') || ('A' <= c && c <= 'F')
}

/// Every percent sign in `text` is followed by two hexadecimal digits.
pub open spec fn well_escaped(text: Seq<char>) -> bool {
    forall|i: int|
        0 <= i < text.len() && #[trigger] text[i] == '%' ==> i + 2 < text.len() && hex_digit(
            text[i + 1],
        ) && hex_digit(text[i + 2])
}

/// The diagnostic for text whose percent-encoding is malformed.
pub open spec fn escape_message() -> Seq<char> {
    "malformed percent-encoding"@
}

/// Decides whether `c` is a hexadecimal digit.
pub fn is_hex_digit(c: char) -> (b: bool)
    ensures
        b == hex_digit(c),
{
    ('0' <= c && c <= '9') || ('a' <= c && c <= 'f') || ('A' <= c && c <= 'F')
}

/// Decides whether every percent sign in `text` is followed by two
/// hexadecimal digits.
pub fn is_well_escaped(text: &str) -> (ok: bool)
    ensures
        ok == well_escaped(text@),
{
    let ghost all = text@;
    // The number of hexadecimal digits that the last percent sign still lacks.
    let mut owed: u8 = 0;
    for c in it: text.chars()
        invariant
            it.seq() == all,
            all == text@,
            owed <= 2,
            owed > 0 ==> it.index() + owed >= 3 && all[it.index() + owed - 3] == '%',
            owed == 1 ==> hex_digit(all[it.index() - 1]),
            forall|j: int|
                0 <= j && (if owed == 0 {
                    j < it.index()
                } else {
                    j < it.index() + owed - 3
                }) && #[trigger] all[j] == '%' ==> j + 2 < it.index() && hex_digit(all[j + 1])
                    && hex_digit(all[j + 2]),
    {
        let ghost n = it.index() as int;
        assert(c == all[n]);
        if owed == 0 {
            if c == '%' {
                owed = 2;
            }
        } else if is_hex_digit(c) {
            owed = owed - 1;
        } else {
            assert(all[n + owed - 3] == '%');
            return false;
        }
    }
    if owed > 0 {
        assert(all[all.len() + owed - 3] == '%');
    }
    owed == 0
}

/// Form-data pairs as mapping entries: every value stays a string.
pub open spec fn string_entries(pairs: Seq<(Seq<char>, Seq<char>)>) -> Seq<(Seq<char>, Tree)> {
    Seq::new(pairs.len(), |i: int| (pairs[i].0, Tree::String(pairs[i].1)))
}

/// The flat mapping that form-data pairs stand for. Where a key occurs more
/// than once, it keeps its first place and its last value.
pub open spec fn form_tree(pairs: Seq<(Seq<char>, Seq<char>)>) -> Tree {
    Tree::Mapping(bind_all(string_entries(pairs)))
}

/// Builds the flat mapping that form-data pairs stand for.
pub fn form_value(pairs: Vec<(String, String)>) -> (value: GenericValue)
    ensures
        value@ == form_tree(pair_views(pairs@)),
        value@.well_formed(),
{
    let ghost all = pairs@;
    let ghost entries = string_entries(pair_views(all));
    let mut mapping = Mapping::new();
    for pair in it: pairs
        invariant
            it.seq() == all,
            entries == string_entries(pair_views(all)),
            mapping@ == bind_all(entries.take(it.index() as int)),
    {
        let ghost i = it.index() as int;
        let (key, text) = pair;
        proof {
            let now = entries.take(i + 1);
            assert(now.drop_last() =~= entries.take(i));
            assert(now.last() == (key@, Tree::String(text@)));
        }
        mapping.insert(key, GenericValue::String(text));
    }
    proof {
        assert(entries.take(entries.len() as int) =~= entries);
        lemma_bind_all_distinct(entries);
        lemma_bind_all_strings(entries);
        assert forall|i: int| 0 <= i < mapping@.len() implies (#[trigger] mapping@[i]).1.well_formed() by {
            assert(mapping@[i].1 is String);
        }
    }
    GenericValue::Mapping(mapping)
}

/// Binding string entries leaves only string values.
proof fn lemma_bind_all_strings(entries: Seq<(Seq<char>, Tree)>)
    requires
        forall|i: int| 0 <= i < entries.len() ==> (#[trigger] entries[i]).1 is String,
    ensures
        forall|i: int|
            0 <= i < bind_all(entries).len() ==> (#[trigger] bind_all(entries)[i]).1 is String,
    decreases entries.len(),
{
    if entries.len() > 0 {
        lemma_bind_all_strings(entries.drop_last());
    }
}

} // verus!
