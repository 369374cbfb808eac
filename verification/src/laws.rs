//! Laws of the conversion pipeline: what holds of every conversion, proved
//! from the definitions that the pipeline's contracts are stated in.

use crate::convert::{converted, parsed, rendered, shape_message};
use crate::error::Failure;
use crate::format::{holds_shape, Format};
use crate::tree::{bind, distinct_keys, lemma_bind_distinct, position_of, Tree};
use vstd::prelude::*;

verus! {

/// Input that cannot be read fails as a parse error, with the reader's
/// diagnostic, whatever output format was asked for.
pub proof fn law_unreadable_input_is_a_parse_error(
    text: Seq<char>,
    input: Format,
    output: Format,
)
    requires
        parsed(input, text) is Err,
    ensures
        converted(text, input, output) == Err::<Seq<char>, Failure>(
            Failure::Parse(parsed(input, text)->Err_0),
        ),
{
}

/// A conversion fails as a parse error exactly when its input cannot be
/// read, and as a serialize error only when the input was read.
pub proof fn law_failures_are_told_apart(text: Seq<char>, input: Format, output: Format)
    ensures
        (converted(text, input, output) is Err && converted(text, input, output)->Err_0 is Parse)
            <==> parsed(input, text) is Err,
        (converted(text, input, output) is Err && converted(
            text,
            input,
            output,
        )->Err_0 is Serialize) <==> (parsed(input, text) is Ok && rendered(
            output,
            parsed(input, text)->Ok_0,
        ) is Err),
        converted(text, input, output) is Ok <==> (parsed(input, text) is Ok && rendered(
            output,
            parsed(input, text)->Ok_0,
        ) is Ok),
{
}

/// Whether input can be read does not depend on the output format.
pub proof fn law_reading_ignores_the_output_format(
    text: Seq<char>,
    input: Format,
    first: Format,
    second: Format,
)
    ensures
        (converted(text, input, first) is Err && converted(text, input, first)->Err_0 is Parse)
            <==> (converted(text, input, second) is Err && converted(
            text,
            input,
            second,
        )->Err_0 is Parse),
{
}

/// A document whose shape a format cannot hold is never written: the attempt
/// fails, and nothing of the document is dropped to make it fit.
pub proof fn law_unfit_shape_is_refused(format: Format, tree: Tree)
    requires
        !holds_shape(format, tree),
    ensures
        rendered(format, tree) == Err::<Seq<char>, Seq<char>>(shape_message(format)),
{
}

/// Only TOML and form data refuse a document for its shape.
pub proof fn law_other_formats_take_any_shape(format: Format, tree: Tree)
    requires
        format != Format::Toml,
        format != Format::Url,
    ensures
        holds_shape(format, tree),
{
}

/// A document that is not a mapping cannot be written as TOML.
pub proof fn law_toml_root_is_a_mapping(tree: Tree)
    requires
        !(tree is Mapping),
    ensures
        rendered(Format::Toml, tree) is Err,
{
}

/// A mapping with a sequence or a mapping among its values cannot be written
/// as form data, and neither can a document that is no mapping.
pub proof fn law_form_data_is_flat(tree: Tree)
    requires
        tree is Mapping ==> exists|i: int|
            0 <= i < tree->Mapping_0.len() && (#[trigger] tree->Mapping_0[i]).1.is_container(),
    ensures
        rendered(Format::Url, tree) is Err,
{
}

/// Converting within one format reproduces text that already is what the
/// format's writer makes of its document: if the output of such a conversion
/// reads back as the document it was written from, converting the output
/// yields the output again.
pub proof fn law_same_format_conversion_settles(text: Seq<char>, format: Format)
    requires
        converted(text, format, format) is Ok,
        parsed(format, converted(text, format, format)->Ok_0) == parsed(format, text),
    ensures
        converted(converted(text, format, format)->Ok_0, format, format) == converted(
            text,
            format,
            format,
        ),
{
}

/// Text that a format's writer made of a document, and that reads back as that
/// document, is left as it is by a conversion within the format.
pub proof fn law_round_trip_settles(format: Format, tree: Tree, text: Seq<char>)
    requires
        rendered(format, tree) == Ok::<Seq<char>, Seq<char>>(text),
        parsed(format, text) == Ok::<Tree, Seq<char>>(tree),
    ensures
        converted(text, format, format) == Ok::<Seq<char>, Failure>(text),
{
}

/// After a key has been bound, it is found, with the value it was bound to.
pub proof fn law_bound_key_is_found<V>(entries: Seq<(Seq<char>, V)>, key: Seq<char>, value: V)
    requires
        distinct_keys(entries),
    ensures
        position_of(bind(entries, key, value), key) is Some,
        bind(entries, key, value)[position_of(bind(entries, key, value), key).unwrap()] == (
            key,
            value,
        ),
{
    let after = bind(entries, key, value);
    lemma_bind_distinct(entries, key, value);
    let p = match position_of(entries, key) {
        Some(p) => p,
        None => entries.len() as int,
    };
    assert(after[p] == (key, value));
    let q = position_of(after, key).unwrap();
    if q != p {
        if q < p {
            assert(after[q].0 != after[p].0);
        } else {
            assert(after[p].0 != after[q].0);
        }
    }
}

/// Binding a key leaves every other key where it was, with the value it had.
pub proof fn law_binding_keeps_other_entries<V>(
    entries: Seq<(Seq<char>, V)>,
    key: Seq<char>,
    value: V,
    i: int,
)
    requires
        0 <= i < entries.len(),
        entries[i].0 != key,
    ensures
        i < bind(entries, key, value).len(),
        bind(entries, key, value)[i] == entries[i],
{
}

} // verus!
