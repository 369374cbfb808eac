//! The conversion pipeline: read the input in one format, write the document
//! in another, and tell the two kinds of failure apart.

use crate::bridge::{from_document, to_document};
use crate::codec::{
    json_parsed, json_read, json_rendered, json_write, ron_parsed, ron_read, ron_rendered,
    ron_write, toml_parsed, toml_read, toml_rendered, toml_write, url_parsed, url_read,
    url_rendered, url_write, xml_parsed, xml_read, xml_rendered, xml_write, yaml_parsed,
    yaml_read, yaml_rendered, yaml_write,
};
use crate::error::{ConversionError, Failure};
use crate::form::{escape_message, form_tree, form_value, is_well_escaped, well_escaped};
use crate::format::{holds_shape, Format};
use crate::tree::Tree;
use crate::value::GenericValue;
use vstd::prelude::*;

verus! {

/// What reading `text` as `format` yields: the document, or a diagnostic.
/// Form data with malformed percent-encoding is refused before its codec sees
/// it; every other diagnostic is the codec's own.
pub open spec fn parsed(format: Format, text: Seq<char>) -> Result<Tree, Seq<char>> {
    match format {
        Format::Json => json_parsed(text),
        Format::Toml => toml_parsed(text),
        Format::Yaml => yaml_parsed(text),
        Format::Ron => ron_parsed(text),
        Format::Xml => xml_parsed(text),
        Format::Url => if well_escaped(text) {
            match url_parsed(text) {
                Ok(pairs) => Ok(form_tree(pairs)),
                Err(message) => Err(message),
            }
        } else {
            Err(escape_message())
        },
    }
}

/// The diagnostic for a document whose shape `format` cannot hold.
pub open spec fn shape_message(format: Format) -> Seq<char> {
    match format {
        Format::Toml => "the root of a TOML document must be a mapping"@,
        _ => "form data must be a mapping of scalar values"@,
    }
}

/// What the codec of `format` writes for `tree`.
pub open spec fn codec_rendered(format: Format, tree: Tree) -> Result<Seq<char>, Seq<char>> {
    match format {
        Format::Json => json_rendered(tree),
        Format::Toml => toml_rendered(tree),
        Format::Yaml => yaml_rendered(tree),
        Format::Ron => ron_rendered(tree),
        Format::Xml => xml_rendered(tree),
        Format::Url => url_rendered(tree),
    }
}

/// What writing `tree` as `format` yields: a shape that the format cannot
/// hold is refused outright, any other goes to the format's codec.
pub open spec fn rendered(format: Format, tree: Tree) -> Result<Seq<char>, Seq<char>> {
    if holds_shape(format, tree) {
        codec_rendered(format, tree)
    } else {
        Err(shape_message(format))
    }
}

/// What converting `text` from `input` to `output` yields.
pub open spec fn converted(text: Seq<char>, input: Format, output: Format) -> Result<
    Seq<char>,
    Failure,
> {
    match parsed(input, text) {
        Err(message) => Err(Failure::Parse(message)),
        Ok(tree) => match rendered(output, tree) {
            Err(message) => Err(Failure::Serialize(message)),
            Ok(out) => Ok(out),
        },
    }
}

/// Reads `text` as a document of `format`.
pub fn parse(format: Format, text: &str) -> (r: Result<GenericValue, ConversionError>)
    ensures
        match parsed(format, text@) {
            Ok(tree) => r is Ok && r->Ok_0@ == tree,
            Err(message) => r is Err && r->Err_0@ == Failure::Parse(message),
        },
        r is Ok ==> r->Ok_0@.well_formed(),
{
    if format == Format::Url {
        if !is_well_escaped(text) {
            return Err(ConversionError::Parse("malformed percent-encoding".to_owned()));
        }
        match url_read(text) {
            Ok(pairs) => Ok(form_value(pairs)),
            Err(message) => Err(ConversionError::Parse(message)),
        }
    } else {
        let read = match format {
            Format::Json => json_read(text),
            Format::Toml => toml_read(text),
            Format::Yaml => yaml_read(text),
            Format::Ron => ron_read(text),
            _ => xml_read(text),
        };
        match read {
            Ok(doc) => Ok(from_document(doc)),
            Err(message) => Err(ConversionError::Parse(message)),
        }
    }
}

/// The failure for a shape that `format` cannot hold.
fn shape_error(format: Format) -> (e: ConversionError)
    ensures
        e@ == Failure::Serialize(shape_message(format)),
{
    match format {
        Format::Toml => ConversionError::Serialize(
            "the root of a TOML document must be a mapping".to_owned(),
        ),
        _ => ConversionError::Serialize("form data must be a mapping of scalar values".to_owned()),
    }
}

/// Writes `value` as text in `format`.
pub fn serialize(format: Format, value: &GenericValue) -> (r: Result<String, ConversionError>)
    ensures
        match rendered(format, value@) {
            Ok(text) => r is Ok && r->Ok_0@ == text,
            Err(message) => r is Err && r->Err_0@ == Failure::Serialize(message),
        },
{
    if !format.accepts(value) {
        return Err(shape_error(format));
    }
    let doc = to_document(value);
    let written = match format {
        Format::Json => json_write(&doc),
        Format::Toml => toml_write(&doc),
        Format::Yaml => yaml_write(&doc),
        Format::Ron => ron_write(&doc),
        Format::Xml => xml_write(&doc),
        Format::Url => url_write(&doc),
    };
    match written {
        Ok(text) => Ok(text),
        Err(message) => Err(ConversionError::Serialize(message)),
    }
}

/// Converts `input` from one format to another. A failure to read the input
/// is reported as such whatever the output format; only a document that was
/// read can fail to be written.
pub fn convert(input: &str, input_format: Format, output_format: Format) -> (r: Result<
    String,
    ConversionError,
>)
    ensures
        match converted(input@, input_format, output_format) {
            Ok(text) => r is Ok && r->Ok_0@ == text,
            Err(failure) => r is Err && r->Err_0@ == failure,
        },
{
    match parse(input_format, input) {
        Err(e) => Err(e),
        Ok(value) => serialize(output_format, &value),
    }
}

} // verus!
