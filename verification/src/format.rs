//! The closed set of supported formats and the shape that each one can hold.

use crate::tree::Tree;
use crate::value::GenericValue;
use vstd::prelude::*;

verus! {

/// One of the six structured-text formats.
#[derive(Clone, Copy, Debug, PartialEq, Eq, Structural)]
pub enum Format {
    Json,
    Toml,
    Yaml,
    Ron,
    Xml,
    Url,
}

/// Whether a document of this shape can be written in `format` at all. TOML
/// has no root but a mapping; form data is a mapping whose values are all
/// scalars; the other formats take any shape.
pub open spec fn holds_shape(format: Format, tree: Tree) -> bool {
    match format {
        Format::Toml => tree is Mapping,
        Format::Url => tree.is_flat_mapping(),
        _ => true,
    }
}

impl Format {
    /// Decides whether the shape of `value` can be written in this format.
    pub fn accepts(self, value: &GenericValue) -> (ok: bool)
        ensures
            ok == holds_shape(self, value@),
    {
        match self {
            Format::Toml => value.is_mapping(),
            Format::Url => value.is_flat_mapping(),
            _ => true,
        }
    }
}

} // verus!
