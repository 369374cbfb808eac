//! The two ways in which a conversion fails.

use vstd::prelude::*;

verus! {

/// Why a conversion produced no text. The two kinds call for different
/// remedies and are never merged: either the input is broken, or it cannot
/// be expressed in the target format.
#[derive(Debug, PartialEq, Eq)]
pub enum ConversionError {
    /// The input is not a document of the declared input format.
    Parse(String),
    /// The document cannot be written in the requested output format.
    Serialize(String),
}

/// A failure with its diagnostic as plain text.
pub enum Failure {
    Parse(Seq<char>),
    Serialize(Seq<char>),
}

impl View for ConversionError {
    type V = Failure;

    open spec fn view(&self) -> Failure {
        match self {
            ConversionError::Parse(message) => Failure::Parse(message@),
            ConversionError::Serialize(message) => Failure::Serialize(message@),
        }
    }
}

impl ConversionError {
    /// Whether the failure arose while reading the input.
    pub fn is_parse_error(&self) -> (b: bool)
        ensures
            b == (self@ is Parse),
    {
        match self {
            ConversionError::Parse(_) => true,
            ConversionError::Serialize(_) => false,
        }
    }

    /// Whether the failure arose while writing the output.
    pub fn is_serialize_error(&self) -> (b: bool)
        ensures
            b == (self@ is Serialize),
    {
        match self {
            ConversionError::Parse(_) => false,
            ConversionError::Serialize(_) => true,
        }
    }

    /// The diagnostic that came with the failure.
    pub fn message(&self) -> (text: &String)
        ensures
            self@ == Failure::Parse(text@) || self@ == Failure::Serialize(text@),
    {
        match self {
            ConversionError::Parse(message) => message,
            ConversionError::Serialize(message) => message,
        }
    }
}

} // verus!
