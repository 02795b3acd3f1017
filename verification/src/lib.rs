//! Converts author-friendly `${tag}` / `${/tag}` markup into SSML.
//!
//! The pipeline has two stages: a scanning tokenizer that splits the input
//! into start tags, end tags and literal text runs, and an interpreter that
//! resolves each tag against a closed vocabulary and emits the corresponding
//! XML events through a writer.

use vstd::prelude::*;

pub mod parser;
pub mod ssml_constants;
pub mod strutil;
pub mod xml_writer;

verus! {

/// The errors a conversion can surface.
#[derive(Clone, Debug)]
pub enum SsmlError {
    /// A start or end tag marker was opened but never terminated by `}`.
    /// Carries the remainder of the input from the offending marker on.
    MalformedTag { remainder: String },
    /// An element that needs at least one attribute was requested with none.
    MissingAttributes,
}

/// Parses an owned string in the lightweight tag notation into SSML.
pub fn parse_string(to_parse: String) -> (r: Result<String, SsmlError>)
    ensures
        r is Ok <==> parser::ssml_of(to_parse@) is Some,
        r matches Ok(out) ==> parser::ssml_of(to_parse@) == Some(out@),
        r matches Err(e) ==> e matches SsmlError::MalformedTag { remainder } && remainder@
            == parser::fail_remainder(to_parse@),
{
    parser::parse_as_ssml(to_parse.as_str())
}

/// Parses a string slice in the lightweight tag notation into SSML.
pub fn parse_str(to_parse: &str) -> (r: Result<String, SsmlError>)
    ensures
        r is Ok <==> parser::ssml_of(to_parse@) is Some,
        r matches Ok(out) ==> parser::ssml_of(to_parse@) == Some(out@),
        r matches Err(e) ==> e matches SsmlError::MalformedTag { remainder } && remainder@
            == parser::fail_remainder(to_parse@),
{
    parser::parse_as_ssml(to_parse)
}

} // verus!
