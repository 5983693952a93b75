//! Decisions behind generation parameters.
use vstd::prelude::*;

verus! {

/// Guidance formats supported when constraining generated output.
#[derive(Debug, Clone, Copy, PartialEq, Eq, Structural)]
pub enum GuidanceTypes {
    /// A JSON Schema describing the expected output.
    JsonSchema,
    /// A regular expression describing the expected output.
    Regex,
    /// A Lark grammar describing the expected output.
    LarkGrammer,
}

/// The name under which the native library knows a guidance format.
pub open spec fn guidance_type_name(t: GuidanceTypes) -> Seq<char> {
    match t {
        GuidanceTypes::JsonSchema => "json_schema"@,
        GuidanceTypes::Regex => "regex"@,
        GuidanceTypes::LarkGrammer => "lark_grammar"@,
    }
}

impl GuidanceTypes {
    /// Returns the name handed to the native library for this guidance format.
    pub fn name(self) -> (s: &'static str)
        ensures
            s@ == guidance_type_name(self),
    {
        match self {
            GuidanceTypes::JsonSchema => "json_schema",
            GuidanceTypes::Regex => "regex",
            GuidanceTypes::LarkGrammer => "lark_grammar",
        }
    }
}

/// Distinct guidance formats have distinct names.
pub proof fn lemma_guidance_type_names_distinct(a: GuidanceTypes, b: GuidanceTypes)
    ensures
        a != b ==> guidance_type_name(a) != guidance_type_name(b),
{
    reveal_strlit("json_schema");
    reveal_strlit("regex");
    reveal_strlit("lark_grammar");
    if a != b {
        assert(guidance_type_name(a)[0] != guidance_type_name(b)[0]);
    }
}

} // verus!
