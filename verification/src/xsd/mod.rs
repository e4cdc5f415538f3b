//! Decisions of the generator that turns the Doxygen XML schemas into Rust
//! element types: how schema names become Rust field names and what Rust type
//! a schema type stands for.
use vstd::prelude::*;

use crate::strings::str_eq;

pub mod schema;
pub mod plan;

verus! {

/// The Rust field name for a schema attribute or element name: names that are
/// Rust keywords get a trailing underscore, all others stay as they are.
pub open spec fn spec_field_name(name: Seq<char>) -> Seq<char> {
    if is_reserved_field_name(name) {
        name.push('_')
    } else {
        name
    }
}

/// Whether a name is one of the Rust keywords that schema names can be.
pub open spec fn is_reserved_field_name(name: Seq<char>) -> bool {
    name == "type"@ || name == "static"@ || name == "ref"@ || name == "const"@ || name == "abstract"@
        || name == "final"@
}

/// No field name is one of the reserved words: those names get an underscore
/// and every other name stays as it is.
pub proof fn law_field_names_are_not_reserved(name: Seq<char>)
    ensures
        !is_reserved_field_name(spec_field_name(name)),
{
    reveal_strlit("type");
    reveal_strlit("static");
    reveal_strlit("ref");
    reveal_strlit("const");
    reveal_strlit("abstract");
    reveal_strlit("final");
    let f = spec_field_name(name);
    if is_reserved_field_name(name) {
        assert(f.last() == '_');
        assert(f.len() == name.len() + 1);
        if f == "type"@ || f == "static"@ || f == "ref"@ || f == "const"@ || f == "abstract"@ || f == "final"@ {
            assert(f[f.len() - 1] != '_');
        }
    }
}

/// Turns a schema attribute or element name into a Rust field name.
pub fn convert_field_name(name: &str) -> (r: String)
    ensures
        r@ == spec_field_name(name@),
{
    proof {
        reveal_strlit("type");
        reveal_strlit("type_");
        reveal_strlit("static");
        reveal_strlit("static_");
        reveal_strlit("ref");
        reveal_strlit("ref_");
        reveal_strlit("const");
        reveal_strlit("const_");
        reveal_strlit("abstract");
        reveal_strlit("abstract_");
        reveal_strlit("final");
        reveal_strlit("final_");
    }
    if str_eq(name, "type") {
        "type_".to_owned()
    } else if str_eq(name, "static") {
        "static_".to_owned()
    } else if str_eq(name, "ref") {
        "ref_".to_owned()
    } else if str_eq(name, "const") {
        "const_".to_owned()
    } else if str_eq(name, "abstract") {
        "abstract_".to_owned()
    } else if str_eq(name, "final") {
        "final_".to_owned()
    } else {
        name.to_owned()
    }
}

/// The upper camel case form of a name, as `heck`'s `to_upper_camel_case`
/// computes it.
pub uninterp spec fn upper_camel(name: Seq<char>) -> Seq<char>;

/// Calls `heck::ToUpperCamelCase::to_upper_camel_case`; the contract names
/// its result.
#[verifier::external_body]
pub(crate) fn upper_camel_case(name: &str) -> (r: String)
    ensures
        r@ == upper_camel(name@),
{
    heck::ToUpperCamelCase::to_upper_camel_case(name)
}

/// The Rust type that a schema type stands for.
#[derive(Debug, PartialEq, Eq)]
pub enum Type {
    Integer,
    String,
    /// A type of the schema itself, by its name.
    Enum(String),
}

/// What a schema type name stands for: `xsd:integer` and `xsd:string` are the
/// built-in types, every other name is a type of the schema.
pub enum SpecType {
    Integer,
    String,
    Enum(Seq<char>),
}

impl View for Type {
    type V = SpecType;

    open spec fn view(&self) -> SpecType {
        match self {
            Type::Integer => SpecType::Integer,
            Type::String => SpecType::String,
            Type::Enum(name) => SpecType::Enum(name@),
        }
    }
}

/// What a schema type name stands for.
pub open spec fn spec_type_from_str(name: Seq<char>) -> SpecType {
    if name == "xsd:integer"@ {
        SpecType::Integer
    } else if name == "xsd:string"@ {
        SpecType::String
    } else {
        SpecType::Enum(name)
    }
}

/// The identifier of the Rust type that a schema type stands for, in field
/// and variant types: `i32`, `String`, or the upper camel case form of the
/// schema type's name.
pub open spec fn spec_type_id(t: SpecType) -> Seq<char> {
    match t {
        SpecType::Integer => "i32"@,
        SpecType::String => "String"@,
        SpecType::Enum(name) => upper_camel(name),
    }
}

/// The identifier of a schema type as it is written in attribute fields:
/// `i32`, `String`, or the schema type's name as it stands.
pub open spec fn spec_type_token(t: SpecType) -> Seq<char> {
    match t {
        SpecType::Integer => "i32"@,
        SpecType::String => "String"@,
        SpecType::Enum(name) => name,
    }
}

impl Type {
    /// The identifier of the Rust type, as `spec_type_id` states.
    pub fn type_id(&self) -> (r: String)
        ensures
            r@ == spec_type_id(self@),
    {
        match self {
            Type::Integer => "i32".to_owned(),
            Type::String => "String".to_owned(),
            Type::Enum(name) => upper_camel_case(name.as_str()),
        }
    }

    /// The identifier of the type in attribute fields, as `spec_type_token`
    /// states.
    pub fn type_token(&self) -> (r: String)
        ensures
            r@ == spec_type_token(self@),
    {
        match self {
            Type::Integer => "i32".to_owned(),
            Type::String => "String".to_owned(),
            Type::Enum(name) => name.clone(),
        }
    }

    /// Reads a schema type name.
    pub fn from_str(name: &str) -> (r: Type)
        ensures
            r@ == spec_type_from_str(name@),
    {
        if str_eq(name, "xsd:integer") {
            Type::Integer
        } else if str_eq(name, "xsd:string") {
            Type::String
        } else {
            Type::Enum(name.to_owned())
        }
    }
}

} // verus!
