//! The plan of the generated element types: from the nodes of a schema
//! document, which Rust types the generator writes, with their fields,
//! variants and the schema names they are read from. Writing the code of
//! each planned type is a matter of templates.
use vstd::prelude::*;

use crate::strings::{opt_view, str_eq};
use crate::xsd::schema::{
    attr, attribute, child_of, is_child, view_schema_node, view_schema_nodes, SchemaNode, SpecSchemaNode,
};
use crate::xsd::{convert_field_name, spec_field_name, spec_type_from_str, spec_type_id, SpecType, Type};

verus! {

/// Why a schema could not be planned.
#[derive(Debug, PartialEq, Eq)]
pub enum SchemaError {
    /// The text is not an XML document.
    Malformed,
    /// The document has no schema element.
    NoSchemaElement,
    /// A node lacks the attribute with this name.
    MissingAttribute(String),
    /// An element's `minOccurs` and `maxOccurs` have no matching container.
    NoWrapper(Option<String>, Option<String>),
    /// A simple content extends another type than `xsd:string`.
    UnsupportedContent,
}

/// The model of a schema error.
pub enum SpecSchemaError {
    Malformed,
    NoSchemaElement,
    MissingAttribute(Seq<char>),
    NoWrapper(Option<Seq<char>>, Option<Seq<char>>),
    UnsupportedContent,
}

pub open spec fn view_schema_error(e: SchemaError) -> SpecSchemaError {
    match e {
        SchemaError::Malformed => SpecSchemaError::Malformed,
        SchemaError::NoSchemaElement => SpecSchemaError::NoSchemaElement,
        SchemaError::MissingAttribute(a) => SpecSchemaError::MissingAttribute(a@),
        SchemaError::NoWrapper(min, max) => SpecSchemaError::NoWrapper(opt_view(min), opt_view(max)),
        SchemaError::UnsupportedContent => SpecSchemaError::UnsupportedContent,
    }
}

/// The container of an element's field, from its occurrence bounds.
#[derive(Debug, Clone, Copy, PartialEq, Eq, Structural)]
pub enum Wrapper {
    /// Any number of values.
    Vec,
    /// At least one value.
    Vec1,
    /// At most one value.
    Option,
}

/// A schema type with the identifier of the Rust type it stands for.
#[derive(Debug, PartialEq, Eq)]
pub struct TypeRef {
    pub type_: Type,
    pub id: String,
}

pub struct SpecTypeRef {
    pub type_: SpecType,
    pub id: Seq<char>,
}

pub open spec fn view_type_ref(t: TypeRef) -> SpecTypeRef {
    SpecTypeRef { type_: t.type_@, id: t.id@ }
}

pub open spec fn view_opt_type_ref(t: Option<TypeRef>) -> Option<SpecTypeRef> {
    match t {
        Some(x) => Some(view_type_ref(x)),
        None => None,
    }
}

/// The type that a schema type name stands for, with its identifier.
pub open spec fn type_ref(name: Seq<char>) -> SpecTypeRef {
    SpecTypeRef { type_: spec_type_from_str(name), id: spec_type_id(spec_type_from_str(name)) }
}

fn make_type_ref(name: &str) -> (r: TypeRef)
    ensures
        view_type_ref(r) == type_ref(name@),
{
    let t = Type::from_str(name);
    let id = t.type_id();
    TypeRef { type_: t, id }
}

/// A field read from an attribute: the attribute's name, the field's name,
/// its type and whether the attribute may be left out.
#[derive(Debug, PartialEq, Eq)]
pub struct AttributeField {
    pub name: String,
    pub safe_name: String,
    pub type_: Type,
    pub optional: bool,
}

pub struct SpecAttributeField {
    pub name: Seq<char>,
    pub safe_name: Seq<char>,
    pub type_: SpecType,
    pub optional: bool,
}

pub open spec fn view_attribute_field(f: AttributeField) -> SpecAttributeField {
    SpecAttributeField { name: f.name@, safe_name: f.safe_name@, type_: f.type_@, optional: f.optional }
}

pub open spec fn view_attribute_fields(s: Seq<AttributeField>) -> Seq<SpecAttributeField> {
    s.map_values(|f: AttributeField| view_attribute_field(f))
}

/// A field read from child elements: the elements' tag, the field's name,
/// its type and its container.
#[derive(Debug, PartialEq, Eq)]
pub struct ElementField {
    pub name: String,
    pub safe_name: String,
    pub type_: TypeRef,
    pub wrapper: Option<Wrapper>,
}

pub struct SpecElementField {
    pub name: Seq<char>,
    pub safe_name: Seq<char>,
    pub type_: SpecTypeRef,
    pub wrapper: Option<Wrapper>,
}

pub open spec fn view_element_field(f: ElementField) -> SpecElementField {
    SpecElementField { name: f.name@, safe_name: f.safe_name@, type_: view_type_ref(f.type_), wrapper: f.wrapper }
}

pub open spec fn view_element_fields(s: Seq<ElementField>) -> Seq<SpecElementField> {
    s.map_values(|f: ElementField| view_element_field(f))
}

// ---------------------------------------------------------------------------
// Attribute fields

/// The field of an `attribute` node at position `j`: only one with both a
/// name and a type gives one; `use="optional"` makes it optional.
pub open spec fn spec_attribute_field(ns: Seq<SpecSchemaNode>, j: int) -> Option<SpecAttributeField> {
    match (attr(ns, j, "name"@), attr(ns, j, "type"@)) {
        (Some(n), Some(t)) => Some(
            SpecAttributeField {
                name: n,
                safe_name: spec_field_name(n),
                type_: spec_type_from_str(t),
                optional: attr(ns, j, "use"@) == Some("optional"@),
            },
        ),
        _ => None,
    }
}

/// The attribute fields of the `attribute` children of node `i` before
/// position `k`, in order.
pub open spec fn attribute_fields_upto(ns: Seq<SpecSchemaNode>, i: int, k: int) -> Seq<SpecAttributeField>
    decreases k - i,
{
    if k <= i + 1 {
        Seq::empty()
    } else {
        let rest = attribute_fields_upto(ns, i, k - 1);
        if is_child(ns, i, k - 1) && ns[k - 1].tag == "attribute"@ {
            match spec_attribute_field(ns, k - 1) {
                Some(f) => rest.push(f),
                None => rest,
            }
        } else {
            rest
        }
    }
}

/// The attribute fields of node `i`.
pub open spec fn attribute_fields(ns: Seq<SpecSchemaNode>, i: int) -> Seq<SpecAttributeField> {
    attribute_fields_upto(ns, i, ns.len() as int)
}

fn attribute_field(node: &SchemaNode) -> (r: Option<AttributeField>)
    ensures
        match spec_attribute_field(seq![view_schema_node(*node)], 0) {
            Some(f) => r matches Some(x) && view_attribute_field(x) == f,
            None => r is None,
        },
{
    match (attribute(node, "name"), attribute(node, "type")) {
        (Some(n), Some(t)) => {
            let optional = match attribute(node, "use") {
                Some(u) => str_eq(u, "optional"),
                None => false,
            };
            Some(AttributeField { name: n.to_owned(), safe_name: convert_field_name(n), type_: Type::from_str(t), optional })
        },
        _ => None,
    }
}

proof fn lemma_attr_single(ns: Seq<SpecSchemaNode>, j: int, name: Seq<char>)
    requires
        0 <= j < ns.len(),
    ensures
        attr(ns, j, name) == attr(seq![ns[j]], 0, name),
{
}

/// The fields of the attributes of node `i`: those `attribute` children that
/// have a name and a type.
pub fn get_attribute_fields(nodes: &Vec<SchemaNode>, i: usize) -> (r: Vec<AttributeField>)
    requires
        i < nodes.len(),
    ensures
        view_attribute_fields(r@) == attribute_fields(view_schema_nodes(nodes@), i as int),
{
    let ghost v = view_schema_nodes(nodes@);
    let mut out: Vec<AttributeField> = Vec::new();
    let n = nodes.len();
    let mut j = i + 1;
    while j < n
        invariant
            n == nodes.len(),
            v == view_schema_nodes(nodes@),
            i < j <= n,
            view_attribute_fields(out@) == attribute_fields_upto(v, i as int, j as int),
        decreases n - j,
    {
        let ghost before = view_attribute_fields(out@);
        if child_of(nodes, i, j) && str_eq(nodes[j].tag.as_str(), "attribute") {
            proof {
                assert(v[j as int] == view_schema_node(nodes@[j as int]));
                lemma_attr_single(v, j as int, "name"@);
                lemma_attr_single(v, j as int, "type"@);
                lemma_attr_single(v, j as int, "use"@);
            }
            match attribute_field(&nodes[j]) {
                Some(f) => {
                    out.push(f);
                    assert(view_attribute_fields(out@) =~= before.push(view_attribute_field(f)));
                },
                None => {},
            }
        }
        j = j + 1;
    }
    out
}

// ---------------------------------------------------------------------------
// Element fields

/// The container for an element with these `minOccurs` and `maxOccurs`
/// values: at most one makes an `Option`, any number a `Vec`, one or more a
/// `Vec1`, exactly one none; other bounds have no container.
pub open spec fn spec_wrapper(min: Option<Seq<char>>, max: Option<Seq<char>>) -> Result<Option<Wrapper>, SpecSchemaError> {
    let min0 = min == Some("0"@);
    let min1 = min is None || min == Some("1"@);
    let max1 = max is None || max == Some("1"@);
    let many = max == Some("unbounded"@);
    if min0 && max1 {
        Ok(Some(Wrapper::Option))
    } else if min0 && many {
        Ok(Some(Wrapper::Vec))
    } else if min1 && many {
        Ok(Some(Wrapper::Vec1))
    } else if min1 && max1 {
        Ok(None)
    } else {
        Err(SpecSchemaError::NoWrapper(min, max))
    }
}

fn opt_string(o: Option<&str>) -> (r: Option<String>)
    ensures
        opt_view(r) == match o {
            Some(s) => Some(s@),
            None => None,
        },
{
    match o {
        Some(s) => Some(s.to_owned()),
        None => None,
    }
}

fn is_value(o: Option<&str>, value: &str) -> (r: bool)
    ensures
        r == (o matches Some(s) && s@ == value@),
{
    match o {
        Some(s) => str_eq(s, value),
        None => false,
    }
}

/// The container for an element with these occurrence bounds, as
/// `spec_wrapper` states.
pub fn get_wrapper(min: Option<&str>, max: Option<&str>) -> (r: Result<Option<Wrapper>, SchemaError>)
    ensures
        match spec_wrapper(
            match min {
                Some(s) => Some(s@),
                None => None,
            },
            match max {
                Some(s) => Some(s@),
                None => None,
            },
        ) {
            Ok(w) => r == Ok::<Option<Wrapper>, SchemaError>(w),
            Err(e) => r matches Err(x) && view_schema_error(x) == e,
        },
{
    let min0 = is_value(min, "0");
    let min1 = min.is_none() || is_value(min, "1");
    let max1 = max.is_none() || is_value(max, "1");
    let many = is_value(max, "unbounded");
    if min0 && max1 {
        Ok(Some(Wrapper::Option))
    } else if min0 && many {
        Ok(Some(Wrapper::Vec))
    } else if min1 && many {
        Ok(Some(Wrapper::Vec1))
    } else if min1 && max1 {
        Ok(None)
    } else {
        Err(SchemaError::NoWrapper(opt_string(min), opt_string(max)))
    }
}

/// The element fields of the children of node `i` before position `k`, in
/// order: an `element` with a name gives one (its type `xsd:string` when it
/// has none), a `sequence` or `choice` gives those of its own children. The
/// first element without a container decides the error.
pub open spec fn elements_upto(ns: Seq<SpecSchemaNode>, i: int, k: int) -> Result<Seq<SpecElementField>, SpecSchemaError>
    decreases ns.len() - i, k - i,
{
    if k <= i + 1 {
        Ok(Seq::empty())
    } else {
        match elements_upto(ns, i, k - 1) {
            Err(e) => Err(e),
            Ok(rest) => {
                let j = k - 1;
                if !is_child(ns, i, j) {
                    Ok(rest)
                } else if ns[j].tag == "sequence"@ || ns[j].tag == "choice"@ {
                    match elements_upto(ns, j, ns.len() as int) {
                        Err(e) => Err(e),
                        Ok(inner) => Ok(rest + inner),
                    }
                } else if ns[j].tag == "element"@ {
                    match attr(ns, j, "name"@) {
                        None => Ok(rest),
                        Some(name) => match spec_wrapper(attr(ns, j, "minOccurs"@), attr(ns, j, "maxOccurs"@)) {
                            Err(e) => Err(e),
                            Ok(w) => Ok(
                                rest.push(
                                    SpecElementField {
                                        name,
                                        safe_name: spec_field_name(name),
                                        type_: type_ref(
                                            match attr(ns, j, "type"@) {
                                                Some(t) => t,
                                                None => "xsd:string"@,
                                            },
                                        ),
                                        wrapper: w,
                                    },
                                ),
                            ),
                        },
                    }
                } else {
                    Ok(rest)
                }
            },
        }
    }
}

/// The element fields of node `i`.
pub open spec fn element_fields(ns: Seq<SpecSchemaNode>, i: int) -> Result<Seq<SpecElementField>, SpecSchemaError> {
    elements_upto(ns, i, ns.len() as int)
}

pub open spec fn view_elements_result(r: Result<Vec<ElementField>, SchemaError>) -> Result<Seq<SpecElementField>, SpecSchemaError> {
    match r {
        Ok(v) => Ok(view_element_fields(v@)),
        Err(e) => Err(view_schema_error(e)),
    }
}

fn element_field(node: &SchemaNode, name: &str) -> (r: Result<ElementField, SchemaError>)
    ensures
        match spec_wrapper(
            attr(seq![view_schema_node(*node)], 0, "minOccurs"@),
            attr(seq![view_schema_node(*node)], 0, "maxOccurs"@),
        ) {
            Err(e) => r matches Err(x) && view_schema_error(x) == e,
            Ok(w) => r matches Ok(f) && view_element_field(f) == (SpecElementField {
                name: name@,
                safe_name: spec_field_name(name@),
                type_: type_ref(
                    match attr(seq![view_schema_node(*node)], 0, "type"@) {
                        Some(t) => t,
                        None => "xsd:string"@,
                    },
                ),
                wrapper: w,
            }),
        },
{
    let type_ = match attribute(node, "type") {
        Some(t) => make_type_ref(t),
        None => make_type_ref("xsd:string"),
    };
    let wrapper = get_wrapper(attribute(node, "minOccurs"), attribute(node, "maxOccurs"))?;
    Ok(ElementField { name: name.to_owned(), safe_name: convert_field_name(name), type_, wrapper })
}

proof fn lemma_elements_err(ns: Seq<SpecSchemaNode>, i: int, k: int, m: int)
    requires
        i < k <= m,
        elements_upto(ns, i, k) is Err,
    ensures
        elements_upto(ns, i, m) == elements_upto(ns, i, k),
    decreases m - k,
{
    if m > k {
        lemma_elements_err(ns, i, k, m - 1);
    }
}

/// The element fields of node `i`, as `element_fields` states.
pub fn get_elements(nodes: &Vec<SchemaNode>, i: usize) -> (r: Result<Vec<ElementField>, SchemaError>)
    requires
        i < nodes.len(),
    ensures
        view_elements_result(r) == element_fields(view_schema_nodes(nodes@), i as int),
    decreases nodes.len() - i,
{
    let ghost v = view_schema_nodes(nodes@);
    let mut out: Vec<ElementField> = Vec::new();
    assert(view_element_fields(out@) =~= Seq::empty());
    let n = nodes.len();
    let mut j = i + 1;
    while j < n
        invariant
            n == nodes.len(),
            v == view_schema_nodes(nodes@),
            i < j <= n,
            elements_upto(v, i as int, j as int) == Ok::<Seq<SpecElementField>, SpecSchemaError>(view_element_fields(out@)),
        decreases n - j,
    {
        let ghost before = view_element_fields(out@);
        proof {
            assert(v[j as int] == view_schema_node(nodes@[j as int]));
        }
        if child_of(nodes, i, j) {
            let tag = nodes[j].tag.as_str();
            if str_eq(tag, "sequence") || str_eq(tag, "choice") {
                let inner = get_elements(nodes, j);
                match inner {
                    Err(e) => {
                        proof {
                            lemma_elements_err(v, i as int, j + 1, n as int);
                        }
                        return Err(e);
                    },
                    Ok(mut inner) => {
                        let ghost iv = view_element_fields(inner@);
                        out.append(&mut inner);
                        assert(view_element_fields(out@) =~= before + iv);
                    },
                }
            } else if str_eq(tag, "element") {
                match attribute(&nodes[j], "name") {
                    None => {},
                    Some(name) => {
                        proof {
                            lemma_attr_single(v, j as int, "name"@);
                            lemma_attr_single(v, j as int, "type"@);
                            lemma_attr_single(v, j as int, "minOccurs"@);
                            lemma_attr_single(v, j as int, "maxOccurs"@);
                        }
                        let f = match element_field(&nodes[j], name) {
                            Err(e) => {
                                proof {
                                    lemma_elements_err(v, i as int, j + 1, n as int);
                                }
                                return Err(e);
                            },
                            Ok(f) => f,
                        };
                        out.push(f);
                        assert(view_element_fields(out@) =~= before.push(view_element_field(f)));
                    },
                }
            }
        }
        j = j + 1;
    }
    Ok(out)
}

// ---------------------------------------------------------------------------
// Groups of choices

/// An entry of a choice: a referenced group, by the identifier of its type,
/// or an element, by its tag, its variant name and, unless its type is
/// skipped, its type.
#[derive(Debug, PartialEq, Eq)]
pub enum ChoiceEntry {
    Group { type_id: String },
    Element { tag: String, variant: String, type_: Option<TypeRef> },
}

pub enum SpecChoiceEntry {
    Group { type_id: Seq<char> },
    Element { tag: Seq<char>, variant: Seq<char>, type_: Option<SpecTypeRef> },
}

pub open spec fn view_choice_entry(e: ChoiceEntry) -> SpecChoiceEntry {
    match e {
        ChoiceEntry::Group { type_id } => SpecChoiceEntry::Group { type_id: type_id@ },
        ChoiceEntry::Element { tag, variant, type_ } => SpecChoiceEntry::Element {
            tag: tag@,
            variant: variant@,
            type_: view_opt_type_ref(type_),
        },
    }
}

pub open spec fn view_choice_entries(s: Seq<ChoiceEntry>) -> Seq<SpecChoiceEntry> {
    s.map_values(|e: ChoiceEntry| view_choice_entry(e))
}

/// The variant name of an element entry.
pub open spec fn entry_variant(e: SpecChoiceEntry) -> Option<Seq<char>> {
    match e {
        SpecChoiceEntry::Element { variant, .. } => Some(variant),
        SpecChoiceEntry::Group { .. } => None,
    }
}

/// Whether an element entry with this variant name is among the entries.
pub open spec fn has_variant(s: Seq<SpecChoiceEntry>, variant: Seq<char>) -> bool {
    exists|x: int| 0 <= x < s.len() && entry_variant(#[trigger] s[x]) == Some(variant)
}

/// The entries of the children of choice node `c` before position `k`: a
/// `group` gives its reference (and must have one); an `element` with a name
/// and a type gives an entry unless one with the same variant name came
/// before, its type left out when it is skipped.
pub open spec fn choice_entries_upto(ns: Seq<SpecSchemaNode>, c: int, skip: Seq<Seq<char>>, k: int) -> Result<
    Seq<SpecChoiceEntry>,
    SpecSchemaError,
>
    decreases k - c,
{
    if k <= c + 1 {
        Ok(Seq::empty())
    } else {
        match choice_entries_upto(ns, c, skip, k - 1) {
            Err(e) => Err(e),
            Ok(rest) => {
                let j = k - 1;
                if !is_child(ns, c, j) {
                    Ok(rest)
                } else if ns[j].tag == "group"@ {
                    match attr(ns, j, "ref"@) {
                        None => Err(SpecSchemaError::MissingAttribute("ref"@)),
                        Some(r) => Ok(rest.push(SpecChoiceEntry::Group { type_id: spec_type_id(spec_type_from_str(r)) })),
                    }
                } else if ns[j].tag == "element"@ {
                    match (attr(ns, j, "name"@), attr(ns, j, "type"@)) {
                        (Some(n), Some(t)) => {
                            let variant = spec_type_id(spec_type_from_str(n));
                            if has_variant(rest, variant) {
                                Ok(rest)
                            } else {
                                Ok(
                                    rest.push(
                                        SpecChoiceEntry::Element {
                                            tag: n,
                                            variant,
                                            type_: if skip.contains(t) {
                                                None
                                            } else {
                                                Some(type_ref(t))
                                            },
                                        },
                                    ),
                                )
                            }
                        },
                        _ => Ok(rest),
                    }
                } else {
                    Ok(rest)
                }
            },
        }
    }
}

pub open spec fn choice_entries(ns: Seq<SpecSchemaNode>, c: int, skip: Seq<Seq<char>>) -> Result<Seq<SpecChoiceEntry>, SpecSchemaError> {
    choice_entries_upto(ns, c, skip, ns.len() as int)
}

proof fn lemma_choice_err(ns: Seq<SpecSchemaNode>, c: int, skip: Seq<Seq<char>>, k: int, m: int)
    requires
        c < k <= m,
        choice_entries_upto(ns, c, skip, k) is Err,
    ensures
        choice_entries_upto(ns, c, skip, m) == choice_entries_upto(ns, c, skip, k),
    decreases m - k,
{
    if m > k {
        lemma_choice_err(ns, c, skip, k, m - 1);
    }
}

pub open spec fn view_choices_result(r: Result<Vec<ChoiceEntry>, SchemaError>) -> Result<Seq<SpecChoiceEntry>, SpecSchemaError> {
    match r {
        Ok(v) => Ok(view_choice_entries(v@)),
        Err(e) => Err(view_schema_error(e)),
    }
}

fn contains_str(s: &Vec<String>, x: &str) -> (r: bool)
    ensures
        r == crate::strings::string_views(s@).contains(x@),
{
    let ghost sv = crate::strings::string_views(s@);
    let n = s.len();
    for k in 0..n
        invariant
            n == s.len(),
            sv == crate::strings::string_views(s@),
            forall|y: int| 0 <= y < k ==> sv[y] != x@,
    {
        if str_eq(s[k].as_str(), x) {
            assert(sv[k as int] == x@);
            return true;
        }
    }
    false
}

fn seen_variant(entries: &Vec<ChoiceEntry>, variant: &str) -> (r: bool)
    ensures
        r == has_variant(view_choice_entries(entries@), variant@),
{
    let ghost es = view_choice_entries(entries@);
    let n = entries.len();
    for k in 0..n
        invariant
            n == entries.len(),
            es == view_choice_entries(entries@),
            forall|y: int| 0 <= y < k ==> entry_variant(#[trigger] es[y]) != Some(variant@),
    {
        match &entries[k] {
            ChoiceEntry::Element { variant: v, .. } => {
                if str_eq(v.as_str(), variant) {
                    assert(entry_variant(es[k as int]) == Some(variant@));
                    return true;
                }
            },
            ChoiceEntry::Group { .. } => {},
        }
        assert(entry_variant(es[k as int]) != Some(variant@));
    }
    false
}

/// The entries of choice node `c`, as `choice_entries` states.
pub fn get_choice_entries(nodes: &Vec<SchemaNode>, c: usize, skip_types: &Vec<String>) -> (r: Result<
    Vec<ChoiceEntry>,
    SchemaError,
>)
    requires
        c < nodes.len(),
    ensures
        view_choices_result(r) == choice_entries(
            view_schema_nodes(nodes@),
            c as int,
            crate::strings::string_views(skip_types@),
        ),
{
    let ghost v = view_schema_nodes(nodes@);
    let ghost skip = crate::strings::string_views(skip_types@);
    let mut out: Vec<ChoiceEntry> = Vec::new();
    assert(view_choice_entries(out@) =~= Seq::empty());
    let n = nodes.len();
    let mut j = c + 1;
    while j < n
        invariant
            n == nodes.len(),
            v == view_schema_nodes(nodes@),
            skip == crate::strings::string_views(skip_types@),
            c < j <= n,
            choice_entries_upto(v, c as int, skip, j as int) == Ok::<Seq<SpecChoiceEntry>, SpecSchemaError>(
                view_choice_entries(out@),
            ),
        decreases n - j,
    {
        let ghost before = view_choice_entries(out@);
        proof {
            assert(v[j as int] == view_schema_node(nodes@[j as int]));
            lemma_attr_single(v, j as int, "ref"@);
            lemma_attr_single(v, j as int, "name"@);
            lemma_attr_single(v, j as int, "type"@);
        }
        if child_of(nodes, c, j) {
            let tag = nodes[j].tag.as_str();
            if str_eq(tag, "group") {
                match attribute(&nodes[j], "ref") {
                    None => {
                        proof {
                            lemma_choice_err(v, c as int, skip, j + 1, n as int);
                        }
                        return Err(SchemaError::MissingAttribute("ref".to_owned()));
                    },
                    Some(r) => {
                        let id = Type::from_str(r).type_id();
                        out.push(ChoiceEntry::Group { type_id: id });
                        assert(view_choice_entries(out@) =~= before.push(
                            SpecChoiceEntry::Group { type_id: spec_type_id(spec_type_from_str(r@)) },
                        ));
                    },
                }
            } else if str_eq(tag, "element") {
                match (attribute(&nodes[j], "name"), attribute(&nodes[j], "type")) {
                    (Some(name), Some(t)) => {
                        let variant = Type::from_str(name).type_id();
                        if !seen_variant(&out, variant.as_str()) {
                            let type_ = if contains_str(skip_types, t) {
                                None
                            } else {
                                Some(make_type_ref(t))
                            };
                            let ghost tv = view_opt_type_ref(type_);
                            out.push(ChoiceEntry::Element { tag: name.to_owned(), variant, type_ });
                            assert(view_choice_entries(out@) =~= before.push(
                                SpecChoiceEntry::Element { tag: name@, variant: variant@, type_: tv },
                            ));
                        }
                    },
                    _ => {},
                }
            }
        }
        j = j + 1;
    }
    Ok(out)
}

/// The entries of the `choice` children of node `g` before position `k`, in
/// order.
pub open spec fn group_entries_upto(ns: Seq<SpecSchemaNode>, g: int, skip: Seq<Seq<char>>, k: int) -> Result<
    Seq<SpecChoiceEntry>,
    SpecSchemaError,
>
    decreases k - g,
{
    if k <= g + 1 {
        Ok(Seq::empty())
    } else {
        match group_entries_upto(ns, g, skip, k - 1) {
            Err(e) => Err(e),
            Ok(rest) => if is_child(ns, g, k - 1) && ns[k - 1].tag == "choice"@ {
                match choice_entries(ns, k - 1, skip) {
                    Err(e) => Err(e),
                    Ok(entries) => Ok(rest + entries),
                }
            } else {
                Ok(rest)
            },
        }
    }
}

proof fn lemma_group_err(ns: Seq<SpecSchemaNode>, g: int, skip: Seq<Seq<char>>, k: int, m: int)
    requires
        g < k <= m,
        group_entries_upto(ns, g, skip, k) is Err,
    ensures
        group_entries_upto(ns, g, skip, m) == group_entries_upto(ns, g, skip, k),
    decreases m - k,
{
    if m > k {
        lemma_group_err(ns, g, skip, k, m - 1);
    }
}

fn get_group_entries(nodes: &Vec<SchemaNode>, g: usize, skip_types: &Vec<String>) -> (r: Result<
    Vec<ChoiceEntry>,
    SchemaError,
>)
    requires
        g < nodes.len(),
    ensures
        view_choices_result(r) == group_entries_upto(
            view_schema_nodes(nodes@),
            g as int,
            crate::strings::string_views(skip_types@),
            nodes@.len() as int,
        ),
{
    let ghost v = view_schema_nodes(nodes@);
    let ghost skip = crate::strings::string_views(skip_types@);
    let mut out: Vec<ChoiceEntry> = Vec::new();
    assert(view_choice_entries(out@) =~= Seq::empty());
    let n = nodes.len();
    let mut j = g + 1;
    while j < n
        invariant
            n == nodes.len(),
            v == view_schema_nodes(nodes@),
            skip == crate::strings::string_views(skip_types@),
            g < j <= n,
            group_entries_upto(v, g as int, skip, j as int) == Ok::<Seq<SpecChoiceEntry>, SpecSchemaError>(
                view_choice_entries(out@),
            ),
        decreases n - j,
    {
        let ghost before = view_choice_entries(out@);
        if child_of(nodes, g, j) && str_eq(nodes[j].tag.as_str(), "choice") {
            match get_choice_entries(nodes, j, skip_types) {
                Err(e) => {
                    proof {
                        lemma_group_err(v, g as int, skip, j + 1, n as int);
                    }
                    return Err(e);
                },
                Ok(mut entries) => {
                    let ghost ev = view_choice_entries(entries@);
                    out.append(&mut entries);
                    assert(view_choice_entries(out@) =~= before + ev);
                },
            }
        }
        j = j + 1;
    }
    Ok(out)
}

// ---------------------------------------------------------------------------
// The planned types

/// A part of the items of a mixed content type: an element entry (its tag,
/// its variant name and type), the items of a referenced group together with
/// text (by the group's type identifier), or text.
#[derive(Debug, PartialEq, Eq)]
pub enum MixedPart {
    Element { tag: String, variant: String, type_: TypeRef },
    Group { type_id: String },
    Text,
}

pub enum SpecMixedPart {
    Element { tag: Seq<char>, variant: Seq<char>, type_: SpecTypeRef },
    Group { type_id: Seq<char> },
    Text,
}

pub open spec fn view_mixed_part(p: MixedPart) -> SpecMixedPart {
    match p {
        MixedPart::Element { tag, variant, type_ } => SpecMixedPart::Element {
            tag: tag@,
            variant: variant@,
            type_: view_type_ref(type_),
        },
        MixedPart::Group { type_id } => SpecMixedPart::Group { type_id: type_id@ },
        MixedPart::Text => SpecMixedPart::Text,
    }
}

pub open spec fn view_mixed_parts(s: Seq<MixedPart>) -> Seq<SpecMixedPart> {
    s.map_values(|p: MixedPart| view_mixed_part(p))
}

/// A generated type.
#[derive(Debug, PartialEq, Eq)]
pub enum Item {
    /// A struct of attribute and element fields.
    Struct { name: String, attributes: Vec<AttributeField>, elements: Vec<ElementField> },
    /// A struct of attribute fields and a text content.
    SimpleContent { name: String, attributes: Vec<AttributeField> },
    /// A struct of attribute fields and a content of items (an enum named
    /// `item_name`) or, without parts, of text; `group` is the group whose
    /// items stand for tags that no part names.
    Mixed {
        name: String,
        item_name: String,
        attributes: Vec<AttributeField>,
        parts: Vec<MixedPart>,
        group: Option<String>,
    },
    /// A type that stands for `String`.
    Alias { name: String },
    /// An enum of values, each with its text and its variant name.
    Enumeration { name: String, variants: Vec<(String, String)> },
    /// An enum of the entries of a group's choices.
    Choice { name: String, entries: Vec<ChoiceEntry> },
}

pub enum SpecItem {
    Struct { name: Seq<char>, attributes: Seq<SpecAttributeField>, elements: Seq<SpecElementField> },
    SimpleContent { name: Seq<char>, attributes: Seq<SpecAttributeField> },
    Mixed {
        name: Seq<char>,
        item_name: Seq<char>,
        attributes: Seq<SpecAttributeField>,
        parts: Seq<SpecMixedPart>,
        group: Option<Seq<char>>,
    },
    Alias { name: Seq<char> },
    Enumeration { name: Seq<char>, variants: Seq<(Seq<char>, Seq<char>)> },
    Choice { name: Seq<char>, entries: Seq<SpecChoiceEntry> },
}

pub open spec fn view_pair(p: (String, String)) -> (Seq<char>, Seq<char>) {
    (p.0@, p.1@)
}

pub open spec fn view_pairs(s: Seq<(String, String)>) -> Seq<(Seq<char>, Seq<char>)> {
    s.map_values(|p: (String, String)| view_pair(p))
}

pub open spec fn view_item(i: Item) -> SpecItem {
    match i {
        Item::Struct { name, attributes, elements } => SpecItem::Struct {
            name: name@,
            attributes: view_attribute_fields(attributes@),
            elements: view_element_fields(elements@),
        },
        Item::SimpleContent { name, attributes } => SpecItem::SimpleContent {
            name: name@,
            attributes: view_attribute_fields(attributes@),
        },
        Item::Mixed { name, item_name, attributes, parts, group } => SpecItem::Mixed {
            name: name@,
            item_name: item_name@,
            attributes: view_attribute_fields(attributes@),
            parts: view_mixed_parts(parts@),
            group: opt_view(group),
        },
        Item::Alias { name } => SpecItem::Alias { name: name@ },
        Item::Enumeration { name, variants } => SpecItem::Enumeration { name: name@, variants: view_pairs(variants@) },
        Item::Choice { name, entries } => SpecItem::Choice { name: name@, entries: view_choice_entries(entries@) },
    }
}

pub open spec fn view_items(s: Seq<Item>) -> Seq<SpecItem> {
    s.map_values(|i: Item| view_item(i))
}

pub open spec fn view_opt_item(o: Option<Item>) -> Option<SpecItem> {
    match o {
        Some(i) => Some(view_item(i)),
        None => None,
    }
}

// ---------------------------------------------------------------------------
// Mixed content

/// The element entries of the children of node `c` before position `k` that
/// have a name and a type, in order.
pub open spec fn mixed_entries_upto(ns: Seq<SpecSchemaNode>, c: int, k: int) -> Seq<SpecMixedPart>
    decreases k - c,
{
    if k <= c + 1 {
        Seq::empty()
    } else {
        let rest = mixed_entries_upto(ns, c, k - 1);
        if is_child(ns, c, k - 1) {
            match (attr(ns, k - 1, "name"@), attr(ns, k - 1, "type"@)) {
                (Some(n), Some(t)) => rest.push(
                    SpecMixedPart::Element { tag: n, variant: crate::xsd::upper_camel(n), type_: type_ref(t) },
                ),
                _ => rest,
            }
        } else {
            rest
        }
    }
}

/// The parts of mixed content node `i` from its children before position
/// `k`, with the last referenced group: a `sequence` or `choice` gives the
/// entries of its children then text, a `group` with a reference gives its
/// items and text.
pub open spec fn mixed_parts_upto(ns: Seq<SpecSchemaNode>, i: int, k: int) -> (Seq<SpecMixedPart>, Option<Seq<char>>)
    decreases k - i,
{
    if k <= i + 1 {
        (Seq::empty(), None)
    } else {
        let (parts, group) = mixed_parts_upto(ns, i, k - 1);
        let j = k - 1;
        if !is_child(ns, i, j) {
            (parts, group)
        } else if ns[j].tag == "sequence"@ || ns[j].tag == "choice"@ {
            ((parts + mixed_entries_upto(ns, j, ns.len() as int)).push(SpecMixedPart::Text), group)
        } else if ns[j].tag == "group"@ {
            match attr(ns, j, "ref"@) {
                Some(r) => {
                    let id = spec_type_id(spec_type_from_str(r));
                    (parts.push(SpecMixedPart::Group { type_id: id }), Some(id))
                },
                None => (parts, group),
            }
        } else {
            (parts, group)
        }
    }
}

/// The mixed content type of node `i`; it must have a name.
pub open spec fn spec_mixed(ns: Seq<SpecSchemaNode>, i: int) -> Result<SpecItem, SpecSchemaError> {
    match attr(ns, i, "name"@) {
        None => Err(SpecSchemaError::MissingAttribute("name"@)),
        Some(n) => {
            let id = spec_type_id(spec_type_from_str(n));
            let (parts, group) = mixed_parts_upto(ns, i, ns.len() as int);
            Ok(
                SpecItem::Mixed {
                    name: id,
                    item_name: id + "Item"@,
                    attributes: attribute_fields(ns, i),
                    parts,
                    group,
                },
            )
        },
    }
}

fn get_mixed_entries(nodes: &Vec<SchemaNode>, c: usize, out: &mut Vec<MixedPart>)
    requires
        c < nodes.len(),
    ensures
        view_mixed_parts(final(out)@) == view_mixed_parts(old(out)@) + mixed_entries_upto(
            view_schema_nodes(nodes@),
            c as int,
            nodes@.len() as int,
        ),
{
    let ghost v = view_schema_nodes(nodes@);
    let ghost start = view_mixed_parts(out@);
    let n = nodes.len();
    let mut j = c + 1;
    assert(start + Seq::<SpecMixedPart>::empty() =~= start);
    while j < n
        invariant
            n == nodes.len(),
            v == view_schema_nodes(nodes@),
            c < j <= n,
            view_mixed_parts(out@) == start + mixed_entries_upto(v, c as int, j as int),
        decreases n - j,
    {
        let ghost before = view_mixed_parts(out@);
        proof {
            assert(v[j as int] == view_schema_node(nodes@[j as int]));
            lemma_attr_single(v, j as int, "name"@);
            lemma_attr_single(v, j as int, "type"@);
        }
        if child_of(nodes, c, j) {
            match (attribute(&nodes[j], "name"), attribute(&nodes[j], "type")) {
                (Some(name), Some(t)) => {
                    let variant = crate::xsd::upper_camel_case(name);
                    let type_ = make_type_ref(t);
                    let ghost part = SpecMixedPart::Element { tag: name@, variant: variant@, type_: view_type_ref(type_) };
                    out.push(MixedPart::Element { tag: name.to_owned(), variant, type_ });
                    proof {
                        assert(view_mixed_parts(out@) =~= before.push(part));
                        let e = mixed_entries_upto(v, c as int, j as int);
                        assert(mixed_entries_upto(v, c as int, j + 1) == e.push(part));
                        assert(start + e.push(part) =~= (start + e).push(part));
                    }
                },
                _ => {},
            }
        }
        j = j + 1;
    }
}

/// The mixed content type of node `i`, as `spec_mixed` states.
pub fn create_mixed_content(nodes: &Vec<SchemaNode>, i: usize) -> (r: Result<Item, SchemaError>)
    requires
        i < nodes.len(),
    ensures
        match spec_mixed(view_schema_nodes(nodes@), i as int) {
            Ok(item) => r matches Ok(x) && view_item(x) == item,
            Err(e) => r matches Err(x) && view_schema_error(x) == e,
        },
{
    let ghost v = view_schema_nodes(nodes@);
    proof {
        assert(v[i as int] == view_schema_node(nodes@[i as int]));
        lemma_attr_single(v, i as int, "name"@);
    }
    let name = match attribute(&nodes[i], "name") {
        None => {
            return Err(SchemaError::MissingAttribute("name".to_owned()));
        },
        Some(n) => n,
    };
    let id = Type::from_str(name).type_id();
    let mut item_name = id.clone();
    item_name.append("Item");
    let attributes = get_attribute_fields(nodes, i);
    let mut parts: Vec<MixedPart> = Vec::new();
    let mut group: Option<String> = None;
    assert(view_mixed_parts(parts@) =~= Seq::empty());
    let n = nodes.len();
    let mut j = i + 1;
    while j < n
        invariant
            n == nodes.len(),
            v == view_schema_nodes(nodes@),
            i < j <= n,
            mixed_parts_upto(v, i as int, j as int) == (view_mixed_parts(parts@), opt_view(group)),
        decreases n - j,
    {
        let ghost before = view_mixed_parts(parts@);
        proof {
            assert(v[j as int] == view_schema_node(nodes@[j as int]));
            lemma_attr_single(v, j as int, "ref"@);
        }
        if child_of(nodes, i, j) {
            let tag = nodes[j].tag.as_str();
            if str_eq(tag, "sequence") || str_eq(tag, "choice") {
                get_mixed_entries(nodes, j, &mut parts);
                let ghost mid = view_mixed_parts(parts@);
                parts.push(MixedPart::Text);
                assert(view_mixed_parts(parts@) =~= mid.push(SpecMixedPart::Text));
            } else if str_eq(tag, "group") {
                match attribute(&nodes[j], "ref") {
                    Some(r) => {
                        let type_id = Type::from_str(r).type_id();
                        let g = type_id.clone();
                        parts.push(MixedPart::Group { type_id });
                        group = Some(g);
                        assert(view_mixed_parts(parts@) =~= before.push(SpecMixedPart::Group { type_id: g@ }));
                    },
                    None => {},
                }
            }
        }
        j = j + 1;
    }
    Ok(Item::Mixed { name: id, item_name, attributes, parts, group })
}

// ---------------------------------------------------------------------------
// Simple content and structs

/// The simple content type of node `i`: it must have a name; without a
/// `simpleContent` child holding an `extension` nothing is generated; the
/// extension must have a `base`, which must be `xsd:string`; the fields are
/// the extension's attributes.
pub open spec fn spec_simple_content(ns: Seq<SpecSchemaNode>, i: int) -> Result<Option<SpecItem>, SpecSchemaError> {
    match attr(ns, i, "name"@) {
        None => Err(SpecSchemaError::MissingAttribute("name"@)),
        Some(n) => match crate::xsd::schema::first_tagged(ns, i, "simpleContent"@) {
            None => Ok(None),
            Some(sc) => match crate::xsd::schema::first_tagged(ns, sc, "extension"@) {
                None => Ok(None),
                Some(ext) => match attr(ns, ext, "base"@) {
                    None => Err(SpecSchemaError::MissingAttribute("base"@)),
                    Some(b) => if spec_type_from_str(b) is String {
                        Ok(
                            Some(
                                SpecItem::SimpleContent {
                                    name: spec_type_id(spec_type_from_str(n)),
                                    attributes: attribute_fields(ns, ext),
                                },
                            ),
                        )
                    } else {
                        Err(SpecSchemaError::UnsupportedContent)
                    },
                },
            },
        },
    }
}

/// The struct of node `i`: it must have a name; a skipped type gives
/// nothing; its fields are its attributes and its elements.
pub open spec fn spec_struct(ns: Seq<SpecSchemaNode>, i: int, skip: Seq<Seq<char>>) -> Result<Option<SpecItem>, SpecSchemaError> {
    match attr(ns, i, "name"@) {
        None => Err(SpecSchemaError::MissingAttribute("name"@)),
        Some(n) => if skip.contains(n) {
            Ok(None)
        } else {
            match element_fields(ns, i) {
                Err(e) => Err(e),
                Ok(elements) => Ok(
                    Some(
                        SpecItem::Struct {
                            name: spec_type_id(spec_type_from_str(n)),
                            attributes: attribute_fields(ns, i),
                            elements,
                        },
                    ),
                ),
            }
        },
    }
}

pub open spec fn view_opt_item_result(r: Result<Option<Item>, SchemaError>) -> Result<Option<SpecItem>, SpecSchemaError> {
    match r {
        Ok(o) => Ok(view_opt_item(o)),
        Err(e) => Err(view_schema_error(e)),
    }
}

/// The simple content type of node `i`, as `spec_simple_content` states.
pub fn create_simple_content(nodes: &Vec<SchemaNode>, i: usize) -> (r: Result<Option<Item>, SchemaError>)
    requires
        i < nodes.len(),
    ensures
        view_opt_item_result(r) == spec_simple_content(view_schema_nodes(nodes@), i as int),
{
    let ghost v = view_schema_nodes(nodes@);
    proof {
        assert(v[i as int] == view_schema_node(nodes@[i as int]));
        lemma_attr_single(v, i as int, "name"@);
    }
    let name = match attribute(&nodes[i], "name") {
        None => {
            return Err(SchemaError::MissingAttribute("name".to_owned()));
        },
        Some(n) => n,
    };
    let sc = match crate::xsd::schema::find_tagged(nodes, i, "simpleContent") {
        None => {
            return Ok(None);
        },
        Some(p) => p,
    };
    let ext = match crate::xsd::schema::find_tagged(nodes, sc, "extension") {
        None => {
            return Ok(None);
        },
        Some(p) => p,
    };
    proof {
        assert(v[ext as int] == view_schema_node(nodes@[ext as int]));
        lemma_attr_single(v, ext as int, "base"@);
    }
    let base = match attribute(&nodes[ext], "base") {
        None => {
            return Err(SchemaError::MissingAttribute("base".to_owned()));
        },
        Some(b) => b,
    };
    let attributes = get_attribute_fields(nodes, ext);
    match Type::from_str(base) {
        Type::String => Ok(Some(Item::SimpleContent { name: Type::from_str(name).type_id(), attributes })),
        _ => Err(SchemaError::UnsupportedContent),
    }
}

/// The struct of node `i`, as `spec_struct` states.
pub fn create_struct(nodes: &Vec<SchemaNode>, i: usize, skip_types: &Vec<String>) -> (r: Result<Option<Item>, SchemaError>)
    requires
        i < nodes.len(),
    ensures
        view_opt_item_result(r) == spec_struct(
            view_schema_nodes(nodes@),
            i as int,
            crate::strings::string_views(skip_types@),
        ),
{
    let ghost v = view_schema_nodes(nodes@);
    proof {
        assert(v[i as int] == view_schema_node(nodes@[i as int]));
        lemma_attr_single(v, i as int, "name"@);
    }
    let name = match attribute(&nodes[i], "name") {
        None => {
            return Err(SchemaError::MissingAttribute("name".to_owned()));
        },
        Some(n) => n,
    };
    if contains_str(skip_types, name) {
        return Ok(None);
    }
    let attributes = get_attribute_fields(nodes, i);
    match get_elements(nodes, i) {
        Err(e) => Err(e),
        Ok(elements) => Ok(Some(Item::Struct { name: Type::from_str(name).type_id(), attributes, elements })),
    }
}

/// Whether node `i` has simple content: a `simpleContent` child.
pub open spec fn spec_is_simple_content(ns: Seq<SpecSchemaNode>, i: int) -> bool {
    crate::xsd::schema::first_tagged(ns, i, "simpleContent"@) is Some
}

/// Whether node `i` has mixed content: a `mixed` attribute, unless it is the
/// type `enumvalueType`.
pub open spec fn spec_is_mixed_content(ns: Seq<SpecSchemaNode>, i: int) -> bool {
    if attr(ns, i, "name"@) == Some("enumvalueType"@) {
        false
    } else {
        attr(ns, i, "mixed"@) is Some
    }
}

/// The type of complex type node `i`: simple content, else mixed content,
/// else a struct.
pub open spec fn spec_complex_type(ns: Seq<SpecSchemaNode>, i: int, skip: Seq<Seq<char>>) -> Result<Option<SpecItem>, SpecSchemaError> {
    if spec_is_simple_content(ns, i) {
        spec_simple_content(ns, i)
    } else if spec_is_mixed_content(ns, i) {
        match spec_mixed(ns, i) {
            Ok(item) => Ok(Some(item)),
            Err(e) => Err(e),
        }
    } else {
        spec_struct(ns, i, skip)
    }
}

/// Whether node `i` has mixed content, as `spec_is_mixed_content` states.
pub fn is_mixed_content(nodes: &Vec<SchemaNode>, i: usize) -> (r: bool)
    requires
        i < nodes.len(),
    ensures
        r == spec_is_mixed_content(view_schema_nodes(nodes@), i as int),
{
    let ghost v = view_schema_nodes(nodes@);
    proof {
        assert(v[i as int] == view_schema_node(nodes@[i as int]));
        lemma_attr_single(v, i as int, "name"@);
        lemma_attr_single(v, i as int, "mixed"@);
    }
    if is_value(attribute(&nodes[i], "name"), "enumvalueType") {
        false
    } else {
        attribute(&nodes[i], "mixed").is_some()
    }
}

/// The type of complex type node `i`, as `spec_complex_type` states.
pub fn handle_complex_type(nodes: &Vec<SchemaNode>, i: usize, skip_types: &Vec<String>) -> (r: Result<
    Option<Item>,
    SchemaError,
>)
    requires
        i < nodes.len(),
    ensures
        view_opt_item_result(r) == spec_complex_type(
            view_schema_nodes(nodes@),
            i as int,
            crate::strings::string_views(skip_types@),
        ),
{
    if crate::xsd::schema::find_tagged(nodes, i, "simpleContent").is_some() {
        create_simple_content(nodes, i)
    } else if is_mixed_content(nodes, i) {
        match create_mixed_content(nodes, i) {
            Ok(item) => Ok(Some(item)),
            Err(e) => Err(e),
        }
    } else {
        create_struct(nodes, i, skip_types)
    }
}

// ---------------------------------------------------------------------------
// Simple types

/// The variant name that a rename list gives `value`: that of its first
/// entry for `value`.
pub open spec fn rename_of(renames: Seq<(Seq<char>, Seq<char>)>, value: Seq<char>) -> Option<Seq<char>>
    decreases renames.len(),
{
    if renames.len() == 0 {
        None
    } else {
        match rename_of(renames.drop_last(), value) {
            Some(to) => Some(to),
            None => if renames.last().0 == value {
                Some(renames.last().1)
            } else {
                None
            },
        }
    }
}

/// The variant name of an enumeration value: the renamed one, when the
/// renames name the value; otherwise the value with `#` spelled `Sharp` and
/// `+` spelled `Plus`, in upper camel case.
pub open spec fn spec_enum_name(value: Seq<char>, renames: Option<Seq<(Seq<char>, Seq<char>)>>) -> Seq<char> {
    let plain = crate::xsd::upper_camel(
        crate::strings::replace_all(crate::strings::replace_all(value, "#"@, "Sharp"@), "+"@, "Plus"@),
    );
    match renames {
        Some(r) => match rename_of(r, value) {
            Some(to) => to,
            None => plain,
        },
        None => plain,
    }
}

pub open spec fn view_renames(r: Seq<(String, String)>) -> Seq<(Seq<char>, Seq<char>)> {
    view_pairs(r)
}

/// The variant name of an enumeration value, as `spec_enum_name` states.
pub fn convert_enum_name(value: &str, renames: Option<&Vec<(String, String)>>) -> (r: String)
    ensures
        r@ == spec_enum_name(
            value@,
            match renames {
                Some(x) => Some(view_pairs(x@)),
                None => None,
            },
        ),
{
    match renames {
        Some(rs) => {
            let ghost rv = view_pairs(rs@);
            let n = rs.len();
            for k in 0..n
                invariant
                    n == rs.len(),
                    rv == view_pairs(rs@),
                    renames == Some(rs),
                    rename_of(rv.take(k as int), value@) is None,
            {
                proof {
                    assert(rv.take(k + 1).drop_last() =~= rv.take(k as int));
                    assert(rv.take(k + 1).last() == view_pair(rs@[k as int]));
                }
                if str_eq(rs[k].0.as_str(), value) {
                    proof {
                        assert(rename_of(rv.take(k + 1), value@) == Some(rs@[k as int].1@));
                        lemma_rename_prefix(rv, value@, k + 1);
                    }
                    let to = rs[k].1.clone();
                    assert(to@ == rs@[k as int].1@);
                    return to;
                }
            }
            assert(rv.take(n as int) =~= rv);
        },
        None => {},
    }
    proof {
        reveal_strlit("#");
        reveal_strlit("+");
    }
    let sharp = crate::strings::replace_str(value, "#", "Sharp");
    let plus = crate::strings::replace_str(sharp.as_str(), "+", "Plus");
    crate::xsd::upper_camel_case(plus.as_str())
}

proof fn lemma_rename_prefix(r: Seq<(Seq<char>, Seq<char>)>, value: Seq<char>, k: int)
    requires
        0 <= k <= r.len(),
        rename_of(r.take(k), value) is Some,
    ensures
        rename_of(r, value) == rename_of(r.take(k), value),
    decreases r.len() - k,
{
    if k < r.len() {
        assert(r.drop_last().take(k) =~= r.take(k));
        lemma_rename_prefix(r.drop_last(), value, k);
    } else {
        assert(r.take(k) =~= r);
    }
}

/// The renames of the variants of the enumeration named `name`: those of the
/// first entry for it.
pub open spec fn renames_for(all: Seq<(Seq<char>, Seq<(Seq<char>, Seq<char>)>)>, name: Seq<char>) -> Option<
    Seq<(Seq<char>, Seq<char>)>,
>
    decreases all.len(),
{
    if all.len() == 0 {
        None
    } else {
        match renames_for(all.drop_last(), name) {
            Some(r) => Some(r),
            None => if all.last().0 == name {
                Some(all.last().1)
            } else {
                None
            },
        }
    }
}

pub open spec fn view_rename_entry(e: (String, Vec<(String, String)>)) -> (Seq<char>, Seq<(Seq<char>, Seq<char>)>) {
    (e.0@, view_pairs(e.1@))
}

pub open spec fn view_all_renames(s: Seq<(String, Vec<(String, String)>)>) -> Seq<(Seq<char>, Seq<(Seq<char>, Seq<char>)>)> {
    s.map_values(|e: (String, Vec<(String, String)>)| view_rename_entry(e))
}

proof fn lemma_renames_for_prefix(all: Seq<(Seq<char>, Seq<(Seq<char>, Seq<char>)>)>, name: Seq<char>, k: int)
    requires
        0 <= k <= all.len(),
        renames_for(all.take(k), name) is Some,
    ensures
        renames_for(all, name) == renames_for(all.take(k), name),
    decreases all.len() - k,
{
    if k < all.len() {
        assert(all.drop_last().take(k) =~= all.take(k));
        lemma_renames_for_prefix(all.drop_last(), name, k);
    } else {
        assert(all.take(k) =~= all);
    }
}

fn find_renames<'a>(all: &'a Vec<(String, Vec<(String, String)>)>, name: &str) -> (r: Option<&'a Vec<(String, String)>>)
    ensures
        match renames_for(view_all_renames(all@), name@) {
            Some(x) => r matches Some(v) && view_pairs(v@) == x,
            None => r is None,
        },
{
    let ghost av = view_all_renames(all@);
    let n = all.len();
    for k in 0..n
        invariant
            n == all.len(),
            av == view_all_renames(all@),
            renames_for(av.take(k as int), name@) is None,
    {
        proof {
            assert(av.take(k + 1).drop_last() =~= av.take(k as int));
            assert(av.take(k + 1).last() == view_rename_entry(all@[k as int]));
        }
        if str_eq(all[k].0.as_str(), name) {
            proof {
                lemma_renames_for_prefix(av, name@, k + 1);
            }
            return Some(&all[k].1);
        }
    }
    assert(av.take(n as int) =~= av);
    None
}

/// The variants of restriction node `j` from its `enumeration` children
/// before position `k`: each must have a value.
pub open spec fn variants_upto(
    ns: Seq<SpecSchemaNode>,
    j: int,
    renames: Option<Seq<(Seq<char>, Seq<char>)>>,
    k: int,
) -> Result<Seq<(Seq<char>, Seq<char>)>, SpecSchemaError>
    decreases k - j,
{
    if k <= j + 1 {
        Ok(Seq::empty())
    } else {
        match variants_upto(ns, j, renames, k - 1) {
            Err(e) => Err(e),
            Ok(rest) => if is_child(ns, j, k - 1) && ns[k - 1].tag == "enumeration"@ {
                match attr(ns, k - 1, "value"@) {
                    None => Err(SpecSchemaError::MissingAttribute("value"@)),
                    Some(value) => Ok(rest.push((value, spec_enum_name(value, renames)))),
                }
            } else {
                Ok(rest)
            },
        }
    }
}

/// The type of restriction node `j` of the simple type named `name`:
/// `DoxVersionNumber` and `DoxCharRange` stand for `String`; every other is
/// an enum of its enumeration values.
pub open spec fn spec_restriction(
    ns: Seq<SpecSchemaNode>,
    name: Seq<char>,
    j: int,
    all: Seq<(Seq<char>, Seq<(Seq<char>, Seq<char>)>)>,
) -> Result<SpecItem, SpecSchemaError> {
    let token = crate::xsd::spec_type_token(spec_type_from_str(name));
    if name == "DoxVersionNumber"@ || name == "DoxCharRange"@ {
        Ok(SpecItem::Alias { name: token })
    } else {
        match variants_upto(ns, j, renames_for(all, name), ns.len() as int) {
            Err(e) => Err(e),
            Ok(variants) => Ok(SpecItem::Enumeration { name: token, variants }),
        }
    }
}

proof fn lemma_variants_err(
    ns: Seq<SpecSchemaNode>,
    j: int,
    renames: Option<Seq<(Seq<char>, Seq<char>)>>,
    k: int,
    m: int,
)
    requires
        j < k <= m,
        variants_upto(ns, j, renames, k) is Err,
    ensures
        variants_upto(ns, j, renames, m) == variants_upto(ns, j, renames, k),
    decreases m - k,
{
    if m > k {
        lemma_variants_err(ns, j, renames, k, m - 1);
    }
}

/// The type of restriction node `j`, as `spec_restriction` states.
pub fn create_restriction(
    nodes: &Vec<SchemaNode>,
    name: &str,
    j: usize,
    all: &Vec<(String, Vec<(String, String)>)>,
) -> (r: Result<Item, SchemaError>)
    requires
        j < nodes.len(),
    ensures
        match spec_restriction(view_schema_nodes(nodes@), name@, j as int, view_all_renames(all@)) {
            Ok(item) => r matches Ok(x) && view_item(x) == item,
            Err(e) => r matches Err(x) && view_schema_error(x) == e,
        },
{
    let ghost v = view_schema_nodes(nodes@);
    let token = Type::from_str(name).type_token();
    if str_eq(name, "DoxVersionNumber") || str_eq(name, "DoxCharRange") {
        return Ok(Item::Alias { name: token });
    }
    let renames = find_renames(all, name);
    let ghost rv = match renames {
        Some(x) => Some(view_pairs(x@)),
        None => None::<Seq<(Seq<char>, Seq<char>)>>,
    };
    assert(rv == renames_for(view_all_renames(all@), name@));
    let mut variants: Vec<(String, String)> = Vec::new();
    assert(view_pairs(variants@) =~= Seq::empty());
    let n = nodes.len();
    let mut k = j + 1;
    while k < n
        invariant
            n == nodes.len(),
            v == view_schema_nodes(nodes@),
            j < k <= n,
            !(name@ == "DoxVersionNumber"@ || name@ == "DoxCharRange"@),
            rv == renames_for(view_all_renames(all@), name@),
            rv == match renames {
                Some(x) => Some(view_pairs(x@)),
                None => None::<Seq<(Seq<char>, Seq<char>)>>,
            },
            variants_upto(v, j as int, rv, k as int) == Ok::<Seq<(Seq<char>, Seq<char>)>, SpecSchemaError>(
                view_pairs(variants@),
            ),
        decreases n - k,
    {
        let ghost before = view_pairs(variants@);
        proof {
            assert(v[k as int] == view_schema_node(nodes@[k as int]));
            lemma_attr_single(v, k as int, "value"@);
        }
        if child_of(nodes, j, k) && str_eq(nodes[k].tag.as_str(), "enumeration") {
            match attribute(&nodes[k], "value") {
                None => {
                    let missing = "value".to_owned();
                    proof {
                        assert(variants_upto(v, j as int, rv, k + 1) == Err::<Seq<(Seq<char>, Seq<char>)>, SpecSchemaError>(
                            SpecSchemaError::MissingAttribute("value"@),
                        ));
                        lemma_variants_err(v, j as int, rv, k + 1, n as int);

                    }
                    return Err(SchemaError::MissingAttribute(missing));
                },
                Some(value) => {
                    let variant = convert_enum_name(value, renames);
                    let pair = (value.to_owned(), variant);
                    proof {
                        assert(view_pair(pair) == (value@, spec_enum_name(value@, rv)));
                    }
                    variants.push(pair);
                    assert(view_pairs(variants@) =~= before.push((value@, spec_enum_name(value@, rv))));
                },
            }
        }
        k = k + 1;
    }
    Ok(Item::Enumeration { name: token, variants })
}

/// The types of the `restriction` children of simple type node `i` named
/// `name` before position `k`; a restriction that cannot be planned gives
/// none.
pub open spec fn simple_items_upto(
    ns: Seq<SpecSchemaNode>,
    i: int,
    name: Seq<char>,
    all: Seq<(Seq<char>, Seq<(Seq<char>, Seq<char>)>)>,
    k: int,
) -> Seq<SpecItem>
    decreases k - i,
{
    if k <= i + 1 {
        Seq::empty()
    } else {
        let rest = simple_items_upto(ns, i, name, all, k - 1);
        if is_child(ns, i, k - 1) && ns[k - 1].tag == "restriction"@ {
            match spec_restriction(ns, name, k - 1, all) {
                Ok(item) => rest.push(item),
                Err(_) => rest,
            }
        } else {
            rest
        }
    }
}

/// The types of simple type node `i`: it must have a name.
pub open spec fn spec_simple_type(
    ns: Seq<SpecSchemaNode>,
    i: int,
    all: Seq<(Seq<char>, Seq<(Seq<char>, Seq<char>)>)>,
) -> Result<Seq<SpecItem>, SpecSchemaError> {
    match attr(ns, i, "name"@) {
        None => Err(SpecSchemaError::MissingAttribute("name"@)),
        Some(n) => Ok(simple_items_upto(ns, i, n, all, ns.len() as int)),
    }
}

pub open spec fn view_items_result(r: Result<Vec<Item>, SchemaError>) -> Result<Seq<SpecItem>, SpecSchemaError> {
    match r {
        Ok(v) => Ok(view_items(v@)),
        Err(e) => Err(view_schema_error(e)),
    }
}

/// The types of simple type node `i`, as `spec_simple_type` states.
pub fn handle_simple_type(nodes: &Vec<SchemaNode>, i: usize, all: &Vec<(String, Vec<(String, String)>)>) -> (r: Result<
    Vec<Item>,
    SchemaError,
>)
    requires
        i < nodes.len(),
    ensures
        view_items_result(r) == spec_simple_type(view_schema_nodes(nodes@), i as int, view_all_renames(all@)),
{
    let ghost v = view_schema_nodes(nodes@);
    let ghost av = view_all_renames(all@);
    proof {
        assert(v[i as int] == view_schema_node(nodes@[i as int]));
        lemma_attr_single(v, i as int, "name"@);
    }
    let name = match attribute(&nodes[i], "name") {
        None => {
            return Err(SchemaError::MissingAttribute("name".to_owned()));
        },
        Some(n) => n,
    };
    let mut items: Vec<Item> = Vec::new();
    assert(view_items(items@) =~= Seq::empty());
    let n = nodes.len();
    let mut k = i + 1;
    while k < n
        invariant
            n == nodes.len(),
            v == view_schema_nodes(nodes@),
            av == view_all_renames(all@),
            i < k <= n,
            view_items(items@) == simple_items_upto(v, i as int, name@, av, k as int),
        decreases n - k,
    {
        let ghost before = view_items(items@);
        if child_of(nodes, i, k) && str_eq(nodes[k].tag.as_str(), "restriction") {
            match create_restriction(nodes, name, k, all) {
                Ok(item) => {
                    let ghost iv = view_item(item);
                    items.push(item);
                    assert(view_items(items@) =~= before.push(iv));
                },
                Err(_) => {},
            }
        }
        k = k + 1;
    }
    Ok(items)
}

// ---------------------------------------------------------------------------
// Groups and the whole schema

/// The choice enum of group node `g`: it must have a name; its entries are
/// those of its `choice` children.
pub open spec fn spec_group(ns: Seq<SpecSchemaNode>, g: int, skip: Seq<Seq<char>>) -> Result<SpecItem, SpecSchemaError> {
    match attr(ns, g, "name"@) {
        None => Err(SpecSchemaError::MissingAttribute("name"@)),
        Some(n) => match group_entries_upto(ns, g, skip, ns.len() as int) {
            Err(e) => Err(e),
            Ok(entries) => Ok(SpecItem::Choice { name: spec_type_id(spec_type_from_str(n)), entries }),
        },
    }
}

/// The choice enum of group node `g`, as `spec_group` states.
pub fn handle_group(nodes: &Vec<SchemaNode>, g: usize, skip_types: &Vec<String>) -> (r: Result<Item, SchemaError>)
    requires
        g < nodes.len(),
    ensures
        match spec_group(view_schema_nodes(nodes@), g as int, crate::strings::string_views(skip_types@)) {
            Ok(item) => r matches Ok(x) && view_item(x) == item,
            Err(e) => r matches Err(x) && view_schema_error(x) == e,
        },
{
    let ghost v = view_schema_nodes(nodes@);
    proof {
        assert(v[g as int] == view_schema_node(nodes@[g as int]));
        lemma_attr_single(v, g as int, "name"@);
    }
    let name = match attribute(&nodes[g], "name") {
        None => {
            return Err(SchemaError::MissingAttribute("name".to_owned()));
        },
        Some(n) => n,
    };
    match get_group_entries(nodes, g, skip_types) {
        Err(e) => Err(e),
        Ok(entries) => Ok(Item::Choice { name: Type::from_str(name).type_id(), entries }),
    }
}

/// What the generator is told besides the schema: the schema types to skip
/// and, for enumerations by name, the variant names to give their values.
#[derive(Debug, PartialEq, Eq)]
pub struct GenContext {
    pub skip_types: Vec<String>,
    pub enum_variant_renames: Vec<(String, Vec<(String, String)>)>,
}

/// The types of the children of schema node `s` before position `k`, in
/// order: a `complexType` gives its type (when it has one), a `simpleType`
/// its types, a `group` its choice enum; the first that cannot be planned
/// decides the error.
pub open spec fn items_upto(
    ns: Seq<SpecSchemaNode>,
    s: int,
    skip: Seq<Seq<char>>,
    all: Seq<(Seq<char>, Seq<(Seq<char>, Seq<char>)>)>,
    k: int,
) -> Result<Seq<SpecItem>, SpecSchemaError>
    decreases k - s,
{
    if k <= s + 1 {
        Ok(Seq::empty())
    } else {
        match items_upto(ns, s, skip, all, k - 1) {
            Err(e) => Err(e),
            Ok(rest) => {
                let j = k - 1;
                if !is_child(ns, s, j) {
                    Ok(rest)
                } else if ns[j].tag == "complexType"@ {
                    match spec_complex_type(ns, j, skip) {
                        Err(e) => Err(e),
                        Ok(Some(item)) => Ok(rest.push(item)),
                        Ok(None) => Ok(rest),
                    }
                } else if ns[j].tag == "simpleType"@ {
                    match spec_simple_type(ns, j, all) {
                        Err(e) => Err(e),
                        Ok(items) => Ok(rest + items),
                    }
                } else if ns[j].tag == "group"@ {
                    match spec_group(ns, j, skip) {
                        Err(e) => Err(e),
                        Ok(item) => Ok(rest.push(item)),
                    }
                } else {
                    Ok(rest)
                }
            },
        }
    }
}

/// The plan of a schema document's nodes: the types of the children of its
/// first element, the schema.
pub open spec fn spec_plan(
    ns: Seq<SpecSchemaNode>,
    skip: Seq<Seq<char>>,
    all: Seq<(Seq<char>, Seq<(Seq<char>, Seq<char>)>)>,
) -> Result<Seq<SpecItem>, SpecSchemaError> {
    match crate::xsd::schema::first_element_child(ns, 0) {
        None => Err(SpecSchemaError::NoSchemaElement),
        Some(s) => items_upto(ns, s, skip, all, ns.len() as int),
    }
}

proof fn lemma_items_err(
    ns: Seq<SpecSchemaNode>,
    s: int,
    skip: Seq<Seq<char>>,
    all: Seq<(Seq<char>, Seq<(Seq<char>, Seq<char>)>)>,
    k: int,
    m: int,
)
    requires
        s < k <= m,
        items_upto(ns, s, skip, all, k) is Err,
    ensures
        items_upto(ns, s, skip, all, m) == items_upto(ns, s, skip, all, k),
    decreases m - k,
{
    if m > k {
        lemma_items_err(ns, s, skip, all, k, m - 1);
    }
}

/// The plan of the types to generate from a schema document's nodes, as
/// `spec_plan` states.
pub fn plan_schema(nodes: &Vec<SchemaNode>, context: &GenContext) -> (r: Result<Vec<Item>, SchemaError>)
    ensures
        view_items_result(r) == spec_plan(
            view_schema_nodes(nodes@),
            crate::strings::string_views(context.skip_types@),
            view_all_renames(context.enum_variant_renames@),
        ),
{
    let ghost v = view_schema_nodes(nodes@);
    let ghost skip = crate::strings::string_views(context.skip_types@);
    let ghost av = view_all_renames(context.enum_variant_renames@);
    if nodes.len() == 0 {
        return Err(SchemaError::NoSchemaElement);
    }
    let s = match crate::xsd::schema::find_element_child(nodes, 0) {
        None => {
            return Err(SchemaError::NoSchemaElement);
        },
        Some(p) => p,
    };
    let mut items: Vec<Item> = Vec::new();
    assert(view_items(items@) =~= Seq::empty());
    let n = nodes.len();
    let mut j = s + 1;
    while j < n
        invariant
            n == nodes.len(),
            v == view_schema_nodes(nodes@),
            skip == crate::strings::string_views(context.skip_types@),
            av == view_all_renames(context.enum_variant_renames@),
            s < j <= n,
            crate::xsd::schema::first_element_child(v, 0) == Some(s as int),
            items_upto(v, s as int, skip, av, j as int) == Ok::<Seq<SpecItem>, SpecSchemaError>(view_items(items@)),
        decreases n - j,
    {
        let ghost before = view_items(items@);
        if child_of(nodes, s, j) {
            let tag = nodes[j].tag.as_str();
            if str_eq(tag, "complexType") {
                match handle_complex_type(nodes, j, &context.skip_types) {
                    Err(e) => {
                        proof {
                            lemma_items_err(v, s as int, skip, av, j + 1, n as int);
                        }
                        return Err(e);
                    },
                    Ok(Some(item)) => {
                        let ghost iv = view_item(item);
                        items.push(item);
                        assert(view_items(items@) =~= before.push(iv));
                    },
                    Ok(None) => {},
                }
            } else if str_eq(tag, "simpleType") {
                match handle_simple_type(nodes, j, &context.enum_variant_renames) {
                    Err(e) => {
                        proof {
                            lemma_items_err(v, s as int, skip, av, j + 1, n as int);
                        }
                        return Err(e);
                    },
                    Ok(mut more) => {
                        let ghost mv = view_items(more@);
                        items.append(&mut more);
                        assert(view_items(items@) =~= before + mv);
                    },
                }
            } else if str_eq(tag, "group") {
                match handle_group(nodes, j, &context.skip_types) {
                    Err(e) => {
                        proof {
                            lemma_items_err(v, s as int, skip, av, j + 1, n as int);
                        }
                        return Err(e);
                    },
                    Ok(item) => {
                        let ghost iv = view_item(item);
                        items.push(item);
                        assert(view_items(items@) =~= before.push(iv));
                    },
                }
            }
        }
        j = j + 1;
    }
    Ok(items)
}

/// Maps the error of `roxmltree` to the library's own.
fn document_error(_e: roxmltree::Error) -> (r: SchemaError)
    ensures
        r == SchemaError::Malformed,
{
    SchemaError::Malformed
}

/// The plan of the types to generate from schema text: `Malformed` when it
/// does not read as a document, the plan of its nodes otherwise.
pub fn plan(xsd: &str, context: &GenContext) -> (r: Result<Vec<Item>, SchemaError>)
    ensures
        match crate::xsd::schema::schema_document(xsd@) {
            None => r == Err::<Vec<Item>, SchemaError>(SchemaError::Malformed),
            Some(ns) => view_items_result(r) == spec_plan(
                ns,
                crate::strings::string_views(context.skip_types@),
                view_all_renames(context.enum_variant_renames@),
            ),
        },
{
    match crate::xsd::schema::parse_schema_nodes(xsd) {
        Err(e) => Err(document_error(e)),
        Ok(nodes) => plan_schema(&nodes, context),
    }
}

// ---------------------------------------------------------------------------
// Laws

proof fn lemma_choice_entries_distinct(ns: Seq<SpecSchemaNode>, c: int, skip: Seq<Seq<char>>, k: int)
    ensures
        choice_entries_upto(ns, c, skip, k) matches Ok(es) ==> forall|x: int, y: int|
            0 <= x < y < es.len() && entry_variant(#[trigger] es[x]) is Some ==> entry_variant(es[x]) != entry_variant(
                #[trigger] es[y],
            ),
    decreases k - c,
{
    if k > c + 1 {
        lemma_choice_entries_distinct(ns, c, skip, k - 1);
    }
}

/// Within one choice, no two element entries share a variant name: an
/// element whose name normalises to one already seen is left out.
pub proof fn law_choice_variants_distinct(ns: Seq<SpecSchemaNode>, c: int, skip: Seq<Seq<char>>)
    ensures
        choice_entries(ns, c, skip) matches Ok(es) ==> forall|x: int, y: int|
            0 <= x < y < es.len() && entry_variant(#[trigger] es[x]) is Some ==> entry_variant(es[x]) != entry_variant(
                #[trigger] es[y],
            ),
{
    lemma_choice_entries_distinct(ns, c, skip, ns.len() as int);
}

} // verus!
