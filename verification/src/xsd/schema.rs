//! A plain model of a parsed schema document: its nodes in document order,
//! each with the id of its parent, and the reading helpers over them that the
//! generator needs (attribute lookup, children with a tag).
use vstd::prelude::*;

use crate::strings::{opt_view, str_eq};

verus! {

/// The error of `roxmltree` for a document it cannot parse.
#[verifier::external_type_specification]
#[verifier::external_body]
pub struct ExDocumentError(roxmltree::Error);

/// An attribute of a node: its namespace, when it has one, its local name and
/// its value.
#[derive(Debug, PartialEq, Eq)]
pub struct SchemaAttribute {
    pub namespace: Option<String>,
    pub name: String,
    pub value: String,
}

/// A node of a schema document: its id, the id of its parent (none for the
/// document root), whether it is an element, its local tag name (empty for
/// nodes that are not elements) and its attributes.
#[derive(Debug, PartialEq, Eq)]
pub struct SchemaNode {
    pub id: u32,
    pub parent: Option<u32>,
    pub element: bool,
    pub tag: String,
    pub attributes: Vec<SchemaAttribute>,
}

/// The model of a schema node.
pub struct SpecSchemaNode {
    pub id: u32,
    pub parent: Option<u32>,
    pub element: bool,
    pub tag: Seq<char>,
    pub attributes: Seq<(Option<Seq<char>>, Seq<char>, Seq<char>)>,
}

pub open spec fn view_schema_attribute(a: SchemaAttribute) -> (Option<Seq<char>>, Seq<char>, Seq<char>) {
    (opt_view(a.namespace), a.name@, a.value@)
}

pub open spec fn view_schema_node(n: SchemaNode) -> SpecSchemaNode {
    SpecSchemaNode {
        id: n.id,
        parent: n.parent,
        element: n.element,
        tag: n.tag@,
        attributes: n.attributes@.map_values(|a: SchemaAttribute| view_schema_attribute(a)),
    }
}

pub open spec fn view_schema_nodes(s: Seq<SchemaNode>) -> Seq<SpecSchemaNode> {
    s.map_values(|n: SchemaNode| view_schema_node(n))
}

/// The nodes, in document order, of the schema document that `text` holds,
/// as `roxmltree` reads it; none when it does not read as a document.
pub uninterp spec fn schema_document(text: Seq<char>) -> Option<Seq<SpecSchemaNode>>;

/// Parses `text` with `roxmltree::Document::parse` and lists the nodes of
/// the document, the root first, as `descendants` walks them: each with its
/// id, its parent's id, whether it is an element, its local tag name and its
/// attributes. The contract names the result and says nothing more of it.
#[verifier::external_body]
pub(crate) fn parse_schema_nodes(text: &str) -> (r: Result<Vec<SchemaNode>, roxmltree::Error>)
    ensures
        match r {
            Ok(v) => schema_document(text@) == Some(view_schema_nodes(v@)),
            Err(_) => schema_document(text@) is None,
        },
{
    let doc = roxmltree::Document::parse(text)?;
    let attribute = |a: roxmltree::Attribute| SchemaAttribute {
        namespace: a.namespace().map(|n| n.to_string()),
        name: a.name().to_string(),
        value: a.value().to_string(),
    };
    Ok(doc.descendants().map(|n| SchemaNode {
        id: n.id().get(),
        parent: n.parent().map(|p| p.id().get()),
        element: n.is_element(),
        tag: n.tag_name().name().to_string(),
        attributes: n.attributes().map(attribute).collect(),
    }).collect())
}

// ---------------------------------------------------------------------------
// Reading the nodes

/// The value of the attribute without namespace named `name`: the first one,
/// as `roxmltree`'s `attribute` looks it up.
pub open spec fn attr_in(attrs: Seq<(Option<Seq<char>>, Seq<char>, Seq<char>)>, name: Seq<char>) -> Option<Seq<char>>
    decreases attrs.len(),
{
    if attrs.len() == 0 {
        None
    } else {
        match attr_in(attrs.drop_last(), name) {
            Some(v) => Some(v),
            None => if attrs.last().0 is None && attrs.last().1 == name {
                Some(attrs.last().2)
            } else {
                None
            },
        }
    }
}

/// The value of attribute `name` of the node at position `i`.
pub open spec fn attr(nodes: Seq<SpecSchemaNode>, i: int, name: Seq<char>) -> Option<Seq<char>> {
    attr_in(nodes[i].attributes, name)
}

/// Whether the node at position `j` is a child of the node at position `i`:
/// it names that node as its parent and comes after it (a parent comes
/// before its children in document order).
pub open spec fn is_child(nodes: Seq<SpecSchemaNode>, i: int, j: int) -> bool {
    0 <= i < j < nodes.len() && nodes[j].parent == Some(nodes[i].id)
}

/// The position of the first child of node `i`, among the positions before
/// `k`, whose tag is `tag`.
pub open spec fn first_tagged_upto(nodes: Seq<SpecSchemaNode>, i: int, tag: Seq<char>, k: int) -> Option<int>
    decreases k - i,
{
    if k <= i + 1 {
        None
    } else {
        match first_tagged_upto(nodes, i, tag, k - 1) {
            Some(p) => Some(p),
            None => if is_child(nodes, i, k - 1) && nodes[k - 1].tag == tag {
                Some(k - 1)
            } else {
                None
            },
        }
    }
}

/// The position of the first child of node `i` whose tag is `tag`.
pub open spec fn first_tagged(nodes: Seq<SpecSchemaNode>, i: int, tag: Seq<char>) -> Option<int> {
    first_tagged_upto(nodes, i, tag, nodes.len() as int)
}

/// The position of the first child of node `i`, among the positions before
/// `k`, that is an element.
pub open spec fn first_element_upto(nodes: Seq<SpecSchemaNode>, i: int, k: int) -> Option<int>
    decreases k - i,
{
    if k <= i + 1 {
        None
    } else {
        match first_element_upto(nodes, i, k - 1) {
            Some(p) => Some(p),
            None => if is_child(nodes, i, k - 1) && nodes[k - 1].element {
                Some(k - 1)
            } else {
                None
            },
        }
    }
}

/// The position of the first child of node `i` that is an element.
pub open spec fn first_element_child(nodes: Seq<SpecSchemaNode>, i: int) -> Option<int> {
    first_element_upto(nodes, i, nodes.len() as int)
}

/// Looks up the attribute without namespace named `name`.
pub fn attribute<'a>(node: &'a SchemaNode, name: &str) -> (r: Option<&'a str>)
    ensures
        match attr_in(view_schema_node(*node).attributes, name@) {
            Some(v) => r matches Some(x) && x@ == v,
            None => r is None,
        },
{
    let ghost attrs = view_schema_node(*node).attributes;
    let n = node.attributes.len();
    for k in 0..n
        invariant
            n == node.attributes.len(),
            attrs == view_schema_node(*node).attributes,
            attr_in(attrs.take(k as int), name@) is None,
    {
        proof {
            assert(attrs.take(k + 1).drop_last() =~= attrs.take(k as int));
            assert(attrs.take(k + 1).last() == view_schema_attribute(node.attributes@[k as int]));
        }
        let a = &node.attributes[k];
        if a.namespace.is_none() && str_eq(a.name.as_str(), name) {
            proof {
                lemma_attr_in_prefix(attrs, name@, k + 1);
            }
            return Some(a.value.as_str());
        }
    }
    assert(attrs.take(n as int) =~= attrs);
    None
}

proof fn lemma_attr_in_prefix(attrs: Seq<(Option<Seq<char>>, Seq<char>, Seq<char>)>, name: Seq<char>, k: int)
    requires
        0 <= k <= attrs.len(),
        attr_in(attrs.take(k), name) is Some,
    ensures
        attr_in(attrs, name) == attr_in(attrs.take(k), name),
    decreases attrs.len() - k,
{
    if k < attrs.len() {
        assert(attrs.drop_last().take(k) =~= attrs.take(k));
        lemma_attr_in_prefix(attrs.drop_last(), name, k);
    } else {
        assert(attrs.take(k) =~= attrs);
    }
}

/// Whether the node at position `j` is a child of the node at position `i`.
pub fn child_of(nodes: &Vec<SchemaNode>, i: usize, j: usize) -> (r: bool)
    requires
        i < j < nodes.len(),
    ensures
        r == is_child(view_schema_nodes(nodes@), i as int, j as int),
{
    match nodes[j].parent {
        Some(p) => p == nodes[i].id,
        None => false,
    }
}

proof fn lemma_first_tagged_prefix(nodes: Seq<SpecSchemaNode>, i: int, tag: Seq<char>, k: int, m: int)
    requires
        i < k <= m,
        first_tagged_upto(nodes, i, tag, k) is Some,
    ensures
        first_tagged_upto(nodes, i, tag, m) == first_tagged_upto(nodes, i, tag, k),
    decreases m - k,
{
    if m > k {
        lemma_first_tagged_prefix(nodes, i, tag, k, m - 1);
    }
}

proof fn lemma_first_element_prefix(nodes: Seq<SpecSchemaNode>, i: int, k: int, m: int)
    requires
        i < k <= m,
        first_element_upto(nodes, i, k) is Some,
    ensures
        first_element_upto(nodes, i, m) == first_element_upto(nodes, i, k),
    decreases m - k,
{
    if m > k {
        lemma_first_element_prefix(nodes, i, k, m - 1);
    }
}

/// The position of the first child of node `i` whose tag is `tag`.
pub fn find_tagged(nodes: &Vec<SchemaNode>, i: usize, tag: &str) -> (r: Option<usize>)
    requires
        i < nodes.len(),
    ensures
        match first_tagged(view_schema_nodes(nodes@), i as int, tag@) {
            Some(p) => r == Some(p as usize),
            None => r is None,
        },
        r matches Some(p) ==> i < p < nodes@.len(),
        first_tagged(view_schema_nodes(nodes@), i as int, tag@) matches Some(p) ==> i < p < nodes@.len(),
{
    let ghost v = view_schema_nodes(nodes@);
    let n = nodes.len();
    let mut j = i + 1;
    while j < n
        invariant
            n == nodes.len(),
            v == view_schema_nodes(nodes@),
            i < j <= n,
            first_tagged_upto(v, i as int, tag@, j as int) is None,
        decreases n - j,
    {
        if child_of(nodes, i, j) && str_eq(nodes[j].tag.as_str(), tag) {
            proof {
                assert(first_tagged_upto(v, i as int, tag@, j + 1) == Some(j as int));
                lemma_first_tagged_prefix(v, i as int, tag@, j + 1, n as int);
            }
            return Some(j);
        }
        j = j + 1;
    }
    None
}

/// The position of the first child of node `i` that is an element.
pub fn find_element_child(nodes: &Vec<SchemaNode>, i: usize) -> (r: Option<usize>)
    requires
        i < nodes.len(),
    ensures
        match first_element_child(view_schema_nodes(nodes@), i as int) {
            Some(p) => r == Some(p as usize),
            None => r is None,
        },
        r matches Some(p) ==> i < p < nodes@.len(),
        first_element_child(view_schema_nodes(nodes@), i as int) matches Some(p) ==> i < p < nodes@.len(),
{
    let ghost v = view_schema_nodes(nodes@);
    let n = nodes.len();
    let mut j = i + 1;
    while j < n
        invariant
            n == nodes.len(),
            v == view_schema_nodes(nodes@),
            i < j <= n,
            first_element_upto(v, i as int, j as int) is None,
        decreases n - j,
    {
        if child_of(nodes, i, j) && nodes[j].element {
            proof {
                assert(first_element_upto(v, i as int, j + 1) == Some(j as int));
                lemma_first_element_prefix(v, i as int, j + 1, n as int);
            }
            return Some(j);
        }
        j = j + 1;
    }
    None
}

} // verus!
