//! The document nodes that rendering produces and the Sphinx extension turns
//! into docutils nodes, the Sphinx domains they can be filed under, and their
//! mathematical model.
use vstd::prelude::*;

use crate::strings::str_eq;

verus! {

/// How the Python side calls the constructor of a node.
#[derive(Debug, Clone, Copy, PartialEq, Eq, Structural)]
pub enum CallAs {
    Source,
    SourceText,
    Args,
}

/// The layout of a signature.
#[derive(Debug, Clone, Copy, PartialEq, Eq, Structural)]
pub enum SignatureType {
    MultiLine,
}

/// A Sphinx domain that entries can be registered with.
#[derive(Debug, Clone, Copy, PartialEq, Eq, Structural)]
pub enum Domain {
    CPlusPlus,
    C,
}

/// Why a domain name was refused.
#[derive(Debug, Clone, PartialEq, Eq)]
pub enum DomainError {
    /// The name is neither `cpp` nor `c`.
    Unrecognised(String),
}

/// The domain that a name stands for: `cpp` for C++ and `c` for C.
pub open spec fn spec_domain_from(name: Seq<char>) -> Option<Domain> {
    if name == "cpp"@ {
        Some(Domain::CPlusPlus)
    } else if name == "c"@ {
        Some(Domain::C)
    } else {
        None
    }
}

/// The name of a domain, as the Python side knows it.
pub open spec fn spec_domain_name(domain: Domain) -> Seq<char> {
    match domain {
        Domain::CPlusPlus => "cpp"@,
        Domain::C => "c"@,
    }
}

/// Whether every value of a lookup names a domain.
pub open spec fn all_domains(lookup: Seq<(String, String)>) -> bool {
    forall|i: int| 0 <= i < lookup.len() ==> spec_domain_from(#[trigger] lookup[i].1@) is Some
}

/// The index of the first entry of a lookup whose value names no domain,
/// searching from `from`.
pub open spec fn first_unrecognised_from(lookup: Seq<(String, String)>, from: int) -> Option<int>
    decreases lookup.len() - from,
{
    if from < 0 || from >= lookup.len() {
        None
    } else if spec_domain_from(lookup[from].1@) is None {
        Some(from)
    } else {
        first_unrecognised_from(lookup, from + 1)
    }
}

impl Domain {
    /// Reads a domain name: `cpp` or `c`; any other name is refused with the
    /// name itself.
    pub fn from(name: String) -> (r: Result<Domain, DomainError>)
        ensures
            match spec_domain_from(name@) {
                Some(d) => r == Ok::<Domain, DomainError>(d),
                None => r matches Err(DomainError::Unrecognised(n)) && n@ == name@,
            },
    {
        if str_eq(name.as_str(), "cpp") {
            Ok(Domain::CPlusPlus)
        } else if str_eq(name.as_str(), "c") {
            Ok(Domain::C)
        } else {
            Err(DomainError::Unrecognised(name))
        }
    }

    /// The name of the domain, which `Domain::from` reads back.
    pub fn as_str(&self) -> (r: &'static str)
        ensures
            r@ == spec_domain_name(*self),
    {
        proof {
            reveal_strlit("cpp");
            reveal_strlit("c");
        }
        match self {
            Domain::CPlusPlus => "cpp",
            Domain::C => "c",
        }
    }

    /// Reads a lookup from keys (file extensions) to domain names into one
    /// from keys to domains, keeping the order of the entries. The first value
    /// that names no domain is refused.
    pub fn create_lookup(lookup: Vec<(String, String)>) -> (r: Result<Vec<(String, Domain)>, DomainError>)
        ensures
            r is Ok <==> all_domains(lookup@),
            r matches Ok(out) ==> out.len() == lookup.len() && forall|i: int|
                0 <= i < lookup.len() ==> (#[trigger] out@[i]).0@ == lookup@[i].0@ && spec_domain_from(
                    lookup@[i].1@,
                ) == Some(out@[i].1),
            r matches Err(DomainError::Unrecognised(n)) ==> match first_unrecognised_from(lookup@, 0) {
                Some(k) => n@ == lookup@[k].1@,
                None => false,
            },
    {
        let ghost orig = lookup@;
        let n = lookup.len();
        let mut rest = lookup;
        let mut out: Vec<(String, Domain)> = Vec::new();
        let mut k: usize = 0;
        while k < n
            invariant
                n == orig.len(),
                orig == lookup@,
                k <= n,
                rest@ =~= orig.subrange(k as int, n as int),
                out.len() == k,
                forall|i: int| 0 <= i < k ==> spec_domain_from(#[trigger] orig[i].1@) is Some,
                forall|i: int|
                    0 <= i < k ==> (#[trigger] out@[i]).0@ == orig[i].0@ && spec_domain_from(orig[i].1@) == Some(
                        out@[i].1,
                    ),
                first_unrecognised_from(orig, 0) == first_unrecognised_from(orig, k as int),
            decreases n - k,
        {
            let (key, value) = rest.remove(0);
            assert(key@ == orig[k as int].0@ && value@ == orig[k as int].1@);
            match Domain::from(value) {
                Ok(d) => {
                    out.push((key, d));
                },
                Err(e) => {
                    assert(spec_domain_from(orig[k as int].1@) is None);
                    assert(first_unrecognised_from(orig, k as int) == Some(k as int));
                    return Err(e);
                },
            }
            k = k + 1;
            assert(rest@ =~= orig.subrange(k as int, n as int));
        }
        Ok(out)
    }
}

/// The anchor that a documented entry can be linked to by.
#[derive(Debug, Clone, PartialEq, Eq)]
pub struct Target {
    pub ids: String,
    pub names: String,
}

/// The kind of entry registered with a Sphinx domain.
#[derive(Debug, Clone, Copy, PartialEq, Eq, Structural)]
pub enum DomainEntryType {
    Class,
    Define,
    Enum,
    Enumerator,
    Function,
    Member,
    Struct,
    Typedef,
    Union,
}

/// Where an entry is declared.
#[derive(Debug, Clone, PartialEq, Eq)]
pub struct Location {
    pub path: String,
    pub line: i32,
}

/// An entry that the Sphinx domain renders from its declaration.
#[derive(Debug, PartialEq, Eq)]
pub struct DomainEntry {
    pub domain: Domain,
    pub type_: DomainEntryType,
    pub target: Target,
    pub location: Option<Location>,
    pub declaration: String,
    pub content: Vec<Node>,
}

/// The numbering style of an enumerated list.
#[derive(Debug, Clone, Copy, PartialEq, Eq, Structural)]
pub enum ListEnumType {
    Arabic,
    LowerAlpha,
    UpperAlpha,
    LowerRoman,
    UpperRoman,
}

/// A document node.
#[derive(Debug, PartialEq, Eq)]
pub enum Node {
    Text(String),
    DomainEntry(Box<DomainEntry>),
    /// A block level wrapper.
    Container(Vec<Node>),
    Desc(Vec<Node>, Box<Node>),
    DescContent(Vec<Node>),
    DescName(Box<Node>),
    DescParameter(Vec<Node>),
    DescParameterList(Vec<Node>),
    DescSignature(SignatureType, Vec<Node>),
    DescSignatureKeyword(Vec<Node>),
    DescSignatureLine(Vec<Node>),
    DescSignatureName(String),
    DescSignatureSpace,
    Emphasis(Vec<Node>),
    HtmlOnly(Vec<Node>),
    Literal(Vec<Node>),
    LiteralBlock(Vec<Node>),
    LiteralStrong(Vec<Node>),
    Paragraph(Vec<Node>),
    RawHtml(String),
    Reference { internal: Option<bool>, refid: Option<String>, refuri: Option<String>, children: Vec<Node> },
    Rubric { classes: Vec<String>, nodes: Vec<Node> },
    Strong(Vec<Node>),
    Target(Target),
    Table(Vec<Node>),
    TableGroup { cols: i32, nodes: Vec<Node> },
    TableColSpec { colwidth: String },
    TableHead(Vec<Node>),
    TableBody(Vec<Node>),
    TableRow(Vec<Node>),
    TableRowEntry { heading: bool, nodes: Vec<Node> },
    FieldList(Vec<Node>),
    Field(Box<Node>, Box<Node>),
    FieldName(Vec<Node>),
    FieldBody(Vec<Node>),
    BulletList(Vec<Node>),
    EnumeratedList { type_: Option<ListEnumType>, items: Vec<Node> },
    ListItem(Vec<Node>),
    Note(Vec<Node>),
    SeeAlso(Vec<Node>),
    Warning(Vec<Node>),
    ReStructuredTextBlock(String),
    ReStructuredTextInline(String),
    /// Inline content that has no rendering of its own.
    UnknownInline(Vec<Node>),
}

// ---------------------------------------------------------------------------
// The model

/// The model of a target.
pub struct SpecTarget {
    pub ids: Seq<char>,
    pub names: Seq<char>,
}

/// The model of a domain entry.
pub struct SpecDomainEntry {
    pub domain: Domain,
    pub type_: DomainEntryType,
    pub target: SpecTarget,
    pub location: Option<(Seq<char>, i32)>,
    pub declaration: Seq<char>,
    pub content: Seq<SpecNode>,
}

/// The model of a document node.
pub enum SpecNode {
    Text(Seq<char>),
    DomainEntry(SpecDomainEntry),
    Container(Seq<SpecNode>),
    Desc(Seq<SpecNode>, Box<SpecNode>),
    DescContent(Seq<SpecNode>),
    DescName(Box<SpecNode>),
    DescParameter(Seq<SpecNode>),
    DescParameterList(Seq<SpecNode>),
    DescSignature(SignatureType, Seq<SpecNode>),
    DescSignatureKeyword(Seq<SpecNode>),
    DescSignatureLine(Seq<SpecNode>),
    DescSignatureName(Seq<char>),
    DescSignatureSpace,
    Emphasis(Seq<SpecNode>),
    HtmlOnly(Seq<SpecNode>),
    Literal(Seq<SpecNode>),
    LiteralBlock(Seq<SpecNode>),
    LiteralStrong(Seq<SpecNode>),
    Paragraph(Seq<SpecNode>),
    RawHtml(Seq<char>),
    Reference { internal: Option<bool>, refid: Option<Seq<char>>, refuri: Option<Seq<char>>, children: Seq<SpecNode> },
    Rubric { classes: Seq<Seq<char>>, nodes: Seq<SpecNode> },
    Strong(Seq<SpecNode>),
    Target(SpecTarget),
    Table(Seq<SpecNode>),
    TableGroup { cols: i32, nodes: Seq<SpecNode> },
    TableColSpec { colwidth: Seq<char> },
    TableHead(Seq<SpecNode>),
    TableBody(Seq<SpecNode>),
    TableRow(Seq<SpecNode>),
    TableRowEntry { heading: bool, nodes: Seq<SpecNode> },
    FieldList(Seq<SpecNode>),
    Field(Box<SpecNode>, Box<SpecNode>),
    FieldName(Seq<SpecNode>),
    FieldBody(Seq<SpecNode>),
    BulletList(Seq<SpecNode>),
    EnumeratedList { type_: Option<ListEnumType>, items: Seq<SpecNode> },
    ListItem(Seq<SpecNode>),
    Note(Seq<SpecNode>),
    SeeAlso(Seq<SpecNode>),
    Warning(Seq<SpecNode>),
    ReStructuredTextBlock(Seq<char>),
    ReStructuredTextInline(Seq<char>),
    UnknownInline(Seq<SpecNode>),
}

pub open spec fn view_target(t: Target) -> SpecTarget {
    SpecTarget { ids: t.ids@, names: t.names@ }
}

pub open spec fn view_location(l: Option<Location>) -> Option<(Seq<char>, i32)> {
    match l {
        Some(l) => Some((l.path@, l.line)),
        None => None,
    }
}

pub open spec fn view_opt_str(s: Option<String>) -> Option<Seq<char>> {
    match s {
        Some(s) => Some(s@),
        None => None,
    }
}

pub open spec fn view_strings(s: Seq<String>) -> Seq<Seq<char>> {
    s.map_values(|t: String| t@)
}

pub open spec fn view_domain_entry(e: DomainEntry) -> SpecDomainEntry
    decreases e,
{
    SpecDomainEntry {
        domain: e.domain,
        type_: e.type_,
        target: view_target(e.target),
        location: view_location(e.location),
        declaration: e.declaration@,
        content: view_nodes(e.content@),
    }
}

pub open spec fn view_nodes(s: Seq<Node>) -> Seq<SpecNode>
    decreases s,
{
    if s.len() == 0 {
        Seq::empty()
    } else {
        view_nodes(s.drop_last()).push(view_node(s.last()))
    }
}

pub open spec fn view_node(n: Node) -> SpecNode
    decreases n,
{
    match n {
        Node::Text(t) => SpecNode::Text(t@),
        Node::DomainEntry(e) => SpecNode::DomainEntry(view_domain_entry(*e)),
        Node::Container(c) => SpecNode::Container(view_nodes(c@)),
        Node::Desc(c, b) => SpecNode::Desc(view_nodes(c@), Box::new(view_node(*b))),
        Node::DescContent(c) => SpecNode::DescContent(view_nodes(c@)),
        Node::DescName(b) => SpecNode::DescName(Box::new(view_node(*b))),
        Node::DescParameter(c) => SpecNode::DescParameter(view_nodes(c@)),
        Node::DescParameterList(c) => SpecNode::DescParameterList(view_nodes(c@)),
        Node::DescSignature(t, c) => SpecNode::DescSignature(t, view_nodes(c@)),
        Node::DescSignatureKeyword(c) => SpecNode::DescSignatureKeyword(view_nodes(c@)),
        Node::DescSignatureLine(c) => SpecNode::DescSignatureLine(view_nodes(c@)),
        Node::DescSignatureName(t) => SpecNode::DescSignatureName(t@),
        Node::DescSignatureSpace => SpecNode::DescSignatureSpace,
        Node::Emphasis(c) => SpecNode::Emphasis(view_nodes(c@)),
        Node::HtmlOnly(c) => SpecNode::HtmlOnly(view_nodes(c@)),
        Node::Literal(c) => SpecNode::Literal(view_nodes(c@)),
        Node::LiteralBlock(c) => SpecNode::LiteralBlock(view_nodes(c@)),
        Node::LiteralStrong(c) => SpecNode::LiteralStrong(view_nodes(c@)),
        Node::Paragraph(c) => SpecNode::Paragraph(view_nodes(c@)),
        Node::RawHtml(t) => SpecNode::RawHtml(t@),
        Node::Reference { internal, refid, refuri, children } => SpecNode::Reference {
            internal,
            refid: view_opt_str(refid),
            refuri: view_opt_str(refuri),
            children: view_nodes(children@),
        },
        Node::Rubric { classes, nodes } => SpecNode::Rubric { classes: view_strings(classes@), nodes: view_nodes(nodes@) },
        Node::Strong(c) => SpecNode::Strong(view_nodes(c@)),
        Node::Target(t) => SpecNode::Target(view_target(t)),
        Node::Table(c) => SpecNode::Table(view_nodes(c@)),
        Node::TableGroup { cols, nodes } => SpecNode::TableGroup { cols, nodes: view_nodes(nodes@) },
        Node::TableColSpec { colwidth } => SpecNode::TableColSpec { colwidth: colwidth@ },
        Node::TableHead(c) => SpecNode::TableHead(view_nodes(c@)),
        Node::TableBody(c) => SpecNode::TableBody(view_nodes(c@)),
        Node::TableRow(c) => SpecNode::TableRow(view_nodes(c@)),
        Node::TableRowEntry { heading, nodes } => SpecNode::TableRowEntry { heading, nodes: view_nodes(nodes@) },
        Node::FieldList(c) => SpecNode::FieldList(view_nodes(c@)),
        Node::Field(a, b) => SpecNode::Field(Box::new(view_node(*a)), Box::new(view_node(*b))),
        Node::FieldName(c) => SpecNode::FieldName(view_nodes(c@)),
        Node::FieldBody(c) => SpecNode::FieldBody(view_nodes(c@)),
        Node::BulletList(c) => SpecNode::BulletList(view_nodes(c@)),
        Node::EnumeratedList { type_, items } => SpecNode::EnumeratedList { type_, items: view_nodes(items@) },
        Node::ListItem(c) => SpecNode::ListItem(view_nodes(c@)),
        Node::Note(c) => SpecNode::Note(view_nodes(c@)),
        Node::SeeAlso(c) => SpecNode::SeeAlso(view_nodes(c@)),
        Node::Warning(c) => SpecNode::Warning(view_nodes(c@)),
        Node::ReStructuredTextBlock(t) => SpecNode::ReStructuredTextBlock(t@),
        Node::ReStructuredTextInline(t) => SpecNode::ReStructuredTextInline(t@),
        Node::UnknownInline(c) => SpecNode::UnknownInline(view_nodes(c@)),
    }
}

/// Appending one node to a list appends its model to the list's model.
pub proof fn lemma_view_nodes_push(s: Seq<Node>, n: Node)
    ensures
        view_nodes(s.push(n)) == view_nodes(s).push(view_node(n)),
{
    assert(s.push(n).drop_last() =~= s);
}

/// Concatenating two lists of nodes concatenates their models.
pub proof fn lemma_view_nodes_add(a: Seq<Node>, b: Seq<Node>)
    ensures
        view_nodes(a + b) == view_nodes(a) + view_nodes(b),
    decreases b.len(),
{
    if b.len() == 0 {
        assert(a + b =~= a);
        assert(view_nodes(b) =~= Seq::<SpecNode>::empty());
        assert(view_nodes(a) + view_nodes(b) =~= view_nodes(a));
    } else {
        lemma_view_nodes_add(a, b.drop_last());
        assert((a + b).drop_last() =~= a + b.drop_last());
        assert((a + b).last() == b.last());
        assert(view_nodes(a) + view_nodes(b) =~= (view_nodes(a) + view_nodes(b.drop_last())).push(view_node(b.last())));
    }
}

/// The model of a list of nodes has one entry per node, each the node's
/// model.
pub proof fn lemma_view_nodes_index(s: Seq<Node>)
    ensures
        view_nodes(s).len() == s.len(),
        forall|i: int| 0 <= i < s.len() ==> #[trigger] view_nodes(s)[i] == view_node(s[i]),
    decreases s.len(),
{
    if s.len() > 0 {
        lemma_view_nodes_index(s.drop_last());
    }
}

/// The name of a domain reads back as that domain, and two domains have
/// different names.
pub proof fn law_domain_name_round_trip(d: Domain, e: Domain)
    ensures
        spec_domain_from(spec_domain_name(d)) == Some(d),
        spec_domain_name(d) == spec_domain_name(e) ==> d == e,
{
    reveal_strlit("cpp");
    reveal_strlit("c");
    assert("cpp"@ != "c"@) by {
        assert("cpp"@.len() != "c"@.len());
    }
}

} // verus!
