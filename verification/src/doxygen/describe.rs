//! How each document node is handed to the Python side: the name of the
//! docutils node to build, how to call its constructor, its attributes and its
//! children. Texts are handed over as they are, except that the text of a
//! text node has its HTML entities decoded.
use vstd::prelude::*;

use crate::doxygen::nodes::{
    lemma_view_nodes_index, view_location, view_node, view_nodes, view_strings, view_target, CallAs, Domain,
    DomainEntryType, ListEnumType, Location, Node, SpecNode, SpecTarget, Target,
};
use crate::doxygen::text::{decode_html_entities, html_decoded};

verus! {

/// The name of a way to call a constructor.
pub open spec fn spec_call_as_name(c: CallAs) -> Seq<char> {
    match c {
        CallAs::Source => "source"@,
        CallAs::SourceText => "source-text"@,
        CallAs::Args => "args"@,
    }
}

impl CallAs {
    /// The name of the way to call, as the Python side knows it.
    pub fn as_str(&self) -> (r: &'static str)
        ensures
            r@ == spec_call_as_name(*self),
    {
        match self {
            CallAs::Source => "source",
            CallAs::SourceText => "source-text",
            CallAs::Args => "args",
        }
    }
}

/// The name of a kind of domain entry.
pub open spec fn spec_entry_type_name(t: DomainEntryType) -> Seq<char> {
    match t {
        DomainEntryType::Class => "class"@,
        DomainEntryType::Define => "define"@,
        DomainEntryType::Enum => "enum"@,
        DomainEntryType::Enumerator => "enumerator"@,
        DomainEntryType::Function => "function"@,
        DomainEntryType::Member => "member"@,
        DomainEntryType::Struct => "struct"@,
        DomainEntryType::Typedef => "typedef"@,
        DomainEntryType::Union => "union"@,
    }
}

impl DomainEntryType {
    /// The name of the kind of entry, as the Sphinx domain knows it.
    pub fn as_str(&self) -> (r: &'static str)
        ensures
            r@ == spec_entry_type_name(*self),
    {
        match self {
            DomainEntryType::Class => "class",
            DomainEntryType::Define => "define",
            DomainEntryType::Enum => "enum",
            DomainEntryType::Enumerator => "enumerator",
            DomainEntryType::Function => "function",
            DomainEntryType::Member => "member",
            DomainEntryType::Struct => "struct",
            DomainEntryType::Typedef => "typedef",
            DomainEntryType::Union => "union",
        }
    }
}

/// The name of a numbering style.
pub open spec fn spec_list_enum_type_name(t: ListEnumType) -> Seq<char> {
    match t {
        ListEnumType::Arabic => "arabic"@,
        ListEnumType::LowerAlpha => "loweralpha"@,
        ListEnumType::UpperAlpha => "upperalpha"@,
        ListEnumType::LowerRoman => "lowerroman"@,
        ListEnumType::UpperRoman => "upperroman"@,
    }
}

impl ListEnumType {
    /// The name of the numbering style, as docutils knows it.
    pub fn as_str(&self) -> (r: &'static str)
        ensures
            r@ == spec_list_enum_type_name(*self),
    {
        match self {
            ListEnumType::Arabic => "arabic",
            ListEnumType::LowerAlpha => "loweralpha",
            ListEnumType::UpperAlpha => "upperalpha",
            ListEnumType::LowerRoman => "lowerroman",
            ListEnumType::UpperRoman => "upperroman",
        }
    }
}

/// The value of an attribute of a docutils node.
#[derive(Debug, PartialEq, Eq)]
pub enum Attr {
    Str(String),
    Bool(bool),
    Int(i32),
    StrList(Vec<String>),
    Domain(Domain),
    EntryType(DomainEntryType),
    Target(Target),
    Location(Location),
    ListEnumType(ListEnumType),
}

/// A child of a docutils node: a node to hand over in turn, or a text.
#[derive(Debug, PartialEq, Eq)]
pub enum Child {
    Node(Node),
    Text(String),
}

/// A docutils node to build.
#[derive(Debug, PartialEq, Eq)]
pub struct NodeDetails {
    pub type_: String,
    pub call_as: CallAs,
    pub attributes: Vec<(String, Attr)>,
    pub children: Vec<Child>,
}

/// What a document node is handed over as: a text or a node to build.
#[derive(Debug, PartialEq, Eq)]
pub enum Described {
    Text(String),
    Node(NodeDetails),
}

/// The model of an attribute value.
pub enum SpecAttr {
    Str(Seq<char>),
    Bool(bool),
    Int(i32),
    StrList(Seq<Seq<char>>),
    Domain(Domain),
    EntryType(DomainEntryType),
    Target(SpecTarget),
    Location(Seq<char>, i32),
    ListEnumType(ListEnumType),
}

/// The model of a child.
pub enum SpecChild {
    Node(SpecNode),
    Text(Seq<char>),
}

/// The model of what a node is handed over as.
pub enum SpecDescribed {
    Text(Seq<char>),
    Node { type_: Seq<char>, call_as: CallAs, attributes: Seq<(Seq<char>, SpecAttr)>, children: Seq<SpecChild> },
}

pub open spec fn view_attr(a: Attr) -> SpecAttr {
    match a {
        Attr::Str(s) => SpecAttr::Str(s@),
        Attr::Bool(b) => SpecAttr::Bool(b),
        Attr::Int(i) => SpecAttr::Int(i),
        Attr::StrList(l) => SpecAttr::StrList(view_strings(l@)),
        Attr::Domain(d) => SpecAttr::Domain(d),
        Attr::EntryType(t) => SpecAttr::EntryType(t),
        Attr::Target(t) => SpecAttr::Target(view_target(t)),
        Attr::Location(l) => SpecAttr::Location(l.path@, l.line),
        Attr::ListEnumType(t) => SpecAttr::ListEnumType(t),
    }
}

pub open spec fn view_attrs(s: Seq<(String, Attr)>) -> Seq<(Seq<char>, SpecAttr)> {
    s.map_values(|p: (String, Attr)| (p.0@, view_attr(p.1)))
}

pub open spec fn view_child(c: Child) -> SpecChild {
    match c {
        Child::Node(n) => SpecChild::Node(view_node(n)),
        Child::Text(t) => SpecChild::Text(t@),
    }
}

pub open spec fn view_children(s: Seq<Child>) -> Seq<SpecChild> {
    s.map_values(|c: Child| view_child(c))
}

pub open spec fn view_described(d: Described) -> SpecDescribed {
    match d {
        Described::Text(t) => SpecDescribed::Text(t@),
        Described::Node(n) => SpecDescribed::Node {
            type_: n.type_@,
            call_as: n.call_as,
            attributes: view_attrs(n.attributes@),
            children: view_children(n.children@),
        },
    }
}

/// Nodes as children.
pub open spec fn node_children(s: Seq<SpecNode>) -> Seq<SpecChild> {
    s.map_values(|n: SpecNode| SpecChild::Node(n))
}

/// A docutils node with the given name, call, attributes and children.
pub open spec fn built(
    type_: Seq<char>,
    call_as: CallAs,
    attributes: Seq<(Seq<char>, SpecAttr)>,
    children: Seq<SpecChild>,
) -> SpecDescribed {
    SpecDescribed::Node { type_, call_as, attributes, children }
}

/// A docutils node without attributes whose children are nodes.
pub open spec fn plain(type_: Seq<char>, call_as: CallAs, children: Seq<SpecNode>) -> SpecDescribed {
    built(type_, call_as, Seq::empty(), node_children(children))
}

/// An attribute that is present, or none.
pub open spec fn opt_attr(a: Option<(Seq<char>, SpecAttr)>) -> Seq<(Seq<char>, SpecAttr)> {
    match a {
        Some(x) => seq![x],
        None => Seq::empty(),
    }
}

/// The attributes of a domain entry: domain, type, declaration, location
/// (when known) and target.
pub open spec fn entry_attrs(
    domain: Domain,
    type_: DomainEntryType,
    declaration: Seq<char>,
    location: Option<(Seq<char>, i32)>,
    target: SpecTarget,
) -> Seq<(Seq<char>, SpecAttr)> {
    seq![
        ("domain"@, SpecAttr::Domain(domain)),
        ("type"@, SpecAttr::EntryType(type_)),
        ("declaration"@, SpecAttr::Str(declaration)),
    ] + opt_attr(
        match location {
            Some(l) => Some(("location"@, SpecAttr::Location(l.0, l.1))),
            None => None,
        },
    ) + seq![("target"@, SpecAttr::Target(target))]
}

/// The attributes of a reference that are present: internal, refid, refuri.
pub open spec fn reference_attrs(internal: Option<bool>, refid: Option<Seq<char>>, refuri: Option<Seq<char>>) -> Seq<
    (Seq<char>, SpecAttr),
> {
    opt_attr(
        match internal {
            Some(v) => Some(("internal"@, SpecAttr::Bool(v))),
            None => None,
        },
    ) + opt_attr(
        match refid {
            Some(v) => Some(("refid"@, SpecAttr::Str(v))),
            None => None,
        },
    ) + opt_attr(
        match refuri {
            Some(v) => Some(("refuri"@, SpecAttr::Str(v))),
            None => None,
        },
    )
}

/// What each document node is handed over as. Texts and the text of
/// embedded reStructuredText blocks are handed over with their HTML entities
/// decoded, so that reStructuredText hyperlinks in such blocks work.
#[verifier::opaque]
pub open spec fn spec_describe(n: SpecNode) -> SpecDescribed {
    match n {
        SpecNode::Text(t) => SpecDescribed::Text(html_decoded(t)),
        SpecNode::DomainEntry(e) => built(
            "domain_entry"@,
            CallAs::Args,
            entry_attrs(e.domain, e.type_, e.declaration, e.location, e.target),
            node_children(e.content),
        ),
        SpecNode::Strong(c) => plain("strong"@, CallAs::Source, c),
        SpecNode::Container(c) => plain("container"@, CallAs::Source, c),
        SpecNode::Desc(lines, content) => plain("desc"@, CallAs::Source, lines.push(*content)),
        SpecNode::DescContent(c) => plain("desc_content"@, CallAs::Source, c),
        SpecNode::DescName(name) => plain("desc_name"@, CallAs::SourceText, seq![*name]),
        SpecNode::DescParameter(c) => plain("desc_parameter"@, CallAs::SourceText, c),
        SpecNode::DescParameterList(c) => plain("desc_parameterlist"@, CallAs::SourceText, c),
        SpecNode::DescSignature(_, c) => plain("desc_signature"@, CallAs::SourceText, c),
        SpecNode::DescSignatureKeyword(c) => plain("desc_sig_keyword"@, CallAs::SourceText, c),
        SpecNode::DescSignatureLine(c) => plain("desc_signature_line"@, CallAs::SourceText, c),
        SpecNode::DescSignatureName(name) => built("desc_sig_name"@, CallAs::SourceText, Seq::empty(), seq![SpecChild::Text(name)]),
        SpecNode::DescSignatureSpace => built("desc_sig_space"@, CallAs::SourceText, Seq::empty(), seq![SpecChild::Text(" "@)]),
        SpecNode::Emphasis(c) => plain("emphasis"@, CallAs::Source, c),
        SpecNode::HtmlOnly(c) => built("only"@, CallAs::Source, seq![("expr"@, SpecAttr::Str("html"@))], node_children(c)),
        SpecNode::Literal(c) => plain("literal"@, CallAs::Source, c),
        SpecNode::LiteralBlock(c) => plain("literal_block"@, CallAs::Source, c),
        SpecNode::LiteralStrong(c) => plain("literal_strong"@, CallAs::Source, c),
        SpecNode::Paragraph(c) => plain("paragraph"@, CallAs::SourceText, c),
        SpecNode::RawHtml(content) => built("raw"@, CallAs::Source, seq![("format"@, SpecAttr::Str("html"@))], seq![SpecChild::Text(content)]),
        SpecNode::Reference { internal, refid, refuri, children } => built(
            "reference"@,
            CallAs::SourceText,
            reference_attrs(internal, refid, refuri),
            node_children(children),
        ),
        SpecNode::Rubric { classes, nodes } => built("rubric"@, CallAs::Source, seq![("classes"@, SpecAttr::StrList(classes))], node_children(nodes)),
        SpecNode::Target(t) => built(
            "target"@,
            CallAs::Source,
            seq![("ids"@, SpecAttr::StrList(seq![t.ids])), ("names"@, SpecAttr::StrList(seq![t.names]))],
            Seq::empty(),
        ),
        SpecNode::Table(c) => built("table"@, CallAs::Source, seq![("classes"@, SpecAttr::StrList(seq!["colwidths-auto"@]))], node_children(c)),
        SpecNode::TableGroup { cols, nodes } => built("tgroup"@, CallAs::Source, seq![("cols"@, SpecAttr::Int(cols))], node_children(nodes)),
        SpecNode::TableColSpec { colwidth } => built("colspec"@, CallAs::Source, seq![("colwidth"@, SpecAttr::Str(colwidth))], Seq::empty()),
        SpecNode::TableHead(c) => plain("thead"@, CallAs::Source, c),
        SpecNode::TableBody(c) => plain("tbody"@, CallAs::Source, c),
        SpecNode::TableRow(c) => plain("row"@, CallAs::Source, c),
        SpecNode::TableRowEntry { heading, nodes } => built(
            "entry"@,
            CallAs::Source,
            if heading {
                seq![("heading"@, SpecAttr::Bool(heading))]
            } else {
                Seq::empty()
            },
            node_children(nodes),
        ),
        SpecNode::FieldList(c) => plain("field_list"@, CallAs::Source, c),
        SpecNode::Field(name, body) => plain("field"@, CallAs::Source, seq![*name, *body]),
        SpecNode::FieldName(c) => plain("field_name"@, CallAs::SourceText, c),
        SpecNode::FieldBody(c) => plain("field_body"@, CallAs::Source, c),
        SpecNode::BulletList(c) => plain("bullet_list"@, CallAs::Source, c),
        SpecNode::EnumeratedList { type_, items } => built(
            "enumerated_list"@,
            CallAs::Source,
            match type_ {
                Some(t) => seq![("enumtype"@, SpecAttr::ListEnumType(t))],
                None => Seq::empty(),
            },
            node_children(items),
        ),
        SpecNode::ListItem(c) => plain("list_item"@, CallAs::Source, c),
        SpecNode::Note(c) => plain("note"@, CallAs::Source, c),
        SpecNode::SeeAlso(c) => plain("see_also"@, CallAs::Source, c),
        SpecNode::Warning(c) => plain("warning"@, CallAs::Source, c),
        SpecNode::ReStructuredTextBlock(t) => built(
            "restructured_text_block"@,
            CallAs::Args,
            Seq::empty(),
            seq![SpecChild::Text(html_decoded(t))],
        ),
        SpecNode::ReStructuredTextInline(t) => built("restructured_text_inline"@, CallAs::Args, Seq::empty(), seq![SpecChild::Text(t)]),
        SpecNode::UnknownInline(c) => plain("inline"@, CallAs::Source, c),
    }
}

fn to_children(v: Vec<Node>) -> (r: Vec<Child>)
    ensures
        view_children(r@) == node_children(view_nodes(v@)),
{
    let ghost orig = v@;
    let n = v.len();
    let mut rest = v;
    let mut out: Vec<Child> = Vec::new();
    let mut k: usize = 0;
    proof {
        lemma_view_nodes_index(orig);
    }
    while k < n
        invariant
            n == orig.len(),
            k <= n,
            rest@ =~= orig.subrange(k as int, n as int),
            out@.len() == k,
            view_nodes(orig).len() == n,
            forall|i: int| 0 <= i < n ==> #[trigger] view_nodes(orig)[i] == view_node(orig[i]),
            forall|i: int| 0 <= i < k ==> #[trigger] view_child(out@[i]) == SpecChild::Node(view_node(orig[i])),
        decreases n - k,
    {
        let x = rest.remove(0);
        assert(x == orig[k as int]);
        out.push(Child::Node(x));
        k = k + 1;
        assert(rest@ =~= orig.subrange(k as int, n as int));
    }
    assert(view_children(out@) =~= node_children(view_nodes(orig)));
    out
}

fn node(type_: &str, call_as: CallAs, attributes: Vec<(String, Attr)>, children: Vec<Node>) -> (r: Described)
    ensures
        view_described(r) == built(type_@, call_as, view_attrs(attributes@), node_children(view_nodes(children@))),
{
    Described::Node(NodeDetails { type_: type_.to_owned(), call_as, attributes, children: to_children(children) })
}

fn text_child(type_: &str, call_as: CallAs, attributes: Vec<(String, Attr)>, text: String) -> (r: Described)
    ensures
        view_described(r) == built(type_@, call_as, view_attrs(attributes@), seq![SpecChild::Text(text@)]),
{
    let children = vec![Child::Text(text)];
    assert(view_children(children@) =~= seq![SpecChild::Text(children@[0]->Text_0@)]);
    Described::Node(NodeDetails { type_: type_.to_owned(), call_as, attributes, children })
}

fn attr(key: &str, value: Attr) -> (r: (String, Attr))
    ensures
        r.0@ == key@,
        r.1 == value,
{
    (key.to_owned(), value)
}

fn entry_attributes(domain: Domain, type_: DomainEntryType, declaration: String, location: Option<Location>, target: Target) -> (r: Vec<(String, Attr)>)
    ensures
        view_attrs(r@) == entry_attrs(domain, type_, declaration@, view_location(location), view_target(target)),
{
    let ghost gl = view_location(location);
    let ghost gd = declaration@;
    let ghost gt = view_target(target);
    let mut attributes: Vec<(String, Attr)> = Vec::new();
    attributes.push(attr("domain", Attr::Domain(domain)));
    attributes.push(attr("type", Attr::EntryType(type_)));
    attributes.push(attr("declaration", Attr::Str(declaration)));
    match location {
        Some(l) => {
            attributes.push(attr("location", Attr::Location(l)));
        },
        None => {},
    }
    attributes.push(attr("target", Attr::Target(target)));
    assert(view_attrs(attributes@) =~= entry_attrs(domain, type_, gd, gl, gt));
    attributes
}

fn reference_attributes(internal: Option<bool>, refid: Option<String>, refuri: Option<String>) -> (r: Vec<(String, Attr)>)
    ensures
        view_attrs(r@) == reference_attrs(
            internal,
            crate::doxygen::nodes::view_opt_str(refid),
            crate::doxygen::nodes::view_opt_str(refuri),
        ),
{
    let ghost gd = crate::doxygen::nodes::view_opt_str(refid);
    let ghost gu = crate::doxygen::nodes::view_opt_str(refuri);
    let mut attributes: Vec<(String, Attr)> = Vec::new();
    match internal {
        Some(v) => {
            attributes.push(attr("internal", Attr::Bool(v)));
        },
        None => {},
    }
    match refid {
        Some(v) => {
            attributes.push(attr("refid", Attr::Str(v)));
        },
        None => {},
    }
    match refuri {
        Some(v) => {
            attributes.push(attr("refuri", Attr::Str(v)));
        },
        None => {},
    }
    assert(view_attrs(attributes@) =~= reference_attrs(internal, gd, gu));
    attributes
}

fn one_attribute(key: &str, value: Attr) -> (r: Vec<(String, Attr)>)
    ensures
        view_attrs(r@) == seq![(key@, view_attr(value))],
{
    let ghost v = view_attr(value);
    let r = vec![attr(key, value)];
    assert(view_attrs(r@) =~= seq![(key@, v)]);
    r
}

fn string_list(s: String) -> (r: Vec<String>)
    ensures
        view_strings(r@) == seq![s@],
{
    let ghost v = s@;
    let r = vec![s];
    assert(view_strings(r@) =~= seq![v]);
    r
}

fn target_attributes(t: Target) -> (r: Vec<(String, Attr)>)
    ensures
        view_attrs(r@) == seq![("ids"@, SpecAttr::StrList(seq![t.ids@])), ("names"@, SpecAttr::StrList(seq![t.names@]))],
{
    let ghost tv = view_target(t);
    let ids = string_list(t.ids);
    let names = string_list(t.names);
    let r = vec![attr("ids", Attr::StrList(ids)), attr("names", Attr::StrList(names))];
    assert(view_attrs(r@) =~= seq![("ids"@, SpecAttr::StrList(seq![tv.ids])), ("names"@, SpecAttr::StrList(seq![tv.names]))]);
    r
}

fn no_nodes() -> (r: Vec<Node>)
    ensures
        node_children(view_nodes(r@)) == Seq::<SpecChild>::empty(),
{
    let r: Vec<Node> = Vec::new();
    assert(node_children(view_nodes(r@)) =~= Seq::<SpecChild>::empty());
    r
}

fn two_nodes(a: Node, b: Node) -> (r: Vec<Node>)
    ensures
        view_nodes(r@) == seq![view_node(a), view_node(b)],
{
    let ghost (va, vb) = (view_node(a), view_node(b));
    let r = vec![a, b];
    proof {
        lemma_view_nodes_index(r@);
        assert(view_nodes(r@) =~= seq![va, vb]);
    }
    r
}

fn one_node(a: Node) -> (r: Vec<Node>)
    ensures
        view_nodes(r@) == seq![view_node(a)],
{
    let ghost va = view_node(a);
    let r = vec![a];
    proof {
        lemma_view_nodes_index(r@);
        assert(view_nodes(r@) =~= seq![va]);
    }
    r
}

fn no_attributes() -> (r: Vec<(String, Attr)>)
    ensures
        view_attrs(r@) == Seq::<(Seq<char>, SpecAttr)>::empty(),
{
    let r: Vec<(String, Attr)> = Vec::new();
    assert(view_attrs(r@) =~= Seq::<(Seq<char>, SpecAttr)>::empty());
    r
}

spec fn is_signature_parts(n: Node) -> bool {
    n is Text || n is DomainEntry || n is Strong || n is Container || n is Desc || n is DescContent || n is DescName || n is DescParameter || n is DescParameterList || n is DescSignature || n is DescSignatureKeyword
}

spec fn is_inline_parts(n: Node) -> bool {
    n is DescSignatureLine || n is DescSignatureName || n is DescSignatureSpace || n is Emphasis || n is HtmlOnly || n is Literal || n is LiteralBlock || n is LiteralStrong || n is Paragraph || n is RawHtml || n is Reference
}

spec fn is_table_parts(n: Node) -> bool {
    n is Rubric || n is Target || n is Table || n is TableGroup || n is TableColSpec || n is TableHead || n is TableBody || n is TableRow || n is TableRowEntry || n is FieldList || n is Field
}

spec fn is_list_parts(n: Node) -> bool {
    n is FieldName || n is FieldBody || n is BulletList || n is EnumeratedList || n is ListItem || n is Note || n is SeeAlso || n is Warning || n is ReStructuredTextBlock || n is ReStructuredTextInline || n is UnknownInline
}

#[verifier::rlimit(50)]
fn describe_signature_parts(node_: Node) -> (r: Described)
    requires
        is_signature_parts(node_),
    ensures
        view_described(r) == spec_describe(view_node(node_)),
{
    let ghost n = view_node(node_);
    match node_ {
        Node::Text(t) => {
            let decoded = decode_html_entities(t.as_str());
            let r = Described::Text(decoded);
            assert(view_described(r) == spec_describe(n)) by {
                reveal(spec_describe);
            }
            r
        },
        Node::DomainEntry(entry) => {
            let entry = *entry;
            let ghost e = crate::doxygen::nodes::view_domain_entry(entry);
            assert(n == SpecNode::DomainEntry(e));
            let attributes = entry_attributes(entry.domain, entry.type_, entry.declaration, entry.location, entry.target);
            let r = node("domain_entry", CallAs::Args, attributes, entry.content);
            assert(view_described(r) == spec_describe(n)) by {
                reveal(spec_describe);
            }
            r
        },
        Node::Strong(c) => {
            let r = node("strong", CallAs::Source, no_attributes(), c);
            assert(view_described(r) == spec_describe(n)) by {
                reveal(spec_describe);
            }
            r
        },
        Node::Container(c) => {
            let r = node("container", CallAs::Source, no_attributes(), c);
            assert(view_described(r) == spec_describe(n)) by {
                reveal(spec_describe);
            }
            r
        },
        Node::Desc(lines, content) => {
            let mut children = lines;
            let ghost before = children@;
            children.push(*content);
            proof {
                crate::doxygen::nodes::lemma_view_nodes_push(before, children@.last());
                assert(children@ =~= before.push(children@.last()));
            }
            let r = node("desc", CallAs::Source, no_attributes(), children);
            assert(view_described(r) == spec_describe(n)) by {
                reveal(spec_describe);
            }
            r
        },
        Node::DescContent(c) => {
            let r = node("desc_content", CallAs::Source, no_attributes(), c);
            assert(view_described(r) == spec_describe(n)) by {
                reveal(spec_describe);
            }
            r
        },
        Node::DescName(name) => {
            let r = node("desc_name", CallAs::SourceText, no_attributes(), one_node(*name));
            assert(view_described(r) == spec_describe(n)) by {
                reveal(spec_describe);
            }
            r
        },
        Node::DescParameter(c) => {
            let r = node("desc_parameter", CallAs::SourceText, no_attributes(), c);
            assert(view_described(r) == spec_describe(n)) by {
                reveal(spec_describe);
            }
            r
        },
        Node::DescParameterList(c) => {
            let r = node("desc_parameterlist", CallAs::SourceText, no_attributes(), c);
            assert(view_described(r) == spec_describe(n)) by {
                reveal(spec_describe);
            }
            r
        },
        Node::DescSignature(_, c) => {
            let r = node("desc_signature", CallAs::SourceText, no_attributes(), c);
            assert(view_described(r) == spec_describe(n)) by {
                reveal(spec_describe);
            }
            r
        },
        Node::DescSignatureKeyword(c) => {
            let r = node("desc_sig_keyword", CallAs::SourceText, no_attributes(), c);
            assert(view_described(r) == spec_describe(n)) by {
                reveal(spec_describe);
            }
            r
        },
        _ => {
            proof {
                assert(false);
            }
            Described::Text(String::new())
        },
    }
}

#[verifier::rlimit(50)]
fn describe_inline_parts(node_: Node) -> (r: Described)
    requires
        is_inline_parts(node_),
    ensures
        view_described(r) == spec_describe(view_node(node_)),
{
    let ghost n = view_node(node_);
    match node_ {
        Node::DescSignatureLine(c) => {
            let r = node("desc_signature_line", CallAs::SourceText, no_attributes(), c);
            assert(view_described(r) == spec_describe(n)) by {
                reveal(spec_describe);
            }
            r
        },
        Node::DescSignatureName(name) => {
            let r = text_child("desc_sig_name", CallAs::SourceText, no_attributes(), name);
            assert(view_described(r) == spec_describe(n)) by {
                reveal(spec_describe);
            }
            r
        },
        Node::DescSignatureSpace => {
            proof {
                reveal_strlit(" ");
            }
            let r = text_child("desc_sig_space", CallAs::SourceText, no_attributes(), " ".to_owned());
            assert(view_described(r) == spec_describe(n)) by {
                reveal(spec_describe);
            }
            r
        },
        Node::Emphasis(c) => {
            let r = node("emphasis", CallAs::Source, no_attributes(), c);
            assert(view_described(r) == spec_describe(n)) by {
                reveal(spec_describe);
            }
            r
        },
        Node::HtmlOnly(c) => {
            let r = node("only", CallAs::Source, one_attribute("expr", Attr::Str("html".to_owned())), c);
            assert(view_described(r) == spec_describe(n)) by {
                reveal(spec_describe);
            }
            r
        },
        Node::Literal(c) => {
            let r = node("literal", CallAs::Source, no_attributes(), c);
            assert(view_described(r) == spec_describe(n)) by {
                reveal(spec_describe);
            }
            r
        },
        Node::LiteralBlock(c) => {
            let r = node("literal_block", CallAs::Source, no_attributes(), c);
            assert(view_described(r) == spec_describe(n)) by {
                reveal(spec_describe);
            }
            r
        },
        Node::LiteralStrong(c) => {
            let r = node("literal_strong", CallAs::Source, no_attributes(), c);
            assert(view_described(r) == spec_describe(n)) by {
                reveal(spec_describe);
            }
            r
        },
        Node::Paragraph(c) => {
            let r = node("paragraph", CallAs::SourceText, no_attributes(), c);
            assert(view_described(r) == spec_describe(n)) by {
                reveal(spec_describe);
            }
            r
        },
        Node::RawHtml(content) => {
            let r = text_child("raw", CallAs::Source, one_attribute("format", Attr::Str("html".to_owned())), content);
            assert(view_described(r) == spec_describe(n)) by {
                reveal(spec_describe);
            }
            r
        },
        Node::Reference { internal, refid, refuri, children } => {
            let ghost gd = crate::doxygen::nodes::view_opt_str(refid);
            let ghost gu = crate::doxygen::nodes::view_opt_str(refuri);
            let ghost cv = view_nodes(children@);
            assert(n == (SpecNode::Reference { internal, refid: gd, refuri: gu, children: cv }));
            let attributes = reference_attributes(internal, refid, refuri);
            let r = node("reference", CallAs::SourceText, attributes, children);
            assert(view_described(r) == spec_describe(n)) by {
                reveal(spec_describe);
            }
            r
        },
        _ => {
            proof {
                assert(false);
            }
            Described::Text(String::new())
        },
    }
}

#[verifier::rlimit(50)]
fn describe_table_parts(node_: Node) -> (r: Described)
    requires
        is_table_parts(node_),
    ensures
        view_described(r) == spec_describe(view_node(node_)),
{
    let ghost n = view_node(node_);
    match node_ {
        Node::Rubric { classes, nodes } => {
            let r = node("rubric", CallAs::Source, one_attribute("classes", Attr::StrList(classes)), nodes);
            assert(view_described(r) == spec_describe(n)) by {
                reveal(spec_describe);
            }
            r
        },
        Node::Target(t) => {
            let r = node("target", CallAs::Source, target_attributes(t), no_nodes());
            assert(view_described(r) == spec_describe(n)) by {
                reveal(spec_describe);
            }
            r
        },
        Node::Table(c) => {
            proof {
                reveal_strlit("colwidths-auto");
            }
            let r = node("table", CallAs::Source, one_attribute("classes", Attr::StrList(string_list("colwidths-auto".to_owned()))), c);
            assert(view_described(r) == spec_describe(n)) by {
                reveal(spec_describe);
            }
            r
        },
        Node::TableGroup { cols, nodes } => {
            let r = node("tgroup", CallAs::Source, one_attribute("cols", Attr::Int(cols)), nodes);
            assert(view_described(r) == spec_describe(n)) by {
                reveal(spec_describe);
            }
            r
        },
        Node::TableColSpec { colwidth } => {
            let r = node("colspec", CallAs::Source, one_attribute("colwidth", Attr::Str(colwidth)), no_nodes());
            assert(view_described(r) == spec_describe(n)) by {
                reveal(spec_describe);
            }
            r
        },
        Node::TableHead(c) => {
            let r = node("thead", CallAs::Source, no_attributes(), c);
            assert(view_described(r) == spec_describe(n)) by {
                reveal(spec_describe);
            }
            r
        },
        Node::TableBody(c) => {
            let r = node("tbody", CallAs::Source, no_attributes(), c);
            assert(view_described(r) == spec_describe(n)) by {
                reveal(spec_describe);
            }
            r
        },
        Node::TableRow(c) => {
            let r = node("row", CallAs::Source, no_attributes(), c);
            assert(view_described(r) == spec_describe(n)) by {
                reveal(spec_describe);
            }
            r
        },
        Node::TableRowEntry { heading, nodes } => {
            let attributes = if heading {
                one_attribute("heading", Attr::Bool(heading))
            } else {
                no_attributes()
            };
            let r = node("entry", CallAs::Source, attributes, nodes);
            assert(view_described(r) == spec_describe(n)) by {
                reveal(spec_describe);
            }
            r
        },
        Node::FieldList(c) => {
            let r = node("field_list", CallAs::Source, no_attributes(), c);
            assert(view_described(r) == spec_describe(n)) by {
                reveal(spec_describe);
            }
            r
        },
        Node::Field(name, body) => {
            let r = node("field", CallAs::Source, no_attributes(), two_nodes(*name, *body));
            assert(view_described(r) == spec_describe(n)) by {
                reveal(spec_describe);
            }
            r
        },
        _ => {
            proof {
                assert(false);
            }
            Described::Text(String::new())
        },
    }
}

#[verifier::rlimit(50)]
fn describe_list_parts(node_: Node) -> (r: Described)
    requires
        is_list_parts(node_),
    ensures
        view_described(r) == spec_describe(view_node(node_)),
{
    let ghost n = view_node(node_);
    match node_ {
        Node::FieldName(c) => {
            let r = node("field_name", CallAs::SourceText, no_attributes(), c);
            assert(view_described(r) == spec_describe(n)) by {
                reveal(spec_describe);
            }
            r
        },
        Node::FieldBody(c) => {
            let r = node("field_body", CallAs::Source, no_attributes(), c);
            assert(view_described(r) == spec_describe(n)) by {
                reveal(spec_describe);
            }
            r
        },
        Node::BulletList(c) => {
            let r = node("bullet_list", CallAs::Source, no_attributes(), c);
            assert(view_described(r) == spec_describe(n)) by {
                reveal(spec_describe);
            }
            r
        },
        Node::EnumeratedList { type_, items } => {
            let attributes = match type_ {
                Some(t) => one_attribute("enumtype", Attr::ListEnumType(t)),
                None => no_attributes(),
            };
            let r = node("enumerated_list", CallAs::Source, attributes, items);
            assert(view_described(r) == spec_describe(n)) by {
                reveal(spec_describe);
            }
            r
        },
        Node::ListItem(c) => {
            let r = node("list_item", CallAs::Source, no_attributes(), c);
            assert(view_described(r) == spec_describe(n)) by {
                reveal(spec_describe);
            }
            r
        },
        Node::Note(c) => {
            let r = node("note", CallAs::Source, no_attributes(), c);
            assert(view_described(r) == spec_describe(n)) by {
                reveal(spec_describe);
            }
            r
        },
        Node::SeeAlso(c) => {
            let r = node("see_also", CallAs::Source, no_attributes(), c);
            assert(view_described(r) == spec_describe(n)) by {
                reveal(spec_describe);
            }
            r
        },
        Node::Warning(c) => {
            let r = node("warning", CallAs::Source, no_attributes(), c);
            assert(view_described(r) == spec_describe(n)) by {
                reveal(spec_describe);
            }
            r
        },
        Node::ReStructuredTextBlock(t) => {
            let decoded = decode_html_entities(t.as_str());
            let r = text_child("restructured_text_block", CallAs::Args, no_attributes(), decoded);
            assert(view_described(r) == spec_describe(n)) by {
                reveal(spec_describe);
            }
            r
        },
        Node::ReStructuredTextInline(t) => {
            let r = text_child("restructured_text_inline", CallAs::Args, no_attributes(), t);
            assert(view_described(r) == spec_describe(n)) by {
                reveal(spec_describe);
            }
            r
        },
        Node::UnknownInline(c) => {
            let r = node("inline", CallAs::Source, no_attributes(), c);
            assert(view_described(r) == spec_describe(n)) by {
                reveal(spec_describe);
            }
            r
        },
        _ => {
            proof {
                assert(false);
            }
            Described::Text(String::new())
        },
    }
}

/// The four families of nodes, handed over by one function each.
#[derive(PartialEq, Eq, Structural, Clone, Copy)]
enum Part {
    Signature,
    Inline,
    Table,
    List,
}

fn part_of(node_: &Node) -> (r: Part)
    ensures
        r == Part::Signature ==> is_signature_parts(*node_),
        r == Part::Inline ==> is_inline_parts(*node_),
        r == Part::Table ==> is_table_parts(*node_),
        r == Part::List ==> is_list_parts(*node_),
{
    match node_ {
        Node::Text { .. } | Node::DomainEntry { .. } | Node::Strong { .. } | Node::Container { .. } | Node::Desc { .. } | Node::DescContent { .. } | Node::DescName { .. } | Node::DescParameter { .. } | Node::DescParameterList { .. } | Node::DescSignature { .. } | Node::DescSignatureKeyword { .. } => Part::Signature,
        Node::DescSignatureLine { .. } | Node::DescSignatureName { .. } | Node::DescSignatureSpace { .. } | Node::Emphasis { .. } | Node::HtmlOnly { .. } | Node::Literal { .. } | Node::LiteralBlock { .. } | Node::LiteralStrong { .. } | Node::Paragraph { .. } | Node::RawHtml { .. } | Node::Reference { .. } => Part::Inline,
        Node::Rubric { .. } | Node::Target { .. } | Node::Table { .. } | Node::TableGroup { .. } | Node::TableColSpec { .. } | Node::TableHead { .. } | Node::TableBody { .. } | Node::TableRow { .. } | Node::TableRowEntry { .. } | Node::FieldList { .. } | Node::Field { .. } => Part::Table,
        Node::FieldName { .. } | Node::FieldBody { .. } | Node::BulletList { .. } | Node::EnumeratedList { .. } | Node::ListItem { .. } | Node::Note { .. } | Node::SeeAlso { .. } | Node::Warning { .. } | Node::ReStructuredTextBlock { .. } | Node::ReStructuredTextInline { .. } | Node::UnknownInline { .. } => Part::List,
    }
}

/// Hands a document node over, as `spec_describe` states.
pub fn describe(node_: Node) -> (r: Described)
    ensures
        view_described(r) == spec_describe(view_node(node_)),
{
    let g = part_of(&node_);
    if g == Part::Signature {
        describe_signature_parts(node_)
    } else
    if g == Part::Inline {
        describe_inline_parts(node_)
    } else
    if g == Part::Table {
        describe_table_parts(node_)
    } else
    {
        describe_list_parts(node_)
    }
}

} // verus!
