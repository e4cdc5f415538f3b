//! Rendering the elements of a Doxygen compound file to document nodes. Each
//! function's contract is the rule of the same name in `render_rules`.
use vstd::prelude::*;

use crate::doxygen::compound::elements::{
    CodelineType, DocParamName, DocParamNameList, HighlightType, HighlightTypeItem, LinkedTextType,
    LinkedTextTypeItem, ListingType, RefTextType, SpType, SpecHighlightItem, SpecLinkedTextItem, view_codelines,
    view_highlight_item, view_highlight_items, view_highlights, view_linked, view_linked_item, view_linked_items,
    view_name_list, view_name_lists, view_param_names, view_ref,
};
use crate::doxygen::nodes::{Node, SpecNode, lemma_view_nodes_add, lemma_view_nodes_push, view_node, view_nodes};
use crate::doxygen::compound::elements::{
    DescriptionType, DescriptionTypeItem, DocCmdGroup, DocEntryType, DocListItemType, DocListType, DocMarkupType,
    DocMarkupTypeItem, DocParaType, DocParaTypeItem, DocParamListType, DocRefTextType, DocRefTextTypeItem,
    DocRowType, DocSimpleSectType, DocTableType, DocTitleCmdGroup, DocURLLink, DocURLLinkItem, DocXRefSectType,
    DoxBool, view_cmd, view_description, view_description_item, view_description_items, view_entries, view_entry,
    view_list_item, view_list_items, view_markup, view_markup_item, view_markup_items, view_para, view_para_item,
    view_para_items, view_paras, view_param_item, view_param_items, view_ref_item, view_ref_items, view_row,
    view_rows, view_table, view_title_cmd, view_url_item, view_url_items,
};
use crate::doxygen::compound::elements::{
    DoxLanguage, DoxMemberKind, DoxSectionKind, EnumValueType, MemberDefType, ParamType, SectionDefType,
    view_enum_value, view_member_def, view_opt_description, view_param, view_section_def,
};
use crate::doxygen::nodes::{
    Domain, DomainEntry, DomainEntryType, SignatureType, SpecDomainEntry, Target, lemma_view_nodes_index,
    view_domain_entry, view_strings, view_target,
};
use crate::doxygen::render_rules::{
    desc_block, descriptions, domain_entry, id_target, keyword_line, r_enum_value, r_enum_values, r_member_def,
    r_member_defs, r_param, r_params, r_section_def, spec_language_domain, spec_member_kind_name, spec_section_title,
    is_all_caps, skipped_member,
};
use crate::doxygen::text;
use crate::doxygen::compound::{
    extract_compounddef_contents, spec_compounddef_contents, view_entries_ref, CompoundDefEntry, SpecCompoundDefEntry,
    view_entry_ref,
};
use crate::doxygen::compound::elements::{
    CompoundDefType, DoxCompoundKind, DoxygenType, RefType, SpecDoxygen, SpecMemberDef, SpecRefType, SpecSectionDef,
    view_compound_def, view_doxygen, view_ref_type, view_refs,
};
use crate::doxygen::render_rules::{
    compound_domain, find_member, find_member_in, lookup, r_compound, r_inner, r_section_defs, SpecRenderError,
};
use crate::doxygen::render_rules::{
    any_heading, cell_nodes, col_specs, para_cats, parameters_field, parameters_fields, r_cmd, r_desc_cats, r_description,
    r_entries, r_list_items, r_markup, r_para, r_param_items, r_paras, r_rows, r_table, r_title, r_title_items,
    rows_where,
    cat_node, cats_to_nodes, is_special, others, specials, SpecCat,
    codeline_nodes, highlight_nodes, inner_description, linked_nodes, listing_nodes, name_lists_nodes,
    param_names_nodes, ref_node, verbatim_node,
};
use crate::strings::{
    find_from, from_chars, join, join_strings, lemma_find_from_bounds, lines, lines_exec, remove_char,
    remove_char_exec, replace_first, replace_first_each, replace_first_exec, starts_with, starts_with_exec,
    string_views, to_chars, trim_start, trim_start_exec, char_vec_views, find_from_exec, str_eq, push_char,
};

verus! {

// ---------------------------------------------------------------------------
// References, linked text and code

/// An internal reference node around the name of the reference.
pub fn render_ref_text_type(ref_text_type: &RefTextType) -> (r: Node)
    ensures
        view_node(r) == ref_node(view_ref(*ref_text_type)),
{
    let name = Node::DescSignatureName(ref_text_type.content.clone());
    let children = vec![name];
    proof {
        lemma_view_nodes_push(Seq::empty(), children@[0]);
        assert(Seq::<Node>::empty().push(children@[0]) =~= children@);
    }
    Node::Reference { internal: Some(true), refid: Some(ref_text_type.refid.clone()), refuri: None, children }
}

/// Linked text as nodes: references and texts.
pub fn render_linked_text_type(linked_text_type: &LinkedTextType) -> (r: Vec<Node>)
    ensures
        view_nodes(r@) == linked_nodes(view_linked(*linked_text_type)),
{
    render_linked_items(&linked_text_type.content)
}

fn render_linked_items(items: &Vec<LinkedTextTypeItem>) -> (r: Vec<Node>)
    ensures
        view_nodes(r@) == linked_nodes(view_linked_items(items@)),
{
    let mut nodes: Vec<Node> = Vec::new();
    let n = items.len();
    for i in 0..n
        invariant
            n == items.len(),
            view_nodes(nodes@) == linked_nodes(view_linked_items(items@.take(i as int))),
    {
        let ghost before = nodes@;
        match &items[i] {
            LinkedTextTypeItem::Ref(content) => nodes.push(render_ref_text_type(content)),
            LinkedTextTypeItem::Text(text) => nodes.push(Node::Text(text.clone())),
        }
        proof {
            lemma_view_nodes_push(before, nodes@.last());
            assert(nodes@ =~= before.push(nodes@.last()));
            let v = view_linked_items(items@.take(i + 1));
            assert(v =~= view_linked_items(items@.take(i as int)).push(view_linked_item(items@[i as int])));
            assert(v.drop_last() =~= view_linked_items(items@.take(i as int)));
        }
    }
    assert(items@.take(n as int) =~= items@);
    nodes
}

/// The names of a parameter name as nodes.
pub fn render_doc_param_name(element: &DocParamName) -> (r: Vec<Node>)
    ensures
        view_nodes(r@) == linked_nodes(view_linked_items(element.content@)),
{
    render_linked_items(&element.content)
}

/// The names of a parameter name list as nodes.
pub fn render_doc_param_name_list(element: &DocParamNameList) -> (r: Vec<Node>)
    ensures
        view_nodes(r@) == param_names_nodes(view_name_list(*element).parameter_name),
{
    let mut nodes: Vec<Node> = Vec::new();
    let n = element.parameter_name.len();
    let ghost names = view_param_names(element.parameter_name@);
    for i in 0..n
        invariant
            n == element.parameter_name.len(),
            names == view_param_names(element.parameter_name@),
            view_nodes(nodes@) == param_names_nodes(names.take(i as int)),
    {
        let ghost before = nodes@;
        let mut more = render_doc_param_name(&element.parameter_name[i]);
        let ghost added = more@;
        nodes.append(&mut more);
        proof {
            lemma_view_nodes_add(before, added);
            assert(nodes@ =~= before + added);
            assert(names[i as int] == view_linked_items(element.parameter_name@[i as int].content@));
            assert(names.take(i + 1).drop_last() =~= names.take(i as int));
        }
    }
    assert(names.take(n as int) =~= names);
    nodes
}

fn render_name_lists(lists: &Vec<DocParamNameList>) -> (r: Vec<Node>)
    ensures
        view_nodes(r@) == name_lists_nodes(view_name_lists(lists@)),
{
    let mut nodes: Vec<Node> = Vec::new();
    let n = lists.len();
    let ghost all = view_name_lists(lists@);
    for i in 0..n
        invariant
            n == lists.len(),
            all == view_name_lists(lists@),
            view_nodes(nodes@) == name_lists_nodes(all.take(i as int)),
    {
        let ghost before = nodes@;
        let mut more = render_doc_param_name_list(&lists[i]);
        let ghost added = more@;
        nodes.append(&mut more);
        proof {
            lemma_view_nodes_add(before, added);
            assert(nodes@ =~= before + added);
            assert(all[i as int] == view_name_list(lists@[i as int]));
            assert(all.take(i + 1).drop_last() =~= all.take(i as int));
        }
    }
    assert(all.take(n as int) =~= all);
    nodes
}

/// A space.
pub fn render_sp_type(_element: &SpType) -> (r: Node)
    ensures
        view_node(r) == SpecNode::Text(" "@),
{
    proof {
        reveal_strlit(" ");
    }
    Node::Text(" ".to_owned())
}

/// Highlighted code as nodes: a space for `sp`, references and texts.
pub fn render_highlight_type(element: &HighlightType) -> (r: Vec<Node>)
    ensures
        view_nodes(r@) == highlight_nodes(view_highlight_items(element.content@)),
{
    let mut nodes: Vec<Node> = Vec::new();
    let n = element.content.len();
    let ghost all = view_highlight_items(element.content@);
    for i in 0..n
        invariant
            n == element.content.len(),
            all == view_highlight_items(element.content@),
            view_nodes(nodes@) == highlight_nodes(all.take(i as int)),
    {
        let ghost before = nodes@;
        match &element.content[i] {
            HighlightTypeItem::Sp(content) => nodes.push(render_sp_type(content)),
            HighlightTypeItem::Ref(content) => nodes.push(render_ref_text_type(content)),
            HighlightTypeItem::Text(text) => nodes.push(Node::Text(text.clone())),
        }
        proof {
            lemma_view_nodes_push(before, nodes@.last());
            assert(nodes@ =~= before.push(nodes@.last()));
            assert(all[i as int] == view_highlight_item(element.content@[i as int]));
            assert(all.take(i + 1).drop_last() =~= all.take(i as int));
        }
    }
    assert(all.take(n as int) =~= all);
    nodes
}

/// A line of code as nodes.
pub fn render_code_line_type(element: &CodelineType) -> (r: Vec<Node>)
    ensures
        view_nodes(r@) == codeline_nodes(view_highlights(element.highlight@)),
{
    let mut nodes: Vec<Node> = Vec::new();
    let n = element.highlight.len();
    let ghost all = view_highlights(element.highlight@);
    for i in 0..n
        invariant
            n == element.highlight.len(),
            all == view_highlights(element.highlight@),
            view_nodes(nodes@) == codeline_nodes(all.take(i as int)),
    {
        let ghost before = nodes@;
        let mut more = render_highlight_type(&element.highlight[i]);
        let ghost added = more@;
        nodes.append(&mut more);
        proof {
            lemma_view_nodes_add(before, added);
            assert(nodes@ =~= before + added);
            assert(all[i as int] == view_highlight_items(element.highlight@[i as int].content@));
            assert(all.take(i + 1).drop_last() =~= all.take(i as int));
        }
    }
    assert(all.take(n as int) =~= all);
    nodes
}

/// The lines of nodes with the separator nodes between each two lines,
/// flattened: what `itertools::intersperse` followed by `flat_map` gives.
pub open spec fn interspersed(lines: Seq<Seq<SpecNode>>, sep: Seq<SpecNode>) -> Seq<SpecNode>
    decreases lines.len(),
{
    if lines.len() == 0 {
        Seq::empty()
    } else if lines.len() == 1 {
        lines[0]
    } else {
        interspersed(lines.drop_last(), sep) + sep + lines.last()
    }
}

/// A program listing as a literal block: its lines with a line break between
/// each two.
pub fn render_listing_type(element: &ListingType) -> (r: Node)
    ensures
        view_node(r) == SpecNode::LiteralBlock(listing_nodes(view_codelines(element.codeline@))),
{
    let mut nodes: Vec<Node> = Vec::new();
    let n = element.codeline.len();
    let ghost all = view_codelines(element.codeline@);
    proof {
        reveal_strlit("\n");
    }
    for i in 0..n
        invariant
            n == element.codeline.len(),
            all == view_codelines(element.codeline@),
            view_nodes(nodes@) == listing_nodes(all.take(i as int)),
    {
        let ghost before = nodes@;
        if i > 0 {
            nodes.push(Node::Text("\n".to_owned()));
            proof {
                lemma_view_nodes_push(before, nodes@.last());
                assert(nodes@ =~= before.push(nodes@.last()));
            }
        }
        let ghost mid = nodes@;
        let mut more = render_code_line_type(&element.codeline[i]);
        let ghost added = more@;
        nodes.append(&mut more);
        proof {
            lemma_view_nodes_add(mid, added);
            assert(nodes@ =~= mid + added);
            assert(all[i as int] == view_highlights(element.codeline@[i as int].highlight@));
            assert(all.take(i + 1).drop_last() =~= all.take(i as int));
            if i == 0 {
                assert(before =~= Seq::<Node>::empty());
                assert(view_nodes(before) =~= Seq::<SpecNode>::empty());
                assert(view_nodes(before) + view_nodes(added) =~= view_nodes(added));
            } else {
                assert(view_nodes(mid) == view_nodes(before).push(SpecNode::Text("\n"@)));
                assert(view_nodes(before).push(SpecNode::Text("\n"@)) =~= view_nodes(before) + seq![SpecNode::Text("\n"@)]);
            }
        }
    }
    assert(all.take(n as int) =~= all);
    Node::LiteralBlock(nodes)
}

/// The children of the one paragraph of a rendered description, or the
/// description itself when it is not one paragraph.
pub fn extract_inner_description(nodes: Vec<Node>) -> (r: Vec<Node>)
    ensures
        view_nodes(r@) == inner_description(view_nodes(nodes@)),
{
    proof {
        crate::doxygen::nodes::lemma_view_nodes_index(nodes@);
    }
    if nodes.len() == 1 {
        let is_para = match &nodes[0] {
            Node::Paragraph(_) => true,
            _ => false,
        };
        if is_para {
            let mut nodes = nodes;
            let first = nodes.pop();
            match first {
                Some(Node::Paragraph(inner)) => {
                    return inner;
                },
                _ => {
                    return Vec::new();
                },
            }
        }
    }
    nodes
}

// ---------------------------------------------------------------------------
// Verbatim text

fn join_lines_replacing(ls: &Vec<Vec<char>>, pat: &str, rep: &str) -> (r: String)
    requires
        ls@.len() > 0,
    ensures
        r@ == join(replace_first_each(char_vec_views(ls@).skip(1), pat@, rep@), "\n"@),
{
    let mut parts: Vec<String> = Vec::new();
    let n = ls.len();
    let ghost all = char_vec_views(ls@);
    let mut i: usize = 1;
    assert(string_views(parts@) =~= replace_first_each(all.skip(1).take(0), pat@, rep@));
    while i < n
        invariant
            n == ls.len(),
            all == char_vec_views(ls@),
            1 <= i <= n,
            string_views(parts@) == replace_first_each(all.skip(1).take(i - 1), pat@, rep@),
        decreases n - i,
    {
        let ghost before = parts@;
        parts.push(replace_first_exec(&ls[i], pat, rep));
        proof {
            assert(string_views(parts@) =~= string_views(before).push(parts@.last()@));
            assert(all.skip(1).take(i as int).drop_last() =~= all.skip(1).take(i - 1));
            assert(all.skip(1).take(i as int).last() == ls@[i as int]@);
        }
        i = i + 1;
    }
    assert(all.skip(1).take(n - 1) =~= all.skip(1));
    proof {
        reveal_strlit("\n");
    }
    join_strings(&parts, "\n")
}

/// Verbatim text as a literal block, or, when it starts with `embed:rst`, as
/// embedded reStructuredText.
pub fn render_verbatim_text(text: &str) -> (r: Node)
    ensures
        view_node(r) == verbatim_node(text@),
{
    let cs = to_chars(text);
    let trimmed = trim_start_exec(&cs);
    if !starts_with_exec(&trimmed, "embed:rst") {
        let children = vec![Node::Text(text.to_owned())];
        proof {
            lemma_view_nodes_push(Seq::empty(), children@[0]);
            assert(Seq::<Node>::empty().push(children@[0]) =~= children@);
        }
        return Node::LiteralBlock(children);
    }
    proof {
        reveal_strlit("embed:rst");
        assert(trimmed@.len() > 0);
        assert(cs@.len() > 0);
        assert(lines(cs@).len() > 0);
    }
    if starts_with_exec(&trimmed, "embed:rst:leading-asterisk") {
        let ls = lines_exec(&cs);
        Node::ReStructuredTextBlock(join_lines_replacing(&ls, "*", " "))
    } else if starts_with_exec(&trimmed, "embed:rst:leading-slashes") {
        let ls = lines_exec(&cs);
        Node::ReStructuredTextBlock(join_lines_replacing(&ls, "///", " "))
    } else if starts_with_exec(&trimmed, "embed:rst:inline") {
        let without = replace_first_exec(&cs, "embed:rst:inline", "");
        let wc = to_chars(without.as_str());
        Node::ReStructuredTextInline(remove_char_exec(&wc, '\n'))
    } else {
        let nl: Vec<char> = vec!['\n'];
        assert(nl@ =~= seq!['\n']);
        match find_from_exec(&cs, &nl, 0) {
            Some(k) => {
                proof {
                    lemma_find_from_bounds(cs@, seq!['\n'], 0);
                }
                let rest = from_chars(&cs, k + 1, cs.len());
                assert(rest@ =~= text@.skip(k + 1));
                Node::ReStructuredTextBlock(rest)
            },
            None => Node::ReStructuredTextBlock(replace_first_exec(&cs, "embed:rst", "")),
        }
    }
}

// ---------------------------------------------------------------------------
// Rendering context and categorized nodes

/// What rendering is told.
pub struct Context {
    /// The Sphinx domain that entries are registered with, if any.
    pub domain: Option<Domain>,
    /// The names of Doxygen XML elements not to render; only `htmlonly` is
    /// looked at.
    pub skip_xml_nodes: Vec<String>,
    /// Whether function and variable members whose names are all capital
    /// letters and underscores are left out of sections.
    pub skip_all_caps_members: bool,
}

/// Whether the context skips `htmlonly` elements.
pub open spec fn skips_htmlonly(ctx: &Context) -> bool {
    exists|i: int| 0 <= i < ctx.skip_xml_nodes@.len() && #[trigger] ctx.skip_xml_nodes@[i]@ == "htmlonly"@
}

impl Context {
    /// The same context with another domain.
    pub fn with_domain(&self, domain: Option<Domain>) -> (r: Context)
        ensures
            r.domain == domain,
            string_views(r.skip_xml_nodes@) == string_views(self.skip_xml_nodes@),
            skips_htmlonly(&r) == skips_htmlonly(self),
            r.skip_all_caps_members == self.skip_all_caps_members,
    {
        let mut skip: Vec<String> = Vec::new();
        let n = self.skip_xml_nodes.len();
        for i in 0..n
            invariant
                n == self.skip_xml_nodes.len(),
                skip@.len() == i,
                forall|j: int| 0 <= j < i ==> #[trigger] skip@[j]@ == self.skip_xml_nodes@[j]@,
        {
            skip.push(self.skip_xml_nodes[i].clone());
        }
        let r = Context { domain, skip_xml_nodes: skip, skip_all_caps_members: self.skip_all_caps_members };
        assert(string_views(r.skip_xml_nodes@) =~= string_views(self.skip_xml_nodes@));
        proof {
            if skips_htmlonly(self) {
                let i = choose|i: int| 0 <= i < self.skip_xml_nodes@.len() && #[trigger] self.skip_xml_nodes@[i]@ == "htmlonly"@;
                assert(r.skip_xml_nodes@[i]@ == "htmlonly"@);
            }
            if skips_htmlonly(&r) {
                let i = choose|i: int| 0 <= i < r.skip_xml_nodes@.len() && #[trigger] r.skip_xml_nodes@[i]@ == "htmlonly"@;
                assert(self.skip_xml_nodes@[i]@ == "htmlonly"@);
            }
        }
        r
    }
}

fn skip_htmlonly(ctx: &Context) -> (r: bool)
    ensures
        r == skips_htmlonly(ctx),
{
    let n = ctx.skip_xml_nodes.len();
    for i in 0..n
        invariant
            n == ctx.skip_xml_nodes.len(),
            forall|j: int| 0 <= j < i ==> #[trigger] ctx.skip_xml_nodes@[j]@ != "htmlonly"@,
    {
        if str_eq(ctx.skip_xml_nodes[i].as_str(), "htmlonly") {
            return true;
        }
    }
    false
}

/// A rendered node, marked when it is a parameter list.
#[derive(Debug, PartialEq, Eq)]
pub enum CategorizedNode {
    ParameterList(Node),
    Node(Node),
}

pub open spec fn view_cat(c: CategorizedNode) -> SpecCat {
    match c {
        CategorizedNode::ParameterList(n) => SpecCat::ParameterList(view_node(n)),
        CategorizedNode::Node(n) => SpecCat::Node(view_node(n)),
    }
}

pub open spec fn view_cats(s: Seq<CategorizedNode>) -> Seq<SpecCat>
    decreases s.len(),
{
    if s.len() == 0 {
        Seq::empty()
    } else {
        view_cats(s.drop_last()).push(view_cat(s.last()))
    }
}

pub open spec fn opt_node(n: Option<Node>) -> Option<SpecNode> {
    match n {
        Some(n) => Some(view_node(n)),
        None => None,
    }
}

pub open spec fn opt_cat(c: Option<CategorizedNode>) -> Option<SpecCat> {
    match c {
        Some(c) => Some(view_cat(c)),
        None => None,
    }
}

proof fn lemma_view_cats_push(s: Seq<CategorizedNode>, c: CategorizedNode)
    ensures
        view_cats(s.push(c)) == view_cats(s).push(view_cat(c)),
{
    assert(s.push(c).drop_last() =~= s);
}

proof fn lemma_view_cats_add(a: Seq<CategorizedNode>, b: Seq<CategorizedNode>)
    ensures
        view_cats(a + b) == view_cats(a) + view_cats(b),
    decreases b.len(),
{
    if b.len() == 0 {
        assert(a + b =~= a);
        assert(view_cats(a) + view_cats(b) =~= view_cats(a));
    } else {
        lemma_view_cats_add(a, b.drop_last());
        assert((a + b).drop_last() =~= a + b.drop_last());
        assert(view_cats(a) + view_cats(b) =~= (view_cats(a) + view_cats(b.drop_last())).push(view_cat(b.last())));
    }
}

impl CategorizedNode {
    /// The node, whatever its category.
    pub fn to_node(self) -> (r: Node)
        ensures
            view_node(r) == cat_node(view_cat(self)),
    {
        match self {
            CategorizedNode::ParameterList(node) => node,
            CategorizedNode::Node(node) => node,
        }
    }

    /// Whether it is a parameter list.
    pub fn is_special(&self) -> (r: bool)
        ensures
            r == is_special(view_cat(*self)),
    {
        match self {
            CategorizedNode::ParameterList(_) => true,
            CategorizedNode::Node(_) => false,
        }
    }
}

/// The nodes of categorized nodes, in order.
pub fn into_nodes(v: Vec<CategorizedNode>) -> (r: Vec<Node>)
    ensures
        view_nodes(r@) == cats_to_nodes(view_cats(v@)),
{
    let ghost orig = v@;
    let n = v.len();
    let mut rest = v;
    let mut out: Vec<Node> = Vec::new();
    let mut k: usize = 0;
    while k < n
        invariant
            n == orig.len(),
            k <= n,
            rest@ =~= orig.subrange(k as int, n as int),
            view_nodes(out@) == cats_to_nodes(view_cats(orig.take(k as int))),
        decreases n - k,
    {
        let ghost before = out@;
        let x = rest.remove(0);
        assert(x == orig[k as int]);
        out.push(x.to_node());
        proof {
            lemma_view_nodes_push(before, out@.last());
            assert(out@ =~= before.push(out@.last()));
            assert(orig.take(k + 1) =~= orig.take(k as int).push(x));
            lemma_view_cats_push(orig.take(k as int), x);
            assert(view_cats(orig.take(k + 1)).drop_last() =~= view_cats(orig.take(k as int)));
        }
        k = k + 1;
        assert(rest@ =~= orig.subrange(k as int, n as int));
    }
    assert(orig.take(n as int) =~= orig);
    out
}

/// The parameter lists and the other nodes, each in order.
fn partition_cats(v: Vec<CategorizedNode>) -> (r: (Vec<CategorizedNode>, Vec<CategorizedNode>))
    ensures
        view_cats(r.0@) == specials(view_cats(v@)),
        view_cats(r.1@) == others(view_cats(v@)),
{
    let ghost orig = v@;
    let n = v.len();
    let mut rest = v;
    let mut special: Vec<CategorizedNode> = Vec::new();
    let mut other: Vec<CategorizedNode> = Vec::new();
    let mut k: usize = 0;
    while k < n
        invariant
            n == orig.len(),
            k <= n,
            rest@ =~= orig.subrange(k as int, n as int),
            view_cats(special@) == specials(view_cats(orig.take(k as int))),
            view_cats(other@) == others(view_cats(orig.take(k as int))),
        decreases n - k,
    {
        let ghost sb = special@;
        let ghost ob = other@;
        let x = rest.remove(0);
        assert(x == orig[k as int]);
        proof {
            assert(orig.take(k + 1) =~= orig.take(k as int).push(x));
            lemma_view_cats_push(orig.take(k as int), x);
            assert(view_cats(orig.take(k + 1)).drop_last() =~= view_cats(orig.take(k as int)));
        }
        if x.is_special() {
            special.push(x);
            proof {
                lemma_view_cats_push(sb, special@.last());
                assert(special@ =~= sb.push(special@.last()));
            }
        } else {
            other.push(x);
            proof {
                lemma_view_cats_push(ob, other@.last());
                assert(other@ =~= ob.push(other@.last()));
            }
        }
        k = k + 1;
        assert(rest@ =~= orig.subrange(k as int, n as int));
    }
    assert(orig.take(n as int) =~= orig);
    (special, other)
}

proof fn lemma_view_cats_len(s: Seq<CategorizedNode>)
    ensures
        view_cats(s).len() == s.len(),
    decreases s.len(),
{
    if s.len() > 0 {
        lemma_view_cats_len(s.drop_last());
    }
}

fn single(n: Node) -> (r: Vec<Node>)
    ensures
        view_nodes(r@) == seq![view_node(n)],
{
    let v = vec![n];
    proof {
        lemma_view_nodes_push(Seq::empty(), v@[0]);
        assert(Seq::<Node>::empty().push(v@[0]) =~= v@);
        assert(view_nodes(Seq::<Node>::empty()) =~= Seq::<SpecNode>::empty());
        assert(Seq::<SpecNode>::empty().push(view_node(n)) =~= seq![view_node(n)]);
    }
    v
}

fn char_text(c: char) -> (r: String)
    ensures
        r@ == seq![c],
{
    let mut s = String::new();
    push_char(&mut s, c);
    assert(s@ =~= seq![c]);
    s
}

/// The fields of the parameter lists among categorized nodes.
fn parameter_fields(v: Vec<CategorizedNode>) -> (r: Vec<Node>)
    ensures
        view_nodes(r@) == parameters_fields(view_cats(v@)),
{
    let ghost orig = v@;
    let n = v.len();
    let mut rest = v;
    let mut out: Vec<Node> = Vec::new();
    let mut k: usize = 0;
    proof {
        reveal_strlit("Parameters");
    }
    while k < n
        invariant
            n == orig.len(),
            k <= n,
            rest@ =~= orig.subrange(k as int, n as int),
            view_nodes(out@) == parameters_fields(view_cats(orig.take(k as int))),
        decreases n - k,
    {
        let ghost before = out@;
        let x = rest.remove(0);
        assert(x == orig[k as int]);
        proof {
            assert(orig.take(k + 1) =~= orig.take(k as int).push(x));
            lemma_view_cats_push(orig.take(k as int), x);
            assert(view_cats(orig.take(k + 1)).drop_last() =~= view_cats(orig.take(k as int)));
        }
        let ghost gx = x;
        assert(view_cats(orig.take(k + 1)).last() == view_cat(gx));
        match x {
            CategorizedNode::ParameterList(node) => {
                let ghost gn = node;
                let text = Node::Text("Parameters".to_owned());
                assert(view_node(text) == SpecNode::Text("Parameters"@));
                let name = Node::FieldName(single(text));
                assert(view_node(name) == SpecNode::FieldName(seq![SpecNode::Text("Parameters"@)]));
                let body = Node::FieldBody(single(node));
                assert(view_node(body) == SpecNode::FieldBody(seq![view_node(gn)]));
                let field = Node::Field(Box::new(name), Box::new(body));
                assert(view_node(field) == parameters_field(view_cat(gx)));
                out.push(field);
                proof {
                    lemma_view_nodes_push(before, out@.last());
                    assert(out@ =~= before.push(out@.last()));
                }
            },
            CategorizedNode::Node(_) => {},
        }
        k = k + 1;
        assert(rest@ =~= orig.subrange(k as int, n as int));
    }
    assert(orig.take(n as int) =~= orig);
    out
}

/// The kind of a list.
pub enum ListType {
    Itemized,
    Ordered,
}

/// A rendered row of a table, with whether any of its cells is a heading.
pub struct TableRow {
    pub heading: bool,
    pub entry: Node,
}

/// A rendered cell of a table, with whether it is a heading.
pub struct TableCell {
    pub heading: bool,
    pub entry: Node,
}

pub open spec fn view_table_row(r: TableRow) -> (bool, SpecNode) {
    (r.heading, view_node(r.entry))
}

pub open spec fn view_table_cell(c: TableCell) -> (bool, SpecNode) {
    (c.heading, view_node(c.entry))
}

pub open spec fn view_table_rows(s: Seq<TableRow>) -> Seq<(bool, SpecNode)> {
    s.map_values(|r: TableRow| view_table_row(r))
}

pub open spec fn view_table_cells(s: Seq<TableCell>) -> Seq<(bool, SpecNode)> {
    s.map_values(|c: TableCell| view_table_cell(c))
}

// ---------------------------------------------------------------------------
// The documentation blocks, which nest in each other

/// Renders an inline element as `r_title` states.
pub fn render_doc_title_cmd_group(ctx: &Context, c: &DocTitleCmdGroup) -> (r: Option<Node>)
    ensures
        opt_node(r) == r_title(skips_htmlonly(ctx), view_title_cmd(*c)),
    decreases c, 0int,
{
    match c {
        DocTitleCmdGroup::Ref(element) => Some(render_doc_ref_text_type(ctx, element)),
        DocTitleCmdGroup::Bold(element) => Some(Node::Strong(into_nodes(render_doc_markup_type(ctx, element)))),
        DocTitleCmdGroup::Emphasis(element) => Some(Node::Emphasis(into_nodes(render_doc_markup_type(ctx, element)))),
        DocTitleCmdGroup::Computeroutput(element) => Some(Node::Literal(into_nodes(render_doc_markup_type(ctx, element)))),
        DocTitleCmdGroup::Linebreak(_) => Some(Node::Text(char_text('\n'))),
        DocTitleCmdGroup::Htmlonly(element) => {
            if skip_htmlonly(ctx) {
                None
            } else {
                Some(Node::HtmlOnly(single(Node::RawHtml(element.content.clone()))))
            }
        },
        DocTitleCmdGroup::Ulink(element) => Some(render_doc_url_link(ctx, element)),
        DocTitleCmdGroup::Mdash(_) => Some(Node::Text(char_text('\u{2014}'))),
        DocTitleCmdGroup::Ndash(_) => Some(Node::Text(char_text('\u{2013}'))),
        DocTitleCmdGroup::Lsquo(_) => Some(Node::Text(char_text('\u{2018}'))),
        DocTitleCmdGroup::Rsquo(_) => Some(Node::Text(char_text('\u{2019}'))),
        DocTitleCmdGroup::Nonbreakablespace(_) => Some(Node::Text(char_text('\u{00A0}'))),
        DocTitleCmdGroup::S(element)
        | DocTitleCmdGroup::Strike(element)
        | DocTitleCmdGroup::Underline(element)
        | DocTitleCmdGroup::Subscript(element)
        | DocTitleCmdGroup::Superscript(element)
        | DocTitleCmdGroup::Center(element)
        | DocTitleCmdGroup::Small(element)
        | DocTitleCmdGroup::Cite(element)
        | DocTitleCmdGroup::Del(element)
        | DocTitleCmdGroup::Ins(element)
        | DocTitleCmdGroup::Summary(element) => Some(Node::UnknownInline(into_nodes(render_doc_markup_type(ctx, element)))),
        DocTitleCmdGroup::Unhandled(_) => None,
    }
}

/// Renders a reference in documentation: an internal reference node around
/// its text.
pub fn render_doc_ref_text_type(ctx: &Context, doc_ref_text_type: &DocRefTextType) -> (r: Node)
    ensures
        view_node(r) == (SpecNode::Reference {
            internal: Some(true),
            refid: Some(doc_ref_text_type.refid@),
            refuri: None,
            children: r_title_items(skips_htmlonly(ctx), view_ref_items(doc_ref_text_type.content@)),
        }),
    decreases doc_ref_text_type, 0int,
{
    let mut nodes: Vec<Node> = Vec::new();
    let n = doc_ref_text_type.content.len();
    for i in 0..n
        invariant
            n == doc_ref_text_type.content.len(),
            view_nodes(nodes@) == r_title_items(skips_htmlonly(ctx), view_ref_items(doc_ref_text_type.content@.take(i as int))),
    {
        let ghost before = nodes@;
        let ghost items = doc_ref_text_type.content@;
        match &doc_ref_text_type.content[i] {
            DocRefTextTypeItem::DocTitleCmdGroup(content) => {
                if let Some(node) = render_doc_title_cmd_group(ctx, content) {
                    nodes.push(node);
                    proof {
                        lemma_view_nodes_push(before, nodes@.last());
                        assert(nodes@ =~= before.push(nodes@.last()));
                    }
                }
            },
            DocRefTextTypeItem::Text(text) => {
                nodes.push(Node::Text(text.clone()));
                proof {
                    lemma_view_nodes_push(before, nodes@.last());
                    assert(nodes@ =~= before.push(nodes@.last()));
                }
            },
        }
        proof {
            assert(items.take(i + 1).drop_last() =~= items.take(i as int));
            let v = view_ref_items(items.take(i + 1));
            assert(v.drop_last() =~= view_ref_items(items.take(i as int)));
            assert(v.last() == view_ref_item(items[i as int]));
        }
    }
    assert(doc_ref_text_type.content@.take(n as int) =~= doc_ref_text_type.content@);
    Node::Reference { internal: Some(true), refid: Some(doc_ref_text_type.refid.clone()), refuri: None, children: nodes }
}

/// Renders a link: an external reference node around its text.
pub fn render_doc_url_link(ctx: &Context, element: &DocURLLink) -> (r: Node)
    ensures
        view_node(r) == (SpecNode::Reference {
            internal: None,
            refid: None,
            refuri: Some(element.url@),
            children: r_title_items(skips_htmlonly(ctx), view_url_items(element.content@)),
        }),
    decreases element, 0int,
{
    let mut nodes: Vec<Node> = Vec::new();
    let n = element.content.len();
    for i in 0..n
        invariant
            n == element.content.len(),
            view_nodes(nodes@) == r_title_items(skips_htmlonly(ctx), view_url_items(element.content@.take(i as int))),
    {
        let ghost before = nodes@;
        let ghost items = element.content@;
        match &element.content[i] {
            DocURLLinkItem::DocTitleCmdGroup(content) => {
                if let Some(node) = render_doc_title_cmd_group(ctx, content) {
                    nodes.push(node);
                    proof {
                        lemma_view_nodes_push(before, nodes@.last());
                        assert(nodes@ =~= before.push(nodes@.last()));
                    }
                }
            },
            DocURLLinkItem::Text(text) => {
                nodes.push(Node::Text(text.clone()));
                proof {
                    lemma_view_nodes_push(before, nodes@.last());
                    assert(nodes@ =~= before.push(nodes@.last()));
                }
            },
        }
        proof {
            assert(items.take(i + 1).drop_last() =~= items.take(i as int));
            let v = view_url_items(items.take(i + 1));
            assert(v.drop_last() =~= view_url_items(items.take(i as int)));
            assert(v.last() == view_url_item(items[i as int]));
        }
    }
    assert(element.content@.take(n as int) =~= element.content@);
    Node::Reference { internal: None, refid: None, refuri: Some(element.url.clone()), children: nodes }
}

/// Renders marked up text as `r_markup` states.
pub fn render_doc_markup_type(ctx: &Context, element: &DocMarkupType) -> (r: Vec<CategorizedNode>)
    ensures
        view_cats(r@) == r_markup(skips_htmlonly(ctx), view_markup(*element)),
    decreases element, 0int,
{
    let mut nodes: Vec<CategorizedNode> = Vec::new();
    let n = element.content.len();
    for i in 0..n
        invariant
            n == element.content.len(),
            view_cats(nodes@) == r_markup(skips_htmlonly(ctx), view_markup_items(element.content@.take(i as int))),
    {
        let ghost before = nodes@;
        let ghost items = element.content@;
        match &element.content[i] {
            DocMarkupTypeItem::DocCmdGroup(content) => {
                if let Some(node) = render_doc_cmd_group(ctx, content) {
                    nodes.push(node);
                    proof {
                        lemma_view_cats_push(before, nodes@.last());
                        assert(nodes@ =~= before.push(nodes@.last()));
                    }
                }
            },
            DocMarkupTypeItem::Text(text) => {
                nodes.push(CategorizedNode::Node(Node::Text(text.clone())));
                proof {
                    lemma_view_cats_push(before, nodes@.last());
                    assert(nodes@ =~= before.push(nodes@.last()));
                }
            },
        }
        proof {
            assert(items.take(i + 1).drop_last() =~= items.take(i as int));
            let v = view_markup_items(items.take(i + 1));
            assert(v.drop_last() =~= view_markup_items(items.take(i as int)));
            assert(v.last() == view_markup_item(items[i as int]));
        }
    }
    assert(element.content@.take(n as int) =~= element.content@);
    nodes
}

/// Renders a paragraph as `r_para` states.
pub fn render_doc_para_type(ctx: &Context, element: &DocParaType) -> (r: Vec<CategorizedNode>)
    ensures
        view_cats(r@) == r_para(skips_htmlonly(ctx), view_para(*element)),
    decreases element, 0int,
{
    let mut nodes: Vec<CategorizedNode> = Vec::new();
    let n = element.content.len();
    for i in 0..n
        invariant
            n == element.content.len(),
            view_cats(nodes@) == r_para(skips_htmlonly(ctx), view_para_items(element.content@.take(i as int))),
    {
        let ghost before = nodes@;
        let ghost items = element.content@;
        match &element.content[i] {
            DocParaTypeItem::DocCmdGroup(content) => {
                if let Some(node) = render_doc_cmd_group(ctx, content) {
                    nodes.push(node);
                    proof {
                        lemma_view_cats_push(before, nodes@.last());
                        assert(nodes@ =~= before.push(nodes@.last()));
                    }
                }
            },
            DocParaTypeItem::Text(text) => {
                nodes.push(CategorizedNode::Node(Node::Text(text.clone())));
                proof {
                    lemma_view_cats_push(before, nodes@.last());
                    assert(nodes@ =~= before.push(nodes@.last()));
                }
            },
        }
        proof {
            assert(items.take(i + 1).drop_last() =~= items.take(i as int));
            let v = view_para_items(items.take(i + 1));
            assert(v.drop_last() =~= view_para_items(items.take(i as int)));
            assert(v.last() == view_para_item(items[i as int]));
        }
    }
    assert(element.content@.take(n as int) =~= element.content@);
    nodes
}

/// Renders an element of a paragraph as `r_cmd` states.
pub fn render_doc_cmd_group(ctx: &Context, element: &DocCmdGroup) -> (r: Option<CategorizedNode>)
    ensures
        opt_cat(r) == r_cmd(skips_htmlonly(ctx), view_cmd(*element)),
    decreases element, 0int,
{
    match element {
        DocCmdGroup::DocTitleCmdGroup(element) => match render_doc_title_cmd_group(ctx, element) {
            Some(node) => Some(CategorizedNode::Node(node)),
            None => None,
        },
        DocCmdGroup::ParameterList(element) => Some(
            CategorizedNode::ParameterList(Node::BulletList(render_doc_param_list_type(ctx, element))),
        ),
        DocCmdGroup::Simplesect(element) => Some(CategorizedNode::Node(Node::Container(render_doc_simple_sect_type(ctx, element)))),
        DocCmdGroup::ItemizedList(element) => Some(CategorizedNode::Node(render_doc_list_type(ctx, element, ListType::Itemized))),
        DocCmdGroup::OrderedList(element) => Some(CategorizedNode::Node(render_doc_list_type(ctx, element, ListType::Ordered))),
        DocCmdGroup::ProgramListing(element) => Some(CategorizedNode::Node(render_listing_type(element))),
        DocCmdGroup::Verbatim(text) => Some(CategorizedNode::Node(render_verbatim_text(text.as_str()))),
        DocCmdGroup::Xrefsect(element) => Some(CategorizedNode::Node(render_doc_xref_sect_type(ctx, element))),
        DocCmdGroup::Preformatted(element) => Some(
            CategorizedNode::Node(Node::LiteralBlock(into_nodes(render_doc_markup_type(ctx, element)))),
        ),
        DocCmdGroup::Table(element) => Some(CategorizedNode::Node(render_doc_table_type(ctx, element))),
    }
}

/// Renders paragraphs, each as a paragraph node.
pub fn render_paras(ctx: &Context, paras: &Vec<DocParaType>) -> (r: Vec<Node>)
    ensures
        view_nodes(r@) == r_paras(skips_htmlonly(ctx), view_paras(paras@)),
    decreases paras, 0int,
{
    let mut nodes: Vec<Node> = Vec::new();
    let n = paras.len();
    for i in 0..n
        invariant
            n == paras.len(),
            view_nodes(nodes@) == r_paras(skips_htmlonly(ctx), view_paras(paras@.take(i as int))),
    {
        let ghost before = nodes@;
        let ghost items = paras@;
        nodes.push(Node::Paragraph(into_nodes(render_doc_para_type(ctx, &paras[i]))));
        proof {
            lemma_view_nodes_push(before, nodes@.last());
            assert(nodes@ =~= before.push(nodes@.last()));
            assert(items.take(i + 1).drop_last() =~= items.take(i as int));
            let v = view_paras(items.take(i + 1));
            assert(v.drop_last() =~= view_paras(items.take(i as int)));
            assert(v.last() == view_para(items[i as int]));
        }
    }
    assert(paras@.take(n as int) =~= paras@);
    nodes
}

/// Renders the paragraphs of a simple section.
pub fn render_doc_simple_sect_type(ctx: &Context, element: &DocSimpleSectType) -> (r: Vec<Node>)
    ensures
        view_nodes(r@) == r_paras(skips_htmlonly(ctx), view_paras(element.para@)),
    decreases element, 0int,
{
    render_paras(ctx, &element.para)
}

/// Renders a list item: a list item node of its paragraphs.
pub fn render_doc_list_item_type(ctx: &Context, element: &DocListItemType) -> (r: Node)
    ensures
        view_node(r) == SpecNode::ListItem(r_paras(skips_htmlonly(ctx), view_paras(element.para@))),
    decreases element, 0int,
{
    Node::ListItem(render_paras(ctx, &element.para))
}

/// Renders a list: a bullet list or an enumerated list of its items.
pub fn render_doc_list_type(ctx: &Context, element: &DocListType, type_: ListType) -> (r: Node)
    ensures
        view_node(r) == (match type_ {
            ListType::Itemized => SpecNode::BulletList(r_list_items(skips_htmlonly(ctx), view_list_items(element.listitem@))),
            ListType::Ordered => SpecNode::EnumeratedList {
                type_: None,
                items: r_list_items(skips_htmlonly(ctx), view_list_items(element.listitem@)),
            },
        }),
    decreases element, 0int,
{
    let mut items: Vec<Node> = Vec::new();
    let n = element.listitem.len();
    for i in 0..n
        invariant
            n == element.listitem.len(),
            view_nodes(items@) == r_list_items(skips_htmlonly(ctx), view_list_items(element.listitem@.take(i as int))),
    {
        let ghost before = items@;
        let ghost all = element.listitem@;
        items.push(render_doc_list_item_type(ctx, &element.listitem[i]));
        proof {
            lemma_view_nodes_push(before, items@.last());
            assert(items@ =~= before.push(items@.last()));
            assert(all.take(i + 1).drop_last() =~= all.take(i as int));
            let v = view_list_items(all.take(i + 1));
            assert(v.drop_last() =~= view_list_items(all.take(i as int)));
            assert(v.last() == view_list_item(all[i as int]));
        }
    }
    assert(element.listitem@.take(n as int) =~= element.listitem@);
    match type_ {
        ListType::Itemized => Node::BulletList(items),
        ListType::Ordered => Node::EnumeratedList { type_: None, items },
    }
}

/// The categorized nodes of the paragraphs of a description, as
/// `r_desc_cats` states.
fn render_desc_cats(ctx: &Context, element: &DescriptionType) -> (r: Vec<CategorizedNode>)
    ensures
        view_cats(r@) == r_desc_cats(skips_htmlonly(ctx), view_description(*element)),
    decreases element, 0int,
{
    let mut result: Vec<CategorizedNode> = Vec::new();
    let n = element.content.len();
    for i in 0..n
        invariant
            n == element.content.len(),
            view_cats(result@) == r_desc_cats(skips_htmlonly(ctx), view_description_items(element.content@.take(i as int))),
    {
        let ghost before = result@;
        let ghost items = element.content@;
        match &element.content[i] {
            DescriptionTypeItem::Para(para) => {
                let cats = render_doc_para_type(ctx, para);
                let ghost cv = view_cats(cats@);
                let (mut special, other) = partition_cats(cats);
                let ghost sv = special@;
                result.append(&mut special);
                proof {
                    lemma_view_cats_add(before, sv);
                    assert(result@ =~= before + sv);
                    lemma_view_cats_len(other@);
                }
                if other.len() > 0 {
                    let ghost mid = result@;
                    result.push(CategorizedNode::Node(Node::Paragraph(into_nodes(other))));
                    proof {
                        lemma_view_cats_push(mid, result@.last());
                        assert(result@ =~= mid.push(result@.last()));
                        assert(view_cats(before) + specials(cv).push(view_cat(result@.last())) =~= view_cats(before)
                            + specials(cv) + seq![view_cat(result@.last())]);
                        assert(view_cats(result@) =~= view_cats(before) + para_cats(cv));
                    }
                } else {
                    assert(view_cats(result@) =~= view_cats(before) + para_cats(cv));
                }
            },
            DescriptionTypeItem::Text(_) => {},
        }
        proof {
            assert(items.take(i + 1).drop_last() =~= items.take(i as int));
            let v = view_description_items(items.take(i + 1));
            assert(v.drop_last() =~= view_description_items(items.take(i as int)));
            assert(v.last() == view_description_item(items[i as int]));
        }
    }
    assert(element.content@.take(n as int) =~= element.content@);
    result
}

/// Renders a description as `r_description` states: its paragraphs, with its
/// parameter lists lifted out into a field list after them.
pub fn render_description(ctx: &Context, element: &DescriptionType) -> (r: Vec<Node>)
    ensures
        view_nodes(r@) == r_description(skips_htmlonly(ctx), view_description(*element)),
    decreases element, 1int,
{
    let cats = render_desc_cats(ctx, element);
    let (special, paragraphs) = partition_cats(cats);
    let mut nodes = into_nodes(paragraphs);
    proof {
        lemma_view_cats_len(special@);
    }
    if special.len() > 0 {
        let fields = parameter_fields(special);
        let ghost before = nodes@;
        nodes.push(Node::FieldList(fields));
        proof {
            lemma_view_nodes_push(before, nodes@.last());
            assert(nodes@ =~= before.push(nodes@.last()));
        }
    }
    nodes
}

/// Renders a parameter list as `r_param_items` states: each item a list item
/// of one paragraph of its names in bold, ` - ` and its description.
pub fn render_doc_param_list_type(ctx: &Context, element: &DocParamListType) -> (r: Vec<Node>)
    ensures
        view_nodes(r@) == r_param_items(skips_htmlonly(ctx), view_param_items(element.parameter_item@)),
    decreases element, 0int,
{
    let mut nodes: Vec<Node> = Vec::new();
    let n = element.parameter_item.len();
    proof {
        reveal_strlit(" - ");
    }
    for i in 0..n
        invariant
            n == element.parameter_item.len(),
            view_nodes(nodes@) == r_param_items(skips_htmlonly(ctx), view_param_items(element.parameter_item@.take(i as int))),
    {
        let ghost before = nodes@;
        let ghost all = element.parameter_item@;
        let item = &element.parameter_item[i];
        let mut contents: Vec<Node> = Vec::new();
        contents.push(Node::LiteralStrong(render_name_lists(&item.parameter_name_list)));
        contents.push(Node::Text(" - ".to_owned()));
        let ghost head = contents@;
        let description = render_description(ctx, &item.parameter_description);
        let mut inner = extract_inner_description(description);
        let ghost iv = inner@;
        contents.append(&mut inner);
        proof {
            lemma_view_nodes_push(Seq::empty(), head[0]);
            lemma_view_nodes_push(seq![head[0]], head[1]);
            assert(Seq::<Node>::empty().push(head[0]) =~= seq![head[0]]);
            assert(seq![head[0]].push(head[1]) =~= head);
            lemma_view_nodes_add(head, iv);
            assert(contents@ =~= head + iv);
        }
        let ghost cv = contents@;
        let paragraph = Node::Paragraph(contents);
        assert(view_node(paragraph) == SpecNode::Paragraph(view_nodes(cv)));
        proof {
            assert(view_nodes(head) == seq![view_node(head[0]), view_node(head[1])]);
            assert(view_node(head[0]) == SpecNode::LiteralStrong(
                name_lists_nodes(view_name_lists(item.parameter_name_list@)),
            ));
            assert(view_node(head[1]) == SpecNode::Text(" - "@));
        }
        let list_item = Node::ListItem(single(paragraph));
        nodes.push(list_item);
        proof {
            lemma_view_nodes_push(before, nodes@.last());
            assert(nodes@ =~= before.push(nodes@.last()));
            assert(all.take(i + 1).drop_last() =~= all.take(i as int));
            let v = view_param_items(all.take(i + 1));
            assert(v.drop_last() =~= view_param_items(all.take(i as int)));
            assert(v.last() == view_param_item(all[i as int]));
        }
    }
    assert(element.parameter_item@.take(n as int) =~= element.parameter_item@);
    nodes
}

/// Renders a cross-referenced section: a description block whose signature
/// is its title and a colon, in emphasis, and whose content is its
/// description.
pub fn render_doc_xref_sect_type(ctx: &Context, element: &DocXRefSectType) -> (r: Node)
    ensures
        view_node(r) == SpecNode::Desc(
            seq![
                SpecNode::DescSignature(
                    SignatureType::MultiLine,
                    seq![SpecNode::Emphasis(seq![SpecNode::Text(element.xreftitle@.push(':'))])],
                ),
            ],
            Box::new(SpecNode::DescContent(r_description(skips_htmlonly(ctx), view_description(element.xrefdescription)))),
        ),
    decreases element, 0int,
{
    let mut title = element.xreftitle.clone();
    push_char(&mut title, ':');
    let text = Node::Text(title);
    assert(view_node(text) == SpecNode::Text(element.xreftitle@.push(':')));
    let emphasis = Node::Emphasis(single(text));
    assert(view_node(emphasis) == SpecNode::Emphasis(seq![SpecNode::Text(element.xreftitle@.push(':'))]));
    let signature = Node::DescSignature(SignatureType::MultiLine, single(emphasis));
    assert(view_node(signature) == SpecNode::DescSignature(
        SignatureType::MultiLine,
        seq![SpecNode::Emphasis(seq![SpecNode::Text(element.xreftitle@.push(':'))])],
    ));
    let content = Node::DescContent(render_description(ctx, &element.xrefdescription));
    assert(view_node(content) == SpecNode::DescContent(
        r_description(skips_htmlonly(ctx), view_description(element.xrefdescription)),
    ));
    let signatures = single(signature);
    let r = Node::Desc(signatures, Box::new(content));
    assert(view_node(r) == SpecNode::Desc(view_nodes(signatures@), Box::new(view_node(content))));
    r
}

/// Renders a table cell: a table entry of its paragraphs, marked as a heading
/// when its `thead` is yes.
pub fn render_doc_entry_type(ctx: &Context, element: &DocEntryType) -> (r: TableCell)
    ensures
        view_table_cell(r) == ({
            let heading = element.thead == DoxBool::Yes;
            (heading, SpecNode::TableRowEntry { heading, nodes: r_paras(skips_htmlonly(ctx), view_paras(element.para@)) })
        }),
    decreases element, 0int,
{
    let nodes = render_paras(ctx, &element.para);
    let heading = element.thead == DoxBool::Yes;
    TableCell { heading, entry: Node::TableRowEntry { heading, nodes } }
}

/// Renders a table row: a table row of its cells, a heading when any of them
/// is.
#[verifier::rlimit(40)]
pub fn render_doc_row_type(ctx: &Context, element: &DocRowType) -> (r: TableRow)
    ensures
        ({
            let cells = r_entries(skips_htmlonly(ctx), view_entries(element.entry@));
            view_table_row(r) == (any_heading(cells), SpecNode::TableRow(cell_nodes(cells)))
        }),
    decreases element, 0int,
{
    let mut heading = false;
    let mut nodes: Vec<Node> = Vec::new();
    let n = element.entry.len();
    for i in 0..n
        invariant
            n == element.entry.len(),
            heading == any_heading(r_entries(skips_htmlonly(ctx), view_entries(element.entry@.take(i as int)))),
            view_nodes(nodes@) == cell_nodes(r_entries(skips_htmlonly(ctx), view_entries(element.entry@.take(i as int)))),
    {
        let ghost before = nodes@;
        let ghost all = element.entry@;
        let cell = render_doc_entry_type(ctx, &element.entry[i]);
        let ghost gc = view_table_cell(cell);
        heading = heading || cell.heading;
        nodes.push(cell.entry);
        proof {
            lemma_view_nodes_push(before, nodes@.last());
            assert(nodes@ =~= before.push(nodes@.last()));
            assert(all.take(i + 1).drop_last() =~= all.take(i as int));
            let v = view_entries(all.take(i + 1));
            assert(v.drop_last() =~= view_entries(all.take(i as int)));
            assert(v.last() == view_entry(all[i as int]));
            let cells = r_entries(skips_htmlonly(ctx), v);
            assert(cells.drop_last() =~= r_entries(skips_htmlonly(ctx), view_entries(all.take(i as int))));
            assert(cells.last() == gc);
            assert(any_heading(cells) == (gc.0 || any_heading(cells.drop_last())));
            assert(cell_nodes(cells) == cell_nodes(cells.drop_last()).push(gc.1));
        }
    }
    assert(element.entry@.take(n as int) =~= element.entry@);
    TableRow { heading, entry: Node::TableRow(nodes) }
}

/// Renders a table as `r_table` states.
pub fn render_doc_table_type(ctx: &Context, element: &DocTableType) -> (r: Node)
    ensures
        view_node(r) == r_table(skips_htmlonly(ctx), view_table(*element)),
    decreases element, 0int,
{
    let ghost rows_spec = r_rows(skips_htmlonly(ctx), view_rows(element.row@));
    let mut header: Vec<Node> = Vec::new();
    let mut body: Vec<Node> = Vec::new();
    let n = element.row.len();
    for i in 0..n
        invariant
            n == element.row.len(),
            rows_spec == r_rows(skips_htmlonly(ctx), view_rows(element.row@)),
            view_nodes(header@) == rows_where(r_rows(skips_htmlonly(ctx), view_rows(element.row@.take(i as int))), true),
            view_nodes(body@) == rows_where(r_rows(skips_htmlonly(ctx), view_rows(element.row@.take(i as int))), false),
    {
        let ghost hb = header@;
        let ghost bb = body@;
        let ghost all = element.row@;
        let row = render_doc_row_type(ctx, &element.row[i]);
        proof {
            assert(all.take(i + 1).drop_last() =~= all.take(i as int));
            let v = view_rows(all.take(i + 1));
            assert(v.drop_last() =~= view_rows(all.take(i as int)));
            assert(v.last() == view_row(all[i as int]));
            let rs = r_rows(skips_htmlonly(ctx), v);
            assert(rs.drop_last() =~= r_rows(skips_htmlonly(ctx), view_rows(all.take(i as int))));
        }
        if row.heading {
            header.push(row.entry);
            proof {
                lemma_view_nodes_push(hb, header@.last());
                assert(header@ =~= hb.push(header@.last()));
            }
        } else {
            body.push(row.entry);
            proof {
                lemma_view_nodes_push(bb, body@.last());
                assert(body@ =~= bb.push(body@.last()));
            }
        }
    }
    assert(element.row@.take(n as int) =~= element.row@);
    let mut nodes: Vec<Node> = Vec::new();
    let mut k: i32 = 0;
    proof {
        reveal_strlit("auto");
    }
    while k < element.cols
        invariant
            0 <= k,
            k <= element.cols || (element.cols < 0 && k == 0),
            view_nodes(nodes@) == col_specs(k as int),
        decreases element.cols - k,
    {
        let ghost before = nodes@;
        nodes.push(Node::TableColSpec { colwidth: "auto".to_owned() });
        proof {
            lemma_view_nodes_push(before, nodes@.last());
            assert(nodes@ =~= before.push(nodes@.last()));
        }
        k = k + 1;
    }
    assert(col_specs(k as int) == col_specs(element.cols as int));
    let ghost before = nodes@;
    nodes.push(Node::TableHead(header));
    let ghost mid = nodes@;
    nodes.push(Node::TableBody(body));
    proof {
        lemma_view_nodes_push(before, mid.last());
        assert(mid =~= before.push(mid.last()));
        lemma_view_nodes_push(mid, nodes@.last());
        assert(nodes@ =~= mid.push(nodes@.last()));
    }
    let cols = element.cols;
    Node::Table(single(Node::TableGroup { cols, nodes }))
}

// ---------------------------------------------------------------------------
// Definitions

/// The domain of a language: C++ has the C++ domain, other languages none.
pub fn language_to_domain(language: &DoxLanguage) -> (r: Option<Domain>)
    ensures
        r == spec_language_domain(*language),
{
    match language {
        DoxLanguage::CPlusPlus => Some(Domain::CPlusPlus),
        _ => None,
    }
}

/// The title of a section of a compound.
pub fn section_title(section_kind: &DoxSectionKind) -> (r: String)
    ensures
        r@ == spec_section_title(*section_kind),
{
    let t = match section_kind {
        DoxSectionKind::UserDefined => "UserDefined",
        DoxSectionKind::PublicType => "Public Types",
        DoxSectionKind::PublicFunc => "Public Functions",
        DoxSectionKind::PublicAttrib => "Public Attributes",
        DoxSectionKind::PublicSlot => "PublicSlot",
        DoxSectionKind::Signal => "Signal",
        DoxSectionKind::DcopFunc => "DcopFunc",
        DoxSectionKind::Property => "Property",
        DoxSectionKind::Event => "Event",
        DoxSectionKind::PublicStaticFunc => "PublicStaticFunc",
        DoxSectionKind::PublicStaticAttrib => "Public Static Attributes",
        DoxSectionKind::ProtectedType => "ProtectedType",
        DoxSectionKind::ProtectedFunc => "ProtectedFunc",
        DoxSectionKind::ProtectedAttrib => "Protected Attributes",
        DoxSectionKind::ProtectedSlot => "ProtectedSlot",
        DoxSectionKind::ProtectedStaticFunc => "ProtectedStaticFunc",
        DoxSectionKind::ProtectedStaticAttrib => "ProtectedStatic Attributes",
        DoxSectionKind::PackageType => "PackageType",
        DoxSectionKind::PackageFunc => "PackageFunc",
        DoxSectionKind::PackageAttrib => "Package Attributes",
        DoxSectionKind::PackageStaticFunc => "PackageStaticFunc",
        DoxSectionKind::PackageStaticAttrib => "PackageStatic Attributes",
        DoxSectionKind::PrivateType => "PrivateType",
        DoxSectionKind::PrivateFunc => "PrivateFunc",
        DoxSectionKind::PrivateAttrib => "Private Attributes",
        DoxSectionKind::PrivateSlot => "PrivateSlot",
        DoxSectionKind::PrivateStaticFunc => "PrivateStaticFunc",
        DoxSectionKind::PrivateStaticAttrib => "PrivateStatic Attributes",
        DoxSectionKind::Friend => "Friend",
        DoxSectionKind::Related => "Related",
        DoxSectionKind::Define => "Define",
        DoxSectionKind::Prototype => "Prototype",
        DoxSectionKind::Typedef => "Typedef",
        DoxSectionKind::Enum => "Enum",
        DoxSectionKind::Func => "Func",
        DoxSectionKind::Var => "Var",
    };
    t.to_owned()
}

/// The keyword of a member's signature.
pub fn member_kind_name(member_kind: &DoxMemberKind) -> (r: String)
    ensures
        r@ == spec_member_kind_name(*member_kind),
{
    let t = match member_kind {
        DoxMemberKind::Define => "Define",
        DoxMemberKind::Property => "Property",
        DoxMemberKind::Event => "Event",
        DoxMemberKind::Variable => "Variable",
        DoxMemberKind::Typedef => "Typedef",
        DoxMemberKind::Enum => "enum",
        DoxMemberKind::Function => "function",
        DoxMemberKind::Signal => "Signal",
        DoxMemberKind::Prototype => "Prototype",
        DoxMemberKind::Friend => "Friend",
        DoxMemberKind::Dcop => "Dcop",
        DoxMemberKind::Slot => "Slot",
        DoxMemberKind::Interface => "Interface",
        DoxMemberKind::Service => "Service",
    };
    t.to_owned()
}

fn render_descriptions(ctx: &Context, brief: &Option<DescriptionType>, detailed: &Option<DescriptionType>) -> (r: Vec<Node>)
    ensures
        view_nodes(r@) == descriptions(skips_htmlonly(ctx), view_opt_description(*brief), view_opt_description(*detailed)),
{
    let mut nodes: Vec<Node> = Vec::new();
    if let Some(description) = brief {
        nodes = render_description(ctx, description);
    }
    let ghost first = nodes@;
    assert(brief is None ==> view_nodes(first) =~= Seq::<SpecNode>::empty());
    match detailed {
        Some(description) => {
            let mut more = render_description(ctx, description);
            let ghost mv = more@;
            nodes.append(&mut more);
            proof {
                lemma_view_nodes_add(first, mv);
                assert(nodes@ =~= first + mv);
            }
        },
        None => {
            assert(view_nodes(first) + Seq::<SpecNode>::empty() =~= view_nodes(first));
        },
    }
    nodes
}

fn target_of(id: &String) -> (r: Target)
    ensures
        view_target(r) == id_target(id@),
{
    Target { ids: id.clone(), names: id.clone() }
}

fn make_desc_block(line: Vec<Node>, content: Vec<Node>) -> (r: Node)
    ensures
        view_node(r) == desc_block(view_nodes(line@), view_nodes(content@)),
{
    let ghost lv = view_nodes(line@);
    let sig_line = Node::DescSignatureLine(line);
    assert(view_node(sig_line) == SpecNode::DescSignatureLine(lv));
    let signature = Node::DescSignature(SignatureType::MultiLine, single(sig_line));
    assert(view_node(signature) == SpecNode::DescSignature(SignatureType::MultiLine, seq![SpecNode::DescSignatureLine(lv)]));
    let body = Node::DescContent(content);
    let signatures = single(signature);
    let r = Node::Desc(signatures, Box::new(body));
    assert(view_node(r) == SpecNode::Desc(view_nodes(signatures@), Box::new(view_node(body))));
    r
}

fn make_domain_entry(domain: Domain, type_: DomainEntryType, id: &String, declaration: String, content: Vec<Node>) -> (r: Node)
    ensures
        view_node(r) == domain_entry(domain, type_, id@, declaration@, view_nodes(content@)),
{
    let entry = DomainEntry { domain, type_, target: target_of(id), location: None, declaration, content };
    assert(view_domain_entry(entry) == (SpecDomainEntry {
        domain,
        type_,
        target: id_target(id@),
        location: None,
        declaration: declaration@,
        content: view_nodes(content@),
    }));
    Node::DomainEntry(Box::new(entry))
}

fn keyword_line_nodes(id: &String, keyword: Vec<Node>, name: &String) -> (r: Vec<Node>)
    ensures
        view_nodes(r@) == keyword_line(id_target(id@), view_nodes(keyword@), name@),
{
    let ghost kv = view_nodes(keyword@);
    let mut line: Vec<Node> = Vec::new();
    line.push(Node::Target(target_of(id)));
    line.push(Node::DescSignatureKeyword(keyword));
    line.push(Node::DescSignatureSpace);
    let name_node = Node::DescSignatureName(name.clone());
    assert(view_node(name_node) == SpecNode::DescSignatureName(name@));
    let desc_name = Node::DescName(Box::new(name_node));
    assert(view_node(desc_name) == SpecNode::DescName(Box::new(SpecNode::DescSignatureName(name@))));
    line.push(desc_name);
    proof {
        lemma_view_nodes_index(line@);
        assert(view_node(line@[0]) == SpecNode::Target(id_target(id@)));
        assert(view_node(line@[1]) == SpecNode::DescSignatureKeyword(kv));
        assert(view_node(line@[2]) == SpecNode::DescSignatureSpace);
        assert(view_nodes(line@) =~= keyword_line(id_target(id@), kv, name@));
    }
    line
}

/// Renders an enum value of the enum named `enum_name`, as `r_enum_value`
/// states.
pub fn render_enum_value(ctx: &Context, enum_name: &str, enum_value: &EnumValueType) -> (r: Node)
    ensures
        view_node(r) == r_enum_value(ctx.domain, skips_htmlonly(ctx), enum_name@, view_enum_value(*enum_value)),
{
    let content = render_descriptions(ctx, &enum_value.brief_description, &enum_value.detailed_description);
    match &ctx.domain {
        Some(domain) => {
            let declaration = text::render_enum_value(domain, enum_name, enum_value);
            make_domain_entry(*domain, DomainEntryType::Enumerator, &enum_value.id, declaration, content)
        },
        None => {
            let inner = Node::DescSignatureName(enum_value.name.clone());
            assert(view_node(inner) == SpecNode::DescSignatureName(enum_value.name@));
            let name = Node::DescName(Box::new(inner));
            assert(view_node(name) == SpecNode::DescName(Box::new(SpecNode::DescSignatureName(enum_value.name@))));
            let line = single(name);
            make_desc_block(line, content)
        },
    }
}

/// Renders a parameter of a function's signature, as `r_param` states.
pub fn render_param(param: &ParamType) -> (r: Node)
    ensures
        view_node(r) == r_param(view_param(*param)),
{
    let mut contents: Vec<Node> = Vec::new();
    match (&param.type_, &param.declname) {
        (Some(type_), Some(declname)) => {
            contents = render_linked_text_type(type_);
            let ghost tv = contents@;
            let space = Node::DescSignatureSpace;
            assert(view_node(space) == SpecNode::DescSignatureSpace);
            let name = Node::DescSignatureName(declname.clone());
            assert(view_node(name) == SpecNode::DescSignatureName(declname@));
            contents.push(space);
            contents.push(name);
            proof {
                lemma_view_nodes_push(tv, contents@[tv.len() as int]);
                lemma_view_nodes_push(tv.push(contents@[tv.len() as int]), contents@.last());
                assert(contents@ =~= tv.push(contents@[tv.len() as int]).push(contents@.last()));
                assert(view_nodes(contents@) =~= view_nodes(tv) + seq![SpecNode::DescSignatureSpace, SpecNode::DescSignatureName(declname@)]);
            }
        },
        (Some(type_), None) => {
            contents = render_linked_text_type(type_);
        },
        (None, Some(declname)) => {
            let name = Node::DescSignatureName(declname.clone());
            assert(view_node(name) == SpecNode::DescSignatureName(declname@));
            contents = single(name);
        },
        (None, None) => {
            assert(view_nodes(contents@) =~= Seq::<SpecNode>::empty());
        },
    }
    Node::DescParameter(contents)
}

/// Renders a member definition, as `r_member_def` states.
pub fn render_member_def(ctx: &Context, member_def: &MemberDefType) -> (r: Vec<Node>)
    ensures
        view_nodes(r@) == seq![r_member_def(ctx.domain, skips_htmlonly(ctx), view_member_def(*member_def))],
{
    let ghost m = view_member_def(*member_def);
    let mut content = render_descriptions(ctx, &member_def.brief_description, &member_def.detailed_description);
    match member_def.kind {
        DoxMemberKind::Enum => {
            let ghost before = content@;
            let mut values: Vec<Node> = Vec::new();
            let n = member_def.enumvalue.len();
            for i in 0..n
                invariant
                    n == member_def.enumvalue.len(),
                    m == view_member_def(*member_def),
                    view_nodes(values@) == r_enum_values(ctx.domain, skips_htmlonly(ctx), m.name, m.enumvalue.take(i as int)),
            {
                let ghost vb = values@;
                values.push(render_enum_value(ctx, member_def.name.as_str(), &member_def.enumvalue[i]));
                proof {
                    lemma_view_nodes_push(vb, values@.last());
                    assert(values@ =~= vb.push(values@.last()));
                    assert(m.enumvalue[i as int] == view_enum_value(member_def.enumvalue@[i as int]));
                    assert(m.enumvalue.take(i + 1).drop_last() =~= m.enumvalue.take(i as int));
                }
            }
            assert(m.enumvalue.take(n as int) =~= m.enumvalue);
            let ghost vv = values@;
            content.append(&mut values);
            proof {
                lemma_view_nodes_add(before, vv);
                assert(content@ =~= before + vv);
            }
            match &ctx.domain {
                Some(domain) => {
                    let declaration = text::render_member_def(domain, member_def);
                    single(make_domain_entry(*domain, DomainEntryType::Enum, &member_def.id, declaration, content))
                },
                None => {
                    let keyword = single(Node::Text(member_kind_name(&member_def.kind)));
                    let line = keyword_line_nodes(&member_def.id, keyword, &member_def.name);
                    single(make_desc_block(line, content))
                },
            }
        },
        DoxMemberKind::Function => {
            match &ctx.domain {
                Some(domain) => {
                    let declaration = text::render_member_def(domain, member_def);
                    return single(
                        make_domain_entry(*domain, DomainEntryType::Function, &member_def.id, declaration, content),
                    );
                },
                None => {},
            }
            let mut parameter_list_items: Vec<Node> = Vec::new();
            let n = member_def.param.len();
            for i in 0..n
                invariant
                    n == member_def.param.len(),
                    m == view_member_def(*member_def),
                    view_nodes(parameter_list_items@) == r_params(m.param.take(i as int)),
            {
                let ghost pb = parameter_list_items@;
                parameter_list_items.push(render_param(&member_def.param[i]));
                proof {
                    lemma_view_nodes_push(pb, parameter_list_items@.last());
                    assert(parameter_list_items@ =~= pb.push(parameter_list_items@.last()));
                    assert(m.param[i as int] == view_param(member_def.param@[i as int]));
                    assert(m.param.take(i + 1).drop_last() =~= m.param.take(i as int));
                }
            }
            assert(m.param.take(n as int) =~= m.param);
            let params = Node::DescParameterList(parameter_list_items);
            let ghost pv = view_node(params);
            let line = match &member_def.type_ {
                Some(type_) => {
                    let mut line = keyword_line_nodes(&member_def.id, render_linked_text_type(type_), &member_def.name);
                    let ghost lb = line@;
                    line.push(params);
                    proof {
                        lemma_view_nodes_push(lb, line@.last());
                        assert(line@ =~= lb.push(line@.last()));
                    }
                    line
                },
                None => {
                    let mut line: Vec<Node> = Vec::new();
                    line.push(Node::Target(target_of(&member_def.id)));
                    let inner = Node::DescSignatureName(member_def.name.clone());
                    assert(view_node(inner) == SpecNode::DescSignatureName(m.name));
                    let name = Node::DescName(Box::new(inner));
                    assert(view_node(name) == SpecNode::DescName(Box::new(SpecNode::DescSignatureName(m.name))));
                    line.push(name);
                    line.push(params);
                    proof {
                        lemma_view_nodes_index(line@);
                        assert(view_node(line@[0]) == SpecNode::Target(id_target(m.id)));
                        assert(view_node(line@[2]) == SpecNode::DescParameterList(r_params(m.param)));
                        assert(view_nodes(line@) =~= seq![
                            SpecNode::Target(id_target(m.id)),
                            SpecNode::DescName(Box::new(SpecNode::DescSignatureName(m.name))),
                            SpecNode::DescParameterList(r_params(m.param)),
                        ]);
                    }
                    line
                },
            };
            single(make_desc_block(line, content))
        },
        _ => {
            let keyword = single(Node::Text(member_kind_name(&member_def.kind)));
            let line = keyword_line_nodes(&member_def.id, keyword, &member_def.name);
            single(make_desc_block(line, content))
        },
    }
}

/// Whether members of this kind are left out when their names are all
/// capital letters: functions and variables.
fn skips_member_kind(kind: &DoxMemberKind) -> (r: bool)
    ensures
        r == (*kind == DoxMemberKind::Function || *kind == DoxMemberKind::Variable),
{
    match kind {
        DoxMemberKind::Function => true,
        DoxMemberKind::Variable => true,
        _ => false,
    }
}

/// Whether a name is all capital letters and underscores, as `is_all_caps`
/// states.
pub fn is_all_caps_name(name: &str) -> (r: bool)
    ensures
        r == is_all_caps(name@),
{
    let chars = to_chars(name);
    let n = chars.len();
    if n == 0 {
        return false;
    }
    for i in 0..n
        invariant
            n == chars.len(),
            chars@ == name@,
            forall|j: int| 0 <= j < i ==> ('A' as u32 <= #[trigger] name@[j] as u32 <= 'Z' as u32 || name@[j] == '_'),
    {
        let c = chars[i];
        let code = c as u32;
        if !((65 <= code && code <= 90) || c == '_') {
            assert(!('A' as u32 <= name@[i as int] as u32 <= 'Z' as u32 || name@[i as int] == '_'));
            return false;
        }
    }
    true
}

/// Renders a section definition, as `r_section_def` states.
pub fn render_section_def(ctx: &Context, section_def: &SectionDefType) -> (r: Node)
    ensures
        view_node(r) == r_section_def(ctx.domain, skips_htmlonly(ctx), ctx.skip_all_caps_members, view_section_def(*section_def)),
{
    let ghost sd = view_section_def(*section_def);
    let rubric = Node::Rubric { classes: Vec::new(), nodes: single(Node::Text(section_title(&section_def.kind))) };
    assert(view_strings(Seq::<String>::empty()) =~= Seq::<Seq<char>>::empty());
    let mut content_nodes = single(rubric);
    let ghost head = content_nodes@;
    let mut members: Vec<Node> = Vec::new();
    let n = section_def.member_defs.len();
    for i in 0..n
        invariant
            n == section_def.member_defs.len(),
            sd == view_section_def(*section_def),
            view_nodes(members@) == r_member_defs(ctx.domain, skips_htmlonly(ctx), ctx.skip_all_caps_members, sd.member_defs.take(i as int)),
    {
        let ghost mb = members@;
        proof {
            assert(sd.member_defs[i as int] == view_member_def(section_def.member_defs@[i as int]));
            assert(sd.member_defs.take(i + 1).drop_last() =~= sd.member_defs.take(i as int));
        }
        if !(ctx.skip_all_caps_members && skips_member_kind(&section_def.member_defs[i].kind)
            && is_all_caps_name(section_def.member_defs[i].name.as_str())) {
            let mut more = render_member_def(ctx, &section_def.member_defs[i]);
            let ghost mv = more@;
            members.append(&mut more);
            proof {
                lemma_view_nodes_add(mb, mv);
                assert(members@ =~= mb + mv);
                assert(view_nodes(mb) + seq![r_member_def(ctx.domain, skips_htmlonly(ctx), sd.member_defs[i as int])]
                    =~= view_nodes(mb).push(r_member_def(ctx.domain, skips_htmlonly(ctx), sd.member_defs[i as int])));
            }
        }
    }
    assert(sd.member_defs.take(n as int) =~= sd.member_defs);
    let ghost mv = members@;
    content_nodes.append(&mut members);
    proof {
        lemma_view_nodes_add(head, mv);
        assert(content_nodes@ =~= head + mv);
    }
    Node::Container(content_nodes)
}

// ---------------------------------------------------------------------------
// Compounds

/// A compound file that was read, with the id it was read for.
pub struct LoadedCompound<'a> {
    pub refid: String,
    pub root: &'a DoxygenType,
}

/// The compounds that rendering may refer to: the inner classes and groups
/// of the compounds it renders.
pub open spec fn view_store(s: Seq<LoadedCompound>) -> Seq<(Seq<char>, SpecDoxygen)> {
    s.map_values(|c: LoadedCompound| (c.refid@, view_doxygen(*c.root)))
}

/// Why a compound could not be rendered.
#[derive(Debug, PartialEq, Eq)]
pub enum RenderError {
    /// No compound with this id was loaded.
    MissingCompound(String),
    /// Inner compounds were nested deeper than there are compounds, which
    /// only a cycle of inner references allows.
    TooDeep,
}

pub open spec fn view_render_error(e: RenderError) -> SpecRenderError {
    match e {
        RenderError::MissingCompound(id) => SpecRenderError::MissingCompound(id@),
        RenderError::TooDeep => SpecRenderError::TooDeep,
    }
}

/// Whether a rendering result is the one a rule gives.
pub open spec fn render_agrees(r: Result<Vec<Node>, RenderError>, s: Result<Seq<SpecNode>, SpecRenderError>) -> bool {
    match (r, s) {
        (Ok(v), Ok(t)) => view_nodes(v@) == t,
        (Err(e), Err(f)) => view_render_error(e) == f,
        _ => false,
    }
}

proof fn lemma_lookup_prefix(store: Seq<(Seq<char>, SpecDoxygen)>, refid: Seq<char>, k: int)
    requires
        0 <= k <= store.len(),
        lookup(store.take(k), refid) is Some,
    ensures
        lookup(store, refid) == lookup(store.take(k), refid),
    decreases store.len() - k,
{
    if k < store.len() {
        assert(store.drop_last().take(k) =~= store.take(k));
        lemma_lookup_prefix(store.drop_last(), refid, k);
    } else {
        assert(store.take(k) =~= store);
    }
}

/// The compound that the store holds for `refid`, as `lookup` states.
pub fn find_compound<'a, 'b>(store: &'b Vec<LoadedCompound<'a>>, refid: &str) -> (r: Option<&'a DoxygenType>)
    ensures
        match lookup(view_store(store@), refid@) {
            Some(d) => r matches Some(x) && view_doxygen(*x) == d,
            None => r is None,
        },
{
    let ghost full = view_store(store@);
    let n = store.len();
    for i in 0..n
        invariant
            n == store.len(),
            full == view_store(store@),
            lookup(full.take(i as int), refid@) is None,
    {
        proof {
            assert(full.take(i + 1).drop_last() =~= full.take(i as int));
            assert(full.take(i + 1).last() == (store@[i as int].refid@, view_doxygen(*store@[i as int].root)));
        }
        if str_eq(store[i].refid.as_str(), refid) {
            proof {
                lemma_lookup_prefix(full, refid@, i + 1);
            }
            return Some(store[i].root);
        }
    }
    assert(full.take(n as int) =~= full);
    None
}

proof fn lemma_r_inner_err_prefix(
    skip: bool,
    caps: bool,
    refs: Seq<SpecRefType>,
    inner_groups: bool,
    store: Seq<(Seq<char>, SpecDoxygen)>,
    fuel: nat,
    k: int,
)
    requires
        0 <= k <= refs.len(),
        r_inner(skip, caps, refs.take(k), inner_groups, store, fuel) is Err,
    ensures
        r_inner(skip, caps, refs, inner_groups, store, fuel) == r_inner(skip, caps, refs.take(k), inner_groups, store, fuel),
    decreases refs.len() - k,
{
    if k < refs.len() {
        assert(refs.drop_last().take(k) =~= refs.take(k));
        lemma_r_inner_err_prefix(skip, caps, refs.drop_last(), inner_groups, store, fuel, k);
    } else {
        assert(refs.take(k) =~= refs);
    }
}

fn render_inner(
    ctx: &Context,
    refs: &Vec<RefType>,
    inner_groups: bool,
    store: &Vec<LoadedCompound>,
    fuel: usize,
) -> (r: Result<Vec<Node>, RenderError>)
    ensures
        render_agrees(r, r_inner(skips_htmlonly(ctx), ctx.skip_all_caps_members, view_refs(refs@), inner_groups, view_store(store@), fuel as nat)),
    decreases fuel, 0int,
{
    let ghost all = view_refs(refs@);
    let mut nodes: Vec<Node> = Vec::new();
    let n = refs.len();
    assert(all.take(0) =~= Seq::<SpecRefType>::empty());
    for i in 0..n
        invariant
            n == refs.len(),
            all == view_refs(refs@),
            r_inner(skips_htmlonly(ctx), ctx.skip_all_caps_members, all.take(i as int), inner_groups, view_store(store@), fuel as nat) == Ok::<
                Seq<SpecNode>,
                SpecRenderError,
            >(view_nodes(nodes@)),
    {
        let ghost before = nodes@;
        proof {
            assert(all.take(i + 1).drop_last() =~= all.take(i as int));
            assert(all.take(i + 1).last() == view_ref_type(refs@[i as int]));
        }
        let root = match find_compound(store, refs[i].refid.as_str()) {
            Some(root) => root,
            None => {
                proof {
                    lemma_r_inner_err_prefix(skips_htmlonly(ctx), ctx.skip_all_caps_members, all, inner_groups, view_store(store@), fuel as nat, i + 1);
                }
                return Err(RenderError::MissingCompound(refs[i].refid.clone()));
            },
        };
        if fuel == 0 {
            proof {
                lemma_r_inner_err_prefix(skips_htmlonly(ctx), ctx.skip_all_caps_members, all, inner_groups, view_store(store@), fuel as nat, i + 1);
            }
            return Err(RenderError::TooDeep);
        }
        let mut more = match render_compound_fuel(ctx, root, inner_groups, store, fuel - 1) {
            Ok(more) => more,
            Err(e) => {
                proof {
                    lemma_r_inner_err_prefix(skips_htmlonly(ctx), ctx.skip_all_caps_members, all, inner_groups, view_store(store@), fuel as nat, i + 1);
                }
                return Err(e);
            },
        };
        let ghost mv = more@;
        nodes.append(&mut more);
        proof {
            lemma_view_nodes_add(before, mv);
            assert(nodes@ =~= before + mv);
        }
    }
    assert(all.take(n as int) =~= all);
    Ok(nodes)
}

/// Renders a compound file as `r_compound` states, with inner compounds
/// nested at most `fuel` deep.
fn render_compound_fuel(
    ctx: &Context,
    root: &DoxygenType,
    inner_groups: bool,
    store: &Vec<LoadedCompound>,
    fuel: usize,
) -> (r: Result<Vec<Node>, RenderError>)
    ensures
        render_agrees(r, r_compound(skips_htmlonly(ctx), ctx.skip_all_caps_members, view_doxygen(*root), inner_groups, view_store(store@), fuel as nat)),
    decreases fuel, 1int,
{
    let compound_def = match &root.compound_def {
        Some(c) => c,
        None => {
            assert(view_nodes(Seq::<Node>::empty()) =~= Seq::<SpecNode>::empty());
            return Ok(Vec::new());
        },
    };
    let ghost c = view_compound_def(*compound_def);
    let domain = match &compound_def.language {
        Some(language) => language_to_domain(language),
        None => None,
    };
    let inner_ctx = ctx.with_domain(domain);
    let mut content_nodes = render_descriptions(&inner_ctx, &compound_def.brief_description, &compound_def.detailed_description);
    let ghost desc = content_nodes@;
    let mut classes = render_inner(&inner_ctx, &compound_def.innerclass, inner_groups, store, fuel)?;
    let ghost cv = classes@;
    content_nodes.append(&mut classes);
    let ghost after_classes = content_nodes@;
    if inner_groups {
        let mut groups = render_inner(&inner_ctx, &compound_def.innergroup, inner_groups, store, fuel)?;
        let ghost gv = groups@;
        content_nodes.append(&mut groups);
        proof {
            lemma_view_nodes_add(after_classes, gv);
            assert(content_nodes@ =~= after_classes + gv);
        }
    } else {
        assert(view_nodes(after_classes) + Seq::<SpecNode>::empty() =~= view_nodes(after_classes));
    }
    let ghost after_groups = content_nodes@;
    let mut sections: Vec<Node> = Vec::new();
    let n = compound_def.section_defs.len();
    for i in 0..n
        invariant
            n == compound_def.section_defs.len(),
            c == view_compound_def(*compound_def),
            inner_ctx.domain == domain,
            domain == compound_domain(c),
            skips_htmlonly(&inner_ctx) == skips_htmlonly(ctx),
            inner_ctx.skip_all_caps_members == ctx.skip_all_caps_members,
            view_nodes(sections@) == r_section_defs(domain, skips_htmlonly(ctx), ctx.skip_all_caps_members, c.section_defs.take(i as int)),
    {
        let ghost sb = sections@;
        sections.push(render_section_def(&inner_ctx, &compound_def.section_defs[i]));
        proof {
            lemma_view_nodes_push(sb, sections@.last());
            assert(sections@ =~= sb.push(sections@.last()));
            assert(c.section_defs[i as int] == view_section_def(compound_def.section_defs@[i as int]));
            assert(c.section_defs.take(i + 1).drop_last() =~= c.section_defs.take(i as int));
        }
    }
    assert(c.section_defs.take(n as int) =~= c.section_defs);
    let ghost sv = sections@;
    content_nodes.append(&mut sections);
    proof {
        lemma_view_nodes_add(desc, cv);
        assert(after_classes =~= desc + cv);
        lemma_view_nodes_add(after_groups, sv);
        assert(content_nodes@ =~= after_groups + sv);
    }
    let is_class = match compound_def.kind {
        DoxCompoundKind::Class => true,
        _ => false,
    };
    match (&inner_ctx.domain, is_class) {
        (Some(d), true) => {
            let declaration = text::render_compound_def(d, compound_def);
            return Ok(single(make_domain_entry(*d, DomainEntryType::Class, &compound_def.id, declaration, content_nodes)));
        },
        _ => {},
    }
    let kind = text::render_compound_kind(&compound_def.kind);
    let keyword = single(Node::Text(kind.to_owned()));
    let line = keyword_line_nodes(&compound_def.id, keyword, &compound_def.compound_name);
    Ok(single(make_desc_block(line, content_nodes)))
}

/// Renders a compound file as `r_compound` states. Inner compounds are taken
/// from `store`; since a chain of inner compounds without a cycle is at most
/// as long as the store, nesting deeper than that is refused (`TooDeep`).
pub fn render_compound(
    ctx: &Context,
    root: &DoxygenType,
    inner_groups: bool,
    store: &Vec<LoadedCompound>,
) -> (r: Result<Vec<Node>, RenderError>)
    ensures
        render_agrees(r, r_compound(skips_htmlonly(ctx), ctx.skip_all_caps_members, view_doxygen(*root), inner_groups, view_store(store@), store@.len())),
{
    render_compound_fuel(ctx, root, inner_groups, store, store.len())
}

fn find_member_in_section<'a>(section: &'a SectionDefType, member_ref_id: &str) -> (r: Option<&'a MemberDefType>)
    ensures
        match find_member_in(view_section_def(*section).member_defs, member_ref_id@) {
            Some(m) => r matches Some(x) && view_member_def(*x) == m,
            None => r is None,
        },
{
    let ghost sv = view_section_def(*section);
    let m = section.member_defs.len();
    for j in 0..m
        invariant
            m == section.member_defs.len(),
            sv == view_section_def(*section),
            find_member_in(sv.member_defs.take(j as int), member_ref_id@) is None,
    {
        proof {
            assert(sv.member_defs.take(j + 1).drop_last() =~= sv.member_defs.take(j as int));
            assert(sv.member_defs.take(j + 1).last() == view_member_def(section.member_defs@[j as int]));
        }
        if str_eq(section.member_defs[j].id.as_str(), member_ref_id) {
            proof {
                lemma_find_member_in_prefix(sv.member_defs, member_ref_id@, j + 1);
            }
            return Some(&section.member_defs[j]);
        }
    }
    assert(sv.member_defs.take(m as int) =~= sv.member_defs);
    None
}

fn find_member_def<'a>(compound_def: &'a CompoundDefType, member_ref_id: &str) -> (r: Option<&'a MemberDefType>)
    ensures
        match find_member(view_compound_def(*compound_def).section_defs, member_ref_id@) {
            Some(m) => r matches Some(x) && view_member_def(*x) == m,
            None => r is None,
        },
{
    let ghost c = view_compound_def(*compound_def);
    let n = compound_def.section_defs.len();
    for i in 0..n
        invariant
            n == compound_def.section_defs.len(),
            c == view_compound_def(*compound_def),
            find_member(c.section_defs.take(i as int), member_ref_id@) is None,
    {
        proof {
            assert(c.section_defs.take(i + 1).drop_last() =~= c.section_defs.take(i as int));
            assert(c.section_defs.take(i + 1).last() == view_section_def(compound_def.section_defs@[i as int]));
        }
        match find_member_in_section(&compound_def.section_defs[i], member_ref_id) {
            Some(m) => {
                proof {
                    lemma_find_member_prefix(c.section_defs, member_ref_id@, i + 1);
                }
                return Some(m);
            },
            None => {},
        }
    }
    assert(c.section_defs.take(n as int) =~= c.section_defs);
    None
}

/// Renders the member with id `member_ref_id` of a compound file, searched
/// for in its sections in order: nothing when the file has no compound
/// definition or the member is not found.
pub fn render_member(ctx: &Context, root: &DoxygenType, member_ref_id: &str) -> (r: Vec<Node>)
    ensures
        view_nodes(r@) == match view_doxygen(*root).compound_def {
            None => Seq::empty(),
            Some(c) => match find_member(c.section_defs, member_ref_id@) {
                Some(m) => seq![r_member_def(compound_domain(c), skips_htmlonly(ctx), m)],
                None => Seq::empty(),
            },
        },
{
    assert(view_nodes(Seq::<Node>::empty()) =~= Seq::<SpecNode>::empty());
    let compound_def = match &root.compound_def {
        Some(c) => c,
        None => {
            return Vec::new();
        },
    };
    let domain = match &compound_def.language {
        Some(language) => language_to_domain(language),
        None => None,
    };
    let inner_ctx = ctx.with_domain(domain);
    match find_member_def(compound_def, member_ref_id) {
        Some(member_def) => render_member_def(&inner_ctx, member_def),
        None => Vec::new(),
    }
}

proof fn lemma_find_member_in_prefix(members: Seq<SpecMemberDef>, id: Seq<char>, k: int)
    requires
        0 <= k <= members.len(),
        find_member_in(members.take(k), id) is Some,
    ensures
        find_member_in(members, id) == find_member_in(members.take(k), id),
    decreases members.len() - k,
{
    if k < members.len() {
        assert(members.drop_last().take(k) =~= members.take(k));
        lemma_find_member_in_prefix(members.drop_last(), id, k);
    } else {
        assert(members.take(k) =~= members);
    }
}

proof fn lemma_find_member_prefix(sections: Seq<SpecSectionDef>, id: Seq<char>, k: int)
    requires
        0 <= k <= sections.len(),
        find_member(sections.take(k), id) is Some,
    ensures
        find_member(sections, id) == find_member(sections.take(k), id),
    decreases sections.len() - k,
{
    if k < sections.len() {
        assert(sections.drop_last().take(k) =~= sections.take(k));
        lemma_find_member_prefix(sections.drop_last(), id, k);
    } else {
        assert(sections.take(k) =~= sections);
    }
}

/// Renders one entry of the contents of a compound definition: a section
/// definition as a section, an inner class or group as the compound it refers
/// to, taken from the store.
pub fn render_compounddef_content(
    ctx: &Context,
    entry: CompoundDefEntry,
    inner_groups: bool,
    store: &Vec<LoadedCompound>,
) -> (r: Result<Vec<Node>, RenderError>)
    ensures
        match view_entry_ref(entry) {
            SpecCompoundDefEntry::SectionDef(s) => render_agrees(
                r,
                Ok(seq![r_section_def(ctx.domain, skips_htmlonly(ctx), ctx.skip_all_caps_members, s)]),
            ),
            SpecCompoundDefEntry::Class(t) => match lookup(view_store(store@), t.refid) {
                Some(root) => render_agrees(r, r_compound(skips_htmlonly(ctx), ctx.skip_all_caps_members, root, inner_groups, view_store(store@), store@.len())),
                None => render_agrees(r, Err(SpecRenderError::MissingCompound(t.refid))),
            },
            SpecCompoundDefEntry::Group(t) => match lookup(view_store(store@), t.refid) {
                Some(root) => render_agrees(r, r_compound(skips_htmlonly(ctx), ctx.skip_all_caps_members, root, inner_groups, view_store(store@), store@.len())),
                None => render_agrees(r, Err(SpecRenderError::MissingCompound(t.refid))),
            },
        },
{
    match entry {
        CompoundDefEntry::SectionDef(section_def) => Ok(single(render_section_def(ctx, section_def))),
        CompoundDefEntry::Class(ref_type) | CompoundDefEntry::Group(ref_type) => {
            match find_compound(store, ref_type.refid.as_str()) {
                Some(root) => render_compound(ctx, root, inner_groups, store),
                None => Err(RenderError::MissingCompound(ref_type.refid.clone())),
            }
        },
    }
}

/// Rendering one entry of the contents of a compound definition, as
/// `render_compounddef_content` does.
pub open spec fn r_content_entry(
    skip: bool,
    caps: bool,
    domain: Option<Domain>,
    e: SpecCompoundDefEntry,
    inner_groups: bool,
    store: Seq<(Seq<char>, SpecDoxygen)>,
    fuel: nat,
) -> Result<Seq<SpecNode>, SpecRenderError> {
    match e {
        SpecCompoundDefEntry::SectionDef(s) => Ok(seq![r_section_def(domain, skip, caps, s)]),
        SpecCompoundDefEntry::Class(t) => match lookup(store, t.refid) {
            Some(root) => r_compound(skip, caps, root, inner_groups, store, fuel),
            None => Err(SpecRenderError::MissingCompound(t.refid)),
        },
        SpecCompoundDefEntry::Group(t) => match lookup(store, t.refid) {
            Some(root) => r_compound(skip, caps, root, inner_groups, store, fuel),
            None => Err(SpecRenderError::MissingCompound(t.refid)),
        },
    }
}

/// Rendering the entries of a compound definition's contents in order, one
/// after the other; the first that fails decides the error.
pub open spec fn r_contents(
    skip: bool,
    caps: bool,
    domain: Option<Domain>,
    es: Seq<SpecCompoundDefEntry>,
    inner_groups: bool,
    store: Seq<(Seq<char>, SpecDoxygen)>,
    fuel: nat,
) -> Result<Seq<SpecNode>, SpecRenderError>
    decreases es.len(),
{
    if es.len() == 0 {
        Ok(Seq::empty())
    } else {
        match r_contents(skip, caps, domain, es.drop_last(), inner_groups, store, fuel) {
            Err(e) => Err(e),
            Ok(before) => match r_content_entry(skip, caps, domain, es.last(), inner_groups, store, fuel) {
                Err(e) => Err(e),
                Ok(nodes) => Ok(before + nodes),
            },
        }
    }
}

proof fn lemma_contents_err(
    skip: bool,
    caps: bool,
    domain: Option<Domain>,
    es: Seq<SpecCompoundDefEntry>,
    inner_groups: bool,
    store: Seq<(Seq<char>, SpecDoxygen)>,
    fuel: nat,
    k: int,
)
    requires
        0 <= k <= es.len(),
        r_contents(skip, caps, domain, es.take(k), inner_groups, store, fuel) is Err,
    ensures
        r_contents(skip, caps, domain, es, inner_groups, store, fuel) == r_contents(skip, caps, domain, es.take(k), inner_groups, store, fuel),
    decreases es.len() - k,
{
    if k < es.len() {
        assert(es.drop_last().take(k) =~= es.take(k));
        lemma_contents_err(skip, caps, domain, es.drop_last(), inner_groups, store, fuel, k);
    } else {
        assert(es.take(k) =~= es);
    }
}

/// Renders the contents of a compound definition (its inner classes, inner
/// groups and sections) entry by entry, as `r_contents` states.
pub fn render_compounddef_contents(
    ctx: &Context,
    compound_def: &CompoundDefType,
    inner_groups: bool,
    store: &Vec<LoadedCompound>,
) -> (r: Result<Vec<Node>, RenderError>)
    ensures
        render_agrees(
            r,
            r_contents(
                skips_htmlonly(ctx),
                ctx.skip_all_caps_members,
                ctx.domain,
                spec_compounddef_contents(view_compound_def(*compound_def)),
                inner_groups,
                view_store(store@),
                store@.len(),
            ),
        ),
{
    let entries = extract_compounddef_contents(compound_def, inner_groups);
    let ghost es = view_entries_ref(entries@);
    let ghost skip = skips_htmlonly(ctx);
    let ghost sv = view_store(store@);
    let mut out: Vec<Node> = Vec::new();
    assert(view_nodes(out@) =~= Seq::empty());
    assert(es.take(0) =~= Seq::<SpecCompoundDefEntry>::empty());
    let n = entries.len();
    for i in 0..n
        invariant
            n == entries.len(),
            es == view_entries_ref(entries@),
            es == spec_compounddef_contents(view_compound_def(*compound_def)),
            skip == skips_htmlonly(ctx),
            sv == view_store(store@),
            r_contents(skip, ctx.skip_all_caps_members, ctx.domain, es.take(i as int), inner_groups, sv, store@.len())
                == Ok::<Seq<SpecNode>, SpecRenderError>(view_nodes(out@)),
    {
        let ghost before = view_nodes(out@);
        proof {
            assert(es.take(i + 1).drop_last() =~= es.take(i as int));
            assert(es.take(i + 1).last() == view_entry_ref(entries@[i as int]));
        }
        let rendered = render_compounddef_content(ctx, entries[i], inner_groups, store);
        let ghost f = r_content_entry(skip, ctx.skip_all_caps_members, ctx.domain, view_entry_ref(entries@[i as int]), inner_groups, sv, store@.len());
        assert(render_agrees(rendered, f));
        match rendered {
            Err(e) => {
                proof {
                    assert(f is Err);
                    assert(r_contents(skip, ctx.skip_all_caps_members, ctx.domain, es.take(i + 1), inner_groups, sv, store@.len()) == f);
                    lemma_contents_err(skip, ctx.skip_all_caps_members, ctx.domain, es, inner_groups, sv, store@.len(), i + 1);
                }
                return Err(e);
            },
            Ok(mut nodes) => {
                let ghost old_out = out@;
                let ghost ns = nodes@;
                out.append(&mut nodes);
                proof {
                    assert(out@ =~= old_out + ns);
                    lemma_view_nodes_add(old_out, ns);
                }
            },
        }
    }
    proof {
        assert(es.take(n as int) =~= es);
    }
    Ok(out)
}

// ---------------------------------------------------------------------------
// Settings

/// A part of the Doxygen XML that the user asked to skip.
#[derive(Debug, PartialEq, Eq)]
pub enum Skip {
    /// Members whose names are all capital letters and underscores.
    MembersAllCaps,
    /// The named XML element and its children.
    XmlNode(String),
}

/// A skip setting that names nothing.
#[derive(Debug, PartialEq, Eq)]
pub enum SkipError {
    Unrecognised(String),
}

/// Reads a skip setting: `members:all_caps`, or `xml-nodes:` followed by the
/// name of an element; anything else is refused with the setting itself.
pub fn parse_skip_setting(value: String) -> (r: Result<Skip, SkipError>)
    ensures
        value@ == "members:all_caps"@ ==> r matches Ok(Skip::MembersAllCaps),
        value@ != "members:all_caps"@ && starts_with(value@, "xml-nodes:"@) ==> (r matches Ok(Skip::XmlNode(n)) && n@
            == value@.skip(10)),
        value@ != "members:all_caps"@ && !starts_with(value@, "xml-nodes:"@) ==> (r matches Err(
            SkipError::Unrecognised(v),
        ) && v@ == value@),
{
    if str_eq(value.as_str(), "members:all_caps") {
        return Ok(Skip::MembersAllCaps);
    }
    let cs = to_chars(value.as_str());
    if starts_with_exec(&cs, "xml-nodes:") {
        proof {
            reveal_strlit("xml-nodes:");
        }
        let name = from_chars(&cs, 10, cs.len());
        assert(name@ =~= value@.skip(10));
        Ok(Skip::XmlNode(name))
    } else {
        Err(SkipError::Unrecognised(value))
    }
}

/// What a skip setting names, as a plain value: an XML element by its name,
/// or nothing for members with all-caps names.
pub open spec fn skip_view(s: Skip) -> Option<Seq<char>> {
    match s {
        Skip::MembersAllCaps => None,
        Skip::XmlNode(name) => Some(name@),
    }
}

pub open spec fn skip_views(s: Seq<Skip>) -> Seq<Option<Seq<char>>> {
    s.map_values(|k: Skip| skip_view(k))
}

/// What `parse_skip_setting` reads a setting as; `None` when it names
/// nothing.
pub open spec fn skip_setting(v: Seq<char>) -> Option<Option<Seq<char>>> {
    if v == "members:all_caps"@ {
        Some(None)
    } else if starts_with(v, "xml-nodes:"@) {
        Some(Some(v.skip(10)))
    } else {
        None
    }
}

/// Reading skip settings in order: the settings each one names, or the first
/// that names nothing.
pub open spec fn skip_settings(vs: Seq<Seq<char>>) -> Result<Seq<Option<Seq<char>>>, Seq<char>>
    decreases vs.len(),
{
    if vs.len() == 0 {
        Ok(Seq::empty())
    } else {
        match skip_settings(vs.drop_last()) {
            Err(e) => Err(e),
            Ok(done) => match skip_setting(vs.last()) {
                Some(k) => Ok(done.push(k)),
                None => Err(vs.last()),
            },
        }
    }
}

proof fn lemma_skip_settings_err(vs: Seq<Seq<char>>, k: int)
    requires
        0 <= k <= vs.len(),
        skip_settings(vs.take(k)) is Err,
    ensures
        skip_settings(vs) == skip_settings(vs.take(k)),
    decreases vs.len() - k,
{
    if k < vs.len() {
        assert(vs.drop_last().take(k) =~= vs.take(k));
        lemma_skip_settings_err(vs.drop_last(), k);
    } else {
        assert(vs.take(k) =~= vs);
    }
}

/// Reads the skip settings of a project in order, as `skip_settings` states:
/// the first setting that names nothing is the error.
pub fn parse_skip_settings(values: &Vec<String>) -> (r: Result<Vec<Skip>, SkipError>)
    ensures
        match (r, skip_settings(string_views(values@))) {
            (Ok(v), Ok(s)) => skip_views(v@) == s,
            (Err(SkipError::Unrecognised(e)), Err(f)) => e@ == f,
            _ => false,
        },
{
    let ghost vs = string_views(values@);
    let mut out: Vec<Skip> = Vec::new();
    let n = values.len();
    assert(vs.take(0) =~= Seq::<Seq<char>>::empty());
    assert(skip_views(out@) =~= Seq::empty());
    for i in 0..n
        invariant
            n == values.len(),
            vs == string_views(values@),
            vs.len() == n,
            skip_settings(vs.take(i as int)) == Ok::<Seq<Option<Seq<char>>>, Seq<char>>(skip_views(out@)),
    {
        let ghost before = skip_views(out@);
        proof {
            assert(vs.take(i + 1).drop_last() =~= vs.take(i as int));
            assert(vs.take(i + 1).last() == values@[i as int]@);
            reveal_strlit("members:all_caps");
        }
        let value = values[i].clone();
        match parse_skip_setting(value) {
            Ok(k) => {
                let ghost kv = skip_view(k);
                out.push(k);
                assert(skip_views(out@) =~= before.push(kv));
            },
            Err(e) => {
                proof {
                    lemma_skip_settings_err(vs, i + 1);
                }
                return Err(e);
            },
        }
    }
    assert(vs.take(n as int) =~= vs);
    Ok(out)
}

/// The names of the XML elements that skip settings name, in order.
pub open spec fn xml_node_skips(settings: Seq<Skip>) -> Seq<Seq<char>>
    decreases settings.len(),
{
    if settings.len() == 0 {
        Seq::empty()
    } else {
        match settings.last() {
            Skip::XmlNode(name) => xml_node_skips(settings.drop_last()).push(name@),
            Skip::MembersAllCaps => xml_node_skips(settings.drop_last()),
        }
    }
}

/// Whether the skip settings ask for members with all-caps names to be left
/// out.
pub open spec fn skips_all_caps_setting(settings: Seq<Skip>) -> bool {
    exists|i: int| 0 <= i < settings.len() && #[trigger] settings[i] is MembersAllCaps
}

impl Context {
    /// The rendering context of a project's skip settings, with no domain
    /// until a compound's language gives one: the XML elements that the
    /// settings name, and whether they skip members with all-caps names.
    pub fn from_skip_settings(settings: &Vec<Skip>) -> (r: Context)
        ensures
            r.domain is None,
            string_views(r.skip_xml_nodes@) == xml_node_skips(settings@),
            r.skip_all_caps_members == skips_all_caps_setting(settings@),
    {
        let mut nodes: Vec<String> = Vec::new();
        let mut all_caps = false;
        let n = settings.len();
        assert(string_views(nodes@) =~= xml_node_skips(settings@.take(0)));
        for i in 0..n
            invariant
                n == settings.len(),
                string_views(nodes@) == xml_node_skips(settings@.take(i as int)),
                all_caps == exists|j: int| 0 <= j < i && #[trigger] settings@[j] is MembersAllCaps,
        {
            let ghost before = string_views(nodes@);
            proof {
                assert(settings@.take(i + 1).drop_last() =~= settings@.take(i as int));
                assert(settings@.take(i + 1).last() == settings@[i as int]);
            }
            match &settings[i] {
                Skip::XmlNode(name) => {
                    let copy = name.clone();
                    nodes.push(copy);
                    assert(string_views(nodes@) =~= before.push(name@));
                },
                Skip::MembersAllCaps => {
                    all_caps = true;
                },
            }
        }
        assert(settings@.take(n as int) =~= settings@);
        Context { domain: None, skip_xml_nodes: nodes, skip_all_caps_members: all_caps }
    }
}

} // verus!
