//! Laws of rendering: what holds of every rendered document.
use vstd::prelude::*;

use crate::doxygen::compound::elements::{
    SpecCmd, SpecCompoundDef, SpecDescriptionItem, SpecDoxygen, SpecEntry, SpecEnumValue, SpecHighlightItem,
    SpecLinkedTextItem, SpecMarkupItem, SpecMemberDef, SpecParaItem, SpecParam, SpecParamListItem,
    SpecParamNameList, SpecRefType, SpecSectionDef, SpecTable, SpecTitleCmd, SpecTitleItem,
};
use crate::doxygen::compound::elements::{DoxMemberKind, DoxSectionKind};
use crate::strings::starts_with;
use crate::doxygen::nodes::{Domain, SignatureType, SpecNode, SpecTarget};
use crate::doxygen::render_rules::{
    any_heading, cat_node, cats_to_nodes, cell_nodes, codeline_nodes, col_specs, description_layout,
    highlight_nodes, inner_description, is_special, linked_nodes, listing_nodes, name_lists_nodes, others,
    para_cats, param_names_nodes, parameters_field, parameters_fields, r_cmd, r_desc_cats, r_description,
    r_entries, r_list_items, r_markup, r_para, r_param_items, r_paras, r_rows, r_table, r_title,
    r_title_items, ref_node, rows_where, specials, text, verbatim_node, SpecCat, compound_block, skipped_member,
    compound_domain, desc_block, descriptions, id_target, keyword_line, lookup, r_compound, r_enum_value,
    r_enum_values, r_inner, r_member_def, r_member_defs, r_param, r_params, r_section_def, r_section_defs,
    spec_member_kind_name, spec_section_title,
};
use crate::doxygen::text::spec_compound_kind_name;

verus! {

/// Whether no HTML-only node occurs in a node or below it.
pub open spec fn free_of_html(n: SpecNode) -> bool
    decreases n, 0int,
{
    match n {
        SpecNode::HtmlOnly(_) => false,
        SpecNode::DomainEntry(e) => all_free(e.content),
        SpecNode::Container(c) => all_free(c),
        SpecNode::Desc(c, b) => all_free(c) && free_of_html(*b),
        SpecNode::DescContent(c) => all_free(c),
        SpecNode::DescName(b) => free_of_html(*b),
        SpecNode::DescParameter(c) => all_free(c),
        SpecNode::DescParameterList(c) => all_free(c),
        SpecNode::DescSignature(_, c) => all_free(c),
        SpecNode::DescSignatureKeyword(c) => all_free(c),
        SpecNode::DescSignatureLine(c) => all_free(c),
        SpecNode::Emphasis(c) => all_free(c),
        SpecNode::Literal(c) => all_free(c),
        SpecNode::LiteralBlock(c) => all_free(c),
        SpecNode::LiteralStrong(c) => all_free(c),
        SpecNode::Paragraph(c) => all_free(c),
        SpecNode::Reference { children, .. } => all_free(children),
        SpecNode::Rubric { nodes, .. } => all_free(nodes),
        SpecNode::Strong(c) => all_free(c),
        SpecNode::Table(c) => all_free(c),
        SpecNode::TableGroup { nodes, .. } => all_free(nodes),
        SpecNode::TableHead(c) => all_free(c),
        SpecNode::TableBody(c) => all_free(c),
        SpecNode::TableRow(c) => all_free(c),
        SpecNode::TableRowEntry { nodes, .. } => all_free(nodes),
        SpecNode::FieldList(c) => all_free(c),
        SpecNode::Field(a, b) => free_of_html(*a) && free_of_html(*b),
        SpecNode::FieldName(c) => all_free(c),
        SpecNode::FieldBody(c) => all_free(c),
        SpecNode::BulletList(c) => all_free(c),
        SpecNode::EnumeratedList { items, .. } => all_free(items),
        SpecNode::ListItem(c) => all_free(c),
        SpecNode::Note(c) => all_free(c),
        SpecNode::SeeAlso(c) => all_free(c),
        SpecNode::Warning(c) => all_free(c),
        SpecNode::UnknownInline(c) => all_free(c),
        _ => true,
    }
}

/// Whether no HTML-only node occurs in any of the nodes or below them.
pub open spec fn all_free(s: Seq<SpecNode>) -> bool
    decreases s, 0int,
{
    s.len() == 0 || (all_free(s.drop_last()) && free_of_html(s.last()))
}

/// Whether no HTML-only node occurs in any of the categorized nodes.
pub open spec fn cats_free(s: Seq<SpecCat>) -> bool
    decreases s.len(),
{
    s.len() == 0 || (cats_free(s.drop_last()) && free_of_html(cat_node(s.last())))
}

proof fn lemma_all_free_add(a: Seq<SpecNode>, b: Seq<SpecNode>)
    ensures
        all_free(a + b) == (all_free(a) && all_free(b)),
    decreases b.len(),
{
    if b.len() == 0 {
        assert(a + b =~= a);
    } else {
        assert((a + b).drop_last() =~= a + b.drop_last());
        assert((a + b).last() == b.last());
        lemma_all_free_add(a, b.drop_last());
    }
}

proof fn lemma_all_free_push(a: Seq<SpecNode>, x: SpecNode)
    ensures
        all_free(a.push(x)) == (all_free(a) && free_of_html(x)),
{
    assert(a.push(x).drop_last() =~= a);
}

proof fn lemma_cats_free_add(a: Seq<SpecCat>, b: Seq<SpecCat>)
    ensures
        cats_free(a + b) == (cats_free(a) && cats_free(b)),
    decreases b.len(),
{
    if b.len() == 0 {
        assert(a + b =~= a);
    } else {
        assert((a + b).drop_last() =~= a + b.drop_last());
        assert((a + b).last() == b.last());
        lemma_cats_free_add(a, b.drop_last());
    }
}

proof fn lemma_cats_to_nodes(s: Seq<SpecCat>)
    ensures
        all_free(cats_to_nodes(s)) == cats_free(s),
    decreases s.len(),
{
    if s.len() > 0 {
        lemma_cats_to_nodes(s.drop_last());
        lemma_all_free_push(cats_to_nodes(s.drop_last()), cat_node(s.last()));
    }
}

proof fn lemma_specials_others(s: Seq<SpecCat>)
    requires
        cats_free(s),
    ensures
        cats_free(specials(s)),
        cats_free(others(s)),
    decreases s.len(),
{
    if s.len() > 0 {
        lemma_specials_others(s.drop_last());
        assert(specials(s.drop_last()).push(s.last()).drop_last() =~= specials(s.drop_last()));
        assert(others(s.drop_last()).push(s.last()).drop_last() =~= others(s.drop_last()));
    }
}

proof fn lemma_parameters_fields(s: Seq<SpecCat>)
    requires
        cats_free(s),
    ensures
        all_free(parameters_fields(s)),
    decreases s.len(),
{
    if s.len() > 0 {
        lemma_parameters_fields(s.drop_last());
        if is_special(s.last()) {
            let f = parameters_field(s.last());
            lemma_single(text("Parameters"@));
            lemma_single(cat_node(s.last()));
            assert(free_of_html(SpecNode::FieldName(seq![text("Parameters"@)])));
            assert(free_of_html(SpecNode::FieldBody(seq![cat_node(s.last())])));
            assert(free_of_html(f));
            lemma_all_free_push(parameters_fields(s.drop_last()), f);
        }
    }
}

proof fn lemma_description_layout(cats: Seq<SpecCat>)
    requires
        cats_free(cats),
    ensures
        all_free(description_layout(cats)),
{
    lemma_specials_others(cats);
    lemma_cats_to_nodes(others(cats));
    if specials(cats).len() > 0 {
        lemma_parameters_fields(specials(cats));
        lemma_all_free_push(cats_to_nodes(others(cats)), SpecNode::FieldList(parameters_fields(specials(cats))));
    }
}

proof fn lemma_para_cats(cats: Seq<SpecCat>)
    requires
        cats_free(cats),
    ensures
        cats_free(para_cats(cats)),
{
    lemma_specials_others(cats);
    if others(cats).len() > 0 {
        lemma_cats_to_nodes(others(cats));
        let x = SpecCat::Node(SpecNode::Paragraph(cats_to_nodes(others(cats))));
        assert(specials(cats).push(x).drop_last() =~= specials(cats));
    }
}

proof fn lemma_linked_nodes(s: Seq<SpecLinkedTextItem>)
    ensures
        all_free(linked_nodes(s)),
    decreases s.len(),
{
    if s.len() > 0 {
        lemma_linked_nodes(s.drop_last());
        let last = match s.last() {
            SpecLinkedTextItem::Ref(r) => ref_node(r),
            SpecLinkedTextItem::Text(t) => text(t),
        };
        lemma_all_free_push(linked_nodes(s.drop_last()), last);
        match s.last() {
            SpecLinkedTextItem::Ref(r) => {
                lemma_all_free_push(Seq::empty(), SpecNode::DescSignatureName(r.content));
                assert(Seq::<SpecNode>::empty().push(SpecNode::DescSignatureName(r.content)) =~= seq![
                    SpecNode::DescSignatureName(r.content),
                ]);
            },
            _ => {},
        }
    }
}

proof fn lemma_param_names_nodes(s: Seq<Seq<SpecLinkedTextItem>>)
    ensures
        all_free(param_names_nodes(s)),
    decreases s.len(),
{
    if s.len() > 0 {
        lemma_param_names_nodes(s.drop_last());
        lemma_linked_nodes(s.last());
        lemma_all_free_add(param_names_nodes(s.drop_last()), linked_nodes(s.last()));
    }
}

proof fn lemma_name_lists_nodes(s: Seq<SpecParamNameList>)
    ensures
        all_free(name_lists_nodes(s)),
    decreases s.len(),
{
    if s.len() > 0 {
        lemma_name_lists_nodes(s.drop_last());
        lemma_param_names_nodes(s.last().parameter_name);
        lemma_all_free_add(name_lists_nodes(s.drop_last()), param_names_nodes(s.last().parameter_name));
    }
}

proof fn lemma_highlight_nodes(s: Seq<SpecHighlightItem>)
    ensures
        all_free(highlight_nodes(s)),
    decreases s.len(),
{
    if s.len() > 0 {
        lemma_highlight_nodes(s.drop_last());
        let last = match s.last() {
            SpecHighlightItem::Sp => text(" "@),
            SpecHighlightItem::Ref(r) => ref_node(r),
            SpecHighlightItem::Text(t) => text(t),
        };
        lemma_all_free_push(highlight_nodes(s.drop_last()), last);
        match s.last() {
            SpecHighlightItem::Ref(r) => {
                lemma_all_free_push(Seq::empty(), SpecNode::DescSignatureName(r.content));
                assert(Seq::<SpecNode>::empty().push(SpecNode::DescSignatureName(r.content)) =~= seq![
                    SpecNode::DescSignatureName(r.content),
                ]);
            },
            _ => {},
        }
    }
}

proof fn lemma_codeline_nodes(s: Seq<Seq<SpecHighlightItem>>)
    ensures
        all_free(codeline_nodes(s)),
    decreases s.len(),
{
    if s.len() > 0 {
        lemma_codeline_nodes(s.drop_last());
        lemma_highlight_nodes(s.last());
        lemma_all_free_add(codeline_nodes(s.drop_last()), highlight_nodes(s.last()));
    }
}

proof fn lemma_listing_nodes(s: Seq<Seq<Seq<SpecHighlightItem>>>)
    ensures
        all_free(listing_nodes(s)),
    decreases s.len(),
{
    if s.len() == 1 {
        lemma_codeline_nodes(s[0]);
    } else if s.len() > 1 {
        lemma_listing_nodes(s.drop_last());
        lemma_codeline_nodes(s.last());
        lemma_all_free_push(Seq::empty(), text("\n"@));
        assert(Seq::<SpecNode>::empty().push(text("\n"@)) =~= seq![text("\n"@)]);
        lemma_all_free_add(listing_nodes(s.drop_last()), seq![text("\n"@)]);
        lemma_all_free_add(listing_nodes(s.drop_last()) + seq![text("\n"@)], codeline_nodes(s.last()));
    }
}

proof fn lemma_single(x: SpecNode)
    ensures
        all_free(seq![x]) == free_of_html(x),
{
    lemma_all_free_push(Seq::empty(), x);
    assert(Seq::<SpecNode>::empty().push(x) =~= seq![x]);
}

proof fn lemma_inner_description(nodes: Seq<SpecNode>)
    requires
        all_free(nodes),
    ensures
        all_free(inner_description(nodes)),
{
    if nodes.len() == 1 && nodes[0] is Paragraph {
        assert(nodes =~= seq![nodes[0]]);
        lemma_single(nodes[0]);
    }
}

proof fn lemma_col_specs(n: int)
    ensures
        all_free(col_specs(n)),
    decreases n,
{
    if n > 0 {
        lemma_col_specs(n - 1);
        lemma_all_free_push(col_specs(n - 1), SpecNode::TableColSpec { colwidth: "auto"@ });
    }
}

/// Whether the nodes of table cells or rows are free of HTML-only nodes.
pub open spec fn pairs_free(s: Seq<(bool, SpecNode)>) -> bool
    decreases s.len(),
{
    s.len() == 0 || (pairs_free(s.drop_last()) && free_of_html(s.last().1))
}

proof fn lemma_rows_where(s: Seq<(bool, SpecNode)>, heading: bool)
    requires
        pairs_free(s),
    ensures
        all_free(rows_where(s, heading)),
        all_free(cell_nodes(s)),
    decreases s.len(),
{
    if s.len() > 0 {
        lemma_rows_where(s.drop_last(), heading);
        lemma_all_free_push(rows_where(s.drop_last(), heading), s.last().1);
        lemma_all_free_push(cell_nodes(s.drop_last()), s.last().1);
    }
}

proof fn lemma_verbatim(t: Seq<char>)
    ensures
        free_of_html(verbatim_node(t)),
{
    lemma_single(text(t));
}

// ---------------------------------------------------------------------------
// The documentation blocks, with `htmlonly` skipped

proof fn lemma_title(c: SpecTitleCmd)
    ensures
        r_title(true, c) matches Some(n) ==> free_of_html(n),
    decreases c, 0int,
{
    match c {
        SpecTitleCmd::Ref(_, items) => {
            lemma_title_items(items);
        },
        SpecTitleCmd::Ulink(_, items) => {
            lemma_title_items(items);
        },
        SpecTitleCmd::Markup(_, items) => {
            lemma_markup(items);
            lemma_cats_to_nodes(r_markup(true, items));
        },
        _ => {},
    }
}

proof fn lemma_title_items(s: Seq<SpecTitleItem>)
    ensures
        all_free(r_title_items(true, s)),
    decreases s, 0int,
{
    if s.len() > 0 {
        lemma_title_items(s.drop_last());
        match s.last() {
            SpecTitleItem::DocTitleCmdGroup(c) => {
                lemma_title(c);
                match r_title(true, c) {
                    Some(n) => lemma_all_free_push(r_title_items(true, s.drop_last()), n),
                    None => {},
                }
            },
            SpecTitleItem::Text(t) => lemma_all_free_push(r_title_items(true, s.drop_last()), text(t)),
        }
    }
}

proof fn lemma_markup(s: Seq<SpecMarkupItem>)
    ensures
        cats_free(r_markup(true, s)),
    decreases s, 0int,
{
    if s.len() > 0 {
        lemma_markup(s.drop_last());
        let rest = r_markup(true, s.drop_last());
        match s.last() {
            SpecMarkupItem::DocCmdGroup(c) => {
                lemma_cmd(c);
                match r_cmd(true, c) {
                    Some(n) => assert(rest.push(n).drop_last() =~= rest),
                    None => {},
                }
            },
            SpecMarkupItem::Text(t) => assert(rest.push(SpecCat::Node(text(t))).drop_last() =~= rest),
        }
    }
}

proof fn lemma_para(s: Seq<SpecParaItem>)
    ensures
        cats_free(r_para(true, s)),
    decreases s, 0int,
{
    if s.len() > 0 {
        lemma_para(s.drop_last());
        let rest = r_para(true, s.drop_last());
        match s.last() {
            SpecParaItem::DocCmdGroup(c) => {
                lemma_cmd(c);
                match r_cmd(true, c) {
                    Some(n) => assert(rest.push(n).drop_last() =~= rest),
                    None => {},
                }
            },
            SpecParaItem::Text(t) => assert(rest.push(SpecCat::Node(text(t))).drop_last() =~= rest),
        }
    }
}

proof fn lemma_paras(s: Seq<Seq<SpecParaItem>>)
    ensures
        all_free(r_paras(true, s)),
    decreases s, 0int,
{
    if s.len() > 0 {
        lemma_paras(s.drop_last());
        lemma_para(s.last());
        lemma_cats_to_nodes(r_para(true, s.last()));
        lemma_all_free_push(r_paras(true, s.drop_last()), SpecNode::Paragraph(cats_to_nodes(r_para(true, s.last()))));
    }
}

proof fn lemma_list_items(s: Seq<Seq<Seq<SpecParaItem>>>)
    ensures
        all_free(r_list_items(true, s)),
    decreases s, 0int,
{
    if s.len() > 0 {
        lemma_list_items(s.drop_last());
        lemma_paras(s.last());
        lemma_all_free_push(r_list_items(true, s.drop_last()), SpecNode::ListItem(r_paras(true, s.last())));
    }
}

proof fn lemma_desc_cats(s: Seq<SpecDescriptionItem>)
    ensures
        cats_free(r_desc_cats(true, s)),
    decreases s, 0int,
{
    if s.len() > 0 {
        lemma_desc_cats(s.drop_last());
        match s.last() {
            SpecDescriptionItem::Para(p) => {
                lemma_para(p);
                lemma_para_cats(r_para(true, p));
                lemma_cats_free_add(r_desc_cats(true, s.drop_last()), para_cats(r_para(true, p)));
            },
            SpecDescriptionItem::Text(_) => {},
        }
    }
}

proof fn lemma_description(s: Seq<SpecDescriptionItem>)
    ensures
        all_free(r_description(true, s)),
    decreases s, 1int,
{
    lemma_desc_cats(s);
    lemma_description_layout(r_desc_cats(true, s));
}

proof fn lemma_param_items(s: Seq<SpecParamListItem>)
    ensures
        all_free(r_param_items(true, s)),
    decreases s, 0int,
{
    if s.len() > 0 {
        let item = s.last();
        lemma_param_items(s.drop_last());
        lemma_description(item.parameter_description);
        lemma_inner_description(r_description(true, item.parameter_description));
        lemma_name_lists_nodes(item.parameter_name_list);
        let head = seq![SpecNode::LiteralStrong(name_lists_nodes(item.parameter_name_list)), text(" - "@)];
        lemma_all_free_push(Seq::empty(), head[0]);
        lemma_all_free_push(seq![head[0]], head[1]);
        assert(Seq::<SpecNode>::empty().push(head[0]) =~= seq![head[0]]);
        assert(seq![head[0]].push(head[1]) =~= head);
        let inner = inner_description(r_description(true, item.parameter_description));
        lemma_all_free_add(head, inner);
        lemma_single(SpecNode::Paragraph(head + inner));
        lemma_all_free_push(r_param_items(true, s.drop_last()), SpecNode::ListItem(seq![SpecNode::Paragraph(head + inner)]));
    }
}

proof fn lemma_entries(s: Seq<SpecEntry>)
    ensures
        pairs_free(r_entries(true, s)),
    decreases s, 0int,
{
    if s.len() > 0 {
        lemma_entries(s.drop_last());
        lemma_paras(s.last().para);
        let heading = s.last().thead == crate::doxygen::compound::elements::DoxBool::Yes;
        let x = (heading, SpecNode::TableRowEntry { heading, nodes: r_paras(true, s.last().para) });
        assert(r_entries(true, s.drop_last()).push(x).drop_last() =~= r_entries(true, s.drop_last()));
    }
}

proof fn lemma_rows(s: Seq<Seq<SpecEntry>>)
    ensures
        pairs_free(r_rows(true, s)),
    decreases s, 0int,
{
    if s.len() > 0 {
        lemma_rows(s.drop_last());
        let cells = r_entries(true, s.last());
        lemma_entries(s.last());
        lemma_rows_where(cells, true);
        let x = (any_heading(cells), SpecNode::TableRow(cell_nodes(cells)));
        assert(r_rows(true, s.drop_last()).push(x).drop_last() =~= r_rows(true, s.drop_last()));
    }
}

proof fn lemma_table(t: SpecTable)
    ensures
        free_of_html(r_table(true, t)),
    decreases t, 0int,
{
    let rows = r_rows(true, t.row);
    lemma_rows(t.row);
    lemma_rows_where(rows, true);
    lemma_rows_where(rows, false);
    lemma_col_specs(t.cols as int);
    let nodes = col_specs(t.cols as int).push(SpecNode::TableHead(rows_where(rows, true)));
    lemma_all_free_push(col_specs(t.cols as int), SpecNode::TableHead(rows_where(rows, true)));
    lemma_all_free_push(nodes, SpecNode::TableBody(rows_where(rows, false)));
    lemma_single(SpecNode::TableGroup { cols: t.cols, nodes: nodes.push(SpecNode::TableBody(rows_where(rows, false))) });
}

proof fn lemma_cmd(c: SpecCmd)
    ensures
        r_cmd(true, c) matches Some(k) ==> free_of_html(cat_node(k)),
    decreases c, 0int,
{
    match c {
        SpecCmd::Title(t) => {
            lemma_title(t);
            match r_title(true, t) {
                Some(n) => {
                    assert(r_cmd(true, c) == Some(SpecCat::Node(n)));
                    assert(free_of_html(n));
                    assert(cat_node(SpecCat::Node(n)) == n);
                },
                None => assert(r_cmd(true, c) is None),
            }
        },
        SpecCmd::ParameterList(items) => lemma_param_items(items),
        SpecCmd::Simplesect(_, paras) => lemma_paras(paras),
        SpecCmd::ItemizedList(items) => lemma_list_items(items),
        SpecCmd::OrderedList(items) => lemma_list_items(items),
        SpecCmd::ProgramListing(lines) => lemma_listing_nodes(lines),
        SpecCmd::Verbatim(t) => lemma_verbatim(t),
        SpecCmd::Xrefsect(x) => {
            lemma_description(x.xrefdescription);
            let e = SpecNode::Emphasis(seq![text(x.xreftitle.push(':'))]);
            lemma_single(text(x.xreftitle.push(':')));
            lemma_single(e);
            let sig = SpecNode::DescSignature(crate::doxygen::nodes::SignatureType::MultiLine, seq![e]);
            lemma_single(sig);
            let body = SpecNode::DescContent(r_description(true, x.xrefdescription));
            assert(free_of_html(body));
            assert(free_of_html(SpecNode::Desc(seq![sig], Box::new(body))));
        },
        SpecCmd::Preformatted(items) => {
            lemma_markup(items);
            lemma_cats_to_nodes(r_markup(true, items));
        },
        SpecCmd::Table(t) => lemma_table(t),
    }
}

/// With `htmlonly` elements skipped, no HTML-only node occurs anywhere in a
/// rendered description.
pub proof fn law_skipped_htmlonly_description(s: Seq<SpecDescriptionItem>)
    ensures
        all_free(r_description(true, s)),
{
    lemma_description(s);
}

// ---------------------------------------------------------------------------
// Members, sections and compounds, with `htmlonly` skipped

proof fn lemma_pair(a: SpecNode, b: SpecNode)
    ensures
        all_free(seq![a, b]) == (free_of_html(a) && free_of_html(b)),
{
    lemma_single(a);
    lemma_all_free_push(seq![a], b);
    assert(seq![a].push(b) =~= seq![a, b]);
}

proof fn lemma_descriptions(brief: Option<Seq<SpecDescriptionItem>>, detailed: Option<Seq<SpecDescriptionItem>>)
    ensures
        all_free(descriptions(true, brief, detailed)),
{
    let b = match brief {
        Some(d) => r_description(true, d),
        None => Seq::empty(),
    };
    let d = match detailed {
        Some(d) => r_description(true, d),
        None => Seq::empty(),
    };
    match brief {
        Some(x) => lemma_description(x),
        None => {},
    }
    match detailed {
        Some(x) => lemma_description(x),
        None => {},
    }
    lemma_all_free_add(b, d);
}

proof fn lemma_desc_block(line: Seq<SpecNode>, content: Seq<SpecNode>)
    requires
        all_free(line),
        all_free(content),
    ensures
        free_of_html(desc_block(line, content)),
{
    let line_node = SpecNode::DescSignatureLine(line);
    lemma_single(line_node);
    let sig = SpecNode::DescSignature(SignatureType::MultiLine, seq![line_node]);
    lemma_single(sig);
    assert(free_of_html(SpecNode::DescContent(content)));
}

proof fn lemma_keyword_line(target: SpecTarget, keyword: Seq<SpecNode>, name: Seq<char>)
    requires
        all_free(keyword),
    ensures
        all_free(keyword_line(target, keyword, name)),
{
    let a = SpecNode::Target(target);
    let b = SpecNode::DescSignatureKeyword(keyword);
    let c = SpecNode::DescSignatureSpace;
    let d = SpecNode::DescName(Box::new(SpecNode::DescSignatureName(name)));
    assert(free_of_html(SpecNode::DescSignatureName(name)));
    assert(free_of_html(d));
    assert(free_of_html(b));
    assert(free_of_html(a));
    assert(free_of_html(c));
    lemma_pair(a, b);
    lemma_pair(c, d);
    lemma_all_free_add(seq![a, b], seq![c, d]);
    assert(seq![a, b] + seq![c, d] =~= keyword_line(target, keyword, name));
}

proof fn lemma_enum_values(domain: Option<Domain>, enum_name: Seq<char>, s: Seq<SpecEnumValue>)
    ensures
        all_free(r_enum_values(domain, true, enum_name, s)),
    decreases s.len(),
{
    if s.len() > 0 {
        lemma_enum_values(domain, enum_name, s.drop_last());
        let v = s.last();
        lemma_descriptions(v.brief_description, v.detailed_description);
        let name = SpecNode::DescName(Box::new(SpecNode::DescSignatureName(v.name)));
        assert(free_of_html(SpecNode::DescSignatureName(v.name)));
        assert(free_of_html(name));
        lemma_single(name);
        match domain {
            Some(_) => {},
            None => lemma_desc_block(seq![name], descriptions(true, v.brief_description, v.detailed_description)),
        }
        lemma_all_free_push(r_enum_values(domain, true, enum_name, s.drop_last()), r_enum_value(domain, true, enum_name, v));
    }
}

proof fn lemma_params(s: Seq<SpecParam>)
    ensures
        all_free(r_params(s)),
    decreases s.len(),
{
    if s.len() > 0 {
        lemma_params(s.drop_last());
        let p = s.last();
        match p.declname {
            Some(n) => assert(free_of_html(SpecNode::DescSignatureName(n))),
            None => {},
        }
        assert(free_of_html(SpecNode::DescSignatureSpace));
        match (p.type_, p.declname) {
            (Some(t), Some(n)) => {
                lemma_linked_nodes(t);
                lemma_pair(SpecNode::DescSignatureSpace, SpecNode::DescSignatureName(n));
                lemma_all_free_add(linked_nodes(t), seq![SpecNode::DescSignatureSpace, SpecNode::DescSignatureName(n)]);
            },
            (Some(t), None) => lemma_linked_nodes(t),
            (None, Some(n)) => lemma_single(SpecNode::DescSignatureName(n)),
            (None, None) => {},
        }
        assert(free_of_html(r_param(p)));
        lemma_all_free_push(r_params(s.drop_last()), r_param(p));
    }
}

proof fn lemma_member_def(domain: Option<Domain>, m: SpecMemberDef)
    ensures
        free_of_html(r_member_def(domain, true, m)),
{
    let content = descriptions(true, m.brief_description, m.detailed_description);
    lemma_descriptions(m.brief_description, m.detailed_description);
    let target = id_target(m.id);
    lemma_single(text(spec_member_kind_name(m.kind)));
    lemma_keyword_line(target, seq![text(spec_member_kind_name(m.kind))], m.name);
    let kind_line = keyword_line(target, seq![text(spec_member_kind_name(m.kind))], m.name);
    match m.kind {
        DoxMemberKind::Enum => {
            lemma_enum_values(domain, m.name, m.enumvalue);
            lemma_all_free_add(content, r_enum_values(domain, true, m.name, m.enumvalue));
            match domain {
                Some(_) => {},
                None => lemma_desc_block(kind_line, content + r_enum_values(domain, true, m.name, m.enumvalue)),
            }
        },
        DoxMemberKind::Function => match domain {
            Some(_) => {},
            None => {
                lemma_params(m.param);
                let plist = SpecNode::DescParameterList(r_params(m.param));
                match m.type_ {
                    Some(t) => {
                        lemma_linked_nodes(t);
                        lemma_keyword_line(target, linked_nodes(t), m.name);
                        lemma_all_free_push(keyword_line(target, linked_nodes(t), m.name), plist);
                        lemma_desc_block(keyword_line(target, linked_nodes(t), m.name).push(plist), content);
                    },
                    None => {
                        let a = SpecNode::Target(target);
                        let b = SpecNode::DescName(Box::new(SpecNode::DescSignatureName(m.name)));
                        lemma_pair(a, b);
                        lemma_all_free_push(seq![a, b], plist);
                        assert(seq![a, b].push(plist) =~= seq![a, b, plist]);
                        lemma_desc_block(seq![a, b, plist], content);
                    },
                }
            },
        },
        _ => lemma_desc_block(kind_line, content),
    }
}

proof fn lemma_member_defs(domain: Option<Domain>, caps: bool, s: Seq<SpecMemberDef>)
    ensures
        all_free(r_member_defs(domain, true, caps, s)),
    decreases s.len(),
{
    if s.len() > 0 {
        lemma_member_defs(domain, caps, s.drop_last());
        lemma_member_def(domain, s.last());
        if !skipped_member(caps, s.last()) {
            lemma_all_free_push(r_member_defs(domain, true, caps, s.drop_last()), r_member_def(domain, true, s.last()));
        }
    }
}

proof fn lemma_section_defs(domain: Option<Domain>, caps: bool, s: Seq<SpecSectionDef>)
    ensures
        all_free(r_section_defs(domain, true, caps, s)),
    decreases s.len(),
{
    if s.len() > 0 {
        lemma_section_defs(domain, caps, s.drop_last());
        let sec = s.last();
        let title = text(spec_section_title(sec.kind));
        lemma_single(title);
        let rubric = SpecNode::Rubric { classes: Seq::empty(), nodes: seq![title] };
        lemma_single(rubric);
        lemma_member_defs(domain, caps, sec.member_defs);
        lemma_all_free_add(seq![rubric], r_member_defs(domain, true, caps, sec.member_defs));
        assert(free_of_html(r_section_def(domain, true, caps, sec)));
        lemma_all_free_push(r_section_defs(domain, true, caps, s.drop_last()), r_section_def(domain, true, caps, sec));
    }
}

proof fn lemma_compound_block(domain: Option<Domain>, c: SpecCompoundDef, content: Seq<SpecNode>)
    requires
        all_free(content),
    ensures
        free_of_html(compound_block(domain, c, content)),
{
    let keyword = seq![text(spec_compound_kind_name(c.kind))];
    lemma_single(text(spec_compound_kind_name(c.kind)));
    lemma_keyword_line(id_target(c.id), keyword, c.compound_name);
    lemma_desc_block(keyword_line(id_target(c.id), keyword, c.compound_name), content);
}

proof fn lemma_compound(
    caps: bool,
    root: SpecDoxygen,
    inner_groups: bool,
    store: Seq<(Seq<char>, SpecDoxygen)>,
    fuel: nat,
)
    ensures
        r_compound(true, caps, root, inner_groups, store, fuel) matches Ok(nodes) ==> all_free(nodes),
    decreases fuel, 1int, 0int,
{
    match root.compound_def {
        None => {},
        Some(c) => {
            let domain = compound_domain(c);
            let desc = descriptions(true, c.brief_description, c.detailed_description);
            lemma_descriptions(c.brief_description, c.detailed_description);
            lemma_inner(caps, c.innerclass, inner_groups, store, fuel);
            if inner_groups {
                lemma_inner(caps, c.innergroup, inner_groups, store, fuel);
            }
            match r_inner(true, caps, c.innerclass, inner_groups, store, fuel) {
                Err(_) => {},
                Ok(classes) => {
                    let groups = if inner_groups {
                        r_inner(true, caps, c.innergroup, inner_groups, store, fuel)
                    } else {
                        Ok(Seq::empty())
                    };
                    match groups {
                        Err(_) => {},
                        Ok(groups) => {
                            lemma_section_defs(domain, caps, c.section_defs);
                            let sections = r_section_defs(domain, true, caps, c.section_defs);
                            lemma_all_free_add(desc, classes);
                            lemma_all_free_add(desc + classes, groups);
                            lemma_all_free_add(desc + classes + groups, sections);
                            lemma_compound_block(domain, c, desc + classes + groups + sections);
                            lemma_single(compound_block(domain, c, desc + classes + groups + sections));
                        },
                    }
                },
            }
        },
    }
}

proof fn lemma_inner(
    caps: bool,
    refs: Seq<SpecRefType>,
    inner_groups: bool,
    store: Seq<(Seq<char>, SpecDoxygen)>,
    fuel: nat,
)
    ensures
        r_inner(true, caps, refs, inner_groups, store, fuel) matches Ok(nodes) ==> all_free(nodes),
    decreases fuel, 0int, refs.len(),
{
    if refs.len() > 0 {
        lemma_inner(caps, refs.drop_last(), inner_groups, store, fuel);
        match r_inner(true, caps, refs.drop_last(), inner_groups, store, fuel) {
            Err(_) => {},
            Ok(before) => match lookup(store, refs.last().refid) {
                None => {},
                Some(root) => if fuel > 0 {
                    lemma_compound(caps, root, inner_groups, store, (fuel - 1) as nat);
                    match r_compound(true, caps, root, inner_groups, store, (fuel - 1) as nat) {
                        Err(_) => {},
                        Ok(nodes) => lemma_all_free_add(before, nodes),
                    }
                },
            },
        }
    }
}

/// With `htmlonly` elements skipped, no HTML-only node occurs anywhere in the
/// rendering of a compound, its inner compounds included.
pub proof fn law_skipped_htmlonly_compound(
    caps: bool,
    root: SpecDoxygen,
    inner_groups: bool,
    store: Seq<(Seq<char>, SpecDoxygen)>,
    fuel: nat,
)
    ensures
        r_compound(true, caps, root, inner_groups, store, fuel) matches Ok(nodes) ==> all_free(nodes),
{
    lemma_compound(caps, root, inner_groups, store, fuel);
}

// ---------------------------------------------------------------------------
// Members with all-caps names

/// The members that skipping members with all-caps names keeps, in order.
pub open spec fn kept_members(s: Seq<SpecMemberDef>) -> Seq<SpecMemberDef>
    decreases s.len(),
{
    if s.len() == 0 {
        Seq::empty()
    } else if skipped_member(true, s.last()) {
        kept_members(s.drop_last())
    } else {
        kept_members(s.drop_last()).push(s.last())
    }
}

/// With members whose names are all capital letters skipped, a section
/// renders exactly its other members, in order, as they render when nothing
/// is skipped: every function and variable with such a name is left out, and
/// nothing else is.
pub proof fn law_all_caps_members_skipped(domain: Option<Domain>, skip: bool, s: Seq<SpecMemberDef>)
    ensures
        r_member_defs(domain, skip, true, s) == r_member_defs(domain, skip, false, kept_members(s)),
        forall|i: int| 0 <= i < kept_members(s).len() ==> !skipped_member(true, #[trigger] kept_members(s)[i]),
    decreases s.len(),
{
    if s.len() > 0 {
        law_all_caps_members_skipped(domain, skip, s.drop_last());
        let kept = kept_members(s.drop_last());
        if !skipped_member(true, s.last()) {
            assert(kept.push(s.last()).drop_last() =~= kept);
            assert(kept.push(s.last()).last() == s.last());
            assert forall|i: int| 0 <= i < kept.push(s.last()).len() implies !skipped_member(
                true,
                #[trigger] kept.push(s.last())[i],
            ) by {
                if i < kept.len() {
                    assert(kept.push(s.last())[i] == kept[i]);
                }
            }
        }
    }
}

// ---------------------------------------------------------------------------
// Section titles

/// Different kinds of section get different titles, so no section is
/// presented as one of another kind (private attributes as public ones, say).
pub proof fn law_section_titles_differ(k1: DoxSectionKind, k2: DoxSectionKind)
    ensures
        k1 != k2 ==> spec_section_title(k1) != spec_section_title(k2),
{
    reveal_strlit("UserDefined");
    assert("UserDefined"@.len() == 11 && "UserDefined"@[1] == 's' && "UserDefined"@[9] == 'e');
    reveal_strlit("Public Types");
    assert("Public Types"@.len() == 12 && "Public Types"@[1] == 'u' && "Public Types"@[9] == 'p');
    reveal_strlit("Public Functions");
    assert("Public Functions"@.len() == 16 && "Public Functions"@[1] == 'u' && "Public Functions"@[9] == 'n');
    reveal_strlit("Public Attributes");
    assert("Public Attributes"@.len() == 17 && "Public Attributes"@[1] == 'u' && "Public Attributes"@[9] == 't');
    reveal_strlit("PublicSlot");
    assert("PublicSlot"@.len() == 10 && "PublicSlot"@[1] == 'u' && "PublicSlot"@[9] == 't');
    reveal_strlit("Signal");
    assert("Signal"@.len() == 6 && "Signal"@[1] == 'i');
    reveal_strlit("DcopFunc");
    assert("DcopFunc"@.len() == 8 && "DcopFunc"@[1] == 'c');
    reveal_strlit("Property");
    assert("Property"@.len() == 8 && "Property"@[1] == 'r');
    reveal_strlit("Event");
    assert("Event"@.len() == 5 && "Event"@[1] == 'v');
    reveal_strlit("PublicStaticFunc");
    assert("PublicStaticFunc"@.len() == 16 && "PublicStaticFunc"@[1] == 'u' && "PublicStaticFunc"@[9] == 't');
    reveal_strlit("Public Static Attributes");
    assert("Public Static Attributes"@.len() == 24 && "Public Static Attributes"@[1] == 'u' && "Public Static Attributes"@[9] == 'a');
    reveal_strlit("ProtectedType");
    assert("ProtectedType"@.len() == 13 && "ProtectedType"@[1] == 'r' && "ProtectedType"@[9] == 'T');
    reveal_strlit("ProtectedFunc");
    assert("ProtectedFunc"@.len() == 13 && "ProtectedFunc"@[1] == 'r' && "ProtectedFunc"@[9] == 'F');
    reveal_strlit("Protected Attributes");
    assert("Protected Attributes"@.len() == 20 && "Protected Attributes"@[1] == 'r' && "Protected Attributes"@[9] == ' ');
    reveal_strlit("ProtectedSlot");
    assert("ProtectedSlot"@.len() == 13 && "ProtectedSlot"@[1] == 'r' && "ProtectedSlot"@[9] == 'S');
    reveal_strlit("ProtectedStaticFunc");
    assert("ProtectedStaticFunc"@.len() == 19 && "ProtectedStaticFunc"@[1] == 'r' && "ProtectedStaticFunc"@[9] == 'S');
    reveal_strlit("ProtectedStatic Attributes");
    assert("ProtectedStatic Attributes"@.len() == 26 && "ProtectedStatic Attributes"@[1] == 'r' && "ProtectedStatic Attributes"@[9] == 'S');
    reveal_strlit("PackageType");
    assert("PackageType"@.len() == 11 && "PackageType"@[1] == 'a' && "PackageType"@[9] == 'p');
    reveal_strlit("PackageFunc");
    assert("PackageFunc"@.len() == 11 && "PackageFunc"@[1] == 'a' && "PackageFunc"@[9] == 'n');
    reveal_strlit("Package Attributes");
    assert("Package Attributes"@.len() == 18 && "Package Attributes"@[1] == 'a' && "Package Attributes"@[9] == 't');
    reveal_strlit("PackageStaticFunc");
    assert("PackageStaticFunc"@.len() == 17 && "PackageStaticFunc"@[1] == 'a' && "PackageStaticFunc"@[9] == 'a');
    reveal_strlit("PackageStatic Attributes");
    assert("PackageStatic Attributes"@.len() == 24 && "PackageStatic Attributes"@[1] == 'a' && "PackageStatic Attributes"@[9] == 'a');
    reveal_strlit("PrivateType");
    assert("PrivateType"@.len() == 11 && "PrivateType"@[1] == 'r' && "PrivateType"@[9] == 'p');
    reveal_strlit("PrivateFunc");
    assert("PrivateFunc"@.len() == 11 && "PrivateFunc"@[1] == 'r' && "PrivateFunc"@[9] == 'n');
    reveal_strlit("Private Attributes");
    assert("Private Attributes"@.len() == 18 && "Private Attributes"@[1] == 'r' && "Private Attributes"@[9] == 't');
    reveal_strlit("PrivateSlot");
    assert("PrivateSlot"@.len() == 11 && "PrivateSlot"@[1] == 'r' && "PrivateSlot"@[9] == 'o');
    reveal_strlit("PrivateStaticFunc");
    assert("PrivateStaticFunc"@.len() == 17 && "PrivateStaticFunc"@[1] == 'r' && "PrivateStaticFunc"@[9] == 'a');
    reveal_strlit("PrivateStatic Attributes");
    assert("PrivateStatic Attributes"@.len() == 24 && "PrivateStatic Attributes"@[1] == 'r' && "PrivateStatic Attributes"@[9] == 'a');
    reveal_strlit("Friend");
    assert("Friend"@.len() == 6 && "Friend"@[1] == 'r');
    reveal_strlit("Related");
    assert("Related"@.len() == 7 && "Related"@[1] == 'e');
    reveal_strlit("Define");
    assert("Define"@.len() == 6 && "Define"@[1] == 'e');
    reveal_strlit("Prototype");
    assert("Prototype"@.len() == 9 && "Prototype"@[1] == 'r');
    reveal_strlit("Typedef");
    assert("Typedef"@.len() == 7 && "Typedef"@[1] == 'y');
    reveal_strlit("Enum");
    assert("Enum"@.len() == 4 && "Enum"@[1] == 'n');
    reveal_strlit("Func");
    assert("Func"@.len() == 4 && "Func"@[1] == 'u');
    reveal_strlit("Var");
    assert("Var"@.len() == 3 && "Var"@[1] == 'a');
}

/// The title of a section names the protection that its kind's name in the
/// XML gives: a kind read from `private-...` has a title that starts with
/// `Private`, and only such a kind; likewise `public-`, `protected-` and
/// `package-` with `Public`, `Protected` and `Package`.
pub proof fn law_section_title_names_protection(s: Seq<char>, k: DoxSectionKind)
    requires
        DoxSectionKind::spec_from_str(s) == Some(k),
    ensures
        starts_with(s, "private-"@) <==> starts_with(spec_section_title(k), "Private"@),
        starts_with(s, "public-"@) <==> starts_with(spec_section_title(k), "Public"@),
        starts_with(s, "protected-"@) <==> starts_with(spec_section_title(k), "Protected"@),
        starts_with(s, "package-"@) <==> starts_with(spec_section_title(k), "Package"@),
{
    reveal_strlit("private-");
    reveal_strlit("Private");
    reveal_strlit("public-");
    reveal_strlit("Public");
    reveal_strlit("protected-");
    reveal_strlit("Protected");
    reveal_strlit("package-");
    reveal_strlit("Package");
    match k {
        DoxSectionKind::UserDefined => {
            reveal_strlit("user-defined");
            reveal_strlit("UserDefined");
            assert(s == "user-defined"@);
            assert("user-defined"@.take(8)[0] != "private-"@[0]);
            assert("UserDefined"@.take(7)[0] != "Private"@[0]);
            assert("user-defined"@.take(7)[0] != "public-"@[0]);
            assert("UserDefined"@.take(6)[0] != "Public"@[0]);
            assert("user-defined"@.take(10)[0] != "protected-"@[0]);
            assert("UserDefined"@.take(9)[0] != "Protected"@[0]);
            assert("user-defined"@.take(8)[0] != "package-"@[0]);
            assert("UserDefined"@.take(7)[0] != "Package"@[0]);
        },
        DoxSectionKind::PublicType => {
            reveal_strlit("public-type");
            reveal_strlit("Public Types");
            assert(s == "public-type"@);
            assert("public-type"@.take(8)[1] != "private-"@[1]);
            assert("Public Types"@.take(7)[1] != "Private"@[1]);
            assert("public-type"@.take(7) =~= "public-"@);
            assert("Public Types"@.take(6) =~= "Public"@);
            assert("public-type"@.take(10)[1] != "protected-"@[1]);
            assert("Public Types"@.take(9)[1] != "Protected"@[1]);
            assert("public-type"@.take(8)[1] != "package-"@[1]);
            assert("Public Types"@.take(7)[1] != "Package"@[1]);
        },
        DoxSectionKind::PublicFunc => {
            reveal_strlit("public-func");
            reveal_strlit("Public Functions");
            assert(s == "public-func"@);
            assert("public-func"@.take(8)[1] != "private-"@[1]);
            assert("Public Functions"@.take(7)[1] != "Private"@[1]);
            assert("public-func"@.take(7) =~= "public-"@);
            assert("Public Functions"@.take(6) =~= "Public"@);
            assert("public-func"@.take(10)[1] != "protected-"@[1]);
            assert("Public Functions"@.take(9)[1] != "Protected"@[1]);
            assert("public-func"@.take(8)[1] != "package-"@[1]);
            assert("Public Functions"@.take(7)[1] != "Package"@[1]);
        },
        DoxSectionKind::PublicAttrib => {
            reveal_strlit("public-attrib");
            reveal_strlit("Public Attributes");
            assert(s == "public-attrib"@);
            assert("public-attrib"@.take(8)[1] != "private-"@[1]);
            assert("Public Attributes"@.take(7)[1] != "Private"@[1]);
            assert("public-attrib"@.take(7) =~= "public-"@);
            assert("Public Attributes"@.take(6) =~= "Public"@);
            assert("public-attrib"@.take(10)[1] != "protected-"@[1]);
            assert("Public Attributes"@.take(9)[1] != "Protected"@[1]);
            assert("public-attrib"@.take(8)[1] != "package-"@[1]);
            assert("Public Attributes"@.take(7)[1] != "Package"@[1]);
        },
        DoxSectionKind::PublicSlot => {
            reveal_strlit("public-slot");
            reveal_strlit("PublicSlot");
            assert(s == "public-slot"@);
            assert("public-slot"@.take(8)[1] != "private-"@[1]);
            assert("PublicSlot"@.take(7)[1] != "Private"@[1]);
            assert("public-slot"@.take(7) =~= "public-"@);
            assert("PublicSlot"@.take(6) =~= "Public"@);
            assert("public-slot"@.take(10)[1] != "protected-"@[1]);
            assert("PublicSlot"@.take(9)[1] != "Protected"@[1]);
            assert("public-slot"@.take(8)[1] != "package-"@[1]);
            assert("PublicSlot"@.take(7)[1] != "Package"@[1]);
        },
        DoxSectionKind::Signal => {
            reveal_strlit("signal");
            reveal_strlit("Signal");
            assert(s == "signal"@);
            assert("Signal"@.take(6)[0] != "Public"@[0]);
        },
        DoxSectionKind::DcopFunc => {
            reveal_strlit("dcop-func");
            reveal_strlit("DcopFunc");
            assert(s == "dcop-func"@);
            assert("dcop-func"@.take(8)[0] != "private-"@[0]);
            assert("DcopFunc"@.take(7)[0] != "Private"@[0]);
            assert("dcop-func"@.take(7)[0] != "public-"@[0]);
            assert("DcopFunc"@.take(6)[0] != "Public"@[0]);
            assert("dcop-func"@.take(8)[0] != "package-"@[0]);
            assert("DcopFunc"@.take(7)[0] != "Package"@[0]);
        },
        DoxSectionKind::Property => {
            reveal_strlit("property");
            reveal_strlit("Property");
            assert(s == "property"@);
            assert("property"@.take(8)[2] != "private-"@[2]);
            assert("Property"@.take(7)[2] != "Private"@[2]);
            assert("property"@.take(7)[1] != "public-"@[1]);
            assert("Property"@.take(6)[1] != "Public"@[1]);
            assert("property"@.take(8)[1] != "package-"@[1]);
            assert("Property"@.take(7)[1] != "Package"@[1]);
        },
        DoxSectionKind::Event => {
            reveal_strlit("event");
            reveal_strlit("Event");
            assert(s == "event"@);
        },
        DoxSectionKind::PublicStaticFunc => {
            reveal_strlit("public-static-func");
            reveal_strlit("PublicStaticFunc");
            assert(s == "public-static-func"@);
            assert("public-static-func"@.take(8)[1] != "private-"@[1]);
            assert("PublicStaticFunc"@.take(7)[1] != "Private"@[1]);
            assert("public-static-func"@.take(7) =~= "public-"@);
            assert("PublicStaticFunc"@.take(6) =~= "Public"@);
            assert("public-static-func"@.take(10)[1] != "protected-"@[1]);
            assert("PublicStaticFunc"@.take(9)[1] != "Protected"@[1]);
            assert("public-static-func"@.take(8)[1] != "package-"@[1]);
            assert("PublicStaticFunc"@.take(7)[1] != "Package"@[1]);
        },
        DoxSectionKind::PublicStaticAttrib => {
            reveal_strlit("public-static-attrib");
            reveal_strlit("Public Static Attributes");
            assert(s == "public-static-attrib"@);
            assert("public-static-attrib"@.take(8)[1] != "private-"@[1]);
            assert("Public Static Attributes"@.take(7)[1] != "Private"@[1]);
            assert("public-static-attrib"@.take(7) =~= "public-"@);
            assert("Public Static Attributes"@.take(6) =~= "Public"@);
            assert("public-static-attrib"@.take(10)[1] != "protected-"@[1]);
            assert("Public Static Attributes"@.take(9)[1] != "Protected"@[1]);
            assert("public-static-attrib"@.take(8)[1] != "package-"@[1]);
            assert("Public Static Attributes"@.take(7)[1] != "Package"@[1]);
        },
        DoxSectionKind::ProtectedType => {
            reveal_strlit("protected-type");
            reveal_strlit("ProtectedType");
            assert(s == "protected-type"@);
            assert("protected-type"@.take(8)[2] != "private-"@[2]);
            assert("ProtectedType"@.take(7)[2] != "Private"@[2]);
            assert("protected-type"@.take(7)[1] != "public-"@[1]);
            assert("ProtectedType"@.take(6)[1] != "Public"@[1]);
            assert("protected-type"@.take(10) =~= "protected-"@);
            assert("ProtectedType"@.take(9) =~= "Protected"@);
            assert("protected-type"@.take(8)[1] != "package-"@[1]);
            assert("ProtectedType"@.take(7)[1] != "Package"@[1]);
        },
        DoxSectionKind::ProtectedFunc => {
            reveal_strlit("protected-func");
            reveal_strlit("ProtectedFunc");
            assert(s == "protected-func"@);
            assert("protected-func"@.take(8)[2] != "private-"@[2]);
            assert("ProtectedFunc"@.take(7)[2] != "Private"@[2]);
            assert("protected-func"@.take(7)[1] != "public-"@[1]);
            assert("ProtectedFunc"@.take(6)[1] != "Public"@[1]);
            assert("protected-func"@.take(10) =~= "protected-"@);
            assert("ProtectedFunc"@.take(9) =~= "Protected"@);
            assert("protected-func"@.take(8)[1] != "package-"@[1]);
            assert("ProtectedFunc"@.take(7)[1] != "Package"@[1]);
        },
        DoxSectionKind::ProtectedAttrib => {
            reveal_strlit("protected-attrib");
            reveal_strlit("Protected Attributes");
            assert(s == "protected-attrib"@);
            assert("protected-attrib"@.take(8)[2] != "private-"@[2]);
            assert("Protected Attributes"@.take(7)[2] != "Private"@[2]);
            assert("protected-attrib"@.take(7)[1] != "public-"@[1]);
            assert("Protected Attributes"@.take(6)[1] != "Public"@[1]);
            assert("protected-attrib"@.take(10) =~= "protected-"@);
            assert("Protected Attributes"@.take(9) =~= "Protected"@);
            assert("protected-attrib"@.take(8)[1] != "package-"@[1]);
            assert("Protected Attributes"@.take(7)[1] != "Package"@[1]);
        },
        DoxSectionKind::ProtectedSlot => {
            reveal_strlit("protected-slot");
            reveal_strlit("ProtectedSlot");
            assert(s == "protected-slot"@);
            assert("protected-slot"@.take(8)[2] != "private-"@[2]);
            assert("ProtectedSlot"@.take(7)[2] != "Private"@[2]);
            assert("protected-slot"@.take(7)[1] != "public-"@[1]);
            assert("ProtectedSlot"@.take(6)[1] != "Public"@[1]);
            assert("protected-slot"@.take(10) =~= "protected-"@);
            assert("ProtectedSlot"@.take(9) =~= "Protected"@);
            assert("protected-slot"@.take(8)[1] != "package-"@[1]);
            assert("ProtectedSlot"@.take(7)[1] != "Package"@[1]);
        },
        DoxSectionKind::ProtectedStaticFunc => {
            reveal_strlit("protected-static-func");
            reveal_strlit("ProtectedStaticFunc");
            assert(s == "protected-static-func"@);
            assert("protected-static-func"@.take(8)[2] != "private-"@[2]);
            assert("ProtectedStaticFunc"@.take(7)[2] != "Private"@[2]);
            assert("protected-static-func"@.take(7)[1] != "public-"@[1]);
            assert("ProtectedStaticFunc"@.take(6)[1] != "Public"@[1]);
            assert("protected-static-func"@.take(10) =~= "protected-"@);
            assert("ProtectedStaticFunc"@.take(9) =~= "Protected"@);
            assert("protected-static-func"@.take(8)[1] != "package-"@[1]);
            assert("ProtectedStaticFunc"@.take(7)[1] != "Package"@[1]);
        },
        DoxSectionKind::ProtectedStaticAttrib => {
            reveal_strlit("protected-static-attrib");
            reveal_strlit("ProtectedStatic Attributes");
            assert(s == "protected-static-attrib"@);
            assert("protected-static-attrib"@.take(8)[2] != "private-"@[2]);
            assert("ProtectedStatic Attributes"@.take(7)[2] != "Private"@[2]);
            assert("protected-static-attrib"@.take(7)[1] != "public-"@[1]);
            assert("ProtectedStatic Attributes"@.take(6)[1] != "Public"@[1]);
            assert("protected-static-attrib"@.take(10) =~= "protected-"@);
            assert("ProtectedStatic Attributes"@.take(9) =~= "Protected"@);
            assert("protected-static-attrib"@.take(8)[1] != "package-"@[1]);
            assert("ProtectedStatic Attributes"@.take(7)[1] != "Package"@[1]);
        },
        DoxSectionKind::PackageType => {
            reveal_strlit("package-type");
            reveal_strlit("PackageType");
            assert(s == "package-type"@);
            assert("package-type"@.take(8)[1] != "private-"@[1]);
            assert("PackageType"@.take(7)[1] != "Private"@[1]);
            assert("package-type"@.take(7)[1] != "public-"@[1]);
            assert("PackageType"@.take(6)[1] != "Public"@[1]);
            assert("package-type"@.take(10)[1] != "protected-"@[1]);
            assert("PackageType"@.take(9)[1] != "Protected"@[1]);
            assert("package-type"@.take(8) =~= "package-"@);
            assert("PackageType"@.take(7) =~= "Package"@);
        },
        DoxSectionKind::PackageFunc => {
            reveal_strlit("package-func");
            reveal_strlit("PackageFunc");
            assert(s == "package-func"@);
            assert("package-func"@.take(8)[1] != "private-"@[1]);
            assert("PackageFunc"@.take(7)[1] != "Private"@[1]);
            assert("package-func"@.take(7)[1] != "public-"@[1]);
            assert("PackageFunc"@.take(6)[1] != "Public"@[1]);
            assert("package-func"@.take(10)[1] != "protected-"@[1]);
            assert("PackageFunc"@.take(9)[1] != "Protected"@[1]);
            assert("package-func"@.take(8) =~= "package-"@);
            assert("PackageFunc"@.take(7) =~= "Package"@);
        },
        DoxSectionKind::PackageAttrib => {
            reveal_strlit("package-attrib");
            reveal_strlit("Package Attributes");
            assert(s == "package-attrib"@);
            assert("package-attrib"@.take(8)[1] != "private-"@[1]);
            assert("Package Attributes"@.take(7)[1] != "Private"@[1]);
            assert("package-attrib"@.take(7)[1] != "public-"@[1]);
            assert("Package Attributes"@.take(6)[1] != "Public"@[1]);
            assert("package-attrib"@.take(10)[1] != "protected-"@[1]);
            assert("Package Attributes"@.take(9)[1] != "Protected"@[1]);
            assert("package-attrib"@.take(8) =~= "package-"@);
            assert("Package Attributes"@.take(7) =~= "Package"@);
        },
        DoxSectionKind::PackageStaticFunc => {
            reveal_strlit("package-static-func");
            reveal_strlit("PackageStaticFunc");
            assert(s == "package-static-func"@);
            assert("package-static-func"@.take(8)[1] != "private-"@[1]);
            assert("PackageStaticFunc"@.take(7)[1] != "Private"@[1]);
            assert("package-static-func"@.take(7)[1] != "public-"@[1]);
            assert("PackageStaticFunc"@.take(6)[1] != "Public"@[1]);
            assert("package-static-func"@.take(10)[1] != "protected-"@[1]);
            assert("PackageStaticFunc"@.take(9)[1] != "Protected"@[1]);
            assert("package-static-func"@.take(8) =~= "package-"@);
            assert("PackageStaticFunc"@.take(7) =~= "Package"@);
        },
        DoxSectionKind::PackageStaticAttrib => {
            reveal_strlit("package-static-attrib");
            reveal_strlit("PackageStatic Attributes");
            assert(s == "package-static-attrib"@);
            assert("package-static-attrib"@.take(8)[1] != "private-"@[1]);
            assert("PackageStatic Attributes"@.take(7)[1] != "Private"@[1]);
            assert("package-static-attrib"@.take(7)[1] != "public-"@[1]);
            assert("PackageStatic Attributes"@.take(6)[1] != "Public"@[1]);
            assert("package-static-attrib"@.take(10)[1] != "protected-"@[1]);
            assert("PackageStatic Attributes"@.take(9)[1] != "Protected"@[1]);
            assert("package-static-attrib"@.take(8) =~= "package-"@);
            assert("PackageStatic Attributes"@.take(7) =~= "Package"@);
        },
        DoxSectionKind::PrivateType => {
            reveal_strlit("private-type");
            reveal_strlit("PrivateType");
            assert(s == "private-type"@);
            assert("private-type"@.take(8) =~= "private-"@);
            assert("PrivateType"@.take(7) =~= "Private"@);
            assert("private-type"@.take(7)[1] != "public-"@[1]);
            assert("PrivateType"@.take(6)[1] != "Public"@[1]);
            assert("private-type"@.take(10)[2] != "protected-"@[2]);
            assert("PrivateType"@.take(9)[2] != "Protected"@[2]);
            assert("private-type"@.take(8)[1] != "package-"@[1]);
            assert("PrivateType"@.take(7)[1] != "Package"@[1]);
        },
        DoxSectionKind::PrivateFunc => {
            reveal_strlit("private-func");
            reveal_strlit("PrivateFunc");
            assert(s == "private-func"@);
            assert("private-func"@.take(8) =~= "private-"@);
            assert("PrivateFunc"@.take(7) =~= "Private"@);
            assert("private-func"@.take(7)[1] != "public-"@[1]);
            assert("PrivateFunc"@.take(6)[1] != "Public"@[1]);
            assert("private-func"@.take(10)[2] != "protected-"@[2]);
            assert("PrivateFunc"@.take(9)[2] != "Protected"@[2]);
            assert("private-func"@.take(8)[1] != "package-"@[1]);
            assert("PrivateFunc"@.take(7)[1] != "Package"@[1]);
        },
        DoxSectionKind::PrivateAttrib => {
            reveal_strlit("private-attrib");
            reveal_strlit("Private Attributes");
            assert(s == "private-attrib"@);
            assert("private-attrib"@.take(8) =~= "private-"@);
            assert("Private Attributes"@.take(7) =~= "Private"@);
            assert("private-attrib"@.take(7)[1] != "public-"@[1]);
            assert("Private Attributes"@.take(6)[1] != "Public"@[1]);
            assert("private-attrib"@.take(10)[2] != "protected-"@[2]);
            assert("Private Attributes"@.take(9)[2] != "Protected"@[2]);
            assert("private-attrib"@.take(8)[1] != "package-"@[1]);
            assert("Private Attributes"@.take(7)[1] != "Package"@[1]);
        },
        DoxSectionKind::PrivateSlot => {
            reveal_strlit("private-slot");
            reveal_strlit("PrivateSlot");
            assert(s == "private-slot"@);
            assert("private-slot"@.take(8) =~= "private-"@);
            assert("PrivateSlot"@.take(7) =~= "Private"@);
            assert("private-slot"@.take(7)[1] != "public-"@[1]);
            assert("PrivateSlot"@.take(6)[1] != "Public"@[1]);
            assert("private-slot"@.take(10)[2] != "protected-"@[2]);
            assert("PrivateSlot"@.take(9)[2] != "Protected"@[2]);
            assert("private-slot"@.take(8)[1] != "package-"@[1]);
            assert("PrivateSlot"@.take(7)[1] != "Package"@[1]);
        },
        DoxSectionKind::PrivateStaticFunc => {
            reveal_strlit("private-static-func");
            reveal_strlit("PrivateStaticFunc");
            assert(s == "private-static-func"@);
            assert("private-static-func"@.take(8) =~= "private-"@);
            assert("PrivateStaticFunc"@.take(7) =~= "Private"@);
            assert("private-static-func"@.take(7)[1] != "public-"@[1]);
            assert("PrivateStaticFunc"@.take(6)[1] != "Public"@[1]);
            assert("private-static-func"@.take(10)[2] != "protected-"@[2]);
            assert("PrivateStaticFunc"@.take(9)[2] != "Protected"@[2]);
            assert("private-static-func"@.take(8)[1] != "package-"@[1]);
            assert("PrivateStaticFunc"@.take(7)[1] != "Package"@[1]);
        },
        DoxSectionKind::PrivateStaticAttrib => {
            reveal_strlit("private-static-attrib");
            reveal_strlit("PrivateStatic Attributes");
            assert(s == "private-static-attrib"@);
            assert("private-static-attrib"@.take(8) =~= "private-"@);
            assert("PrivateStatic Attributes"@.take(7) =~= "Private"@);
            assert("private-static-attrib"@.take(7)[1] != "public-"@[1]);
            assert("PrivateStatic Attributes"@.take(6)[1] != "Public"@[1]);
            assert("private-static-attrib"@.take(10)[2] != "protected-"@[2]);
            assert("PrivateStatic Attributes"@.take(9)[2] != "Protected"@[2]);
            assert("private-static-attrib"@.take(8)[1] != "package-"@[1]);
            assert("PrivateStatic Attributes"@.take(7)[1] != "Package"@[1]);
        },
        DoxSectionKind::Friend => {
            reveal_strlit("friend");
            reveal_strlit("Friend");
            assert(s == "friend"@);
            assert("Friend"@.take(6)[0] != "Public"@[0]);
        },
        DoxSectionKind::Related => {
            reveal_strlit("related");
            reveal_strlit("Related");
            assert(s == "related"@);
            assert("Related"@.take(7)[0] != "Private"@[0]);
            assert("related"@.take(7)[0] != "public-"@[0]);
            assert("Related"@.take(6)[0] != "Public"@[0]);
            assert("Related"@.take(7)[0] != "Package"@[0]);
        },
        DoxSectionKind::Define => {
            reveal_strlit("define");
            reveal_strlit("Define");
            assert(s == "define"@);
            assert("Define"@.take(6)[0] != "Public"@[0]);
        },
        DoxSectionKind::Prototype => {
            reveal_strlit("prototype");
            reveal_strlit("Prototype");
            assert(s == "prototype"@);
            assert("prototype"@.take(8)[2] != "private-"@[2]);
            assert("Prototype"@.take(7)[2] != "Private"@[2]);
            assert("prototype"@.take(7)[1] != "public-"@[1]);
            assert("Prototype"@.take(6)[1] != "Public"@[1]);
            assert("Prototype"@.take(9)[4] != "Protected"@[4]);
            assert("prototype"@.take(8)[1] != "package-"@[1]);
            assert("Prototype"@.take(7)[1] != "Package"@[1]);
        },
        DoxSectionKind::Typedef => {
            reveal_strlit("typedef");
            reveal_strlit("Typedef");
            assert(s == "typedef"@);
            assert("Typedef"@.take(7)[0] != "Private"@[0]);
            assert("typedef"@.take(7)[0] != "public-"@[0]);
            assert("Typedef"@.take(6)[0] != "Public"@[0]);
            assert("Typedef"@.take(7)[0] != "Package"@[0]);
        },
        DoxSectionKind::Enum => {
            reveal_strlit("enum");
            reveal_strlit("Enum");
            assert(s == "enum"@);
        },
        DoxSectionKind::Func => {
            reveal_strlit("func");
            reveal_strlit("Func");
            assert(s == "func"@);
        },
        DoxSectionKind::Var => {
            reveal_strlit("var");
            reveal_strlit("Var");
            assert(s == "var"@);
        },
    }
}

} // verus!
