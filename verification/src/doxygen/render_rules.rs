//! What rendering a Doxygen element gives, stated over the models of the
//! elements and of the document nodes.
use vstd::prelude::*;

use crate::doxygen::compound::elements::{
    DoxBool, DoxLanguage, DoxMemberKind, DoxSectionKind, MarkupKind, SpecCmd, SpecCompoundDef, SpecDescriptionItem,
    SpecEntry, SpecEnumValue, SpecHighlightItem, SpecLinkedTextItem, SpecMarkupItem, SpecMemberDef, SpecParaItem,
    SpecParamListItem, SpecParamNameList, SpecParam, SpecRefType, SpecSectionDef, SpecTable, SpecTitleCmd,
    SpecTitleItem,
};
use crate::doxygen::nodes::{Domain, DomainEntryType, SignatureType, SpecDomainEntry, SpecNode, SpecTarget};
use crate::doxygen::text::{spec_compound_def_text, spec_compound_kind_name, spec_enum_value_text, spec_member_def_text};
use crate::strings::{join, lines, remove_char, replace_first, replace_first_each, starts_with, trim_start};

verus! {

/// A rendered node, marked when it is a parameter list, which descriptions
/// lift out of their paragraphs.
pub enum SpecCat {
    ParameterList(SpecNode),
    Node(SpecNode),
}

pub open spec fn cat_node(c: SpecCat) -> SpecNode {
    match c {
        SpecCat::ParameterList(n) => n,
        SpecCat::Node(n) => n,
    }
}

pub open spec fn is_special(c: SpecCat) -> bool {
    c is ParameterList
}

/// The nodes of categorized nodes.
pub open spec fn cats_to_nodes(s: Seq<SpecCat>) -> Seq<SpecNode>
    decreases s.len(),
{
    if s.len() == 0 {
        Seq::empty()
    } else {
        cats_to_nodes(s.drop_last()).push(cat_node(s.last()))
    }
}

/// The parameter lists among categorized nodes, in order.
pub open spec fn specials(s: Seq<SpecCat>) -> Seq<SpecCat>
    decreases s.len(),
{
    if s.len() == 0 {
        Seq::empty()
    } else if is_special(s.last()) {
        specials(s.drop_last()).push(s.last())
    } else {
        specials(s.drop_last())
    }
}

/// The other categorized nodes, in order.
pub open spec fn others(s: Seq<SpecCat>) -> Seq<SpecCat>
    decreases s.len(),
{
    if s.len() == 0 {
        Seq::empty()
    } else if is_special(s.last()) {
        others(s.drop_last())
    } else {
        others(s.drop_last()).push(s.last())
    }
}

/// The text node of a literal.
pub open spec fn text(t: Seq<char>) -> SpecNode {
    SpecNode::Text(t)
}

/// An internal reference to `refid` around the name `content`.
pub open spec fn ref_node(r: SpecRefType) -> SpecNode {
    SpecNode::Reference {
        internal: Some(true),
        refid: Some(r.refid),
        refuri: None,
        children: seq![SpecNode::DescSignatureName(r.content)],
    }
}

/// Linked text as nodes: references and texts.
pub open spec fn linked_nodes(s: Seq<SpecLinkedTextItem>) -> Seq<SpecNode>
    decreases s.len(),
{
    if s.len() == 0 {
        Seq::empty()
    } else {
        linked_nodes(s.drop_last()).push(
            match s.last() {
                SpecLinkedTextItem::Ref(r) => ref_node(r),
                SpecLinkedTextItem::Text(t) => text(t),
            },
        )
    }
}

/// The names of a parameter name list as nodes.
pub open spec fn param_names_nodes(s: Seq<Seq<SpecLinkedTextItem>>) -> Seq<SpecNode>
    decreases s.len(),
{
    if s.len() == 0 {
        Seq::empty()
    } else {
        param_names_nodes(s.drop_last()) + linked_nodes(s.last())
    }
}

/// The names of the parameter name lists of an item as nodes.
pub open spec fn name_lists_nodes(s: Seq<SpecParamNameList>) -> Seq<SpecNode>
    decreases s.len(),
{
    if s.len() == 0 {
        Seq::empty()
    } else {
        name_lists_nodes(s.drop_last()) + param_names_nodes(s.last().parameter_name)
    }
}

/// Highlighted code as nodes: a space for `sp`, references and texts.
pub open spec fn highlight_nodes(s: Seq<SpecHighlightItem>) -> Seq<SpecNode>
    decreases s.len(),
{
    if s.len() == 0 {
        Seq::empty()
    } else {
        highlight_nodes(s.drop_last()).push(
            match s.last() {
                SpecHighlightItem::Sp => text(" "@),
                SpecHighlightItem::Ref(r) => ref_node(r),
                SpecHighlightItem::Text(t) => text(t),
            },
        )
    }
}

/// A line of code as nodes: the nodes of its highlighted stretches.
pub open spec fn codeline_nodes(s: Seq<Seq<SpecHighlightItem>>) -> Seq<SpecNode>
    decreases s.len(),
{
    if s.len() == 0 {
        Seq::empty()
    } else {
        codeline_nodes(s.drop_last()) + highlight_nodes(s.last())
    }
}

/// A listing as nodes: the nodes of its lines with a line break between each
/// two lines.
pub open spec fn listing_nodes(s: Seq<Seq<Seq<SpecHighlightItem>>>) -> Seq<SpecNode>
    decreases s.len(),
{
    if s.len() == 0 {
        Seq::empty()
    } else if s.len() == 1 {
        codeline_nodes(s[0])
    } else {
        listing_nodes(s.drop_last()) + seq![text("\n"@)] + codeline_nodes(s.last())
    }
}

/// An extracted description: the children of its paragraph when it is one
/// paragraph, the description itself otherwise.
pub open spec fn inner_description(nodes: Seq<SpecNode>) -> Seq<SpecNode> {
    if nodes.len() == 1 && nodes[0] is Paragraph {
        nodes[0]->Paragraph_0
    } else {
        nodes
    }
}

/// The categorized nodes of one paragraph of a description: its parameter
/// lists, then its other nodes as one paragraph when there are any.
pub open spec fn para_cats(cats: Seq<SpecCat>) -> Seq<SpecCat> {
    if others(cats).len() == 0 {
        specials(cats)
    } else {
        specials(cats).push(SpecCat::Node(SpecNode::Paragraph(cats_to_nodes(others(cats)))))
    }
}

/// The field of a parameter list in a description's field list.
pub open spec fn parameters_field(c: SpecCat) -> SpecNode {
    SpecNode::Field(
        Box::new(SpecNode::FieldName(seq![text("Parameters"@)])),
        Box::new(SpecNode::FieldBody(seq![cat_node(c)])),
    )
}

/// The fields of the parameter lists among categorized nodes.
pub open spec fn parameters_fields(s: Seq<SpecCat>) -> Seq<SpecNode>
    decreases s.len(),
{
    if s.len() == 0 {
        Seq::empty()
    } else if is_special(s.last()) {
        parameters_fields(s.drop_last()).push(parameters_field(s.last()))
    } else {
        parameters_fields(s.drop_last())
    }
}

/// A description laid out from the categorized nodes of its paragraphs: the
/// paragraphs, then a field list of its parameter lists when it has any.
pub open spec fn description_layout(cats: Seq<SpecCat>) -> Seq<SpecNode> {
    if specials(cats).len() == 0 {
        cats_to_nodes(others(cats))
    } else {
        cats_to_nodes(others(cats)).push(SpecNode::FieldList(parameters_fields(specials(cats))))
    }
}

/// The column specifications of a table with `n` columns.
pub open spec fn col_specs(n: int) -> Seq<SpecNode>
    decreases n,
{
    if n <= 0 {
        Seq::empty()
    } else {
        col_specs(n - 1).push(SpecNode::TableColSpec { colwidth: "auto"@ })
    }
}

/// The rows that are (or are not) headings.
pub open spec fn rows_where(rows: Seq<(bool, SpecNode)>, heading: bool) -> Seq<SpecNode>
    decreases rows.len(),
{
    if rows.len() == 0 {
        Seq::empty()
    } else if rows.last().0 == heading {
        rows_where(rows.drop_last(), heading).push(rows.last().1)
    } else {
        rows_where(rows.drop_last(), heading)
    }
}

/// The nodes of table cells.
pub open spec fn cell_nodes(cells: Seq<(bool, SpecNode)>) -> Seq<SpecNode>
    decreases cells.len(),
{
    if cells.len() == 0 {
        Seq::empty()
    } else {
        cell_nodes(cells.drop_last()).push(cells.last().1)
    }
}

/// Whether any cell is a heading.
pub open spec fn any_heading(cells: Seq<(bool, SpecNode)>) -> bool
    decreases cells.len(),
{
    cells.len() > 0 && (cells.last().0 || any_heading(cells.drop_last()))
}

/// The text node of one of the character elements.
pub open spec fn char_node(c: char) -> SpecNode {
    text(seq![c])
}

// ---------------------------------------------------------------------------
// The documentation blocks, which nest in each other

/// Rendering an inline element: references and links become reference nodes,
/// bold, emphasis and computer output become strong, emphasis and literal
/// nodes, other markup an unknown inline node, raw HTML (unless skipped) an
/// HTML-only node and the character elements their characters; unhandled
/// elements render as nothing.
pub open spec fn r_title(skip: bool, c: SpecTitleCmd) -> Option<SpecNode>
    decreases c, 0int,
{
    match c {
        SpecTitleCmd::Ref(refid, items) => Some(
            SpecNode::Reference {
                internal: Some(true),
                refid: Some(refid),
                refuri: None,
                children: r_title_items(skip, items),
            },
        ),
        SpecTitleCmd::Ulink(url, items) => Some(
            SpecNode::Reference { internal: None, refid: None, refuri: Some(url), children: r_title_items(skip, items) },
        ),
        SpecTitleCmd::Markup(kind, items) => {
            let nodes = cats_to_nodes(r_markup(skip, items));
            Some(
                match kind {
                    MarkupKind::Bold => SpecNode::Strong(nodes),
                    MarkupKind::Emphasis => SpecNode::Emphasis(nodes),
                    MarkupKind::Computeroutput => SpecNode::Literal(nodes),
                    _ => SpecNode::UnknownInline(nodes),
                },
            )
        },
        SpecTitleCmd::Htmlonly(t) => if skip {
            None
        } else {
            Some(SpecNode::HtmlOnly(seq![SpecNode::RawHtml(t)]))
        },
        SpecTitleCmd::Linebreak => Some(char_node('\n')),
        SpecTitleCmd::Mdash => Some(char_node('\u{2014}')),
        SpecTitleCmd::Ndash => Some(char_node('\u{2013}')),
        SpecTitleCmd::Lsquo => Some(char_node('\u{2018}')),
        SpecTitleCmd::Rsquo => Some(char_node('\u{2019}')),
        SpecTitleCmd::Nonbreakablespace => Some(char_node('\u{00A0}')),
        SpecTitleCmd::Unhandled(_) => None,
    }
}

/// Rendering the text of a reference or a link.
pub open spec fn r_title_items(skip: bool, s: Seq<SpecTitleItem>) -> Seq<SpecNode>
    decreases s, 0int,
{
    if s.len() == 0 {
        Seq::empty()
    } else {
        let rest = r_title_items(skip, s.drop_last());
        match s.last() {
            SpecTitleItem::DocTitleCmdGroup(c) => match r_title(skip, c) {
                Some(n) => rest.push(n),
                None => rest,
            },
            SpecTitleItem::Text(t) => rest.push(text(t)),
        }
    }
}

/// Rendering marked up text.
pub open spec fn r_markup(skip: bool, s: Seq<SpecMarkupItem>) -> Seq<SpecCat>
    decreases s, 0int,
{
    if s.len() == 0 {
        Seq::empty()
    } else {
        let rest = r_markup(skip, s.drop_last());
        match s.last() {
            SpecMarkupItem::DocCmdGroup(c) => match r_cmd(skip, c) {
                Some(n) => rest.push(n),
                None => rest,
            },
            SpecMarkupItem::Text(t) => rest.push(SpecCat::Node(text(t))),
        }
    }
}

/// Rendering a paragraph.
pub open spec fn r_para(skip: bool, s: Seq<SpecParaItem>) -> Seq<SpecCat>
    decreases s, 0int,
{
    if s.len() == 0 {
        Seq::empty()
    } else {
        let rest = r_para(skip, s.drop_last());
        match s.last() {
            SpecParaItem::DocCmdGroup(c) => match r_cmd(skip, c) {
                Some(n) => rest.push(n),
                None => rest,
            },
            SpecParaItem::Text(t) => rest.push(SpecCat::Node(text(t))),
        }
    }
}

/// Rendering paragraphs as paragraph nodes.
pub open spec fn r_paras(skip: bool, s: Seq<Seq<SpecParaItem>>) -> Seq<SpecNode>
    decreases s, 0int,
{
    if s.len() == 0 {
        Seq::empty()
    } else {
        r_paras(skip, s.drop_last()).push(SpecNode::Paragraph(cats_to_nodes(r_para(skip, s.last()))))
    }
}

/// Rendering the items of a list as list items.
pub open spec fn r_list_items(skip: bool, s: Seq<Seq<Seq<SpecParaItem>>>) -> Seq<SpecNode>
    decreases s, 0int,
{
    if s.len() == 0 {
        Seq::empty()
    } else {
        r_list_items(skip, s.drop_last()).push(SpecNode::ListItem(r_paras(skip, s.last())))
    }
}

/// The categorized nodes of the paragraphs of a description; its texts are
/// not rendered.
pub open spec fn r_desc_cats(skip: bool, s: Seq<SpecDescriptionItem>) -> Seq<SpecCat>
    decreases s, 0int,
{
    if s.len() == 0 {
        Seq::empty()
    } else {
        let rest = r_desc_cats(skip, s.drop_last());
        match s.last() {
            SpecDescriptionItem::Para(p) => rest + para_cats(r_para(skip, p)),
            SpecDescriptionItem::Text(_) => rest,
        }
    }
}

/// Rendering a description: its paragraphs, and a field list of the
/// parameter lists that it holds.
pub open spec fn r_description(skip: bool, s: Seq<SpecDescriptionItem>) -> Seq<SpecNode>
    decreases s, 1int,
{
    description_layout(r_desc_cats(skip, s))
}

/// Rendering the items of a parameter list: each a list item holding one
/// paragraph of the names in bold, ` - ` and the description.
pub open spec fn r_param_items(skip: bool, s: Seq<SpecParamListItem>) -> Seq<SpecNode>
    decreases s, 0int,
{
    if s.len() == 0 {
        Seq::empty()
    } else {
        let item = s.last();
        r_param_items(skip, s.drop_last()).push(
            SpecNode::ListItem(
                seq![
                    SpecNode::Paragraph(
                        seq![SpecNode::LiteralStrong(name_lists_nodes(item.parameter_name_list)), text(" - "@)]
                            + inner_description(r_description(skip, item.parameter_description)),
                    ),
                ],
            ),
        )
    }
}

/// Rendering the cells of a table row, each with whether it is a heading.
pub open spec fn r_entries(skip: bool, s: Seq<SpecEntry>) -> Seq<(bool, SpecNode)>
    decreases s, 0int,
{
    if s.len() == 0 {
        Seq::empty()
    } else {
        let e = s.last();
        let heading = e.thead == DoxBool::Yes;
        r_entries(skip, s.drop_last()).push(
            (heading, SpecNode::TableRowEntry { heading, nodes: r_paras(skip, e.para) }),
        )
    }
}

/// Rendering the rows of a table, each with whether any of its cells is a
/// heading.
pub open spec fn r_rows(skip: bool, s: Seq<Seq<SpecEntry>>) -> Seq<(bool, SpecNode)>
    decreases s, 0int,
{
    if s.len() == 0 {
        Seq::empty()
    } else {
        let cells = r_entries(skip, s.last());
        r_rows(skip, s.drop_last()).push((any_heading(cells), SpecNode::TableRow(cell_nodes(cells))))
    }
}

/// Rendering a table: one column specification per column, then the heading
/// rows and the body rows.
pub open spec fn r_table(skip: bool, t: SpecTable) -> SpecNode
    decreases t, 0int,
{
    let rows = r_rows(skip, t.row);
    SpecNode::Table(
        seq![
            SpecNode::TableGroup {
                cols: t.cols,
                nodes: col_specs(t.cols as int).push(SpecNode::TableHead(rows_where(rows, true))).push(
                    SpecNode::TableBody(rows_where(rows, false)),
                ),
            },
        ],
    )
}

/// Rendering an element of a paragraph: an inline element as `r_title` renders
/// it (so an unhandled element, such as an anchor, a heading, a horizontal
/// ruler or a variable list, renders as nothing), a parameter list as the
/// bullet list that a description lifts into its field list, and the other
/// blocks as their nodes.
pub open spec fn r_cmd(skip: bool, c: SpecCmd) -> Option<SpecCat>
    decreases c, 0int,
{
    match c {
        SpecCmd::Title(t) => match r_title(skip, t) {
            Some(n) => Some(SpecCat::Node(n)),
            None => None,
        },
        SpecCmd::ParameterList(items) => Some(SpecCat::ParameterList(SpecNode::BulletList(r_param_items(skip, items)))),
        SpecCmd::Simplesect(_, paras) => Some(SpecCat::Node(SpecNode::Container(r_paras(skip, paras)))),
        SpecCmd::ItemizedList(items) => Some(SpecCat::Node(SpecNode::BulletList(r_list_items(skip, items)))),
        SpecCmd::OrderedList(items) => Some(
            SpecCat::Node(SpecNode::EnumeratedList { type_: None, items: r_list_items(skip, items) }),
        ),
        SpecCmd::ProgramListing(lines) => Some(SpecCat::Node(SpecNode::LiteralBlock(listing_nodes(lines)))),
        SpecCmd::Verbatim(t) => Some(SpecCat::Node(verbatim_node(t))),
        SpecCmd::Xrefsect(x) => Some(
            SpecCat::Node(
                SpecNode::Desc(
                    seq![
                        SpecNode::DescSignature(
                            SignatureType::MultiLine,
                            seq![SpecNode::Emphasis(seq![text(x.xreftitle.push(':'))])],
                        ),
                    ],
                    Box::new(SpecNode::DescContent(r_description(skip, x.xrefdescription))),
                ),
            ),
        ),
        SpecCmd::Preformatted(items) => Some(SpecCat::Node(SpecNode::LiteralBlock(cats_to_nodes(r_markup(skip, items))))),
        SpecCmd::Table(t) => Some(SpecCat::Node(r_table(skip, t))),
    }
}

// ---------------------------------------------------------------------------
// Verbatim text

/// Rendering verbatim text. Text that starts (after white space) with
/// `embed:rst` is reStructuredText to embed:
/// - `embed:rst:leading-asterisk`: the lines after the first, each with its
///   first `*` made a space, joined with line breaks, as a block;
/// - `embed:rst:leading-slashes`: the same with the first `///` of each line;
/// - `embed:rst:inline`: the text without its first `embed:rst:inline` and
///   without line breaks, inline;
/// - otherwise the text after its first line break as a block, or the text
///   without its first `embed:rst` when it has no line break.
/// Any other text is a literal block.
pub open spec fn verbatim_node(t: Seq<char>) -> SpecNode {
    let trimmed = trim_start(t);
    if !starts_with(trimmed, "embed:rst"@) {
        SpecNode::LiteralBlock(seq![text(t)])
    } else if starts_with(trimmed, "embed:rst:leading-asterisk"@) {
        SpecNode::ReStructuredTextBlock(join(replace_first_each(lines(t).skip(1), "*"@, " "@), "\n"@))
    } else if starts_with(trimmed, "embed:rst:leading-slashes"@) {
        SpecNode::ReStructuredTextBlock(join(replace_first_each(lines(t).skip(1), "///"@, " "@), "\n"@))
    } else if starts_with(trimmed, "embed:rst:inline"@) {
        SpecNode::ReStructuredTextInline(remove_char(replace_first(t, "embed:rst:inline"@, ""@), '\n'))
    } else {
        match crate::strings::find_from(t, seq!['\n'], 0) {
            Some(k) => SpecNode::ReStructuredTextBlock(t.skip(k + 1)),
            None => SpecNode::ReStructuredTextBlock(replace_first(t, "embed:rst"@, ""@)),
        }
    }
}

// ---------------------------------------------------------------------------
// Definitions

/// The title of a section of a compound.
pub open spec fn spec_section_title(kind: DoxSectionKind) -> Seq<char> {
    match kind {
        DoxSectionKind::UserDefined => "UserDefined"@,
        DoxSectionKind::PublicType => "Public Types"@,
        DoxSectionKind::PublicFunc => "Public Functions"@,
        DoxSectionKind::PublicAttrib => "Public Attributes"@,
        DoxSectionKind::PublicSlot => "PublicSlot"@,
        DoxSectionKind::Signal => "Signal"@,
        DoxSectionKind::DcopFunc => "DcopFunc"@,
        DoxSectionKind::Property => "Property"@,
        DoxSectionKind::Event => "Event"@,
        DoxSectionKind::PublicStaticFunc => "PublicStaticFunc"@,
        DoxSectionKind::PublicStaticAttrib => "Public Static Attributes"@,
        DoxSectionKind::ProtectedType => "ProtectedType"@,
        DoxSectionKind::ProtectedFunc => "ProtectedFunc"@,
        DoxSectionKind::ProtectedAttrib => "Protected Attributes"@,
        DoxSectionKind::ProtectedSlot => "ProtectedSlot"@,
        DoxSectionKind::ProtectedStaticFunc => "ProtectedStaticFunc"@,
        DoxSectionKind::ProtectedStaticAttrib => "ProtectedStatic Attributes"@,
        DoxSectionKind::PackageType => "PackageType"@,
        DoxSectionKind::PackageFunc => "PackageFunc"@,
        DoxSectionKind::PackageAttrib => "Package Attributes"@,
        DoxSectionKind::PackageStaticFunc => "PackageStaticFunc"@,
        DoxSectionKind::PackageStaticAttrib => "PackageStatic Attributes"@,
        DoxSectionKind::PrivateType => "PrivateType"@,
        DoxSectionKind::PrivateFunc => "PrivateFunc"@,
        DoxSectionKind::PrivateAttrib => "Private Attributes"@,
        DoxSectionKind::PrivateSlot => "PrivateSlot"@,
        DoxSectionKind::PrivateStaticFunc => "PrivateStaticFunc"@,
        DoxSectionKind::PrivateStaticAttrib => "PrivateStatic Attributes"@,
        DoxSectionKind::Friend => "Friend"@,
        DoxSectionKind::Related => "Related"@,
        DoxSectionKind::Define => "Define"@,
        DoxSectionKind::Prototype => "Prototype"@,
        DoxSectionKind::Typedef => "Typedef"@,
        DoxSectionKind::Enum => "Enum"@,
        DoxSectionKind::Func => "Func"@,
        DoxSectionKind::Var => "Var"@,
    }
}

/// The keyword of a member's signature.
pub open spec fn spec_member_kind_name(kind: DoxMemberKind) -> Seq<char> {
    match kind {
        DoxMemberKind::Define => "Define"@,
        DoxMemberKind::Property => "Property"@,
        DoxMemberKind::Event => "Event"@,
        DoxMemberKind::Variable => "Variable"@,
        DoxMemberKind::Typedef => "Typedef"@,
        DoxMemberKind::Enum => "enum"@,
        DoxMemberKind::Function => "function"@,
        DoxMemberKind::Signal => "Signal"@,
        DoxMemberKind::Prototype => "Prototype"@,
        DoxMemberKind::Friend => "Friend"@,
        DoxMemberKind::Dcop => "Dcop"@,
        DoxMemberKind::Slot => "Slot"@,
        DoxMemberKind::Interface => "Interface"@,
        DoxMemberKind::Service => "Service"@,
    }
}

/// The domain of a language: C++ is rendered with the C++ domain, other
/// languages with none.
pub open spec fn spec_language_domain(language: DoxLanguage) -> Option<Domain> {
    if language == DoxLanguage::CPlusPlus {
        Some(Domain::CPlusPlus)
    } else {
        None
    }
}

/// The description nodes of an element, brief then detailed.
pub open spec fn descriptions(
    skip: bool,
    brief: Option<Seq<SpecDescriptionItem>>,
    detailed: Option<Seq<SpecDescriptionItem>>,
) -> Seq<SpecNode> {
    (match brief {
        Some(d) => r_description(skip, d),
        None => Seq::empty(),
    }) + (match detailed {
        Some(d) => r_description(skip, d),
        None => Seq::empty(),
    })
}

/// The target of an entry with id `id`.
pub open spec fn id_target(id: Seq<char>) -> SpecTarget {
    SpecTarget { ids: id, names: id }
}

/// A description block with a one-line signature.
pub open spec fn desc_block(line: Seq<SpecNode>, content: Seq<SpecNode>) -> SpecNode {
    SpecNode::Desc(
        seq![SpecNode::DescSignature(SignatureType::MultiLine, seq![SpecNode::DescSignatureLine(line)])],
        Box::new(SpecNode::DescContent(content)),
    )
}

/// A domain entry.
pub open spec fn domain_entry(
    domain: Domain,
    type_: DomainEntryType,
    id: Seq<char>,
    declaration: Seq<char>,
    content: Seq<SpecNode>,
) -> SpecNode {
    SpecNode::DomainEntry(
        SpecDomainEntry { domain, type_, target: id_target(id), location: None, declaration, content },
    )
}

/// Rendering an enum value of the enum named `enum_name`: a domain entry when
/// there is a domain, a description block of its name otherwise; its
/// descriptions are its content.
pub open spec fn r_enum_value(domain: Option<Domain>, skip: bool, enum_name: Seq<char>, v: SpecEnumValue) -> SpecNode {
    let content = descriptions(skip, v.brief_description, v.detailed_description);
    match domain {
        Some(d) => domain_entry(d, DomainEntryType::Enumerator, v.id, spec_enum_value_text(d, enum_name, v), content),
        None => desc_block(seq![SpecNode::DescName(Box::new(SpecNode::DescSignatureName(v.name)))], content),
    }
}

/// The enum values of an enum, rendered.
pub open spec fn r_enum_values(domain: Option<Domain>, skip: bool, enum_name: Seq<char>, s: Seq<SpecEnumValue>) -> Seq<SpecNode>
    decreases s.len(),
{
    if s.len() == 0 {
        Seq::empty()
    } else {
        r_enum_values(domain, skip, enum_name, s.drop_last()).push(r_enum_value(domain, skip, enum_name, s.last()))
    }
}

/// The parameter of a function's signature: its type and name, as far as it
/// has them, with a space between.
pub open spec fn r_param(p: SpecParam) -> SpecNode {
    SpecNode::DescParameter(
        match (p.type_, p.declname) {
            (Some(t), Some(n)) => linked_nodes(t) + seq![SpecNode::DescSignatureSpace, SpecNode::DescSignatureName(n)],
            (Some(t), None) => linked_nodes(t),
            (None, Some(n)) => seq![SpecNode::DescSignatureName(n)],
            (None, None) => Seq::empty(),
        },
    )
}

/// The parameters of a function's signature.
pub open spec fn r_params(s: Seq<SpecParam>) -> Seq<SpecNode>
    decreases s.len(),
{
    if s.len() == 0 {
        Seq::empty()
    } else {
        r_params(s.drop_last()).push(r_param(s.last()))
    }
}

/// The line of a signature: the target, the keyword and a space, and the
/// name.
pub open spec fn keyword_line(target: SpecTarget, keyword: Seq<SpecNode>, name: Seq<char>) -> Seq<SpecNode> {
    seq![
        SpecNode::Target(target),
        SpecNode::DescSignatureKeyword(keyword),
        SpecNode::DescSignatureSpace,
        SpecNode::DescName(Box::new(SpecNode::DescSignatureName(name))),
    ]
}

/// Rendering a member definition. Its content is its descriptions (and, for
/// an enum, its values). With a domain, enums and functions are domain
/// entries. Otherwise a description block: a function's signature holds its
/// type (when it has one), name and parameters; every other signature its
/// kind and name.
pub open spec fn r_member_def(domain: Option<Domain>, skip: bool, m: SpecMemberDef) -> SpecNode {
    let content = descriptions(skip, m.brief_description, m.detailed_description);
    let target = id_target(m.id);
    let kind_line = keyword_line(target, seq![text(spec_member_kind_name(m.kind))], m.name);
    match m.kind {
        DoxMemberKind::Enum => {
            let content = content + r_enum_values(domain, skip, m.name, m.enumvalue);
            match domain {
                Some(d) => domain_entry(d, DomainEntryType::Enum, m.id, spec_member_def_text(d, m), content),
                None => desc_block(kind_line, content),
            }
        },
        DoxMemberKind::Function => match domain {
            Some(d) => domain_entry(d, DomainEntryType::Function, m.id, spec_member_def_text(d, m), content),
            None => desc_block(
                match m.type_ {
                    Some(t) => keyword_line(target, linked_nodes(t), m.name).push(
                        SpecNode::DescParameterList(r_params(m.param)),
                    ),
                    None => seq![
                        SpecNode::Target(target),
                        SpecNode::DescName(Box::new(SpecNode::DescSignatureName(m.name))),
                        SpecNode::DescParameterList(r_params(m.param)),
                    ],
                },
                content,
            ),
        },
        _ => desc_block(kind_line, content),
    }
}

/// Whether a name is all capital letters and underscores (and not empty).
pub open spec fn is_all_caps(name: Seq<char>) -> bool {
    name.len() > 0 && forall|i: int|
        0 <= i < name.len() ==> ('A' as u32 <= #[trigger] name[i] as u32 <= 'Z' as u32 || name[i] == '_')
}

/// Whether a member is left out when members with all-caps names are
/// skipped (`caps`): functions and variables whose names are all capital
/// letters and underscores, which are most often macros that the
/// preprocessor did not expand.
pub open spec fn skipped_member(caps: bool, m: SpecMemberDef) -> bool {
    caps && (m.kind == DoxMemberKind::Function || m.kind == DoxMemberKind::Variable) && is_all_caps(m.name)
}

/// The member definitions of a section, rendered, those that `caps` skips
/// left out.
pub open spec fn r_member_defs(domain: Option<Domain>, skip: bool, caps: bool, s: Seq<SpecMemberDef>) -> Seq<SpecNode>
    decreases s.len(),
{
    if s.len() == 0 {
        Seq::empty()
    } else if skipped_member(caps, s.last()) {
        r_member_defs(domain, skip, caps, s.drop_last())
    } else {
        r_member_defs(domain, skip, caps, s.drop_last()).push(r_member_def(domain, skip, s.last()))
    }
}

/// Rendering a section definition: a container of a rubric with the
/// section's title and its members (without those that `caps` skips).
pub open spec fn r_section_def(domain: Option<Domain>, skip: bool, caps: bool, s: SpecSectionDef) -> SpecNode {
    SpecNode::Container(
        seq![SpecNode::Rubric { classes: Seq::empty(), nodes: seq![text(spec_section_title(s.kind))] }]
            + r_member_defs(domain, skip, caps, s.member_defs),
    )
}

/// The section definitions of a compound, rendered.
pub open spec fn r_section_defs(domain: Option<Domain>, skip: bool, caps: bool, s: Seq<SpecSectionDef>) -> Seq<SpecNode>
    decreases s.len(),
{
    if s.len() == 0 {
        Seq::empty()
    } else {
        r_section_defs(domain, skip, caps, s.drop_last()).push(r_section_def(domain, skip, caps, s.last()))
    }
}

/// The wrapping of a compound's content: a domain entry for a class when
/// there is a domain, a description block of its kind and name otherwise.
pub open spec fn compound_block(domain: Option<Domain>, c: SpecCompoundDef, content: Seq<SpecNode>) -> SpecNode {
    match (domain, c.kind == crate::doxygen::compound::elements::DoxCompoundKind::Class) {
        (Some(d), true) => domain_entry(d, DomainEntryType::Class, c.id, spec_compound_def_text(d, c.compound_name), content),
        _ => desc_block(keyword_line(id_target(c.id), seq![text(spec_compound_kind_name(c.kind))], c.compound_name), content),
    }
}

/// The first member definition with id `id` among the sections, searching the
/// sections in order and each section's members in order.
pub open spec fn find_member(sections: Seq<SpecSectionDef>, id: Seq<char>) -> Option<SpecMemberDef>
    decreases sections.len(),
{
    if sections.len() == 0 {
        None
    } else {
        match find_member(sections.drop_last(), id) {
            Some(m) => Some(m),
            None => find_member_in(sections.last().member_defs, id),
        }
    }
}

/// The first member definition with id `id` in a list.
pub open spec fn find_member_in(members: Seq<SpecMemberDef>, id: Seq<char>) -> Option<SpecMemberDef>
    decreases members.len(),
{
    if members.len() == 0 {
        None
    } else {
        match find_member_in(members.drop_last(), id) {
            Some(m) => Some(m),
            None => if members.last().id == id {
                Some(members.last())
            } else {
                None
            },
        }
    }
}

// ---------------------------------------------------------------------------
// Compounds

/// Why a compound could not be rendered.
pub enum SpecRenderError {
    /// No compound with this id was loaded.
    MissingCompound(Seq<char>),
    /// Inner compounds were nested deeper than there are compounds, which
    /// only a cycle of inner references allows.
    TooDeep,
}

/// The compound loaded for `refid`: the first entry of the store with that
/// id.
pub open spec fn lookup(store: Seq<(Seq<char>, crate::doxygen::compound::elements::SpecDoxygen)>, refid: Seq<char>) -> Option<
    crate::doxygen::compound::elements::SpecDoxygen,
>
    decreases store.len(),
{
    if store.len() == 0 {
        None
    } else {
        match lookup(store.drop_last(), refid) {
            Some(d) => Some(d),
            None => if store.last().0 == refid {
                Some(store.last().1)
            } else {
                None
            },
        }
    }
}

/// The domain of a compound: that of its language, if it has one.
pub open spec fn compound_domain(c: SpecCompoundDef) -> Option<Domain> {
    match c.language {
        Some(l) => spec_language_domain(l),
        None => None,
    }
}

/// Rendering a compound file: nothing without a compound definition;
/// otherwise one node (a domain entry or a description block, as
/// `compound_block` states) whose content is the compound's descriptions, its
/// inner classes, its inner groups when `inner_groups` is set, and its
/// sections. Inner compounds are taken from the store, rendered the same way
/// with one less level of `fuel`. `skip` says whether `htmlonly` elements
/// are skipped, `caps` whether members with all-caps names are.
pub open spec fn r_compound(
    skip: bool,
    caps: bool,
    root: crate::doxygen::compound::elements::SpecDoxygen,
    inner_groups: bool,
    store: Seq<(Seq<char>, crate::doxygen::compound::elements::SpecDoxygen)>,
    fuel: nat,
) -> Result<Seq<SpecNode>, SpecRenderError>
    decreases fuel, 1int, 0int,
{
    match root.compound_def {
        None => Ok(Seq::empty()),
        Some(c) => {
            let domain = compound_domain(c);
            let desc = descriptions(skip, c.brief_description, c.detailed_description);
            match r_inner(skip, caps, c.innerclass, inner_groups, store, fuel) {
                Err(e) => Err(e),
                Ok(classes) => {
                    let groups = if inner_groups {
                        r_inner(skip, caps, c.innergroup, inner_groups, store, fuel)
                    } else {
                        Ok(Seq::empty())
                    };
                    match groups {
                        Err(e) => Err(e),
                        Ok(groups) => Ok(
                            seq![
                                compound_block(
                                    domain,
                                    c,
                                    desc + classes + groups + r_section_defs(domain, skip, caps, c.section_defs),
                                ),
                            ],
                        ),
                    }
                },
            }
        },
    }
}

/// Rendering the inner compounds that `refs` refer to, in order; the first
/// that fails decides the error.
pub open spec fn r_inner(
    skip: bool,
    caps: bool,
    refs: Seq<SpecRefType>,
    inner_groups: bool,
    store: Seq<(Seq<char>, crate::doxygen::compound::elements::SpecDoxygen)>,
    fuel: nat,
) -> Result<Seq<SpecNode>, SpecRenderError>
    decreases fuel, 0int, refs.len(),
{
    if refs.len() == 0 {
        Ok(Seq::empty())
    } else {
        match r_inner(skip, caps, refs.drop_last(), inner_groups, store, fuel) {
            Err(e) => Err(e),
            Ok(before) => match lookup(store, refs.last().refid) {
                None => Err(SpecRenderError::MissingCompound(refs.last().refid)),
                Some(root) => if fuel == 0 {
                    Err(SpecRenderError::TooDeep)
                } else {
                    match r_compound(skip, caps, root, inner_groups, store, (fuel - 1) as nat) {
                        Err(e) => Err(e),
                        Ok(nodes) => Ok(before + nodes),
                    }
                },
            },
        }
    }
}

} // verus!
