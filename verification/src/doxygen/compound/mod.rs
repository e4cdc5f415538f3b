//! Reading a Doxygen compound file.
//!
//! Each reader takes the event sequence of the file and a position just after
//! the start tag of the element it reads, and gives the element and the
//! position just after its end tag. Its contract is the reading rule of the
//! same element in `rules`: the element's model is what the rule gives, the
//! position is the rule's, and each error is the rule's.

pub mod elements;
pub mod laws;
pub mod rules;

use vstd::prelude::*;

use crate::doxygen::compound::elements::{
    CodelineType, CompoundDefType, DescriptionType, DescriptionTypeItem, DocCmdGroup, DocEmptyType,
    DocEntryType, DocHtmlOnlyType, DocListItemType, DocListType, DocMarkupType, DocMarkupTypeItem,
    DocParaType, DocParaTypeItem, DocParamListItem, DocParamListType, DocParamName, DocParamNameList,
    DocParamType, DocRefTextType, DocRefTextTypeItem, DocRowType, DocSimpleSectType, DocTableType,
    DocTitleCmdGroup, DocURLLink, DocURLLinkItem, DocXRefSectType, DoxBool, DoxCompoundKind, DoxLanguage,
    DoxMemberKind, DoxSectionKind, DoxSimpleSectKind, DoxygenType, EnumValueType, HighlightType,
    HighlightTypeItem, LinkedTextType, LinkedTextTypeItem, ListingType, MemberDefType, ParamType, RefTextType,
    RefType, SectionDefType, SpType, SpecHighlightItem, SpecLinkedTextItem, view_codelines, view_highlight_item,
    view_highlight_items, view_highlights, view_linked, view_linked_item, view_linked_items, view_ref_type,
};
use crate::doxygen::compound::elements::{
    MarkupKind, SpecDescriptionItem, SpecEntry, SpecMarkupItem, SpecParaItem, SpecParamListItem,
    SpecParamNameList, SpecTitleCmd, SpecTitleItem, view_cmd, view_description, view_description_items,
    view_entries, view_list_items, view_markup, view_markup_items, view_name_list, view_name_lists,
    view_opt_description, view_opt_string, view_para, view_para_items, view_paras, view_param_item,
    view_param_items, view_param_names, view_param_types, view_ref_items, view_row, view_rows,
    view_title_cmd, view_url_items, view_url_item, view_ref_item, view_markup_item, view_para_item,
    view_description_item, view_list_item, view_entry, SpecCmd, SpecDoxygen, SpecEnumValue, SpecMemberDef,
    SpecCompoundDef, SpecParam, SpecRefType, SpecSectionDef, view_compound_def, view_doxygen, view_enum_value, view_enum_values,
    view_member_def, view_member_defs, view_param, view_params, view_refs, view_section_def, view_section_defs,
};
use crate::doxygen::compound::rules::{
    block_element, empty_cmd_of, empty_title_cmd, skip_element, enum_attribute, title_element, int_attribute, markup_kind, optional_enum_attribute, read_cmd, read_codeline,
    read_description, read_highlight, read_linked, read_list, read_listing, read_markup, read_name_list,
    read_para, read_param_item, read_param_list, read_paras, read_ref_type, read_row, read_simple_sect,
    read_table, read_title_cmd, read_title_items, read_xref, empty_enum_value, read_compound_def, read_doxygen,
    read_enum_value, read_member_def, read_param, read_section_def, start_compound_def, start_member_def,
};
use crate::strings::{parse_i32, str_eq};
use crate::xml::{
    get_attribute_string, get_optional_attribute_string, parse_text, spec_tokenize, tokenize, view_xml_events, ParseError, StartTag, XmlEvent,
};

verus! {

// ---------------------------------------------------------------------------
// Linked text and code listings

/// Reads linked text up to the end tag named `end`: references (`ref` with a
/// `refid` attribute) and texts.
pub fn parse_linked_text(evs: &Vec<XmlEvent>, pos: usize, end: &str) -> (r: Result<(LinkedTextType, usize), ParseError>)
    ensures
        match (r, read_linked(evs@, pos as int, end@, Seq::empty())) {
            (Ok((l, p)), Ok((s, q))) => view_linked(l) == s && p == q && pos < p <= evs.len(),
            (Err(e), Err(f)) => e == f,
            _ => false,
        },
{
    let mut content: Vec<LinkedTextTypeItem> = Vec::new();
    let mut i = pos;
    let ghost target = read_linked(evs@, pos as int, end@, Seq::empty());
    assert(view_linked_items(content@) =~= Seq::<SpecLinkedTextItem>::empty());
    loop
        invariant
            pos <= i,
            target == read_linked(evs@, pos as int, end@, Seq::empty()),
            target == read_linked(evs@, i as int, end@, view_linked_items(content@)),
        decreases evs.len() - i,
    {
        if i >= evs.len() {
            return Err(ParseError::UnexpectedEof);
        }
        let ghost before = content@;
        match &evs[i] {
            XmlEvent::Start(tag) => {
                if !str_eq(tag.name.as_str(), "ref") {
                    return Err(ParseError::UnexpectedTag);
                }
                let refid = get_attribute_string("refid", tag)?;
                let (text, p) = parse_text(evs, i + 1)?;
                content.push(LinkedTextTypeItem::Ref(RefTextType { refid, content: text }));
                assert(view_linked_items(content@) =~= view_linked_items(before).push(view_linked_item(content@.last())));
                i = p;
            },
            XmlEvent::Text(t) => {
                content.push(LinkedTextTypeItem::Text(t.clone()));
                assert(view_linked_items(content@) =~= view_linked_items(before).push(view_linked_item(content@.last())));
                i = i + 1;
            },
            XmlEvent::End(n) => {
                if str_eq(n.as_str(), end) {
                    return Ok((LinkedTextType { content }, i + 1));
                }
                i = i + 1;
            },
            _ => {
                return Err(ParseError::UnexpectedEvent);
            },
        }
    }
}

/// Reads a highlighted stretch of code: references (`ref` with a `refid`
/// attribute), empty `sp` elements and texts.
pub fn parse_highlight(evs: &Vec<XmlEvent>, pos: usize) -> (r: Result<(HighlightType, usize), ParseError>)
    ensures
        match (r, read_highlight(evs@, pos as int, Seq::empty())) {
            (Ok((h, p)), Ok((s, q))) => view_highlight_items(h.content@) == s && p == q && pos < p <= evs.len(),
            (Err(e), Err(f)) => e == f,
            _ => false,
        },
{
    let mut content: Vec<HighlightTypeItem> = Vec::new();
    let mut i = pos;
    let ghost target = read_highlight(evs@, pos as int, Seq::empty());
    assert(view_highlight_items(content@) =~= Seq::<SpecHighlightItem>::empty());
    loop
        invariant
            pos <= i,
            target == read_highlight(evs@, pos as int, Seq::empty()),
            target == read_highlight(evs@, i as int, view_highlight_items(content@)),
        decreases evs.len() - i,
    {
        if i >= evs.len() {
            return Err(ParseError::UnexpectedEof);
        }
        let ghost before = content@;
        match &evs[i] {
            XmlEvent::Start(tag) => {
                if !str_eq(tag.name.as_str(), "ref") {
                    return Err(ParseError::UnexpectedTag);
                }
                let refid = get_attribute_string("refid", tag)?;
                let (text, p) = parse_text(evs, i + 1)?;
                content.push(HighlightTypeItem::Ref(RefTextType { refid, content: text }));
                assert(view_highlight_items(content@) =~= view_highlight_items(before).push(view_highlight_item(content@.last())));
                i = p;
            },
            XmlEvent::Empty(tag) => {
                if !str_eq(tag.name.as_str(), "sp") {
                    return Err(ParseError::UnexpectedEvent);
                }
                content.push(HighlightTypeItem::Sp(SpType {}));
                assert(view_highlight_items(content@) =~= view_highlight_items(before).push(view_highlight_item(content@.last())));
                i = i + 1;
            },
            XmlEvent::Text(t) => {
                content.push(HighlightTypeItem::Text(t.clone()));
                assert(view_highlight_items(content@) =~= view_highlight_items(before).push(view_highlight_item(content@.last())));
                i = i + 1;
            },
            XmlEvent::End(n) => {
                if str_eq(n.as_str(), "highlight") {
                    return Ok((HighlightType { content }, i + 1));
                }
                i = i + 1;
            },
            _ => {
                return Err(ParseError::UnexpectedEvent);
            },
        }
    }
}

/// Reads a line of a program listing: its `highlight` children; other events
/// are passed over.
pub fn parse_codeline(evs: &Vec<XmlEvent>, pos: usize) -> (r: Result<(CodelineType, usize), ParseError>)
    ensures
        match (r, read_codeline(evs@, pos as int, Seq::empty())) {
            (Ok((c, p)), Ok((s, q))) => view_highlights(c.highlight@) == s && p == q && pos < p <= evs.len(),
            (Err(e), Err(f)) => e == f,
            _ => false,
        },
{
    let mut highlight: Vec<HighlightType> = Vec::new();
    let mut i = pos;
    let ghost target = read_codeline(evs@, pos as int, Seq::empty());
    assert(view_highlights(highlight@) =~= Seq::<Seq<SpecHighlightItem>>::empty());
    loop
        invariant
            pos <= i,
            target == read_codeline(evs@, pos as int, Seq::empty()),
            target == read_codeline(evs@, i as int, view_highlights(highlight@)),
        decreases evs.len() - i,
    {
        if i >= evs.len() {
            return Err(ParseError::UnexpectedEof);
        }
        let ghost before = highlight@;
        match &evs[i] {
            XmlEvent::Start(tag) => {
                if str_eq(tag.name.as_str(), "highlight") {
                    let (h, p) = parse_highlight(evs, i + 1)?;
                    highlight.push(h);
                    assert(view_highlights(highlight@) =~= view_highlights(before).push(view_highlight_items(highlight@.last().content@)));
                    i = p;
                } else {
                    i = i + 1;
                }
            },
            XmlEvent::End(n) => {
                if str_eq(n.as_str(), "codeline") {
                    return Ok((CodelineType { highlight }, i + 1));
                }
                i = i + 1;
            },
            _ => {
                i = i + 1;
            },
        }
    }
}

/// Reads a program listing: its `codeline` children; other events are passed
/// over.
pub fn parse_listing(evs: &Vec<XmlEvent>, pos: usize) -> (r: Result<(ListingType, usize), ParseError>)
    ensures
        match (r, read_listing(evs@, pos as int, Seq::empty())) {
            (Ok((l, p)), Ok((s, q))) => view_codelines(l.codeline@) == s && p == q && pos < p <= evs.len(),
            (Err(e), Err(f)) => e == f,
            _ => false,
        },
{
    let mut codeline: Vec<CodelineType> = Vec::new();
    let mut i = pos;
    let ghost target = read_listing(evs@, pos as int, Seq::empty());
    assert(view_codelines(codeline@) =~= Seq::<Seq<Seq<SpecHighlightItem>>>::empty());
    loop
        invariant
            pos <= i,
            target == read_listing(evs@, pos as int, Seq::empty()),
            target == read_listing(evs@, i as int, view_codelines(codeline@)),
        decreases evs.len() - i,
    {
        if i >= evs.len() {
            return Err(ParseError::UnexpectedEof);
        }
        let ghost before = codeline@;
        match &evs[i] {
            XmlEvent::Start(tag) => {
                if str_eq(tag.name.as_str(), "codeline") {
                    let (c, p) = parse_codeline(evs, i + 1)?;
                    codeline.push(c);
                    assert(view_codelines(codeline@) =~= view_codelines(before).push(view_highlights(codeline@.last().highlight@)));
                    i = p;
                } else {
                    i = i + 1;
                }
            },
            XmlEvent::End(n) => {
                if str_eq(n.as_str(), "programlisting") {
                    return Ok((ListingType { codeline }, i + 1));
                }
                i = i + 1;
            },
            _ => {
                i = i + 1;
            },
        }
    }
}

/// Reads a reference to another compound whose start tag `tag` is at `pos`:
/// its `refid` attribute and its text.
pub fn parse_ref_type(evs: &Vec<XmlEvent>, pos: usize, tag: &StartTag) -> (r: Result<(RefType, usize), ParseError>)
    ensures
        match (r, read_ref_type(evs@, pos as int, *tag)) {
            (Ok((t, p)), Ok((s, q))) => view_ref_type(t) == s && p == q && pos < p <= evs.len(),
            (Err(e), Err(f)) => e == f,
            _ => false,
        },
{
    let refid = get_attribute_string("refid", tag)?;
    if pos >= evs.len() {
        return Err(ParseError::UnexpectedEof);
    }
    let (content, p) = parse_text(evs, pos + 1)?;
    Ok((RefType { refid, content }, p))
}

// ---------------------------------------------------------------------------
// Attributes

fn simple_sect_kind_attribute(tag: &StartTag) -> (r: Result<DoxSimpleSectKind, ParseError>)
    ensures
        r == enum_attribute(*tag, "kind"@, |s: Seq<char>| DoxSimpleSectKind::spec_from_str(s)),
{
    match get_optional_attribute_string("kind", tag)? {
        Some(v) => match DoxSimpleSectKind::from_str(v.as_str()) {
            Some(k) => Ok(k),
            None => Err(ParseError::InvalidValue),
        },
        None => Err(ParseError::MissingAttribute),
    }
}

fn bool_attribute(tag: &StartTag, name: &str) -> (r: Result<DoxBool, ParseError>)
    ensures
        r == enum_attribute(*tag, name@, |s: Seq<char>| DoxBool::spec_from_str(s)),
{
    match get_optional_attribute_string(name, tag)? {
        Some(v) => match DoxBool::from_str(v.as_str()) {
            Some(k) => Ok(k),
            None => Err(ParseError::InvalidValue),
        },
        None => Err(ParseError::MissingAttribute),
    }
}

fn optional_bool_attribute(tag: &StartTag, name: &str) -> (r: Result<Option<DoxBool>, ParseError>)
    ensures
        r == optional_enum_attribute(*tag, name@, |s: Seq<char>| DoxBool::spec_from_str(s)),
{
    match get_optional_attribute_string(name, tag)? {
        Some(v) => match DoxBool::from_str(v.as_str()) {
            Some(k) => Ok(Some(k)),
            None => Err(ParseError::InvalidValue),
        },
        None => Ok(None),
    }
}

fn int_attribute_value(tag: &StartTag, name: &str) -> (r: Result<i32, ParseError>)
    ensures
        r == int_attribute(*tag, name@),
{
    match get_optional_attribute_string(name, tag)? {
        Some(v) => match parse_i32(v.as_str()) {
            Some(n) => Ok(n),
            None => Err(ParseError::InvalidValue),
        },
        None => Err(ParseError::MissingAttribute),
    }
}

// ---------------------------------------------------------------------------
// Inline elements

fn markup_kind_of(name: &str) -> (r: Option<MarkupKind>)
    ensures
        r == markup_kind(name@),
{
    if str_eq(name, "bold") {
        Some(MarkupKind::Bold)
    } else if str_eq(name, "s") {
        Some(MarkupKind::S)
    } else if str_eq(name, "strike") {
        Some(MarkupKind::Strike)
    } else if str_eq(name, "underline") {
        Some(MarkupKind::Underline)
    } else if str_eq(name, "emphasis") {
        Some(MarkupKind::Emphasis)
    } else if str_eq(name, "computeroutput") {
        Some(MarkupKind::Computeroutput)
    } else if str_eq(name, "subscript") {
        Some(MarkupKind::Subscript)
    } else if str_eq(name, "superscript") {
        Some(MarkupKind::Superscript)
    } else if str_eq(name, "center") {
        Some(MarkupKind::Center)
    } else if str_eq(name, "small") {
        Some(MarkupKind::Small)
    } else if str_eq(name, "cite") {
        Some(MarkupKind::Cite)
    } else if str_eq(name, "del") {
        Some(MarkupKind::Del)
    } else if str_eq(name, "ins") {
        Some(MarkupKind::Ins)
    } else if str_eq(name, "summary") {
        Some(MarkupKind::Summary)
    } else {
        None
    }
}

fn markup_cmd(kind: MarkupKind, m: DocMarkupType) -> (r: DocTitleCmdGroup)
    ensures
        view_title_cmd(r) == SpecTitleCmd::Markup(kind, view_markup(m)),
{
    match kind {
        MarkupKind::Bold => DocTitleCmdGroup::Bold(m),
        MarkupKind::S => DocTitleCmdGroup::S(m),
        MarkupKind::Strike => DocTitleCmdGroup::Strike(m),
        MarkupKind::Underline => DocTitleCmdGroup::Underline(m),
        MarkupKind::Emphasis => DocTitleCmdGroup::Emphasis(m),
        MarkupKind::Computeroutput => DocTitleCmdGroup::Computeroutput(m),
        MarkupKind::Subscript => DocTitleCmdGroup::Subscript(m),
        MarkupKind::Superscript => DocTitleCmdGroup::Superscript(m),
        MarkupKind::Center => DocTitleCmdGroup::Center(m),
        MarkupKind::Small => DocTitleCmdGroup::Small(m),
        MarkupKind::Cite => DocTitleCmdGroup::Cite(m),
        MarkupKind::Del => DocTitleCmdGroup::Del(m),
        MarkupKind::Ins => DocTitleCmdGroup::Ins(m),
        MarkupKind::Summary => DocTitleCmdGroup::Summary(m),
    }
}

fn empty_title_cmd_exec(tag: &StartTag) -> (r: Result<DocTitleCmdGroup, ParseError>)
    ensures
        match (r, empty_title_cmd(*tag)) {
            (Ok(c), Ok(s)) => view_title_cmd(c) == s,
            (Err(e), Err(f)) => e == f,
            _ => false,
        },
{
    let name = tag.name.as_str();
    if str_eq(name, "linebreak") {
        Ok(DocTitleCmdGroup::Linebreak(DocEmptyType {}))
    } else if str_eq(name, "nonbreakablespace") {
        Ok(DocTitleCmdGroup::Nonbreakablespace(DocEmptyType {}))
    } else if str_eq(name, "ndash") {
        Ok(DocTitleCmdGroup::Ndash(DocEmptyType {}))
    } else if str_eq(name, "mdash") {
        Ok(DocTitleCmdGroup::Mdash(DocEmptyType {}))
    } else if str_eq(name, "lsquo") {
        Ok(DocTitleCmdGroup::Lsquo(DocEmptyType {}))
    } else if str_eq(name, "rsquo") {
        Ok(DocTitleCmdGroup::Rsquo(DocEmptyType {}))
    } else if str_eq(name, "ref") {
        let refid = get_attribute_string("refid", tag)?;
        let content: Vec<DocRefTextTypeItem> = Vec::new();
        assert(view_ref_items(content@) =~= Seq::empty());
        Ok(DocTitleCmdGroup::Ref(DocRefTextType { refid, content }))
    } else if str_eq(name, "ulink") {
        let url = get_attribute_string("url", tag)?;
        let content: Vec<DocURLLinkItem> = Vec::new();
        assert(view_url_items(content@) =~= Seq::empty());
        Ok(DocTitleCmdGroup::Ulink(DocURLLink { url, content }))
    } else if str_eq(name, "htmlonly") {
        let content = String::new();
        Ok(DocTitleCmdGroup::Htmlonly(DocHtmlOnlyType { content }))
    } else {
        match markup_kind_of(name) {
            Some(kind) => {
                let content: Vec<DocMarkupTypeItem> = Vec::new();
                assert(view_markup_items(content@) =~= Seq::empty());
                Ok(markup_cmd(kind, DocMarkupType { content }))
            },
            None => Ok(DocTitleCmdGroup::Unhandled(name.to_owned())),
        }
    }
}

fn empty_cmd_exec(tag: &StartTag) -> (r: Result<DocCmdGroup, ParseError>)
    ensures
        match (r, empty_cmd_of(*tag)) {
            (Ok(c), Ok(s)) => view_cmd(c) == s,
            (Err(e), Err(f)) => e == f,
            _ => false,
        },
{
    if str_eq(tag.name.as_str(), "preformatted") {
        let content: Vec<DocMarkupTypeItem> = Vec::new();
        assert(view_markup_items(content@) =~= Seq::empty());
        Ok(DocCmdGroup::Preformatted(DocMarkupType { content }))
    } else if str_eq(tag.name.as_str(), "verbatim") {
        Ok(DocCmdGroup::Verbatim(String::new()))
    } else {
        let t = empty_title_cmd_exec(tag)?;
        Ok(DocCmdGroup::DocTitleCmdGroup(t))
    }
}

/// Whether the schema has an inline element of this name.
fn is_title_element(name: &str) -> (r: bool)
    ensures
        r == title_element(name@),
{
    str_eq(name, "ulink")
        || str_eq(name, "bold")
        || str_eq(name, "s")
        || str_eq(name, "strike")
        || str_eq(name, "underline")
        || str_eq(name, "emphasis")
        || str_eq(name, "computeroutput")
        || str_eq(name, "subscript")
        || str_eq(name, "superscript")
        || str_eq(name, "center")
        || str_eq(name, "small")
        || str_eq(name, "cite")
        || str_eq(name, "del")
        || str_eq(name, "ins")
        || str_eq(name, "summary")
        || str_eq(name, "htmlonly")
        || str_eq(name, "manonly")
        || str_eq(name, "xmlonly")
        || str_eq(name, "rtfonly")
        || str_eq(name, "latexonly")
        || str_eq(name, "docbookonly")
        || str_eq(name, "image")
        || str_eq(name, "dot")
        || str_eq(name, "msc")
        || str_eq(name, "plantuml")
        || str_eq(name, "anchor")
        || str_eq(name, "formula")
        || str_eq(name, "ref")
        || str_eq(name, "emoji")
        || str_eq(name, "linebreak")
        || str_eq(name, "nonbreakablespace")
        || str_eq(name, "iexcl")
        || str_eq(name, "cent")
        || str_eq(name, "pound")
        || str_eq(name, "curren")
        || str_eq(name, "yen")
        || str_eq(name, "brvbar")
        || str_eq(name, "sect")
        || str_eq(name, "umlaut")
        || str_eq(name, "copy")
        || str_eq(name, "ordf")
        || str_eq(name, "laquo")
        || str_eq(name, "not")
        || str_eq(name, "shy")
        || str_eq(name, "registered")
        || str_eq(name, "macr")
        || str_eq(name, "deg")
        || str_eq(name, "plusmn")
        || str_eq(name, "sup2")
        || str_eq(name, "sup3")
        || str_eq(name, "acute")
        || str_eq(name, "micro")
        || str_eq(name, "para")
        || str_eq(name, "middot")
        || str_eq(name, "cedil")
        || str_eq(name, "sup1")
        || str_eq(name, "ordm")
        || str_eq(name, "raquo")
        || str_eq(name, "frac14")
        || str_eq(name, "frac12")
        || str_eq(name, "frac34")
        || str_eq(name, "iquest")
        || str_eq(name, "Agrave")
        || str_eq(name, "Aacute")
        || str_eq(name, "Acirc")
        || str_eq(name, "Atilde")
        || str_eq(name, "Aumlaut")
        || str_eq(name, "Aring")
        || str_eq(name, "AElig")
        || str_eq(name, "Ccedil")
        || str_eq(name, "Egrave")
        || str_eq(name, "Eacute")
        || str_eq(name, "Ecirc")
        || str_eq(name, "Eumlaut")
        || str_eq(name, "Igrave")
        || str_eq(name, "Iacute")
        || str_eq(name, "Icirc")
        || str_eq(name, "Iumlaut")
        || str_eq(name, "ETH")
        || str_eq(name, "Ntilde")
        || str_eq(name, "Ograve")
        || str_eq(name, "Oacute")
        || str_eq(name, "Ocirc")
        || str_eq(name, "Otilde")
        || str_eq(name, "Oumlaut")
        || str_eq(name, "times")
        || str_eq(name, "Oslash")
        || str_eq(name, "Ugrave")
        || str_eq(name, "Uacute")
        || str_eq(name, "Ucirc")
        || str_eq(name, "Uumlaut")
        || str_eq(name, "Yacute")
        || str_eq(name, "THORN")
        || str_eq(name, "szlig")
        || str_eq(name, "agrave")
        || str_eq(name, "aacute")
        || str_eq(name, "acirc")
        || str_eq(name, "atilde")
        || str_eq(name, "aumlaut")
        || str_eq(name, "aring")
        || str_eq(name, "aelig")
        || str_eq(name, "ccedil")
        || str_eq(name, "egrave")
        || str_eq(name, "eacute")
        || str_eq(name, "ecirc")
        || str_eq(name, "eumlaut")
        || str_eq(name, "igrave")
        || str_eq(name, "iacute")
        || str_eq(name, "icirc")
        || str_eq(name, "iumlaut")
        || str_eq(name, "eth")
        || str_eq(name, "ntilde")
        || str_eq(name, "ograve")
        || str_eq(name, "oacute")
        || str_eq(name, "ocirc")
        || str_eq(name, "otilde")
        || str_eq(name, "oumlaut")
        || str_eq(name, "divide")
        || str_eq(name, "oslash")
        || str_eq(name, "ugrave")
        || str_eq(name, "uacute")
        || str_eq(name, "ucirc")
        || str_eq(name, "uumlaut")
        || str_eq(name, "yacute")
        || str_eq(name, "thorn")
        || str_eq(name, "yumlaut")
        || str_eq(name, "fnof")
        || str_eq(name, "Alpha")
        || str_eq(name, "Beta")
        || str_eq(name, "Gamma")
        || str_eq(name, "Delta")
        || str_eq(name, "Epsilon")
        || str_eq(name, "Zeta")
        || str_eq(name, "Eta")
        || str_eq(name, "Theta")
        || str_eq(name, "Iota")
        || str_eq(name, "Kappa")
        || str_eq(name, "Lambda")
        || str_eq(name, "Mu")
        || str_eq(name, "Nu")
        || str_eq(name, "Xi")
        || str_eq(name, "Omicron")
        || str_eq(name, "Pi")
        || str_eq(name, "Rho")
        || str_eq(name, "Sigma")
        || str_eq(name, "Tau")
        || str_eq(name, "Upsilon")
        || str_eq(name, "Phi")
        || str_eq(name, "Chi")
        || str_eq(name, "Psi")
        || str_eq(name, "Omega")
        || str_eq(name, "alpha")
        || str_eq(name, "beta")
        || str_eq(name, "gamma")
        || str_eq(name, "delta")
        || str_eq(name, "epsilon")
        || str_eq(name, "zeta")
        || str_eq(name, "eta")
        || str_eq(name, "theta")
        || str_eq(name, "iota")
        || str_eq(name, "kappa")
        || str_eq(name, "lambda")
        || str_eq(name, "mu")
        || str_eq(name, "nu")
        || str_eq(name, "xi")
        || str_eq(name, "omicron")
        || str_eq(name, "pi")
        || str_eq(name, "rho")
        || str_eq(name, "sigmaf")
        || str_eq(name, "sigma")
        || str_eq(name, "tau")
        || str_eq(name, "upsilon")
        || str_eq(name, "phi")
        || str_eq(name, "chi")
        || str_eq(name, "psi")
        || str_eq(name, "omega")
        || str_eq(name, "thetasym")
        || str_eq(name, "upsih")
        || str_eq(name, "piv")
        || str_eq(name, "bull")
        || str_eq(name, "hellip")
        || str_eq(name, "prime")
        || str_eq(name, "Prime")
        || str_eq(name, "oline")
        || str_eq(name, "frasl")
        || str_eq(name, "weierp")
        || str_eq(name, "imaginary")
        || str_eq(name, "real")
        || str_eq(name, "trademark")
        || str_eq(name, "alefsym")
        || str_eq(name, "larr")
        || str_eq(name, "uarr")
        || str_eq(name, "rarr")
        || str_eq(name, "darr")
        || str_eq(name, "harr")
        || str_eq(name, "crarr")
        || str_eq(name, "lArr")
        || str_eq(name, "uArr")
        || str_eq(name, "rArr")
        || str_eq(name, "dArr")
        || str_eq(name, "hArr")
        || str_eq(name, "forall")
        || str_eq(name, "part")
        || str_eq(name, "exist")
        || str_eq(name, "empty")
        || str_eq(name, "nabla")
        || str_eq(name, "isin")
        || str_eq(name, "notin")
        || str_eq(name, "ni")
        || str_eq(name, "prod")
        || str_eq(name, "sum")
        || str_eq(name, "minus")
        || str_eq(name, "lowast")
        || str_eq(name, "radic")
        || str_eq(name, "prop")
        || str_eq(name, "infin")
        || str_eq(name, "ang")
        || str_eq(name, "and")
        || str_eq(name, "or")
        || str_eq(name, "cap")
        || str_eq(name, "cup")
        || str_eq(name, "int")
        || str_eq(name, "there4")
        || str_eq(name, "sim")
        || str_eq(name, "cong")
        || str_eq(name, "asymp")
        || str_eq(name, "ne")
        || str_eq(name, "equiv")
        || str_eq(name, "le")
        || str_eq(name, "ge")
        || str_eq(name, "sub")
        || str_eq(name, "sup")
        || str_eq(name, "nsub")
        || str_eq(name, "sube")
        || str_eq(name, "supe")
        || str_eq(name, "oplus")
        || str_eq(name, "otimes")
        || str_eq(name, "perp")
        || str_eq(name, "sdot")
        || str_eq(name, "lceil")
        || str_eq(name, "rceil")
        || str_eq(name, "lfloor")
        || str_eq(name, "rfloor")
        || str_eq(name, "lang")
        || str_eq(name, "rang")
        || str_eq(name, "loz")
        || str_eq(name, "spades")
        || str_eq(name, "clubs")
        || str_eq(name, "hearts")
        || str_eq(name, "diams")
        || str_eq(name, "OElig")
        || str_eq(name, "oelig")
        || str_eq(name, "Scaron")
        || str_eq(name, "scaron")
        || str_eq(name, "Yumlaut")
        || str_eq(name, "circ")
        || str_eq(name, "tilde")
        || str_eq(name, "ensp")
        || str_eq(name, "emsp")
        || str_eq(name, "thinsp")
        || str_eq(name, "zwnj")
        || str_eq(name, "zwj")
        || str_eq(name, "lrm")
        || str_eq(name, "rlm")
        || str_eq(name, "ndash")
        || str_eq(name, "mdash")
        || str_eq(name, "lsquo")
        || str_eq(name, "rsquo")
        || str_eq(name, "sbquo")
        || str_eq(name, "ldquo")
        || str_eq(name, "rdquo")
        || str_eq(name, "bdquo")
        || str_eq(name, "dagger")
        || str_eq(name, "Dagger")
        || str_eq(name, "permil")
        || str_eq(name, "lsaquo")
        || str_eq(name, "rsaquo")
        || str_eq(name, "euro")
        || str_eq(name, "tm")
}

/// Whether the schema has a block element of this name.
fn is_block_element(name: &str) -> (r: bool)
    ensures
        r == block_element(name@),
{
    str_eq(name, "hruler")
        || str_eq(name, "preformatted")
        || str_eq(name, "programlisting")
        || str_eq(name, "verbatim")
        || str_eq(name, "javadocliteral")
        || str_eq(name, "javadoccode")
        || str_eq(name, "indexentry")
        || str_eq(name, "orderedlist")
        || str_eq(name, "itemizedlist")
        || str_eq(name, "simplesect")
        || str_eq(name, "title")
        || str_eq(name, "variablelist")
        || str_eq(name, "table")
        || str_eq(name, "heading")
        || str_eq(name, "dotfile")
        || str_eq(name, "mscfile")
        || str_eq(name, "diafile")
        || str_eq(name, "toclist")
        || str_eq(name, "language")
        || str_eq(name, "parameterlist")
        || str_eq(name, "xrefsect")
        || str_eq(name, "copydoc")
        || str_eq(name, "details")
        || str_eq(name, "blockquote")
        || str_eq(name, "parblock")
}

proof fn lemma_skip_element_bounds(evs: Seq<XmlEvent>, pos: int, depth: nat)
    ensures
        skip_element(evs, pos, depth) matches Ok(p) ==> pos < p <= evs.len(),
    decreases evs.len() - pos,
{
    if 0 <= pos < evs.len() {
        match evs[pos] {
            XmlEvent::Start(_) => lemma_skip_element_bounds(evs, pos + 1, depth + 1),
            XmlEvent::End(_) => if depth > 0 {
                lemma_skip_element_bounds(evs, pos + 1, (depth - 1) as nat);
            },
            _ => lemma_skip_element_bounds(evs, pos + 1, depth),
        }
    }
}

/// Reads over an element whose content starts at `pos`, with all it holds,
/// as `skip_element` states: the position after its end tag.
pub fn skip_element_exec(evs: &Vec<XmlEvent>, pos: usize) -> (r: Result<usize, ParseError>)
    ensures
        match (r, skip_element(evs@, pos as int, 0)) {
            (Ok(p), Ok(q)) => p == q && pos < p <= evs.len(),
            (Err(e), Err(f)) => e == f,
            _ => false,
        },
{
    let mut i = pos;
    let mut depth: usize = 0;
    proof {
        lemma_skip_element_bounds(evs@, pos as int, 0);
    }
    loop
        invariant
            pos <= i,
            depth <= i - pos,
            skip_element(evs@, pos as int, 0) == skip_element(evs@, i as int, depth as nat),
            skip_element(evs@, pos as int, 0) matches Ok(p) ==> pos < p <= evs.len(),
        decreases evs.len() - i,
    {
        if i >= evs.len() {
            return Err(ParseError::UnexpectedEof);
        }
        match &evs[i] {
            XmlEvent::Start(_) => {
                depth = depth + 1;
            },
            XmlEvent::End(_) => {
                if depth == 0 {
                    return Ok(i + 1);
                }
                depth = depth - 1;
            },
            _ => {},
        }
        i = i + 1;
    }
}

fn url_items(items: Vec<DocRefTextTypeItem>) -> (r: Vec<DocURLLinkItem>)
    ensures
        view_url_items(r@) == view_ref_items(items@),
{
    let ghost orig = items@;
    let n = items.len();
    let mut items = items;
    let mut out: Vec<DocURLLinkItem> = Vec::new();
    let mut k: usize = 0;
    assert(orig.subrange(0, 0) =~= Seq::<DocRefTextTypeItem>::empty());
    assert(orig.subrange(0, n as int) =~= orig);
    while k < n
        invariant
            n == orig.len(),
            k <= n,
            items@ =~= orig.subrange(k as int, n as int),
            view_url_items(out@) == view_ref_items(orig.subrange(0, k as int)),
        decreases n - k,
    {
        let ghost before = out@;
        let x = items.remove(0);
        assert(x == orig[k as int]);
        let y = match x {
            DocRefTextTypeItem::DocTitleCmdGroup(c) => DocURLLinkItem::DocTitleCmdGroup(c),
            DocRefTextTypeItem::Text(t) => DocURLLinkItem::Text(t),
        };
        assert(view_url_item(y) == view_ref_item(x));
        out.push(y);
        assert(out@.drop_last() =~= before);
        assert(view_url_items(out@) == view_url_items(before).push(view_url_item(y)));
        assert(orig.subrange(0, k + 1).drop_last() =~= orig.subrange(0, k as int));
        k = k + 1;
        assert(items@ =~= orig.subrange(k as int, n as int));
    }
    out
}

/// Reads one inline element whose start tag `tag` is at `pos`: a reference
/// (`ref` with `refid`), a link (`ulink` with `url`), markup or raw HTML.
pub fn parse_title_cmd(evs: &Vec<XmlEvent>, pos: usize, tag: &StartTag) -> (r: Result<(DocTitleCmdGroup, usize), ParseError>)
    ensures
        match (r, read_title_cmd(evs@, pos as int, *tag)) {
            (Ok((c, p)), Ok((s, q))) => view_title_cmd(c) == s && p == q && pos < p <= evs.len(),
            (Err(e), Err(f)) => e == f,
            _ => false,
        },
    decreases evs.len() - pos, 0int,
{
    if pos >= evs.len() {
        return Err(ParseError::UnexpectedEof);
    }
    let name = tag.name.as_str();
    if str_eq(name, "ref") {
        let refid = get_attribute_string("refid", tag)?;
        let (content, p) = parse_title_items(evs, pos + 1, name)?;
        Ok((DocTitleCmdGroup::Ref(DocRefTextType { refid, content }), p))
    } else if str_eq(name, "ulink") {
        let url = get_attribute_string("url", tag)?;
        let (content, p) = parse_title_items(evs, pos + 1, name)?;
        Ok((DocTitleCmdGroup::Ulink(DocURLLink { url, content: url_items(content) }), p))
    } else if str_eq(name, "htmlonly") {
        let (content, p) = parse_text(evs, pos + 1)?;
        Ok((DocTitleCmdGroup::Htmlonly(DocHtmlOnlyType { content }), p))
    } else {
        match markup_kind_of(name) {
            Some(kind) => {
                let (m, p) = parse_markup(evs, pos + 1, name)?;
                Ok((markup_cmd(kind, m), p))
            },
            None => {
                if !is_title_element(name) {
                    return Err(ParseError::UnexpectedTag);
                }
                let p = skip_element_exec(evs, pos + 1)?;
                Ok((DocTitleCmdGroup::Unhandled(name.to_owned()), p))
            },
        }
    }
}

/// Reads the text of a reference or a link up to the end tag named `end`:
/// inline elements, empty character elements and texts.
pub fn parse_title_items(evs: &Vec<XmlEvent>, pos: usize, end: &str) -> (r: Result<(Vec<DocRefTextTypeItem>, usize), ParseError>)
    ensures
        match (r, read_title_items(evs@, pos as int, end@, Seq::empty())) {
            (Ok((c, p)), Ok((s, q))) => view_ref_items(c@) == s && p == q && pos < p <= evs.len(),
            (Err(e), Err(f)) => e == f,
            _ => false,
        },
    decreases evs.len() - pos, 2int,
{
    let mut content: Vec<DocRefTextTypeItem> = Vec::new();
    let mut i = pos;
    let ghost target = read_title_items(evs@, pos as int, end@, Seq::empty());
    assert(view_ref_items(content@) =~= Seq::<SpecTitleItem>::empty());
    loop
        invariant
            pos <= i,
            target == read_title_items(evs@, pos as int, end@, Seq::empty()),
            target == read_title_items(evs@, i as int, end@, view_ref_items(content@)),
        decreases evs.len() - i,
    {
        if i >= evs.len() {
            return Err(ParseError::UnexpectedEof);
        }
        let ghost before = content@;
        match &evs[i] {
            XmlEvent::Start(tag) => {
                let (c, p) = parse_title_cmd(evs, i, tag)?;
                content.push(DocRefTextTypeItem::DocTitleCmdGroup(c));
                assert(content@.drop_last() =~= before);
                assert(view_ref_items(content@) == view_ref_items(before).push(view_ref_item(content@.last())));
                i = p;
            },
            XmlEvent::Empty(tag) => {
                if !is_title_element(tag.name.as_str()) {
                    return Err(ParseError::UnexpectedTag);
                }
                let c = empty_title_cmd_exec(tag)?;
                content.push(DocRefTextTypeItem::DocTitleCmdGroup(c));
                assert(content@.drop_last() =~= before);
                assert(view_ref_items(content@) == view_ref_items(before).push(view_ref_item(content@.last())));
                i = i + 1;
            },
            XmlEvent::Text(t) => {
                content.push(DocRefTextTypeItem::Text(t.clone()));
                assert(content@.drop_last() =~= before);
                assert(view_ref_items(content@) == view_ref_items(before).push(view_ref_item(content@.last())));
                i = i + 1;
            },
            XmlEvent::End(n) => {
                if str_eq(n.as_str(), end) {
                    return Ok((content, i + 1));
                }
                i = i + 1;
            },
            XmlEvent::Other => {
                return Err(ParseError::UnexpectedEvent);
            },
        }
    }
}

/// Reads marked up text up to the end tag named `end`: the elements of a
/// paragraph, empty character elements and texts.
pub fn parse_markup(evs: &Vec<XmlEvent>, pos: usize, end: &str) -> (r: Result<(DocMarkupType, usize), ParseError>)
    ensures
        match (r, read_markup(evs@, pos as int, end@, Seq::empty())) {
            (Ok((m, p)), Ok((s, q))) => view_markup(m) == s && p == q && pos < p <= evs.len(),
            (Err(e), Err(f)) => e == f,
            _ => false,
        },
    decreases evs.len() - pos, 2int,
{
    let mut content: Vec<DocMarkupTypeItem> = Vec::new();
    let mut i = pos;
    let ghost target = read_markup(evs@, pos as int, end@, Seq::empty());
    assert(view_markup_items(content@) =~= Seq::<SpecMarkupItem>::empty());
    loop
        invariant
            pos <= i,
            target == read_markup(evs@, pos as int, end@, Seq::empty()),
            target == read_markup(evs@, i as int, end@, view_markup_items(content@)),
        decreases evs.len() - i,
    {
        if i >= evs.len() {
            return Err(ParseError::UnexpectedEof);
        }
        let ghost before = content@;
        match &evs[i] {
            XmlEvent::Start(tag) => {
                let (c, p) = parse_cmd(evs, i, tag)?;
                content.push(DocMarkupTypeItem::DocCmdGroup(c));
                assert(content@.drop_last() =~= before);
                assert(view_markup_items(content@) == view_markup_items(before).push(view_markup_item(content@.last())));
                i = p;
            },
            XmlEvent::Empty(tag) => {
                if !is_title_element(tag.name.as_str()) && !is_block_element(tag.name.as_str()) {
                    return Err(ParseError::UnexpectedTag);
                }
                let c = empty_cmd_exec(tag)?;
                content.push(DocMarkupTypeItem::DocCmdGroup(c));
                assert(content@.drop_last() =~= before);
                assert(view_markup_items(content@) == view_markup_items(before).push(view_markup_item(content@.last())));
                i = i + 1;
            },
            XmlEvent::Text(t) => {
                content.push(DocMarkupTypeItem::Text(t.clone()));
                assert(content@.drop_last() =~= before);
                assert(view_markup_items(content@) == view_markup_items(before).push(view_markup_item(content@.last())));
                i = i + 1;
            },
            XmlEvent::End(n) => {
                if str_eq(n.as_str(), end) {
                    return Ok((DocMarkupType { content }, i + 1));
                }
                i = i + 1;
            },
            XmlEvent::Other => {
                return Err(ParseError::UnexpectedEvent);
            },
        }
    }
}

/// Reads a paragraph: its inline elements, lists, listings, tables, simple
/// sections, parameter lists and cross-referenced sections, its empty
/// character elements and its texts.
pub fn parse_para(evs: &Vec<XmlEvent>, pos: usize) -> (r: Result<(DocParaType, usize), ParseError>)
    ensures
        match (r, read_para(evs@, pos as int, Seq::empty())) {
            (Ok((d, p)), Ok((s, q))) => view_para(d) == s && p == q && pos < p <= evs.len(),
            (Err(e), Err(f)) => e == f,
            _ => false,
        },
    decreases evs.len() - pos, 2int,
{
    let mut content: Vec<DocParaTypeItem> = Vec::new();
    let mut i = pos;
    let ghost target = read_para(evs@, pos as int, Seq::empty());
    assert(view_para_items(content@) =~= Seq::<SpecParaItem>::empty());
    loop
        invariant
            pos <= i,
            target == read_para(evs@, pos as int, Seq::empty()),
            target == read_para(evs@, i as int, view_para_items(content@)),
        decreases evs.len() - i,
    {
        if i >= evs.len() {
            return Err(ParseError::UnexpectedEof);
        }
        let ghost before = content@;
        match &evs[i] {
            XmlEvent::Start(tag) => {
                let (c, p) = parse_cmd(evs, i, tag)?;
                content.push(DocParaTypeItem::DocCmdGroup(c));
                assert(content@.drop_last() =~= before);
                assert(view_para_items(content@) == view_para_items(before).push(view_para_item(content@.last())));
                i = p;
            },
            XmlEvent::Empty(tag) => {
                if !is_title_element(tag.name.as_str()) && !is_block_element(tag.name.as_str()) {
                    return Err(ParseError::UnexpectedTag);
                }
                let c = empty_cmd_exec(tag)?;
                content.push(DocParaTypeItem::DocCmdGroup(c));
                assert(content@.drop_last() =~= before);
                assert(view_para_items(content@) == view_para_items(before).push(view_para_item(content@.last())));
                i = i + 1;
            },
            XmlEvent::Text(t) => {
                content.push(DocParaTypeItem::Text(t.clone()));
                assert(content@.drop_last() =~= before);
                assert(view_para_items(content@) == view_para_items(before).push(view_para_item(content@.last())));
                i = i + 1;
            },
            XmlEvent::End(n) => {
                if str_eq(n.as_str(), "para") {
                    return Ok((DocParaType { content }, i + 1));
                }
                i = i + 1;
            },
            XmlEvent::Other => {
                return Err(ParseError::UnexpectedEvent);
            },
        }
    }
}

/// Reads one element of a paragraph whose start tag `tag` is at `pos`. Lists
/// and simple sections must hold at least one item (`EmptyList`), tables need
/// integer `rows` and `cols`, simple sections a `kind` and cross-referenced
/// sections an `id`; every other name is read as an inline element.
pub fn parse_cmd(evs: &Vec<XmlEvent>, pos: usize, tag: &StartTag) -> (r: Result<(DocCmdGroup, usize), ParseError>)
    ensures
        match (r, read_cmd(evs@, pos as int, *tag)) {
            (Ok((c, p)), Ok((s, q))) => view_cmd(c) == s && p == q && pos < p <= evs.len(),
            (Err(e), Err(f)) => e == f,
            _ => false,
        },
    decreases evs.len() - pos, 1int,
{
    if pos >= evs.len() {
        return Err(ParseError::UnexpectedEof);
    }
    let name = tag.name.as_str();
    if str_eq(name, "preformatted") {
        let (m, p) = parse_markup(evs, pos + 1, name)?;
        Ok((DocCmdGroup::Preformatted(m), p))
    } else if str_eq(name, "verbatim") {
        let (t, p) = parse_text(evs, pos + 1)?;
        Ok((DocCmdGroup::Verbatim(t), p))
    } else if str_eq(name, "programlisting") {
        let (l, p) = parse_listing(evs, pos + 1)?;
        Ok((DocCmdGroup::ProgramListing(l), p))
    } else if str_eq(name, "itemizedlist") || str_eq(name, "orderedlist") {
        let (l, p) = parse_list(evs, pos + 1, name)?;
        if l.listitem.len() == 0 {
            Err(ParseError::EmptyList)
        } else if str_eq(name, "itemizedlist") {
            Ok((DocCmdGroup::ItemizedList(l), p))
        } else {
            Ok((DocCmdGroup::OrderedList(l), p))
        }
    } else if str_eq(name, "simplesect") {
        let kind = simple_sect_kind_attribute(tag)?;
        let (para, p) = parse_simple_sect(evs, pos + 1)?;
        if para.len() == 0 {
            Err(ParseError::EmptyList)
        } else {
            Ok((DocCmdGroup::Simplesect(DocSimpleSectType { kind, para }), p))
        }
    } else if str_eq(name, "table") {
        let rows = int_attribute_value(tag, "rows")?;
        let cols = int_attribute_value(tag, "cols")?;
        let (row, p) = parse_table(evs, pos + 1)?;
        Ok((DocCmdGroup::Table(DocTableType { rows, cols, row }), p))
    } else if str_eq(name, "parameterlist") {
        let (l, p) = parse_parameter_list(evs, pos + 1)?;
        Ok((DocCmdGroup::ParameterList(l), p))
    } else if str_eq(name, "xrefsect") {
        let id = get_attribute_string("id", tag)?;
        let (x, p) = parse_xref(evs, pos + 1)?;
        let (xreftitle, xrefdescription) = x;
        Ok((DocCmdGroup::Xrefsect(DocXRefSectType { id, xreftitle, xrefdescription }), p))
    } else if is_block_element(name) {
        let p = skip_element_exec(evs, pos + 1)?;
        Ok((DocCmdGroup::DocTitleCmdGroup(DocTitleCmdGroup::Unhandled(name.to_owned())), p))
    } else {
        let (t, p) = parse_title_cmd(evs, pos, tag)?;
        Ok((DocCmdGroup::DocTitleCmdGroup(t), p))
    }
}

// ---------------------------------------------------------------------------
// Blocks made of paragraphs

/// Reads a description up to the end tag named `end`: paragraphs and texts.
pub fn parse_description(evs: &Vec<XmlEvent>, pos: usize, end: &str) -> (r: Result<(DescriptionType, usize), ParseError>)
    ensures
        match (r, read_description(evs@, pos as int, end@, Seq::empty())) {
            (Ok((d, p)), Ok((s, q))) => view_description(d) == s && p == q && pos < p <= evs.len(),
            (Err(e), Err(f)) => e == f,
            _ => false,
        },
    decreases evs.len() - pos, 2int,
{
    let mut content: Vec<DescriptionTypeItem> = Vec::new();
    let mut i = pos;
    let ghost target = read_description(evs@, pos as int, end@, Seq::empty());
    assert(view_description_items(content@) =~= Seq::<SpecDescriptionItem>::empty());
    loop
        invariant
            pos <= i,
            target == read_description(evs@, pos as int, end@, Seq::empty()),
            target == read_description(evs@, i as int, end@, view_description_items(content@)),
        decreases evs.len() - i,
    {
        if i >= evs.len() {
            return Err(ParseError::UnexpectedEof);
        }
        let ghost before = content@;
        match &evs[i] {
            XmlEvent::Start(tag) => {
                if str_eq(tag.name.as_str(), "para") {
                    let (para, p) = parse_para(evs, i + 1)?;
                    content.push(DescriptionTypeItem::Para(para));
                    assert(content@.drop_last() =~= before);
                    assert(view_description_items(content@) == view_description_items(before).push(view_description_item(content@.last())));
                    i = p;
                } else {
                    i = skip_element_exec(evs, i + 1)?;
                }
            },
            XmlEvent::Text(t) => {
                content.push(DescriptionTypeItem::Text(t.clone()));
                assert(content@.drop_last() =~= before);
                assert(view_description_items(content@) == view_description_items(before).push(view_description_item(content@.last())));
                i = i + 1;
            },
            XmlEvent::End(n) => {
                if str_eq(n.as_str(), end) {
                    return Ok((DescriptionType { content }, i + 1));
                }
                i = i + 1;
            },
            _ => {
                i = i + 1;
            },
        }
    }
}

/// Reads the paragraphs of a simple section; any other element (its title)
/// is passed over whole, as are other events.
pub fn parse_simple_sect(evs: &Vec<XmlEvent>, pos: usize) -> (r: Result<(Vec<DocParaType>, usize), ParseError>)
    ensures
        match (r, read_simple_sect(evs@, pos as int, Seq::empty())) {
            (Ok((d, p)), Ok((s, q))) => view_paras(d@) == s && p == q && pos < p <= evs.len(),
            (Err(e), Err(f)) => e == f,
            _ => false,
        },
    decreases evs.len() - pos, 2int,
{
    let mut para: Vec<DocParaType> = Vec::new();
    let mut i = pos;
    let ghost target = read_simple_sect(evs@, pos as int, Seq::empty());
    assert(view_paras(para@) =~= Seq::<Seq<SpecParaItem>>::empty());
    loop
        invariant
            pos <= i,
            target == read_simple_sect(evs@, pos as int, Seq::empty()),
            target == read_simple_sect(evs@, i as int, view_paras(para@)),
        decreases evs.len() - i,
    {
        if i >= evs.len() {
            return Err(ParseError::UnexpectedEof);
        }
        let ghost before = para@;
        match &evs[i] {
            XmlEvent::Start(tag) => {
                if !str_eq(tag.name.as_str(), "para") {
                    i = skip_element_exec(evs, i + 1)?;
                    continue;
                }
                let (d, p) = parse_para(evs, i + 1)?;
                para.push(d);
                assert(para@.drop_last() =~= before);
                i = p;
            },
            XmlEvent::End(n) => {
                if str_eq(n.as_str(), "simplesect") {
                    return Ok((para, i + 1));
                }
                i = i + 1;
            },
            _ => {
                i = i + 1;
            },
        }
    }
}

/// Reads the items of a list up to the end tag named `end`: its `listitem`
/// children; other events are passed over.
pub fn parse_list(evs: &Vec<XmlEvent>, pos: usize, end: &str) -> (r: Result<(DocListType, usize), ParseError>)
    ensures
        match (r, read_list(evs@, pos as int, end@, Seq::empty())) {
            (Ok((l, p)), Ok((s, q))) => view_list_items(l.listitem@) == s && p == q && pos < p <= evs.len(),
            (Err(e), Err(f)) => e == f,
            _ => false,
        },
    decreases evs.len() - pos, 2int,
{
    let mut listitem: Vec<DocListItemType> = Vec::new();
    let mut i = pos;
    let ghost target = read_list(evs@, pos as int, end@, Seq::empty());
    assert(view_list_items(listitem@) =~= Seq::<Seq<Seq<SpecParaItem>>>::empty());
    loop
        invariant
            pos <= i,
            target == read_list(evs@, pos as int, end@, Seq::empty()),
            target == read_list(evs@, i as int, end@, view_list_items(listitem@)),
        decreases evs.len() - i,
    {
        if i >= evs.len() {
            return Err(ParseError::UnexpectedEof);
        }
        let ghost before = listitem@;
        match &evs[i] {
            XmlEvent::Start(tag) => {
                if str_eq(tag.name.as_str(), "listitem") {
                    let (para, p) = parse_paras(evs, i + 1, "listitem")?;
                    listitem.push(DocListItemType { para });
                    assert(listitem@.drop_last() =~= before);
                assert(view_list_items(listitem@) == view_list_items(before).push(view_list_item(listitem@.last())));
                    i = p;
                } else {
                    i = i + 1;
                }
            },
            XmlEvent::End(n) => {
                if str_eq(n.as_str(), end) {
                    return Ok((DocListType { listitem }, i + 1));
                }
                i = i + 1;
            },
            _ => {
                i = i + 1;
            },
        }
    }
}

/// Reads the paragraphs of a list item or a table cell up to the end tag named
/// `end`; other events are passed over.
pub fn parse_paras(evs: &Vec<XmlEvent>, pos: usize, end: &str) -> (r: Result<(Vec<DocParaType>, usize), ParseError>)
    ensures
        match (r, read_paras(evs@, pos as int, end@, Seq::empty())) {
            (Ok((d, p)), Ok((s, q))) => view_paras(d@) == s && p == q && pos < p <= evs.len(),
            (Err(e), Err(f)) => e == f,
            _ => false,
        },
    decreases evs.len() - pos, 2int,
{
    let mut para: Vec<DocParaType> = Vec::new();
    let mut i = pos;
    let ghost target = read_paras(evs@, pos as int, end@, Seq::empty());
    assert(view_paras(para@) =~= Seq::<Seq<SpecParaItem>>::empty());
    loop
        invariant
            pos <= i,
            target == read_paras(evs@, pos as int, end@, Seq::empty()),
            target == read_paras(evs@, i as int, end@, view_paras(para@)),
        decreases evs.len() - i,
    {
        if i >= evs.len() {
            return Err(ParseError::UnexpectedEof);
        }
        let ghost before = para@;
        match &evs[i] {
            XmlEvent::Start(tag) => {
                if str_eq(tag.name.as_str(), "para") {
                    let (d, p) = parse_para(evs, i + 1)?;
                    para.push(d);
                    assert(para@.drop_last() =~= before);
                    i = p;
                } else {
                    i = i + 1;
                }
            },
            XmlEvent::End(n) => {
                if str_eq(n.as_str(), end) {
                    return Ok((para, i + 1));
                }
                i = i + 1;
            },
            _ => {
                i = i + 1;
            },
        }
    }
}

/// Reads the rows of a table: its `row` children; other events are passed
/// over.
pub fn parse_table(evs: &Vec<XmlEvent>, pos: usize) -> (r: Result<(Vec<DocRowType>, usize), ParseError>)
    ensures
        match (r, read_table(evs@, pos as int, Seq::empty())) {
            (Ok((d, p)), Ok((s, q))) => view_rows(d@) == s && p == q && pos < p <= evs.len(),
            (Err(e), Err(f)) => e == f,
            _ => false,
        },
    decreases evs.len() - pos, 2int,
{
    let mut row: Vec<DocRowType> = Vec::new();
    let mut i = pos;
    let ghost target = read_table(evs@, pos as int, Seq::empty());
    assert(view_rows(row@) =~= Seq::<Seq<SpecEntry>>::empty());
    loop
        invariant
            pos <= i,
            target == read_table(evs@, pos as int, Seq::empty()),
            target == read_table(evs@, i as int, view_rows(row@)),
        decreases evs.len() - i,
    {
        if i >= evs.len() {
            return Err(ParseError::UnexpectedEof);
        }
        let ghost before = row@;
        match &evs[i] {
            XmlEvent::Start(tag) => {
                if str_eq(tag.name.as_str(), "row") {
                    let (d, p) = parse_row(evs, i + 1)?;
                    row.push(d);
                    assert(row@.drop_last() =~= before);
                    i = p;
                } else {
                    i = i + 1;
                }
            },
            XmlEvent::End(n) => {
                if str_eq(n.as_str(), "table") {
                    return Ok((row, i + 1));
                }
                i = i + 1;
            },
            _ => {
                i = i + 1;
            },
        }
    }
}

/// Reads the cells of a table row: its `entry` children, each with a `thead`
/// attribute; other events are passed over.
pub fn parse_row(evs: &Vec<XmlEvent>, pos: usize) -> (r: Result<(DocRowType, usize), ParseError>)
    ensures
        match (r, read_row(evs@, pos as int, Seq::empty())) {
            (Ok((d, p)), Ok((s, q))) => view_row(d) == s && p == q && pos < p <= evs.len(),
            (Err(e), Err(f)) => e == f,
            _ => false,
        },
    decreases evs.len() - pos, 2int,
{
    let mut entry: Vec<DocEntryType> = Vec::new();
    let mut i = pos;
    let ghost target = read_row(evs@, pos as int, Seq::empty());
    assert(view_entries(entry@) =~= Seq::<SpecEntry>::empty());
    loop
        invariant
            pos <= i,
            target == read_row(evs@, pos as int, Seq::empty()),
            target == read_row(evs@, i as int, view_entries(entry@)),
        decreases evs.len() - i,
    {
        if i >= evs.len() {
            return Err(ParseError::UnexpectedEof);
        }
        let ghost before = entry@;
        match &evs[i] {
            XmlEvent::Start(tag) => {
                if str_eq(tag.name.as_str(), "entry") {
                    let thead = bool_attribute(tag, "thead")?;
                    let (para, p) = parse_paras(evs, i + 1, "entry")?;
                    entry.push(DocEntryType { thead, para });
                    assert(entry@.drop_last() =~= before);
                assert(view_entries(entry@) == view_entries(before).push(view_entry(entry@.last())));
                    i = p;
                } else {
                    i = i + 1;
                }
            },
            XmlEvent::End(n) => {
                if str_eq(n.as_str(), "row") {
                    return Ok((DocRowType { entry }, i + 1));
                }
                i = i + 1;
            },
            _ => {
                i = i + 1;
            },
        }
    }
}

/// Reads a parameter list: its `parameteritem` children; no other element
/// may occur in it, and texts and other events are passed over.
pub fn parse_parameter_list(evs: &Vec<XmlEvent>, pos: usize) -> (r: Result<(DocParamListType, usize), ParseError>)
    ensures
        match (r, read_param_list(evs@, pos as int, Seq::empty())) {
            (Ok((d, p)), Ok((s, q))) => view_param_items(d.parameter_item@) == s && p == q && pos < p <= evs.len(),
            (Err(e), Err(f)) => e == f,
            _ => false,
        },
    decreases evs.len() - pos, 2int,
{
    let mut parameter_item: Vec<DocParamListItem> = Vec::new();
    let mut i = pos;
    let ghost target = read_param_list(evs@, pos as int, Seq::empty());
    assert(view_param_items(parameter_item@) =~= Seq::<SpecParamListItem>::empty());
    loop
        invariant
            pos <= i,
            target == read_param_list(evs@, pos as int, Seq::empty()),
            target == read_param_list(evs@, i as int, view_param_items(parameter_item@)),
        decreases evs.len() - i,
    {
        if i >= evs.len() {
            return Err(ParseError::UnexpectedEof);
        }
        let ghost before = parameter_item@;
        match &evs[i] {
            XmlEvent::Start(tag) => {
                if !str_eq(tag.name.as_str(), "parameteritem") {
                    return Err(ParseError::UnexpectedTag);
                }
                let (d, p) = parse_parameter_item(evs, i + 1)?;
                parameter_item.push(d);
                assert(parameter_item@.drop_last() =~= before);
                i = p;
            },
            XmlEvent::End(n) => {
                if str_eq(n.as_str(), "parameterlist") {
                    return Ok((DocParamListType { parameter_item }, i + 1));
                }
                i = i + 1;
            },
            _ => {
                i = i + 1;
            },
        }
    }
}

/// Reads a parameter item: its `parameternamelist` children and its
/// `parameterdescription`, which must occur (`MissingElement`); no other
/// element may occur in it, and texts and other events are passed over.
pub fn parse_parameter_item(evs: &Vec<XmlEvent>, pos: usize) -> (r: Result<(DocParamListItem, usize), ParseError>)
    ensures
        match (r, read_param_item(evs@, pos as int, Seq::empty(), None)) {
            (Ok((d, p)), Ok((s, q))) => view_param_item(d) == s && p == q && pos < p <= evs.len(),
            (Err(e), Err(f)) => e == f,
            _ => false,
        },
    decreases evs.len() - pos, 2int,
{
    let mut names: Vec<DocParamNameList> = Vec::new();
    let mut desc: Option<DescriptionType> = None;
    let mut i = pos;
    let ghost target = read_param_item(evs@, pos as int, Seq::empty(), None);
    assert(view_name_lists(names@) =~= Seq::<SpecParamNameList>::empty());
    loop
        invariant
            pos <= i,
            target == read_param_item(evs@, pos as int, Seq::empty(), None),
            target == read_param_item(evs@, i as int, view_name_lists(names@), view_opt_description(desc)),
        decreases evs.len() - i,
    {
        if i >= evs.len() {
            return Err(ParseError::UnexpectedEof);
        }
        let ghost before = names@;
        match &evs[i] {
            XmlEvent::Start(tag) => {
                if str_eq(tag.name.as_str(), "parameternamelist") {
                    let (d, p) = parse_parameter_name_list(evs, i + 1)?;
                    names.push(d);
                    assert(view_name_lists(names@) =~= view_name_lists(before).push(view_name_list(names@.last())));
                    i = p;
                } else if str_eq(tag.name.as_str(), "parameterdescription") {
                    let (d, p) = parse_description(evs, i + 1, "parameterdescription")?;
                    desc = Some(d);
                    i = p;
                } else {
                    return Err(ParseError::UnexpectedTag);
                }
            },
            XmlEvent::End(n) => {
                if str_eq(n.as_str(), "parameteritem") {
                    return match desc {
                        Some(d) => Ok((DocParamListItem { parameter_name_list: names, parameter_description: d }, i + 1)),
                        None => Err(ParseError::MissingElement),
                    };
                }
                i = i + 1;
            },
            _ => {
                i = i + 1;
            },
        }
    }
}

/// Reads a parameter name list: its `parametertype` and `parametername`
/// children, each linked text; no other element may occur in it, and texts
/// and other events are passed over.
pub fn parse_parameter_name_list(evs: &Vec<XmlEvent>, pos: usize) -> (r: Result<(DocParamNameList, usize), ParseError>)
    ensures
        match (r, read_name_list(evs@, pos as int, Seq::empty(), Seq::empty())) {
            (Ok((d, p)), Ok((s, q))) => view_name_list(d) == s && p == q && pos < p <= evs.len(),
            (Err(e), Err(f)) => e == f,
            _ => false,
        },
{
    let mut parameter_type: Vec<DocParamType> = Vec::new();
    let mut parameter_name: Vec<DocParamName> = Vec::new();
    let mut i = pos;
    let ghost target = read_name_list(evs@, pos as int, Seq::empty(), Seq::empty());
    assert(view_param_types(parameter_type@) =~= Seq::<Seq<SpecLinkedTextItem>>::empty());
    assert(view_param_names(parameter_name@) =~= Seq::<Seq<SpecLinkedTextItem>>::empty());
    loop
        invariant
            pos <= i,
            target == read_name_list(evs@, pos as int, Seq::empty(), Seq::empty()),
            target == read_name_list(evs@, i as int, view_param_types(parameter_type@), view_param_names(parameter_name@)),
        decreases evs.len() - i,
    {
        if i >= evs.len() {
            return Err(ParseError::UnexpectedEof);
        }
        let ghost types_before = parameter_type@;
        let ghost names_before = parameter_name@;
        match &evs[i] {
            XmlEvent::Start(tag) => {
                if str_eq(tag.name.as_str(), "parametertype") {
                    let (l, p) = parse_linked_text(evs, i + 1, "parametertype")?;
                    parameter_type.push(DocParamType { content: l.content });
                    assert(view_param_types(parameter_type@) =~= view_param_types(types_before).push(
                        view_linked_items(parameter_type@.last().content@),
                    ));
                    i = p;
                } else if str_eq(tag.name.as_str(), "parametername") {
                    let (l, p) = parse_linked_text(evs, i + 1, "parametername")?;
                    parameter_name.push(DocParamName { content: l.content });
                    assert(view_param_names(parameter_name@) =~= view_param_names(names_before).push(
                        view_linked_items(parameter_name@.last().content@),
                    ));
                    i = p;
                } else {
                    return Err(ParseError::UnexpectedTag);
                }
            },
            XmlEvent::End(n) => {
                if str_eq(n.as_str(), "parameternamelist") {
                    return Ok((DocParamNameList { parameter_type, parameter_name }, i + 1));
                }
                i = i + 1;
            },
            _ => {
                i = i + 1;
            },
        }
    }
}

/// Reads a cross-referenced section: its `xreftitle` text and its
/// `xrefdescription`, both of which must occur (`MissingElement`); other
/// events are passed over.
pub fn parse_xref(evs: &Vec<XmlEvent>, pos: usize) -> (r: Result<((String, DescriptionType), usize), ParseError>)
    ensures
        match (r, read_xref(evs@, pos as int, None, None)) {
            (Ok(((t, d), p)), Ok(((st, sd), q))) => t@ == st && view_description(d) == sd && p == q && pos < p <= evs.len(),
            (Err(e), Err(f)) => e == f,
            _ => false,
        },
    decreases evs.len() - pos, 2int,
{
    let mut title: Option<String> = None;
    let mut desc: Option<DescriptionType> = None;
    let mut i = pos;
    let ghost target = read_xref(evs@, pos as int, None, None);
    loop
        invariant
            pos <= i,
            target == read_xref(evs@, pos as int, None, None),
            target == read_xref(evs@, i as int, view_opt_string(title), view_opt_description(desc)),
        decreases evs.len() - i,
    {
        if i >= evs.len() {
            return Err(ParseError::UnexpectedEof);
        }
        match &evs[i] {
            XmlEvent::Start(tag) => {
                if str_eq(tag.name.as_str(), "xreftitle") {
                    let (t, p) = parse_text(evs, i + 1)?;
                    title = Some(t);
                    i = p;
                } else if str_eq(tag.name.as_str(), "xrefdescription") {
                    let (d, p) = parse_description(evs, i + 1, "xrefdescription")?;
                    desc = Some(d);
                    i = p;
                } else {
                    i = i + 1;
                }
            },
            XmlEvent::End(n) => {
                if str_eq(n.as_str(), "xrefsect") {
                    return match (title, desc) {
                        (Some(t), Some(d)) => Ok(((t, d), i + 1)),
                        _ => Err(ParseError::MissingElement),
                    };
                }
                i = i + 1;
            },
            _ => {
                i = i + 1;
            },
        }
    }
}

// ---------------------------------------------------------------------------
// Definitions

fn member_kind_attribute(tag: &StartTag) -> (r: Result<DoxMemberKind, ParseError>)
    ensures
        r == enum_attribute(*tag, "kind"@, |s: Seq<char>| DoxMemberKind::spec_from_str(s)),
{
    match get_optional_attribute_string("kind", tag)? {
        Some(v) => match DoxMemberKind::from_str(v.as_str()) {
            Some(k) => Ok(k),
            None => Err(ParseError::InvalidValue),
        },
        None => Err(ParseError::MissingAttribute),
    }
}

fn section_kind_attribute(tag: &StartTag) -> (r: Result<DoxSectionKind, ParseError>)
    ensures
        r == enum_attribute(*tag, "kind"@, |s: Seq<char>| DoxSectionKind::spec_from_str(s)),
{
    match get_optional_attribute_string("kind", tag)? {
        Some(v) => match DoxSectionKind::from_str(v.as_str()) {
            Some(k) => Ok(k),
            None => Err(ParseError::InvalidValue),
        },
        None => Err(ParseError::MissingAttribute),
    }
}

fn compound_kind_attribute(tag: &StartTag) -> (r: Result<DoxCompoundKind, ParseError>)
    ensures
        r == enum_attribute(*tag, "kind"@, |s: Seq<char>| DoxCompoundKind::spec_from_str(s)),
{
    match get_optional_attribute_string("kind", tag)? {
        Some(v) => match DoxCompoundKind::from_str(v.as_str()) {
            Some(k) => Ok(k),
            None => Err(ParseError::InvalidValue),
        },
        None => Err(ParseError::MissingAttribute),
    }
}

fn language_attribute(tag: &StartTag) -> (r: Result<Option<DoxLanguage>, ParseError>)
    ensures
        r == optional_enum_attribute(*tag, "language"@, |s: Seq<char>| DoxLanguage::spec_from_str(s)),
{
    match get_optional_attribute_string("language", tag)? {
        Some(v) => match DoxLanguage::from_str(v.as_str()) {
            Some(k) => Ok(Some(k)),
            None => Err(ParseError::InvalidValue),
        },
        None => Ok(None),
    }
}

/// Reads a parameter of a function: its `type`, `declname` and `defname`;
/// other events are passed over.
pub fn parse_param(evs: &Vec<XmlEvent>, pos: usize) -> (r: Result<(ParamType, usize), ParseError>)
    ensures
        match (r, read_param(evs@, pos as int, SpecParam { type_: None, declname: None, defname: None })) {
            (Ok((d, p)), Ok((s, q))) => view_param(d) == s && p == q && pos < p <= evs.len(),
            (Err(e), Err(f)) => e == f,
            _ => false,
        },
{
    let mut acc = ParamType { type_: None, declname: None, defname: None };
    let mut i = pos;
    let ghost target = read_param(evs@, pos as int, SpecParam { type_: None, declname: None, defname: None });
    loop
        invariant
            pos <= i,
            target == read_param(evs@, pos as int, SpecParam { type_: None, declname: None, defname: None }),
            target == read_param(evs@, i as int, view_param(acc)),
        decreases evs.len() - i,
    {
        if i >= evs.len() {
            return Err(ParseError::UnexpectedEof);
        }
        match &evs[i] {
            XmlEvent::Start(tag) => {
                if str_eq(tag.name.as_str(), "type") {
                    let (l, p) = parse_linked_text(evs, i + 1, "type")?;
                    acc.type_ = Some(l);
                    i = p;
                } else if str_eq(tag.name.as_str(), "declname") {
                    let (t, p) = parse_text(evs, i + 1)?;
                    acc.declname = Some(t);
                    i = p;
                } else if str_eq(tag.name.as_str(), "defname") {
                    let (t, p) = parse_text(evs, i + 1)?;
                    acc.defname = Some(t);
                    i = p;
                } else {
                    i = i + 1;
                }
            },
            XmlEvent::End(n) => {
                if str_eq(n.as_str(), "param") {
                    return Ok((acc, i + 1));
                }
                i = i + 1;
            },
            _ => {
                i = i + 1;
            },
        }
    }
}

/// Reads an enum value whose `id` was read from its start tag: its `name`,
/// `initializer` and descriptions; other events are passed over.
pub fn parse_enum_value(evs: &Vec<XmlEvent>, pos: usize, id: String) -> (r: Result<(EnumValueType, usize), ParseError>)
    ensures
        match (r, read_enum_value(evs@, pos as int, empty_enum_value(id@))) {
            (Ok((d, p)), Ok((s, q))) => view_enum_value(d) == s && p == q && pos < p <= evs.len(),
            (Err(e), Err(f)) => e == f,
            _ => false,
        },
{
    let ghost sid = id@;
    let mut acc = EnumValueType {
        id,
        name: String::new(),
        initializer: None,
        brief_description: None,
        detailed_description: None,
    };
    let mut i = pos;
    let ghost target = read_enum_value(evs@, pos as int, empty_enum_value(sid));
    assert(view_enum_value(acc) == empty_enum_value(sid));
    loop
        invariant
            pos <= i,
            target == read_enum_value(evs@, pos as int, empty_enum_value(sid)),
            sid == id@,
            target == read_enum_value(evs@, i as int, view_enum_value(acc)),
        decreases evs.len() - i,
    {
        if i >= evs.len() {
            return Err(ParseError::UnexpectedEof);
        }
        match &evs[i] {
            XmlEvent::Start(tag) => {
                let name = tag.name.as_str();
                if str_eq(name, "name") {
                    let (t, p) = parse_text(evs, i + 1)?;
                    acc.name = t;
                    i = p;
                } else if str_eq(name, "initializer") {
                    let (l, p) = parse_linked_text(evs, i + 1, "initializer")?;
                    acc.initializer = Some(l);
                    i = p;
                } else if str_eq(name, "briefdescription") {
                    let (d, p) = parse_description(evs, i + 1, name)?;
                    acc.brief_description = Some(d);
                    i = p;
                } else if str_eq(name, "detaileddescription") {
                    let (d, p) = parse_description(evs, i + 1, name)?;
                    acc.detailed_description = Some(d);
                    i = p;
                } else {
                    i = i + 1;
                }
            },
            XmlEvent::End(n) => {
                if str_eq(n.as_str(), "enumvalue") {
                    return Ok((acc, i + 1));
                }
                i = i + 1;
            },
            _ => {
                i = i + 1;
            },
        }
    }
}

/// The member definition that reading starts from, from its start tag: `id`,
/// `kind` and `static` are required, `const` and `inline` are optional.
pub fn member_def_start(tag: &StartTag) -> (r: Result<MemberDefType, ParseError>)
    ensures
        match (r, start_member_def(*tag)) {
            (Ok(m), Ok(s)) => view_member_def(m) == s,
            (Err(e), Err(f)) => e == f,
            _ => false,
        },
{
    let id = get_attribute_string("id", tag)?;
    let kind = member_kind_attribute(tag)?;
    let static_ = bool_attribute(tag, "static")?;
    let const_ = optional_bool_attribute(tag, "const")?;
    let inline = optional_bool_attribute(tag, "inline")?;
    let m = MemberDefType {
        kind,
        id,
        static_,
        const_,
        inline,
        type_: None,
        name: String::new(),
        qualifiedname: None,
        argsstring: None,
        param: Vec::new(),
        enumvalue: Vec::new(),
        brief_description: None,
        detailed_description: None,
    };
    assert(view_params(m.param@) =~= Seq::<SpecParam>::empty());
    assert(view_enum_values(m.enumvalue@) =~= Seq::<SpecEnumValue>::empty());
    Ok(m)
}

/// Reads a member definition whose start was read by `member_def_start`: its
/// `type`, `name`, `qualifiedname`, `argsstring`, `param` and `enumvalue`
/// children (each enum value with an `id`) and its descriptions; other events
/// are passed over.
pub fn parse_member_def(evs: &Vec<XmlEvent>, pos: usize, start: MemberDefType) -> (r: Result<(MemberDefType, usize), ParseError>)
    ensures
        match (r, read_member_def(evs@, pos as int, view_member_def(start))) {
            (Ok((d, p)), Ok((s, q))) => view_member_def(d) == s && p == q && pos < p <= evs.len(),
            (Err(e), Err(f)) => e == f,
            _ => false,
        },
{
    let mut acc = start;
    let mut i = pos;
    let ghost target = read_member_def(evs@, pos as int, view_member_def(start));
    loop
        invariant
            pos <= i,
            target == read_member_def(evs@, pos as int, view_member_def(start)),
            target == read_member_def(evs@, i as int, view_member_def(acc)),
        decreases evs.len() - i,
    {
        if i >= evs.len() {
            return Err(ParseError::UnexpectedEof);
        }
        match &evs[i] {
            XmlEvent::Start(tag) => {
                let name = tag.name.as_str();
                if str_eq(name, "type") {
                    let (l, p) = parse_linked_text(evs, i + 1, "type")?;
                    acc.type_ = Some(l);
                    i = p;
                } else if str_eq(name, "name") {
                    let (t, p) = parse_text(evs, i + 1)?;
                    acc.name = t;
                    i = p;
                } else if str_eq(name, "qualifiedname") {
                    let (t, p) = parse_text(evs, i + 1)?;
                    acc.qualifiedname = Some(t);
                    i = p;
                } else if str_eq(name, "argsstring") {
                    let (t, p) = parse_text(evs, i + 1)?;
                    acc.argsstring = Some(t);
                    i = p;
                } else if str_eq(name, "param") {
                    let (v, p) = parse_param(evs, i + 1)?;
                    let ghost before = acc.param@;
                    acc.param.push(v);
                    assert(view_params(acc.param@) =~= view_params(before).push(view_param(acc.param@.last())));
                    i = p;
                } else if str_eq(name, "enumvalue") {
                    let id = get_attribute_string("id", tag)?;
                    let (v, p) = parse_enum_value(evs, i + 1, id)?;
                    let ghost before = acc.enumvalue@;
                    acc.enumvalue.push(v);
                    assert(view_enum_values(acc.enumvalue@) =~= view_enum_values(before).push(
                        view_enum_value(acc.enumvalue@.last()),
                    ));
                    i = p;
                } else if str_eq(name, "briefdescription") {
                    let (d, p) = parse_description(evs, i + 1, name)?;
                    acc.brief_description = Some(d);
                    i = p;
                } else if str_eq(name, "detaileddescription") {
                    let (d, p) = parse_description(evs, i + 1, name)?;
                    acc.detailed_description = Some(d);
                    i = p;
                } else {
                    i = skip_element_exec(evs, i + 1)?;
                }
            },
            XmlEvent::End(n) => {
                if str_eq(n.as_str(), "memberdef") {
                    return Ok((acc, i + 1));
                }
                i = i + 1;
            },
            _ => {
                i = i + 1;
            },
        }
    }
}

/// Reads the members of a section definition: `memberdef` children, of which
/// there must be at least one (`EmptyList`); other elements (its `header` and
/// `description`) are passed over whole, as are other events.
pub fn parse_section_def(evs: &Vec<XmlEvent>, pos: usize) -> (r: Result<(Vec<MemberDefType>, usize), ParseError>)
    ensures
        match (r, read_section_def(evs@, pos as int, Seq::empty())) {
            (Ok((d, p)), Ok((s, q))) => view_member_defs(d@) == s && p == q && pos < p <= evs.len() && d.len() > 0,
            (Err(e), Err(f)) => e == f,
            _ => false,
        },
{
    let mut member_defs: Vec<MemberDefType> = Vec::new();
    let mut i = pos;
    let ghost target = read_section_def(evs@, pos as int, Seq::empty());
    assert(view_member_defs(member_defs@) =~= Seq::<SpecMemberDef>::empty());
    loop
        invariant
            pos <= i,
            target == read_section_def(evs@, pos as int, Seq::empty()),
            target == read_section_def(evs@, i as int, view_member_defs(member_defs@)),
        decreases evs.len() - i,
    {
        if i >= evs.len() {
            return Err(ParseError::UnexpectedEof);
        }
        match &evs[i] {
            XmlEvent::Start(tag) => {
                if !str_eq(tag.name.as_str(), "memberdef") {
                    i = skip_element_exec(evs, i + 1)?;
                    continue;
                }
                let start = member_def_start(tag)?;
                let (m, p) = parse_member_def(evs, i + 1, start)?;
                let ghost before = member_defs@;
                member_defs.push(m);
                assert(view_member_defs(member_defs@) =~= view_member_defs(before).push(
                    view_member_def(member_defs@.last()),
                ));
                i = p;
            },
            XmlEvent::End(n) => {
                if str_eq(n.as_str(), "sectiondef") {
                    if member_defs.len() == 0 {
                        return Err(ParseError::EmptyList);
                    }
                    return Ok((member_defs, i + 1));
                }
                i = i + 1;
            },
            _ => {
                i = i + 1;
            },
        }
    }
}

/// The compound definition that reading starts from, from its start tag:
/// `id` and `kind` are required, `language` is optional.
pub fn compound_def_start(tag: &StartTag) -> (r: Result<CompoundDefType, ParseError>)
    ensures
        match (r, start_compound_def(*tag)) {
            (Ok(c), Ok(s)) => view_compound_def(c) == s,
            (Err(e), Err(f)) => e == f,
            _ => false,
        },
{
    let id = get_attribute_string("id", tag)?;
    let kind = compound_kind_attribute(tag)?;
    let language = language_attribute(tag)?;
    let c = CompoundDefType {
        id,
        kind,
        language,
        compound_name: String::new(),
        brief_description: None,
        detailed_description: None,
        innerclass: Vec::new(),
        innergroup: Vec::new(),
        section_defs: Vec::new(),
    };
    assert(view_refs(c.innerclass@) =~= Seq::<SpecRefType>::empty());
    assert(view_refs(c.innergroup@) =~= Seq::<SpecRefType>::empty());
    assert(view_section_defs(c.section_defs@) =~= Seq::<SpecSectionDef>::empty());
    Ok(c)
}

/// Reads a compound definition whose start was read by `compound_def_start`:
/// its `compoundname`, descriptions, `innerclass` and `innergroup` references
/// and `sectiondef` children (each with a `kind`); other elements are passed
/// over whole, as are other events.
pub fn parse_compound_def(evs: &Vec<XmlEvent>, pos: usize, start: CompoundDefType) -> (r: Result<(CompoundDefType, usize), ParseError>)
    ensures
        match (r, read_compound_def(evs@, pos as int, view_compound_def(start))) {
            (Ok((d, p)), Ok((s, q))) => view_compound_def(d) == s && p == q && pos < p <= evs.len(),
            (Err(e), Err(f)) => e == f,
            _ => false,
        },
{
    let mut acc = start;
    let mut i = pos;
    let ghost target = read_compound_def(evs@, pos as int, view_compound_def(start));
    loop
        invariant
            pos <= i,
            target == read_compound_def(evs@, pos as int, view_compound_def(start)),
            target == read_compound_def(evs@, i as int, view_compound_def(acc)),
        decreases evs.len() - i,
    {
        if i >= evs.len() {
            return Err(ParseError::UnexpectedEof);
        }
        match &evs[i] {
            XmlEvent::Start(tag) => {
                let name = tag.name.as_str();
                if str_eq(name, "compoundname") {
                    let (t, p) = parse_text(evs, i + 1)?;
                    acc.compound_name = t;
                    i = p;
                } else if str_eq(name, "briefdescription") {
                    let (d, p) = parse_description(evs, i + 1, name)?;
                    acc.brief_description = Some(d);
                    i = p;
                } else if str_eq(name, "detaileddescription") {
                    let (d, p) = parse_description(evs, i + 1, name)?;
                    acc.detailed_description = Some(d);
                    i = p;
                } else if str_eq(name, "innerclass") {
                    let (r, p) = parse_ref_type(evs, i, tag)?;
                    let ghost before = acc.innerclass@;
                    acc.innerclass.push(r);
                    assert(view_refs(acc.innerclass@) =~= view_refs(before).push(view_ref_type(acc.innerclass@.last())));
                    i = p;
                } else if str_eq(name, "innergroup") {
                    let (r, p) = parse_ref_type(evs, i, tag)?;
                    let ghost before = acc.innergroup@;
                    acc.innergroup.push(r);
                    assert(view_refs(acc.innergroup@) =~= view_refs(before).push(view_ref_type(acc.innergroup@.last())));
                    i = p;
                } else if str_eq(name, "sectiondef") {
                    let kind = section_kind_attribute(tag)?;
                    let (member_defs, p) = parse_section_def(evs, i + 1)?;
                    let ghost before = acc.section_defs@;
                    acc.section_defs.push(SectionDefType { kind, member_defs });
                    assert(view_section_defs(acc.section_defs@) =~= view_section_defs(before).push(
                        view_section_def(acc.section_defs@.last()),
                    ));
                    i = p;
                } else {
                    i = skip_element_exec(evs, i + 1)?;
                }
            },
            XmlEvent::End(n) => {
                if str_eq(n.as_str(), "compounddef") {
                    return Ok((acc, i + 1));
                }
                i = i + 1;
            },
            _ => {
                i = i + 1;
            },
        }
    }
}

/// Reads a compound file from its events: events are passed over up to the
/// first `compounddef` start tag, whose definition is the file's; a file
/// without one is missing its element (`MissingElement`).
pub fn parse_events(evs: &Vec<XmlEvent>) -> (r: Result<DoxygenType, ParseError>)
    ensures
        match (r, read_doxygen(evs@, 0)) {
            (Ok(d), Ok(s)) => view_doxygen(d) == s,
            (Err(e), Err(f)) => e == f,
            _ => false,
        },
{
    let mut i: usize = 0;
    while i < evs.len()
        invariant
            i <= evs.len(),
            read_doxygen(evs@, 0) == read_doxygen(evs@, i as int),
        decreases evs.len() - i,
    {
        match &evs[i] {
            XmlEvent::Start(tag) => {
                if str_eq(tag.name.as_str(), "compounddef") {
                    let start = compound_def_start(tag)?;
                    let (c, _) = parse_compound_def(evs, i + 1, start)?;
                    return Ok(DoxygenType { compound_def: Some(c) });
                }
            },
            _ => {},
        }
        i = i + 1;
    }
    Err(ParseError::MissingElement)
}

/// Reads a compound file: its events as `xml::tokenize` gives them, with all
/// whitespace kept, since it can stand between the inline elements of mixed
/// text (as `spec_tokenize` states), read by `parse_events`.
pub fn parse(xml: &str) -> (r: Result<DoxygenType, ParseError>)
    ensures
        match spec_tokenize(xml@, false) {
            Err(e) => r == Err::<DoxygenType, ParseError>(e),
            Ok(vs) => exists|evs: Seq<XmlEvent>|
                #![trigger view_xml_events(evs)]
                view_xml_events(evs) == vs && match (r, read_doxygen(evs, 0)) {
                    (Ok(d), Ok(s)) => view_doxygen(d) == s,
                    (Err(e), Err(f)) => e == f,
                    _ => false,
                },
        },
{
    let evs = tokenize(xml, false)?;
    let r = parse_events(&evs);
    assert(view_xml_events(evs@) == view_xml_events(evs@));
    r
}

// ---------------------------------------------------------------------------
// Contents of a compound definition

/// One entry of the contents of a compound definition, borrowed from it.
#[derive(Clone, Copy)]
pub enum CompoundDefEntry<'a> {
    SectionDef(&'a SectionDefType),
    Class(&'a RefType),
    Group(&'a RefType),
}

/// What an entry of the contents of a compound definition stands for.
pub enum SpecCompoundDefEntry {
    SectionDef(SpecSectionDef),
    Class(SpecRefType),
    Group(SpecRefType),
}

/// The model of an entry.
pub open spec fn view_entry_ref(e: CompoundDefEntry) -> SpecCompoundDefEntry {
    match e {
        CompoundDefEntry::SectionDef(s) => SpecCompoundDefEntry::SectionDef(view_section_def(*s)),
        CompoundDefEntry::Class(r) => SpecCompoundDefEntry::Class(view_ref_type(*r)),
        CompoundDefEntry::Group(r) => SpecCompoundDefEntry::Group(view_ref_type(*r)),
    }
}

/// The models of a list of entries.
pub open spec fn view_entries_ref(s: Seq<CompoundDefEntry>) -> Seq<SpecCompoundDefEntry> {
    s.map_values(|e: CompoundDefEntry| view_entry_ref(e))
}

/// Inner classes as entries.
pub open spec fn class_entries(s: Seq<SpecRefType>) -> Seq<SpecCompoundDefEntry> {
    s.map_values(|r: SpecRefType| SpecCompoundDefEntry::Class(r))
}

/// Inner groups as entries.
pub open spec fn group_entries(s: Seq<SpecRefType>) -> Seq<SpecCompoundDefEntry> {
    s.map_values(|r: SpecRefType| SpecCompoundDefEntry::Group(r))
}

/// Section definitions as entries.
pub open spec fn section_entries(s: Seq<SpecSectionDef>) -> Seq<SpecCompoundDefEntry> {
    s.map_values(|d: SpecSectionDef| SpecCompoundDefEntry::SectionDef(d))
}

/// The contents of a compound definition in the order they are rendered: its
/// inner classes, then its inner groups, then its section definitions, each in
/// document order.
pub open spec fn spec_compounddef_contents(c: SpecCompoundDef) -> Seq<SpecCompoundDefEntry> {
    class_entries(c.innerclass) + group_entries(c.innergroup) + section_entries(c.section_defs)
}

/// Lists the contents of a compound definition: its inner classes, its inner
/// groups and its section definitions, in that order.
pub fn extract_compounddef_contents<'a>(compounddef: &'a CompoundDefType, _inner_groups: bool) -> (r: Vec<CompoundDefEntry<'a>>)
    ensures
        view_entries_ref(r@) == spec_compounddef_contents(view_compound_def(*compounddef)),
{
    let ghost c = view_compound_def(*compounddef);
    let mut out: Vec<CompoundDefEntry<'a>> = Vec::new();
    let n = compounddef.innerclass.len();
    assert(view_entries_ref(out@) =~= class_entries(c.innerclass.subrange(0, 0)));
    for i in 0..n
        invariant
            n == compounddef.innerclass.len(),
            c == view_compound_def(*compounddef),
            view_entries_ref(out@) == class_entries(c.innerclass.subrange(0, i as int)),
    {
        let ghost before = out@;
        out.push(CompoundDefEntry::Class(&compounddef.innerclass[i]));
        assert(c.innerclass[i as int] == view_ref_type(compounddef.innerclass@[i as int]));
        assert(c.innerclass.subrange(0, i + 1) =~= c.innerclass.subrange(0, i as int).push(c.innerclass[i as int]));
        assert(view_entries_ref(out@) =~= view_entries_ref(before).push(SpecCompoundDefEntry::Class(c.innerclass[i as int])));
        assert(class_entries(c.innerclass.subrange(0, i + 1)) =~= class_entries(c.innerclass.subrange(0, i as int)).push(
            SpecCompoundDefEntry::Class(c.innerclass[i as int]),
        ));
    }
    assert(c.innerclass.subrange(0, n as int) =~= c.innerclass);
    let ghost classes = view_entries_ref(out@);
    let m = compounddef.innergroup.len();
    assert(view_entries_ref(out@) =~= classes + group_entries(c.innergroup.subrange(0, 0)));
    for i in 0..m
        invariant
            m == compounddef.innergroup.len(),
            c == view_compound_def(*compounddef),
            classes == class_entries(c.innerclass),
            view_entries_ref(out@) == classes + group_entries(c.innergroup.subrange(0, i as int)),
    {
        let ghost before = out@;
        out.push(CompoundDefEntry::Group(&compounddef.innergroup[i]));
        assert(c.innergroup[i as int] == view_ref_type(compounddef.innergroup@[i as int]));
        assert(c.innergroup.subrange(0, i + 1) =~= c.innergroup.subrange(0, i as int).push(c.innergroup[i as int]));
        assert(view_entries_ref(out@) =~= view_entries_ref(before).push(SpecCompoundDefEntry::Group(c.innergroup[i as int])));
        assert(group_entries(c.innergroup.subrange(0, i + 1)) =~= group_entries(c.innergroup.subrange(0, i as int)).push(
            SpecCompoundDefEntry::Group(c.innergroup[i as int]),
        ));
        assert(view_entries_ref(out@) =~= classes + group_entries(c.innergroup.subrange(0, i + 1)));
    }
    assert(c.innergroup.subrange(0, m as int) =~= c.innergroup);
    let ghost groups = view_entries_ref(out@);
    let k = compounddef.section_defs.len();
    assert(view_entries_ref(out@) =~= groups + section_entries(c.section_defs.subrange(0, 0)));
    for i in 0..k
        invariant
            k == compounddef.section_defs.len(),
            c == view_compound_def(*compounddef),
            groups == class_entries(c.innerclass) + group_entries(c.innergroup),
            view_entries_ref(out@) == groups + section_entries(c.section_defs.subrange(0, i as int)),
    {
        let ghost before = out@;
        out.push(CompoundDefEntry::SectionDef(&compounddef.section_defs[i]));
        assert(c.section_defs[i as int] == view_section_def(compounddef.section_defs@[i as int]));
        assert(c.section_defs.subrange(0, i + 1) =~= c.section_defs.subrange(0, i as int).push(c.section_defs[i as int]));
        assert(view_entries_ref(out@) =~= view_entries_ref(before).push(
            SpecCompoundDefEntry::SectionDef(c.section_defs[i as int]),
        ));
        assert(section_entries(c.section_defs.subrange(0, i + 1)) =~= section_entries(c.section_defs.subrange(0, i as int)).push(
            SpecCompoundDefEntry::SectionDef(c.section_defs[i as int]),
        ));
        assert(view_entries_ref(out@) =~= groups + section_entries(c.section_defs.subrange(0, i + 1)));
    }
    assert(c.section_defs.subrange(0, k as int) =~= c.section_defs);
    out
}

} // verus!
