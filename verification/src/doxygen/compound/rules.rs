//! What reading each element of a compound file gives, stated over the event
//! sequence. Each rule reads from a position just after an element's start
//! tag, up to and including its end tag, and gives the element and the
//! position after it.
//!
//! Two kinds of element are read. Text-like elements (descriptions,
//! paragraphs, markup, linked text) turn their text and accepted children into
//! items, pass over end tags of other names, and reject other children and
//! other events. Record-like elements (definitions, lists, tables) fill their
//! fields from the children they know and pass over every other event.
use vstd::prelude::*;

use crate::doxygen::compound::elements::{
    DoxBool, DoxCompoundKind, DoxLanguage, DoxMemberKind, DoxSectionKind, DoxSimpleSectKind, MarkupKind,
    SpecCmd, SpecCompoundDef, SpecDescriptionItem, SpecDoxygen, SpecEntry, SpecEnumValue, SpecHighlightItem,
    SpecLinkedTextItem, SpecMarkupItem, SpecMemberDef, SpecParaItem, SpecParam, SpecParamListItem,
    SpecParamNameList, SpecRefType, SpecSectionDef, SpecTable, SpecTitleCmd, SpecTitleItem, SpecXRefSect,
};
use crate::strings::spec_parse_i32;
use crate::xml::{attribute_lookup, required_attribute, spec_parse_text, ParseError, StartTag, XmlEvent};

verus! {

/// The result of reading an element: its model and the position after it.
pub type Read<T> = Result<(T, int), ParseError>;

/// Whether a read ended strictly after `pos` and within the events.
pub open spec fn advanced<T>(r: Read<T>, pos: int, len: int) -> bool {
    r matches Ok((_, p)) ==> pos < p <= len
}

/// The markup kind that an element name stands for.
pub open spec fn markup_kind(name: Seq<char>) -> Option<MarkupKind> {
    if name == "bold"@ {
        Some(MarkupKind::Bold)
    } else if name == "s"@ {
        Some(MarkupKind::S)
    } else if name == "strike"@ {
        Some(MarkupKind::Strike)
    } else if name == "underline"@ {
        Some(MarkupKind::Underline)
    } else if name == "emphasis"@ {
        Some(MarkupKind::Emphasis)
    } else if name == "computeroutput"@ {
        Some(MarkupKind::Computeroutput)
    } else if name == "subscript"@ {
        Some(MarkupKind::Subscript)
    } else if name == "superscript"@ {
        Some(MarkupKind::Superscript)
    } else if name == "center"@ {
        Some(MarkupKind::Center)
    } else if name == "small"@ {
        Some(MarkupKind::Small)
    } else if name == "cite"@ {
        Some(MarkupKind::Cite)
    } else if name == "del"@ {
        Some(MarkupKind::Del)
    } else if name == "ins"@ {
        Some(MarkupKind::Ins)
    } else if name == "summary"@ {
        Some(MarkupKind::Summary)
    } else {
        None
    }
}

/// The inline element that an empty element stands for: the character
/// elements that are rendered, a reference (with `refid`) or link (with
/// `url`) without text, empty markup and raw HTML, and any other element as
/// an unhandled one.
pub open spec fn empty_title_cmd(tag: StartTag) -> Result<SpecTitleCmd, ParseError> {
    let name = tag.name@;
    if name == "linebreak"@ {
        Ok(SpecTitleCmd::Linebreak)
    } else if name == "nonbreakablespace"@ {
        Ok(SpecTitleCmd::Nonbreakablespace)
    } else if name == "ndash"@ {
        Ok(SpecTitleCmd::Ndash)
    } else if name == "mdash"@ {
        Ok(SpecTitleCmd::Mdash)
    } else if name == "lsquo"@ {
        Ok(SpecTitleCmd::Lsquo)
    } else if name == "rsquo"@ {
        Ok(SpecTitleCmd::Rsquo)
    } else if name == "ref"@ {
        match required_attribute(tag, "refid"@) {
            Ok(refid) => Ok(SpecTitleCmd::Ref(refid, Seq::empty())),
            Err(e) => Err(e),
        }
    } else if name == "ulink"@ {
        match required_attribute(tag, "url"@) {
            Ok(url) => Ok(SpecTitleCmd::Ulink(url, Seq::empty())),
            Err(e) => Err(e),
        }
    } else if name == "htmlonly"@ {
        Ok(SpecTitleCmd::Htmlonly(Seq::empty()))
    } else {
        match markup_kind(name) {
            Some(kind) => Ok(SpecTitleCmd::Markup(kind, Seq::empty())),
            None => Ok(SpecTitleCmd::Unhandled(name)),
        }
    }
}

/// The element of a paragraph that an empty element stands for: empty
/// preformatted or verbatim text, or an inline element as `empty_title_cmd`
/// reads it.
pub open spec fn empty_cmd_of(tag: StartTag) -> Result<SpecCmd, ParseError> {
    if tag.name@ == "preformatted"@ {
        Ok(SpecCmd::Preformatted(Seq::empty()))
    } else if tag.name@ == "verbatim"@ {
        Ok(SpecCmd::Verbatim(Seq::empty()))
    } else {
        match empty_title_cmd(tag) {
            Ok(t) => Ok(SpecCmd::Title(t)),
            Err(e) => Err(e),
        }
    }
}

/// Whether the schema's group of inline elements (`docTitleCmdGroup`) has
/// an element of this name: markup, links, references, raw output, images,
/// anchors, formulas, emoji and the character elements.
pub open spec fn title_element(name: Seq<char>) -> bool {
    name == "ulink"@
        || name == "bold"@
        || name == "s"@
        || name == "strike"@
        || name == "underline"@
        || name == "emphasis"@
        || name == "computeroutput"@
        || name == "subscript"@
        || name == "superscript"@
        || name == "center"@
        || name == "small"@
        || name == "cite"@
        || name == "del"@
        || name == "ins"@
        || name == "summary"@
        || name == "htmlonly"@
        || name == "manonly"@
        || name == "xmlonly"@
        || name == "rtfonly"@
        || name == "latexonly"@
        || name == "docbookonly"@
        || name == "image"@
        || name == "dot"@
        || name == "msc"@
        || name == "plantuml"@
        || name == "anchor"@
        || name == "formula"@
        || name == "ref"@
        || name == "emoji"@
        || name == "linebreak"@
        || name == "nonbreakablespace"@
        || name == "iexcl"@
        || name == "cent"@
        || name == "pound"@
        || name == "curren"@
        || name == "yen"@
        || name == "brvbar"@
        || name == "sect"@
        || name == "umlaut"@
        || name == "copy"@
        || name == "ordf"@
        || name == "laquo"@
        || name == "not"@
        || name == "shy"@
        || name == "registered"@
        || name == "macr"@
        || name == "deg"@
        || name == "plusmn"@
        || name == "sup2"@
        || name == "sup3"@
        || name == "acute"@
        || name == "micro"@
        || name == "para"@
        || name == "middot"@
        || name == "cedil"@
        || name == "sup1"@
        || name == "ordm"@
        || name == "raquo"@
        || name == "frac14"@
        || name == "frac12"@
        || name == "frac34"@
        || name == "iquest"@
        || name == "Agrave"@
        || name == "Aacute"@
        || name == "Acirc"@
        || name == "Atilde"@
        || name == "Aumlaut"@
        || name == "Aring"@
        || name == "AElig"@
        || name == "Ccedil"@
        || name == "Egrave"@
        || name == "Eacute"@
        || name == "Ecirc"@
        || name == "Eumlaut"@
        || name == "Igrave"@
        || name == "Iacute"@
        || name == "Icirc"@
        || name == "Iumlaut"@
        || name == "ETH"@
        || name == "Ntilde"@
        || name == "Ograve"@
        || name == "Oacute"@
        || name == "Ocirc"@
        || name == "Otilde"@
        || name == "Oumlaut"@
        || name == "times"@
        || name == "Oslash"@
        || name == "Ugrave"@
        || name == "Uacute"@
        || name == "Ucirc"@
        || name == "Uumlaut"@
        || name == "Yacute"@
        || name == "THORN"@
        || name == "szlig"@
        || name == "agrave"@
        || name == "aacute"@
        || name == "acirc"@
        || name == "atilde"@
        || name == "aumlaut"@
        || name == "aring"@
        || name == "aelig"@
        || name == "ccedil"@
        || name == "egrave"@
        || name == "eacute"@
        || name == "ecirc"@
        || name == "eumlaut"@
        || name == "igrave"@
        || name == "iacute"@
        || name == "icirc"@
        || name == "iumlaut"@
        || name == "eth"@
        || name == "ntilde"@
        || name == "ograve"@
        || name == "oacute"@
        || name == "ocirc"@
        || name == "otilde"@
        || name == "oumlaut"@
        || name == "divide"@
        || name == "oslash"@
        || name == "ugrave"@
        || name == "uacute"@
        || name == "ucirc"@
        || name == "uumlaut"@
        || name == "yacute"@
        || name == "thorn"@
        || name == "yumlaut"@
        || name == "fnof"@
        || name == "Alpha"@
        || name == "Beta"@
        || name == "Gamma"@
        || name == "Delta"@
        || name == "Epsilon"@
        || name == "Zeta"@
        || name == "Eta"@
        || name == "Theta"@
        || name == "Iota"@
        || name == "Kappa"@
        || name == "Lambda"@
        || name == "Mu"@
        || name == "Nu"@
        || name == "Xi"@
        || name == "Omicron"@
        || name == "Pi"@
        || name == "Rho"@
        || name == "Sigma"@
        || name == "Tau"@
        || name == "Upsilon"@
        || name == "Phi"@
        || name == "Chi"@
        || name == "Psi"@
        || name == "Omega"@
        || name == "alpha"@
        || name == "beta"@
        || name == "gamma"@
        || name == "delta"@
        || name == "epsilon"@
        || name == "zeta"@
        || name == "eta"@
        || name == "theta"@
        || name == "iota"@
        || name == "kappa"@
        || name == "lambda"@
        || name == "mu"@
        || name == "nu"@
        || name == "xi"@
        || name == "omicron"@
        || name == "pi"@
        || name == "rho"@
        || name == "sigmaf"@
        || name == "sigma"@
        || name == "tau"@
        || name == "upsilon"@
        || name == "phi"@
        || name == "chi"@
        || name == "psi"@
        || name == "omega"@
        || name == "thetasym"@
        || name == "upsih"@
        || name == "piv"@
        || name == "bull"@
        || name == "hellip"@
        || name == "prime"@
        || name == "Prime"@
        || name == "oline"@
        || name == "frasl"@
        || name == "weierp"@
        || name == "imaginary"@
        || name == "real"@
        || name == "trademark"@
        || name == "alefsym"@
        || name == "larr"@
        || name == "uarr"@
        || name == "rarr"@
        || name == "darr"@
        || name == "harr"@
        || name == "crarr"@
        || name == "lArr"@
        || name == "uArr"@
        || name == "rArr"@
        || name == "dArr"@
        || name == "hArr"@
        || name == "forall"@
        || name == "part"@
        || name == "exist"@
        || name == "empty"@
        || name == "nabla"@
        || name == "isin"@
        || name == "notin"@
        || name == "ni"@
        || name == "prod"@
        || name == "sum"@
        || name == "minus"@
        || name == "lowast"@
        || name == "radic"@
        || name == "prop"@
        || name == "infin"@
        || name == "ang"@
        || name == "and"@
        || name == "or"@
        || name == "cap"@
        || name == "cup"@
        || name == "int"@
        || name == "there4"@
        || name == "sim"@
        || name == "cong"@
        || name == "asymp"@
        || name == "ne"@
        || name == "equiv"@
        || name == "le"@
        || name == "ge"@
        || name == "sub"@
        || name == "sup"@
        || name == "nsub"@
        || name == "sube"@
        || name == "supe"@
        || name == "oplus"@
        || name == "otimes"@
        || name == "perp"@
        || name == "sdot"@
        || name == "lceil"@
        || name == "rceil"@
        || name == "lfloor"@
        || name == "rfloor"@
        || name == "lang"@
        || name == "rang"@
        || name == "loz"@
        || name == "spades"@
        || name == "clubs"@
        || name == "hearts"@
        || name == "diams"@
        || name == "OElig"@
        || name == "oelig"@
        || name == "Scaron"@
        || name == "scaron"@
        || name == "Yumlaut"@
        || name == "circ"@
        || name == "tilde"@
        || name == "ensp"@
        || name == "emsp"@
        || name == "thinsp"@
        || name == "zwnj"@
        || name == "zwj"@
        || name == "lrm"@
        || name == "rlm"@
        || name == "ndash"@
        || name == "mdash"@
        || name == "lsquo"@
        || name == "rsquo"@
        || name == "sbquo"@
        || name == "ldquo"@
        || name == "rdquo"@
        || name == "bdquo"@
        || name == "dagger"@
        || name == "Dagger"@
        || name == "permil"@
        || name == "lsaquo"@
        || name == "rsaquo"@
        || name == "euro"@
        || name == "tm"@
}

/// Whether the schema's group of paragraph elements (`docCmdGroup`) has, besides
/// the inline ones, a block element of this name.
pub open spec fn block_element(name: Seq<char>) -> bool {
    name == "hruler"@
        || name == "preformatted"@
        || name == "programlisting"@
        || name == "verbatim"@
        || name == "javadocliteral"@
        || name == "javadoccode"@
        || name == "indexentry"@
        || name == "orderedlist"@
        || name == "itemizedlist"@
        || name == "simplesect"@
        || name == "title"@
        || name == "variablelist"@
        || name == "table"@
        || name == "heading"@
        || name == "dotfile"@
        || name == "mscfile"@
        || name == "diafile"@
        || name == "toclist"@
        || name == "language"@
        || name == "parameterlist"@
        || name == "xrefsect"@
        || name == "copydoc"@
        || name == "details"@
        || name == "blockquote"@
        || name == "parblock"@
}

/// The position after the end tag that closes an element whose content is
/// read from `pos`, with `depth` elements opened inside it and not yet
/// closed: reading over the element and everything in it.
pub open spec fn skip_element(evs: Seq<XmlEvent>, pos: int, depth: nat) -> Result<int, ParseError>
    decreases evs.len() - pos,
{
    if pos < 0 || pos >= evs.len() {
        Err(ParseError::UnexpectedEof)
    } else {
        match evs[pos] {
            XmlEvent::Start(_) => skip_element(evs, pos + 1, depth + 1),
            XmlEvent::End(_) => if depth == 0 {
                Ok(pos + 1)
            } else {
                skip_element(evs, pos + 1, (depth - 1) as nat)
            },
            _ => skip_element(evs, pos + 1, depth),
        }
    }
}

/// Reading an attribute that names a value of an enumeration: missing is
/// `MissingAttribute`, naming nothing is `InvalidValue`.
pub open spec fn enum_attribute<T>(tag: StartTag, name: Seq<char>, parse: spec_fn(Seq<char>) -> Option<T>) -> Result<T, ParseError> {
    match required_attribute(tag, name) {
        Ok(v) => match parse(v) {
            Some(t) => Ok(t),
            None => Err(ParseError::InvalidValue),
        },
        Err(e) => Err(e),
    }
}

/// Reading an optional attribute that names a value of an enumeration.
pub open spec fn optional_enum_attribute<T>(tag: StartTag, name: Seq<char>, parse: spec_fn(Seq<char>) -> Option<T>) -> Result<Option<T>, ParseError> {
    match attribute_lookup(tag, name) {
        Ok(Some(v)) => match parse(v) {
            Some(t) => Ok(Some(t)),
            None => Err(ParseError::InvalidValue),
        },
        Ok(None) => Ok(None),
        Err(e) => Err(e),
    }
}

/// Reading an attribute that holds a 32-bit integer.
pub open spec fn int_attribute(tag: StartTag, name: Seq<char>) -> Result<i32, ParseError> {
    match required_attribute(tag, name) {
        Ok(v) => match spec_parse_i32(v) {
            Some(n) => Ok(n),
            None => Err(ParseError::InvalidValue),
        },
        Err(e) => Err(e),
    }
}

/// Reading linked text up to the end tag `end`: `ref` children (with a
/// `refid` attribute) and texts.
pub open spec fn read_linked(evs: Seq<XmlEvent>, pos: int, end: Seq<char>, acc: Seq<SpecLinkedTextItem>) -> Read<Seq<SpecLinkedTextItem>>
    decreases evs.len() - pos,
{
    if pos < 0 || pos >= evs.len() {
        Err(ParseError::UnexpectedEof)
    } else {
        match evs[pos] {
            XmlEvent::Start(tag) => if tag.name@ == "ref"@ {
                match required_attribute(tag, "refid"@) {
                    Ok(refid) => match spec_parse_text(evs, pos + 1) {
                        Ok((text, p)) => read_linked(
                            evs,
                            p,
                            end,
                            acc.push(SpecLinkedTextItem::Ref(SpecRefType { refid, content: text })),
                        ),
                        Err(e) => Err(e),
                    },
                    Err(e) => Err(e),
                }
            } else {
                Err(ParseError::UnexpectedTag)
            },
            XmlEvent::Text(t) => read_linked(evs, pos + 1, end, acc.push(SpecLinkedTextItem::Text(t@))),
            XmlEvent::End(n) => if n@ == end {
                Ok((acc, pos + 1))
            } else {
                read_linked(evs, pos + 1, end, acc)
            },
            _ => Err(ParseError::UnexpectedEvent),
        }
    }
}

/// Reading a highlighted stretch of code: `ref` children, empty `sp`
/// elements and texts.
pub open spec fn read_highlight(evs: Seq<XmlEvent>, pos: int, acc: Seq<SpecHighlightItem>) -> Read<Seq<SpecHighlightItem>>
    decreases evs.len() - pos,
{
    if pos < 0 || pos >= evs.len() {
        Err(ParseError::UnexpectedEof)
    } else {
        match evs[pos] {
            XmlEvent::Start(tag) => if tag.name@ == "ref"@ {
                match required_attribute(tag, "refid"@) {
                    Ok(refid) => match spec_parse_text(evs, pos + 1) {
                        Ok((text, p)) => read_highlight(
                            evs,
                            p,
                            acc.push(SpecHighlightItem::Ref(SpecRefType { refid, content: text })),
                        ),
                        Err(e) => Err(e),
                    },
                    Err(e) => Err(e),
                }
            } else {
                Err(ParseError::UnexpectedTag)
            },
            XmlEvent::Empty(tag) => if tag.name@ == "sp"@ {
                read_highlight(evs, pos + 1, acc.push(SpecHighlightItem::Sp))
            } else {
                Err(ParseError::UnexpectedEvent)
            },
            XmlEvent::Text(t) => read_highlight(evs, pos + 1, acc.push(SpecHighlightItem::Text(t@))),
            XmlEvent::End(n) => if n@ == "highlight"@ {
                Ok((acc, pos + 1))
            } else {
                read_highlight(evs, pos + 1, acc)
            },
            _ => Err(ParseError::UnexpectedEvent),
        }
    }
}

/// Reading a line of a program listing: its `highlight` children.
pub open spec fn read_codeline(evs: Seq<XmlEvent>, pos: int, acc: Seq<Seq<SpecHighlightItem>>) -> Read<Seq<Seq<SpecHighlightItem>>>
    decreases evs.len() - pos,
{
    if pos < 0 || pos >= evs.len() {
        Err(ParseError::UnexpectedEof)
    } else {
        match evs[pos] {
            XmlEvent::Start(tag) => if tag.name@ == "highlight"@ {
                match read_highlight(evs, pos + 1, Seq::empty()) {
                    Ok((h, p)) => if pos < p <= evs.len() {
                        read_codeline(evs, p, acc.push(h))
                    } else {
                        Err(ParseError::UnexpectedEof)
                    },
                    Err(e) => Err(e),
                }
            } else {
                read_codeline(evs, pos + 1, acc)
            },
            XmlEvent::End(n) => if n@ == "codeline"@ {
                Ok((acc, pos + 1))
            } else {
                read_codeline(evs, pos + 1, acc)
            },
            _ => read_codeline(evs, pos + 1, acc),
        }
    }
}

/// Reading a program listing: its `codeline` children.
pub open spec fn read_listing(evs: Seq<XmlEvent>, pos: int, acc: Seq<Seq<Seq<SpecHighlightItem>>>) -> Read<Seq<Seq<Seq<SpecHighlightItem>>>>
    decreases evs.len() - pos,
{
    if pos < 0 || pos >= evs.len() {
        Err(ParseError::UnexpectedEof)
    } else {
        match evs[pos] {
            XmlEvent::Start(tag) => if tag.name@ == "codeline"@ {
                match read_codeline(evs, pos + 1, Seq::empty()) {
                    Ok((c, p)) => if pos < p <= evs.len() {
                        read_listing(evs, p, acc.push(c))
                    } else {
                        Err(ParseError::UnexpectedEof)
                    },
                    Err(e) => Err(e),
                }
            } else {
                read_listing(evs, pos + 1, acc)
            },
            XmlEvent::End(n) => if n@ == "programlisting"@ {
                Ok((acc, pos + 1))
            } else {
                read_listing(evs, pos + 1, acc)
            },
            _ => read_listing(evs, pos + 1, acc),
        }
    }
}

// ---------------------------------------------------------------------------
// The documentation blocks, which nest in each other. Each rule has a rank
// besides the position so that a dispatch at a position may precede the read
// of the element that starts there.

/// Reading one element of a paragraph or of markup whose start tag `tag` is at
/// `pos`: inline elements, lists, listings, tables, simple sections,
/// parameter lists and cross-referenced sections. Any other block element of
/// the schema is read over, with all it holds, as an unhandled element; other
/// names are read as inline elements.
pub open spec fn read_cmd(evs: Seq<XmlEvent>, pos: int, tag: StartTag) -> Read<SpecCmd>
    decreases evs.len() - pos, 1int,
{
    if pos < 0 || pos >= evs.len() {
        Err(ParseError::UnexpectedEof)
    } else {
        let name = tag.name@;
        if name == "preformatted"@ {
            match read_markup(evs, pos + 1, name, Seq::empty()) {
                Ok((m, p)) => Ok((SpecCmd::Preformatted(m), p)),
                Err(e) => Err(e),
            }
        } else if name == "verbatim"@ {
            match spec_parse_text(evs, pos + 1) {
                Ok((t, p)) => Ok((SpecCmd::Verbatim(t), p)),
                Err(e) => Err(e),
            }
        } else if name == "programlisting"@ {
            match read_listing(evs, pos + 1, Seq::empty()) {
                Ok((l, p)) => Ok((SpecCmd::ProgramListing(l), p)),
                Err(e) => Err(e),
            }
        } else if name == "itemizedlist"@ || name == "orderedlist"@ {
            match read_list(evs, pos + 1, name, Seq::empty()) {
                Ok((items, p)) => if items.len() == 0 {
                    Err(ParseError::EmptyList)
                } else if name == "itemizedlist"@ {
                    Ok((SpecCmd::ItemizedList(items), p))
                } else {
                    Ok((SpecCmd::OrderedList(items), p))
                },
                Err(e) => Err(e),
            }
        } else if name == "simplesect"@ {
            match enum_attribute(tag, "kind"@, |s: Seq<char>| DoxSimpleSectKind::spec_from_str(s)) {
                Ok(kind) => match read_simple_sect(evs, pos + 1, Seq::empty()) {
                    Ok((paras, p)) => if paras.len() == 0 {
                        Err(ParseError::EmptyList)
                    } else {
                        Ok((SpecCmd::Simplesect(kind, paras), p))
                    },
                    Err(e) => Err(e),
                },
                Err(e) => Err(e),
            }
        } else if name == "table"@ {
            match (int_attribute(tag, "rows"@), int_attribute(tag, "cols"@)) {
                (Ok(rows), Ok(cols)) => match read_table(evs, pos + 1, Seq::empty()) {
                    Ok((row, p)) => Ok((SpecCmd::Table(SpecTable { rows, cols, row }), p)),
                    Err(e) => Err(e),
                },
                (Err(e), _) => Err(e),
                (_, Err(e)) => Err(e),
            }
        } else if name == "parameterlist"@ {
            match read_param_list(evs, pos + 1, Seq::empty()) {
                Ok((items, p)) => Ok((SpecCmd::ParameterList(items), p)),
                Err(e) => Err(e),
            }
        } else if name == "xrefsect"@ {
            match required_attribute(tag, "id"@) {
                Ok(id) => match read_xref(evs, pos + 1, None, None) {
                    Ok(((title, desc), p)) => Ok((SpecCmd::Xrefsect(SpecXRefSect { id, xreftitle: title, xrefdescription: desc }), p)),
                    Err(e) => Err(e),
                },
                Err(e) => Err(e),
            }
        } else if block_element(name) {
            match skip_element(evs, pos + 1, 0) {
                Ok(p) => Ok((SpecCmd::Title(SpecTitleCmd::Unhandled(name)), p)),
                Err(e) => Err(e),
            }
        } else {
            match read_title_cmd(evs, pos, tag) {
                Ok((t, p)) => Ok((SpecCmd::Title(t), p)),
                Err(e) => Err(e),
            }
        }
    }
}

/// Reading one inline element whose start tag `tag` is at `pos`: references
/// (with `refid`), links (with `url`), markup and raw HTML. Any other inline
/// element of the schema is read over, with all it holds, as an unhandled
/// one; a name the schema does not have is `UnexpectedTag`.
pub open spec fn read_title_cmd(evs: Seq<XmlEvent>, pos: int, tag: StartTag) -> Read<SpecTitleCmd>
    decreases evs.len() - pos, 0int,
{
    if pos < 0 || pos >= evs.len() {
        Err(ParseError::UnexpectedEof)
    } else {
        let name = tag.name@;
        if name == "ref"@ {
            match required_attribute(tag, "refid"@) {
                Ok(refid) => match read_title_items(evs, pos + 1, name, Seq::empty()) {
                    Ok((items, p)) => Ok((SpecTitleCmd::Ref(refid, items), p)),
                    Err(e) => Err(e),
                },
                Err(e) => Err(e),
            }
        } else if name == "ulink"@ {
            match required_attribute(tag, "url"@) {
                Ok(url) => match read_title_items(evs, pos + 1, name, Seq::empty()) {
                    Ok((items, p)) => Ok((SpecTitleCmd::Ulink(url, items), p)),
                    Err(e) => Err(e),
                },
                Err(e) => Err(e),
            }
        } else if name == "htmlonly"@ {
            match spec_parse_text(evs, pos + 1) {
                Ok((t, p)) => Ok((SpecTitleCmd::Htmlonly(t), p)),
                Err(e) => Err(e),
            }
        } else {
            match markup_kind(name) {
                Some(kind) => match read_markup(evs, pos + 1, name, Seq::empty()) {
                    Ok((m, p)) => Ok((SpecTitleCmd::Markup(kind, m), p)),
                    Err(e) => Err(e),
                },
                None => if title_element(name) {
                    match skip_element(evs, pos + 1, 0) {
                        Ok(p) => Ok((SpecTitleCmd::Unhandled(name), p)),
                        Err(e) => Err(e),
                    }
                } else {
                    Err(ParseError::UnexpectedTag)
                },
            }
        }
    }
}

/// Reading the text of a reference or a link up to the end tag `end`:
/// inline elements, empty inline elements of the schema and texts; an empty
/// element of another name is `UnexpectedTag`, any other event
/// `UnexpectedEvent`.
pub open spec fn read_title_items(evs: Seq<XmlEvent>, pos: int, end: Seq<char>, acc: Seq<SpecTitleItem>) -> Read<Seq<SpecTitleItem>>
    decreases evs.len() - pos, 2int,
{
    if pos < 0 || pos >= evs.len() {
        Err(ParseError::UnexpectedEof)
    } else {
        match evs[pos] {
            XmlEvent::Start(tag) => match read_title_cmd(evs, pos, tag) {
                Ok((t, p)) => if pos < p <= evs.len() {
                    read_title_items(evs, p, end, acc.push(SpecTitleItem::DocTitleCmdGroup(t)))
                } else {
                    Err(ParseError::UnexpectedEof)
                },
                Err(e) => Err(e),
            },
            XmlEvent::Empty(tag) => if title_element(tag.name@) {
                match empty_title_cmd(tag) {
                    Ok(t) => read_title_items(evs, pos + 1, end, acc.push(SpecTitleItem::DocTitleCmdGroup(t))),
                    Err(e) => Err(e),
                }
            } else {
                Err(ParseError::UnexpectedTag)
            },
            XmlEvent::Text(t) => read_title_items(evs, pos + 1, end, acc.push(SpecTitleItem::Text(t@))),
            XmlEvent::End(n) => if n@ == end {
                Ok((acc, pos + 1))
            } else {
                read_title_items(evs, pos + 1, end, acc)
            },
            XmlEvent::Other => Err(ParseError::UnexpectedEvent),
        }
    }
}

/// Reading marked up text up to the end tag `end`: elements of paragraphs,
/// empty elements of the schema's paragraph group and texts; an empty element
/// of another name is `UnexpectedTag`, any other event `UnexpectedEvent`.
pub open spec fn read_markup(evs: Seq<XmlEvent>, pos: int, end: Seq<char>, acc: Seq<SpecMarkupItem>) -> Read<Seq<SpecMarkupItem>>
    decreases evs.len() - pos, 2int,
{
    if pos < 0 || pos >= evs.len() {
        Err(ParseError::UnexpectedEof)
    } else {
        match evs[pos] {
            XmlEvent::Start(tag) => match read_cmd(evs, pos, tag) {
                Ok((c, p)) => if pos < p <= evs.len() {
                    read_markup(evs, p, end, acc.push(SpecMarkupItem::DocCmdGroup(c)))
                } else {
                    Err(ParseError::UnexpectedEof)
                },
                Err(e) => Err(e),
            },
            XmlEvent::Empty(tag) => if title_element(tag.name@) || block_element(tag.name@) {
                match empty_cmd_of(tag) {
                    Ok(c) => read_markup(evs, pos + 1, end, acc.push(SpecMarkupItem::DocCmdGroup(c))),
                    Err(e) => Err(e),
                }
            } else {
                Err(ParseError::UnexpectedTag)
            },
            XmlEvent::Text(t) => read_markup(evs, pos + 1, end, acc.push(SpecMarkupItem::Text(t@))),
            XmlEvent::End(n) => if n@ == end {
                Ok((acc, pos + 1))
            } else {
                read_markup(evs, pos + 1, end, acc)
            },
            XmlEvent::Other => Err(ParseError::UnexpectedEvent),
        }
    }
}

/// Reading a paragraph: elements of paragraphs, empty elements of the
/// schema's paragraph group and texts, up to the end tag `para`; an empty
/// element of another name is `UnexpectedTag`, any other event (a comment, a
/// CDATA section) `UnexpectedEvent`.
pub open spec fn read_para(evs: Seq<XmlEvent>, pos: int, acc: Seq<SpecParaItem>) -> Read<Seq<SpecParaItem>>
    decreases evs.len() - pos, 2int,
{
    if pos < 0 || pos >= evs.len() {
        Err(ParseError::UnexpectedEof)
    } else {
        match evs[pos] {
            XmlEvent::Start(tag) => match read_cmd(evs, pos, tag) {
                Ok((c, p)) => if pos < p <= evs.len() {
                    read_para(evs, p, acc.push(SpecParaItem::DocCmdGroup(c)))
                } else {
                    Err(ParseError::UnexpectedEof)
                },
                Err(e) => Err(e),
            },
            XmlEvent::Empty(tag) => if title_element(tag.name@) || block_element(tag.name@) {
                match empty_cmd_of(tag) {
                    Ok(c) => read_para(evs, pos + 1, acc.push(SpecParaItem::DocCmdGroup(c))),
                    Err(e) => Err(e),
                }
            } else {
                Err(ParseError::UnexpectedTag)
            },
            XmlEvent::Text(t) => read_para(evs, pos + 1, acc.push(SpecParaItem::Text(t@))),
            XmlEvent::End(n) => if n@ == "para"@ {
                Ok((acc, pos + 1))
            } else {
                read_para(evs, pos + 1, acc)
            },
            XmlEvent::Other => Err(ParseError::UnexpectedEvent),
        }
    }
}

/// Reading a description up to the end tag `end`: `para` children and texts;
/// other children (titles, internal parts, sections) are read over with all
/// they hold, as are other events.
pub open spec fn read_description(evs: Seq<XmlEvent>, pos: int, end: Seq<char>, acc: Seq<SpecDescriptionItem>) -> Read<Seq<SpecDescriptionItem>>
    decreases evs.len() - pos, 2int,
{
    if pos < 0 || pos >= evs.len() {
        Err(ParseError::UnexpectedEof)
    } else {
        match evs[pos] {
            XmlEvent::Start(tag) => if tag.name@ == "para"@ {
                match read_para(evs, pos + 1, Seq::empty()) {
                    Ok((para, p)) => if pos < p <= evs.len() {
                        read_description(evs, p, end, acc.push(SpecDescriptionItem::Para(para)))
                    } else {
                        Err(ParseError::UnexpectedEof)
                    },
                    Err(e) => Err(e),
                }
            } else {
                match skip_element(evs, pos + 1, 0) {
                    Ok(p) => if pos < p <= evs.len() {
                        read_description(evs, p, end, acc)
                    } else {
                        Err(ParseError::UnexpectedEof)
                    },
                    Err(e) => Err(e),
                }
            },
            XmlEvent::Text(t) => read_description(evs, pos + 1, end, acc.push(SpecDescriptionItem::Text(t@))),
            XmlEvent::End(n) => if n@ == end {
                Ok((acc, pos + 1))
            } else {
                read_description(evs, pos + 1, end, acc)
            },
            _ => read_description(evs, pos + 1, end, acc),
        }
    }
}

/// Reading the paragraphs of a simple section: its `para` children; any other
/// element (its `title`) is passed over whole, as are other events.
pub open spec fn read_simple_sect(evs: Seq<XmlEvent>, pos: int, acc: Seq<Seq<SpecParaItem>>) -> Read<Seq<Seq<SpecParaItem>>>
    decreases evs.len() - pos, 2int,
{
    if pos < 0 || pos >= evs.len() {
        Err(ParseError::UnexpectedEof)
    } else {
        match evs[pos] {
            XmlEvent::Start(tag) => if tag.name@ == "para"@ {
                match read_para(evs, pos + 1, Seq::empty()) {
                    Ok((para, p)) => if pos < p <= evs.len() {
                        read_simple_sect(evs, p, acc.push(para))
                    } else {
                        Err(ParseError::UnexpectedEof)
                    },
                    Err(e) => Err(e),
                }
            } else {
                match skip_element(evs, pos + 1, 0) {
                    Ok(p) => if pos < p <= evs.len() {
                        read_simple_sect(evs, p, acc)
                    } else {
                        Err(ParseError::UnexpectedEof)
                    },
                    Err(e) => Err(e),
                }
            },
            XmlEvent::End(n) => if n@ == "simplesect"@ {
                Ok((acc, pos + 1))
            } else {
                read_simple_sect(evs, pos + 1, acc)
            },
            _ => read_simple_sect(evs, pos + 1, acc),
        }
    }
}

/// Reading the items of a list up to the end tag `end`: `listitem` children.
pub open spec fn read_list(evs: Seq<XmlEvent>, pos: int, end: Seq<char>, acc: Seq<Seq<Seq<SpecParaItem>>>) -> Read<Seq<Seq<Seq<SpecParaItem>>>>
    decreases evs.len() - pos, 2int,
{
    if pos < 0 || pos >= evs.len() {
        Err(ParseError::UnexpectedEof)
    } else {
        match evs[pos] {
            XmlEvent::Start(tag) => if tag.name@ == "listitem"@ {
                match read_paras(evs, pos + 1, "listitem"@, Seq::empty()) {
                    Ok((item, p)) => if pos < p <= evs.len() {
                        read_list(evs, p, end, acc.push(item))
                    } else {
                        Err(ParseError::UnexpectedEof)
                    },
                    Err(e) => Err(e),
                }
            } else {
                read_list(evs, pos + 1, end, acc)
            },
            XmlEvent::End(n) => if n@ == end {
                Ok((acc, pos + 1))
            } else {
                read_list(evs, pos + 1, end, acc)
            },
            _ => read_list(evs, pos + 1, end, acc),
        }
    }
}

/// Reading the `para` children of a list item or a table cell up to the end
/// tag `end`.
pub open spec fn read_paras(evs: Seq<XmlEvent>, pos: int, end: Seq<char>, acc: Seq<Seq<SpecParaItem>>) -> Read<Seq<Seq<SpecParaItem>>>
    decreases evs.len() - pos, 2int,
{
    if pos < 0 || pos >= evs.len() {
        Err(ParseError::UnexpectedEof)
    } else {
        match evs[pos] {
            XmlEvent::Start(tag) => if tag.name@ == "para"@ {
                match read_para(evs, pos + 1, Seq::empty()) {
                    Ok((para, p)) => if pos < p <= evs.len() {
                        read_paras(evs, p, end, acc.push(para))
                    } else {
                        Err(ParseError::UnexpectedEof)
                    },
                    Err(e) => Err(e),
                }
            } else {
                read_paras(evs, pos + 1, end, acc)
            },
            XmlEvent::End(n) => if n@ == end {
                Ok((acc, pos + 1))
            } else {
                read_paras(evs, pos + 1, end, acc)
            },
            _ => read_paras(evs, pos + 1, end, acc),
        }
    }
}

/// Reading the rows of a table: `row` children.
pub open spec fn read_table(evs: Seq<XmlEvent>, pos: int, acc: Seq<Seq<SpecEntry>>) -> Read<Seq<Seq<SpecEntry>>>
    decreases evs.len() - pos, 2int,
{
    if pos < 0 || pos >= evs.len() {
        Err(ParseError::UnexpectedEof)
    } else {
        match evs[pos] {
            XmlEvent::Start(tag) => if tag.name@ == "row"@ {
                match read_row(evs, pos + 1, Seq::empty()) {
                    Ok((row, p)) => if pos < p <= evs.len() {
                        read_table(evs, p, acc.push(row))
                    } else {
                        Err(ParseError::UnexpectedEof)
                    },
                    Err(e) => Err(e),
                }
            } else {
                read_table(evs, pos + 1, acc)
            },
            XmlEvent::End(n) => if n@ == "table"@ {
                Ok((acc, pos + 1))
            } else {
                read_table(evs, pos + 1, acc)
            },
            _ => read_table(evs, pos + 1, acc),
        }
    }
}

/// Reading the cells of a row: `entry` children, each with a `thead`
/// attribute.
pub open spec fn read_row(evs: Seq<XmlEvent>, pos: int, acc: Seq<SpecEntry>) -> Read<Seq<SpecEntry>>
    decreases evs.len() - pos, 2int,
{
    if pos < 0 || pos >= evs.len() {
        Err(ParseError::UnexpectedEof)
    } else {
        match evs[pos] {
            XmlEvent::Start(tag) => if tag.name@ == "entry"@ {
                match enum_attribute(tag, "thead"@, |s: Seq<char>| DoxBool::spec_from_str(s)) {
                    Ok(thead) => match read_paras(evs, pos + 1, "entry"@, Seq::empty()) {
                        Ok((para, p)) => if pos < p <= evs.len() {
                            read_row(evs, p, acc.push(SpecEntry { thead, para }))
                        } else {
                            Err(ParseError::UnexpectedEof)
                        },
                        Err(e) => Err(e),
                    },
                    Err(e) => Err(e),
                }
            } else {
                read_row(evs, pos + 1, acc)
            },
            XmlEvent::End(n) => if n@ == "row"@ {
                Ok((acc, pos + 1))
            } else {
                read_row(evs, pos + 1, acc)
            },
            _ => read_row(evs, pos + 1, acc),
        }
    }
}

/// Reading a parameter list: `parameteritem` children only, passing over
/// texts and other events.
pub open spec fn read_param_list(evs: Seq<XmlEvent>, pos: int, acc: Seq<SpecParamListItem>) -> Read<Seq<SpecParamListItem>>
    decreases evs.len() - pos, 2int,
{
    if pos < 0 || pos >= evs.len() {
        Err(ParseError::UnexpectedEof)
    } else {
        match evs[pos] {
            XmlEvent::Start(tag) => if tag.name@ == "parameteritem"@ {
                match read_param_item(evs, pos + 1, Seq::empty(), None) {
                    Ok((item, p)) => if pos < p <= evs.len() {
                        read_param_list(evs, p, acc.push(item))
                    } else {
                        Err(ParseError::UnexpectedEof)
                    },
                    Err(e) => Err(e),
                }
            } else {
                Err(ParseError::UnexpectedTag)
            },
            XmlEvent::End(n) => if n@ == "parameterlist"@ {
                Ok((acc, pos + 1))
            } else {
                read_param_list(evs, pos + 1, acc)
            },
            _ => read_param_list(evs, pos + 1, acc),
        }
    }
}

/// Reading a parameter item: `parameternamelist` children and its one
/// `parameterdescription`, which must occur.
pub open spec fn read_param_item(
    evs: Seq<XmlEvent>,
    pos: int,
    names: Seq<SpecParamNameList>,
    desc: Option<Seq<SpecDescriptionItem>>,
) -> Read<SpecParamListItem>
    decreases evs.len() - pos, 2int,
{
    if pos < 0 || pos >= evs.len() {
        Err(ParseError::UnexpectedEof)
    } else {
        match evs[pos] {
            XmlEvent::Start(tag) => if tag.name@ == "parameternamelist"@ {
                match read_name_list(evs, pos + 1, Seq::empty(), Seq::empty()) {
                    Ok((n, p)) => if pos < p <= evs.len() {
                        read_param_item(evs, p, names.push(n), desc)
                    } else {
                        Err(ParseError::UnexpectedEof)
                    },
                    Err(e) => Err(e),
                }
            } else if tag.name@ == "parameterdescription"@ {
                match read_description(evs, pos + 1, "parameterdescription"@, Seq::empty()) {
                    Ok((d, p)) => if pos < p <= evs.len() {
                        read_param_item(evs, p, names, Some(d))
                    } else {
                        Err(ParseError::UnexpectedEof)
                    },
                    Err(e) => Err(e),
                }
            } else {
                Err(ParseError::UnexpectedTag)
            },
            XmlEvent::End(n) => if n@ == "parameteritem"@ {
                match desc {
                    Some(d) => Ok((SpecParamListItem { parameter_name_list: names, parameter_description: d }, pos + 1)),
                    None => Err(ParseError::MissingElement),
                }
            } else {
                read_param_item(evs, pos + 1, names, desc)
            },
            _ => read_param_item(evs, pos + 1, names, desc),
        }
    }
}

/// Reading a parameter name list: `parametertype` and `parametername`
/// children, each linked text.
pub open spec fn read_name_list(
    evs: Seq<XmlEvent>,
    pos: int,
    types: Seq<Seq<SpecLinkedTextItem>>,
    names: Seq<Seq<SpecLinkedTextItem>>,
) -> Read<SpecParamNameList>
    decreases evs.len() - pos, 2int,
{
    if pos < 0 || pos >= evs.len() {
        Err(ParseError::UnexpectedEof)
    } else {
        match evs[pos] {
            XmlEvent::Start(tag) => if tag.name@ == "parametertype"@ {
                match read_linked(evs, pos + 1, "parametertype"@, Seq::empty()) {
                    Ok((t, p)) => if pos < p <= evs.len() {
                        read_name_list(evs, p, types.push(t), names)
                    } else {
                        Err(ParseError::UnexpectedEof)
                    },
                    Err(e) => Err(e),
                }
            } else if tag.name@ == "parametername"@ {
                match read_linked(evs, pos + 1, "parametername"@, Seq::empty()) {
                    Ok((t, p)) => if pos < p <= evs.len() {
                        read_name_list(evs, p, types, names.push(t))
                    } else {
                        Err(ParseError::UnexpectedEof)
                    },
                    Err(e) => Err(e),
                }
            } else {
                Err(ParseError::UnexpectedTag)
            },
            XmlEvent::End(n) => if n@ == "parameternamelist"@ {
                Ok((SpecParamNameList { parameter_type: types, parameter_name: names }, pos + 1))
            } else {
                read_name_list(evs, pos + 1, types, names)
            },
            _ => read_name_list(evs, pos + 1, types, names),
        }
    }
}

/// Reading a cross-referenced section: its `xreftitle` text and its
/// `xrefdescription`, both of which must occur.
pub open spec fn read_xref(
    evs: Seq<XmlEvent>,
    pos: int,
    title: Option<Seq<char>>,
    desc: Option<Seq<SpecDescriptionItem>>,
) -> Read<(Seq<char>, Seq<SpecDescriptionItem>)>
    decreases evs.len() - pos, 2int,
{
    if pos < 0 || pos >= evs.len() {
        Err(ParseError::UnexpectedEof)
    } else {
        match evs[pos] {
            XmlEvent::Start(tag) => if tag.name@ == "xreftitle"@ {
                match spec_parse_text(evs, pos + 1) {
                    Ok((t, p)) => read_xref(evs, p, Some(t), desc),
                    Err(e) => Err(e),
                }
            } else if tag.name@ == "xrefdescription"@ {
                match read_description(evs, pos + 1, "xrefdescription"@, Seq::empty()) {
                    Ok((d, p)) => if pos < p <= evs.len() {
                        read_xref(evs, p, title, Some(d))
                    } else {
                        Err(ParseError::UnexpectedEof)
                    },
                    Err(e) => Err(e),
                }
            } else {
                read_xref(evs, pos + 1, title, desc)
            },
            XmlEvent::End(n) => if n@ == "xrefsect"@ {
                match (title, desc) {
                    (Some(t), Some(d)) => Ok(((t, d), pos + 1)),
                    _ => Err(ParseError::MissingElement),
                }
            } else {
                read_xref(evs, pos + 1, title, desc)
            },
            _ => read_xref(evs, pos + 1, title, desc),
        }
    }
}

// ---------------------------------------------------------------------------
// Definitions

/// Reading a reference to another compound: its `refid` attribute and text.
pub open spec fn read_ref_type(evs: Seq<XmlEvent>, pos: int, tag: StartTag) -> Read<SpecRefType> {
    match required_attribute(tag, "refid"@) {
        Ok(refid) => match spec_parse_text(evs, pos + 1) {
            Ok((t, p)) => Ok((SpecRefType { refid, content: t }, p)),
            Err(e) => Err(e),
        },
        Err(e) => Err(e),
    }
}

/// Reading a parameter: its `type`, `declname` and `defname`.
pub open spec fn read_param(evs: Seq<XmlEvent>, pos: int, acc: SpecParam) -> Read<SpecParam>
    decreases evs.len() - pos,
{
    if pos < 0 || pos >= evs.len() {
        Err(ParseError::UnexpectedEof)
    } else {
        match evs[pos] {
            XmlEvent::Start(tag) => if tag.name@ == "type"@ {
                match read_linked(evs, pos + 1, "type"@, Seq::empty()) {
                    Ok((t, p)) => if pos < p <= evs.len() {
                        read_param(evs, p, SpecParam { type_: Some(t), ..acc })
                    } else {
                        Err(ParseError::UnexpectedEof)
                    },
                    Err(e) => Err(e),
                }
            } else if tag.name@ == "declname"@ {
                match spec_parse_text(evs, pos + 1) {
                    Ok((t, p)) => read_param(evs, p, SpecParam { declname: Some(t), ..acc }),
                    Err(e) => Err(e),
                }
            } else if tag.name@ == "defname"@ {
                match spec_parse_text(evs, pos + 1) {
                    Ok((t, p)) => read_param(evs, p, SpecParam { defname: Some(t), ..acc }),
                    Err(e) => Err(e),
                }
            } else {
                read_param(evs, pos + 1, acc)
            },
            XmlEvent::End(n) => if n@ == "param"@ {
                Ok((acc, pos + 1))
            } else {
                read_param(evs, pos + 1, acc)
            },
            _ => read_param(evs, pos + 1, acc),
        }
    }
}

/// Reading the descriptions of an element: `Some` rule applies to
/// `briefdescription` and `detaileddescription` children.
pub open spec fn description_tag(name: Seq<char>) -> bool {
    name == "briefdescription"@ || name == "detaileddescription"@
}

/// Reading an enum value: its `name`, `initializer` and descriptions.
pub open spec fn read_enum_value(evs: Seq<XmlEvent>, pos: int, acc: SpecEnumValue) -> Read<SpecEnumValue>
    decreases evs.len() - pos,
{
    if pos < 0 || pos >= evs.len() {
        Err(ParseError::UnexpectedEof)
    } else {
        match evs[pos] {
            XmlEvent::Start(tag) => if tag.name@ == "name"@ {
                match spec_parse_text(evs, pos + 1) {
                    Ok((t, p)) => read_enum_value(evs, p, SpecEnumValue { name: t, ..acc }),
                    Err(e) => Err(e),
                }
            } else if tag.name@ == "initializer"@ {
                match read_linked(evs, pos + 1, "initializer"@, Seq::empty()) {
                    Ok((t, p)) => if pos < p <= evs.len() {
                        read_enum_value(evs, p, SpecEnumValue { initializer: Some(t), ..acc })
                    } else {
                        Err(ParseError::UnexpectedEof)
                    },
                    Err(e) => Err(e),
                }
            } else if description_tag(tag.name@) {
                match read_description(evs, pos + 1, tag.name@, Seq::empty()) {
                    Ok((d, p)) => if pos < p <= evs.len() {
                        if tag.name@ == "briefdescription"@ {
                            read_enum_value(evs, p, SpecEnumValue { brief_description: Some(d), ..acc })
                        } else {
                            read_enum_value(evs, p, SpecEnumValue { detailed_description: Some(d), ..acc })
                        }
                    } else {
                        Err(ParseError::UnexpectedEof)
                    },
                    Err(e) => Err(e),
                }
            } else {
                read_enum_value(evs, pos + 1, acc)
            },
            XmlEvent::End(n) => if n@ == "enumvalue"@ {
                Ok((acc, pos + 1))
            } else {
                read_enum_value(evs, pos + 1, acc)
            },
            _ => read_enum_value(evs, pos + 1, acc),
        }
    }
}

/// The empty enum value that reading starts from.
pub open spec fn empty_enum_value(id: Seq<char>) -> SpecEnumValue {
    SpecEnumValue { id, name: Seq::empty(), initializer: None, brief_description: None, detailed_description: None }
}

/// Reading a member definition: its `type`, `name`, `qualifiedname`,
/// `argsstring`, `param` and `enumvalue` children and its descriptions.
/// Every other child (template parameter lists, locations, references, ...)
/// is read over with all it holds.
pub open spec fn read_member_def(evs: Seq<XmlEvent>, pos: int, acc: SpecMemberDef) -> Read<SpecMemberDef>
    decreases evs.len() - pos,
{
    if pos < 0 || pos >= evs.len() {
        Err(ParseError::UnexpectedEof)
    } else {
        match evs[pos] {
            XmlEvent::Start(tag) => if tag.name@ == "type"@ {
                match read_linked(evs, pos + 1, "type"@, Seq::empty()) {
                    Ok((t, p)) => if pos < p <= evs.len() {
                        read_member_def(evs, p, SpecMemberDef { type_: Some(t), ..acc })
                    } else {
                        Err(ParseError::UnexpectedEof)
                    },
                    Err(e) => Err(e),
                }
            } else if tag.name@ == "name"@ {
                match spec_parse_text(evs, pos + 1) {
                    Ok((t, p)) => read_member_def(evs, p, SpecMemberDef { name: t, ..acc }),
                    Err(e) => Err(e),
                }
            } else if tag.name@ == "qualifiedname"@ {
                match spec_parse_text(evs, pos + 1) {
                    Ok((t, p)) => read_member_def(evs, p, SpecMemberDef { qualifiedname: Some(t), ..acc }),
                    Err(e) => Err(e),
                }
            } else if tag.name@ == "argsstring"@ {
                match spec_parse_text(evs, pos + 1) {
                    Ok((t, p)) => read_member_def(evs, p, SpecMemberDef { argsstring: Some(t), ..acc }),
                    Err(e) => Err(e),
                }
            } else if tag.name@ == "param"@ {
                match read_param(evs, pos + 1, SpecParam { type_: None, declname: None, defname: None }) {
                    Ok((v, p)) => if pos < p <= evs.len() {
                        read_member_def(evs, p, SpecMemberDef { param: acc.param.push(v), ..acc })
                    } else {
                        Err(ParseError::UnexpectedEof)
                    },
                    Err(e) => Err(e),
                }
            } else if tag.name@ == "enumvalue"@ {
                match required_attribute(tag, "id"@) {
                    Ok(id) => match read_enum_value(evs, pos + 1, empty_enum_value(id)) {
                        Ok((v, p)) => if pos < p <= evs.len() {
                            read_member_def(evs, p, SpecMemberDef { enumvalue: acc.enumvalue.push(v), ..acc })
                        } else {
                            Err(ParseError::UnexpectedEof)
                        },
                        Err(e) => Err(e),
                    },
                    Err(e) => Err(e),
                }
            } else if description_tag(tag.name@) {
                match read_description(evs, pos + 1, tag.name@, Seq::empty()) {
                    Ok((d, p)) => if pos < p <= evs.len() {
                        if tag.name@ == "briefdescription"@ {
                            read_member_def(evs, p, SpecMemberDef { brief_description: Some(d), ..acc })
                        } else {
                            read_member_def(evs, p, SpecMemberDef { detailed_description: Some(d), ..acc })
                        }
                    } else {
                        Err(ParseError::UnexpectedEof)
                    },
                    Err(e) => Err(e),
                }
            } else {
                match skip_element(evs, pos + 1, 0) {
                    Ok(p) => if pos < p <= evs.len() {
                        read_member_def(evs, p, acc)
                    } else {
                        Err(ParseError::UnexpectedEof)
                    },
                    Err(e) => Err(e),
                }
            },
            XmlEvent::End(n) => if n@ == "memberdef"@ {
                Ok((acc, pos + 1))
            } else {
                read_member_def(evs, pos + 1, acc)
            },
            _ => read_member_def(evs, pos + 1, acc),
        }
    }
}

/// The member definition that reading starts from, from the attributes of
/// its start tag: `id`, `kind` and `static` are required, `const` and
/// `inline` are optional.
pub open spec fn start_member_def(tag: StartTag) -> Result<SpecMemberDef, ParseError> {
    match required_attribute(tag, "id"@) {
        Err(e) => Err(e),
        Ok(id) => match enum_attribute(tag, "kind"@, |s: Seq<char>| DoxMemberKind::spec_from_str(s)) {
            Err(e) => Err(e),
            Ok(kind) => match enum_attribute(tag, "static"@, |s: Seq<char>| DoxBool::spec_from_str(s)) {
                Err(e) => Err(e),
                Ok(static_) => match optional_enum_attribute(tag, "const"@, |s: Seq<char>| DoxBool::spec_from_str(s)) {
                    Err(e) => Err(e),
                    Ok(const_) => match optional_enum_attribute(tag, "inline"@, |s: Seq<char>| DoxBool::spec_from_str(s)) {
                        Err(e) => Err(e),
                        Ok(inline) => Ok(SpecMemberDef {
                            kind,
                            id,
                            static_,
                            const_,
                            inline,
                            type_: None,
                            name: Seq::empty(),
                            qualifiedname: None,
                            argsstring: None,
                            param: Seq::empty(),
                            enumvalue: Seq::empty(),
                            brief_description: None,
                            detailed_description: None,
                        }),
                    },
                },
            },
        },
    }
}

/// Reading a section definition: its `memberdef` children, passing over any
/// other element whole (its `header` and `description`) and other events; it
/// must hold at least one member.
pub open spec fn read_section_def(evs: Seq<XmlEvent>, pos: int, acc: Seq<SpecMemberDef>) -> Read<Seq<SpecMemberDef>>
    decreases evs.len() - pos,
{
    if pos < 0 || pos >= evs.len() {
        Err(ParseError::UnexpectedEof)
    } else {
        match evs[pos] {
            XmlEvent::Start(tag) => if tag.name@ == "memberdef"@ {
                match start_member_def(tag) {
                    Ok(start) => match read_member_def(evs, pos + 1, start) {
                        Ok((m, p)) => if pos < p <= evs.len() {
                            read_section_def(evs, p, acc.push(m))
                        } else {
                            Err(ParseError::UnexpectedEof)
                        },
                        Err(e) => Err(e),
                    },
                    Err(e) => Err(e),
                }
            } else {
                match skip_element(evs, pos + 1, 0) {
                    Ok(p) => if pos < p <= evs.len() {
                        read_section_def(evs, p, acc)
                    } else {
                        Err(ParseError::UnexpectedEof)
                    },
                    Err(e) => Err(e),
                }
            },
            XmlEvent::End(n) => if n@ == "sectiondef"@ {
                if acc.len() == 0 {
                    Err(ParseError::EmptyList)
                } else {
                    Ok((acc, pos + 1))
                }
            } else {
                read_section_def(evs, pos + 1, acc)
            },
            _ => read_section_def(evs, pos + 1, acc),
        }
    }
}

/// Reading a compound definition: its `compoundname`, descriptions,
/// `innerclass`, `innergroup` and `sectiondef` children (each section with a
/// `kind` attribute); any other element is passed over whole.
pub open spec fn read_compound_def(evs: Seq<XmlEvent>, pos: int, acc: SpecCompoundDef) -> Read<SpecCompoundDef>
    decreases evs.len() - pos,
{
    if pos < 0 || pos >= evs.len() {
        Err(ParseError::UnexpectedEof)
    } else {
        match evs[pos] {
            XmlEvent::Start(tag) => if tag.name@ == "compoundname"@ {
                match spec_parse_text(evs, pos + 1) {
                    Ok((t, p)) => read_compound_def(evs, p, SpecCompoundDef { compound_name: t, ..acc }),
                    Err(e) => Err(e),
                }
            } else if description_tag(tag.name@) {
                match read_description(evs, pos + 1, tag.name@, Seq::empty()) {
                    Ok((d, p)) => if pos < p <= evs.len() {
                        if tag.name@ == "briefdescription"@ {
                            read_compound_def(evs, p, SpecCompoundDef { brief_description: Some(d), ..acc })
                        } else {
                            read_compound_def(evs, p, SpecCompoundDef { detailed_description: Some(d), ..acc })
                        }
                    } else {
                        Err(ParseError::UnexpectedEof)
                    },
                    Err(e) => Err(e),
                }
            } else if tag.name@ == "innerclass"@ {
                match read_ref_type(evs, pos, tag) {
                    Ok((r, p)) => read_compound_def(evs, p, SpecCompoundDef { innerclass: acc.innerclass.push(r), ..acc }),
                    Err(e) => Err(e),
                }
            } else if tag.name@ == "innergroup"@ {
                match read_ref_type(evs, pos, tag) {
                    Ok((r, p)) => read_compound_def(evs, p, SpecCompoundDef { innergroup: acc.innergroup.push(r), ..acc }),
                    Err(e) => Err(e),
                }
            } else if tag.name@ == "sectiondef"@ {
                match enum_attribute(tag, "kind"@, |s: Seq<char>| DoxSectionKind::spec_from_str(s)) {
                    Ok(kind) => match read_section_def(evs, pos + 1, Seq::empty()) {
                        Ok((ms, p)) => if pos < p <= evs.len() {
                            read_compound_def(
                                evs,
                                p,
                                SpecCompoundDef {
                                    section_defs: acc.section_defs.push(SpecSectionDef { kind, member_defs: ms }),
                                    ..acc
                                },
                            )
                        } else {
                            Err(ParseError::UnexpectedEof)
                        },
                        Err(e) => Err(e),
                    },
                    Err(e) => Err(e),
                }
            } else {
                match skip_element(evs, pos + 1, 0) {
                    Ok(p) => if pos < p <= evs.len() {
                        read_compound_def(evs, p, acc)
                    } else {
                        Err(ParseError::UnexpectedEof)
                    },
                    Err(e) => Err(e),
                }
            },
            XmlEvent::End(n) => if n@ == "compounddef"@ {
                Ok((acc, pos + 1))
            } else {
                read_compound_def(evs, pos + 1, acc)
            },
            _ => read_compound_def(evs, pos + 1, acc),
        }
    }
}

/// The compound definition that reading starts from, from the attributes of
/// its start tag: `id` and `kind` are required, `language` is optional.
pub open spec fn start_compound_def(tag: StartTag) -> Result<SpecCompoundDef, ParseError> {
    match required_attribute(tag, "id"@) {
        Err(e) => Err(e),
        Ok(id) => match enum_attribute(tag, "kind"@, |s: Seq<char>| DoxCompoundKind::spec_from_str(s)) {
            Err(e) => Err(e),
            Ok(kind) => match optional_enum_attribute(tag, "language"@, |s: Seq<char>| DoxLanguage::spec_from_str(s)) {
                Err(e) => Err(e),
                Ok(language) => Ok(SpecCompoundDef {
                    id,
                    kind,
                    language,
                    compound_name: Seq::empty(),
                    brief_description: None,
                    detailed_description: None,
                    innerclass: Seq::empty(),
                    innergroup: Seq::empty(),
                    section_defs: Seq::empty(),
                }),
            },
        },
    }
}

/// Reading a compound file from `pos`: events are passed over up to the first
/// `compounddef` start tag, whose definition is the file's; without one the
/// file is missing its element.
pub open spec fn read_doxygen(evs: Seq<XmlEvent>, pos: int) -> Result<SpecDoxygen, ParseError>
    decreases evs.len() - pos,
{
    if pos < 0 || pos >= evs.len() {
        Err(ParseError::MissingElement)
    } else {
        match evs[pos] {
            XmlEvent::Start(tag) => if tag.name@ == "compounddef"@ {
                match start_compound_def(tag) {
                    Ok(start) => match read_compound_def(evs, pos + 1, start) {
                        Ok((c, _)) => Ok(SpecDoxygen { compound_def: Some(c) }),
                        Err(e) => Err(e),
                    },
                    Err(e) => Err(e),
                }
            } else {
                read_doxygen(evs, pos + 1)
            },
            _ => read_doxygen(evs, pos + 1),
        }
    }
}

} // verus!
