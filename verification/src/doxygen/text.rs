//! Rendering Doxygen elements to the plain text that Sphinx domain directives
//! take as their arguments: declarations of compounds, members and enum
//! values.
use vstd::prelude::*;

use crate::doxygen::compound::elements::{
    CompoundDefType, DoxBool, DoxCompoundKind, DoxMemberKind, EnumValueType, LinkedTextType, LinkedTextTypeItem,
    MemberDefType, RefTextType, SpecEnumValue, SpecLinkedTextItem, SpecMemberDef, SpecParam, view_compound_def,
    view_enum_value, view_linked, view_linked_item, view_linked_items, view_member_def, view_opt_linked,
};
use crate::doxygen::nodes::Domain;
use crate::strings::{
    concat_all, concat_strings, occurs_at, flatten, join, join_strings, opt_view, option_views, present, push_char, replace_all,
    replace_char, replace_char_str, replace_str, string_views, to_chars,
};

verus! {

// ---------------------------------------------------------------------------
// HTML entities

/// What `html_escape::decode_html_entities` gives for a text.
pub uninterp spec fn html_decoded(s: Seq<char>) -> Seq<char>;

/// Calls `html_escape::decode_html_entities`, which replaces the HTML
/// character references of a text by the characters they stand for. The
/// result is named, not described.
#[verifier::external_body]
pub(crate) fn decode_html_entities(s: &str) -> (r: String)
    ensures
        r@ == html_decoded(s@),
{
    html_escape::decode_html_entities(s).into_owned()
}

// ---------------------------------------------------------------------------
// Small helpers

/// The name of a compound kind.
pub open spec fn spec_compound_kind_name(kind: DoxCompoundKind) -> Seq<char> {
    match kind {
        DoxCompoundKind::Class => "class"@,
        DoxCompoundKind::Struct => "struct"@,
        DoxCompoundKind::Union => "union"@,
        DoxCompoundKind::Interface => "interface"@,
        DoxCompoundKind::Protocol => "protocol"@,
        DoxCompoundKind::Category => "category"@,
        DoxCompoundKind::Exception => "exception"@,
        DoxCompoundKind::Service => "service"@,
        DoxCompoundKind::Singleton => "singleton"@,
        DoxCompoundKind::Module => "module"@,
        DoxCompoundKind::Type => "type"@,
        DoxCompoundKind::File => "file"@,
        DoxCompoundKind::Namespace => "namespace"@,
        DoxCompoundKind::Group => "group"@,
        DoxCompoundKind::Page => "page"@,
        DoxCompoundKind::Example => "example"@,
        DoxCompoundKind::Dir => "dir"@,
        DoxCompoundKind::Concept => "concept"@,
    }
}

/// The name of a compound kind, as the keyword of its signature.
pub fn render_compound_kind(kind: &DoxCompoundKind) -> (r: &'static str)
    ensures
        r@ == spec_compound_kind_name(*kind),
{
    match kind {
        DoxCompoundKind::Class => "class",
        DoxCompoundKind::Struct => "struct",
        DoxCompoundKind::Union => "union",
        DoxCompoundKind::Interface => "interface",
        DoxCompoundKind::Protocol => "protocol",
        DoxCompoundKind::Category => "category",
        DoxCompoundKind::Exception => "exception",
        DoxCompoundKind::Service => "service",
        DoxCompoundKind::Singleton => "singleton",
        DoxCompoundKind::Module => "module",
        DoxCompoundKind::Type => "type",
        DoxCompoundKind::File => "file",
        DoxCompoundKind::Namespace => "namespace",
        DoxCompoundKind::Group => "group",
        DoxCompoundKind::Page => "page",
        DoxCompoundKind::Example => "example",
        DoxCompoundKind::Dir => "dir",
        DoxCompoundKind::Concept => "concept",
    }
}

/// The name a compound kind is rendered with is the name the compound reader
/// reads that kind from: so distinct kinds have distinct names.
pub proof fn law_compound_kind_name_round_trip(kind: DoxCompoundKind)
    ensures
        DoxCompoundKind::spec_from_str(spec_compound_kind_name(kind)) == Some(kind),
{
    // No two names have both the same length and the same first letter.
    reveal_strlit("class");
    assert("class"@.len() == 5 && "class"@[0] == 'c');
    reveal_strlit("struct");
    assert("struct"@.len() == 6 && "struct"@[0] == 's');
    reveal_strlit("union");
    assert("union"@.len() == 5 && "union"@[0] == 'u');
    reveal_strlit("interface");
    assert("interface"@.len() == 9 && "interface"@[0] == 'i');
    reveal_strlit("protocol");
    assert("protocol"@.len() == 8 && "protocol"@[0] == 'p');
    reveal_strlit("category");
    assert("category"@.len() == 8 && "category"@[0] == 'c');
    reveal_strlit("exception");
    assert("exception"@.len() == 9 && "exception"@[0] == 'e');
    reveal_strlit("service");
    assert("service"@.len() == 7 && "service"@[0] == 's');
    reveal_strlit("singleton");
    assert("singleton"@.len() == 9 && "singleton"@[0] == 's');
    reveal_strlit("module");
    assert("module"@.len() == 6 && "module"@[0] == 'm');
    reveal_strlit("type");
    assert("type"@.len() == 4 && "type"@[0] == 't');
    reveal_strlit("file");
    assert("file"@.len() == 4 && "file"@[0] == 'f');
    reveal_strlit("namespace");
    assert("namespace"@.len() == 9 && "namespace"@[0] == 'n');
    reveal_strlit("group");
    assert("group"@.len() == 5 && "group"@[0] == 'g');
    reveal_strlit("page");
    assert("page"@.len() == 4 && "page"@[0] == 'p');
    reveal_strlit("example");
    assert("example"@.len() == 7 && "example"@[0] == 'e');
    reveal_strlit("dir");
    assert("dir"@.len() == 3 && "dir"@[0] == 'd');
    reveal_strlit("concept");
    assert("concept"@.len() == 7 && "concept"@[0] == 'c');
}

/// The string with `suffix` after it.
pub fn with_trailing(string: String, suffix: &str) -> (r: String)
    ensures
        r@ == string@ + suffix@,
{
    let mut string = string;
    string.append(suffix);
    string
}

/// The string with `c` before it.
pub fn with_leading(string: String, c: char) -> (r: String)
    ensures
        r@ == seq![c] + string@,
{
    let mut out = String::new();
    push_char(&mut out, c);
    out.append(string.as_str());
    assert(out@ =~= seq![c] + string@);
    out
}

/// `text` where the flag is yes.
pub open spec fn spec_if_yes(flag: DoxBool, text: Seq<char>) -> Option<Seq<char>> {
    if flag == DoxBool::Yes {
        Some(text)
    } else {
        None
    }
}

/// The text where the flag is yes, nothing where it is no.
pub fn if_yes(dox_bool: &DoxBool, text: &str) -> (r: Option<String>)
    ensures
        opt_view(r) == spec_if_yes(*dox_bool, text@),
{
    if *dox_bool == DoxBool::Yes {
        Some(text.to_owned())
    } else {
        None
    }
}

/// Every line break replaced by a space.
pub fn collapse_lines(text: &str) -> (r: String)
    ensures
        r@ == replace_char(text@, '\n', ' '),
{
    replace_char_str(text, '\n', ' ')
}

/// Nothing for the empty text, the text otherwise.
pub fn option_from_str(text: &str) -> (r: Option<&str>)
    ensures
        r is None <==> text@.len() == 0,
        r matches Some(t) ==> t@ == text@,
{
    if text.is_empty() {
        None
    } else {
        Some(text)
    }
}

// ---------------------------------------------------------------------------
// Linked text

/// The text of one item of linked text, its HTML entities decoded.
pub open spec fn linked_item_text(i: SpecLinkedTextItem) -> Seq<char> {
    match i {
        SpecLinkedTextItem::Ref(r) => html_decoded(r.content),
        SpecLinkedTextItem::Text(t) => html_decoded(t),
    }
}

/// The texts of the items of linked text.
pub open spec fn linked_item_texts(s: Seq<SpecLinkedTextItem>) -> Seq<Seq<char>> {
    s.map_values(|i: SpecLinkedTextItem| linked_item_text(i))
}

/// Linked text as plain text: the texts of its items, their HTML entities
/// decoded, joined with spaces.
pub open spec fn spec_linked_text(s: Seq<SpecLinkedTextItem>) -> Seq<char> {
    join(linked_item_texts(s), " "@)
}

/// The text of a reference, its HTML entities decoded.
pub fn render_ref_text_type(ref_text_type: &RefTextType) -> (r: String)
    ensures
        r@ == html_decoded(ref_text_type.content@),
{
    decode_html_entities(ref_text_type.content.as_str())
}

/// Linked text as plain text: the texts of its items, their HTML entities
/// decoded, joined with spaces.
pub fn render_linked_text_type(linked_text_type: &LinkedTextType) -> (r: String)
    ensures
        r@ == spec_linked_text(view_linked(*linked_text_type)),
{
    let mut parts: Vec<String> = Vec::new();
    let n = linked_text_type.content.len();
    for i in 0..n
        invariant
            n == linked_text_type.content.len(),
            string_views(parts@) =~= linked_item_texts(view_linked_items(linked_text_type.content@.take(i as int))),
    {
        let ghost before = parts@;
        match &linked_text_type.content[i] {
            LinkedTextTypeItem::Ref(content) => parts.push(render_ref_text_type(content)),
            LinkedTextTypeItem::Text(text) => parts.push(decode_html_entities(text.as_str())),
        }
        assert(linked_text_type.content@.take(i + 1) =~= linked_text_type.content@.take(i as int).push(
            linked_text_type.content@[i as int],
        ));
        assert(linked_item_texts(view_linked_items(linked_text_type.content@.take(i + 1))) =~= linked_item_texts(
            view_linked_items(linked_text_type.content@.take(i as int)),
        ).push(linked_item_text(view_linked_item(linked_text_type.content@[i as int]))));
        assert(string_views(parts@) =~= string_views(before).push(parts@.last()@));
    }
    assert(linked_text_type.content@.take(n as int) =~= linked_text_type.content@);
    join_strings(&parts, " ")
}

fn render_opt_linked(l: &Option<LinkedTextType>) -> (r: Option<String>)
    ensures
        opt_view(r) == opt_linked_text(view_opt_linked(*l)),
{
    match l {
        Some(l) => Some(render_linked_text_type(l)),
        None => None,
    }
}

// ---------------------------------------------------------------------------
// Declarations

/// The declaration of a compound: its name, with `.` for `::` in the C
/// domain.
pub open spec fn spec_compound_def_text(domain: Domain, name: Seq<char>) -> Seq<char> {
    match domain {
        Domain::CPlusPlus => name,
        Domain::C => replace_all(name, "::"@, "."@),
    }
}

proof fn lemma_occurs_colons(x: Seq<char>, i: int)
    ensures
        occurs_at(x, "::"@, i) == (0 <= i && i + 2 <= x.len() && x[i] == ':' && x[i + 1] == ':'),
{
    reveal_strlit("::");
    if 0 <= i && i + 2 <= x.len() && x[i] == ':' && x[i + 1] == ':' {
        assert(x.subrange(i, i + 2) =~= "::"@);
    }
    if occurs_at(x, "::"@, i) {
        assert(x.subrange(i, i + 2)[0] == x[i]);
        assert(x.subrange(i, i + 2)[1] == x[i + 1]);
    }
}

proof fn lemma_no_scope_operator(s: Seq<char>)
    ensures
        forall|i: int| !occurs_at(#[trigger] replace_all(s, "::"@, "."@), "::"@, i),
        replace_all(s, "::"@, "."@).len() > 0 && replace_all(s, "::"@, "."@)[0] == ':' ==> s.len() > 0 && s[0] == ':',
    decreases s.len(),
{
    reveal_strlit("::");
    reveal_strlit(".");
    let x = replace_all(s, "::"@, "."@);
    if s.len() < 2 {
        assert forall|i: int| !occurs_at(x, "::"@, i) by {
            lemma_occurs_colons(x, i);
        }
    } else {
        lemma_occurs_colons(s, 0);
        if occurs_at(s, "::"@, 0) {
            let rest = s.skip(2);
            lemma_no_scope_operator(rest);
            let y = replace_all(rest, "::"@, "."@);
            assert(x == "."@ + y);
            assert forall|i: int| !occurs_at(x, "::"@, i) by {
                lemma_occurs_colons(x, i);
                lemma_occurs_colons(y, i - 1);
            }
        } else {
            let rest = s.skip(1);
            lemma_no_scope_operator(rest);
            let y = replace_all(rest, "::"@, "."@);
            assert(x == seq![s[0]] + y);
            assert forall|i: int| !occurs_at(x, "::"@, i) by {
                lemma_occurs_colons(x, i);
                lemma_occurs_colons(y, i - 1);
            }
        }
    }
}

/// In the C domain no `::` is left in the declaration of a compound: every
/// scope operator of its name became a `.`.
pub proof fn law_c_declarations_have_no_scope_operator(name: Seq<char>)
    ensures
        forall|i: int| !occurs_at(#[trigger] spec_compound_def_text(Domain::C, name), "::"@, i),
{
    lemma_no_scope_operator(name);
}

/// The declaration of a compound for a domain directive: its name, with `.`
/// in place of `::` in the C domain.
pub fn render_compound_def(domain: &Domain, compound_def: &CompoundDefType) -> (r: String)
    ensures
        r@ == spec_compound_def_text(*domain, compound_def.compound_name@),
{
    match domain {
        Domain::CPlusPlus => compound_def.compound_name.clone(),
        Domain::C => {
            proof {
                reveal_strlit("::");
            }
            replace_str(compound_def.compound_name.as_str(), "::", ".")
        },
    }
}

/// The kinds of member that have a declaration text.
pub open spec fn has_declaration_text(kind: DoxMemberKind) -> bool {
    kind == DoxMemberKind::Function || kind == DoxMemberKind::Define || kind == DoxMemberKind::Enum
        || kind == DoxMemberKind::Typedef || kind == DoxMemberKind::Variable
}

/// Linked text as plain text, if present.
pub open spec fn opt_linked_text(l: Option<Seq<SpecLinkedTextItem>>) -> Option<Seq<char>> {
    match l {
        Some(l) => Some(spec_linked_text(l)),
        None => None,
    }
}

/// The `defname` of each parameter that has one.
pub open spec fn defnames(params: Seq<SpecParam>) -> Seq<Option<Seq<char>>> {
    params.map_values(|p: SpecParam| p.defname)
}

/// Whether a text starts with `)`, as the arguments of a function pointer do.
pub open spec fn starts_with_paren(s: Seq<char>) -> bool {
    s.len() > 0 && s[0] == ')'
}

/// The declaration of a member for a domain directive.
///
/// - a function: `static `, `inline ` and `const ` where they apply, its type
///   and a space, its name (qualified in the C++ domain where it can be) and
///   its argument string;
/// - a define: its name, with the names of its parameters in brackets after
///   it, separated by `, `, when it has parameters;
/// - an enum: its name, or `@` and its id when it is anonymous;
/// - a typedef: its type, name and argument string, separated by spaces;
/// - a variable: its type, its name (qualified where it can be) and its
///   argument string when that starts with `)`, separated by spaces, with `.`
///   for `::` in the C domain.
pub open spec fn spec_member_def_text(domain: Domain, m: SpecMemberDef) -> Seq<char> {
    match m.kind {
        DoxMemberKind::Function => concat_all(
            present(
                seq![
                    spec_if_yes(m.static_, "static "@),
                    spec_if_yes(m.inline.unwrap_or(DoxBool::No), "inline "@),
                    spec_if_yes(m.const_.unwrap_or(DoxBool::No), "const "@),
                    match m.type_ {
                        Some(t) => Some(spec_linked_text(t) + " "@),
                        None => None,
                    },
                    Some(
                        match domain {
                            Domain::CPlusPlus => m.qualifiedname.unwrap_or(m.name),
                            Domain::C => m.name,
                        },
                    ),
                    m.argsstring,
                ],
            ),
        ),
        DoxMemberKind::Define => if m.param.len() == 0 {
            m.name
        } else {
            m.name + "("@ + join(present(defnames(m.param)), ", "@) + ")"@
        },
        DoxMemberKind::Enum => if m.name.len() > 0 {
            m.name
        } else {
            "@"@ + m.id
        },
        DoxMemberKind::Typedef => join(present(seq![opt_linked_text(m.type_), Some(m.name), m.argsstring]), " "@),
        _ => join(
            present(
                seq![
                    match m.type_ {
                        Some(t) => Some(
                            match domain {
                                Domain::CPlusPlus => spec_linked_text(t),
                                Domain::C => replace_all(spec_linked_text(t), "::"@, "."@),
                            },
                        ),
                        None => None,
                    },
                    Some(
                        match m.qualifiedname {
                            Some(q) => match domain {
                                Domain::CPlusPlus => q,
                                Domain::C => replace_all(q, "::"@, "."@),
                            },
                            None => m.name,
                        },
                    ),
                    match m.argsstring {
                        Some(a) => if starts_with_paren(a) {
                            Some(html_decoded(a))
                        } else {
                            None
                        },
                        None => None,
                    },
                ],
            ),
            " "@,
        ),
    }
}

fn starts_with_paren_exec(s: &str) -> (r: bool)
    ensures
        r == starts_with_paren(s@),
{
    let cs = to_chars(s);
    cs.len() > 0 && cs[0] == ')'
}

proof fn lemma_present_cons(x: Option<Seq<char>>, rest: Seq<Option<Seq<char>>>)
    ensures
        present(seq![x] + rest) == match x {
            Some(t) => seq![t] + present(rest),
            None => present(rest),
        },
    decreases rest.len(),
{
    let whole = seq![x] + rest;
    if rest.len() == 0 {
        assert(whole =~= seq![x]);
        assert(whole.drop_last() =~= Seq::<Option<Seq<char>>>::empty());
        assert(whole.last() == x);
        assert(present(Seq::<Option<Seq<char>>>::empty()) == Seq::<Seq<char>>::empty());
        if let Some(t) = x {
            assert(present(whole) == present(whole.drop_last()).push(t));
            assert(Seq::<Seq<char>>::empty().push(t) =~= seq![t] + Seq::<Seq<char>>::empty());
        } else {
            assert(present(whole) == present(whole.drop_last()));
        }
    } else {
        lemma_present_cons(x, rest.drop_last());
        assert(whole.drop_last() =~= seq![x] + rest.drop_last());
        assert(whole.last() == rest.last());
        match rest.last() {
            Some(u) => {
                assert(present(whole) == present(whole.drop_last()).push(u));
                assert(present(rest) == present(rest.drop_last()).push(u));
                if let Some(t) = x {
                    assert((seq![t] + present(rest.drop_last())).push(u) =~= seq![t] + present(rest.drop_last()).push(u));
                }
            },
            None => {
                assert(present(whole) == present(whole.drop_last()));
                assert(present(rest) == present(rest.drop_last()));
            },
        }
    }
}

proof fn lemma_concat_cons(x: Seq<char>, rest: Seq<Seq<char>>)
    ensures
        concat_all(seq![x] + rest) == x + concat_all(rest),
    decreases rest.len(),
{
    let whole = seq![x] + rest;
    if rest.len() == 0 {
        assert(whole =~= seq![x]);
        assert(whole.drop_last() =~= Seq::<Seq<char>>::empty());
        assert(whole.last() == x);
        assert(concat_all(whole) == concat_all(whole.drop_last()) + whole.last());
        assert(concat_all(Seq::<Seq<char>>::empty()) == Seq::<char>::empty());
        assert(Seq::<char>::empty() + x =~= x);
        assert(x + Seq::<char>::empty() =~= x);
    } else {
        lemma_concat_cons(x, rest.drop_last());
        assert(whole.drop_last() =~= seq![x] + rest.drop_last());
        assert(whole.last() == rest.last());
        assert(concat_all(whole) == concat_all(whole.drop_last()) + whole.last());
        assert(concat_all(rest) == concat_all(rest.drop_last()) + rest.last());
        assert(x + concat_all(rest.drop_last()) + rest.last() =~= x + (concat_all(rest.drop_last()) + rest.last()));
    }
}

/// The parts of a function's declaration after its `static ` part.
spec fn function_parts_after_static(domain: Domain, m: SpecMemberDef) -> Seq<Option<Seq<char>>> {
    seq![
        spec_if_yes(m.inline.unwrap_or(DoxBool::No), "inline "@),
        spec_if_yes(m.const_.unwrap_or(DoxBool::No), "const "@),
        match m.type_ {
            Some(t) => Some(spec_linked_text(t) + " "@),
            None => None,
        },
        Some(
            match domain {
                Domain::CPlusPlus => m.qualifiedname.unwrap_or(m.name),
                Domain::C => m.name,
            },
        ),
        m.argsstring,
    ]
}

/// A function's declaration starts with `static ` exactly when the member is
/// static: making a member static puts `static ` in front of its declaration
/// and changes nothing else, whatever its other flags.
pub proof fn law_function_declaration_static(domain: Domain, m: SpecMemberDef)
    requires
        m.kind == DoxMemberKind::Function,
    ensures
        spec_member_def_text(domain, SpecMemberDef { static_: DoxBool::Yes, ..m }) == "static "@
            + spec_member_def_text(domain, SpecMemberDef { static_: DoxBool::No, ..m }),
{
    let rest = function_parts_after_static(domain, m);
    let yes = SpecMemberDef { static_: DoxBool::Yes, ..m };
    let no = SpecMemberDef { static_: DoxBool::No, ..m };
    assert(function_parts_after_static(domain, yes) == rest);
    assert(function_parts_after_static(domain, no) == rest);
    lemma_present_cons(Some("static "@), rest);
    lemma_present_cons(None, rest);
    lemma_concat_cons("static "@, present(rest));
    assert(seq![spec_if_yes(DoxBool::Yes, "static "@)] + rest =~= seq![
        spec_if_yes(yes.static_, "static "@),
        spec_if_yes(yes.inline.unwrap_or(DoxBool::No), "inline "@),
        spec_if_yes(yes.const_.unwrap_or(DoxBool::No), "const "@),
        match yes.type_ {
            Some(t) => Some(spec_linked_text(t) + " "@),
            None => None,
        },
        Some(
            match domain {
                Domain::CPlusPlus => yes.qualifiedname.unwrap_or(yes.name),
                Domain::C => yes.name,
            },
        ),
        yes.argsstring,
    ]);
    assert(seq![spec_if_yes(DoxBool::No, "static "@)] + rest =~= seq![
        spec_if_yes(no.static_, "static "@),
        spec_if_yes(no.inline.unwrap_or(DoxBool::No), "inline "@),
        spec_if_yes(no.const_.unwrap_or(DoxBool::No), "const "@),
        match no.type_ {
            Some(t) => Some(spec_linked_text(t) + " "@),
            None => None,
        },
        Some(
            match domain {
                Domain::CPlusPlus => no.qualifiedname.unwrap_or(no.name),
                Domain::C => no.name,
            },
        ),
        no.argsstring,
    ]);
}

/// The declaration of a function that is not static starts with `inline `
/// exactly when the member is inline: making it inline puts `inline ` in
/// front and changes nothing else, and a member without the flag reads as
/// one that is not inline.
pub proof fn law_function_declaration_inline(domain: Domain, m: SpecMemberDef)
    requires
        m.kind == DoxMemberKind::Function,
        m.static_ == DoxBool::No,
    ensures
        spec_member_def_text(domain, SpecMemberDef { inline: Some(DoxBool::Yes), ..m }) == "inline "@
            + spec_member_def_text(domain, SpecMemberDef { inline: Some(DoxBool::No), ..m }),
        spec_member_def_text(domain, SpecMemberDef { inline: None, ..m }) == spec_member_def_text(
            domain,
            SpecMemberDef { inline: Some(DoxBool::No), ..m },
        ),
{
    let yes = SpecMemberDef { inline: Some(DoxBool::Yes), ..m };
    let no = SpecMemberDef { inline: Some(DoxBool::No), ..m };
    let tail = function_parts_after_static(domain, m).drop_first();
    assert(function_parts_after_static(domain, yes) =~= seq![Some("inline "@)] + tail);
    assert(function_parts_after_static(domain, no) =~= seq![None] + tail);
    assert(function_parts_after_static(domain, SpecMemberDef { inline: None, ..m }) =~= seq![None] + tail);
    lemma_present_cons(None, function_parts_after_static(domain, yes));
    lemma_present_cons(None, function_parts_after_static(domain, no));
    lemma_present_cons(Some("inline "@), tail);
    lemma_present_cons(None, tail);
    lemma_concat_cons("inline "@, present(tail));
    lemma_function_parts(domain, yes);
    lemma_function_parts(domain, no);
    lemma_function_parts(domain, SpecMemberDef { inline: None, ..m });
}

proof fn lemma_function_parts(domain: Domain, m: SpecMemberDef)
    requires
        m.kind == DoxMemberKind::Function,
    ensures
        spec_member_def_text(domain, m) == concat_all(
            present(seq![spec_if_yes(m.static_, "static "@)] + function_parts_after_static(domain, m)),
        ),
{
    assert(seq![spec_if_yes(m.static_, "static "@)] + function_parts_after_static(domain, m) =~= seq![
        spec_if_yes(m.static_, "static "@),
        spec_if_yes(m.inline.unwrap_or(DoxBool::No), "inline "@),
        spec_if_yes(m.const_.unwrap_or(DoxBool::No), "const "@),
        match m.type_ {
            Some(t) => Some(spec_linked_text(t) + " "@),
            None => None,
        },
        Some(
            match domain {
                Domain::CPlusPlus => m.qualifiedname.unwrap_or(m.name),
                Domain::C => m.name,
            },
        ),
        m.argsstring,
    ]);
}

/// The declaration of a member for a domain directive, as
/// `spec_member_def_text` states it. Only functions, defines, enums,
/// typedefs and variables have one.
pub fn render_member_def(domain: &Domain, member_def: &MemberDefType) -> (r: String)
    requires
        has_declaration_text(member_def.kind),
    ensures
        r@ == spec_member_def_text(*domain, view_member_def(*member_def)),
{
    let ghost m = view_member_def(*member_def);
    proof {
        reveal_strlit("::");
    }
    match member_def.kind {
        DoxMemberKind::Function => {
            let static_ = if_yes(&member_def.static_, "static ");
            let inline = match &member_def.inline {
                Some(b) => if_yes(b, "inline "),
                None => if_yes(&DoxBool::No, "inline "),
            };
            let const_ = match &member_def.const_ {
                Some(b) => if_yes(b, "const "),
                None => if_yes(&DoxBool::No, "const "),
            };
            let type_ = match &member_def.type_ {
                Some(t) => Some(with_trailing(render_linked_text_type(t), " ")),
                None => None,
            };
            let name = match domain {
                Domain::CPlusPlus => match &member_def.qualifiedname {
                    Some(q) => q.clone(),
                    None => member_def.name.clone(),
                },
                Domain::C => member_def.name.clone(),
            };
            let args = member_def.argsstring.clone();
            let ghost parts = seq![static_, inline, const_, type_, Some(name), args];
            let v = vec![static_, inline, const_, type_, Some(name), args];
            assert(v@ == parts);
            assert(option_views(v@) =~= seq![
                spec_if_yes(m.static_, "static "@),
                spec_if_yes(m.inline.unwrap_or(DoxBool::No), "inline "@),
                spec_if_yes(m.const_.unwrap_or(DoxBool::No), "const "@),
                match m.type_ {
                    Some(t) => Some(spec_linked_text(t) + " "@),
                    None => None,
                },
                Some(
                    match *domain {
                        Domain::CPlusPlus => m.qualifiedname.unwrap_or(m.name),
                        Domain::C => m.name,
                    },
                ),
                m.argsstring,
            ]);
            let present_parts = flatten(v);
            concat_strings(&present_parts)
        },
        DoxMemberKind::Define => {
            if member_def.param.len() == 0 {
                member_def.name.clone()
            } else {
                let mut names: Vec<Option<String>> = Vec::new();
                let n = member_def.param.len();
                for i in 0..n
                    invariant
                        n == member_def.param.len(),
                        m == view_member_def(*member_def),
                        option_views(names@) =~= defnames(m.param.take(i as int)),
                {
                    let ghost before = names@;
                    names.push(member_def.param[i].defname.clone());
                    assert(m.param[i as int] == crate::doxygen::compound::elements::view_param(member_def.param@[i as int]));
                    assert(m.param.take(i + 1) =~= m.param.take(i as int).push(m.param[i as int]));
                    assert(option_views(names@) =~= option_views(before).push(
                        match names@.last() {
                            Some(t) => Some(t@),
                            None => None,
                        },
                    ));
                }
                assert(m.param.take(n as int) =~= m.param);
                let present_names = flatten(names);
                let params = join_strings(&present_names, ", ");
                let mut out = member_def.name.clone();
                out.append("(");
                out.append(params.as_str());
                out.append(")");
                out
            }
        },
        DoxMemberKind::Enum => {
            if !member_def.name.as_str().is_empty() {
                member_def.name.clone()
            } else {
                let mut out = String::new();
                push_char(&mut out, '@');
                out.append(member_def.id.as_str());
                proof {
                    reveal_strlit("@");
                }
                assert(out@ =~= "@"@ + m.id);
                out
            }
        },
        DoxMemberKind::Typedef => {
            let type_ = render_opt_linked(&member_def.type_);
            let v = vec![type_, Some(member_def.name.clone()), member_def.argsstring.clone()];
            assert(option_views(v@) =~= seq![opt_linked_text(m.type_), Some(m.name), m.argsstring]);
            let present_parts = flatten(v);
            join_strings(&present_parts, " ")
        },
        _ => {
            let name = match &member_def.qualifiedname {
                Some(q) => match domain {
                    Domain::CPlusPlus => q.clone(),
                    Domain::C => replace_str(q.as_str(), "::", "."),
                },
                None => member_def.name.clone(),
            };
            let type_ = match &member_def.type_ {
                Some(t) => {
                    let text = render_linked_text_type(t);
                    match domain {
                        Domain::CPlusPlus => Some(text),
                        Domain::C => Some(replace_str(text.as_str(), "::", ".")),
                    }
                },
                None => None,
            };
            let args = match &member_def.argsstring {
                Some(a) => if starts_with_paren_exec(a.as_str()) {
                    Some(decode_html_entities(a.as_str()))
                } else {
                    None
                },
                None => None,
            };
            let v = vec![type_, Some(name), args];
            assert(option_views(v@) =~= seq![
                match m.type_ {
                    Some(t) => Some(
                        match *domain {
                            Domain::CPlusPlus => spec_linked_text(t),
                            Domain::C => replace_all(spec_linked_text(t), "::"@, "."@),
                        },
                    ),
                    None => None,
                },
                Some(
                    match m.qualifiedname {
                        Some(q) => match *domain {
                            Domain::CPlusPlus => q,
                            Domain::C => replace_all(q, "::"@, "."@),
                        },
                        None => m.name,
                    },
                ),
                match m.argsstring {
                    Some(a) => if starts_with_paren(a) {
                        Some(html_decoded(a))
                    } else {
                        None
                    },
                    None => None,
                },
            ]);
            let present_parts = flatten(v);
            join_strings(&present_parts, " ")
        },
    }
}

/// The separator between an enum's name and a value's name in a domain.
pub open spec fn enum_separator(domain: Domain) -> Seq<char> {
    match domain {
        Domain::CPlusPlus => "::"@,
        Domain::C => "."@,
    }
}

/// The declaration of an enum value: the enum's name (or anonymous id) and
/// the domain's separator when that is not empty, the value's name, and its
/// initializer after a space with its line breaks collapsed to spaces.
pub open spec fn spec_enum_value_text(domain: Domain, enum_name: Seq<char>, v: SpecEnumValue) -> Seq<char> {
    concat_all(
        present(
            seq![
                if enum_name.len() == 0 {
                    None
                } else {
                    Some(enum_name + enum_separator(domain))
                },
                Some(v.name),
                match v.initializer {
                    Some(t) => Some(replace_char(seq![' '] + spec_linked_text(t), '\n', ' ')),
                    None => None,
                },
            ],
        ),
    )
}

/// The declaration of an enum value for a domain directive, as
/// `spec_enum_value_text` states it.
pub fn render_enum_value(domain: &Domain, enum_name_or_anon_id: &str, enum_value: &EnumValueType) -> (r: String)
    ensures
        r@ == spec_enum_value_text(*domain, enum_name_or_anon_id@, view_enum_value(*enum_value)),
{
    let ghost v = view_enum_value(*enum_value);
    let separator = match domain {
        Domain::CPlusPlus => "::",
        Domain::C => ".",
    };
    let qualifier = match option_from_str(enum_name_or_anon_id) {
        Some(name) => Some(with_trailing(name.to_owned(), separator)),
        None => None,
    };
    let initializer = match &enum_value.initializer {
        Some(t) => {
            let text = with_leading(render_linked_text_type(t), ' ');
            Some(collapse_lines(text.as_str()))
        },
        None => None,
    };
    let parts = vec![qualifier, Some(enum_value.name.clone()), initializer];
    assert(option_views(parts@) =~= seq![
        if enum_name_or_anon_id@.len() == 0 {
            None
        } else {
            Some(enum_name_or_anon_id@ + enum_separator(*domain))
        },
        Some(v.name),
        match v.initializer {
            Some(t) => Some(replace_char(seq![' '] + spec_linked_text(t), '\n', ' ')),
            None => None,
        },
    ]);
    let present_parts = flatten(parts);
    concat_strings(&present_parts)
}

} // verus!
