use docleaf::doxygen::compound::elements::{
    CompoundDefType, DoxBool, DoxCompoundKind, DoxMemberKind, EnumValueType, LinkedTextType, LinkedTextTypeItem,
    MemberDefType, ParamType, RefTextType,
};
use docleaf::doxygen::nodes::Domain;
use docleaf::doxygen::text::{
    collapse_lines, if_yes, option_from_str, render_compound_def, render_compound_kind, render_enum_value,
    render_linked_text_type, render_member_def, render_ref_text_type, with_leading, with_trailing,
};

fn member(kind: DoxMemberKind) -> MemberDefType {
    MemberDefType {
        kind,
        id: "m1".to_string(),
        static_: DoxBool::No,
        const_: None,
        inline: None,
        type_: None,
        name: "name".to_string(),
        qualifiedname: None,
        argsstring: None,
        param: vec![],
        enumvalue: vec![],
        brief_description: None,
        detailed_description: None,
    }
}

fn text(t: &str) -> LinkedTextType {
    LinkedTextType { content: vec![LinkedTextTypeItem::Text(t.to_string())] }
}

fn compound(name: &str) -> CompoundDefType {
    CompoundDefType {
        id: "c".to_string(),
        kind: DoxCompoundKind::Struct,
        language: None,
        compound_name: name.to_string(),
        brief_description: None,
        detailed_description: None,
        innerclass: vec![],
        innergroup: vec![],
        section_defs: vec![],
    }
}

#[test]
fn compound_kind_names() {
    assert_eq!(render_compound_kind(&DoxCompoundKind::Class), "class");
    assert_eq!(render_compound_kind(&DoxCompoundKind::Namespace), "namespace");
    assert_eq!(render_compound_kind(&DoxCompoundKind::Concept), "concept");
}

#[test]
fn compound_def_uses_dots_in_c() {
    assert_eq!(render_compound_def(&Domain::C, &compound("outer::inner")), "outer.inner");
    assert_eq!(render_compound_def(&Domain::CPlusPlus, &compound("outer::inner")), "outer::inner");
    assert_eq!(render_compound_def(&Domain::C, &compound("a:::b")), "a.:b");
}

#[test]
fn small_text_helpers() {
    assert_eq!(with_trailing("ab".to_string(), "cd"), "abcd");
    assert_eq!(with_leading("bc".to_string(), 'a'), "abc");
    assert_eq!(if_yes(&DoxBool::Yes, "static "), Some("static ".to_string()));
    assert_eq!(if_yes(&DoxBool::No, "static "), None);
    assert_eq!(collapse_lines("a\nb\n"), "a b ");
    assert_eq!(option_from_str(""), None);
    assert_eq!(option_from_str("x"), Some("x"));
}

#[test]
fn linked_text_decodes_entities_and_joins_with_spaces() {
    let linked = LinkedTextType {
        content: vec![
            LinkedTextTypeItem::Text("const".to_string()),
            LinkedTextTypeItem::Ref(RefTextType { refid: "r".to_string(), content: "Foo&lt;T&gt;".to_string() }),
            LinkedTextTypeItem::Text("&amp;".to_string()),
        ],
    };
    assert_eq!(render_linked_text_type(&linked), "const Foo<T> &");
    assert_eq!(render_ref_text_type(&RefTextType { refid: "r".to_string(), content: "a&quot;b".to_string() }), "a\"b");
}

#[test]
fn function_declaration() {
    let mut m = member(DoxMemberKind::Function);
    m.static_ = DoxBool::Yes;
    m.inline = Some(DoxBool::Yes);
    m.type_ = Some(text("int"));
    m.qualifiedname = Some("ns::name".to_string());
    m.argsstring = Some("(int a)".to_string());
    assert_eq!(render_member_def(&Domain::CPlusPlus, &m), "static inline int ns::name(int a)");
    assert_eq!(render_member_def(&Domain::C, &m), "static inline int name(int a)");
}

#[test]
fn define_declaration() {
    let mut m = member(DoxMemberKind::Define);
    assert_eq!(render_member_def(&Domain::C, &m), "name");
    m.param = vec![
        ParamType { type_: None, declname: None, defname: Some("a".to_string()) },
        ParamType { type_: None, declname: None, defname: None },
        ParamType { type_: None, declname: None, defname: Some("b".to_string()) },
    ];
    assert_eq!(render_member_def(&Domain::C, &m), "name(a, b)");
}

#[test]
fn enum_declaration_of_anonymous_enum() {
    let mut m = member(DoxMemberKind::Enum);
    assert_eq!(render_member_def(&Domain::C, &m), "name");
    m.name = String::new();
    assert_eq!(render_member_def(&Domain::C, &m), "@m1");
}

#[test]
fn typedef_declaration() {
    let mut m = member(DoxMemberKind::Typedef);
    m.type_ = Some(text("void(*"));
    m.argsstring = Some(")(int)".to_string());
    assert_eq!(render_member_def(&Domain::C, &m), "void(* name )(int)");
}

#[test]
fn variable_declaration() {
    let mut m = member(DoxMemberKind::Variable);
    m.type_ = Some(text("outer::T"));
    m.qualifiedname = Some("S::name".to_string());
    m.argsstring = Some("[4]".to_string());
    assert_eq!(render_member_def(&Domain::C, &m), "outer.T S.name");
    assert_eq!(render_member_def(&Domain::CPlusPlus, &m), "outer::T S::name");
    m.argsstring = Some(")(int &amp;)".to_string());
    assert_eq!(render_member_def(&Domain::C, &m), "outer.T S.name )(int &)");
}

#[test]
fn enum_value_declaration() {
    let value = EnumValueType {
        id: "v".to_string(),
        name: "Red".to_string(),
        initializer: Some(text("= 1 +\n2")),
        brief_description: None,
        detailed_description: None,
    };
    assert_eq!(render_enum_value(&Domain::CPlusPlus, "Colour", &value), "Colour::Red = 1 + 2");
    assert_eq!(render_enum_value(&Domain::C, "Colour", &value), "Colour.Red = 1 + 2");
    assert_eq!(render_enum_value(&Domain::C, "", &value), "Red = 1 + 2");
}

#[test]
fn compound_kind_names_are_read_back_as_the_same_kind() {
    let names = [
        "class", "struct", "union", "interface", "protocol", "category", "exception", "service", "singleton",
        "module", "type", "file", "namespace", "group", "page", "example", "dir", "concept",
    ];
    let mut kinds = Vec::new();
    for name in names {
        let xml = format!(r#"<doxygen><compounddef id="c" kind="{name}"></compounddef></doxygen>"#);
        let def = docleaf::doxygen::compound::parse(&xml).unwrap().compound_def.unwrap();
        assert_eq!(render_compound_kind(&def.kind), name);
        assert!(!kinds.contains(&def.kind));
        kinds.push(def.kind);
    }
}
