use docleaf::doxygen::compound::elements::{
    CodelineType, CompoundDefType, DescriptionType, DescriptionTypeItem, DocCmdGroup, DocEntryType, DocHtmlOnlyType,
    DocMarkupType, DocMarkupTypeItem, DocParaType, DocParaTypeItem, DocParamListItem, DocParamListType,
    DocParamName, DocParamNameList, DocRowType, DocTableType, DocTitleCmdGroup, DoxBool, DoxCompoundKind,
    DoxLanguage, DoxMemberKind, DoxSectionKind, DoxygenType, HighlightType, HighlightTypeItem, LinkedTextTypeItem,
    ListingType, MemberDefType, RefType, SectionDefType, SpType,
};
use docleaf::doxygen::nodes::{Domain, DomainEntryType, Node, SignatureType, Target};
use docleaf::doxygen::store::{content_refids, needed_refids};
use docleaf::doxygen::render::{
    extract_inner_description, is_all_caps_name, language_to_domain, member_kind_name, parse_skip_setting, parse_skip_settings,
    render_compound, render_section_def,
    render_compounddef_contents, render_description, render_doc_table_type, render_doc_title_cmd_group,
    render_listing_type, render_member,
    render_verbatim_text, section_title, Context, LoadedCompound, RenderError, Skip, SkipError,
};

fn ctx() -> Context {
    Context { domain: None, skip_xml_nodes: vec![], skip_all_caps_members: false }
}

fn para(items: Vec<DocParaTypeItem>) -> DocParaType {
    DocParaType { content: items }
}

fn text(t: &str) -> Node {
    Node::Text(t.to_string())
}

#[test]
fn verbatim_text_renderings() {
    assert_eq!(render_verbatim_text("  plain"), Node::LiteralBlock(vec![text("  plain")]));
    assert_eq!(
        render_verbatim_text(" embed:rst:leading-asterisk\n * one\n * two"),
        Node::ReStructuredTextBlock("   one\n   two".to_string())
    );
    assert_eq!(
        render_verbatim_text("embed:rst:leading-slashes\r\n/// a\n/// b\n"),
        Node::ReStructuredTextBlock("  a\n  b".to_string())
    );
    assert_eq!(render_verbatim_text("embed:rst:inline *x*\n"), Node::ReStructuredTextInline(" *x*".to_string()));
    assert_eq!(render_verbatim_text("embed:rst\nline"), Node::ReStructuredTextBlock("line".to_string()));
    assert_eq!(render_verbatim_text("embed:rst x"), Node::ReStructuredTextBlock(" x".to_string()));
}

#[test]
fn listing_lines_are_separated_by_line_breaks() {
    let line = |t: &str| CodelineType {
        highlight: vec![HighlightType {
            content: vec![HighlightTypeItem::Text(t.to_string()), HighlightTypeItem::Sp(SpType {})],
        }],
    };
    let listing = ListingType { codeline: vec![line("a"), line("b")] };
    assert_eq!(
        render_listing_type(&listing),
        Node::LiteralBlock(vec![text("a"), text(" "), text("\n"), text("b"), text(" ")])
    );
    assert_eq!(render_listing_type(&ListingType { codeline: vec![] }), Node::LiteralBlock(vec![]));
}

#[test]
fn htmlonly_is_skipped_when_asked() {
    let html = DocTitleCmdGroup::Htmlonly(DocHtmlOnlyType { content: "<b/>".to_string() });
    assert_eq!(
        render_doc_title_cmd_group(&ctx(), &html),
        Some(Node::HtmlOnly(vec![Node::RawHtml("<b/>".to_string())]))
    );
    let skipping = Context { domain: None, skip_xml_nodes: vec!["htmlonly".to_string()], skip_all_caps_members: false };
    assert_eq!(render_doc_title_cmd_group(&skipping, &html), None);
}

#[test]
fn markup_renderings() {
    let m = |t: &str| DocMarkupType { content: vec![DocMarkupTypeItem::Text(t.to_string())] };
    assert_eq!(render_doc_title_cmd_group(&ctx(), &DocTitleCmdGroup::Bold(m("b"))), Some(Node::Strong(vec![text("b")])));
    assert_eq!(render_doc_title_cmd_group(&ctx(), &DocTitleCmdGroup::Computeroutput(m("c"))), Some(Node::Literal(vec![text("c")])));
    assert_eq!(render_doc_title_cmd_group(&ctx(), &DocTitleCmdGroup::Strike(m("s"))), Some(Node::UnknownInline(vec![text("s")])));
}

#[test]
fn unhandled_elements_render_as_nothing() {
    let anchor = DocTitleCmdGroup::Unhandled("anchor".to_string());
    assert_eq!(render_doc_title_cmd_group(&ctx(), &anchor), None);
    let description = DescriptionType {
        content: vec![DescriptionTypeItem::Para(para(vec![
            DocParaTypeItem::Text("See".to_string()),
            DocParaTypeItem::DocCmdGroup(DocCmdGroup::DocTitleCmdGroup(DocTitleCmdGroup::Unhandled(
                "heading".to_string(),
            ))),
            DocParaTypeItem::Text("here".to_string()),
        ]))],
    };
    assert_eq!(
        render_description(&ctx(), &description),
        vec![Node::Paragraph(vec![text("See"), text("here")])]
    );
}

#[test]
fn description_lifts_parameter_lists_into_a_field_list() {
    let params = DocParamListType {
        parameter_item: vec![DocParamListItem {
            parameter_name_list: vec![DocParamNameList {
                parameter_type: vec![],
                parameter_name: vec![DocParamName { content: vec![LinkedTextTypeItem::Text("x".to_string())] }],
            }],
            parameter_description: DescriptionType {
                content: vec![DescriptionTypeItem::Para(para(vec![DocParaTypeItem::Text("the x".to_string())]))],
            },
        }],
    };
    let description = DescriptionType {
        content: vec![
            DescriptionTypeItem::Para(para(vec![
                DocParaTypeItem::Text("Intro".to_string()),
                DocParaTypeItem::DocCmdGroup(DocCmdGroup::ParameterList(params)),
            ])),
            DescriptionTypeItem::Text("ignored".to_string()),
        ],
    };
    let list = Node::BulletList(vec![Node::ListItem(vec![Node::Paragraph(vec![
        Node::LiteralStrong(vec![text("x")]),
        text(" - "),
        text("the x"),
    ])])]);
    assert_eq!(
        render_description(&ctx(), &description),
        vec![
            Node::Paragraph(vec![text("Intro")]),
            Node::FieldList(vec![Node::Field(
                Box::new(Node::FieldName(vec![text("Parameters")])),
                Box::new(Node::FieldBody(vec![list])),
            )]),
        ]
    );
}

#[test]
fn inner_description_of_one_paragraph() {
    assert_eq!(extract_inner_description(vec![Node::Paragraph(vec![text("a")])]), vec![text("a")]);
    assert_eq!(extract_inner_description(vec![text("a"), text("b")]), vec![text("a"), text("b")]);
}

#[test]
fn table_rows_are_split_into_head_and_body() {
    let cell = |head: DoxBool, t: &str| DocEntryType {
        thead: head,
        para: vec![para(vec![DocParaTypeItem::Text(t.to_string())])],
    };
    let table = DocTableType {
        rows: 2,
        cols: 2,
        row: vec![
            DocRowType { entry: vec![cell(DoxBool::Yes, "h1"), cell(DoxBool::No, "h2")] },
            DocRowType { entry: vec![cell(DoxBool::No, "b1"), cell(DoxBool::No, "b2")] },
        ],
    };
    let entry = |heading: bool, t: &str| Node::TableRowEntry { heading, nodes: vec![Node::Paragraph(vec![text(t)])] };
    let col = || Node::TableColSpec { colwidth: "auto".to_string() };
    assert_eq!(
        render_doc_table_type(&ctx(), &table),
        Node::Table(vec![Node::TableGroup {
            cols: 2,
            nodes: vec![
                col(),
                col(),
                Node::TableHead(vec![Node::TableRow(vec![entry(true, "h1"), entry(false, "h2")])]),
                Node::TableBody(vec![Node::TableRow(vec![entry(false, "b1"), entry(false, "b2")])]),
            ],
        }])
    );
}

fn member(kind: DoxMemberKind, id: &str, name: &str) -> MemberDefType {
    MemberDefType {
        kind,
        id: id.to_string(),
        static_: DoxBool::No,
        const_: None,
        inline: None,
        type_: None,
        name: name.to_string(),
        qualifiedname: None,
        argsstring: None,
        param: vec![],
        enumvalue: vec![],
        brief_description: None,
        detailed_description: None,
    }
}

fn compound(id: &str, kind: DoxCompoundKind, language: Option<DoxLanguage>) -> CompoundDefType {
    CompoundDefType {
        id: id.to_string(),
        kind,
        language,
        compound_name: id.to_uppercase(),
        brief_description: None,
        detailed_description: None,
        innerclass: vec![],
        innergroup: vec![],
        section_defs: vec![],
    }
}

fn desc_block(line: Vec<Node>, content: Vec<Node>) -> Node {
    Node::Desc(
        vec![Node::DescSignature(SignatureType::MultiLine, vec![Node::DescSignatureLine(line)])],
        Box::new(Node::DescContent(content)),
    )
}

fn target(id: &str) -> Node {
    Node::Target(Target { ids: id.to_string(), names: id.to_string() })
}

#[test]
fn compound_without_domain_is_a_description_block() {
    let mut c = compound("s", DoxCompoundKind::Struct, None);
    c.section_defs = vec![SectionDefType { kind: DoxSectionKind::PublicAttrib, member_defs: vec![member(DoxMemberKind::Variable, "v", "x")] }];
    let root = DoxygenType { compound_def: Some(c) };
    let nodes = render_compound(&ctx(), &root, false, &vec![]).unwrap();
    let var = desc_block(
        vec![
            target("v"),
            Node::DescSignatureKeyword(vec![text("Variable")]),
            Node::DescSignatureSpace,
            Node::DescName(Box::new(Node::DescSignatureName("x".to_string()))),
        ],
        vec![],
    );
    let section = Node::Container(vec![
        Node::Rubric { classes: vec![], nodes: vec![text("Public Attributes")] },
        var,
    ]);
    assert_eq!(
        nodes,
        vec![desc_block(
            vec![
                target("s"),
                Node::DescSignatureKeyword(vec![text("struct")]),
                Node::DescSignatureSpace,
                Node::DescName(Box::new(Node::DescSignatureName("S".to_string()))),
            ],
            vec![section],
        )]
    );
}

#[test]
fn cpp_class_is_a_domain_entry_with_inner_classes() {
    let mut outer = compound("a", DoxCompoundKind::Class, Some(DoxLanguage::CPlusPlus));
    outer.innerclass = vec![RefType { refid: "b".to_string(), content: "B".to_string() }];
    let inner = DoxygenType { compound_def: Some(compound("b", DoxCompoundKind::Struct, Some(DoxLanguage::Python))) };
    let store = vec![LoadedCompound { refid: "b".to_string(), root: &inner }];
    let nodes = render_compound(&ctx(), &DoxygenType { compound_def: Some(outer) }, false, &store).unwrap();
    assert_eq!(nodes.len(), 1);
    match &nodes[0] {
        Node::DomainEntry(entry) => {
            assert_eq!(entry.domain, Domain::CPlusPlus);
            assert_eq!(entry.type_, DomainEntryType::Class);
            assert_eq!(entry.declaration, "A");
            assert_eq!(entry.content.len(), 1);
            assert!(matches!(entry.content[0], Node::Desc(_, _)));
        },
        other => panic!("unexpected node {other:?}"),
    }
}

#[test]
fn missing_inner_compound_is_an_error() {
    let mut outer = compound("a", DoxCompoundKind::Class, None);
    outer.innerclass = vec![RefType { refid: "zz".to_string(), content: "Z".to_string() }];
    let result = render_compound(&ctx(), &DoxygenType { compound_def: Some(outer) }, false, &vec![]);
    assert_eq!(result.unwrap_err(), RenderError::MissingCompound("zz".to_string()));
}

#[test]
fn cyclic_inner_compounds_are_refused() {
    let mut a = compound("a", DoxCompoundKind::Class, None);
    a.innerclass = vec![RefType { refid: "a".to_string(), content: "A".to_string() }];
    let root = DoxygenType { compound_def: Some(a) };
    let store = vec![LoadedCompound { refid: "a".to_string(), root: &root }];
    let result = render_compound(&ctx(), &root, false, &store);
    assert_eq!(result.unwrap_err(), RenderError::TooDeep);
}

#[test]
fn render_member_finds_the_member_by_id() {
    let mut c = compound("f", DoxCompoundKind::File, Some(DoxLanguage::CPlusPlus));
    c.section_defs = vec![SectionDefType {
        kind: DoxSectionKind::Func,
        member_defs: vec![member(DoxMemberKind::Function, "m1", "one"), member(DoxMemberKind::Function, "m2", "two")],
    }];
    let root = DoxygenType { compound_def: Some(c) };
    let nodes = render_member(&ctx(), &root, "m2");
    assert_eq!(nodes.len(), 1);
    match &nodes[0] {
        Node::DomainEntry(entry) => {
            assert_eq!(entry.type_, DomainEntryType::Function);
            assert_eq!(entry.declaration, "two");
        },
        other => panic!("unexpected node {other:?}"),
    }
    assert_eq!(render_member(&ctx(), &root, "m3"), vec![]);
}

#[test]
fn names_and_titles() {
    assert_eq!(section_title(&DoxSectionKind::PublicFunc), "Public Functions");
    assert_eq!(section_title(&DoxSectionKind::Var), "Var");
    assert_eq!(member_kind_name(&DoxMemberKind::Enum), "enum");
    assert_eq!(member_kind_name(&DoxMemberKind::Define), "Define");
    assert_eq!(language_to_domain(&DoxLanguage::CPlusPlus), Some(Domain::CPlusPlus));
    assert_eq!(language_to_domain(&DoxLanguage::Java), None);
}

#[test]
fn skip_settings() {
    assert_eq!(parse_skip_setting("members:all_caps".to_string()), Ok(Skip::MembersAllCaps));
    assert_eq!(parse_skip_setting("xml-nodes:htmlonly".to_string()), Ok(Skip::XmlNode("htmlonly".to_string())));
    assert_eq!(parse_skip_setting("other".to_string()), Err(SkipError::Unrecognised("other".to_string())));
}

fn contains_html_only(nodes: &[Node]) -> bool {
    nodes.iter().any(|n| match n {
        Node::HtmlOnly(_) => true,
        Node::Container(c) | Node::DescContent(c) | Node::Paragraph(c) | Node::DescSignatureLine(c) => contains_html_only(c),
        Node::Desc(c, b) => contains_html_only(c) || contains_html_only(std::slice::from_ref(b.as_ref())),
        Node::DescSignature(_, c) => contains_html_only(c),
        Node::DomainEntry(e) => contains_html_only(&e.content),
        Node::Rubric { nodes, .. } => contains_html_only(nodes),
        _ => false,
    })
}

#[test]
fn skipped_htmlonly_leaves_no_html_in_a_compound() {
    let html = || DocParaTypeItem::DocCmdGroup(DocCmdGroup::DocTitleCmdGroup(DocTitleCmdGroup::Htmlonly(DocHtmlOnlyType {
        content: "<i>x</i>".to_string(),
    })));
    let description = || DescriptionType {
        content: vec![DescriptionTypeItem::Para(para(vec![DocParaTypeItem::Text("a".to_string()), html()]))],
    };
    let mut m = member(DoxMemberKind::Variable, "v", "x");
    m.detailed_description = Some(description());
    let mut c = compound("s", DoxCompoundKind::Struct, None);
    c.brief_description = Some(description());
    c.section_defs = vec![SectionDefType { kind: DoxSectionKind::PublicAttrib, member_defs: vec![m] }];
    let root = DoxygenType { compound_def: Some(c) };
    let kept = render_compound(&ctx(), &root, false, &vec![]).unwrap();
    assert!(contains_html_only(&kept));
    let skipping = Context { domain: None, skip_xml_nodes: vec!["htmlonly".to_string()], skip_all_caps_members: false };
    let skipped = render_compound(&skipping, &root, false, &vec![]).unwrap();
    assert!(!contains_html_only(&skipped));
}

#[test]
fn group_contents_render_inner_compounds_then_sections() {
    let mut g = compound("g", DoxCompoundKind::Group, None);
    g.innerclass = vec![RefType { refid: "b".to_string(), content: "B".to_string() }];
    g.section_defs = vec![SectionDefType { kind: DoxSectionKind::Func, member_defs: vec![] }];
    let inner = DoxygenType { compound_def: Some(compound("b", DoxCompoundKind::Struct, None)) };
    let store = vec![LoadedCompound { refid: "b".to_string(), root: &inner }];
    let nodes = render_compounddef_contents(&ctx(), &g, false, &store).unwrap();
    let inner_nodes = render_compound(&ctx(), &inner, false, &store).unwrap();
    assert_eq!(nodes.len(), 2);
    assert_eq!(nodes[0], inner_nodes[0]);
    assert_eq!(
        nodes[1],
        Node::Container(vec![Node::Rubric { classes: vec![], nodes: vec![text("Func")] }])
    );
    let missing = render_compounddef_contents(&ctx(), &g, false, &vec![]);
    assert_eq!(missing.unwrap_err(), RenderError::MissingCompound("b".to_string()));
}

fn reference(refid: &str) -> RefType {
    RefType { refid: refid.to_string(), content: refid.to_uppercase() }
}

#[test]
fn needed_refids_are_inner_classes_then_groups_when_asked() {
    let mut g = compound("g", DoxCompoundKind::Group, None);
    g.innerclass = vec![reference("a"), reference("b")];
    g.innergroup = vec![reference("h")];
    let root = DoxygenType { compound_def: Some(g) };
    assert_eq!(needed_refids(&root, false), vec!["a".to_string(), "b".to_string()]);
    assert_eq!(needed_refids(&root, true), vec!["a".to_string(), "b".to_string(), "h".to_string()]);
    assert_eq!(content_refids(&root), vec!["a".to_string(), "b".to_string(), "h".to_string()]);
    let empty = DoxygenType { compound_def: None };
    assert!(needed_refids(&empty, true).is_empty());
    assert!(content_refids(&empty).is_empty());
}

#[test]
fn group_contents_render_inner_groups_even_without_inner_groups() {
    let mut g = compound("g", DoxCompoundKind::Group, None);
    g.innergroup = vec![reference("h")];
    let mut h = compound("h", DoxCompoundKind::Group, None);
    h.innergroup = vec![reference("k")];
    let root = DoxygenType { compound_def: Some(g) };
    let inner = DoxygenType { compound_def: Some(h) };
    // The store holds what the contents refer to, and what each of those
    // refers to when inner groups are not rendered.
    assert_eq!(content_refids(&root), vec!["h".to_string()]);
    assert!(needed_refids(&inner, false).is_empty());
    let store = vec![LoadedCompound { refid: "h".to_string(), root: &inner }];
    let nodes = render_compounddef_contents(&ctx(), root.compound_def.as_ref().unwrap(), false, &store).unwrap();
    assert_eq!(nodes.len(), 1);
    assert_eq!(nodes[0], render_compound(&ctx(), &inner, false, &store).unwrap()[0]);
}

#[test]
fn all_caps_members_are_skipped_when_asked() {
    let section = SectionDefType {
        kind: DoxSectionKind::Func,
        member_defs: vec![
            member(DoxMemberKind::Function, "m1", "MY_MACRO"),
            member(DoxMemberKind::Function, "m2", "run"),
            member(DoxMemberKind::Variable, "m3", "LIMIT_"),
            member(DoxMemberKind::Enum, "m4", "COLOUR"),
            member(DoxMemberKind::Variable, "m5", "MAX2"),
        ],
    };
    let keeping = render_section_def(&ctx(), &section);
    let skipping_ctx = Context { domain: None, skip_xml_nodes: vec![], skip_all_caps_members: true };
    let skipping = render_section_def(&skipping_ctx, &section);
    let member_count = |n: &Node| match n {
        Node::Container(c) => c.len() - 1,
        _ => panic!("expected a container"),
    };
    assert_eq!(member_count(&keeping), 5);
    assert_eq!(member_count(&skipping), 3);
    match skipping {
        Node::Container(c) => {
            let names: Vec<String> = c[1..]
                .iter()
                .map(|n| match n {
                    Node::Desc(lines, _) => format!("{lines:?}"),
                    _ => String::new(),
                })
                .collect();
            assert!(names[0].contains("\"run\""));
            assert!(names[1].contains("\"COLOUR\""));
            assert!(names[2].contains("\"MAX2\""));
        }
        _ => panic!("expected a container"),
    }
}

#[test]
fn context_from_skip_settings() {
    let c = Context::from_skip_settings(&vec![Skip::XmlNode("htmlonly".to_string()), Skip::MembersAllCaps]);
    assert_eq!(c.domain, None);
    assert_eq!(c.skip_xml_nodes, vec!["htmlonly".to_string()]);
    assert!(c.skip_all_caps_members);
    let plain = Context::from_skip_settings(&vec![]);
    assert!(!plain.skip_all_caps_members);
    assert!(plain.skip_xml_nodes.is_empty());
}

#[test]
fn all_caps_names() {
    assert!(is_all_caps_name("MY_MACRO"));
    assert!(is_all_caps_name("_"));
    assert!(!is_all_caps_name(""));
    assert!(!is_all_caps_name("MAX2"));
    assert!(!is_all_caps_name("Max"));
}

#[test]
fn skip_settings_are_read_in_order_up_to_the_first_unrecognised_one() {
    let values = vec!["xml-nodes:htmlonly".to_string(), "members:all_caps".to_string()];
    assert_eq!(
        parse_skip_settings(&values),
        Ok(vec![Skip::XmlNode("htmlonly".to_string()), Skip::MembersAllCaps])
    );
    let bad = vec!["members:all_caps".to_string(), "colours".to_string(), "shapes".to_string()];
    assert_eq!(parse_skip_settings(&bad), Err(SkipError::Unrecognised("colours".to_string())));
    assert_eq!(parse_skip_settings(&vec![]), Ok(vec![]));
}
