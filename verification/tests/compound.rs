use docleaf::doxygen::compound::elements::{
    CompoundDefType, DescriptionType, DescriptionTypeItem, DocCmdGroup, DocMarkupType, DocMarkupTypeItem,
    DocParaType, DocParaTypeItem, DocParamListItem, DocParamListType, DocParamName, DocParamNameList,
    DocRefTextType, DocRefTextTypeItem, DocSimpleSectType, DocTitleCmdGroup, DocEmptyType, DoxBool,
    DoxCompoundKind, DoxLanguage, DoxMemberKind, DoxSectionKind, DoxSimpleSectKind, DoxygenType, LinkedTextType,
    LinkedTextTypeItem, MemberDefType, ParamType, RefTextType, RefType, SectionDefType, EnumValueType,
};
use docleaf::doxygen::compound::{extract_compounddef_contents, parse, CompoundDefEntry};
use docleaf::xml::ParseError;

fn basic(compound_xml: &str) -> String {
    format!(
        r#"
            <?xml version='1.0' encoding='UTF-8' standalone='no'?>
            <doxygen xmlns:xsi="http://www.w3.org/2001/XMLSchema-instance" xsi:noNamespaceSchemaLocation="compound.xsd" version="1.9.5" xml:lang="en-US">
              {compound_xml}
            </doxygen>
            "#
    )
}

fn nutshell() -> DoxygenType {
    DoxygenType {
        compound_def: Some(CompoundDefType {
            id: "class_nutshell".to_string(),
            kind: DoxCompoundKind::Class,
            language: Some(DoxLanguage::CPlusPlus),
            compound_name: "Nutshell".to_string(),
            brief_description: None,
            detailed_description: None,
            innerclass: vec![],
            innergroup: vec![],
            section_defs: vec![],
        }),
    }
}

#[test]
fn compound_test_parse_basic() {
    let result = parse(
        r#"
            <?xml version='1.0' encoding='UTF-8' standalone='no'?>
            <doxygen xmlns:xsi="http://www.w3.org/2001/XMLSchema-instance" xsi:noNamespaceSchemaLocation="compound.xsd" version="1.9.5" xml:lang="en-US">
              <compounddef id="class_nutshell" kind="class" language="C++" prot="public">
                <compoundname>Nutshell</compoundname>
              </compounddef>
            </doxygen>
            "#,
    );

    assert_eq!(result.unwrap(), nutshell());
}

#[test]
fn mod_test_parse_basic() {
    let result = parse(
        r#"
            <?xml version='1.0' encoding='UTF-8' standalone='no'?>
            <doxygen xmlns:xsi="http://www.w3.org/2001/XMLSchema-instance" xsi:noNamespaceSchemaLocation="compound.xsd" version="1.9.5" xml:lang="en-US">
              <compounddef id="class_nutshell" kind="class" language="C++" prot="public">
                <compoundname>Nutshell</compoundname>
              </compounddef>
            </doxygen>
            "#,
    );

    assert_eq!(result.unwrap(), nutshell());
}

#[test]
fn parse_member_with_descriptions_and_params() {
    let xml = basic(
        r#"<compounddef id="group__a" kind="group">
             <compoundname>a</compoundname>
             <innerclass refid="struct_s" prot="public">S</innerclass>
             <sectiondef kind="func">
               <memberdef kind="function" id="f1" prot="public" static="no" const="no" inline="yes">
                 <type>int</type>
                 <name>f</name>
                 <qualifiedname>ns::f</qualifiedname>
                 <argsstring>(int x)</argsstring>
                 <param><type><ref refid="t1" kindref="compound">T</ref> *</type><declname>x</declname></param>
                 <briefdescription><para>Does <bold>f</bold></para></briefdescription>
                 <detaileddescription><para><parameterlist kind="param">
                       <parameteritem>
                         <parameternamelist><parametername>x</parametername></parameternamelist>
                         <parameterdescription><para>the x</para></parameterdescription>
                       </parameteritem>
                     </parameterlist> <simplesect kind="return"><para>a value</para></simplesect></para></detaileddescription>
               </memberdef>
             </sectiondef>
           </compounddef>"#,
    );
    let root = parse(&xml).unwrap();
    let param_list = DocParamListType {
        parameter_item: vec![DocParamListItem {
            parameter_name_list: vec![DocParamNameList {
                parameter_type: vec![],
                parameter_name: vec![DocParamName { content: vec![LinkedTextTypeItem::Text("x".to_string())] }],
            }],
            parameter_description: DescriptionType {
                content: vec![DescriptionTypeItem::Para(DocParaType {
                    content: vec![DocParaTypeItem::Text("the x".to_string())],
                })],
            },
        }],
    };
    let expected = DoxygenType {
        compound_def: Some(CompoundDefType {
            id: "group__a".to_string(),
            kind: DoxCompoundKind::Group,
            language: None,
            compound_name: "a".to_string(),
            brief_description: None,
            detailed_description: None,
            innerclass: vec![RefType { refid: "struct_s".to_string(), content: "S".to_string() }],
            innergroup: vec![],
            section_defs: vec![SectionDefType {
                kind: DoxSectionKind::Func,
                member_defs: vec![MemberDefType {
                    kind: DoxMemberKind::Function,
                    id: "f1".to_string(),
                    static_: DoxBool::No,
                    const_: Some(DoxBool::No),
                    inline: Some(DoxBool::Yes),
                    type_: Some(LinkedTextType { content: vec![LinkedTextTypeItem::Text("int".to_string())] }),
                    name: "f".to_string(),
                    qualifiedname: Some("ns::f".to_string()),
                    argsstring: Some("(int x)".to_string()),
                    param: vec![ParamType {
                        type_: Some(LinkedTextType {
                            content: vec![
                                LinkedTextTypeItem::Ref(RefTextType { refid: "t1".to_string(), content: "T".to_string() }),
                                LinkedTextTypeItem::Text(" *".to_string()),
                            ],
                        }),
                        declname: Some("x".to_string()),
                        defname: None,
                    }],
                    enumvalue: vec![],
                    brief_description: Some(DescriptionType {
                        content: vec![DescriptionTypeItem::Para(DocParaType {
                            content: vec![
                                DocParaTypeItem::Text("Does ".to_string()),
                                DocParaTypeItem::DocCmdGroup(DocCmdGroup::DocTitleCmdGroup(DocTitleCmdGroup::Bold(
                                    DocMarkupType { content: vec![DocMarkupTypeItem::Text("f".to_string())] },
                                ))),
                            ],
                        })],
                    }),
                    detailed_description: Some(DescriptionType {
                        content: vec![DescriptionTypeItem::Para(DocParaType {
                            content: vec![
                                DocParaTypeItem::DocCmdGroup(DocCmdGroup::ParameterList(param_list)),
                                DocParaTypeItem::Text(" ".to_string()),
                                DocParaTypeItem::DocCmdGroup(DocCmdGroup::Simplesect(DocSimpleSectType {
                                    kind: DoxSimpleSectKind::Return,
                                    para: vec![DocParaType {
                                        content: vec![DocParaTypeItem::Text("a value".to_string())],
                                    }],
                                })),
                            ],
                        })],
                    }),
                }],
            }],
        }),
    };
    assert_eq!(root, expected);
}

#[test]
fn parse_enum_values_and_references() {
    let xml = basic(
        r#"<compounddef id="c" kind="file">
             <compoundname>c.h</compoundname>
             <sectiondef kind="enum">
               <memberdef kind="enum" id="e1" static="no">
                 <name>Colour</name>
                 <enumvalue id="e1_red"><name>Red</name><initializer>= 1</initializer></enumvalue>
                 <enumvalue id="e1_green"><name>Green</name></enumvalue>
               </memberdef>
             </sectiondef>
             <detaileddescription><para>See <ref refid="x" kindref="member">other</ref><linebreak/>done</para></detaileddescription>
           </compounddef>"#,
    );
    let root = parse(&xml).unwrap();
    let c = root.compound_def.unwrap();
    let member = &c.section_defs[0].member_defs[0];
    assert_eq!(member.enumvalue.len(), 2);
    assert_eq!(
        member.enumvalue[0],
        EnumValueType {
            id: "e1_red".to_string(),
            name: "Red".to_string(),
            initializer: Some(LinkedTextType { content: vec![LinkedTextTypeItem::Text("= 1".to_string())] }),
            brief_description: None,
            detailed_description: None,
        }
    );
    assert_eq!(
        c.detailed_description.unwrap(),
        DescriptionType {
            content: vec![DescriptionTypeItem::Para(DocParaType {
                content: vec![
                    DocParaTypeItem::Text("See ".to_string()),
                    DocParaTypeItem::DocCmdGroup(DocCmdGroup::DocTitleCmdGroup(DocTitleCmdGroup::Ref(DocRefTextType {
                        refid: "x".to_string(),
                        content: vec![DocRefTextTypeItem::Text("other".to_string())],
                    }))),
                    DocParaTypeItem::DocCmdGroup(DocCmdGroup::DocTitleCmdGroup(DocTitleCmdGroup::Linebreak(
                        DocEmptyType {},
                    ))),
                    DocParaTypeItem::Text("done".to_string()),
                ],
            })],
        }
    );
}

#[test]
fn parse_without_compounddef_is_missing_element() {
    let result = parse(&basic(""));
    assert_eq!(result.unwrap_err(), ParseError::MissingElement);
}

#[test]
fn parse_empty_section_is_refused() {
    let xml = basic(r#"<compounddef id="c" kind="file"><sectiondef kind="func"></sectiondef></compounddef>"#);
    assert_eq!(parse(&xml).unwrap_err(), ParseError::EmptyList);
}

#[test]
fn parse_section_header_and_description_are_passed_over() {
    let xml = basic(
        r#"<compounddef id="c" kind="file"><sectiondef kind="user-defined">
             <header>Helpers</header>
             <description><para>Some <memberdef kind="function" id="no"><name>no</name></memberdef></para></description>
             <memberdef kind="function" id="f" static="no"><name>f</name></memberdef>
           </sectiondef></compounddef>"#,
    );
    let root = parse(&xml).unwrap();
    let section = &root.compound_def.unwrap().section_defs[0];
    assert_eq!(section.kind, DoxSectionKind::UserDefined);
    assert_eq!(section.member_defs.len(), 1);
    assert_eq!(section.member_defs[0].id, "f");
}

#[test]
fn parse_section_with_only_a_header_is_refused() {
    let xml = basic(r#"<compounddef id="c" kind="file"><sectiondef kind="func"><header>x</header></sectiondef></compounddef>"#);
    assert_eq!(parse(&xml).unwrap_err(), ParseError::EmptyList);
}

#[test]
fn parse_other_compound_children_are_passed_over_whole() {
    let xml = basic(
        r#"<compounddef id="c" kind="class">
             <compoundname>C</compoundname>
             <templateparamlist><param><type>typename T</type><briefdescription><para>the T</para></briefdescription></param></templateparamlist>
             <listofallmembers><member refid="m"><scope>C</scope><name>m</name></member></listofallmembers>
             <location file="c.h" line="1"/>
           </compounddef>"#,
    );
    let def = parse(&xml).unwrap().compound_def.unwrap();
    assert_eq!(def.compound_name, "C");
    assert_eq!(def.brief_description, None);
}

#[test]
fn parse_template_parameters_are_not_function_parameters() {
    let xml = basic(
        r#"<compounddef id="c" kind="file"><sectiondef kind="func">
             <memberdef kind="function" id="f" static="no">
               <templateparamlist><param><type>typename T</type></param></templateparamlist>
               <type>T</type>
               <name>f</name>
               <param><type>int</type><declname>x</declname></param>
             </memberdef>
           </sectiondef></compounddef>"#,
    );
    let def = parse(&xml).unwrap().compound_def.unwrap();
    let member = &def.section_defs[0].member_defs[0];
    assert_eq!(member.param.len(), 1);
    assert_eq!(member.param[0].declname, Some("x".to_string()));
}

#[test]
fn parse_compound_without_id_is_refused() {
    let xml = basic(r#"<compounddef kind="file"></compounddef>"#);
    assert_eq!(parse(&xml).unwrap_err(), ParseError::MissingAttribute);
}

#[test]
fn parse_unknown_compound_kind_is_refused() {
    let xml = basic(r#"<compounddef id="c" kind="widget"></compounddef>"#);
    assert_eq!(parse(&xml).unwrap_err(), ParseError::InvalidValue);
}

#[test]
fn parse_unclosed_compound_is_unexpected_eof() {
    let xml = r#"<doxygen><compounddef id="c" kind="file"><compoundname>c</compoundname>"#;
    assert_eq!(parse(xml).unwrap_err(), ParseError::UnexpectedEof);
}

#[test]
fn parse_parameter_item_without_description_is_refused() {
    let xml = basic(
        r#"<compounddef id="c" kind="file"><briefdescription><para><parameterlist kind="param">
             <parameteritem><parameternamelist><parametername>x</parametername></parameternamelist></parameteritem>
           </parameterlist></para></briefdescription></compounddef>"#,
    );
    assert_eq!(parse(&xml).unwrap_err(), ParseError::MissingElement);
}

#[test]
fn parse_empty_list_is_refused() {
    let xml = basic(r#"<compounddef id="c" kind="file"><briefdescription><para><itemizedlist></itemizedlist></para></briefdescription></compounddef>"#);
    assert_eq!(parse(&xml).unwrap_err(), ParseError::EmptyList);
}

#[test]
fn parse_table_with_bad_rows_is_refused() {
    let xml = basic(r#"<compounddef id="c" kind="file"><briefdescription><para><table rows="x" cols="1"></table></para></briefdescription></compounddef>"#);
    assert_eq!(parse(&xml).unwrap_err(), ParseError::InvalidValue);
}

fn brief(para_xml: &str) -> Option<DescriptionType> {
    let xml = basic(&format!(
        r#"<compounddef id="c" kind="file"><briefdescription>{para_xml}</briefdescription></compounddef>"#
    ));
    parse(&xml).unwrap().compound_def.unwrap().brief_description
}

fn unhandled(name: &str) -> DocParaTypeItem {
    DocParaTypeItem::DocCmdGroup(DocCmdGroup::DocTitleCmdGroup(DocTitleCmdGroup::Unhandled(name.to_string())))
}

fn one_para(items: Vec<DocParaTypeItem>) -> Option<DescriptionType> {
    Some(DescriptionType { content: vec![DescriptionTypeItem::Para(DocParaType { content: items })] })
}

fn brief_error(para_xml: &str) -> ParseError {
    let xml = basic(&format!(
        r#"<compounddef id="c" kind="file"><briefdescription>{para_xml}</briefdescription></compounddef>"#
    ));
    parse(&xml).unwrap_err()
}

#[test]
fn parse_element_the_schema_lacks_is_refused() {
    assert_eq!(brief_error("<para><blink>x</blink></para>"), ParseError::UnexpectedTag);
    assert_eq!(brief_error("<para><blink/></para>"), ParseError::UnexpectedTag);
    assert_eq!(brief_error(r#"<para><ref refid="r">a<itemizedlist/></ref></para>"#), ParseError::UnexpectedTag);
}

#[test]
fn parse_block_elements_of_the_schema_are_unhandled() {
    assert_eq!(
        brief("<para><variablelist><varlistentry><term>t</term></varlistentry></variablelist><blockquote><para>q</para></blockquote></para>"),
        one_para(vec![unhandled("variablelist"), unhandled("blockquote")])
    );
}

#[test]
fn parse_anchor_and_heading_are_unhandled() {
    assert_eq!(
        brief(r#"<para>See <anchor id="a1"/>here<heading level="2">Title <bold>b</bold></heading></para>"#),
        one_para(vec![
            DocParaTypeItem::Text("See ".to_string()),
            unhandled("anchor"),
            DocParaTypeItem::Text("here".to_string()),
            unhandled("heading"),
        ])
    );
}

#[test]
fn parse_special_characters_are_unhandled_but_known_ones_kept() {
    assert_eq!(
        brief("<para><copy/><ndash/><hruler/></para>"),
        one_para(vec![
            unhandled("copy"),
            DocParaTypeItem::DocCmdGroup(DocCmdGroup::DocTitleCmdGroup(DocTitleCmdGroup::Ndash(DocEmptyType {}))),
            unhandled("hruler"),
        ])
    );
}

#[test]
fn parse_keeps_the_spaces_around_inline_elements() {
    assert_eq!(
        brief(r#"<para>Call <ref refid="f" kindref="member">f</ref> now</para>"#),
        one_para(vec![
            DocParaTypeItem::Text("Call ".to_string()),
            DocParaTypeItem::DocCmdGroup(DocCmdGroup::DocTitleCmdGroup(DocTitleCmdGroup::Ref(DocRefTextType {
                refid: "f".to_string(),
                content: vec![DocRefTextTypeItem::Text("f".to_string())],
            }))),
            DocParaTypeItem::Text(" now".to_string()),
        ])
    );
}

#[test]
fn parse_simple_section_title_is_passed_over() {
    assert_eq!(
        brief(r#"<para><simplesect kind="par"><title>Note</title><para>n</para></simplesect></para>"#),
        one_para(vec![DocParaTypeItem::DocCmdGroup(DocCmdGroup::Simplesect(DocSimpleSectType {
            kind: DoxSimpleSectKind::Par,
            para: vec![DocParaType { content: vec![DocParaTypeItem::Text("n".to_string())] }],
        }))])
    );
}

#[test]
fn parse_empty_elements_are_read_as_empty_content() {
    assert_eq!(
        brief(r#"<para><bold/><ref refid="r"/><verbatim/></para>"#),
        one_para(vec![
            DocParaTypeItem::DocCmdGroup(DocCmdGroup::DocTitleCmdGroup(DocTitleCmdGroup::Bold(DocMarkupType {
                content: vec![],
            }))),
            DocParaTypeItem::DocCmdGroup(DocCmdGroup::DocTitleCmdGroup(DocTitleCmdGroup::Ref(DocRefTextType {
                refid: "r".to_string(),
                content: vec![],
            }))),
            DocParaTypeItem::DocCmdGroup(DocCmdGroup::Verbatim(String::new())),
        ])
    );
    assert_eq!(brief_error("<para><ref/></para>"), ParseError::MissingAttribute);
}

#[test]
fn parse_comments_in_a_paragraph_are_refused() {
    assert_eq!(brief_error("<para>a<!-- note -->b</para>"), ParseError::UnexpectedEvent);
}

#[test]
fn parse_malformed_attribute_fails_only_the_lookup_that_reaches_it() {
    let late = basic(r#"<compounddef id="c" kind="file"><compoundname lang=x>c</compoundname></compounddef>"#);
    assert_eq!(parse(&late).unwrap().compound_def.unwrap().compound_name, "c");
    let early = basic(r#"<compounddef id="c" language=C kind="file"></compounddef>"#);
    assert_eq!(parse(&early).unwrap_err(), ParseError::MalformedAttribute);
}

#[test]
fn parse_sections_in_a_description_are_passed_over() {
    assert_eq!(
        brief(r#"<para>a</para><sect1 id="s"><title>T</title><para>inner</para></sect1>"#),
        one_para(vec![DocParaTypeItem::Text("a".to_string())])
    );
}

#[test]
fn parse_malformed_xml_is_tokenize_error() {
    let xml = r#"<doxygen><compounddef id="c" kind="file"></wrong></doxygen>"#;
    assert_eq!(parse(xml).unwrap_err(), ParseError::Tokenize);
}

#[test]
fn contents_are_classes_then_groups_then_sections() {
    let section = SectionDefType { kind: DoxSectionKind::Func, member_defs: vec![] };
    let def = CompoundDefType {
        id: "g".to_string(),
        kind: DoxCompoundKind::Group,
        language: None,
        compound_name: "g".to_string(),
        brief_description: None,
        detailed_description: None,
        innerclass: vec![RefType { refid: "c1".to_string(), content: "C1".to_string() }],
        innergroup: vec![RefType { refid: "g1".to_string(), content: "G1".to_string() }],
        section_defs: vec![section],
    };
    let entries = extract_compounddef_contents(&def, true);
    assert_eq!(entries.len(), 3);
    assert!(matches!(entries[0], CompoundDefEntry::Class(r) if r.refid == "c1"));
    assert!(matches!(entries[1], CompoundDefEntry::Group(r) if r.refid == "g1"));
    assert!(matches!(entries[2], CompoundDefEntry::SectionDef(s) if s.kind == DoxSectionKind::Func));
}
