use docleaf::xsd::plan::{
    convert_enum_name, get_wrapper, plan, AttributeField, ChoiceEntry, ElementField, GenContext, Item,
    MixedPart, SchemaError, TypeRef, Wrapper,
};
use docleaf::xsd::Type;

const SCHEMA: &str = r#"<?xml version='1.0' encoding='utf-8' ?>
<xsd:schema xmlns:xsd="http://www.w3.org/2001/XMLSchema">
  <xsd:complexType name="compoundType">
    <xsd:sequence>
      <xsd:element name="name" type="xsd:string"/>
      <xsd:element name="member" type="memberType" minOccurs="0" maxOccurs="unbounded"/>
      <xsd:element name="brief" minOccurs="0"/>
      <xsd:element name="item" type="xsd:integer" maxOccurs="unbounded"/>
    </xsd:sequence>
    <xsd:attribute name="refid" type="xsd:string"/>
    <xsd:attribute name="kind" type="DoxBool" use="optional"/>
  </xsd:complexType>
  <xsd:complexType name="docEmptyType"/>
  <xsd:complexType name="titleType" mixed="true">
    <xsd:group ref="docTitleCmdGroup" minOccurs="0" maxOccurs="unbounded"/>
  </xsd:complexType>
  <xsd:complexType name="refTextType">
    <xsd:simpleContent>
      <xsd:extension base="xsd:string">
        <xsd:attribute name="refid" type="xsd:string"/>
      </xsd:extension>
    </xsd:simpleContent>
  </xsd:complexType>
  <xsd:simpleType name="DoxLanguage">
    <xsd:restriction base="xsd:string">
      <xsd:enumeration value="c#"/>
      <xsd:enumeration value="c++"/>
      <xsd:enumeration value="1"/>
    </xsd:restriction>
  </xsd:simpleType>
  <xsd:simpleType name="DoxVersionNumber">
    <xsd:restriction base="xsd:string"/>
  </xsd:simpleType>
  <xsd:group name="docTitleCmdGroup">
    <xsd:choice>
      <xsd:element name="ulink" type="docUrlType"/>
      <xsd:element name="bold" type="docMarkupType"/>
      <xsd:element name="Bold" type="docMarkupType"/>
      <xsd:element name="linebreak" type="docEmptyType"/>
      <xsd:group ref="docOtherGroup"/>
    </xsd:choice>
  </xsd:group>
</xsd:schema>"#;

fn context() -> GenContext {
    GenContext {
        skip_types: vec!["docEmptyType".to_string()],
        enum_variant_renames: vec![(
            "DoxLanguage".to_string(),
            vec![("1".to_string(), "Numeric".to_string())],
        )],
    }
}

fn s(x: &str) -> String {
    x.to_string()
}

fn type_ref(t: Type, id: &str) -> TypeRef {
    TypeRef { type_: t, id: s(id) }
}

#[test]
fn schema_plans_each_kind_of_type() {
    let items = plan(SCHEMA, &context()).unwrap();
    assert_eq!(
        items,
        vec![
            Item::Struct {
                name: s("CompoundType"),
                attributes: vec![
                    AttributeField { name: s("refid"), safe_name: s("refid"), type_: Type::String, optional: false },
                    AttributeField { name: s("kind"), safe_name: s("kind"), type_: Type::Enum(s("DoxBool")), optional: true },
                ],
                elements: vec![
                    ElementField { name: s("name"), safe_name: s("name"), type_: type_ref(Type::String, "String"), wrapper: None },
                    ElementField {
                        name: s("member"),
                        safe_name: s("member"),
                        type_: type_ref(Type::Enum(s("memberType")), "MemberType"),
                        wrapper: Some(Wrapper::Vec),
                    },
                    ElementField {
                        name: s("brief"),
                        safe_name: s("brief"),
                        type_: type_ref(Type::String, "String"),
                        wrapper: Some(Wrapper::Option),
                    },
                    ElementField {
                        name: s("item"),
                        safe_name: s("item"),
                        type_: type_ref(Type::Integer, "i32"),
                        wrapper: Some(Wrapper::Vec1),
                    },
                ],
            },
            Item::Mixed {
                name: s("TitleType"),
                item_name: s("TitleTypeItem"),
                attributes: vec![],
                parts: vec![MixedPart::Group { type_id: s("DocTitleCmdGroup") }],
                group: Some(s("DocTitleCmdGroup")),
            },
            Item::SimpleContent {
                name: s("RefTextType"),
                attributes: vec![AttributeField { name: s("refid"), safe_name: s("refid"), type_: Type::String, optional: false }],
            },
            Item::Enumeration {
                name: s("DoxLanguage"),
                variants: vec![(s("c#"), s("CSharp")), (s("c++"), s("CPlusPlus")), (s("1"), s("Numeric"))],
            },
            Item::Alias { name: s("DoxVersionNumber") },
            Item::Choice {
                name: s("DocTitleCmdGroup"),
                entries: vec![
                    ChoiceEntry::Element {
                        tag: s("ulink"),
                        variant: s("Ulink"),
                        type_: Some(type_ref(Type::Enum(s("docUrlType")), "DocUrlType")),
                    },
                    ChoiceEntry::Element {
                        tag: s("bold"),
                        variant: s("Bold"),
                        type_: Some(type_ref(Type::Enum(s("docMarkupType")), "DocMarkupType")),
                    },
                    ChoiceEntry::Element { tag: s("linebreak"), variant: s("Linebreak"), type_: None },
                    ChoiceEntry::Group { type_id: s("DocOtherGroup") },
                ],
            },
        ]
    );
}

#[test]
fn mixed_content_lists_sequence_entries_then_text() {
    let xsd = r#"<xsd:schema xmlns:xsd="http://www.w3.org/2001/XMLSchema">
      <xsd:complexType name="docParaType" mixed="true">
        <xsd:sequence>
          <xsd:element name="ref" type="refType"/>
          <xsd:element name="count" type="xsd:integer"/>
        </xsd:sequence>
        <xsd:attribute name="id" type="xsd:string"/>
      </xsd:complexType>
      <xsd:complexType name="enumvalueType" mixed="true">
        <xsd:attribute name="id" type="xsd:string"/>
      </xsd:complexType>
    </xsd:schema>"#;
    let items = plan(xsd, &GenContext { skip_types: vec![], enum_variant_renames: vec![] }).unwrap();
    assert_eq!(
        items,
        vec![
            Item::Mixed {
                name: s("DocParaType"),
                item_name: s("DocParaTypeItem"),
                attributes: vec![AttributeField { name: s("id"), safe_name: s("id"), type_: Type::String, optional: false }],
                parts: vec![
                    MixedPart::Element { tag: s("ref"), variant: s("Ref"), type_: type_ref(Type::Enum(s("refType")), "RefType") },
                    MixedPart::Element { tag: s("count"), variant: s("Count"), type_: type_ref(Type::Integer, "i32") },
                    MixedPart::Text,
                ],
                group: None,
            },
            Item::Struct {
                name: s("EnumvalueType"),
                attributes: vec![AttributeField { name: s("id"), safe_name: s("id"), type_: Type::String, optional: false }],
                elements: vec![],
            },
        ]
    );
}

fn no_context() -> GenContext {
    GenContext { skip_types: vec![], enum_variant_renames: vec![] }
}

#[test]
fn text_that_is_no_document_is_malformed() {
    assert_eq!(plan("<xsd:schema", &no_context()), Err(SchemaError::Malformed));
}

#[test]
fn complex_type_without_name_is_refused() {
    let xsd = r#"<schema><complexType><sequence/></complexType></schema>"#;
    assert_eq!(plan(xsd, &no_context()), Err(SchemaError::MissingAttribute(s("name"))));
}

#[test]
fn unknown_occurrence_bounds_are_refused() {
    let xsd = r#"<schema><complexType name="a"><sequence><element name="b" minOccurs="2"/></sequence></complexType></schema>"#;
    assert_eq!(plan(xsd, &no_context()), Err(SchemaError::NoWrapper(Some(s("2")), None)));
}

#[test]
fn simple_content_must_extend_strings() {
    let xsd = r#"<schema><complexType name="a"><simpleContent><extension base="xsd:integer"/></simpleContent></complexType></schema>"#;
    assert_eq!(plan(xsd, &no_context()), Err(SchemaError::UnsupportedContent));
}

#[test]
fn group_reference_without_ref_is_refused() {
    let xsd = r#"<schema><group name="g"><choice><group/></choice></group></schema>"#;
    assert_eq!(plan(xsd, &no_context()), Err(SchemaError::MissingAttribute(s("ref"))));
}

#[test]
fn restriction_with_a_valueless_enumeration_is_left_out() {
    let xsd = r#"<schema><simpleType name="E"><restriction><enumeration/></restriction></simpleType></schema>"#;
    assert_eq!(plan(xsd, &no_context()), Ok(vec![]));
}

#[test]
fn wrappers_follow_occurrence_bounds() {
    assert_eq!(get_wrapper(Some("0"), None), Ok(Some(Wrapper::Option)));
    assert_eq!(get_wrapper(Some("0"), Some("1")), Ok(Some(Wrapper::Option)));
    assert_eq!(get_wrapper(Some("0"), Some("unbounded")), Ok(Some(Wrapper::Vec)));
    assert_eq!(get_wrapper(None, Some("unbounded")), Ok(Some(Wrapper::Vec1)));
    assert_eq!(get_wrapper(Some("1"), Some("unbounded")), Ok(Some(Wrapper::Vec1)));
    assert_eq!(get_wrapper(None, None), Ok(None));
    assert_eq!(get_wrapper(Some("1"), Some("1")), Ok(None));
    assert_eq!(get_wrapper(Some("0"), Some("2")), Err(SchemaError::NoWrapper(Some(s("0")), Some(s("2")))));
}

#[test]
fn enum_names_are_renamed_or_camel_cased() {
    let renames = vec![(s("a"), s("LowerA"))];
    assert_eq!(convert_enum_name("a", Some(&renames)), "LowerA");
    assert_eq!(convert_enum_name("b", Some(&renames)), "B");
    assert_eq!(convert_enum_name("c#", None), "CSharp");
    assert_eq!(convert_enum_name("public-inheritance", None), "PublicInheritance");
}
