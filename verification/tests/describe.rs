use docleaf::doxygen::describe::{describe, Attr, Child, Described, NodeDetails};
use docleaf::doxygen::nodes::{
    CallAs, Domain, DomainEntry, DomainEntryType, ListEnumType, Location, Node, Target,
};

#[test]
fn text_is_handed_over_decoded() {
    assert_eq!(describe(Node::Text("a &amp; b &lt;c&gt;".to_string())), Described::Text("a & b <c>".to_string()));
}

#[test]
fn strong_is_a_plain_node() {
    let d = describe(Node::Strong(vec![Node::Text("x".to_string())]));
    assert_eq!(
        d,
        Described::Node(NodeDetails {
            type_: "strong".to_string(),
            call_as: CallAs::Source,
            attributes: vec![],
            children: vec![Child::Node(Node::Text("x".to_string()))],
        })
    );
}

#[test]
fn target_carries_ids_and_names() {
    let d = describe(Node::Target(Target { ids: "id1".to_string(), names: "name1".to_string() }));
    assert_eq!(
        d,
        Described::Node(NodeDetails {
            type_: "target".to_string(),
            call_as: CallAs::Source,
            attributes: vec![
                ("ids".to_string(), Attr::StrList(vec!["id1".to_string()])),
                ("names".to_string(), Attr::StrList(vec!["name1".to_string()])),
            ],
            children: vec![],
        })
    );
}

#[test]
fn reference_attributes_only_when_present() {
    let d = describe(Node::Reference {
        internal: Some(true),
        refid: Some("r".to_string()),
        refuri: None,
        children: vec![],
    });
    assert_eq!(
        d,
        Described::Node(NodeDetails {
            type_: "reference".to_string(),
            call_as: CallAs::SourceText,
            attributes: vec![
                ("internal".to_string(), Attr::Bool(true)),
                ("refid".to_string(), Attr::Str("r".to_string())),
            ],
            children: vec![],
        })
    );
}

#[test]
fn signature_name_and_space_are_texts() {
    let d = describe(Node::DescSignatureName("f".to_string()));
    assert_eq!(
        d,
        Described::Node(NodeDetails {
            type_: "desc_sig_name".to_string(),
            call_as: CallAs::SourceText,
            attributes: vec![],
            children: vec![Child::Text("f".to_string())],
        })
    );
    let s = describe(Node::DescSignatureSpace);
    assert_eq!(
        s,
        Described::Node(NodeDetails {
            type_: "desc_sig_space".to_string(),
            call_as: CallAs::SourceText,
            attributes: vec![],
            children: vec![Child::Text(" ".to_string())],
        })
    );
}

#[test]
fn domain_entry_lists_its_attributes() {
    let d = describe(Node::DomainEntry(Box::new(DomainEntry {
        domain: Domain::CPlusPlus,
        type_: DomainEntryType::Function,
        target: Target { ids: "i".to_string(), names: "n".to_string() },
        location: Some(Location { path: "a.h".to_string(), line: 3 }),
        declaration: "void f()".to_string(),
        content: vec![],
    })));
    assert_eq!(
        d,
        Described::Node(NodeDetails {
            type_: "domain_entry".to_string(),
            call_as: CallAs::Args,
            attributes: vec![
                ("domain".to_string(), Attr::Domain(Domain::CPlusPlus)),
                ("type".to_string(), Attr::EntryType(DomainEntryType::Function)),
                ("declaration".to_string(), Attr::Str("void f()".to_string())),
                ("location".to_string(), Attr::Location(Location { path: "a.h".to_string(), line: 3 })),
                ("target".to_string(), Attr::Target(Target { ids: "i".to_string(), names: "n".to_string() })),
            ],
            children: vec![],
        })
    );
}

#[test]
fn enumerated_list_and_heading_entry() {
    let d = describe(Node::EnumeratedList { type_: Some(ListEnumType::LowerAlpha), items: vec![] });
    match d {
        Described::Node(n) => {
            assert_eq!(n.type_, "enumerated_list");
            assert_eq!(n.attributes, vec![("enumtype".to_string(), Attr::ListEnumType(ListEnumType::LowerAlpha))]);
        }
        _ => panic!("expected a node"),
    }
    let e = describe(Node::TableRowEntry { heading: true, nodes: vec![] });
    match e {
        Described::Node(n) => {
            assert_eq!(n.type_, "entry");
            assert_eq!(n.attributes, vec![("heading".to_string(), Attr::Bool(true))]);
        }
        _ => panic!("expected a node"),
    }
}

#[test]
fn list_enum_type_names() {
    assert_eq!(ListEnumType::UpperRoman.as_str(), "upperroman");
    assert_eq!(DomainEntryType::Enumerator.as_str(), "enumerator");
    assert_eq!(CallAs::SourceText.as_str(), "source-text");
}

#[test]
fn rst_block_text_is_handed_over_decoded() {
    let d = describe(Node::ReStructuredTextBlock("`site &lt;https://a.b&gt;`_".to_string()));
    assert_eq!(
        d,
        Described::Node(NodeDetails {
            type_: "restructured_text_block".to_string(),
            call_as: CallAs::Args,
            attributes: vec![],
            children: vec![Child::Text("`site <https://a.b>`_".to_string())],
        })
    );
}
