use docleaf::doxygen::index::{find_compound, find_member, parse, Compound, Member, Root};
use docleaf::xml::ParseError;

#[test]
fn test_parse() {
    let result = parse(
        r#"<?xml version='1.0' encoding='UTF-8' standalone='no'?>
<doxygenindex xmlns:xsi="http://www.w3.org/2001/XMLSchema-instance" xsi:noNamespaceSchemaLocation="index.xsd" version="1.9.5" xml:lang="en-US">
  <compound refid="class_nutshell" kind="class"><name>Nutshell</name>
    <member refid="class_nutshell_1ae42034231cf912d095d57cbeed6cda79" kind="enum"><name>Tool</name></member>
  </compound>
  <compound refid="nutshell_8h" kind="file"><name>nutshell.h</name>
  </compound>
</doxygenindex>"#,
    );

    assert_eq!(
        result.unwrap(),
        Root {
            compounds: vec![
                Compound {
                    refid: "class_nutshell".to_string(),
                    name: "Nutshell".to_string(),
                    kind: "class".to_string(),
                    members: vec![Member {
                        refid: "class_nutshell_1ae42034231cf912d095d57cbeed6cda79".to_string(),
                        name: "Tool".to_string(),
                        kind: "enum".to_string(),
                    }]
                },
                Compound {
                    refid: "nutshell_8h".to_string(),
                    name: "nutshell.h".to_string(),
                    kind: "file".to_string(),
                    members: vec![]
                }
            ]
        }
    );
}

#[test]
fn index_without_compounds_is_empty() {
    let result = parse("<doxygenindex></doxygenindex>");
    assert_eq!(result.unwrap(), Root { compounds: vec![] });
}

#[test]
fn index_compound_without_kind_is_refused() {
    let result = parse(r#"<doxygenindex><compound refid="a"><name>A</name></compound></doxygenindex>"#);
    assert_eq!(result.unwrap_err(), ParseError::MissingAttribute);
}

#[test]
fn index_unclosed_compound_is_refused() {
    let result = parse(r#"<doxygenindex><compound refid="a" kind="class"><name>A</name>"#);
    assert!(result.is_err());
}

#[test]
fn index_unknown_child_of_compound_is_refused() {
    let result = parse(r#"<doxygenindex><compound refid="a" kind="class"><title>A</title></compound></doxygenindex>"#);
    assert_eq!(result.unwrap_err(), ParseError::UnexpectedTag);
}

fn lookup_index() -> Root {
    let member = |refid: &str, name: &str, kind: &str| Member {
        refid: refid.to_string(),
        name: name.to_string(),
        kind: kind.to_string(),
    };
    Root {
        compounds: vec![
            Compound {
                refid: "ns".to_string(),
                name: "Shapes".to_string(),
                kind: "namespace".to_string(),
                members: vec![member("ns_area", "area", "function"), member("ns_shape", "Shape", "enum")],
            },
            Compound {
                refid: "class_shape".to_string(),
                name: "Shape".to_string(),
                kind: "class".to_string(),
                members: vec![member("shape_area", "area", "function"), member("shape_draw", "draw", "function")],
            },
            Compound {
                refid: "struct_shape".to_string(),
                name: "Shape".to_string(),
                kind: "struct".to_string(),
                members: vec![],
            },
        ],
    }
}

#[test]
fn compounds_are_found_by_name_and_kind() {
    let root = lookup_index();
    assert_eq!(find_compound(&root, "Shape", "struct").map(|c| c.refid.as_str()), Some("struct_shape"));
    assert_eq!(find_compound(&root, "Shape", "class").map(|c| c.refid.as_str()), Some("class_shape"));
    assert_eq!(find_compound(&root, "Shape", "union"), None);
    assert_eq!(find_compound(&root, "Circle", "class"), None);
}

#[test]
fn members_are_found_in_the_first_compound_that_has_them() {
    let root = lookup_index();
    let (c, m) = find_member(&root, "area", "function").unwrap();
    assert_eq!((c.refid.as_str(), m.refid.as_str()), ("ns", "ns_area"));
    let (c, m) = find_member(&root, "draw", "function").unwrap();
    assert_eq!((c.refid.as_str(), m.refid.as_str()), ("class_shape", "shape_draw"));
    assert!(find_member(&root, "fill", "function").is_none());
}

#[test]
fn members_are_found_by_kind_too() {
    let root = lookup_index();
    let (c, m) = find_member(&root, "Shape", "enum").unwrap();
    assert_eq!((c.refid.as_str(), m.refid.as_str()), ("ns", "ns_shape"));
    assert!(find_member(&root, "Shape", "function").is_none());
    assert!(find_member(&root, "area", "enum").is_none());
}

#[test]
fn index_member_without_kind_is_refused() {
    let result = parse(
        r#"<doxygenindex><compound refid="a" kind="class"><name>A</name><member refid="m"><name>f</name></member></compound></doxygenindex>"#,
    );
    assert_eq!(result.unwrap_err(), ParseError::MissingAttribute);
}
