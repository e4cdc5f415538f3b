use docleaf::doxygen::nodes::{Domain, DomainError};
use docleaf::strings::{join_strings, parse_i32, replace_str};
use docleaf::xml::{
    get_attribute_string, get_optional_attribute_string, tokenize, Attribute, ParseError, StartTag, XmlEvent,
};
use docleaf::xsd::{convert_field_name, Type};

#[test]
fn domains_read_back_from_their_names() {
    for d in [Domain::CPlusPlus, Domain::C] {
        assert_eq!(Domain::from(d.as_str().to_string()), Ok(d));
    }
    assert_eq!(Domain::from("rust".to_string()), Err(DomainError::Unrecognised("rust".to_string())));
}

#[test]
fn domain_lookup() {
    let ok = Domain::create_lookup(vec![("h".to_string(), "c".to_string()), ("hpp".to_string(), "cpp".to_string())]);
    assert_eq!(ok, Ok(vec![("h".to_string(), Domain::C), ("hpp".to_string(), Domain::CPlusPlus)]));
    let bad = Domain::create_lookup(vec![("h".to_string(), "c".to_string()), ("x".to_string(), "py".to_string())]);
    assert_eq!(bad, Err(DomainError::Unrecognised("py".to_string())));
}

#[test]
fn integers_parse_as_std_does() {
    for s in ["0", "42", "-7", "+7", "2147483647", "-2147483648", "", "-", "+", "1a", "2147483648", "-2147483649", " 1"] {
        assert_eq!(parse_i32(s), s.parse::<i32>().ok(), "{s}");
    }
}

#[test]
fn replace_and_join() {
    assert_eq!(replace_str("a::b::c", "::", "."), "a.b.c");
    assert_eq!(replace_str("::::", "::", "."), "..");
    assert_eq!(replace_str("ab", "", "-"), "ab".replace("", "-"));
    assert_eq!(replace_str("ab", "", "-"), "-a-b-");
    assert_eq!(replace_str("", "", "x"), "x");
    assert_eq!(join_strings(&vec!["a".to_string(), "b".to_string()], ", "), "a, b");
    assert_eq!(join_strings(&vec![], ", "), "");
}

#[test]
fn field_names_and_types() {
    assert_eq!(convert_field_name("type"), "type_");
    assert_eq!(convert_field_name("final"), "final_");
    assert_eq!(convert_field_name("name"), "name");
    assert_eq!(Type::from_str("xsd:integer"), Type::Integer);
    assert_eq!(Type::from_str("xsd:string"), Type::String);
    assert_eq!(Type::from_str("DoxBool"), Type::Enum("DoxBool".to_string()));
}

#[test]
fn tokenize_events() {
    let events = tokenize(r#"<a x="1"> hi <b/></a>"#, true).unwrap();
    assert_eq!(
        events,
        vec![
            XmlEvent::Start(StartTag {
                name: "a".to_string(),
                attributes: vec![Attribute { key: "x".to_string(), value: "1".to_string() }],
                malformed: false,
            }),
            XmlEvent::Text("hi".to_string()),
            XmlEvent::Empty(StartTag { name: "b".to_string(), attributes: vec![], malformed: false }),
            XmlEvent::End("a".to_string()),
        ]
    );
    assert_eq!(tokenize("<a></b>", true).unwrap_err(), ParseError::Tokenize);
}

#[test]
fn tokenize_without_trimming_keeps_whitespace() {
    let events = tokenize("<a>Call <b/> now\n</a>", false).unwrap();
    assert_eq!(
        events,
        vec![
            XmlEvent::Start(StartTag { name: "a".to_string(), attributes: vec![], malformed: false }),
            XmlEvent::Text("Call ".to_string()),
            XmlEvent::Empty(StartTag { name: "b".to_string(), attributes: vec![], malformed: false }),
            XmlEvent::Text(" now\n".to_string()),
            XmlEvent::End("a".to_string()),
        ]
    );
}

#[test]
fn tokenize_keeps_raw_text_and_reads_all_attributes() {
    let events = tokenize(r#"<a x="1" y='two'>a &amp; b</a>"#, true).unwrap();
    assert_eq!(
        events,
        vec![
            XmlEvent::Start(StartTag {
                name: "a".to_string(),
                attributes: vec![
                    Attribute { key: "x".to_string(), value: "1".to_string() },
                    Attribute { key: "y".to_string(), value: "two".to_string() },
                ],
                malformed: false,
            }),
            XmlEvent::Text("a &amp; b".to_string()),
            XmlEvent::End("a".to_string()),
        ]
    );
}

#[test]
fn tokenize_keeps_the_attributes_before_a_malformed_one() {
    let events = tokenize(r#"<a x="1" y=2 z="3"></a>"#, false).unwrap();
    assert_eq!(
        events[0],
        XmlEvent::Start(StartTag {
            name: "a".to_string(),
            attributes: vec![Attribute { key: "x".to_string(), value: "1".to_string() }],
            malformed: true,
        })
    );
}

#[test]
fn attribute_lookups_fail_only_when_they_reach_a_malformed_attribute() {
    let tag = StartTag {
        name: "a".to_string(),
        attributes: vec![Attribute { key: "x".to_string(), value: "1".to_string() }],
        malformed: true,
    };
    assert_eq!(get_attribute_string("x", &tag), Ok("1".to_string()));
    assert_eq!(get_attribute_string("z", &tag), Err(ParseError::MalformedAttribute));
    assert_eq!(get_optional_attribute_string("z", &tag), Err(ParseError::MalformedAttribute));
    let sound = StartTag { name: "a".to_string(), attributes: vec![], malformed: false };
    assert_eq!(get_attribute_string("z", &sound), Err(ParseError::MissingAttribute));
    assert_eq!(get_optional_attribute_string("z", &sound), Ok(None));
}
