//! A plain model of the XML event stream that the Doxygen readers consume,
//! the tokenizer that fills it from `quick_xml`, and helpers over it.
use vstd::prelude::*;
use vstd::utf8::{decode_utf8, valid_utf8};

use quick_xml::events::attributes::Attributes;
use quick_xml::events::Event;
use quick_xml::reader::Reader;

use crate::strings::{str_eq, utf8_to_string};

verus! {

/// One attribute of a start tag, key and raw (still escaped) value.
#[derive(Debug, PartialEq, Eq)]
pub struct Attribute {
    pub key: String,
    pub value: String,
}

/// The name and attributes of a start (or empty) tag: the attributes that
/// read before the first malformed one, and whether there was a malformed
/// one. A malformed attribute fails only a lookup that reaches it.
#[derive(Debug, PartialEq, Eq)]
pub struct StartTag {
    pub name: String,
    pub attributes: Vec<Attribute>,
    pub malformed: bool,
}

/// The events of an XML document that the readers look at. The end of the
/// document is the end of the event sequence.
#[derive(Debug, PartialEq, Eq)]
pub enum XmlEvent {
    Start(StartTag),
    Empty(StartTag),
    End(String),
    Text(String),
    /// Comments, declarations, processing instructions, CDATA and doctypes.
    Other,
}

/// Errors of the XML readers.
#[derive(PartialEq, Eq, Structural, Clone, Copy, Debug)]
pub enum ParseError {
    /// The tokenizer rejected the document.
    Tokenize,
    /// Some bytes of a name, value or text were not valid UTF-8.
    InvalidUtf8,
    /// The event sequence ended before the element being read was closed.
    UnexpectedEof,
    /// An element appeared where the reader does not accept it.
    UnexpectedTag,
    /// An event of a kind the reader does not accept appeared.
    UnexpectedEvent,
    /// A required attribute was missing.
    MissingAttribute,
    /// The attributes of a tag were malformed before the one looked up.
    MalformedAttribute,
    /// An attribute or text did not name a value of the expected kind.
    InvalidValue,
    /// An element that must occur at least once did not occur.
    EmptyList,
    /// A required child element was missing.
    MissingElement,
}

// ---------------------------------------------------------------------------
// Reading the events with quick_xml

/// One event of a document as `quick_xml` reads it, its names and texts as
/// raw bytes.
pub enum RawEvent {
    /// A start tag: its qualified name and the raw text of its attributes.
    Start(Vec<u8>, Vec<u8>),
    /// An empty element tag: its qualified name and the raw text of its
    /// attributes.
    Empty(Vec<u8>, Vec<u8>),
    /// An end tag: its qualified name.
    End(Vec<u8>),
    /// A text, still escaped.
    Text(Vec<u8>),
    /// Comments, declarations, processing instructions, CDATA and doctypes.
    Other,
}

/// The model of a raw event.
pub enum SpecRawEvent {
    Start(Seq<u8>, Seq<u8>),
    Empty(Seq<u8>, Seq<u8>),
    End(Seq<u8>),
    Text(Seq<u8>),
    Other,
}

pub open spec fn view_raw_event(e: RawEvent) -> SpecRawEvent {
    match e {
        RawEvent::Start(n, a) => SpecRawEvent::Start(n@, a@),
        RawEvent::Empty(n, a) => SpecRawEvent::Empty(n@, a@),
        RawEvent::End(n) => SpecRawEvent::End(n@),
        RawEvent::Text(t) => SpecRawEvent::Text(t@),
        RawEvent::Other => SpecRawEvent::Other,
    }
}

pub open spec fn view_raw_events(s: Seq<RawEvent>) -> Seq<SpecRawEvent> {
    s.map_values(|e: RawEvent| view_raw_event(e))
}

/// The events that `quick_xml` reads from a document, with the whitespace
/// around texts trimmed when `trim` holds, up to the end of the document;
/// none when the reader reports an error first.
pub uninterp spec fn raw_events(xml: Seq<char>, trim: bool) -> Option<Seq<SpecRawEvent>>;

/// Reads a document with `quick_xml::reader::Reader::from_str`, `trim_text`
/// set to `trim`, calling `read_event` up to `Event::Eof`: each event with the
/// bytes of its name (`name`), of its attribute text (`attributes_raw`) or
/// of its text. The contract names the result.
#[verifier::external_body]
fn read_raw_events(xml: &str, trim: bool) -> (r: Option<Vec<RawEvent>>)
    ensures
        match r {
            Some(v) => raw_events(xml@, trim) == Some(view_raw_events(v@)),
            None => raw_events(xml@, trim) is None,
        },
{
    let mut reader = Reader::from_str(xml);
    reader.trim_text(trim);
    let mut events = Vec::new();
    loop {
        events.push(match reader.read_event().ok()? {
            Event::Start(t) => RawEvent::Start(t.name().0.to_vec(), t.attributes_raw().to_vec()),
            Event::Empty(t) => RawEvent::Empty(t.name().0.to_vec(), t.attributes_raw().to_vec()),
            Event::End(t) => RawEvent::End(t.name().0.to_vec()),
            Event::Text(t) => RawEvent::Text(t.to_vec()),
            Event::Eof => return Some(events),
            _ => RawEvent::Other,
        });
    }
}

pub open spec fn view_byte_pair(p: Option<(Vec<u8>, Vec<u8>)>) -> Option<(Seq<u8>, Seq<u8>)> {
    match p {
        Some(p) => Some((p.0@, p.1@)),
        None => None,
    }
}

pub open spec fn view_items(s: Seq<Option<(Vec<u8>, Vec<u8>)>>) -> Seq<Option<(Seq<u8>, Seq<u8>)>> {
    s.map_values(|p: Option<(Vec<u8>, Vec<u8>)>| view_byte_pair(p))
}

/// What `quick_xml`'s attribute iterator yields over the attribute text of a
/// tag, item by item: the key and value bytes of an attribute, or nothing
/// for an item that is an error.
pub uninterp spec fn raw_attributes(text: Seq<char>) -> Seq<Option<(Seq<u8>, Seq<u8>)>>;

/// Reads the attributes of a tag's attribute text with
/// `quick_xml::events::attributes::Attributes::new`, without the check that
/// keys are unique (as `BytesStart::try_get_attribute` reads them): every
/// item the iterator yields, the key and the raw value bytes of an attribute
/// or nothing for an error. The contract names the result.
#[verifier::external_body]
fn read_attributes(text: &str) -> (r: Vec<Option<(Vec<u8>, Vec<u8>)>>)
    ensures
        raw_attributes(text@) == view_items(r@),
{
    Attributes::new(text, 0).with_checks(false).map(|a| a.ok().map(|a| (a.key.0.to_vec(), a.value.to_vec()))).collect()
}

// ---------------------------------------------------------------------------
// Decoding the events

/// The model of an event: names, keys, values and texts as characters.
pub enum SpecXmlEvent {
    Start(Seq<char>, Seq<(Seq<char>, Seq<char>)>, bool),
    Empty(Seq<char>, Seq<(Seq<char>, Seq<char>)>, bool),
    End(Seq<char>),
    Text(Seq<char>),
    Other,
}

pub open spec fn view_attribute(a: Attribute) -> (Seq<char>, Seq<char>) {
    (a.key@, a.value@)
}

pub open spec fn view_attributes(s: Seq<Attribute>) -> Seq<(Seq<char>, Seq<char>)> {
    s.map_values(|a: Attribute| view_attribute(a))
}

pub open spec fn view_xml_event(e: XmlEvent) -> SpecXmlEvent {
    match e {
        XmlEvent::Start(t) => SpecXmlEvent::Start(t.name@, view_attributes(t.attributes@), t.malformed),
        XmlEvent::Empty(t) => SpecXmlEvent::Empty(t.name@, view_attributes(t.attributes@), t.malformed),
        XmlEvent::End(n) => SpecXmlEvent::End(n@),
        XmlEvent::Text(t) => SpecXmlEvent::Text(t@),
        XmlEvent::Other => SpecXmlEvent::Other,
    }
}

pub open spec fn view_xml_events(s: Seq<XmlEvent>) -> Seq<SpecXmlEvent> {
    s.map_values(|e: XmlEvent| view_xml_event(e))
}
/// The keys and values of attributes decoded from UTF-8; bytes that are not
/// UTF-8 make it fail.
pub open spec fn decode_pairs(pairs: Seq<(Seq<u8>, Seq<u8>)>) -> Result<Seq<(Seq<char>, Seq<char>)>, ParseError>
    decreases pairs.len(),
{
    if pairs.len() == 0 {
        Ok(Seq::empty())
    } else {
        match decode_pairs(pairs.drop_last()) {
            Err(e) => Err(e),
            Ok(rest) => if valid_utf8(pairs.last().0) && valid_utf8(pairs.last().1) {
                Ok(rest.push((decode_utf8(pairs.last().0), decode_utf8(pairs.last().1))))
            } else {
                Err(ParseError::InvalidUtf8)
            },
        }
    }
}

/// The attributes that the items of an attribute iterator give before its
/// first error, and whether there was an error.
pub open spec fn attributes_before_error(items: Seq<Option<(Seq<u8>, Seq<u8>)>>) -> (Seq<(Seq<u8>, Seq<u8>)>, bool)
    decreases items.len(),
{
    if items.len() == 0 {
        (Seq::empty(), false)
    } else {
        match items[0] {
            None => (Seq::empty(), true),
            Some(p) => {
                let (rest, bad) = attributes_before_error(items.drop_first());
                (seq![p] + rest, bad)
            },
        }
    }
}

/// The name and attributes of a tag from its raw name and attribute text:
/// both must be UTF-8; the attributes are those read before the first
/// malformed one, with whether there was one; their keys and values must be
/// UTF-8.
pub open spec fn spec_start_tag(name: Seq<u8>, attributes: Seq<u8>) -> Result<
    (Seq<char>, Seq<(Seq<char>, Seq<char>)>, bool),
    ParseError,
> {
    if !valid_utf8(name) || !valid_utf8(attributes) {
        Err(ParseError::InvalidUtf8)
    } else {
        let (pairs, bad) = attributes_before_error(raw_attributes(decode_utf8(attributes)));
        match decode_pairs(pairs) {
            Err(e) => Err(e),
            Ok(ps) => Ok((decode_utf8(name), ps, bad)),
        }
    }
}

/// One event decoded from a raw event.
pub open spec fn spec_event(e: SpecRawEvent) -> Result<SpecXmlEvent, ParseError> {
    match e {
        SpecRawEvent::Start(n, a) => match spec_start_tag(n, a) {
            Err(e) => Err(e),
            Ok((name, attrs, bad)) => Ok(SpecXmlEvent::Start(name, attrs, bad)),
        },
        SpecRawEvent::Empty(n, a) => match spec_start_tag(n, a) {
            Err(e) => Err(e),
            Ok((name, attrs, bad)) => Ok(SpecXmlEvent::Empty(name, attrs, bad)),
        },
        SpecRawEvent::End(n) => if valid_utf8(n) {
            Ok(SpecXmlEvent::End(decode_utf8(n)))
        } else {
            Err(ParseError::InvalidUtf8)
        },
        SpecRawEvent::Text(t) => if valid_utf8(t) {
            Ok(SpecXmlEvent::Text(decode_utf8(t)))
        } else {
            Err(ParseError::InvalidUtf8)
        },
        SpecRawEvent::Other => Ok(SpecXmlEvent::Other),
    }
}

/// The events decoded from raw events in order; the first that fails
/// decides the error.
pub open spec fn spec_events(raws: Seq<SpecRawEvent>) -> Result<Seq<SpecXmlEvent>, ParseError>
    decreases raws.len(),
{
    if raws.len() == 0 {
        Ok(Seq::empty())
    } else {
        match spec_events(raws.drop_last()) {
            Err(e) => Err(e),
            Ok(rest) => match spec_event(raws.last()) {
                Err(e) => Err(e),
                Ok(ev) => Ok(rest.push(ev)),
            },
        }
    }
}

/// The events of a document: those that `quick_xml` reads, decoded;
/// `Tokenize` when the reader fails.
pub open spec fn spec_tokenize(xml: Seq<char>, trim: bool) -> Result<Seq<SpecXmlEvent>, ParseError> {
    match raw_events(xml, trim) {
        None => Err(ParseError::Tokenize),
        Some(raws) => spec_events(raws),
    }
}

fn decode(bytes: Vec<u8>) -> (r: Result<String, ParseError>)
    ensures
        r is Ok <==> valid_utf8(bytes@),
        r matches Ok(s) ==> s@ == decode_utf8(bytes@),
        r matches Err(e) ==> e == ParseError::InvalidUtf8,
{
    match utf8_to_string(bytes) {
        Some(s) => Ok(s),
        None => Err(ParseError::InvalidUtf8),
    }
}

proof fn lemma_decode_pairs_err(pairs: Seq<(Seq<u8>, Seq<u8>)>, k: int)
    requires
        0 <= k <= pairs.len(),
        decode_pairs(pairs.take(k)) is Err,
    ensures
        decode_pairs(pairs) == decode_pairs(pairs.take(k)),
    decreases pairs.len() - k,
{
    if k < pairs.len() {
        assert(pairs.drop_last().take(k) =~= pairs.take(k));
        lemma_decode_pairs_err(pairs.drop_last(), k);
    } else {
        assert(pairs.take(k) =~= pairs);
    }
}

pub open spec fn view_pair(p: (Vec<u8>, Vec<u8>)) -> (Seq<u8>, Seq<u8>) {
    (p.0@, p.1@)
}

pub open spec fn view_pairs(s: Seq<(Vec<u8>, Vec<u8>)>) -> Seq<(Seq<u8>, Seq<u8>)> {
    s.map_values(|p: (Vec<u8>, Vec<u8>)| view_pair(p))
}

/// The attributes before the first error among the items of an attribute
/// iterator, and whether there was one, as `attributes_before_error` states.
fn split_before_error(raw: Vec<Option<(Vec<u8>, Vec<u8>)>>) -> (r: (Vec<(Vec<u8>, Vec<u8>)>, bool))
    ensures
        (view_pairs(r.0@), r.1) == attributes_before_error(
            view_items(raw@),
        ),
{
    let ghost items = view_items(raw@);
    let mut out: Vec<(Vec<u8>, Vec<u8>)> = Vec::new();
    let n = raw.len();
    let mut i: usize = 0;
    assert(items.skip(0) =~= items);
    assert(view_pairs(out@) =~= Seq::empty());
    while i < n
        invariant
            n == raw.len(),
            i <= n,
            items == view_items(raw@),
            attributes_before_error(items) == (
                view_pairs(out@) + attributes_before_error(items.skip(i as int)).0,
                attributes_before_error(items.skip(i as int)).1,
            ),
        decreases n - i,
    {
        let ghost before = view_pairs(out@);
        let ghost rest = items.skip(i as int);
        assert(rest[0] == items[i as int]);
        assert(rest.drop_first() =~= items.skip(i + 1));
        assert(items[i as int] == view_byte_pair(raw@[i as int]));
        match &raw[i] {
            None => {
                assert(attributes_before_error(rest) == (Seq::<(Seq<u8>, Seq<u8>)>::empty(), true));
                assert(before + Seq::<(Seq<u8>, Seq<u8>)>::empty() =~= before);
                return (out, true);
            },
            Some(pair) => {
                let key = pair.0.clone();
                assert(key@ =~= pair.0@);
                let value = pair.1.clone();
                assert(value@ =~= pair.1@);
                let ghost pv = view_pair((key, value));
                assert(items[i as int] == Some(pv));
                out.push((key, value));
                assert(view_pairs(out@) =~= before.push(pv));
                assert(before + (seq![pv] + attributes_before_error(items.skip(i + 1)).0) =~= before.push(pv)
                    + attributes_before_error(items.skip(i + 1)).0);
            },
        }
        i = i + 1;
    }
    assert(items.skip(n as int) =~= Seq::<Option<(Seq<u8>, Seq<u8>)>>::empty());
    assert(view_pairs(out@) + Seq::<(Seq<u8>, Seq<u8>)>::empty()
        =~= view_pairs(out@));
    (out, false)
}

fn convert_start_tag(name: &Vec<u8>, attributes: &Vec<u8>) -> (r: Result<StartTag, ParseError>)
    ensures
        match spec_start_tag(name@, attributes@) {
            Ok((n, attrs, bad)) => r matches Ok(t) && t.name@ == n && view_attributes(t.attributes@) == attrs
                && t.malformed == bad,
            Err(e) => r == Err::<StartTag, ParseError>(e),
        },
{
    let ghost name_bytes = name@;
    let ghost attr_bytes = attributes@;
    let name_bytes_copy = name.clone();
    assert(name_bytes_copy@ =~= name_bytes);
    let attr_bytes_copy = attributes.clone();
    assert(attr_bytes_copy@ =~= attr_bytes);
    let tag_name = decode(name_bytes_copy)?;
    let text = decode(attr_bytes_copy)?;
    let (raw, malformed) = split_before_error(read_attributes(text.as_str()));
    let ghost pairs = view_pairs(raw@);
    assert(attributes_before_error(raw_attributes(decode_utf8(attr_bytes))) == (pairs, malformed));
    let mut attrs: Vec<Attribute> = Vec::new();
    assert(view_attributes(attrs@) =~= Seq::empty());
    assert(pairs.take(0) =~= Seq::<(Seq<u8>, Seq<u8>)>::empty());
    let n = raw.len();
    for i in 0..n
        invariant
            n == raw.len(),
            pairs == view_pairs(raw@),
            attributes_before_error(raw_attributes(decode_utf8(attr_bytes))) == (pairs, malformed),
            valid_utf8(name_bytes) && valid_utf8(attr_bytes),
            name_bytes == name@,
            attr_bytes == attributes@,
            tag_name@ == decode_utf8(name_bytes),
            decode_pairs(pairs.take(i as int)) == Ok::<Seq<(Seq<char>, Seq<char>)>, ParseError>(view_attributes(attrs@)),
    {
        let ghost before = view_attributes(attrs@);
        proof {
            assert(pairs.take(i + 1).drop_last() =~= pairs.take(i as int));
            assert(pairs.take(i + 1).last() == view_pair(raw@[i as int]));
        }
        let key_bytes = raw[i].0.clone();
        assert(key_bytes@ =~= raw@[i as int].0@);
        let value_bytes = raw[i].1.clone();
        assert(value_bytes@ =~= raw@[i as int].1@);
        let key = match decode(key_bytes) {
            Ok(k) => k,
            Err(e) => {
                proof {
                    lemma_decode_pairs_err(pairs, i + 1);
                }
                return Err(e);
            },
        };
        let value = match decode(value_bytes) {
            Ok(v) => v,
            Err(e) => {
                proof {
                    lemma_decode_pairs_err(pairs, i + 1);
                }
                return Err(e);
            },
        };
        let a = Attribute { key, value };
        let ghost av = view_attribute(a);
        attrs.push(a);
        assert(view_attributes(attrs@) =~= before.push(av));
    }
    assert(pairs.take(n as int) =~= pairs);
    Ok(StartTag { name: tag_name, attributes: attrs, malformed })
}

fn convert_event(raw: &RawEvent) -> (r: Result<XmlEvent, ParseError>)
    ensures
        match spec_event(view_raw_event(*raw)) {
            Ok(ev) => r matches Ok(e) && view_xml_event(e) == ev,
            Err(e) => r == Err::<XmlEvent, ParseError>(e),
        },
{
    match raw {
        RawEvent::Start(n, a) => Ok(XmlEvent::Start(convert_start_tag(n, a)?)),
        RawEvent::Empty(n, a) => Ok(XmlEvent::Empty(convert_start_tag(n, a)?)),
        RawEvent::End(n) => {
            let bytes = n.clone();
            assert(bytes@ =~= n@);
            Ok(XmlEvent::End(decode(bytes)?))
        },
        RawEvent::Text(t) => {
            let bytes = t.clone();
            assert(bytes@ =~= t@);
            Ok(XmlEvent::Text(decode(bytes)?))
        },
        RawEvent::Other => Ok(XmlEvent::Other),
    }
}

proof fn lemma_events_err(raws: Seq<SpecRawEvent>, k: int)
    requires
        0 <= k <= raws.len(),
        spec_events(raws.take(k)) is Err,
    ensures
        spec_events(raws) == spec_events(raws.take(k)),
    decreases raws.len() - k,
{
    if k < raws.len() {
        assert(raws.drop_last().take(k) =~= raws.take(k));
        lemma_events_err(raws.drop_last(), k);
    } else {
        assert(raws.take(k) =~= raws);
    }
}

/// Reads the events of an XML document with `quick_xml` (trimming the
/// whitespace around text when `trim` holds) until the end of the document, as
/// `spec_tokenize` states: names, attribute keys and values and texts are
/// decoded from UTF-8 and left unescaped otherwise; each tag keeps the
/// attributes read before its first malformed one, which fails only the
/// lookups that reach it. A reader error gives `Tokenize`, bytes that are not
/// UTF-8 `InvalidUtf8` (a name, value or text cut from the document at its
/// delimiters always is UTF-8).
pub fn tokenize(xml: &str, trim: bool) -> (r: Result<Vec<XmlEvent>, ParseError>)
    ensures
        match spec_tokenize(xml@, trim) {
            Ok(evs) => r matches Ok(v) && view_xml_events(v@) == evs,
            Err(e) => r == Err::<Vec<XmlEvent>, ParseError>(e),
        },
{
    let raws = match read_raw_events(xml, trim) {
        Some(raws) => raws,
        None => {
            return Err(ParseError::Tokenize);
        },
    };
    let ghost all = view_raw_events(raws@);
    let mut events: Vec<XmlEvent> = Vec::new();
    assert(view_xml_events(events@) =~= Seq::empty());
    assert(all.take(0) =~= Seq::<SpecRawEvent>::empty());
    let n = raws.len();
    for i in 0..n
        invariant
            n == raws.len(),
            all == view_raw_events(raws@),
            raw_events(xml@, trim) == Some(all),
            spec_events(all.take(i as int)) == Ok::<Seq<SpecXmlEvent>, ParseError>(view_xml_events(events@)),
    {
        let ghost before = view_xml_events(events@);
        proof {
            assert(all.take(i + 1).drop_last() =~= all.take(i as int));
            assert(all.take(i + 1).last() == view_raw_event(raws@[i as int]));
        }
        match convert_event(&raws[i]) {
            Err(e) => {
                proof {
                    lemma_events_err(all, i + 1);
                }
                return Err(e);
            },
            Ok(ev) => {
                let ghost evv = view_xml_event(ev);
                events.push(ev);
                assert(view_xml_events(events@) =~= before.push(evv));
            },
        }
    }
    assert(all.take(n as int) =~= all);
    Ok(events)
}

// ---------------------------------------------------------------------------
// Attributes

/// The index of the first attribute whose key is `name`, searching from `from`.
pub open spec fn attribute_index_from(attrs: Seq<Attribute>, name: Seq<char>, from: int) -> Option<int>
    decreases attrs.len() - from,
{
    if from < 0 || from >= attrs.len() {
        None
    } else if attrs[from].key@ == name {
        Some(from)
    } else {
        attribute_index_from(attrs, name, from + 1)
    }
}

/// The index of the first attribute whose key is `name`.
pub open spec fn attribute_index(attrs: Seq<Attribute>, name: Seq<char>) -> Option<int> {
    attribute_index_from(attrs, name, 0)
}

/// The value of the first attribute whose key is `name`, among those read
/// before any malformed one.
pub open spec fn attribute_value(tag: StartTag, name: Seq<char>) -> Option<Seq<char>> {
    match attribute_index(tag.attributes@, name) {
        Some(i) => Some(tag.attributes@[i].value@),
        None => None,
    }
}

/// Looking an attribute up as the attribute iterator does: the value of the
/// first attribute whose key is `name`; when none comes before a malformed
/// attribute, `MalformedAttribute`; when there is none at all, nothing.
pub open spec fn attribute_lookup(tag: StartTag, name: Seq<char>) -> Result<Option<Seq<char>>, ParseError> {
    match attribute_value(tag, name) {
        Some(v) => Ok(Some(v)),
        None => if tag.malformed {
            Err(ParseError::MalformedAttribute)
        } else {
            Ok(None)
        },
    }
}

/// Looking a required attribute up: missing is `MissingAttribute`.
pub open spec fn required_attribute(tag: StartTag, name: Seq<char>) -> Result<Seq<char>, ParseError> {
    match attribute_lookup(tag, name) {
        Ok(Some(v)) => Ok(v),
        Ok(None) => Err(ParseError::MissingAttribute),
        Err(e) => Err(e),
    }
}

proof fn lemma_attribute_index_from(attrs: Seq<Attribute>, name: Seq<char>, from: int)
    requires
        0 <= from <= attrs.len(),
    ensures
        attribute_index_from(attrs, name, from) matches Some(i) ==> from <= i < attrs.len() && attrs[i].key@ == name,
    decreases attrs.len() - from,
{
    if from < attrs.len() {
        lemma_attribute_index_from(attrs, name, from + 1);
    }
}

/// The first attribute of the tag whose key is `name`, if any.
pub fn get_optional_attribute<'a>(name: &str, tag: &'a StartTag) -> (r: Option<&'a Attribute>)
    ensures
        r == (match attribute_index(tag.attributes@, name@) {
            Some(i) => Some(&tag.attributes@[i]),
            None => None,
        }),
{
    let n = tag.attributes.len();
    let mut i: usize = 0;
    while i < n
        invariant
            n == tag.attributes.len(),
            i <= n,
            attribute_index(tag.attributes@, name@) == attribute_index_from(tag.attributes@, name@, i as int),
        decreases n - i,
    {
        if str_eq(tag.attributes[i].key.as_str(), name) {
            return Some(&tag.attributes[i]);
        }
        i = i + 1;
    }
    None
}

/// The value of the first attribute of the tag whose key is `name`, as
/// `attribute_lookup` states.
pub fn get_optional_attribute_string(name: &str, tag: &StartTag) -> (r: Result<Option<String>, ParseError>)
    ensures
        match (r, attribute_lookup(*tag, name@)) {
            (Ok(Some(s)), Ok(Some(t))) => s@ == t,
            (Ok(None), Ok(None)) => true,
            (Err(e), Err(f)) => e == f,
            _ => false,
        },
{
    match get_optional_attribute(name, tag) {
        Some(attr) => Ok(Some(attr.value.clone())),
        None => if tag.malformed {
            Err(ParseError::MalformedAttribute)
        } else {
            Ok(None)
        },
    }
}

/// The value of the first attribute of the tag whose key is `name`, as
/// `required_attribute` states.
pub fn get_attribute_string(name: &str, tag: &StartTag) -> (r: Result<String, ParseError>)
    ensures
        match (r, required_attribute(*tag, name@)) {
            (Ok(s), Ok(t)) => s@ == t,
            (Err(e), Err(f)) => e == f,
            _ => false,
        },
{
    match get_optional_attribute_string(name, tag)? {
        Some(v) => Ok(v),
        None => Err(ParseError::MissingAttribute),
    }
}

// ---------------------------------------------------------------------------
// Text

/// What reading the text of an element at `pos` gives: the text of a text
/// event, or an empty text when the element closes at once; each consumes
/// that one event.
pub open spec fn spec_parse_text(evs: Seq<XmlEvent>, pos: int) -> Result<(Seq<char>, int), ParseError> {
    if pos < 0 || pos >= evs.len() {
        Err(ParseError::UnexpectedEof)
    } else {
        match evs[pos] {
            XmlEvent::Text(t) => Ok((t@, pos + 1)),
            XmlEvent::End(_) => Ok((Seq::empty(), pos + 1)),
            _ => Err(ParseError::UnexpectedEvent),
        }
    }
}

/// Reads the text of an element whose start tag was just read: the next event
/// must be a text (its text is returned) or an end tag (the text is empty).
pub fn parse_text(evs: &Vec<XmlEvent>, pos: usize) -> (r: Result<(String, usize), ParseError>)
    ensures
        match (r, spec_parse_text(evs@, pos as int)) {
            (Ok((s, p)), Ok((t, q))) => s@ == t && p == q,
            (Err(e), Err(f)) => e == f,
            _ => false,
        },
{
    if pos >= evs.len() {
        return Err(ParseError::UnexpectedEof);
    }
    match &evs[pos] {
        XmlEvent::Text(t) => Ok((t.clone(), pos + 1)),
        XmlEvent::End(_) => Ok((String::new(), pos + 1)),
        _ => Err(ParseError::UnexpectedEvent),
    }
}

} // verus!
