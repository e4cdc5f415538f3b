//! The Doxygen `index.xml` file: every compound with its members.
use vstd::prelude::*;

use crate::strings::str_eq;
use crate::xml::{
    get_attribute_string, required_attribute, parse_text, spec_parse_text, spec_tokenize, tokenize, view_xml_events,
    ParseError,
    XmlEvent,
};

verus! {

/// A member listed under a compound of the index.
#[derive(Debug, PartialEq, Eq)]
pub struct Member {
    pub refid: String,
    pub name: String,
    pub kind: String,
}

/// A compound (class, file, namespace, group, ...) listed in the index.
#[derive(Debug, PartialEq, Eq)]
pub struct Compound {
    pub refid: String,
    pub name: String,
    pub kind: String,
    pub members: Vec<Member>,
}

/// The contents of an index file.
#[derive(Debug, PartialEq, Eq)]
pub struct Root {
    pub compounds: Vec<Compound>,
}

pub struct SpecMember {
    pub refid: Seq<char>,
    pub name: Seq<char>,
    pub kind: Seq<char>,
}

pub struct SpecCompound {
    pub refid: Seq<char>,
    pub name: Seq<char>,
    pub kind: Seq<char>,
    pub members: Seq<SpecMember>,
}

pub struct SpecRoot {
    pub compounds: Seq<SpecCompound>,
}

pub open spec fn members_view(s: Seq<Member>) -> Seq<SpecMember> {
    s.map_values(|m: Member| m@)
}

pub open spec fn compounds_view(s: Seq<Compound>) -> Seq<SpecCompound> {
    s.map_values(|c: Compound| c@)
}

impl View for Member {
    type V = SpecMember;

    open spec fn view(&self) -> SpecMember {
        SpecMember { refid: self.refid@, name: self.name@, kind: self.kind@ }
    }
}

impl View for Compound {
    type V = SpecCompound;

    open spec fn view(&self) -> SpecCompound {
        SpecCompound {
            refid: self.refid@,
            name: self.name@,
            kind: self.kind@,
            members: members_view(self.members@),
        }
    }
}

impl View for Root {
    type V = SpecRoot;

    open spec fn view(&self) -> SpecRoot {
        SpecRoot { compounds: compounds_view(self.compounds@) }
    }
}

/// Reading a member: its first event must open its `name` element, whose text
/// is the member's name.
pub open spec fn spec_parse_member(evs: Seq<XmlEvent>, pos: int) -> Result<(Seq<char>, int), ParseError> {
    if pos < 0 || pos >= evs.len() {
        Err(ParseError::UnexpectedEof)
    } else {
        match evs[pos] {
            XmlEvent::Start(tag) => if tag.name@ == "name"@ {
                spec_parse_text(evs, pos + 1)
            } else {
                Err(ParseError::UnexpectedTag)
            },
            _ => Err(ParseError::UnexpectedEvent),
        }
    }
}

/// Reading the contents of a compound from `pos` with the name and members
/// read so far: `name` elements set the name, `member` elements add a member
/// (its `refid` and `kind` attributes required), end tags other than that of the compound
/// are passed over, the compound's end tag ends it, and anything else is an
/// error.
pub open spec fn spec_parse_compound_loop(
    evs: Seq<XmlEvent>,
    pos: int,
    name: Seq<char>,
    members: Seq<SpecMember>,
) -> Result<(Seq<char>, Seq<SpecMember>, int), ParseError>
    decreases evs.len() - pos,
{
    if pos < 0 || pos >= evs.len() {
        Err(ParseError::UnexpectedEof)
    } else {
        match evs[pos] {
            XmlEvent::Start(tag) => if tag.name@ == "name"@ {
                match spec_parse_text(evs, pos + 1) {
                    Ok((text, p)) => spec_parse_compound_loop(evs, p, text, members),
                    Err(e) => Err(e),
                }
            } else if tag.name@ == "member"@ {
                match spec_parse_member(evs, pos + 1) {
                    Ok((member_name, p)) => if pos < p {
                        match (required_attribute(tag, "refid"@), required_attribute(tag, "kind"@)) {
                            (Ok(refid), Ok(kind)) => spec_parse_compound_loop(
                                evs,
                                p,
                                name,
                                members.push(SpecMember { refid, name: member_name, kind }),
                            ),
                            (Err(e), _) => Err(e),
                            (_, Err(e)) => Err(e),
                        }
                    } else {
                        Err(ParseError::UnexpectedEvent)
                    },
                    Err(e) => Err(e),
                }
            } else {
                Err(ParseError::UnexpectedTag)
            },
            XmlEvent::End(end) => if end@ == "compound"@ {
                Ok((name, members, pos + 1))
            } else {
                spec_parse_compound_loop(evs, pos + 1, name, members)
            },
            _ => Err(ParseError::UnexpectedEvent),
        }
    }
}

/// Reading the top level of an index from `pos` with the compounds read so
/// far: each `compound` start tag (with `refid` and `kind` attributes) adds a
/// compound, every other event is passed over, and the end of the events ends
/// the index.
pub open spec fn spec_parse_index_loop(evs: Seq<XmlEvent>, pos: int, compounds: Seq<SpecCompound>) -> Result<Seq<SpecCompound>, ParseError>
    decreases evs.len() - pos,
{
    if pos < 0 || pos >= evs.len() {
        Ok(compounds)
    } else {
        match evs[pos] {
            XmlEvent::Start(tag) => if tag.name@ == "compound"@ {
                match (required_attribute(tag, "refid"@), required_attribute(tag, "kind"@)) {
                    (Ok(refid), Ok(kind)) => match spec_parse_compound_loop(evs, pos + 1, Seq::empty(), Seq::empty()) {
                        Ok((name, members, p)) => if pos < p <= evs.len() {
                            spec_parse_index_loop(
                                evs,
                                p,
                                compounds.push(SpecCompound { refid, name, kind, members }),
                            )
                        } else {
                            Err(ParseError::UnexpectedEvent)
                        },
                        Err(e) => Err(e),
                    },
                    (Err(e), _) => Err(e),
                    (_, Err(e)) => Err(e),
                }
            } else {
                spec_parse_index_loop(evs, pos + 1, compounds)
            },
            _ => spec_parse_index_loop(evs, pos + 1, compounds),
        }
    }
}

/// What reading an index from its events gives.
pub open spec fn spec_parse_index(evs: Seq<XmlEvent>) -> Result<SpecRoot, ParseError> {
    match spec_parse_index_loop(evs, 0, Seq::empty()) {
        Ok(compounds) => Ok(SpecRoot { compounds }),
        Err(e) => Err(e),
    }
}

/// Reads a member of a compound whose start tag was just read.
pub fn parse_member(evs: &Vec<XmlEvent>, pos: usize) -> (r: Result<(String, usize), ParseError>)
    ensures
        match (r, spec_parse_member(evs@, pos as int)) {
            (Ok((s, p)), Ok((t, q))) => s@ == t && p == q && pos < p <= evs.len(),
            (Err(e), Err(f)) => e == f,
            _ => false,
        },
{
    if pos >= evs.len() {
        return Err(ParseError::UnexpectedEof);
    }
    match &evs[pos] {
        XmlEvent::Start(tag) => {
            if str_eq(tag.name.as_str(), "name") {
                parse_text(evs, pos + 1)
            } else {
                Err(ParseError::UnexpectedTag)
            }
        },
        _ => Err(ParseError::UnexpectedEvent),
    }
}

/// Reads the contents of a compound of the index whose start tag was just
/// read, up to and including its end tag: its name and its members.
pub fn parse_compound(evs: &Vec<XmlEvent>, pos: usize) -> (r: Result<(String, Vec<Member>, usize), ParseError>)
    ensures
        match (r, spec_parse_compound_loop(evs@, pos as int, Seq::empty(), Seq::empty())) {
            (Ok((n, ms, p)), Ok((sn, sms, q))) => n@ == sn && members_view(ms@) == sms && p == q && pos < p <= evs.len(),
            (Err(e), Err(f)) => e == f,
            _ => false,
        },
{
    if pos >= evs.len() {
        return Err(ParseError::UnexpectedEof);
    }
    let mut name = String::new();
    let mut members: Vec<Member> = Vec::new();
    let mut i = pos;
    let ghost target = spec_parse_compound_loop(evs@, pos as int, Seq::empty(), Seq::empty());
    assert(members_view(members@) =~= Seq::<SpecMember>::empty());
    while i < evs.len()
        invariant
            pos <= i <= evs.len(),
            target == spec_parse_compound_loop(evs@, pos as int, Seq::empty(), Seq::empty()),
            target == spec_parse_compound_loop(evs@, i as int, name@, members_view(members@)),
        decreases evs.len() - i,
    {
        match &evs[i] {
            XmlEvent::Start(tag) => {
                if str_eq(tag.name.as_str(), "name") {
                    let (text, p) = parse_text(evs, i + 1)?;
                    name = text;
                    i = p;
                } else if str_eq(tag.name.as_str(), "member") {
                    let (member_name, p) = parse_member(evs, i + 1)?;
                    let refid = get_attribute_string("refid", tag);
                    let kind = get_attribute_string("kind", tag);
                    let (refid, kind) = match (refid, kind) {
                        (Ok(refid), Ok(kind)) => (refid, kind),
                        (Err(e), _) => {
                            return Err(e);
                        },
                        (_, Err(e)) => {
                            return Err(e);
                        },
                    };
                    let ghost old_members = members@;
                    members.push(Member { refid, name: member_name, kind });
                    assert(members_view(members@) =~= members_view(old_members).push(members@.last()@));
                    i = p;
                } else {
                    return Err(ParseError::UnexpectedTag);
                }
            },
            XmlEvent::End(end) => {
                if str_eq(end.as_str(), "compound") {
                    return Ok((name, members, i + 1));
                }
                i = i + 1;
            },
            _ => {
                return Err(ParseError::UnexpectedEvent);
            },
        }
    }
    Err(ParseError::UnexpectedEof)
}

/// Reads an index from its events.
pub fn parse_events(evs: &Vec<XmlEvent>) -> (r: Result<Root, ParseError>)
    ensures
        match (r, spec_parse_index(evs@)) {
            (Ok(root), Ok(sroot)) => root@ == sroot,
            (Err(e), Err(f)) => e == f,
            _ => false,
        },
{
    let mut compounds: Vec<Compound> = Vec::new();
    let mut i: usize = 0;
    assert(compounds_view(compounds@) =~= Seq::<SpecCompound>::empty());
    while i < evs.len()
        invariant
            i <= evs.len(),
            spec_parse_index_loop(evs@, 0, Seq::empty())
                == spec_parse_index_loop(evs@, i as int, compounds_view(compounds@)),
        decreases evs.len() - i,
    {
        match &evs[i] {
            XmlEvent::Start(tag) => {
                if str_eq(tag.name.as_str(), "compound") {
                    let refid = get_attribute_string("refid", tag);
                    let kind = get_attribute_string("kind", tag);
                    match (refid, kind) {
                        (Ok(refid), Ok(kind)) => {
                            let (name, members, p) = parse_compound(evs, i + 1)?;
                            let ghost old = compounds@;
                            compounds.push(Compound { refid, name, kind, members });
                            assert(compounds_view(compounds@) =~= compounds_view(old).push(compounds@.last()@));
                            i = p;
                        },
                        (Err(e), _) => {
                            return Err(e);
                        },
                        (_, Err(e)) => {
                            return Err(e);
                        },
                    }
                } else {
                    i = i + 1;
                }
            },
            _ => {
                i = i + 1;
            },
        }
    }
    assert(compounds_view(compounds@) == Root { compounds }@.compounds);
    Ok(Root { compounds })
}

/// Reads an index from the text of an index file: the events that `tokenize`
/// reads from it with the whitespace around texts trimmed (as `spec_tokenize`
/// states), read as `parse_events` does.
pub fn parse(xml: &str) -> (r: Result<Root, ParseError>)
    ensures
        match spec_tokenize(xml@, true) {
            Err(e) => r == Err::<Root, ParseError>(e),
            Ok(vs) => exists|evs: Seq<XmlEvent>|
                #![trigger view_xml_events(evs)]
                view_xml_events(evs) == vs && match (r, spec_parse_index(evs)) {
                    (Ok(root), Ok(sroot)) => root@ == sroot,
                    (Err(e), Err(f)) => e == f,
                    _ => false,
                },
        },
{
    let evs = tokenize(xml, true)?;
    let r = parse_events(&evs);
    assert(view_xml_events(evs@) == view_xml_events(evs@));
    r
}

// ---------------------------------------------------------------------------
// Laws of reading

proof fn lemma_members_prefix_trans(a: Seq<SpecMember>, b: Seq<SpecMember>, c: Seq<SpecMember>)
    requires
        a.is_prefix_of(b),
        b.is_prefix_of(c),
    ensures
        a.is_prefix_of(c),
{
    assert forall|i: int| 0 <= i < a.len() implies a[i] == c[i] by {
        assert(a[i] == b.subrange(0, a.len() as int)[i]);
        assert(b[i] == c.subrange(0, b.len() as int)[i]);
    }
    assert(a =~= c.subrange(0, a.len() as int));
}

/// Reading the rest of an index compound never drops or reorders a member
/// read before: the members read so far stay at the start of its members.
pub proof fn law_index_compound_keeps_members(evs: Seq<XmlEvent>, pos: int, name: Seq<char>, members: Seq<SpecMember>)
    ensures
        spec_parse_compound_loop(evs, pos, name, members) matches Ok((_, ms, _)) ==> members.is_prefix_of(ms),
    decreases evs.len() - pos,
{
    assert(members =~= members.subrange(0, members.len() as int));
    if 0 <= pos < evs.len() {
        match evs[pos] {
            XmlEvent::Start(tag) => {
                if tag.name@ == "name"@ {
                    if let Ok((text, p)) = spec_parse_text(evs, pos + 1) {
                        law_index_compound_keeps_members(evs, p, text, members);
                    }
                } else if tag.name@ == "member"@ {
                    if let Ok((member_name, p)) = spec_parse_member(evs, pos + 1) {
                        if pos < p {
                            if let (Ok(refid), Ok(kind)) = (required_attribute(tag, "refid"@), required_attribute(tag, "kind"@)) {
                                let m = SpecMember { refid, name: member_name, kind };
                                let more = members.push(m);
                                assert(members =~= more.subrange(0, members.len() as int));
                                law_index_compound_keeps_members(evs, p, name, more);
                                if let Ok((_, ms, _)) = spec_parse_compound_loop(evs, p, name, more) {
                                    lemma_members_prefix_trans(members, more, ms);
                                }
                            }
                        }
                    }
                }
            },
            XmlEvent::End(end) => {
                if end@ != "compound"@ {
                    law_index_compound_keeps_members(evs, pos + 1, name, members);
                }
            },
            _ => {},
        }
    }
}

/// Reading a member element (`<member refid=".." kind=".."><name>..</name>`)
/// of an index compound keeps every member read before and adds it right
/// after them, with its id, name and kind: so a compound lists each of its
/// member elements, in document order.
pub proof fn law_index_compound_adds_each_member(
    evs: Seq<XmlEvent>,
    pos: int,
    name: Seq<char>,
    members: Seq<SpecMember>,
    refid: Seq<char>,
    kind: Seq<char>,
    member_name: Seq<char>,
)
    requires
        0 <= pos,
        pos + 2 < evs.len(),
        evs[pos] matches XmlEvent::Start(tag) && tag.name@ == "member"@ && required_attribute(tag, "refid"@) == Ok::<
            Seq<char>,
            ParseError,
        >(refid) && required_attribute(tag, "kind"@) == Ok::<Seq<char>, ParseError>(kind),
        evs[pos + 1] matches XmlEvent::Start(t) && t.name@ == "name"@,
        evs[pos + 2] matches XmlEvent::Text(t) && t@ == member_name,
    ensures
        spec_parse_compound_loop(evs, pos, name, members) matches Ok((_, ms, _)) ==> members.push(
            SpecMember { refid, name: member_name, kind },
        ).is_prefix_of(ms),
{
    reveal_strlit("member");
    reveal_strlit("name");
    assert("member"@.len() == 6 && "name"@.len() == 4);
    let more = members.push(SpecMember { refid, name: member_name, kind });
    assert(spec_parse_member(evs, pos + 1) == Ok::<(Seq<char>, int), ParseError>((member_name, pos + 3)));
    assert(spec_parse_compound_loop(evs, pos, name, members) == spec_parse_compound_loop(evs, pos + 3, name, more));
    law_index_compound_keeps_members(evs, pos + 3, name, more);
}

// ---------------------------------------------------------------------------
// Lookups

/// The index of the first compound with this name and kind.
pub open spec fn first_compound(compounds: Seq<SpecCompound>, name: Seq<char>, kind: Seq<char>) -> Option<int>
    decreases compounds.len(),
{
    if compounds.len() == 0 {
        None
    } else {
        match first_compound(compounds.drop_last(), name, kind) {
            Some(i) => Some(i),
            None => if compounds.last().name == name && compounds.last().kind == kind {
                Some(compounds.len() - 1)
            } else {
                None
            },
        }
    }
}

/// The index of the first member with this name and kind.
pub open spec fn first_member(members: Seq<SpecMember>, name: Seq<char>, kind: Seq<char>) -> Option<int>
    decreases members.len(),
{
    if members.len() == 0 {
        None
    } else {
        match first_member(members.drop_last(), name, kind) {
            Some(i) => Some(i),
            None => if members.last().name == name && members.last().kind == kind {
                Some(members.len() - 1)
            } else {
                None
            },
        }
    }
}

/// The first compound (by index) that has a member with this name and kind,
/// with the index of its first such member.
pub open spec fn first_member_compound(compounds: Seq<SpecCompound>, name: Seq<char>, kind: Seq<char>) -> Option<(int, int)>
    decreases compounds.len(),
{
    if compounds.len() == 0 {
        None
    } else {
        match first_member_compound(compounds.drop_last(), name, kind) {
            Some(p) => Some(p),
            None => match first_member(compounds.last().members, name, kind) {
                Some(j) => Some((compounds.len() - 1, j)),
                None => None,
            },
        }
    }
}

proof fn lemma_first_compound_prefix(cs: Seq<SpecCompound>, name: Seq<char>, kind: Seq<char>, k: int)
    requires
        0 <= k <= cs.len(),
        first_compound(cs.take(k), name, kind) is Some,
    ensures
        first_compound(cs, name, kind) == first_compound(cs.take(k), name, kind),
    decreases cs.len() - k,
{
    if k < cs.len() {
        assert(cs.drop_last().take(k) =~= cs.take(k));
        lemma_first_compound_prefix(cs.drop_last(), name, kind, k);
    } else {
        assert(cs.take(k) =~= cs);
    }
}

proof fn lemma_first_member_prefix(ms: Seq<SpecMember>, name: Seq<char>, kind: Seq<char>, k: int)
    requires
        0 <= k <= ms.len(),
        first_member(ms.take(k), name, kind) is Some,
    ensures
        first_member(ms, name, kind) == first_member(ms.take(k), name, kind),
    decreases ms.len() - k,
{
    if k < ms.len() {
        assert(ms.drop_last().take(k) =~= ms.take(k));
        lemma_first_member_prefix(ms.drop_last(), name, kind, k);
    } else {
        assert(ms.take(k) =~= ms);
    }
}

proof fn lemma_first_member_compound_prefix(cs: Seq<SpecCompound>, name: Seq<char>, kind: Seq<char>, k: int)
    requires
        0 <= k <= cs.len(),
        first_member_compound(cs.take(k), name, kind) is Some,
    ensures
        first_member_compound(cs, name, kind) == first_member_compound(cs.take(k), name, kind),
    decreases cs.len() - k,
{
    if k < cs.len() {
        assert(cs.drop_last().take(k) =~= cs.take(k));
        lemma_first_member_compound_prefix(cs.drop_last(), name, kind, k);
    } else {
        assert(cs.take(k) =~= cs);
    }
}

/// The first compound of the index with this name and kind.
pub fn find_compound<'a>(root: &'a Root, name: &str, kind: &str) -> (r: Option<&'a Compound>)
    ensures
        match first_compound(root@.compounds, name@, kind@) {
            Some(i) => r == Some(&root.compounds@[i]),
            None => r is None,
        },
{
    let ghost cs = root@.compounds;
    let n = root.compounds.len();
    for i in 0..n
        invariant
            n == root.compounds.len(),
            cs == root@.compounds,
            cs == compounds_view(root.compounds@),
            first_compound(cs.take(i as int), name@, kind@) is None,
    {
        proof {
            assert(cs.take(i + 1).drop_last() =~= cs.take(i as int));
            assert(cs.take(i + 1).last() == root.compounds@[i as int]@);
        }
        let c = &root.compounds[i];
        if str_eq(c.name.as_str(), name) && str_eq(c.kind.as_str(), kind) {
            proof {
                lemma_first_compound_prefix(cs, name@, kind@, i + 1);
            }
            return Some(c);
        }
    }
    assert(cs.take(n as int) =~= cs);
    None
}

fn find_member_in<'a>(c: &'a Compound, name: &str, kind: &str) -> (r: Option<&'a Member>)
    ensures
        match first_member(c@.members, name@, kind@) {
            Some(j) => r == Some(&c.members@[j]),
            None => r is None,
        },
{
    let ghost ms = c@.members;
    let n = c.members.len();
    for i in 0..n
        invariant
            n == c.members.len(),
            ms == c@.members,
            ms == members_view(c.members@),
            first_member(ms.take(i as int), name@, kind@) is None,
    {
        proof {
            assert(ms.take(i + 1).drop_last() =~= ms.take(i as int));
            assert(ms.take(i + 1).last() == c.members@[i as int]@);
        }
        if str_eq(c.members[i].name.as_str(), name) && str_eq(c.members[i].kind.as_str(), kind) {
            proof {
                lemma_first_member_prefix(ms, name@, kind@, i + 1);
            }
            return Some(&c.members[i]);
        }
    }
    assert(ms.take(n as int) =~= ms);
    None
}

/// The first member with this name and kind in the first compound that has
/// one, with that compound.
pub fn find_member<'a>(root: &'a Root, name: &str, kind: &str) -> (r: Option<(&'a Compound, &'a Member)>)
    ensures
        match first_member_compound(root@.compounds, name@, kind@) {
            Some((i, j)) => r == Some((&root.compounds@[i], &root.compounds@[i].members@[j])),
            None => r is None,
        },
{
    let ghost cs = root@.compounds;
    let n = root.compounds.len();
    for i in 0..n
        invariant
            n == root.compounds.len(),
            cs == root@.compounds,
            cs == compounds_view(root.compounds@),
            first_member_compound(cs.take(i as int), name@, kind@) is None,
    {
        proof {
            assert(cs.take(i + 1).drop_last() =~= cs.take(i as int));
            assert(cs.take(i + 1).last() == root.compounds@[i as int]@);
        }
        let c = &root.compounds[i];
        match find_member_in(c, name, kind) {
            Some(m) => {
                proof {
                    lemma_first_member_compound_prefix(cs, name@, kind@, i + 1);
                }
                return Some((c, m));
            },
            None => {},
        }
    }
    assert(cs.take(n as int) =~= cs);
    None
}

} // verus!
