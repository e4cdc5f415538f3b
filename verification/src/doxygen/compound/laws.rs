//! What reading a compound definition keeps: every inner class, inner group
//! and section read earlier stays, in order, and each inner group or inner
//! class element adds its reference after them.
use vstd::prelude::*;

use crate::doxygen::compound::elements::{DoxSectionKind, SpecCompoundDef, SpecRefType, SpecSectionDef};
use crate::doxygen::compound::rules::{
    description_tag, enum_attribute, read_compound_def, read_description, read_ref_type, read_section_def, skip_element,
};
use crate::xml::{required_attribute, spec_parse_text, StartTag, XmlEvent};

verus! {

proof fn lemma_prefix_trans<A>(a: Seq<A>, b: Seq<A>, c: Seq<A>)
    requires
        a.is_prefix_of(b),
        b.is_prefix_of(c),
    ensures
        a.is_prefix_of(c),
{
    assert forall|i: int| 0 <= i < a.len() implies a[i] == c[i] by {
        assert(a[i] == b.subrange(0, a.len() as int)[i]);
        assert(b[i] == c.subrange(0, b.len() as int)[i]);
    }
    assert(a =~= c.subrange(0, a.len() as int));
}

proof fn lemma_push_prefix<A>(a: Seq<A>, x: A)
    ensures
        a.is_prefix_of(a.push(x)),
{
    assert(a =~= a.push(x).subrange(0, a.len() as int));
}

proof fn lemma_prefix_refl<A>(a: Seq<A>)
    ensures
        a.is_prefix_of(a),
{
    assert(a =~= a.subrange(0, a.len() as int));
}

/// Whether every inner class, inner group and section of `acc` stays, in
/// order, at the start of those of `c`.
pub open spec fn keeps_contents(acc: SpecCompoundDef, c: SpecCompoundDef) -> bool {
    &&& acc.innerclass.is_prefix_of(c.innerclass)
    &&& acc.innergroup.is_prefix_of(c.innergroup)
    &&& acc.section_defs.is_prefix_of(c.section_defs)
}

proof fn lemma_keeps_trans(a: SpecCompoundDef, b: SpecCompoundDef, c: SpecCompoundDef)
    requires
        keeps_contents(a, b),
        keeps_contents(b, c),
    ensures
        keeps_contents(a, c),
{
    lemma_prefix_trans(a.innerclass, b.innerclass, c.innerclass);
    lemma_prefix_trans(a.innergroup, b.innergroup, c.innergroup);
    lemma_prefix_trans(a.section_defs, b.section_defs, c.section_defs);
}

proof fn lemma_keeps_refl(a: SpecCompoundDef)
    ensures
        keeps_contents(a, a),
{
    lemma_prefix_refl(a.innerclass);
    lemma_prefix_refl(a.innergroup);
    lemma_prefix_refl(a.section_defs);
}

/// Reading the rest of a compound definition never drops or reorders an
/// inner class, inner group or section read before: what was read so far
/// stays at the start of each list.
pub proof fn law_compound_keeps_what_was_read(evs: Seq<XmlEvent>, pos: int, acc: SpecCompoundDef)
    ensures
        read_compound_def(evs, pos, acc) matches Ok((c, _)) ==> keeps_contents(acc, c),
    decreases evs.len() - pos,
{
    if 0 <= pos < evs.len() {
        lemma_keeps_refl(acc);
        match evs[pos] {
            XmlEvent::Start(tag) => {
                let a2: SpecCompoundDef;
                let p: int;
                if tag.name@ == "compoundname"@ {
                    match spec_parse_text(evs, pos + 1) {
                        Ok((t, q)) => {
                            a2 = SpecCompoundDef { compound_name: t, ..acc };
                            p = q;
                        },
                        Err(_) => { return; },
                    }
                } else if description_tag(tag.name@) {
                    match read_description(evs, pos + 1, tag.name@, Seq::empty()) {
                        Ok((d, q)) => {
                            if !(pos < q <= evs.len()) { return; }
                            a2 = if tag.name@ == "briefdescription"@ {
                                SpecCompoundDef { brief_description: Some(d), ..acc }
                            } else {
                                SpecCompoundDef { detailed_description: Some(d), ..acc }
                            };
                            p = q;
                        },
                        Err(_) => { return; },
                    }
                } else if tag.name@ == "innerclass"@ {
                    match read_ref_type(evs, pos, tag) {
                        Ok((r, q)) => {
                            a2 = SpecCompoundDef { innerclass: acc.innerclass.push(r), ..acc };
                            lemma_push_prefix(acc.innerclass, r);
                            p = q;
                        },
                        Err(_) => { return; },
                    }
                } else if tag.name@ == "innergroup"@ {
                    match read_ref_type(evs, pos, tag) {
                        Ok((r, q)) => {
                            a2 = SpecCompoundDef { innergroup: acc.innergroup.push(r), ..acc };
                            lemma_push_prefix(acc.innergroup, r);
                            p = q;
                        },
                        Err(_) => { return; },
                    }
                } else if tag.name@ == "sectiondef"@ {
                    match enum_attribute(tag, "kind"@, |s: Seq<char>| DoxSectionKind::spec_from_str(s)) {
                        Ok(kind) => match read_section_def(evs, pos + 1, Seq::empty()) {
                            Ok((ms, q)) => {
                                if !(pos < q <= evs.len()) { return; }
                                let sd = SpecSectionDef { kind, member_defs: ms };
                                a2 = SpecCompoundDef { section_defs: acc.section_defs.push(sd), ..acc };
                                lemma_push_prefix(acc.section_defs, sd);
                                p = q;
                            },
                            Err(_) => { return; },
                        },
                        Err(_) => { return; },
                    }
                } else {
                    match skip_element(evs, pos + 1, 0) {
                        Ok(q) => {
                            if !(pos < q <= evs.len()) { return; }
                            a2 = acc;
                            p = q;
                        },
                        Err(_) => { return; },
                    }
                }
                assert(keeps_contents(acc, a2));
                assert(read_compound_def(evs, pos, acc) == read_compound_def(evs, p, a2));
                law_compound_keeps_what_was_read(evs, p, a2);
                if let Ok((c, _)) = read_compound_def(evs, p, a2) {
                    lemma_keeps_trans(acc, a2, c);
                }
            },
            XmlEvent::End(n) => {
                if n@ != "compounddef"@ {
                    law_compound_keeps_what_was_read(evs, pos + 1, acc);
                }
            },
            _ => {
                law_compound_keeps_what_was_read(evs, pos + 1, acc);
            },
        }
    }
}

/// Reading an inner group element (`<innergroup refid="..">text</innergroup>`)
/// keeps every inner group read before and adds its reference right after
/// them; the same holds of an inner class element. So a compound lists each
/// of its inner group elements, in document order.
pub proof fn law_compound_adds_each_inner_reference(
    evs: Seq<XmlEvent>,
    pos: int,
    acc: SpecCompoundDef,
    tag: StartTag,
    refid: Seq<char>,
    text: Seq<char>,
)
    requires
        0 <= pos,
        pos + 2 < evs.len(),
        evs[pos] == XmlEvent::Start(tag),
        tag.name@ == "innergroup"@ || tag.name@ == "innerclass"@,
        required_attribute(tag, "refid"@) == Ok::<Seq<char>, crate::xml::ParseError>(refid),
        evs[pos + 1] matches XmlEvent::Text(t) && t@ == text,
        evs[pos + 2] is End,
    ensures
        read_compound_def(evs, pos, acc) matches Ok((c, _)) ==> if tag.name@ == "innergroup"@ {
            acc.innergroup.push(SpecRefType { refid, content: text }).is_prefix_of(c.innergroup)
        } else {
            acc.innerclass.push(SpecRefType { refid, content: text }).is_prefix_of(c.innerclass)
        },
{
    let r = SpecRefType { refid, content: text };
    reveal_strlit("innergroup");
    reveal_strlit("innerclass");
    reveal_strlit("compoundname");
    reveal_strlit("briefdescription");
    reveal_strlit("detaileddescription");
    assert("innergroup"@.len() == 10 && "innergroup"@[5] == 'g');
    assert("innerclass"@.len() == 10 && "innerclass"@[5] == 'c');
    assert("compoundname"@.len() == 12);
    assert("briefdescription"@.len() == 16);
    assert("detaileddescription"@.len() == 19);
    assert(read_ref_type(evs, pos, tag) == Ok::<(SpecRefType, int), crate::xml::ParseError>((r, pos + 2)));
    let a2 = if tag.name@ == "innergroup"@ {
        SpecCompoundDef { innergroup: acc.innergroup.push(r), ..acc }
    } else {
        SpecCompoundDef { innerclass: acc.innerclass.push(r), ..acc }
    };
    assert(read_compound_def(evs, pos, acc) == read_compound_def(evs, pos + 2, a2));
    law_compound_keeps_what_was_read(evs, pos + 2, a2);
}

} // verus!
