//! Which compounds rendering needs loaded: the inner compounds a compound
//! refers to, and that a store holding all of them, and all that those refer
//! to in turn, never lacks a compound.
use vstd::prelude::*;

use crate::doxygen::compound::elements::{
    view_compound_def, view_doxygen, view_ref_type, view_refs, DoxygenType, RefType, SpecDoxygen, SpecRefType,
};
use crate::doxygen::compound::{spec_compounddef_contents, SpecCompoundDefEntry};
use crate::doxygen::nodes::Domain;
use crate::doxygen::render::r_contents;
use crate::doxygen::render_rules::{lookup, r_compound, r_inner, SpecRenderError};
use crate::strings::string_views;

verus! {

/// A store of loaded compounds: each with the id it was loaded for.
pub type SpecStore = Seq<(Seq<char>, SpecDoxygen)>;

pub open spec fn ref_id(r: SpecRefType) -> Seq<char> {
    r.refid
}

/// The ids that references refer to, in order.
pub open spec fn refids(s: Seq<SpecRefType>) -> Seq<Seq<char>> {
    s.map_values(|r: SpecRefType| ref_id(r))
}

/// The ids of the compounds that rendering a compound refers to: its inner
/// classes and, when inner groups are rendered, its inner groups.
pub open spec fn needed_refs(d: SpecDoxygen, inner_groups: bool) -> Seq<Seq<char>> {
    match d.compound_def {
        None => Seq::empty(),
        Some(c) => refids(c.innerclass) + if inner_groups {
            refids(c.innergroup)
        } else {
            Seq::empty()
        },
    }
}

/// The ids of the compounds that rendering a compound's contents entry by
/// entry refers to: all its inner classes and inner groups.
pub open spec fn content_refs(d: SpecDoxygen) -> Seq<Seq<char>> {
    match d.compound_def {
        None => Seq::empty(),
        Some(c) => refids(c.innerclass) + refids(c.innergroup),
    }
}

/// Whether the store holds a compound for each of the ids.
pub open spec fn covers(store: SpecStore, ids: Seq<Seq<char>>) -> bool {
    forall|i: int| 0 <= i < ids.len() ==> #[trigger] lookup(store, ids[i]) is Some
}

/// Whether the store holds, for each compound in it, the compounds that
/// rendering it refers to.
pub open spec fn closed_store(store: SpecStore, inner_groups: bool) -> bool {
    forall|j: int| 0 <= j < store.len() ==> covers(store, needed_refs(#[trigger] store[j].1, inner_groups))
}

/// Whether a rendering failed for want of a compound.
pub open spec fn missing<T>(r: Result<T, SpecRenderError>) -> bool {
    match r {
        Err(SpecRenderError::MissingCompound(_)) => true,
        _ => false,
    }
}

proof fn lemma_lookup_in_store(store: SpecStore, id: Seq<char>)
    requires
        lookup(store, id) is Some,
    ensures
        exists|j: int| 0 <= j < store.len() && #[trigger] store[j].1 == lookup(store, id).unwrap(),
    decreases store.len(),
{
    if lookup(store.drop_last(), id) is Some {
        lemma_lookup_in_store(store.drop_last(), id);
        let j = choose|j: int| 0 <= j < store.drop_last().len() && #[trigger] store.drop_last()[j].1 == lookup(
            store.drop_last(),
            id,
        ).unwrap();
        assert(store[j].1 == lookup(store, id).unwrap());
    } else {
        assert(store[store.len() - 1].1 == lookup(store, id).unwrap());
    }
}

proof fn lemma_inner_found(
    skip: bool,
    caps: bool,
    refs: Seq<SpecRefType>,
    inner_groups: bool,
    store: SpecStore,
    fuel: nat,
)
    requires
        closed_store(store, inner_groups),
        covers(store, refids(refs)),
    ensures
        !missing(r_inner(skip, caps, refs, inner_groups, store, fuel)),
    decreases fuel, 0int, refs.len(),
{
    if refs.len() > 0 {
        assert forall|i: int| 0 <= i < refids(refs.drop_last()).len() implies #[trigger] lookup(
            store,
            refids(refs.drop_last())[i],
        ) is Some by {
            assert(refids(refs.drop_last())[i] == refids(refs)[i]);
        }
        lemma_inner_found(skip, caps, refs.drop_last(), inner_groups, store, fuel);
        let id = refs.last().refid;
        assert(refids(refs)[refs.len() - 1] == id);
        assert(lookup(store, id) is Some);
        if fuel > 0 {
            lemma_lookup_in_store(store, id);
            let root = lookup(store, id).unwrap();
            let j = choose|j: int| 0 <= j < store.len() && #[trigger] store[j].1 == root;
            assert(covers(store, needed_refs(store[j].1, inner_groups)));
            lemma_compound_found(skip, caps, root, inner_groups, store, (fuel - 1) as nat);
        }
    }
}

proof fn lemma_covers_parts(store: SpecStore, a: Seq<Seq<char>>, b: Seq<Seq<char>>)
    requires
        covers(store, a + b),
    ensures
        covers(store, a),
        covers(store, b),
{
    assert forall|i: int| 0 <= i < a.len() implies #[trigger] lookup(store, a[i]) is Some by {
        assert((a + b)[i] == a[i]);
    }
    assert forall|i: int| 0 <= i < b.len() implies #[trigger] lookup(store, b[i]) is Some by {
        assert((a + b)[a.len() + i] == b[i]);
    }
}

proof fn lemma_compound_found(
    skip: bool,
    caps: bool,
    root: SpecDoxygen,
    inner_groups: bool,
    store: SpecStore,
    fuel: nat,
)
    requires
        closed_store(store, inner_groups),
        covers(store, needed_refs(root, inner_groups)),
    ensures
        !missing(r_compound(skip, caps, root, inner_groups, store, fuel)),
    decreases fuel, 1int, 0int,
{
    match root.compound_def {
        None => {},
        Some(c) => {
            let groups = if inner_groups {
                refids(c.innergroup)
            } else {
                Seq::empty()
            };
            lemma_covers_parts(store, refids(c.innerclass), groups);
            lemma_inner_found(skip, caps, c.innerclass, inner_groups, store, fuel);
            if inner_groups {
                lemma_inner_found(skip, caps, c.innergroup, inner_groups, store, fuel);
            }
        },
    }
}

/// A store that holds the compounds a compound refers to, and for each
/// compound in it the compounds that one refers to, never lacks a compound
/// when that compound is rendered: rendering can fail only by nesting too
/// deep.
pub proof fn law_closed_store_renders_compound(
    skip: bool,
    caps: bool,
    root: SpecDoxygen,
    inner_groups: bool,
    store: SpecStore,
    fuel: nat,
)
    requires
        closed_store(store, inner_groups),
        covers(store, needed_refs(root, inner_groups)),
    ensures
        !missing(r_compound(skip, caps, root, inner_groups, store, fuel)),
{
    lemma_compound_found(skip, caps, root, inner_groups, store, fuel);
}

/// Whether the store holds the compound an entry of a compound's contents
/// refers to.
pub open spec fn entry_found(store: SpecStore, e: SpecCompoundDefEntry) -> bool {
    match e {
        SpecCompoundDefEntry::SectionDef(_) => true,
        SpecCompoundDefEntry::Class(t) => lookup(store, t.refid) is Some,
        SpecCompoundDefEntry::Group(t) => lookup(store, t.refid) is Some,
    }
}

proof fn lemma_contents_found(
    skip: bool,
    caps: bool,
    domain: Option<Domain>,
    es: Seq<SpecCompoundDefEntry>,
    inner_groups: bool,
    store: SpecStore,
    fuel: nat,
)
    requires
        closed_store(store, inner_groups),
        forall|k: int| 0 <= k < es.len() ==> entry_found(store, #[trigger] es[k]),
    ensures
        !missing(r_contents(skip, caps, domain, es, inner_groups, store, fuel)),
    decreases es.len(),
{
    if es.len() > 0 {
        assert forall|k: int| 0 <= k < es.drop_last().len() implies entry_found(store, #[trigger] es.drop_last()[k]) by {
            assert(es.drop_last()[k] == es[k]);
        }
        lemma_contents_found(skip, caps, domain, es.drop_last(), inner_groups, store, fuel);
        assert(entry_found(store, es[es.len() - 1]));
        match es.last() {
            SpecCompoundDefEntry::SectionDef(_) => {},
            SpecCompoundDefEntry::Class(t) => {
                lemma_lookup_in_store(store, t.refid);
                let root = lookup(store, t.refid).unwrap();
                let j = choose|j: int| 0 <= j < store.len() && #[trigger] store[j].1 == root;
                assert(covers(store, needed_refs(store[j].1, inner_groups)));
                lemma_compound_found(skip, caps, root, inner_groups, store, fuel);
            },
            SpecCompoundDefEntry::Group(t) => {
                lemma_lookup_in_store(store, t.refid);
                let root = lookup(store, t.refid).unwrap();
                let j = choose|j: int| 0 <= j < store.len() && #[trigger] store[j].1 == root;
                assert(covers(store, needed_refs(store[j].1, inner_groups)));
                lemma_compound_found(skip, caps, root, inner_groups, store, fuel);
            },
        }
    }
}

/// A closed store that holds all the inner classes and inner groups of a
/// compound never lacks a compound when that compound's contents are
/// rendered entry by entry.
pub proof fn law_closed_store_renders_contents(
    skip: bool,
    caps: bool,
    domain: Option<Domain>,
    root: SpecDoxygen,
    inner_groups: bool,
    store: SpecStore,
    fuel: nat,
)
    requires
        root.compound_def is Some,
        closed_store(store, inner_groups),
        covers(store, content_refs(root)),
    ensures
        !missing(
            r_contents(skip, caps, domain, spec_compounddef_contents(root.compound_def.unwrap()), inner_groups, store, fuel),
        ),
{
    let c = root.compound_def.unwrap();
    let es = spec_compounddef_contents(c);
    let a = c.innerclass.len();
    let b = c.innergroup.len();
    lemma_covers_parts(store, refids(c.innerclass), refids(c.innergroup));
    assert forall|k: int| 0 <= k < es.len() implies entry_found(store, #[trigger] es[k]) by {
        if k < a {
            assert(es[k] == SpecCompoundDefEntry::Class(c.innerclass[k]));
            assert(refids(c.innerclass)[k] == c.innerclass[k].refid);
        } else if k < a + b {
            assert(es[k] == SpecCompoundDefEntry::Group(c.innergroup[k - a]));
            assert(refids(c.innergroup)[k - a] == c.innergroup[k - a].refid);
        }
    }
    lemma_contents_found(skip, caps, domain, es, inner_groups, store, fuel);
}

fn push_refids(out: &mut Vec<String>, refs: &Vec<RefType>)
    ensures
        string_views(final(out)@) == string_views(old(out)@) + refids(view_refs(refs@)),
{
    let ghost start = string_views(out@);
    let n = refs.len();
    assert(start + refids(view_refs(refs@)).take(0) =~= start);
    for i in 0..n
        invariant
            n == refs.len(),
            string_views(out@) == start + refids(view_refs(refs@)).take(i as int),
    {
        let ghost before = string_views(out@);
        let id = refs[i].refid.clone();
        out.push(id);
        proof {
            assert(refids(view_refs(refs@))[i as int] == refs@[i as int].refid@);
            assert(string_views(out@) =~= before.push(id@));
            assert(refids(view_refs(refs@)).take(i + 1) =~= refids(view_refs(refs@)).take(i as int).push(id@));
        }
    }
    assert(refids(view_refs(refs@)).take(n as int) =~= refids(view_refs(refs@)));
}

/// The ids of the compounds that rendering `root` refers to, as
/// `needed_refs` states.
pub fn needed_refids(root: &DoxygenType, inner_groups: bool) -> (r: Vec<String>)
    ensures
        string_views(r@) == needed_refs(view_doxygen(*root), inner_groups),
{
    let mut out: Vec<String> = Vec::new();
    assert(string_views(out@) =~= Seq::empty());
    match &root.compound_def {
        None => {},
        Some(c) => {
            push_refids(&mut out, &c.innerclass);
            if inner_groups {
                push_refids(&mut out, &c.innergroup);
            } else {
                assert(string_views(out@) + Seq::<Seq<char>>::empty() =~= string_views(out@));
            }
            assert(Seq::<Seq<char>>::empty() + refids(view_refs(c.innerclass@)) =~= refids(view_refs(c.innerclass@)));
        },
    }
    out
}

/// The ids of the compounds that rendering `root`'s contents entry by entry
/// refers to, as `content_refs` states.
pub fn content_refids(root: &DoxygenType) -> (r: Vec<String>)
    ensures
        string_views(r@) == content_refs(view_doxygen(*root)),
{
    let mut out: Vec<String> = Vec::new();
    assert(string_views(out@) =~= Seq::empty());
    match &root.compound_def {
        None => {},
        Some(c) => {
            push_refids(&mut out, &c.innerclass);
            push_refids(&mut out, &c.innergroup);
            assert(Seq::<Seq<char>>::empty() + refids(view_refs(c.innerclass@)) =~= refids(view_refs(c.innerclass@)));
        },
    }
    out
}

} // verus!
