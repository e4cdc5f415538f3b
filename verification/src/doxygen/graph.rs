//! The content of the mermaid class diagram that stands for a compound's
//! inheritance graph.
use vstd::prelude::*;

use crate::doxygen::compound::elements::{GraphType, NodeType};
use crate::strings::{join, join_strings, occurs_at, push_char, str_eq, string_views};

verus! {

/// The model of a graph node: its id, label and the ids of its children.
pub struct SpecGraphNode {
    pub id: Seq<char>,
    pub label: Seq<char>,
    pub children: Seq<Seq<char>>,
}

pub open spec fn view_graph_node(n: NodeType) -> SpecGraphNode {
    SpecGraphNode { id: n.id@, label: n.label@, children: n.childnode@.map_values(|c: crate::doxygen::compound::elements::ChildnodeType| c.refid@) }
}

pub open spec fn view_graph_nodes(s: Seq<NodeType>) -> Seq<SpecGraphNode> {
    s.map_values(|n: NodeType| view_graph_node(n))
}

/// The node that an id names: the last node with that id, as a map filled
/// from the nodes in order keeps it.
pub open spec fn node_with_id(nodes: Seq<SpecGraphNode>, id: Seq<char>) -> Option<SpecGraphNode>
    decreases nodes.len(),
{
    if nodes.len() == 0 {
        None
    } else if nodes.last().id == id {
        Some(nodes.last())
    } else {
        node_with_id(nodes.drop_last(), id)
    }
}

/// The diagram lines of the edges from `node` to the children `ids` that name
/// a node: `parent <|-- child`, the parent being the linked node.
pub open spec fn edge_lines(all: Seq<SpecGraphNode>, node: SpecGraphNode, ids: Seq<Seq<char>>) -> Seq<Seq<char>>
    decreases ids.len(),
{
    if ids.len() == 0 {
        Seq::empty()
    } else {
        let rest = edge_lines(all, node, ids.drop_last());
        match node_with_id(all, ids.last()) {
            Some(linked) => rest.push(linked.label + " <|-- "@ + node.label),
            None => rest,
        }
    }
}

/// The diagram lines of the edges of the nodes, node by node.
pub open spec fn graph_lines(all: Seq<SpecGraphNode>, nodes: Seq<SpecGraphNode>) -> Seq<Seq<char>>
    decreases nodes.len(),
{
    if nodes.len() == 0 {
        Seq::empty()
    } else {
        graph_lines(all, nodes.drop_last()) + edge_lines(all, nodes.last(), nodes.last().children)
    }
}

/// Each line indented by four spaces.
pub open spec fn indented(lines: Seq<Seq<char>>) -> Seq<Seq<char>>
    decreases lines.len(),
{
    if lines.len() == 0 {
        Seq::empty()
    } else {
        indented(lines.drop_last()).push("    "@ + lines.last())
    }
}

/// The content of the class diagram: `classDiagram`, then one indented line
/// per edge, each line ended by a line break.
pub open spec fn spec_class_diagram(nodes: Seq<SpecGraphNode>) -> Seq<char> {
    "classDiagram\n"@ + join(indented(graph_lines(nodes, nodes)), "\n"@) + "\n"@
}

fn find_node<'a>(graph: &'a GraphType, id: &str) -> (r: Option<&'a NodeType>)
    ensures
        match node_with_id(view_graph_nodes(graph.node@), id@) {
            Some(n) => r matches Some(x) && view_graph_node(*x) == n,
            None => r is None,
        },
{
    let ghost all = view_graph_nodes(graph.node@);
    let mut i = graph.node.len();
    assert(all.take(i as int) =~= all);
    while i > 0
        invariant
            i <= graph.node.len(),
            all == view_graph_nodes(graph.node@),
            node_with_id(all, id@) == node_with_id(all.take(i as int), id@),
        decreases i,
    {
        proof {
            assert(all.take(i as int).drop_last() =~= all.take(i - 1));
            assert(all.take(i as int).last() == view_graph_node(graph.node@[i - 1]));
        }
        if str_eq(graph.node[i - 1].id.as_str(), id) {
            return Some(&graph.node[i - 1]);
        }
        i = i - 1;
    }
    assert(all.take(0) =~= Seq::<SpecGraphNode>::empty());
    None
}

/// The content of the mermaid class diagram of a graph, as
/// `spec_class_diagram` states.
pub fn class_diagram(graph: &GraphType) -> (r: String)
    ensures
        r@ == spec_class_diagram(view_graph_nodes(graph.node@)),
{
    let ghost all = view_graph_nodes(graph.node@);
    let mut lines: Vec<String> = Vec::new();
    let n = graph.node.len();
    proof {
        reveal_strlit(" <|-- ");
        reveal_strlit("    ");
    }
    for i in 0..n
        invariant
            n == graph.node.len(),
            all == view_graph_nodes(graph.node@),
            string_views(lines@) == indented(graph_lines(all, all.take(i as int))),
    {
        let node = &graph.node[i];
        let ghost gn = view_graph_node(*node);
        let ghost before_all = string_views(lines@);
        assert(all[i as int] == gn);
        let m = node.childnode.len();
        for j in 0..m
            invariant
                m == node.childnode.len(),
                all == view_graph_nodes(graph.node@),
                gn == view_graph_node(*node),
                before_all == indented(graph_lines(all, all.take(i as int))),
                string_views(lines@) == indented(graph_lines(all, all.take(i as int)) + edge_lines(all, gn, gn.children.take(j as int))),
        {
            let ghost before = string_views(lines@);
            proof {
                assert(gn.children.take(j + 1).drop_last() =~= gn.children.take(j as int));
                assert(gn.children.take(j + 1).last() == node.childnode@[j as int].refid@);
            }
            match find_node(graph, node.childnode[j].refid.as_str()) {
                Some(linked) => {
                    let mut line = "    ".to_owned();
                    line.append(linked.label.as_str());
                    line.append(" <|-- ");
                    line.append(node.label.as_str());
                    let ghost ln = linked.label@ + " <|-- "@ + gn.label;
                    assert(line@ =~= "    "@ + ln);
                    lines.push(line);
                    proof {
                        let g = graph_lines(all, all.take(i as int));
                        let e = edge_lines(all, gn, gn.children.take(j as int));
                        assert(edge_lines(all, gn, gn.children.take(j + 1)) == e.push(ln));
                        assert((g + e.push(ln)).drop_last() =~= g + e);
                        assert((g + e.push(ln)).last() == ln);
                        assert(string_views(lines@) =~= before.push("    "@ + ln));
                    }
                },
                None => {
                    proof {
                        let e = edge_lines(all, gn, gn.children.take(j as int));
                        assert(edge_lines(all, gn, gn.children.take(j + 1)) == e);
                    }
                },
            }
        }
        proof {
            assert(gn.children.take(m as int) =~= gn.children);
            assert(all.take(i + 1).drop_last() =~= all.take(i as int));
            assert(all.take(i + 1).last() == gn);
        }
    }
    assert(all.take(n as int) =~= all);
    let body = join_strings(&lines, "\n");
    let mut content = "classDiagram\n".to_owned();
    content.append(body.as_str());
    content.append("\n");
    content
}

// ---------------------------------------------------------------------------
// Every edge is drawn

/// The line of the edge from a node to the node that a child id names.
pub open spec fn edge_line(linked: SpecGraphNode, node: SpecGraphNode) -> Seq<char> {
    linked.label + " <|-- "@ + node.label
}

proof fn lemma_edge_in_edge_lines(all: Seq<SpecGraphNode>, node: SpecGraphNode, ids: Seq<Seq<char>>, j: int)
    requires
        0 <= j < ids.len(),
        node_with_id(all, ids[j]) is Some,
    ensures
        exists|m: int|
            0 <= m < edge_lines(all, node, ids).len() && #[trigger] edge_lines(all, node, ids)[m] == edge_line(
                node_with_id(all, ids[j]).unwrap(),
                node,
            ),
    decreases ids.len(),
{
    let rest = edge_lines(all, node, ids.drop_last());
    if j == ids.len() - 1 {
        let m = rest.len() as int;
        assert(ids.last() == ids[j]);
        assert(edge_lines(all, node, ids) == rest.push(edge_line(node_with_id(all, ids[j]).unwrap(), node)));
        assert(edge_lines(all, node, ids)[m] == edge_line(node_with_id(all, ids[j]).unwrap(), node));
    } else {
        assert(ids.drop_last()[j] == ids[j]);
        lemma_edge_in_edge_lines(all, node, ids.drop_last(), j);
        let m = choose|m: int|
            0 <= m < rest.len() && #[trigger] rest[m] == edge_line(node_with_id(all, ids[j]).unwrap(), node);
        match node_with_id(all, ids.last()) {
            Some(linked) => assert(edge_lines(all, node, ids)[m] == rest[m]),
            None => assert(edge_lines(all, node, ids)[m] == rest[m]),
        }
    }
}

proof fn lemma_edge_in_graph_lines(all: Seq<SpecGraphNode>, nodes: Seq<SpecGraphNode>, i: int, j: int)
    requires
        0 <= i < nodes.len(),
        0 <= j < nodes[i].children.len(),
        node_with_id(all, nodes[i].children[j]) is Some,
    ensures
        exists|m: int|
            0 <= m < graph_lines(all, nodes).len() && #[trigger] graph_lines(all, nodes)[m] == edge_line(
                node_with_id(all, nodes[i].children[j]).unwrap(),
                nodes[i],
            ),
    decreases nodes.len(),
{
    let front = graph_lines(all, nodes.drop_last());
    let line = edge_line(node_with_id(all, nodes[i].children[j]).unwrap(), nodes[i]);
    if i == nodes.len() - 1 {
        lemma_edge_in_edge_lines(all, nodes.last(), nodes.last().children, j);
        let e = edge_lines(all, nodes.last(), nodes.last().children);
        let m = choose|m: int| 0 <= m < e.len() && #[trigger] e[m] == line;
        assert(graph_lines(all, nodes)[front.len() + m] == line);
    } else {
        assert(nodes.drop_last()[i] == nodes[i]);
        lemma_edge_in_graph_lines(all, nodes.drop_last(), i, j);
        let m = choose|m: int| 0 <= m < front.len() && #[trigger] front[m] == line;
        assert(graph_lines(all, nodes)[m] == line);
    }
}

proof fn lemma_indented(lines: Seq<Seq<char>>, m: int)
    requires
        0 <= m < lines.len(),
    ensures
        indented(lines).len() == lines.len(),
        indented(lines)[m] == "    "@ + lines[m],
    decreases lines.len(),
{
    lemma_indented_len(lines);
    if m < lines.len() - 1 {
        lemma_indented(lines.drop_last(), m);
    }
}

proof fn lemma_indented_len(lines: Seq<Seq<char>>)
    ensures
        indented(lines).len() == lines.len(),
    decreases lines.len(),
{
    if lines.len() > 0 {
        lemma_indented_len(lines.drop_last());
    }
}

/// In a list joined by one separator character, each part stands between
/// the start or a separator and the end or a separator.
proof fn lemma_join_part(parts: Seq<Seq<char>>, sep: char, m: int)
    requires
        0 <= m < parts.len(),
    ensures
        exists|a: Seq<char>, b: Seq<char>|
            #![trigger a + parts[m] + b]
            join(parts, seq![sep]) == a + parts[m] + b && (a.len() == 0 || a.last() == sep) && (b.len() == 0
                || b[0] == sep),
    decreases parts.len(),
{
    let s = seq![sep];
    if parts.len() == 1 {
        let e = Seq::<char>::empty();
        assert(join(parts, s) =~= e + parts[m] + e);
    } else if m == parts.len() - 1 {
        let a = join(parts.drop_last(), s) + s;
        let e = Seq::<char>::empty();
        assert(join(parts, s) =~= a + parts[m] + e);
        assert(a.last() == sep);
    } else {
        lemma_join_part(parts.drop_last(), sep, m);
        assert(parts.drop_last()[m] == parts[m]);
        let (a, b0) = choose|a: Seq<char>, b: Seq<char>|
            #![trigger a + parts.drop_last()[m] + b]
            join(parts.drop_last(), s) == a + parts.drop_last()[m] + b && (a.len() == 0 || a.last() == sep) && (
            b.len() == 0 || b[0] == sep);
        let b = b0 + s + parts.last();
        assert(join(parts, s) =~= a + parts[m] + b);
        assert(b0.len() == 0 ==> b[0] == sep);
        assert(b0.len() > 0 ==> b[0] == b0[0]);
    }
}

/// Every edge of the graph is drawn: for every node and every child id of it
/// that names a node of the graph, the diagram has the line
/// `    <linked label> <|-- <node label>` of its own.
pub proof fn law_class_diagram_draws_every_edge(nodes: Seq<SpecGraphNode>, i: int, j: int)
    requires
        0 <= i < nodes.len(),
        0 <= j < nodes[i].children.len(),
        node_with_id(nodes, nodes[i].children[j]) is Some,
    ensures
        exists|k: int|
            occurs_at(
                spec_class_diagram(nodes),
                "\n    "@ + edge_line(node_with_id(nodes, nodes[i].children[j]).unwrap(), nodes[i]) + "\n"@,
                k,
            ),
{
    reveal_strlit("\n");
    reveal_strlit("    ");
    reveal_strlit("\n    ");
    reveal_strlit("classDiagram\n");
    let line = edge_line(node_with_id(nodes, nodes[i].children[j]).unwrap(), nodes[i]);
    let g = graph_lines(nodes, nodes);
    lemma_edge_in_graph_lines(nodes, nodes, i, j);
    let m = choose|m: int| 0 <= m < g.len() && #[trigger] g[m] == line;
    let lines = indented(g);
    lemma_indented(g, m);
    let x = "    "@ + line;
    assert(lines[m] == x);
    assert("\n"@ =~= seq!['\n']);
    lemma_join_part(lines, '\n', m);
    let (a, b) = choose|a: Seq<char>, b: Seq<char>|
        #![trigger a + lines[m] + b]
        join(lines, seq!['\n']) == a + lines[m] + b && (a.len() == 0 || a.last() == '\n') && (b.len() == 0 || b[0]
            == '\n');
    let h = "classDiagram\n"@;
    let text = spec_class_diagram(nodes);
    assert(h.len() == 13 && h[12] == '\n');
    assert(text =~= h + a + x + b + "\n"@);
    let piece = "\n    "@ + line + "\n"@;
    assert(piece =~= seq!['\n'] + x + seq!['\n']);
    let k = h.len() + a.len() - 1;
    assert(text[k] == '\n');
    assert(text[k + 1 + x.len()] == '\n');
    assert(text.subrange(k, k + piece.len()) =~= piece);
    assert(occurs_at(text, piece, k));
}

// ---------------------------------------------------------------------------
// File names

/// The lower-case hexadecimal digit of a number below sixteen.
pub open spec fn hex_digit(d: nat) -> char {
    if d == 0 {
        '0'
    } else if d == 1 {
        '1'
    } else if d == 2 {
        '2'
    } else if d == 3 {
        '3'
    } else if d == 4 {
        '4'
    } else if d == 5 {
        '5'
    } else if d == 6 {
        '6'
    } else if d == 7 {
        '7'
    } else if d == 8 {
        '8'
    } else if d == 9 {
        '9'
    } else if d == 10 {
        'a'
    } else if d == 11 {
        'b'
    } else if d == 12 {
        'c'
    } else if d == 13 {
        'd'
    } else if d == 14 {
        'e'
    } else {
        'f'
    }
}

/// A number in lower-case hexadecimal, without leading zeros.
pub open spec fn hex(n: nat) -> Seq<char>
    decreases n,
{
    if n < 16 {
        seq![hex_digit(n)]
    } else {
        hex(n / 16).push(hex_digit(n % 16))
    }
}

fn hex_digit_exec(d: u64) -> (c: char)
    requires
        d < 16,
    ensures
        c == hex_digit(d as nat),
{
    match d {
        0 => '0',
        1 => '1',
        2 => '2',
        3 => '3',
        4 => '4',
        5 => '5',
        6 => '6',
        7 => '7',
        8 => '8',
        9 => '9',
        10 => 'a',
        11 => 'b',
        12 => 'c',
        13 => 'd',
        14 => 'e',
        15 => 'f',
        _ => 'f',
    }
}

fn push_hex(out: &mut String, n: u64)
    ensures
        final(out)@ == old(out)@ + hex(n as nat),
    decreases n,
{
    if n >= 16 {
        push_hex(out, n / 16);
    }
    push_char(out, hex_digit_exec(n % 16));
    proof {
        if n < 16 {
            assert(n % 16 == n);
            assert(old(out)@ + hex(n as nat) =~= old(out)@.push(hex_digit(n as nat)));
        } else {
            assert(old(out)@ + hex(n as nat) =~= (old(out)@ + hex((n / 16) as nat)).push(hex_digit((n % 16) as nat)));
        }
    }
}

/// The names of the mermaid source file and of the image drawn from it for a
/// compound's class diagram: the hash of the diagram's content in lower-case
/// hexadecimal, `_`, the compound's id, and `.mmd` or `.svg`.
pub fn diagram_file_names(hash: u64, compound_id: &str) -> (r: (String, String))
    ensures
        r.0@ == hex(hash as nat) + "_"@ + compound_id@ + ".mmd"@,
        r.1@ == hex(hash as nat) + "_"@ + compound_id@ + ".svg"@,
{
    let mut stem = String::new();
    push_hex(&mut stem, hash);
    stem.append("_");
    stem.append(compound_id);
    let mut mmd = stem.clone();
    mmd.append(".mmd");
    let mut svg = stem;
    svg.append(".svg");
    (mmd, svg)
}

} // verus!
