use docleaf::doxygen::compound::elements::{ChildnodeType, DoxGraphRelation, GraphType, NodeType};
use docleaf::doxygen::graph::{class_diagram, diagram_file_names};

fn node(id: &str, label: &str, children: &[&str]) -> NodeType {
    NodeType {
        id: id.to_string(),
        label: label.to_string(),
        link: None,
        childnode: children
            .iter()
            .map(|c| ChildnodeType { refid: c.to_string(), relation: DoxGraphRelation::PublicInheritance })
            .collect(),
    }
}

#[test]
fn diagram_lists_each_inheritance_edge() {
    let graph = GraphType { node: vec![node("1", "Derived", &["2"]), node("2", "Base", &[])] };
    assert_eq!(class_diagram(&graph), "classDiagram\n    Base <|-- Derived\n");
}

#[test]
fn diagram_skips_children_without_a_node() {
    let graph = GraphType { node: vec![node("1", "Derived", &["9", "2", "3"]), node("2", "A", &[]), node("3", "B", &[])] };
    assert_eq!(class_diagram(&graph), "classDiagram\n    A <|-- Derived\n    B <|-- Derived\n");
}

#[test]
fn diagram_of_a_graph_without_edges() {
    let graph = GraphType { node: vec![node("1", "Alone", &[])] };
    assert_eq!(class_diagram(&graph), "classDiagram\n\n");
}

#[test]
fn diagram_takes_the_last_node_of_a_repeated_id() {
    let graph = GraphType { node: vec![node("1", "C", &["2"]), node("2", "First", &[]), node("2", "Second", &[])] };
    assert_eq!(class_diagram(&graph), "classDiagram\n    Second <|-- C\n");
}

#[test]
fn diagram_file_names_are_the_hash_in_hex_and_the_compound_id() {
    let (mmd, svg) = diagram_file_names(0x1f0a, "class_a");
    assert_eq!(mmd, "1f0a_class_a.mmd");
    assert_eq!(svg, "1f0a_class_a.svg");
    let (mmd, _) = diagram_file_names(0, "c");
    assert_eq!(mmd, "0_c.mmd");
    let (_, svg) = diagram_file_names(u64::MAX, "c");
    assert_eq!(svg, format!("{:x}_c.svg", u64::MAX));
}
