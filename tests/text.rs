use st_bridge::stb_common::{StbCommon, StbReinforcementStrengthList};
use st_bridge::stb_nodes::{StbNode, StbNodeKind, StbNodes};
use st_bridge::table::IdTable;
use st_bridge::text::{parse_bool, parse_i32, parse_u32, same_text, Real};
use st_bridge::xml::{extract_node, XmlAttribute, XmlNode, XmlTree};

#[test]
fn unsigned_integers() {
    assert_eq!(parse_u32("0"), Some(0));
    assert_eq!(parse_u32("+12"), Some(12));
    assert_eq!(parse_u32("007"), Some(7));
    assert_eq!(parse_u32("4294967295"), Some(4294967295));
    assert_eq!(parse_u32("4294967296"), None);
    assert_eq!(parse_u32("99999999999999"), None);
    assert_eq!(parse_u32("-1"), None);
    assert_eq!(parse_u32(""), None);
    assert_eq!(parse_u32("+"), None);
    assert_eq!(parse_u32("1.0"), None);
    assert_eq!(parse_u32(" 1"), None);
}

#[test]
fn signed_integers() {
    assert_eq!(parse_i32("-2147483648"), Some(-2147483648));
    assert_eq!(parse_i32("2147483647"), Some(2147483647));
    assert_eq!(parse_i32("2147483648"), None);
    assert_eq!(parse_i32("-2147483649"), None);
    assert_eq!(parse_i32("-0"), Some(0));
    assert_eq!(parse_i32("+5"), Some(5));
    assert_eq!(parse_i32("-"), None);
    assert_eq!(parse_i32("--1"), None);
}

#[test]
fn booleans() {
    assert_eq!(parse_bool("true"), Some(true));
    assert_eq!(parse_bool("false"), Some(false));
    assert_eq!(parse_bool("True"), None);
    assert_eq!(parse_bool("1"), None);
    assert_eq!(parse_bool(""), None);
}

#[test]
fn real_literals_agree_with_f64() {
    let good = ["0", "-0", "+3000", "1.", ".5", "1.5e-3", "2E10", "1e+7", "inf", "-Infinity", "NaN", "6000.25"];
    for s in good.iter() {
        let r = Real::parse(s).unwrap();
        assert_eq!(r.as_str(), *s);
        assert!(s.parse::<f64>().is_ok(), "{}", s);
    }
    let bad = ["", ".", "+", "1e", "e5", "1.2.3", "1e5.0", "abc", "in", "infinit", "0x10", " 1", "1,5", "--1"];
    for s in bad.iter() {
        assert!(Real::parse(s).is_none(), "{}", s);
        assert!(s.parse::<f64>().is_err(), "{}", s);
    }
}

#[test]
fn texts_compare_by_characters() {
    assert!(same_text("StbNode", "StbNode"));
    assert!(!same_text("StbNode", "StbNodes"));
    assert!(!same_text("a", "A"));
    assert!(same_text("", ""));
}

#[test]
fn id_table_replaces_in_place() {
    let mut t: IdTable<&str> = IdTable::new();
    t.insert(3, "a");
    t.insert(1, "b");
    t.insert(3, "c");
    assert_eq!(t.len(), 2);
    assert_eq!(t.get(3), Some(&"c"));
    assert_eq!(t.get(1), Some(&"b"));
    assert_eq!(t.get(2), None);
    assert_eq!(t.entries().clone(), vec![(3, "c"), (1, "b")]);
}

#[test]
fn node_table_insert_and_get() {
    let mut nodes = StbNodes::new();
    let n = StbNode {
        x: Real::parse("1").unwrap(),
        y: Real::parse("2").unwrap(),
        z: Real::parse("3").unwrap(),
        kind: StbNodeKind::OnGrid,
        id_member: None,
    };
    nodes.insert(8, n.clone());
    assert_eq!(nodes.get(8), Some(&n));
    assert_eq!(nodes.get(9), None);
}

#[test]
fn strength_list_insert_and_get() {
    let mut common = StbCommon::new();
    common.stb_reinforcement_strength_list.insert("D10".to_string(), "SD295".to_string());
    common.stb_reinforcement_strength_list.insert("D10".to_string(), "SD345".to_string());
    assert_eq!(common.stb_reinforcement_strength_list.get("D10".to_string()), Some(&"SD345".to_string()));
    assert_eq!(common.stb_reinforcement_strength_list.get("D13".to_string()), None);
    let empty = StbReinforcementStrengthList::new();
    assert!(empty.entries().is_empty());
}

#[test]
fn tree_from_nodes_checks_child_indices() {
    let root = XmlNode { is_element: false, name: String::new(), attributes: vec![], children: vec![1] };
    let elem = XmlNode {
        is_element: true,
        name: "e".to_string(),
        attributes: vec![XmlAttribute { name: "a".to_string(), value: "V".to_string() }],
        children: vec![],
    };
    let t = XmlTree::from_nodes(vec![root.clone(), elem.clone()]).unwrap();
    assert_eq!(t.find_root_element(), Some(1));
    assert_eq!(t.attribute(1, "a"), Some("V"));
    assert_eq!(t.attribute(1, "b"), None);
    assert_eq!(extract_node(&t, "e", 0), Some(1));
    assert_eq!(t.child_elements_of(0), vec![1]);
    let bad = XmlNode { children: vec![5], ..root };
    assert!(XmlTree::from_nodes(vec![bad, elem]).is_err());
    assert!(XmlTree::from_nodes(vec![]).is_err());
}

#[test]
fn parsed_tree_keeps_document_order_and_kinds() {
    let t = XmlTree::parse("<!-- c --><a x=\"1\"><b/>text<c y=\"2\"/></a>").unwrap();
    let root = t.find_root_element().unwrap();
    assert_eq!(t.nodes[root].name, "a");
    let kids = t.child_elements_of(root);
    assert_eq!(kids.len(), 2);
    assert_eq!(t.nodes[kids[0]].name, "b");
    assert_eq!(t.nodes[kids[1]].name, "c");
    assert_eq!(t.attribute(kids[1], "y"), Some("2"));
    assert_eq!(t.nodes[root].children.len(), 3);
}
