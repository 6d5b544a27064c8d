use st_bridge::error::StbError;
use st_bridge::stb_members::{ColumnStructureKind, GirderStructureKind, HaunchType, JointCondition, StbMember};
use st_bridge::stb_model::{parse_st_bridge, StBridge};
use st_bridge::stb_nodes::StbNodeKind;
use st_bridge::stb_axes_and_stories::StbStoryKind;

fn document(common: &str, model: &str, extensions: &str) -> String {
    format!(
        "<?xml version=\"1.0\" encoding=\"utf-8\"?>\n<ST_BRIDGE xmlns=\"http://www.building-smart.or.jp/dl\" version=\"1.4.00\">\n<StbCommon><StbReinforcement_Strength_List>{}</StbReinforcement_Strength_List></StbCommon>\n<StbModel>{}</StbModel>\n<StbExtensions>{}</StbExtensions>\n</ST_BRIDGE>",
        common, model, extensions
    )
}

fn model(nodes: &str, axes: &str, stories: &str, members: &str, sections: &str) -> String {
    format!(
        "<StbNodes>{}</StbNodes><StbAxes>{}</StbAxes><StbStories>{}</StbStories><StbMembers>{}</StbMembers><StbSections>{}</StbSections>",
        nodes, axes, stories, members, sections
    )
}

const TWO_NODES: &str = "<StbNode id=\"1\" x=\"0\" y=\"0\" z=\"0\" kind=\"ON_COLUMN\"/>\n<StbNode id=\"2\" x=\"0\" y=\"0\" z=\"3000\" kind=\"ON_COLUMN\"/>";
const ONE_COLUMN: &str = "<StbColumns><StbColumn id=\"10\" name=\"C1\" idNode_bottom=\"1\" idNode_top=\"2\" rotate=\"0\" id_section=\"1\" kind_structure=\"S\" offset_X=\"0\" offset_Y=\"0\" condition_bottom=\"FIX\" condition_top=\"FIX\"/></StbColumns>";

fn parse_model(nodes: &str, members: &str, sections: &str) -> Result<StBridge, StbError> {
    parse_st_bridge(&document("", &model(nodes, "", "", members, sections), ""))
}

#[test]
fn minimal_document_with_one_column_resolves_to_its_two_nodes() {
    let doc = parse_model(TWO_NODES, ONE_COLUMN, "").unwrap();
    assert_eq!(doc.version, "1.4.00");
    assert_eq!(doc.stb_model.stb_nodes.map.len(), 2);
    assert_eq!(doc.stb_model.stb_members.stb_columns.len(), 1);
    let pairs = doc.members().unwrap();
    assert_eq!(pairs.len(), 1);
    let n1 = doc.stb_model.stb_nodes.get(1).unwrap();
    let n2 = doc.stb_model.stb_nodes.get(2).unwrap();
    assert_eq!(pairs[0].0, n1);
    assert_eq!(pairs[0].1, n2);
    assert_eq!(pairs[0].1.z.as_str(), "3000");
    assert_eq!(pairs[0].0.kind, StbNodeKind::OnColumn);
    match doc.stb_model.stb_members.stb_columns.get(10).unwrap() {
        StbMember::StbColumn { id, name, id_node_bottom, id_node_top, kind_structure, condition_bottom, condition_top, .. } => {
            assert_eq!(*id, 10);
            assert_eq!(name, "C1");
            assert_eq!(*id_node_bottom, 1);
            assert_eq!(*id_node_top, 2);
            assert_eq!(*kind_structure, ColumnStructureKind::S);
            assert_eq!(*condition_bottom, JointCondition::Fix);
            assert_eq!(*condition_top, JointCondition::Fix);
        }
        other => panic!("not a column: {:?}", other),
    }
}

#[test]
fn duplicate_node_ids_keep_the_last_value_and_first_position() {
    let nodes = "<StbNode id=\"5\" x=\"1\" y=\"1\" z=\"1\" kind=\"ON_GRID\"/>\n<StbNode id=\"7\" x=\"2\" y=\"2\" z=\"2\" kind=\"ON_BEAM\"/>\n<StbNode id=\"5\" x=\"9\" y=\"8\" z=\"7\" kind=\"OTHER\" id_member=\"3\"/>";
    let doc = parse_model(nodes, "", "").unwrap();
    let table = &doc.stb_model.stb_nodes.map;
    assert_eq!(table.len(), 2);
    let keys: Vec<u32> = table.entries().iter().map(|e| e.0).collect();
    assert_eq!(keys, vec![5, 7]);
    let n5 = doc.stb_model.stb_nodes.get(5).unwrap();
    assert_eq!(n5.x.as_str(), "9");
    assert_eq!(n5.kind, StbNodeKind::Other);
    assert_eq!(n5.id_member, Some(3));
    assert_eq!(doc.stb_model.stb_nodes.get(7).unwrap().id_member, None);
    assert!(doc.stb_model.stb_nodes.get(6).is_none());
}

#[test]
fn numeric_and_boolean_text_is_read_in_any_case() {
    let members = "<StbGirders><StbGirder id=\"3\" name=\"G1\" idNode_start=\"1\" idNode_end=\"2\" rotate=\"0\" id_section=\"4\" kind_structure=\"RC\" isFoundation=\"TRUE\" offset=\"1E2\" level=\"-INF\" type_haunch_H=\"BOTH\"/></StbGirders>";
    let doc = parse_model(TWO_NODES, members, "").unwrap();
    match doc.stb_model.stb_members.stb_girders.get(3).unwrap() {
        StbMember::StbGirder { is_foundation, offset, level, kind_structure, type_haunch_h, .. } => {
            assert!(*is_foundation);
            assert_eq!(offset.as_str(), "1e2");
            assert_eq!(level.as_str(), "-inf");
            assert_eq!(*kind_structure, GirderStructureKind::RC);
            assert_eq!(*type_haunch_h, Some(HaunchType::Both));
        }
        other => panic!("not a girder: {:?}", other),
    }
}

#[test]
fn enumeration_labels_must_match_exactly() {
    let nodes = "<StbNode id=\"1\" x=\"0\" y=\"0\" z=\"0\" kind=\"On_Column\"/>";
    let err = parse_model(nodes, "", "").unwrap_err();
    assert_eq!(err, StbError::InvalidAttribute { name: "kind".to_string(), value: "On_Column".to_string() });
}

#[test]
fn optional_haunch_type_absent_is_none_and_bad_label_fails() {
    let ok = "<StbGirders><StbGirder id=\"3\" name=\"G1\" idNode_start=\"1\" idNode_end=\"2\" rotate=\"0\" id_section=\"4\" kind_structure=\"S\" isFoundation=\"false\" offset=\"0\" level=\"0\"/></StbGirders>";
    let doc = parse_model(TWO_NODES, ok, "").unwrap();
    match doc.stb_model.stb_members.stb_girders.get(3).unwrap() {
        StbMember::StbGirder { type_haunch_h, .. } => assert_eq!(*type_haunch_h, None),
        other => panic!("not a girder: {:?}", other),
    }
    let bad = ok.replace("level=\"0\"", "level=\"0\" type_haunch_H=\"both\"");
    let err = parse_model(TWO_NODES, &bad, "").unwrap_err();
    assert_eq!(err, StbError::InvalidAttribute { name: "type_haunch_H".to_string(), value: "both".to_string() });
}

#[test]
fn unsupported_member_groups_are_passed_over() {
    let members = format!("<StbFootings><StbFooting id=\"1\"/></StbFootings><StbWalls/>{}<StbSomethingElse/>", ONE_COLUMN);
    let doc = parse_model(TWO_NODES, &members, "").unwrap();
    let ms = &doc.stb_model.stb_members;
    assert_eq!(ms.stb_columns.len(), 1);
    assert_eq!(ms.stb_posts.len(), 0);
    assert_eq!(ms.stb_girders.len(), 0);
    assert_eq!(ms.stb_beams.len(), 0);
    assert_eq!(ms.stb_braces.len(), 0);
    assert_eq!(ms.stb_slabs.len(), 0);
}

#[test]
fn a_later_group_of_the_same_kind_replaces_the_earlier() {
    let second = ONE_COLUMN.replace("id=\"10\"", "id=\"11\"");
    let members = format!("{}{}", ONE_COLUMN, second);
    let doc = parse_model(TWO_NODES, &members, "").unwrap();
    let cols = &doc.stb_model.stb_members.stb_columns;
    assert_eq!(cols.len(), 1);
    assert!(cols.get(11).is_some());
    assert!(cols.get(10).is_none());
}

#[test]
fn missing_attribute_is_reported_by_name() {
    let nodes = "<StbNode id=\"1\" x=\"0\" y=\"0\" kind=\"ON_COLUMN\"/>";
    let err = parse_model(nodes, "", "").unwrap_err();
    assert_eq!(err, StbError::MissingAttribute { name: "z".to_string() });
}

#[test]
fn unreadable_number_is_reported_with_its_text() {
    let nodes = "<StbNode id=\"1\" x=\"abc\" y=\"0\" z=\"0\" kind=\"ON_COLUMN\"/>";
    let err = parse_model(nodes, "", "").unwrap_err();
    assert_eq!(err, StbError::InvalidAttribute { name: "x".to_string(), value: "abc".to_string() });
    let nodes = "<StbNode id=\"-1\" x=\"0\" y=\"0\" z=\"0\" kind=\"ON_COLUMN\"/>";
    let err = parse_model(nodes, "", "").unwrap_err();
    assert_eq!(err, StbError::InvalidAttribute { name: "id".to_string(), value: "-1".to_string() });
}

#[test]
fn missing_container_is_reported_by_name() {
    let text = "<ST_BRIDGE version=\"2\"><StbCommon><StbReinforcement_Strength_List/></StbCommon><StbExtensions/></ST_BRIDGE>";
    assert_eq!(parse_st_bridge(text).unwrap_err(), StbError::MissingElement { name: "StbModel".to_string() });
    let text = document("", "<StbNodes/><StbAxes/><StbStories/><StbMembers/>", "");
    assert_eq!(parse_st_bridge(&text).unwrap_err(), StbError::MissingElement { name: "StbSections".to_string() });
}

#[test]
fn missing_version_is_an_error() {
    let text = "<ST_BRIDGE><StbCommon><StbReinforcement_Strength_List/></StbCommon><StbModel/><StbExtensions/></ST_BRIDGE>";
    assert_eq!(parse_st_bridge(text).unwrap_err(), StbError::MissingAttribute { name: "version".to_string() });
}

#[test]
fn text_that_is_not_xml_is_an_error() {
    match parse_st_bridge("<ST_BRIDGE version=\"1\"><StbModel></ST_BRIDGE>") {
        Err(StbError::Xml { message }) => assert!(!message.is_empty()),
        other => panic!("expected an XML error: {:?}", other),
    }
}

#[test]
fn member_with_unknown_node_fails_to_resolve() {
    let members = ONE_COLUMN.replace("idNode_top=\"2\"", "idNode_top=\"99\"");
    let doc = parse_model(TWO_NODES, &members, "").unwrap();
    assert_eq!(doc.members().unwrap_err(), StbError::UnknownNode { id: 99 });
}

#[test]
fn slabs_have_no_end_nodes() {
    let members = "<StbSlabs><StbSlab id=\"40\" name=\"S1\" id_section=\"2\" kind_structure=\"RC\" kind_slab=\"NORMAL\" level=\"0\" isFoundation=\"false\"/></StbSlabs>";
    let doc = parse_model(TWO_NODES, members, "").unwrap();
    assert_eq!(doc.stb_model.stb_members.stb_slabs.len(), 1);
    assert_eq!(doc.members().unwrap_err(), StbError::NoEndpoints { member: 40 });
}

#[test]
fn members_resolve_in_kind_order() {
    let members = "<StbBraces><StbBrace id=\"1\" name=\"V1\" idNode_start=\"2\" idNode_end=\"1\" rotate=\"0\" id_section=\"1\" kind_structure=\"S\" offset_start_X=\"0\" offset_start_Y=\"0\" offset_start_Z=\"0\" offset_end_X=\"0\" offset_end_Y=\"0\" offset_end_Z=\"0\" condition_start=\"PIN\" condition_end=\"PIN\"/></StbBraces>\
<StbBeams><StbBeam id=\"2\" name=\"B1\" idNode_start=\"1\" idNode_end=\"1\" rotate=\"0\" id_section=\"1\" kind_structure=\"S\" isFoundation=\"false\" offset=\"0\" level=\"0\"/></StbBeams>\
<StbPosts><StbPost id=\"3\" name=\"P1\" idNode_bottom=\"2\" idNode_top=\"2\" rotate=\"0\" id_section=\"1\" kind_structure=\"RC\" offset_X=\"0\" offset_Y=\"0\" offset_bottom_X=\"0\" offset_bottom_Y=\"0\" offset_bottom_Z=\"0\" offset_top_X=\"0\" offset_top_Y=\"0\" offset_top_Z=\"0\" condition_bottom=\"PIN\" condition_top=\"FIX\"/></StbPosts>";
    let doc = parse_model(TWO_NODES, members, "").unwrap();
    let pairs = doc.members().unwrap();
    let z: Vec<(&str, &str)> = pairs.iter().map(|p| (p.0.z.as_str(), p.1.z.as_str())).collect();
    assert_eq!(z, vec![("3000", "3000"), ("0", "0"), ("3000", "0")]);
}

#[test]
fn axes_and_stories_keep_document_order() {
    let axes = "<StbX_Axis id=\"1\" name=\"X1\" distance=\"0\"><StbNodeid_List><StbNodeid id=\"1\"/><StbNodeid id=\"2\"/></StbNodeid_List></StbX_Axis>\
<StbY_Axis id=\"2\" name=\"Y1\" distance=\"6000.5\"><StbNodeid_List/></StbY_Axis>\
<StbX_Axis id=\"3\" name=\"X2\" distance=\"7200\"><StbNodeid_List><StbNodeid id=\"-4\"/></StbNodeid_List></StbX_Axis>";
    let stories = "<StbStory id=\"1\" name=\"1FL\" height=\"0\" kind=\"GENERAL\" concrete_strength=\"Fc24\"><StbNodeid_List><StbNodeid id=\"1\"/></StbNodeid_List></StbStory>";
    let doc = parse_st_bridge(&document("", &model("", axes, stories, "", ""), "")).unwrap();
    let x = &doc.stb_model.stb_axes.stb_x_axis_list;
    assert_eq!(x.len(), 2);
    assert_eq!(x[0].name, "x1");
    assert_eq!(x[0].stb_node_id_list.children.iter().map(|n| n.id).collect::<Vec<i32>>(), vec![1, 2]);
    assert_eq!(x[1].id, 3);
    assert_eq!(x[1].distance.as_str(), "7200");
    assert_eq!(x[1].stb_node_id_list.children[0].id, -4);
    let y = &doc.stb_model.stb_axes.stb_y_axis_list;
    assert_eq!(y.len(), 1);
    assert_eq!(y[0].distance.as_str(), "6000.5");
    assert!(y[0].stb_node_id_list.children.is_empty());
    let s = &doc.stb_model.stb_stories.stb_story_list;
    assert_eq!(s.len(), 1);
    assert_eq!(s[0].name, "1fl");
    assert_eq!(s[0].kind, StbStoryKind::General);
    assert_eq!(s[0].concrete_strength, "Fc24");
}

#[test]
fn an_axis_of_another_tag_is_an_error() {
    let axes = "<StbZ_Axis id=\"1\" name=\"Z\" distance=\"0\"><StbNodeid_List/></StbZ_Axis>";
    let err = parse_st_bridge(&document("", &model("", axes, "", "", ""), "")).unwrap_err();
    assert_eq!(err, StbError::UnknownTag { name: "StbZ_Axis".to_string() });
}

#[test]
fn an_axis_needs_its_node_list() {
    let axes = "<StbX_Axis id=\"1\" name=\"X1\" distance=\"0\"/>";
    let err = parse_st_bridge(&document("", &model("", axes, "", "", ""), "")).unwrap_err();
    assert_eq!(err, StbError::MissingElement { name: "StbNodeid_List".to_string() });
}

#[test]
fn common_strengths_keep_the_last_duplicate() {
    let common = "<StbReinforcement_Strength D=\"D10\" SD=\"SD295A\"/><StbReinforcement_Strength D=\"D13\" SD=\"SD295A\"/><StbReinforcement_Strength D=\"D10\" SD=\"SD345\"/>";
    let doc = parse_st_bridge(&document(common, &model("", "", "", "", ""), "")).unwrap();
    let list = &doc.stb_common.stb_reinforcement_strength_list;
    assert_eq!(list.get("D10".to_string()).unwrap(), "SD345");
    assert_eq!(list.get("D13".to_string()).unwrap(), "SD295A");
    assert!(list.get("d10".to_string()).is_none());
    assert_eq!(list.entries().len(), 2);
}

#[test]
fn extensions_keep_order_and_are_lowercased() {
    let ext = "<StbExtension identifier=\"ABC\" description=\"First\"/><StbExtension identifier=\"abc\" description=\"Second\"/>";
    let doc = parse_st_bridge(&document("", &model("", "", "", "", ""), ext)).unwrap();
    let list = &doc.stb_extensions.stb_extension_list;
    assert_eq!(list.len(), 2);
    assert_eq!(list[0].identifier, "abc");
    assert_eq!(list[0].description, "first");
    assert_eq!(list[1].description, "second");
}
