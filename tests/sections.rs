use st_bridge::error::StbError;
use st_bridge::stb_model::parse_st_bridge;
use st_bridge::stb_sections::{BeamKind, BraceKind, ColumnKind, StbSec1WaySlab1Position, StbSecBeamSectionPosition, StbSecRollBoxType, StbSecRollHType, StbSecSteelChildren, StbSection, SteelBaseType};

fn with_sections(sections: &str) -> String {
    format!(
        "<ST_BRIDGE version=\"1.4.00\"><StbCommon><StbReinforcement_Strength_List/></StbCommon><StbModel><StbNodes/><StbAxes/><StbStories/><StbMembers/><StbSections>{}</StbSections></StbModel><StbExtensions/></ST_BRIDGE>",
        sections
    )
}

const COLUMN_S: &str = "<StbSecColumn_S id=\"1\" name=\"SC1\" floor=\"1F\" kind_column=\"COLUMN\" direction=\"True\" base_type=\"EXPOSE\"><StbSecSteelColumn pos=\"ALL\" shape=\"BCR-300\" strength_main=\"BCR295\" strength_web=\"SN490B\"/></StbSecColumn_S>";
const BEAM_RC: &str = "<StbSecBeam_RC id=\"2\" name=\"G1\" floor=\"2F\" kind_beam=\"GIRDER\" isFoundation=\"false\" isCanti=\"false\" D_reinforcement_main=\"D22\" D_stirrup=\"D10\" D_reinforcement_web=\"D10\" D_bar_spacing=\"D10\" strength_concrete=\"Fc24\" strength_reinforcement_main=\"SD345\" strength_stirrup=\"SD295A\" strength_reinforcement_web=\"SD295A\" strength_bar_spacing=\"SD295A\" depth_cover_left=\"40\">\
<StbSecFigure><StbSecStraight depth=\"700\"/></StbSecFigure>\
<StbSecBar_Arrangement>\
<StbSecBeam_Start_Center_End_Section pos=\"START\" count_main_top_1st=\"4\" count_main_bottom_1st=\"3\" count_stirrup=\"2\" pitch_stirrup=\"100\" count_web=\"2\" count_bar_spacing=\"1\" pitch_bar_spacing=\"1000\"/>\
<StbSecBeam_Start_Center_End_Section pos=\"CENTER\" count_main_top_1st=\"2\" count_main_bottom_1st=\"3\" count_stirrup=\"2\" pitch_stirrup=\"200\" count_web=\"2\" count_bar_spacing=\"1\" pitch_bar_spacing=\"1000\"/>\
</StbSecBar_Arrangement></StbSecBeam_RC>";
const BEAM_S: &str = "<StbSecBeam_S id=\"3\" name=\"B1\" floor=\"2F\" kind_beam=\"BEAM\" isCanti=\"false\"><StbSecSteelBeam pos=\"ALL\" shape=\"H-400x200x8x13\" strength_main=\"SN400B\" strength_web=\"SN400B\"/></StbSecBeam_S>";
const SLAB_RC: &str = "<StbSecSlab_RC id=\"4\" name=\"S1\" isFoundation=\"false\" isCanti=\"false\" strength_concrete=\"Fc24\"><StbSecFigure><StbSecStraight depth=\"150\"/></StbSecFigure><StbSecBar_Arrangement><StbSec1WaySlab1 pos=\"MAIN_TOP\" strength=\"SD295A\" D=\"D10\" pitch=\"200\"/><StbSec1WaySlab1 pos=\"TRANSVERS_BOTTOM\" strength=\"SD295A\" D=\"D13\" pitch=\"250\"/></StbSecBar_Arrangement></StbSecSlab_RC>";
const BRACE_S: &str = "<StbSecBrace_S id=\"5\" name=\"V1\" floor=\"2F\" kind_brace=\"VERTICAL\"><StbSecSteelBrace pos=\"ALL\" shape=\"L-65x65x6\" strength_main=\"SS400\" strength_web=\"SS400\"/></StbSecBrace_S>";
const STEEL: &str = "<StbSecSteel>\
<StbSecRoll-H type=\"H\" name=\"H-400x200x8x13\" A=\"400\" B=\"200\" t1=\"8\" t2=\"13\" r=\"16\"/>\
<StbSecRoll-BOX type=\"BCR\" name=\"BCR-300\" A=\"300\" B=\"300\" t=\"12\" R=\"30\"/>\
<StbSecPipe name=\"P-100\" D=\"101.6\" t=\"4.2\"/>\
<StbSecRoll-L type=\"L\" name=\"L-65x65x6\" A=\"65\" B=\"65\" t1=\"6\" t2=\"6\" r1=\"8.5\" r2=\"4\" side=\"false\"/>\
<StbSecBuild-H name=\"BH-1\" A=\"500\" B=\"250\" t1=\"9\" t2=\"16\"/>\
<StbSecBuild-BOX name=\"BB-1\" A=\"500\" B=\"500\" t1=\"19\" t2=\"19\"/>\
<StbSecRoll-T name=\"T-1\"/>\
</StbSecSteel>";

#[test]
fn every_section_kind_is_read_into_its_table() {
    let text = with_sections(&format!("{}{}{}{}{}<StbSecColumn_RC id=\"9\"/><StbSecUnknown/>{}", COLUMN_S, BEAM_RC, BEAM_S, SLAB_RC, BRACE_S, STEEL));
    let doc = parse_st_bridge(&text).unwrap();
    let s = &doc.stb_model.stb_sections;
    assert_eq!(s.column_s_map.len(), 1);
    assert_eq!(s.beam_rc_map.len(), 1);
    assert_eq!(s.beam_s_map.len(), 1);
    assert_eq!(s.slab_rc_map.len(), 1);
    assert_eq!(s.brace_s_map.len(), 1);
    match s.column_s_map.get(1).unwrap() {
        StbSection::StbSecColumnS { id, name, floor, kind_column, direction, base_type, stb_sec_steel_column } => {
            assert_eq!(*id, 1);
            assert_eq!(name, "sc1");
            assert_eq!(floor, "1f");
            assert_eq!(*kind_column, ColumnKind::Column);
            assert!(*direction);
            assert_eq!(*base_type, SteelBaseType::Expose);
            assert_eq!(stb_sec_steel_column.shape, "BCR-300");
            assert_eq!(stb_sec_steel_column.strength_main, "bcr295");
            assert_eq!(stb_sec_steel_column.strength_web, "sn490b");
        }
        other => panic!("unexpected section {:?}", other),
    }
    match s.beam_rc_map.get(2).unwrap() {
        StbSection::StbSecBeamRC { name, floor, kind_beam, strength_concrete, strength_reinforcement_2nd_main, depth_cover_left, depth_cover_top, stb_sec_figure, stb_sec_bar_arrangement, d_reinforcement_main, .. } => {
            assert_eq!(name, "g1");
            assert_eq!(floor, "2f");
            assert_eq!(*kind_beam, BeamKind::Girder);
            assert_eq!(strength_concrete.as_deref(), Some("Fc24"));
            assert_eq!(*strength_reinforcement_2nd_main, None);
            assert_eq!(depth_cover_left.as_ref().unwrap().as_str(), "40");
            assert!(depth_cover_top.is_none());
            assert_eq!(d_reinforcement_main, "d22");
            assert!(stb_sec_figure.stb_sec_haunch.is_none());
            assert_eq!(stb_sec_figure.stb_sec_straight.as_ref().unwrap().depth.as_str(), "700");
            let list = stb_sec_bar_arrangement.stb_sec_beam_start_center_end_section_list.as_ref().unwrap();
            assert_eq!(list.len(), 2);
            assert_eq!(list[0].pos, StbSecBeamSectionPosition::Start);
            assert_eq!(list[1].count_main_top_1st, 2);
            assert_eq!(list[1].pitch_stirrup.as_str(), "200");
            assert!(stb_sec_bar_arrangement.stb_sec_beam_same_section.is_none());
        }
        other => panic!("unexpected section {:?}", other),
    }
    match s.slab_rc_map.get(4).unwrap() {
        StbSection::StbSecSlabRC { stb_sec_figure, stb_sec_bar_arrangement, strength_concrete, .. } => {
            assert_eq!(strength_concrete, "fc24");
            assert_eq!(stb_sec_figure.stb_sec_straight.depth.as_str(), "150");
            let list = &stb_sec_bar_arrangement.stb_sec_1way_slab_1_list;
            assert_eq!(list.len(), 2);
            assert_eq!(list[1].pos, StbSec1WaySlab1Position::TransverseBottom);
            assert_eq!(list[1].d, "d13");
        }
        other => panic!("unexpected section {:?}", other),
    }
    match s.brace_s_map.get(5).unwrap() {
        StbSection::StbSecBraceS { kind_brace, stb_sec_steel_brace, .. } => {
            assert_eq!(*kind_brace, BraceKind::Vertical);
            assert_eq!(stb_sec_steel_brace.shape, "l-65x65x6");
        }
        other => panic!("unexpected section {:?}", other),
    }
    let steel = &s.stb_sec_steel.children_map;
    assert_eq!(steel.len(), 6);
    match steel.get(&"h-400x200x8x13".to_string()).unwrap() {
        StbSecSteelChildren::StbSecRollH { sec_type, a, r, .. } => {
            assert_eq!(*sec_type, StbSecRollHType::H);
            assert_eq!(a.as_str(), "400");
            assert_eq!(r.as_str(), "16");
        }
        other => panic!("unexpected profile {:?}", other),
    }
    match steel.get(&"bcr-300".to_string()).unwrap() {
        StbSecSteelChildren::StbSecRollBox { sec_type, t, .. } => {
            assert_eq!(*sec_type, StbSecRollBoxType::BCR);
            assert_eq!(t.as_str(), "12");
        }
        other => panic!("unexpected profile {:?}", other),
    }
    assert!(steel.get(&"t-1".to_string()).is_none());
    assert_eq!(steel.get(&"p-100".to_string()).unwrap().name(), "p-100");
}

#[test]
fn beam_with_one_schedule_for_the_whole_span() {
    let beam = BEAM_RC
        .replace("<StbSecFigure><StbSecStraight depth=\"700\"/></StbSecFigure>", "<StbSecFigure><StbSecHaunch width_start=\"400\" depth_start=\"800\" width_center=\"400\" depth_center=\"700\" width_end=\"400\" depth_end=\"800\"/></StbSecFigure>");
    let start = beam.find("<StbSecBar_Arrangement>").unwrap();
    let end = beam.find("</StbSecBar_Arrangement>").unwrap();
    let beam = format!(
        "{}<StbSecBar_Arrangement><StbSecBeam_Same_Section count_main_top_1st=\"3\" count_main_bottom_1st=\"3\" count_stirrup=\"2\" pitch_stirrup=\"150\" count_web=\"0\" count_bar_spacing=\"0\" pitch_bar_spacing=\"0\"/>{}",
        &beam[..start],
        &beam[end..]
    );
    let doc = parse_st_bridge(&with_sections(&beam)).unwrap();
    match doc.stb_model.stb_sections.beam_rc_map.get(2).unwrap() {
        StbSection::StbSecBeamRC { stb_sec_figure, stb_sec_bar_arrangement, .. } => {
            assert_eq!(stb_sec_figure.stb_sec_haunch.as_ref().unwrap().depth_center.as_str(), "700");
            assert!(stb_sec_figure.stb_sec_straight.is_none());
            assert!(stb_sec_bar_arrangement.stb_sec_beam_start_center_end_section_list.is_none());
            assert_eq!(stb_sec_bar_arrangement.stb_sec_beam_same_section.as_ref().unwrap().pitch_stirrup.as_str(), "150");
        }
        other => panic!("unexpected section {:?}", other),
    }
}

#[test]
fn profiles_sharing_a_name_collide() {
    let steel = "<StbSecSteel><StbSecPipe name=\"P\" D=\"100\" t=\"4\"/><StbSecPipe name=\"p\" D=\"200\" t=\"6\"/></StbSecSteel>";
    let doc = parse_st_bridge(&with_sections(steel)).unwrap();
    let cat = &doc.stb_model.stb_sections.stb_sec_steel.children_map;
    assert_eq!(cat.len(), 1);
    match cat.get(&"p".to_string()).unwrap() {
        StbSecSteelChildren::StbSecPipe { d, .. } => assert_eq!(d.as_str(), "200"),
        other => panic!("unexpected profile {:?}", other),
    }
}

#[test]
fn unknown_profile_tag_is_an_error() {
    let steel = "<StbSecSteel><StbSecPipe name=\"P\" D=\"100\" t=\"4\"/><StbSecOval name=\"O\"/></StbSecSteel>";
    let err = parse_st_bridge(&with_sections(steel)).unwrap_err();
    assert_eq!(err, StbError::UnknownTag { name: "StbSecOval".to_string() });
}

#[test]
fn duplicate_section_ids_keep_the_last() {
    let second = BEAM_S.replace("name=\"B1\"", "name=\"B2\"");
    let doc = parse_st_bridge(&with_sections(&format!("{}{}", BEAM_S, second))).unwrap();
    let map = &doc.stb_model.stb_sections.beam_s_map;
    assert_eq!(map.len(), 1);
    match map.get(3).unwrap() {
        StbSection::StbSecBeamS { name, .. } => assert_eq!(name, "b2"),
        other => panic!("unexpected section {:?}", other),
    }
    assert_eq!(map.get(3).unwrap().id(), 3);
}

#[test]
fn section_without_its_steel_profile_element_is_an_error() {
    let brace = "<StbSecBrace_S id=\"5\" name=\"V1\" floor=\"2F\" kind_brace=\"VERTICAL\"/>";
    let err = parse_st_bridge(&with_sections(brace)).unwrap_err();
    assert_eq!(err, StbError::MissingElement { name: "StbSecSteelBrace".to_string() });
}

#[test]
fn empty_base_type_label_is_a_value() {
    let col = COLUMN_S.replace("base_type=\"EXPOSE\"", "base_type=\"\"");
    let doc = parse_st_bridge(&with_sections(&col)).unwrap();
    match doc.stb_model.stb_sections.column_s_map.get(1).unwrap() {
        StbSection::StbSecColumnS { base_type, .. } => assert_eq!(*base_type, SteelBaseType::Null),
        other => panic!("unexpected section {:?}", other),
    }
}
