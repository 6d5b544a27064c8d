//! Structural members: columns, posts, girders, beams, braces and slabs,
//! each kind keyed by member ID in a table of its own.

use crate::coerce::{tree_fault, attribute_fault, exact, id_keys, optional_exact, parse_attribute, parse_enum_attribute, parse_real_attribute, raw_attribute, real_value, scalar, TextValue};
use crate::error::StbError;
use crate::table::{built_from, lemma_built_from_insert, IdTable};
use crate::text::{same_text, Real};
use crate::xml::XmlTree;
use vstd::prelude::*;

verus! {

/// Structural material of a column or post.
#[derive(Debug, Clone, Copy, PartialEq, Eq, Structural)]
pub enum ColumnStructureKind {
    RC,
    S,
    SRC,
    CFT,
    Undefined,
}

impl TextValue for ColumnStructureKind {
    open spec fn spec_parse(s: Seq<char>) -> Option<ColumnStructureKind> {
        if s == "RC"@ {
            Some(ColumnStructureKind::RC)
        } else if s == "S"@ {
            Some(ColumnStructureKind::S)
        } else if s == "SRC"@ {
            Some(ColumnStructureKind::SRC)
        } else if s == "CFT"@ {
            Some(ColumnStructureKind::CFT)
        } else if s == "UNDEFINED"@ {
            Some(ColumnStructureKind::Undefined)
        } else {
            None
        }
    }

    fn parse_text(s: &str) -> (r: Option<ColumnStructureKind>) {
        if same_text(s, "RC") {
            Some(ColumnStructureKind::RC)
        } else if same_text(s, "S") {
            Some(ColumnStructureKind::S)
        } else if same_text(s, "SRC") {
            Some(ColumnStructureKind::SRC)
        } else if same_text(s, "CFT") {
            Some(ColumnStructureKind::CFT)
        } else if same_text(s, "UNDEFINED") {
            Some(ColumnStructureKind::Undefined)
        } else {
            None
        }
    }
}

/// How a member end is joined.
#[derive(Debug, Clone, Copy, PartialEq, Eq, Structural)]
pub enum JointCondition {
    Fix,
    Pin,
}

impl TextValue for JointCondition {
    open spec fn spec_parse(s: Seq<char>) -> Option<JointCondition> {
        if s == "FIX"@ {
            Some(JointCondition::Fix)
        } else if s == "PIN"@ {
            Some(JointCondition::Pin)
        } else {
            None
        }
    }

    fn parse_text(s: &str) -> (r: Option<JointCondition>) {
        if same_text(s, "FIX") {
            Some(JointCondition::Fix)
        } else if same_text(s, "PIN") {
            Some(JointCondition::Pin)
        } else {
            None
        }
    }
}

/// Structural material of a girder or beam.
#[derive(Debug, Clone, Copy, PartialEq, Eq, Structural)]
pub enum GirderStructureKind {
    RC,
    S,
    SRC,
    Undefined,
}

impl TextValue for GirderStructureKind {
    open spec fn spec_parse(s: Seq<char>) -> Option<GirderStructureKind> {
        if s == "RC"@ {
            Some(GirderStructureKind::RC)
        } else if s == "S"@ {
            Some(GirderStructureKind::S)
        } else if s == "SRC"@ {
            Some(GirderStructureKind::SRC)
        } else if s == "UNDEFINED"@ {
            Some(GirderStructureKind::Undefined)
        } else {
            None
        }
    }

    fn parse_text(s: &str) -> (r: Option<GirderStructureKind>) {
        if same_text(s, "RC") {
            Some(GirderStructureKind::RC)
        } else if same_text(s, "S") {
            Some(GirderStructureKind::S)
        } else if same_text(s, "SRC") {
            Some(GirderStructureKind::SRC)
        } else if same_text(s, "UNDEFINED") {
            Some(GirderStructureKind::Undefined)
        } else {
            None
        }
    }
}

/// Which ends of a girder carry a haunch.
#[derive(Debug, Clone, Copy, PartialEq, Eq, Structural)]
pub enum HaunchType {
    Both,
    Right,
    Left,
}

impl TextValue for HaunchType {
    open spec fn spec_parse(s: Seq<char>) -> Option<HaunchType> {
        if s == "BOTH"@ {
            Some(HaunchType::Both)
        } else if s == "RIGHT"@ {
            Some(HaunchType::Right)
        } else if s == "LEFT"@ {
            Some(HaunchType::Left)
        } else {
            None
        }
    }

    fn parse_text(s: &str) -> (r: Option<HaunchType>) {
        if same_text(s, "BOTH") {
            Some(HaunchType::Both)
        } else if same_text(s, "RIGHT") {
            Some(HaunchType::Right)
        } else if same_text(s, "LEFT") {
            Some(HaunchType::Left)
        } else {
            None
        }
    }
}

/// Structural material of a slab.
#[derive(Debug, Clone, Copy, PartialEq, Eq, Structural)]
pub enum SlabStructureKind {
    RC,
    Deck,
    Precast,
}

impl TextValue for SlabStructureKind {
    open spec fn spec_parse(s: Seq<char>) -> Option<SlabStructureKind> {
        if s == "RC"@ {
            Some(SlabStructureKind::RC)
        } else if s == "DECK"@ {
            Some(SlabStructureKind::Deck)
        } else if s == "PRECAST"@ {
            Some(SlabStructureKind::Precast)
        } else {
            None
        }
    }

    fn parse_text(s: &str) -> (r: Option<SlabStructureKind>) {
        if same_text(s, "RC") {
            Some(SlabStructureKind::RC)
        } else if same_text(s, "DECK") {
            Some(SlabStructureKind::Deck)
        } else if same_text(s, "PRECAST") {
            Some(SlabStructureKind::Precast)
        } else {
            None
        }
    }
}

/// Whether a slab is supported all round or cantilevered.
#[derive(Debug, Clone, Copy, PartialEq, Eq, Structural)]
pub enum SlabKind {
    Normal,
    Canti,
}

impl TextValue for SlabKind {
    open spec fn spec_parse(s: Seq<char>) -> Option<SlabKind> {
        if s == "NORMAL"@ {
            Some(SlabKind::Normal)
        } else if s == "CANTI"@ {
            Some(SlabKind::Canti)
        } else {
            None
        }
    }

    fn parse_text(s: &str) -> (r: Option<SlabKind>) {
        if same_text(s, "NORMAL") {
            Some(SlabKind::Normal)
        } else if same_text(s, "CANTI") {
            Some(SlabKind::Canti)
        } else {
            None
        }
    }
}

/// Structural material of a brace.
#[derive(Debug, Clone, Copy, PartialEq, Eq, Structural)]
pub enum BraceStructureKind {
    RC,
    S,
    SRC,
}

impl TextValue for BraceStructureKind {
    open spec fn spec_parse(s: Seq<char>) -> Option<BraceStructureKind> {
        if s == "RC"@ {
            Some(BraceStructureKind::RC)
        } else if s == "S"@ {
            Some(BraceStructureKind::S)
        } else if s == "SRC"@ {
            Some(BraceStructureKind::SRC)
        } else {
            None
        }
    }

    fn parse_text(s: &str) -> (r: Option<BraceStructureKind>) {
        if same_text(s, "RC") {
            Some(BraceStructureKind::RC)
        } else if same_text(s, "S") {
            Some(BraceStructureKind::S)
        } else if same_text(s, "SRC") {
            Some(BraceStructureKind::SRC)
        } else {
            None
        }
    }
}

/// The member groups that a member container may hold; only the first six are read.
#[derive(Debug, Clone, Copy, PartialEq, Eq, Structural)]
pub enum MemberGroup {
    Columns,
    Posts,
    Girders,
    Beams,
    Braces,
    Slabs,
    Walls,
    Footings,
    StripFootings,
    Piles,
    FoundationColumns,
    Parapets,
    Opens,
}

impl TextValue for MemberGroup {
    open spec fn spec_parse(s: Seq<char>) -> Option<MemberGroup> {
        if s == "StbColumns"@ {
            Some(MemberGroup::Columns)
        } else if s == "StbPosts"@ {
            Some(MemberGroup::Posts)
        } else if s == "StbGirders"@ {
            Some(MemberGroup::Girders)
        } else if s == "StbBeams"@ {
            Some(MemberGroup::Beams)
        } else if s == "StbBraces"@ {
            Some(MemberGroup::Braces)
        } else if s == "StbSlabs"@ {
            Some(MemberGroup::Slabs)
        } else if s == "StbWalls"@ {
            Some(MemberGroup::Walls)
        } else if s == "StbFootings"@ {
            Some(MemberGroup::Footings)
        } else if s == "StbStripFootings"@ {
            Some(MemberGroup::StripFootings)
        } else if s == "StbPiles"@ {
            Some(MemberGroup::Piles)
        } else if s == "StbFoundationColumns"@ {
            Some(MemberGroup::FoundationColumns)
        } else if s == "StbParapets"@ {
            Some(MemberGroup::Parapets)
        } else if s == "StbOpens"@ {
            Some(MemberGroup::Opens)
        } else {
            None
        }
    }

    fn parse_text(s: &str) -> (r: Option<MemberGroup>) {
        if same_text(s, "StbColumns") {
            Some(MemberGroup::Columns)
        } else if same_text(s, "StbPosts") {
            Some(MemberGroup::Posts)
        } else if same_text(s, "StbGirders") {
            Some(MemberGroup::Girders)
        } else if same_text(s, "StbBeams") {
            Some(MemberGroup::Beams)
        } else if same_text(s, "StbBraces") {
            Some(MemberGroup::Braces)
        } else if same_text(s, "StbSlabs") {
            Some(MemberGroup::Slabs)
        } else if same_text(s, "StbWalls") {
            Some(MemberGroup::Walls)
        } else if same_text(s, "StbFootings") {
            Some(MemberGroup::Footings)
        } else if same_text(s, "StbStripFootings") {
            Some(MemberGroup::StripFootings)
        } else if same_text(s, "StbPiles") {
            Some(MemberGroup::Piles)
        } else if same_text(s, "StbFoundationColumns") {
            Some(MemberGroup::FoundationColumns)
        } else if same_text(s, "StbParapets") {
            Some(MemberGroup::Parapets)
        } else if same_text(s, "StbOpens") {
            Some(MemberGroup::Opens)
        } else {
            None
        }
    }
}

/// A structural member.
#[derive(Debug, Clone, PartialEq)]
#[allow(inconsistent_fields)]
pub enum StbMember {
    StbColumn {
        id: u32,
        name: String,
        id_node_bottom: u32,
        id_node_top: u32,
        rotate: Real,
        id_section: u32,
        kind_structure: ColumnStructureKind,
        offset_x: Real,
        offset_y: Real,
        condition_bottom: JointCondition,
        condition_top: JointCondition,
    },
    StbPost {
        id: u32,
        name: String,
        id_node_bottom: u32,
        id_node_top: u32,
        rotate: Real,
        id_section: u32,
        kind_structure: ColumnStructureKind,
        offset_x: Real,
        offset_y: Real,
        offset_bottom_x: Real,
        offset_bottom_y: Real,
        offset_bottom_z: Real,
        offset_top_x: Real,
        offset_top_y: Real,
        offset_top_z: Real,
        condition_bottom: JointCondition,
        condition_top: JointCondition,
    },
    StbGirder {
        id: u32,
        name: String,
        id_node_start: u32,
        id_node_end: u32,
        rotate: Real,
        id_section: u32,
        kind_structure: GirderStructureKind,
        is_foundation: bool,
        offset: Real,
        level: Real,
        type_haunch_h: Option<HaunchType>,
    },
    StbBeam {
        id: u32,
        name: String,
        id_node_start: u32,
        id_node_end: u32,
        rotate: Real,
        id_section: u32,
        kind_structure: GirderStructureKind,
        is_foundation: bool,
        offset: Real,
        level: Real,
    },
    StbBrace {
        id: u32,
        name: String,
        id_node_start: u32,
        id_node_end: u32,
        rotate: Real,
        id_section: u32,
        kind_structure: BraceStructureKind,
        offset_start_x: Real,
        offset_start_y: Real,
        offset_start_z: Real,
        offset_end_x: Real,
        offset_end_y: Real,
        offset_end_z: Real,
        condition_start: JointCondition,
        condition_end: JointCondition,
    },
    StbSlab {
        id: u32,
        name: String,
        id_section: u32,
        kind_structure: SlabStructureKind,
        kind_slab: SlabKind,
        level: Real,
        is_foundation: bool,
    },
}

/// Every attribute of column element `e` reads.
pub open spec fn column_ok(t: XmlTree, e: int) -> bool {
    &&& scalar::<u32>(t, e, "id"@) is Some
    &&& t.attr(e, "name"@) is Some
    &&& scalar::<u32>(t, e, "idNode_bottom"@) is Some
    &&& scalar::<u32>(t, e, "idNode_top"@) is Some
    &&& real_value(t, e, "rotate"@) is Some
    &&& scalar::<u32>(t, e, "id_section"@) is Some
    &&& exact::<ColumnStructureKind>(t, e, "kind_structure"@) is Some
    &&& real_value(t, e, "offset_X"@) is Some
    &&& real_value(t, e, "offset_Y"@) is Some
    &&& exact::<JointCondition>(t, e, "condition_bottom"@) is Some
    &&& exact::<JointCondition>(t, e, "condition_top"@) is Some
}

/// `v` is the column that element `e` holds.
pub open spec fn column_matches(t: XmlTree, e: int, v: StbMember) -> bool {
    &&& v matches StbMember::StbColumn { id, name, id_node_bottom, id_node_top, rotate, id_section, kind_structure, offset_x, offset_y, condition_bottom, condition_top }
    &&& id == scalar::<u32>(t, e, "id"@)->0
    &&& name@ == t.attr(e, "name"@)->0
    &&& id_node_bottom == scalar::<u32>(t, e, "idNode_bottom"@)->0
    &&& id_node_top == scalar::<u32>(t, e, "idNode_top"@)->0
    &&& rotate@ == real_value(t, e, "rotate"@)->0
    &&& id_section == scalar::<u32>(t, e, "id_section"@)->0
    &&& kind_structure == exact::<ColumnStructureKind>(t, e, "kind_structure"@)->0
    &&& offset_x@ == real_value(t, e, "offset_X"@)->0
    &&& offset_y@ == real_value(t, e, "offset_Y"@)->0
    &&& condition_bottom == exact::<JointCondition>(t, e, "condition_bottom"@)->0
    &&& condition_top == exact::<JointCondition>(t, e, "condition_top"@)->0
}

fn parse_column(t: &XmlTree, e: usize) -> (r: Result<StbMember, StbError>)
    requires
        t.wf(),
        e < t.nodes@.len(),
    ensures
        r is Ok <==> column_ok(*t, e as int),
        r matches Ok(v) ==> column_matches(*t, e as int, v),
        r matches Err(err) ==> attribute_fault(*t, e as int, err),
        r matches Err(err) ==> !(err is UnknownTag),
        r matches Err(err) ==> tree_fault(*t, err),
{
    Ok(StbMember::StbColumn {
        id: parse_attribute::<u32>(t, e, "id")?,
        name: raw_attribute(t, e, "name")?,
        id_node_bottom: parse_attribute::<u32>(t, e, "idNode_bottom")?,
        id_node_top: parse_attribute::<u32>(t, e, "idNode_top")?,
        rotate: parse_real_attribute(t, e, "rotate")?,
        id_section: parse_attribute::<u32>(t, e, "id_section")?,
        kind_structure: parse_enum_attribute::<ColumnStructureKind>(t, e, "kind_structure")?,
        offset_x: parse_real_attribute(t, e, "offset_X")?,
        offset_y: parse_real_attribute(t, e, "offset_Y")?,
        condition_bottom: parse_enum_attribute::<JointCondition>(t, e, "condition_bottom")?,
        condition_top: parse_enum_attribute::<JointCondition>(t, e, "condition_top")?,
    })
}

/// Every attribute of post element `e` reads.
pub open spec fn post_ok(t: XmlTree, e: int) -> bool {
    &&& scalar::<u32>(t, e, "id"@) is Some
    &&& t.attr(e, "name"@) is Some
    &&& scalar::<u32>(t, e, "idNode_bottom"@) is Some
    &&& scalar::<u32>(t, e, "idNode_top"@) is Some
    &&& real_value(t, e, "rotate"@) is Some
    &&& scalar::<u32>(t, e, "id_section"@) is Some
    &&& exact::<ColumnStructureKind>(t, e, "kind_structure"@) is Some
    &&& real_value(t, e, "offset_X"@) is Some
    &&& real_value(t, e, "offset_Y"@) is Some
    &&& real_value(t, e, "offset_bottom_X"@) is Some
    &&& real_value(t, e, "offset_bottom_Y"@) is Some
    &&& real_value(t, e, "offset_bottom_Z"@) is Some
    &&& real_value(t, e, "offset_top_X"@) is Some
    &&& real_value(t, e, "offset_top_Y"@) is Some
    &&& real_value(t, e, "offset_top_Z"@) is Some
    &&& exact::<JointCondition>(t, e, "condition_bottom"@) is Some
    &&& exact::<JointCondition>(t, e, "condition_top"@) is Some
}

/// `v` is the post that element `e` holds.
pub open spec fn post_matches(t: XmlTree, e: int, v: StbMember) -> bool {
    &&& v matches StbMember::StbPost { id, name, id_node_bottom, id_node_top, rotate, id_section, kind_structure, offset_x, offset_y, offset_bottom_x, offset_bottom_y, offset_bottom_z, offset_top_x, offset_top_y, offset_top_z, condition_bottom, condition_top }
    &&& id == scalar::<u32>(t, e, "id"@)->0
    &&& name@ == t.attr(e, "name"@)->0
    &&& id_node_bottom == scalar::<u32>(t, e, "idNode_bottom"@)->0
    &&& id_node_top == scalar::<u32>(t, e, "idNode_top"@)->0
    &&& rotate@ == real_value(t, e, "rotate"@)->0
    &&& id_section == scalar::<u32>(t, e, "id_section"@)->0
    &&& kind_structure == exact::<ColumnStructureKind>(t, e, "kind_structure"@)->0
    &&& offset_x@ == real_value(t, e, "offset_X"@)->0
    &&& offset_y@ == real_value(t, e, "offset_Y"@)->0
    &&& offset_bottom_x@ == real_value(t, e, "offset_bottom_X"@)->0
    &&& offset_bottom_y@ == real_value(t, e, "offset_bottom_Y"@)->0
    &&& offset_bottom_z@ == real_value(t, e, "offset_bottom_Z"@)->0
    &&& offset_top_x@ == real_value(t, e, "offset_top_X"@)->0
    &&& offset_top_y@ == real_value(t, e, "offset_top_Y"@)->0
    &&& offset_top_z@ == real_value(t, e, "offset_top_Z"@)->0
    &&& condition_bottom == exact::<JointCondition>(t, e, "condition_bottom"@)->0
    &&& condition_top == exact::<JointCondition>(t, e, "condition_top"@)->0
}

fn parse_post(t: &XmlTree, e: usize) -> (r: Result<StbMember, StbError>)
    requires
        t.wf(),
        e < t.nodes@.len(),
    ensures
        r is Ok <==> post_ok(*t, e as int),
        r matches Ok(v) ==> post_matches(*t, e as int, v),
        r matches Err(err) ==> attribute_fault(*t, e as int, err),
        r matches Err(err) ==> !(err is UnknownTag),
        r matches Err(err) ==> tree_fault(*t, err),
{
    Ok(StbMember::StbPost {
        id: parse_attribute::<u32>(t, e, "id")?,
        name: raw_attribute(t, e, "name")?,
        id_node_bottom: parse_attribute::<u32>(t, e, "idNode_bottom")?,
        id_node_top: parse_attribute::<u32>(t, e, "idNode_top")?,
        rotate: parse_real_attribute(t, e, "rotate")?,
        id_section: parse_attribute::<u32>(t, e, "id_section")?,
        kind_structure: parse_enum_attribute::<ColumnStructureKind>(t, e, "kind_structure")?,
        offset_x: parse_real_attribute(t, e, "offset_X")?,
        offset_y: parse_real_attribute(t, e, "offset_Y")?,
        offset_bottom_x: parse_real_attribute(t, e, "offset_bottom_X")?,
        offset_bottom_y: parse_real_attribute(t, e, "offset_bottom_Y")?,
        offset_bottom_z: parse_real_attribute(t, e, "offset_bottom_Z")?,
        offset_top_x: parse_real_attribute(t, e, "offset_top_X")?,
        offset_top_y: parse_real_attribute(t, e, "offset_top_Y")?,
        offset_top_z: parse_real_attribute(t, e, "offset_top_Z")?,
        condition_bottom: parse_enum_attribute::<JointCondition>(t, e, "condition_bottom")?,
        condition_top: parse_enum_attribute::<JointCondition>(t, e, "condition_top")?,
    })
}

/// Every attribute of girder element `e` reads.
pub open spec fn girder_ok(t: XmlTree, e: int) -> bool {
    &&& scalar::<u32>(t, e, "id"@) is Some
    &&& t.attr(e, "name"@) is Some
    &&& scalar::<u32>(t, e, "idNode_start"@) is Some
    &&& scalar::<u32>(t, e, "idNode_end"@) is Some
    &&& real_value(t, e, "rotate"@) is Some
    &&& scalar::<u32>(t, e, "id_section"@) is Some
    &&& exact::<GirderStructureKind>(t, e, "kind_structure"@) is Some
    &&& scalar::<bool>(t, e, "isFoundation"@) is Some
    &&& real_value(t, e, "offset"@) is Some
    &&& real_value(t, e, "level"@) is Some
    &&& (t.attr(e, "type_haunch_H"@) is None || exact::<HaunchType>(t, e, "type_haunch_H"@) is Some)
}

/// `v` is the girder that element `e` holds.
pub open spec fn girder_matches(t: XmlTree, e: int, v: StbMember) -> bool {
    &&& v matches StbMember::StbGirder { id, name, id_node_start, id_node_end, rotate, id_section, kind_structure, is_foundation, offset, level, type_haunch_h }
    &&& id == scalar::<u32>(t, e, "id"@)->0
    &&& name@ == t.attr(e, "name"@)->0
    &&& id_node_start == scalar::<u32>(t, e, "idNode_start"@)->0
    &&& id_node_end == scalar::<u32>(t, e, "idNode_end"@)->0
    &&& rotate@ == real_value(t, e, "rotate"@)->0
    &&& id_section == scalar::<u32>(t, e, "id_section"@)->0
    &&& kind_structure == exact::<GirderStructureKind>(t, e, "kind_structure"@)->0
    &&& is_foundation == scalar::<bool>(t, e, "isFoundation"@)->0
    &&& offset@ == real_value(t, e, "offset"@)->0
    &&& level@ == real_value(t, e, "level"@)->0
    &&& type_haunch_h == exact::<HaunchType>(t, e, "type_haunch_H"@)
}

fn parse_girder(t: &XmlTree, e: usize) -> (r: Result<StbMember, StbError>)
    requires
        t.wf(),
        e < t.nodes@.len(),
    ensures
        r is Ok <==> girder_ok(*t, e as int),
        r matches Ok(v) ==> girder_matches(*t, e as int, v),
        r matches Err(err) ==> attribute_fault(*t, e as int, err),
        r matches Err(err) ==> !(err is UnknownTag),
        r matches Err(err) ==> tree_fault(*t, err),
{
    Ok(StbMember::StbGirder {
        id: parse_attribute::<u32>(t, e, "id")?,
        name: raw_attribute(t, e, "name")?,
        id_node_start: parse_attribute::<u32>(t, e, "idNode_start")?,
        id_node_end: parse_attribute::<u32>(t, e, "idNode_end")?,
        rotate: parse_real_attribute(t, e, "rotate")?,
        id_section: parse_attribute::<u32>(t, e, "id_section")?,
        kind_structure: parse_enum_attribute::<GirderStructureKind>(t, e, "kind_structure")?,
        is_foundation: parse_attribute::<bool>(t, e, "isFoundation")?,
        offset: parse_real_attribute(t, e, "offset")?,
        level: parse_real_attribute(t, e, "level")?,
        type_haunch_h: optional_exact::<HaunchType>(t, e, "type_haunch_H")?,
    })
}

/// Every attribute of beam element `e` reads.
pub open spec fn beam_ok(t: XmlTree, e: int) -> bool {
    &&& scalar::<u32>(t, e, "id"@) is Some
    &&& t.attr(e, "name"@) is Some
    &&& scalar::<u32>(t, e, "idNode_start"@) is Some
    &&& scalar::<u32>(t, e, "idNode_end"@) is Some
    &&& real_value(t, e, "rotate"@) is Some
    &&& scalar::<u32>(t, e, "id_section"@) is Some
    &&& exact::<GirderStructureKind>(t, e, "kind_structure"@) is Some
    &&& scalar::<bool>(t, e, "isFoundation"@) is Some
    &&& real_value(t, e, "offset"@) is Some
    &&& real_value(t, e, "level"@) is Some
}

/// `v` is the beam that element `e` holds.
pub open spec fn beam_matches(t: XmlTree, e: int, v: StbMember) -> bool {
    &&& v matches StbMember::StbBeam { id, name, id_node_start, id_node_end, rotate, id_section, kind_structure, is_foundation, offset, level }
    &&& id == scalar::<u32>(t, e, "id"@)->0
    &&& name@ == t.attr(e, "name"@)->0
    &&& id_node_start == scalar::<u32>(t, e, "idNode_start"@)->0
    &&& id_node_end == scalar::<u32>(t, e, "idNode_end"@)->0
    &&& rotate@ == real_value(t, e, "rotate"@)->0
    &&& id_section == scalar::<u32>(t, e, "id_section"@)->0
    &&& kind_structure == exact::<GirderStructureKind>(t, e, "kind_structure"@)->0
    &&& is_foundation == scalar::<bool>(t, e, "isFoundation"@)->0
    &&& offset@ == real_value(t, e, "offset"@)->0
    &&& level@ == real_value(t, e, "level"@)->0
}

fn parse_beam(t: &XmlTree, e: usize) -> (r: Result<StbMember, StbError>)
    requires
        t.wf(),
        e < t.nodes@.len(),
    ensures
        r is Ok <==> beam_ok(*t, e as int),
        r matches Ok(v) ==> beam_matches(*t, e as int, v),
        r matches Err(err) ==> attribute_fault(*t, e as int, err),
        r matches Err(err) ==> !(err is UnknownTag),
        r matches Err(err) ==> tree_fault(*t, err),
{
    Ok(StbMember::StbBeam {
        id: parse_attribute::<u32>(t, e, "id")?,
        name: raw_attribute(t, e, "name")?,
        id_node_start: parse_attribute::<u32>(t, e, "idNode_start")?,
        id_node_end: parse_attribute::<u32>(t, e, "idNode_end")?,
        rotate: parse_real_attribute(t, e, "rotate")?,
        id_section: parse_attribute::<u32>(t, e, "id_section")?,
        kind_structure: parse_enum_attribute::<GirderStructureKind>(t, e, "kind_structure")?,
        is_foundation: parse_attribute::<bool>(t, e, "isFoundation")?,
        offset: parse_real_attribute(t, e, "offset")?,
        level: parse_real_attribute(t, e, "level")?,
    })
}

/// Every attribute of brace element `e` reads.
pub open spec fn brace_ok(t: XmlTree, e: int) -> bool {
    &&& scalar::<u32>(t, e, "id"@) is Some
    &&& t.attr(e, "name"@) is Some
    &&& scalar::<u32>(t, e, "idNode_start"@) is Some
    &&& scalar::<u32>(t, e, "idNode_end"@) is Some
    &&& real_value(t, e, "rotate"@) is Some
    &&& scalar::<u32>(t, e, "id_section"@) is Some
    &&& exact::<BraceStructureKind>(t, e, "kind_structure"@) is Some
    &&& real_value(t, e, "offset_start_X"@) is Some
    &&& real_value(t, e, "offset_start_Y"@) is Some
    &&& real_value(t, e, "offset_start_Z"@) is Some
    &&& real_value(t, e, "offset_end_X"@) is Some
    &&& real_value(t, e, "offset_end_Y"@) is Some
    &&& real_value(t, e, "offset_end_Z"@) is Some
    &&& exact::<JointCondition>(t, e, "condition_start"@) is Some
    &&& exact::<JointCondition>(t, e, "condition_end"@) is Some
}

/// `v` is the brace that element `e` holds.
pub open spec fn brace_matches(t: XmlTree, e: int, v: StbMember) -> bool {
    &&& v matches StbMember::StbBrace { id, name, id_node_start, id_node_end, rotate, id_section, kind_structure, offset_start_x, offset_start_y, offset_start_z, offset_end_x, offset_end_y, offset_end_z, condition_start, condition_end }
    &&& id == scalar::<u32>(t, e, "id"@)->0
    &&& name@ == t.attr(e, "name"@)->0
    &&& id_node_start == scalar::<u32>(t, e, "idNode_start"@)->0
    &&& id_node_end == scalar::<u32>(t, e, "idNode_end"@)->0
    &&& rotate@ == real_value(t, e, "rotate"@)->0
    &&& id_section == scalar::<u32>(t, e, "id_section"@)->0
    &&& kind_structure == exact::<BraceStructureKind>(t, e, "kind_structure"@)->0
    &&& offset_start_x@ == real_value(t, e, "offset_start_X"@)->0
    &&& offset_start_y@ == real_value(t, e, "offset_start_Y"@)->0
    &&& offset_start_z@ == real_value(t, e, "offset_start_Z"@)->0
    &&& offset_end_x@ == real_value(t, e, "offset_end_X"@)->0
    &&& offset_end_y@ == real_value(t, e, "offset_end_Y"@)->0
    &&& offset_end_z@ == real_value(t, e, "offset_end_Z"@)->0
    &&& condition_start == exact::<JointCondition>(t, e, "condition_start"@)->0
    &&& condition_end == exact::<JointCondition>(t, e, "condition_end"@)->0
}

fn parse_brace(t: &XmlTree, e: usize) -> (r: Result<StbMember, StbError>)
    requires
        t.wf(),
        e < t.nodes@.len(),
    ensures
        r is Ok <==> brace_ok(*t, e as int),
        r matches Ok(v) ==> brace_matches(*t, e as int, v),
        r matches Err(err) ==> attribute_fault(*t, e as int, err),
        r matches Err(err) ==> !(err is UnknownTag),
        r matches Err(err) ==> tree_fault(*t, err),
{
    Ok(StbMember::StbBrace {
        id: parse_attribute::<u32>(t, e, "id")?,
        name: raw_attribute(t, e, "name")?,
        id_node_start: parse_attribute::<u32>(t, e, "idNode_start")?,
        id_node_end: parse_attribute::<u32>(t, e, "idNode_end")?,
        rotate: parse_real_attribute(t, e, "rotate")?,
        id_section: parse_attribute::<u32>(t, e, "id_section")?,
        kind_structure: parse_enum_attribute::<BraceStructureKind>(t, e, "kind_structure")?,
        offset_start_x: parse_real_attribute(t, e, "offset_start_X")?,
        offset_start_y: parse_real_attribute(t, e, "offset_start_Y")?,
        offset_start_z: parse_real_attribute(t, e, "offset_start_Z")?,
        offset_end_x: parse_real_attribute(t, e, "offset_end_X")?,
        offset_end_y: parse_real_attribute(t, e, "offset_end_Y")?,
        offset_end_z: parse_real_attribute(t, e, "offset_end_Z")?,
        condition_start: parse_enum_attribute::<JointCondition>(t, e, "condition_start")?,
        condition_end: parse_enum_attribute::<JointCondition>(t, e, "condition_end")?,
    })
}

/// Every attribute of slab element `e` reads.
pub open spec fn slab_ok(t: XmlTree, e: int) -> bool {
    &&& scalar::<u32>(t, e, "id"@) is Some
    &&& t.attr(e, "name"@) is Some
    &&& scalar::<u32>(t, e, "id_section"@) is Some
    &&& exact::<SlabStructureKind>(t, e, "kind_structure"@) is Some
    &&& exact::<SlabKind>(t, e, "kind_slab"@) is Some
    &&& real_value(t, e, "level"@) is Some
    &&& scalar::<bool>(t, e, "isFoundation"@) is Some
}

/// `v` is the slab that element `e` holds.
pub open spec fn slab_matches(t: XmlTree, e: int, v: StbMember) -> bool {
    &&& v matches StbMember::StbSlab { id, name, id_section, kind_structure, kind_slab, level, is_foundation }
    &&& id == scalar::<u32>(t, e, "id"@)->0
    &&& name@ == t.attr(e, "name"@)->0
    &&& id_section == scalar::<u32>(t, e, "id_section"@)->0
    &&& kind_structure == exact::<SlabStructureKind>(t, e, "kind_structure"@)->0
    &&& kind_slab == exact::<SlabKind>(t, e, "kind_slab"@)->0
    &&& level@ == real_value(t, e, "level"@)->0
    &&& is_foundation == scalar::<bool>(t, e, "isFoundation"@)->0
}

fn parse_slab(t: &XmlTree, e: usize) -> (r: Result<StbMember, StbError>)
    requires
        t.wf(),
        e < t.nodes@.len(),
    ensures
        r is Ok <==> slab_ok(*t, e as int),
        r matches Ok(v) ==> slab_matches(*t, e as int, v),
        r matches Err(err) ==> attribute_fault(*t, e as int, err),
        r matches Err(err) ==> !(err is UnknownTag),
        r matches Err(err) ==> tree_fault(*t, err),
{
    Ok(StbMember::StbSlab {
        id: parse_attribute::<u32>(t, e, "id")?,
        name: raw_attribute(t, e, "name")?,
        id_section: parse_attribute::<u32>(t, e, "id_section")?,
        kind_structure: parse_enum_attribute::<SlabStructureKind>(t, e, "kind_structure")?,
        kind_slab: parse_enum_attribute::<SlabKind>(t, e, "kind_slab")?,
        level: parse_real_attribute(t, e, "level")?,
        is_foundation: parse_attribute::<bool>(t, e, "isFoundation")?,
    })
}

impl StbMember {
    pub open spec fn spec_id(self) -> u32 {
        match self {
            StbMember::StbColumn { id, .. } => id,
            StbMember::StbPost { id, .. } => id,
            StbMember::StbGirder { id, .. } => id,
            StbMember::StbBeam { id, .. } => id,
            StbMember::StbBrace { id, .. } => id,
            StbMember::StbSlab { id, .. } => id,
        }
    }

    /// The ID of the member's bottom or start node, where it has one.
    pub open spec fn spec_node_i(self) -> Option<u32> {
        match self {
            StbMember::StbColumn { id_node_bottom, .. } => Some(id_node_bottom),
            StbMember::StbPost { id_node_bottom, .. } => Some(id_node_bottom),
            StbMember::StbGirder { id_node_start, .. } => Some(id_node_start),
            StbMember::StbBeam { id_node_start, .. } => Some(id_node_start),
            StbMember::StbBrace { id_node_start, .. } => Some(id_node_start),
            StbMember::StbSlab { .. } => None,
        }
    }

    /// The ID of the member's top or end node, where it has one.
    pub open spec fn spec_node_j(self) -> Option<u32> {
        match self {
            StbMember::StbColumn { id_node_top, .. } => Some(id_node_top),
            StbMember::StbPost { id_node_top, .. } => Some(id_node_top),
            StbMember::StbGirder { id_node_end, .. } => Some(id_node_end),
            StbMember::StbBeam { id_node_end, .. } => Some(id_node_end),
            StbMember::StbBrace { id_node_end, .. } => Some(id_node_end),
            StbMember::StbSlab { .. } => None,
        }
    }

    pub fn id(&self) -> (r: u32)
        ensures
            r == self.spec_id(),
    {
        match self {
            StbMember::StbColumn { id, .. } => *id,
            StbMember::StbPost { id, .. } => *id,
            StbMember::StbGirder { id, .. } => *id,
            StbMember::StbBeam { id, .. } => *id,
            StbMember::StbBrace { id, .. } => *id,
            StbMember::StbSlab { id, .. } => *id,
        }
    }

    /// The ID of the bottom node of a column or post, or of the start node
    /// of a girder, beam or brace. A slab has none.
    pub fn node_i(&self) -> (r: u32)
        requires
            !(self is StbSlab),
        ensures
            Some(r) == self.spec_node_i(),
    {
        match self {
            StbMember::StbColumn { id_node_bottom, .. } => *id_node_bottom,
            StbMember::StbPost { id_node_bottom, .. } => *id_node_bottom,
            StbMember::StbGirder { id_node_start, .. } => *id_node_start,
            StbMember::StbBeam { id_node_start, .. } => *id_node_start,
            StbMember::StbBrace { id_node_start, .. } => *id_node_start,
            StbMember::StbSlab { .. } => 0,
        }
    }

    /// The ID of the top node of a column or post, or of the end node of a
    /// girder, beam or brace. A slab has none.
    pub fn node_j(&self) -> (r: u32)
        requires
            !(self is StbSlab),
        ensures
            Some(r) == self.spec_node_j(),
    {
        match self {
            StbMember::StbColumn { id_node_top, .. } => *id_node_top,
            StbMember::StbPost { id_node_top, .. } => *id_node_top,
            StbMember::StbGirder { id_node_end, .. } => *id_node_end,
            StbMember::StbBeam { id_node_end, .. } => *id_node_end,
            StbMember::StbBrace { id_node_end, .. } => *id_node_end,
            StbMember::StbSlab { .. } => 0,
        }
    }
}

/// Member element `e` of group `g` reads.
pub open spec fn member_ok(t: XmlTree, e: int, g: MemberGroup) -> bool {
    match g {
        MemberGroup::Columns => column_ok(t, e),
        MemberGroup::Posts => post_ok(t, e),
        MemberGroup::Girders => girder_ok(t, e),
        MemberGroup::Beams => beam_ok(t, e),
        MemberGroup::Braces => brace_ok(t, e),
        MemberGroup::Slabs => slab_ok(t, e),
        _ => true,
    }
}

/// `m` is the member that element `e` of group `g` holds.
pub open spec fn member_matches(t: XmlTree, e: int, g: MemberGroup, m: StbMember) -> bool {
    match g {
        MemberGroup::Columns => column_matches(t, e, m),
        MemberGroup::Posts => post_matches(t, e, m),
        MemberGroup::Girders => girder_matches(t, e, m),
        MemberGroup::Beams => beam_matches(t, e, m),
        MemberGroup::Braces => brace_matches(t, e, m),
        MemberGroup::Slabs => slab_matches(t, e, m),
        _ => false,
    }
}

/// Whether the members of group `g` are read.
pub open spec fn is_read(g: MemberGroup) -> bool {
    ||| g is Columns
    ||| g is Posts
    ||| g is Girders
    ||| g is Beams
    ||| g is Braces
    ||| g is Slabs
}

fn parse_member(t: &XmlTree, e: usize, g: MemberGroup) -> (r: Result<StbMember, StbError>)
    requires
        t.wf(),
        e < t.nodes@.len(),
        is_read(g),
    ensures
        r is Ok <==> member_ok(*t, e as int, g),
        r matches Ok(m) ==> member_matches(*t, e as int, g, m),
        r matches Err(err) ==> tree_fault(*t, err),
{
    match g {
        MemberGroup::Columns => parse_column(t, e),
        MemberGroup::Posts => parse_post(t, e),
        MemberGroup::Girders => parse_girder(t, e),
        MemberGroup::Beams => parse_beam(t, e),
        MemberGroup::Braces => parse_brace(t, e),
        MemberGroup::Slabs => parse_slab(t, e),
        _ => Err(StbError::MalformedTree),
    }
}

/// What the j-th of the member elements `elems` of group `g` makes.
pub open spec fn member_made(t: XmlTree, elems: Seq<usize>, g: MemberGroup) -> spec_fn(int, StbMember) -> bool {
    |j: int, m: StbMember| member_matches(t, elems[j] as int, g, m)
}

/// Every child of the group element `x` reads as a member of group `g`.
pub open spec fn group_ok(t: XmlTree, x: int, g: MemberGroup) -> bool {
    forall|j: int| 0 <= j < t.child_elements(x).len() ==> member_ok(t, #[trigger] t.child_elements(x)[j] as int, g)
}

/// `table` holds the members of the group element `x`: one entry per
/// distinct ID, holding the member of the last element with that ID.
pub open spec fn group_built(t: XmlTree, x: int, g: MemberGroup, table: Seq<(u32, StbMember)>) -> bool {
    built_from(table, id_keys(t, t.child_elements(x)), member_made(t, t.child_elements(x), g))
}

/// Reads the members of the group element `x`, of group `g`.
fn extract_member_group(t: &XmlTree, x: usize, g: MemberGroup) -> (r: Result<IdTable<StbMember>, StbError>)
    requires
        t.wf(),
        x < t.nodes@.len(),
        is_read(g),
    ensures
        r is Ok <==> group_ok(*t, x as int, g),
        r matches Ok(table) ==> group_built(*t, x as int, g, table@),
        r matches Err(err) ==> tree_fault(*t, err),
{
    let elems = t.child_elements_of(x);
    let ghost keys = id_keys(*t, elems@);
    let ghost made = member_made(*t, elems@, g);
    let mut table: IdTable<StbMember> = IdTable::new();
    let mut k: usize = 0;
    assert(keys.subrange(0, 0) =~= Seq::<u32>::empty());
    while k < elems.len()
        invariant
            t.wf(),
            is_read(g),
            elems@ == t.child_elements(x as int),
            forall|m: int| 0 <= m < elems@.len() ==> #[trigger] elems@[m] < t.nodes@.len(),
            keys == id_keys(*t, elems@),
            made == member_made(*t, elems@, g),
            k <= elems@.len(),
            forall|j: int| 0 <= j < k ==> member_ok(*t, #[trigger] elems@[j] as int, g),
            built_from(table@, keys.subrange(0, k as int), made),
        decreases elems@.len() - k,
    {
        let e = elems[k];
        let m = parse_member(t, e, g)?;
        let id = m.id();
        proof {
            assert(id == keys[k as int]);
            lemma_built_from_insert(table@, keys.subrange(0, k as int), made, id, m);
            assert(keys.subrange(0, k + 1) =~= keys.subrange(0, k as int).push(id));
        }
        table.insert(id, m);
        k = k + 1;
    }
    assert(keys.subrange(0, k as int) =~= keys);
    Ok(table)
}

/// The group of element `e`, from its tag.
pub open spec fn group_of(t: XmlTree, e: int) -> Option<MemberGroup> {
    MemberGroup::spec_parse(t.tag(e))
}

/// The last of `cs` whose tag names group `g`.
pub open spec fn last_of_group(t: XmlTree, cs: Seq<usize>, g: MemberGroup) -> Option<usize>
    decreases cs.len(),
{
    if cs.len() == 0 {
        None
    } else if group_of(t, cs.last() as int) == Some(g) {
        Some(cs.last())
    } else {
        last_of_group(t, cs.drop_last(), g)
    }
}

/// `table` holds the members of the last group element of group `g` among
/// `cs`, and is empty where there is none.
pub open spec fn kind_table(t: XmlTree, cs: Seq<usize>, g: MemberGroup, table: Seq<(u32, StbMember)>) -> bool {
    match last_of_group(t, cs, g) {
        Some(x) => group_built(t, x as int, g, table),
        None => table.len() == 0,
    }
}

/// Element `e` reads whole if it is a group element that is read.
pub open spec fn group_element_ok(t: XmlTree, e: int) -> bool {
    match group_of(t, e) {
        Some(g) => is_read(g) ==> group_ok(t, e, g),
        None => true,
    }
}

/// Every group element among the children of the member container `c` that
/// is read reads whole; other children are passed over.
pub open spec fn members_ok(t: XmlTree, c: int) -> bool {
    forall|j: int| 0 <= j < t.child_elements(c).len() ==> group_element_ok(t, #[trigger] t.child_elements(c)[j] as int)
}

/// Each table of `v` holds the members of the last group element of its kind.
pub open spec fn members_from(t: XmlTree, cs: Seq<usize>, v: StbMembers) -> bool {
    &&& kind_table(t, cs, MemberGroup::Columns, v.stb_columns@)
    &&& kind_table(t, cs, MemberGroup::Posts, v.stb_posts@)
    &&& kind_table(t, cs, MemberGroup::Girders, v.stb_girders@)
    &&& kind_table(t, cs, MemberGroup::Beams, v.stb_beams@)
    &&& kind_table(t, cs, MemberGroup::Braces, v.stb_braces@)
    &&& kind_table(t, cs, MemberGroup::Slabs, v.stb_slabs@)
}

/// The members of the model, one table per kind.
#[derive(Debug, Clone, PartialEq)]
pub struct StbMembers {
    pub stb_columns: IdTable<StbMember>,
    pub stb_posts: IdTable<StbMember>,
    pub stb_girders: IdTable<StbMember>,
    pub stb_beams: IdTable<StbMember>,
    pub stb_braces: IdTable<StbMember>,
    pub stb_slabs: IdTable<StbMember>,
}

impl StbMembers {
    pub fn new() -> (r: StbMembers)
        ensures
            r.stb_columns@.len() == 0,
            r.stb_posts@.len() == 0,
            r.stb_girders@.len() == 0,
            r.stb_beams@.len() == 0,
            r.stb_braces@.len() == 0,
            r.stb_slabs@.len() == 0,
    {
        StbMembers {
            stb_columns: IdTable::new(),
            stb_posts: IdTable::new(),
            stb_girders: IdTable::new(),
            stb_beams: IdTable::new(),
            stb_braces: IdTable::new(),
            stb_slabs: IdTable::new(),
        }
    }

    /// The members of every kind: columns, posts, girders, beams, braces,
    /// then slabs, each kind in the order of its table.
    pub fn iter(&self) -> (r: Vec<&StbMember>)
        ensures
            r@.len() == all_members(*self).len(),
            forall|i: int| 0 <= i < r@.len() ==> *(#[trigger] r@[i]) == all_members(*self)[i],
    {
        let mut out: Vec<&StbMember> = Vec::new();
        append_values(&self.stb_columns, &mut out);
        append_values(&self.stb_posts, &mut out);
        append_values(&self.stb_girders, &mut out);
        append_values(&self.stb_beams, &mut out);
        append_values(&self.stb_braces, &mut out);
        append_values(&self.stb_slabs, &mut out);
        out
    }
}

/// The members of a table, in its order.
pub open spec fn member_values(s: Seq<(u32, StbMember)>) -> Seq<StbMember> {
    s.map_values(|e: (u32, StbMember)| e.1)
}

/// The members of `ms` in iteration order: columns, posts, girders, beams,
/// braces, then slabs, each kind in the order of its table.
pub open spec fn all_members(ms: StbMembers) -> Seq<StbMember> {
    member_values(ms.stb_columns@) + member_values(ms.stb_posts@) + member_values(ms.stb_girders@)
        + member_values(ms.stb_beams@) + member_values(ms.stb_braces@) + member_values(ms.stb_slabs@)
}

/// The values that `out` holds, in order.
pub open spec fn deref_all(out: Seq<&StbMember>) -> Seq<StbMember> {
    out.map_values(|m: &StbMember| *m)
}

fn append_values<'a>(table: &'a IdTable<StbMember>, out: &mut Vec<&'a StbMember>)
    ensures
        deref_all(final(out)@) == deref_all(old(out)@) + member_values(table@),
{
    let entries = table.entries();
    let mut k: usize = 0;
    while k < entries.len()
        invariant
            entries@ == table@,
            k <= entries@.len(),
            deref_all(out@) == deref_all(old(out)@) + member_values(table@).subrange(0, k as int),
        decreases entries@.len() - k,
    {
        let ghost before = out@;
        out.push(&entries[k].1);
        assert(deref_all(out@) =~= deref_all(before).push(entries@[k as int].1));
        assert(member_values(table@).subrange(0, k + 1) =~= member_values(table@).subrange(0, k as int).push(entries@[k as int].1));
        k = k + 1;
    }
    assert(member_values(table@).subrange(0, k as int) =~= member_values(table@));
}

/// Reads the members of the member container `c`. A group element whose tag
/// names no kind that is read yields nothing and is no error.
pub fn extract_stb_members(t: &XmlTree, c: usize) -> (r: Result<StbMembers, StbError>)
    requires
        t.wf(),
        c < t.nodes@.len(),
    ensures
        r is Ok <==> members_ok(*t, c as int),
        r matches Ok(v) ==> members_from(*t, t.child_elements(c as int), v),
        r matches Err(err) ==> tree_fault(*t, err),
{
    let elems = t.child_elements_of(c);
    let mut members = StbMembers::new();
    let mut k: usize = 0;
    assert(elems@.subrange(0, 0) =~= Seq::<usize>::empty());
    while k < elems.len()
        invariant
            t.wf(),
            elems@ == t.child_elements(c as int),
            forall|m: int| 0 <= m < elems@.len() ==> #[trigger] elems@[m] < t.nodes@.len(),
            k <= elems@.len(),
            forall|j: int| 0 <= j < k ==> group_element_ok(*t, #[trigger] elems@[j] as int),
            members_from(*t, elems@.subrange(0, k as int), members),
        decreases elems@.len() - k,
    {
        let e = elems[k];
        assert(elems@.subrange(0, k + 1).drop_last() =~= elems@.subrange(0, k as int));
        assert(elems@.subrange(0, k + 1).last() == e);
        match MemberGroup::parse_text(t.nodes[e].name.as_str()) {
            Some(MemberGroup::Columns) => {
                members.stb_columns = extract_member_group(t, e, MemberGroup::Columns)?;
            },
            Some(MemberGroup::Posts) => {
                members.stb_posts = extract_member_group(t, e, MemberGroup::Posts)?;
            },
            Some(MemberGroup::Girders) => {
                members.stb_girders = extract_member_group(t, e, MemberGroup::Girders)?;
            },
            Some(MemberGroup::Beams) => {
                members.stb_beams = extract_member_group(t, e, MemberGroup::Beams)?;
            },
            Some(MemberGroup::Braces) => {
                members.stb_braces = extract_member_group(t, e, MemberGroup::Braces)?;
            },
            Some(MemberGroup::Slabs) => {
                members.stb_slabs = extract_member_group(t, e, MemberGroup::Slabs)?;
            },
            _ => {},
        }
        k = k + 1;
    }
    assert(elems@.subrange(0, k as int) =~= elems@);
    Ok(members)
}

proof fn lemma_last_of_group_skips(t: XmlTree, a: Seq<usize>, e: usize, b: Seq<usize>, g: MemberGroup)
    requires
        group_of(t, e as int) != Some(g),
    ensures
        last_of_group(t, a.push(e) + b, g) == last_of_group(t, a + b, g),
    decreases b.len(),
{
    if b.len() == 0 {
        assert(a.push(e) + b =~= a.push(e));
        assert(a + b =~= a);
        assert(a.push(e).drop_last() =~= a);
    } else {
        assert((a.push(e) + b).drop_last() =~= a.push(e) + b.drop_last());
        assert((a + b).drop_last() =~= a + b.drop_last());
        lemma_last_of_group_skips(t, a, e, b.drop_last(), g);
    }
}

/// A member group element whose kind is not read, wherever it stands among
/// the children of a member container, is no cause of failure and changes
/// none of the member tables read from the other children.
pub proof fn lemma_unread_group_ignored(t: XmlTree, a: Seq<usize>, e: usize, b: Seq<usize>, v: StbMembers)
    requires
        group_of(t, e as int) matches Some(g) ==> !is_read(g),
    ensures
        group_element_ok(t, e as int),
        members_from(t, a.push(e) + b, v) <==> members_from(t, a + b, v),
{
    lemma_last_of_group_skips(t, a, e, b, MemberGroup::Columns);
    lemma_last_of_group_skips(t, a, e, b, MemberGroup::Posts);
    lemma_last_of_group_skips(t, a, e, b, MemberGroup::Girders);
    lemma_last_of_group_skips(t, a, e, b, MemberGroup::Beams);
    lemma_last_of_group_skips(t, a, e, b, MemberGroup::Braces);
    lemma_last_of_group_skips(t, a, e, b, MemberGroup::Slabs);
}

} // verus!
