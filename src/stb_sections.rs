//! Sections: the cross-section definitions that members refer to, one table
//! per section kind keyed by section ID, and the catalog of steel profiles
//! keyed by profile name.

use crate::coerce::{tree_fault, attribute_fault, exact, exact_real, id_keys, lowered, optional_raw, optional_real, parse_attribute, parse_enum_attribute, parse_real_attribute, parse_text_attribute, raw_attribute, real_value, required_child, scalar, TextValue};
use crate::error::StbError;
use crate::table::{built_from, lemma_built_from_insert, lemma_built_from_made, IdTable, TextTable};
use crate::text::{same_text, Real};
use crate::xml::{extract_node, named_among, read_from, XmlTree};
use vstd::prelude::*;

verus! {

/// Whether a steel column section is for columns or posts.
#[derive(Debug, Clone, Copy, PartialEq, Eq, Structural)]
pub enum ColumnKind {
    Column,
    Post,
}

impl TextValue for ColumnKind {
    open spec fn spec_parse(s: Seq<char>) -> Option<ColumnKind> {
        if s == "COLUMN"@ {
            Some(ColumnKind::Column)
        } else if s == "POST"@ {
            Some(ColumnKind::Post)
        } else {
            None
        }
    }

    fn parse_text(s: &str) -> (r: Option<ColumnKind>) {
        if same_text(s, "COLUMN") {
            Some(ColumnKind::Column)
        } else if same_text(s, "POST") {
            Some(ColumnKind::Post)
        } else {
            None
        }
    }
}

/// How the base of a steel column is fixed; the empty label means none.
#[derive(Debug, Clone, Copy, PartialEq, Eq, Structural)]
pub enum SteelBaseType {
    Null,
    Expose,
    Embedded,
    Wrap,
}

impl TextValue for SteelBaseType {
    open spec fn spec_parse(s: Seq<char>) -> Option<SteelBaseType> {
        if s == ""@ {
            Some(SteelBaseType::Null)
        } else if s == "EXPOSE"@ {
            Some(SteelBaseType::Expose)
        } else if s == "EMBEDDED"@ {
            Some(SteelBaseType::Embedded)
        } else if s == "WRAP"@ {
            Some(SteelBaseType::Wrap)
        } else {
            None
        }
    }

    fn parse_text(s: &str) -> (r: Option<SteelBaseType>) {
        if same_text(s, "") {
            Some(SteelBaseType::Null)
        } else if same_text(s, "EXPOSE") {
            Some(SteelBaseType::Expose)
        } else if same_text(s, "EMBEDDED") {
            Some(SteelBaseType::Embedded)
        } else if same_text(s, "WRAP") {
            Some(SteelBaseType::Wrap)
        } else {
            None
        }
    }
}

/// Where along a steel column a profile applies.
#[derive(Debug, Clone, Copy, PartialEq, Eq, Structural)]
pub enum StbSecSteelColumnPosition {
    All,
}

impl TextValue for StbSecSteelColumnPosition {
    open spec fn spec_parse(s: Seq<char>) -> Option<StbSecSteelColumnPosition> {
        if s == "ALL"@ {
            Some(StbSecSteelColumnPosition::All)
        } else {
            None
        }
    }

    fn parse_text(s: &str) -> (r: Option<StbSecSteelColumnPosition>) {
        if same_text(s, "ALL") {
            Some(StbSecSteelColumnPosition::All)
        } else {
            None
        }
    }
}

/// Whether a beam section is for girders or beams.
#[derive(Debug, Clone, Copy, PartialEq, Eq, Structural)]
pub enum BeamKind {
    Girder,
    Beam,
}

impl TextValue for BeamKind {
    open spec fn spec_parse(s: Seq<char>) -> Option<BeamKind> {
        if s == "GIRDER"@ {
            Some(BeamKind::Girder)
        } else if s == "BEAM"@ {
            Some(BeamKind::Beam)
        } else {
            None
        }
    }

    fn parse_text(s: &str) -> (r: Option<BeamKind>) {
        if same_text(s, "GIRDER") {
            Some(BeamKind::Girder)
        } else if same_text(s, "BEAM") {
            Some(BeamKind::Beam)
        } else {
            None
        }
    }
}

/// Which part of a beam a bar schedule applies to.
#[derive(Debug, Clone, Copy, PartialEq, Eq, Structural)]
pub enum StbSecBeamSectionPosition {
    Start,
    Center,
    End,
}

impl TextValue for StbSecBeamSectionPosition {
    open spec fn spec_parse(s: Seq<char>) -> Option<StbSecBeamSectionPosition> {
        if s == "START"@ {
            Some(StbSecBeamSectionPosition::Start)
        } else if s == "CENTER"@ {
            Some(StbSecBeamSectionPosition::Center)
        } else if s == "END"@ {
            Some(StbSecBeamSectionPosition::End)
        } else {
            None
        }
    }

    fn parse_text(s: &str) -> (r: Option<StbSecBeamSectionPosition>) {
        if same_text(s, "START") {
            Some(StbSecBeamSectionPosition::Start)
        } else if same_text(s, "CENTER") {
            Some(StbSecBeamSectionPosition::Center)
        } else if same_text(s, "END") {
            Some(StbSecBeamSectionPosition::End)
        } else {
            None
        }
    }
}

/// Where along a steel beam a profile applies.
#[derive(Debug, Clone, Copy, PartialEq, Eq, Structural)]
pub enum StbSecSteelBeamPosition {
    All,
}

impl TextValue for StbSecSteelBeamPosition {
    open spec fn spec_parse(s: Seq<char>) -> Option<StbSecSteelBeamPosition> {
        if s == "ALL"@ {
            Some(StbSecSteelBeamPosition::All)
        } else {
            None
        }
    }

    fn parse_text(s: &str) -> (r: Option<StbSecSteelBeamPosition>) {
        if same_text(s, "ALL") {
            Some(StbSecSteelBeamPosition::All)
        } else {
            None
        }
    }
}

/// Which layer of slab bars a schedule applies to.
#[derive(Debug, Clone, Copy, PartialEq, Eq, Structural)]
pub enum StbSec1WaySlab1Position {
    MainTop,
    MainBottom,
    TransverseTop,
    TransverseBottom,
}

impl TextValue for StbSec1WaySlab1Position {
    open spec fn spec_parse(s: Seq<char>) -> Option<StbSec1WaySlab1Position> {
        if s == "MAIN_TOP"@ {
            Some(StbSec1WaySlab1Position::MainTop)
        } else if s == "MAIN_BOTTOM"@ {
            Some(StbSec1WaySlab1Position::MainBottom)
        } else if s == "TRANSVERS_TOP"@ {
            Some(StbSec1WaySlab1Position::TransverseTop)
        } else if s == "TRANSVERS_BOTTOM"@ {
            Some(StbSec1WaySlab1Position::TransverseBottom)
        } else {
            None
        }
    }

    fn parse_text(s: &str) -> (r: Option<StbSec1WaySlab1Position>) {
        if same_text(s, "MAIN_TOP") {
            Some(StbSec1WaySlab1Position::MainTop)
        } else if same_text(s, "MAIN_BOTTOM") {
            Some(StbSec1WaySlab1Position::MainBottom)
        } else if same_text(s, "TRANSVERS_TOP") {
            Some(StbSec1WaySlab1Position::TransverseTop)
        } else if same_text(s, "TRANSVERS_BOTTOM") {
            Some(StbSec1WaySlab1Position::TransverseBottom)
        } else {
            None
        }
    }
}

/// Whether a brace is vertical or horizontal.
#[derive(Debug, Clone, Copy, PartialEq, Eq, Structural)]
pub enum BraceKind {
    Vertical,
    Horizontal,
}

impl TextValue for BraceKind {
    open spec fn spec_parse(s: Seq<char>) -> Option<BraceKind> {
        if s == "VERTICAL"@ {
            Some(BraceKind::Vertical)
        } else if s == "HORIZONTAL"@ {
            Some(BraceKind::Horizontal)
        } else {
            None
        }
    }

    fn parse_text(s: &str) -> (r: Option<BraceKind>) {
        if same_text(s, "VERTICAL") {
            Some(BraceKind::Vertical)
        } else if same_text(s, "HORIZONTAL") {
            Some(BraceKind::Horizontal)
        } else {
            None
        }
    }
}

/// Where along a steel brace a profile applies.
#[derive(Debug, Clone, Copy, PartialEq, Eq, Structural)]
pub enum StbSecSteelBraceSPosition {
    All,
}

impl TextValue for StbSecSteelBraceSPosition {
    open spec fn spec_parse(s: Seq<char>) -> Option<StbSecSteelBraceSPosition> {
        if s == "ALL"@ {
            Some(StbSecSteelBraceSPosition::All)
        } else {
            None
        }
    }

    fn parse_text(s: &str) -> (r: Option<StbSecSteelBraceSPosition>) {
        if same_text(s, "ALL") {
            Some(StbSecSteelBraceSPosition::All)
        } else {
            None
        }
    }
}

/// Series of a rolled H profile.
#[derive(Debug, Clone, Copy, PartialEq, Eq, Structural)]
pub enum StbSecRollHType {
    H,
    SH,
}

impl TextValue for StbSecRollHType {
    open spec fn spec_parse(s: Seq<char>) -> Option<StbSecRollHType> {
        if s == "H"@ {
            Some(StbSecRollHType::H)
        } else if s == "SH"@ {
            Some(StbSecRollHType::SH)
        } else {
            None
        }
    }

    fn parse_text(s: &str) -> (r: Option<StbSecRollHType>) {
        if same_text(s, "H") {
            Some(StbSecRollHType::H)
        } else if same_text(s, "SH") {
            Some(StbSecRollHType::SH)
        } else {
            None
        }
    }
}

/// Series of a rolled box profile.
#[derive(Debug, Clone, Copy, PartialEq, Eq, Structural)]
pub enum StbSecRollBoxType {
    BCP,
    BCR,
    STKR,
    Else,
}

impl TextValue for StbSecRollBoxType {
    open spec fn spec_parse(s: Seq<char>) -> Option<StbSecRollBoxType> {
        if s == "BCP"@ {
            Some(StbSecRollBoxType::BCP)
        } else if s == "BCR"@ {
            Some(StbSecRollBoxType::BCR)
        } else if s == "STKR"@ {
            Some(StbSecRollBoxType::STKR)
        } else if s == "ELSE"@ {
            Some(StbSecRollBoxType::Else)
        } else {
            None
        }
    }

    fn parse_text(s: &str) -> (r: Option<StbSecRollBoxType>) {
        if same_text(s, "BCP") {
            Some(StbSecRollBoxType::BCP)
        } else if same_text(s, "BCR") {
            Some(StbSecRollBoxType::BCR)
        } else if same_text(s, "STKR") {
            Some(StbSecRollBoxType::STKR)
        } else if same_text(s, "ELSE") {
            Some(StbSecRollBoxType::Else)
        } else {
            None
        }
    }
}

/// Series of a rolled L profile.
#[derive(Debug, Clone, Copy, PartialEq, Eq, Structural)]
pub enum StbSecRollLType {
    L,
}

impl TextValue for StbSecRollLType {
    open spec fn spec_parse(s: Seq<char>) -> Option<StbSecRollLType> {
        if s == "L"@ {
            Some(StbSecRollLType::L)
        } else {
            None
        }
    }

    fn parse_text(s: &str) -> (r: Option<StbSecRollLType>) {
        if same_text(s, "L") {
            Some(StbSecRollLType::L)
        } else {
            None
        }
    }
}

/// The section elements that a section container may hold and that are read.
#[derive(Debug, Clone, Copy, PartialEq, Eq, Structural)]
pub enum SectionTag {
    Steel,
    ColumnS,
    BeamRC,
    BeamS,
    BraceS,
    SlabRC,
}

impl TextValue for SectionTag {
    open spec fn spec_parse(s: Seq<char>) -> Option<SectionTag> {
        if s == "StbSecSteel"@ {
            Some(SectionTag::Steel)
        } else if s == "StbSecColumn_S"@ {
            Some(SectionTag::ColumnS)
        } else if s == "StbSecBeam_RC"@ {
            Some(SectionTag::BeamRC)
        } else if s == "StbSecBeam_S"@ {
            Some(SectionTag::BeamS)
        } else if s == "StbSecBrace_S"@ {
            Some(SectionTag::BraceS)
        } else if s == "StbSecSlab_RC"@ {
            Some(SectionTag::SlabRC)
        } else {
            None
        }
    }

    fn parse_text(s: &str) -> (r: Option<SectionTag>) {
        if same_text(s, "StbSecSteel") {
            Some(SectionTag::Steel)
        } else if same_text(s, "StbSecColumn_S") {
            Some(SectionTag::ColumnS)
        } else if same_text(s, "StbSecBeam_RC") {
            Some(SectionTag::BeamRC)
        } else if same_text(s, "StbSecBeam_S") {
            Some(SectionTag::BeamS)
        } else if same_text(s, "StbSecBrace_S") {
            Some(SectionTag::BraceS)
        } else if same_text(s, "StbSecSlab_RC") {
            Some(SectionTag::SlabRC)
        } else {
            None
        }
    }
}

/// The profile elements that a steel catalog may hold; the last seven are passed over.
#[derive(Debug, Clone, Copy, PartialEq, Eq, Structural)]
pub enum SteelTag {
    RollH,
    BuildH,
    RollBox,
    BuildBox,
    Pipe,
    RollL,
    RollT,
    RollC,
    LipC,
    FlatBar,
    RoundBar,
    SteelProduct,
    SteelUndefined,
}

impl TextValue for SteelTag {
    open spec fn spec_parse(s: Seq<char>) -> Option<SteelTag> {
        if s == "StbSecRoll-H"@ {
            Some(SteelTag::RollH)
        } else if s == "StbSecBuild-H"@ {
            Some(SteelTag::BuildH)
        } else if s == "StbSecRoll-BOX"@ {
            Some(SteelTag::RollBox)
        } else if s == "StbSecBuild-BOX"@ {
            Some(SteelTag::BuildBox)
        } else if s == "StbSecPipe"@ {
            Some(SteelTag::Pipe)
        } else if s == "StbSecRoll-L"@ {
            Some(SteelTag::RollL)
        } else if s == "StbSecRoll-T"@ {
            Some(SteelTag::RollT)
        } else if s == "StbSecRoll-C"@ {
            Some(SteelTag::RollC)
        } else if s == "StbSecLipC"@ {
            Some(SteelTag::LipC)
        } else if s == "StbSecFlatBar"@ {
            Some(SteelTag::FlatBar)
        } else if s == "StbSecRoundBar"@ {
            Some(SteelTag::RoundBar)
        } else if s == "StbSecSteelProduct"@ {
            Some(SteelTag::SteelProduct)
        } else if s == "StbSecSteelUndefined"@ {
            Some(SteelTag::SteelUndefined)
        } else {
            None
        }
    }

    fn parse_text(s: &str) -> (r: Option<SteelTag>) {
        if same_text(s, "StbSecRoll-H") {
            Some(SteelTag::RollH)
        } else if same_text(s, "StbSecBuild-H") {
            Some(SteelTag::BuildH)
        } else if same_text(s, "StbSecRoll-BOX") {
            Some(SteelTag::RollBox)
        } else if same_text(s, "StbSecBuild-BOX") {
            Some(SteelTag::BuildBox)
        } else if same_text(s, "StbSecPipe") {
            Some(SteelTag::Pipe)
        } else if same_text(s, "StbSecRoll-L") {
            Some(SteelTag::RollL)
        } else if same_text(s, "StbSecRoll-T") {
            Some(SteelTag::RollT)
        } else if same_text(s, "StbSecRoll-C") {
            Some(SteelTag::RollC)
        } else if same_text(s, "StbSecLipC") {
            Some(SteelTag::LipC)
        } else if same_text(s, "StbSecFlatBar") {
            Some(SteelTag::FlatBar)
        } else if same_text(s, "StbSecRoundBar") {
            Some(SteelTag::RoundBar)
        } else if same_text(s, "StbSecSteelProduct") {
            Some(SteelTag::SteelProduct)
        } else if same_text(s, "StbSecSteelUndefined") {
            Some(SteelTag::SteelUndefined)
        } else {
            None
        }
    }
}

/// Steel profile of a steel column section.
#[derive(Debug, Clone, PartialEq)]
pub struct StbSecSteelColumn {
    pub pos: StbSecSteelColumnPosition,
    pub shape: String,
    pub strength_main: String,
    pub strength_web: String,
}

/// Every attribute that element `e` needs as a steel column profile reads.
pub open spec fn steel_column_ok(t: XmlTree, e: int) -> bool {
    &&& exact::<StbSecSteelColumnPosition>(t, e, "pos"@) is Some
    &&& t.attr(e, "shape"@) is Some
    &&& t.attr(e, "strength_main"@) is Some
    &&& t.attr(e, "strength_web"@) is Some
}

/// `v` is the steel column profile that element `e` holds.
pub open spec fn steel_column_matches(t: XmlTree, e: int, v: StbSecSteelColumn) -> bool {
    &&& v.pos == exact::<StbSecSteelColumnPosition>(t, e, "pos"@)->0
    &&& v.shape@ == t.attr(e, "shape"@)->0
    &&& v.strength_main@ == lowered(t, e, "strength_main"@)->0
    &&& v.strength_web@ == lowered(t, e, "strength_web"@)->0
}

fn parse_steel_column(t: &XmlTree, e: usize) -> (r: Result<StbSecSteelColumn, StbError>)
    requires
        t.wf(),
        e < t.nodes@.len(),
    ensures
        r is Ok <==> steel_column_ok(*t, e as int),
        r matches Ok(v) ==> steel_column_matches(*t, e as int, v),
        r matches Err(err) ==> attribute_fault(*t, e as int, err),
        r matches Err(err) ==> !(err is UnknownTag),
        r matches Err(err) ==> tree_fault(*t, err),
{
    Ok(StbSecSteelColumn {
        pos: parse_enum_attribute::<StbSecSteelColumnPosition>(t, e, "pos")?,
        shape: raw_attribute(t, e, "shape")?,
        strength_main: parse_text_attribute(t, e, "strength_main")?,
        strength_web: parse_text_attribute(t, e, "strength_web")?,
    })
}

/// Steel profile of a steel beam section.
#[derive(Debug, Clone, PartialEq)]
pub struct StbSecSteelBeam {
    pub pos: StbSecSteelBeamPosition,
    pub shape: String,
    pub strength_main: String,
    pub strength_web: String,
}

/// Every attribute that element `e` needs as a steel beam profile reads.
pub open spec fn steel_beam_ok(t: XmlTree, e: int) -> bool {
    &&& exact::<StbSecSteelBeamPosition>(t, e, "pos"@) is Some
    &&& t.attr(e, "shape"@) is Some
    &&& t.attr(e, "strength_main"@) is Some
    &&& t.attr(e, "strength_web"@) is Some
}

/// `v` is the steel beam profile that element `e` holds.
pub open spec fn steel_beam_matches(t: XmlTree, e: int, v: StbSecSteelBeam) -> bool {
    &&& v.pos == exact::<StbSecSteelBeamPosition>(t, e, "pos"@)->0
    &&& v.shape@ == lowered(t, e, "shape"@)->0
    &&& v.strength_main@ == lowered(t, e, "strength_main"@)->0
    &&& v.strength_web@ == lowered(t, e, "strength_web"@)->0
}

fn parse_steel_beam(t: &XmlTree, e: usize) -> (r: Result<StbSecSteelBeam, StbError>)
    requires
        t.wf(),
        e < t.nodes@.len(),
    ensures
        r is Ok <==> steel_beam_ok(*t, e as int),
        r matches Ok(v) ==> steel_beam_matches(*t, e as int, v),
        r matches Err(err) ==> attribute_fault(*t, e as int, err),
        r matches Err(err) ==> !(err is UnknownTag),
        r matches Err(err) ==> tree_fault(*t, err),
{
    Ok(StbSecSteelBeam {
        pos: parse_enum_attribute::<StbSecSteelBeamPosition>(t, e, "pos")?,
        shape: parse_text_attribute(t, e, "shape")?,
        strength_main: parse_text_attribute(t, e, "strength_main")?,
        strength_web: parse_text_attribute(t, e, "strength_web")?,
    })
}

/// Steel profile of a steel brace section.
#[derive(Debug, Clone, PartialEq)]
pub struct StbSecSteelBrace {
    pub pos: StbSecSteelBraceSPosition,
    pub shape: String,
    pub strength_main: String,
    pub strength_web: String,
}

/// Every attribute that element `e` needs as a steel brace profile reads.
pub open spec fn steel_brace_ok(t: XmlTree, e: int) -> bool {
    &&& exact::<StbSecSteelBraceSPosition>(t, e, "pos"@) is Some
    &&& t.attr(e, "shape"@) is Some
    &&& t.attr(e, "strength_main"@) is Some
    &&& t.attr(e, "strength_web"@) is Some
}

/// `v` is the steel brace profile that element `e` holds.
pub open spec fn steel_brace_matches(t: XmlTree, e: int, v: StbSecSteelBrace) -> bool {
    &&& v.pos == exact::<StbSecSteelBraceSPosition>(t, e, "pos"@)->0
    &&& v.shape@ == lowered(t, e, "shape"@)->0
    &&& v.strength_main@ == lowered(t, e, "strength_main"@)->0
    &&& v.strength_web@ == lowered(t, e, "strength_web"@)->0
}

fn parse_steel_brace(t: &XmlTree, e: usize) -> (r: Result<StbSecSteelBrace, StbError>)
    requires
        t.wf(),
        e < t.nodes@.len(),
    ensures
        r is Ok <==> steel_brace_ok(*t, e as int),
        r matches Ok(v) ==> steel_brace_matches(*t, e as int, v),
        r matches Err(err) ==> attribute_fault(*t, e as int, err),
        r matches Err(err) ==> !(err is UnknownTag),
        r matches Err(err) ==> tree_fault(*t, err),
{
    Ok(StbSecSteelBrace {
        pos: parse_enum_attribute::<StbSecSteelBraceSPosition>(t, e, "pos")?,
        shape: parse_text_attribute(t, e, "shape")?,
        strength_main: parse_text_attribute(t, e, "strength_main")?,
        strength_web: parse_text_attribute(t, e, "strength_web")?,
    })
}

/// Haunched beam outline: width and depth at start, center and end.
#[derive(Debug, Clone, PartialEq)]
pub struct StbSecHaunch {
    pub width_start: Real,
    pub depth_start: Real,
    pub width_center: Real,
    pub depth_center: Real,
    pub width_end: Real,
    pub depth_end: Real,
}

/// Every attribute that element `e` needs as a haunched outline reads.
pub open spec fn haunch_ok(t: XmlTree, e: int) -> bool {
    &&& real_value(t, e, "width_start"@) is Some
    &&& real_value(t, e, "depth_start"@) is Some
    &&& real_value(t, e, "width_center"@) is Some
    &&& real_value(t, e, "depth_center"@) is Some
    &&& real_value(t, e, "width_end"@) is Some
    &&& real_value(t, e, "depth_end"@) is Some
}

/// `v` is the haunched outline that element `e` holds.
pub open spec fn haunch_matches(t: XmlTree, e: int, v: StbSecHaunch) -> bool {
    &&& v.width_start@ == real_value(t, e, "width_start"@)->0
    &&& v.depth_start@ == real_value(t, e, "depth_start"@)->0
    &&& v.width_center@ == real_value(t, e, "width_center"@)->0
    &&& v.depth_center@ == real_value(t, e, "depth_center"@)->0
    &&& v.width_end@ == real_value(t, e, "width_end"@)->0
    &&& v.depth_end@ == real_value(t, e, "depth_end"@)->0
}

fn parse_haunch(t: &XmlTree, e: usize) -> (r: Result<StbSecHaunch, StbError>)
    requires
        t.wf(),
        e < t.nodes@.len(),
    ensures
        r is Ok <==> haunch_ok(*t, e as int),
        r matches Ok(v) ==> haunch_matches(*t, e as int, v),
        r matches Err(err) ==> attribute_fault(*t, e as int, err),
        r matches Err(err) ==> !(err is UnknownTag),
        r matches Err(err) ==> tree_fault(*t, err),
{
    Ok(StbSecHaunch {
        width_start: parse_real_attribute(t, e, "width_start")?,
        depth_start: parse_real_attribute(t, e, "depth_start")?,
        width_center: parse_real_attribute(t, e, "width_center")?,
        depth_center: parse_real_attribute(t, e, "depth_center")?,
        width_end: parse_real_attribute(t, e, "width_end")?,
        depth_end: parse_real_attribute(t, e, "depth_end")?,
    })
}

/// Straight beam outline.
#[derive(Debug, Clone, PartialEq)]
pub struct StbSecStraightBeam {
    pub depth: Real,
}

/// Every attribute that element `e` needs as a straight beam outline reads.
pub open spec fn straight_beam_ok(t: XmlTree, e: int) -> bool {
    &&& real_value(t, e, "depth"@) is Some
}

/// `v` is the straight beam outline that element `e` holds.
pub open spec fn straight_beam_matches(t: XmlTree, e: int, v: StbSecStraightBeam) -> bool {
    &&& v.depth@ == real_value(t, e, "depth"@)->0
}

fn parse_straight_beam(t: &XmlTree, e: usize) -> (r: Result<StbSecStraightBeam, StbError>)
    requires
        t.wf(),
        e < t.nodes@.len(),
    ensures
        r is Ok <==> straight_beam_ok(*t, e as int),
        r matches Ok(v) ==> straight_beam_matches(*t, e as int, v),
        r matches Err(err) ==> attribute_fault(*t, e as int, err),
        r matches Err(err) ==> !(err is UnknownTag),
        r matches Err(err) ==> tree_fault(*t, err),
{
    Ok(StbSecStraightBeam {
        depth: parse_real_attribute(t, e, "depth")?,
    })
}

/// Bar schedule that holds along a whole beam.
#[derive(Debug, Clone, PartialEq)]
pub struct StbSecBeamSameSection {
    pub count_main_top_1st: u32,
    pub count_main_bottom_1st: u32,
    pub count_stirrup: u32,
    pub pitch_stirrup: Real,
    pub count_web: u32,
    pub count_bar_spacing: u32,
    pub pitch_bar_spacing: Real,
}

/// Every attribute that element `e` needs as a whole-beam bar schedule reads.
pub open spec fn same_section_ok(t: XmlTree, e: int) -> bool {
    &&& scalar::<u32>(t, e, "count_main_top_1st"@) is Some
    &&& scalar::<u32>(t, e, "count_main_bottom_1st"@) is Some
    &&& scalar::<u32>(t, e, "count_stirrup"@) is Some
    &&& real_value(t, e, "pitch_stirrup"@) is Some
    &&& scalar::<u32>(t, e, "count_web"@) is Some
    &&& scalar::<u32>(t, e, "count_bar_spacing"@) is Some
    &&& real_value(t, e, "pitch_bar_spacing"@) is Some
}

/// `v` is the whole-beam bar schedule that element `e` holds.
pub open spec fn same_section_matches(t: XmlTree, e: int, v: StbSecBeamSameSection) -> bool {
    &&& v.count_main_top_1st == scalar::<u32>(t, e, "count_main_top_1st"@)->0
    &&& v.count_main_bottom_1st == scalar::<u32>(t, e, "count_main_bottom_1st"@)->0
    &&& v.count_stirrup == scalar::<u32>(t, e, "count_stirrup"@)->0
    &&& v.pitch_stirrup@ == real_value(t, e, "pitch_stirrup"@)->0
    &&& v.count_web == scalar::<u32>(t, e, "count_web"@)->0
    &&& v.count_bar_spacing == scalar::<u32>(t, e, "count_bar_spacing"@)->0
    &&& v.pitch_bar_spacing@ == real_value(t, e, "pitch_bar_spacing"@)->0
}

fn parse_same_section(t: &XmlTree, e: usize) -> (r: Result<StbSecBeamSameSection, StbError>)
    requires
        t.wf(),
        e < t.nodes@.len(),
    ensures
        r is Ok <==> same_section_ok(*t, e as int),
        r matches Ok(v) ==> same_section_matches(*t, e as int, v),
        r matches Err(err) ==> attribute_fault(*t, e as int, err),
        r matches Err(err) ==> !(err is UnknownTag),
        r matches Err(err) ==> tree_fault(*t, err),
{
    Ok(StbSecBeamSameSection {
        count_main_top_1st: parse_attribute::<u32>(t, e, "count_main_top_1st")?,
        count_main_bottom_1st: parse_attribute::<u32>(t, e, "count_main_bottom_1st")?,
        count_stirrup: parse_attribute::<u32>(t, e, "count_stirrup")?,
        pitch_stirrup: parse_real_attribute(t, e, "pitch_stirrup")?,
        count_web: parse_attribute::<u32>(t, e, "count_web")?,
        count_bar_spacing: parse_attribute::<u32>(t, e, "count_bar_spacing")?,
        pitch_bar_spacing: parse_real_attribute(t, e, "pitch_bar_spacing")?,
    })
}

/// Bar schedule of one part of a beam.
#[derive(Debug, Clone, PartialEq)]
pub struct StbSecBeamStartCenterEndSection {
    pub pos: StbSecBeamSectionPosition,
    pub count_main_top_1st: u32,
    pub count_main_bottom_1st: u32,
    pub count_stirrup: u32,
    pub pitch_stirrup: Real,
    pub count_web: u32,
    pub count_bar_spacing: u32,
    pub pitch_bar_spacing: Real,
}

/// Every attribute that element `e` needs as a part bar schedule reads.
pub open spec fn start_center_end_ok(t: XmlTree, e: int) -> bool {
    &&& exact::<StbSecBeamSectionPosition>(t, e, "pos"@) is Some
    &&& scalar::<u32>(t, e, "count_main_top_1st"@) is Some
    &&& scalar::<u32>(t, e, "count_main_bottom_1st"@) is Some
    &&& scalar::<u32>(t, e, "count_stirrup"@) is Some
    &&& real_value(t, e, "pitch_stirrup"@) is Some
    &&& scalar::<u32>(t, e, "count_web"@) is Some
    &&& scalar::<u32>(t, e, "count_bar_spacing"@) is Some
    &&& real_value(t, e, "pitch_bar_spacing"@) is Some
}

/// `v` is the part bar schedule that element `e` holds.
pub open spec fn start_center_end_matches(t: XmlTree, e: int, v: StbSecBeamStartCenterEndSection) -> bool {
    &&& v.pos == exact::<StbSecBeamSectionPosition>(t, e, "pos"@)->0
    &&& v.count_main_top_1st == scalar::<u32>(t, e, "count_main_top_1st"@)->0
    &&& v.count_main_bottom_1st == scalar::<u32>(t, e, "count_main_bottom_1st"@)->0
    &&& v.count_stirrup == scalar::<u32>(t, e, "count_stirrup"@)->0
    &&& v.pitch_stirrup@ == real_value(t, e, "pitch_stirrup"@)->0
    &&& v.count_web == scalar::<u32>(t, e, "count_web"@)->0
    &&& v.count_bar_spacing == scalar::<u32>(t, e, "count_bar_spacing"@)->0
    &&& v.pitch_bar_spacing@ == real_value(t, e, "pitch_bar_spacing"@)->0
}

fn parse_start_center_end(t: &XmlTree, e: usize) -> (r: Result<StbSecBeamStartCenterEndSection, StbError>)
    requires
        t.wf(),
        e < t.nodes@.len(),
    ensures
        r is Ok <==> start_center_end_ok(*t, e as int),
        r matches Ok(v) ==> start_center_end_matches(*t, e as int, v),
        r matches Err(err) ==> attribute_fault(*t, e as int, err),
        r matches Err(err) ==> !(err is UnknownTag),
        r matches Err(err) ==> tree_fault(*t, err),
{
    Ok(StbSecBeamStartCenterEndSection {
        pos: parse_enum_attribute::<StbSecBeamSectionPosition>(t, e, "pos")?,
        count_main_top_1st: parse_attribute::<u32>(t, e, "count_main_top_1st")?,
        count_main_bottom_1st: parse_attribute::<u32>(t, e, "count_main_bottom_1st")?,
        count_stirrup: parse_attribute::<u32>(t, e, "count_stirrup")?,
        pitch_stirrup: parse_real_attribute(t, e, "pitch_stirrup")?,
        count_web: parse_attribute::<u32>(t, e, "count_web")?,
        count_bar_spacing: parse_attribute::<u32>(t, e, "count_bar_spacing")?,
        pitch_bar_spacing: parse_real_attribute(t, e, "pitch_bar_spacing")?,
    })
}

/// Bar schedule of one layer of a one-way slab.
#[derive(Debug, Clone, PartialEq)]
pub struct StbSec1WaySlab1 {
    pub pos: StbSec1WaySlab1Position,
    pub strength: String,
    pub d: String,
    pub pitch: Real,
}

/// Every attribute that element `e` needs as a slab bar schedule reads.
pub open spec fn one_way_slab_ok(t: XmlTree, e: int) -> bool {
    &&& exact::<StbSec1WaySlab1Position>(t, e, "pos"@) is Some
    &&& t.attr(e, "strength"@) is Some
    &&& t.attr(e, "D"@) is Some
    &&& real_value(t, e, "pitch"@) is Some
}

/// `v` is the slab bar schedule that element `e` holds.
pub open spec fn one_way_slab_matches(t: XmlTree, e: int, v: StbSec1WaySlab1) -> bool {
    &&& v.pos == exact::<StbSec1WaySlab1Position>(t, e, "pos"@)->0
    &&& v.strength@ == lowered(t, e, "strength"@)->0
    &&& v.d@ == lowered(t, e, "D"@)->0
    &&& v.pitch@ == real_value(t, e, "pitch"@)->0
}

fn parse_one_way_slab(t: &XmlTree, e: usize) -> (r: Result<StbSec1WaySlab1, StbError>)
    requires
        t.wf(),
        e < t.nodes@.len(),
    ensures
        r is Ok <==> one_way_slab_ok(*t, e as int),
        r matches Ok(v) ==> one_way_slab_matches(*t, e as int, v),
        r matches Err(err) ==> attribute_fault(*t, e as int, err),
        r matches Err(err) ==> !(err is UnknownTag),
        r matches Err(err) ==> tree_fault(*t, err),
{
    Ok(StbSec1WaySlab1 {
        pos: parse_enum_attribute::<StbSec1WaySlab1Position>(t, e, "pos")?,
        strength: parse_text_attribute(t, e, "strength")?,
        d: parse_text_attribute(t, e, "D")?,
        pitch: parse_real_attribute(t, e, "pitch")?,
    })
}

/// Straight slab outline.
#[derive(Debug, Clone, PartialEq)]
pub struct StbSecStraightSlab {
    pub depth: Real,
}

/// Every attribute that element `e` needs as a straight slab outline reads.
pub open spec fn straight_slab_ok(t: XmlTree, e: int) -> bool {
    &&& real_value(t, e, "depth"@) is Some
}

/// `v` is the straight slab outline that element `e` holds.
pub open spec fn straight_slab_matches(t: XmlTree, e: int, v: StbSecStraightSlab) -> bool {
    &&& v.depth@ == real_value(t, e, "depth"@)->0
}

fn parse_straight_slab(t: &XmlTree, e: usize) -> (r: Result<StbSecStraightSlab, StbError>)
    requires
        t.wf(),
        e < t.nodes@.len(),
    ensures
        r is Ok <==> straight_slab_ok(*t, e as int),
        r matches Ok(v) ==> straight_slab_matches(*t, e as int, v),
        r matches Err(err) ==> attribute_fault(*t, e as int, err),
        r matches Err(err) ==> !(err is UnknownTag),
        r matches Err(err) ==> tree_fault(*t, err),
{
    Ok(StbSecStraightSlab {
        depth: parse_real_attribute(t, e, "depth")?,
    })
}

/// Outline of a reinforced-concrete beam section: haunched, straight, or
/// (not enforced) both or neither.
#[derive(Debug, Clone, PartialEq)]
pub struct StbSecFigureBeam {
    pub stb_sec_haunch: Option<StbSecHaunch>,
    pub stb_sec_straight: Option<StbSecStraightBeam>,
}

/// The outline children of figure element `f` that are there read.
pub open spec fn figure_beam_ok(t: XmlTree, f: int) -> bool {
    &&& (t.child_named(f, "StbSecHaunch"@) is None || haunch_ok(t, t.child_named(f, "StbSecHaunch"@)->0 as int))
    &&& (t.child_named(f, "StbSecStraight"@) is None || straight_beam_ok(t, t.child_named(f, "StbSecStraight"@)->0 as int))
}

/// `v` holds the outlines of figure element `f`, `None` for each that is absent.
pub open spec fn figure_beam_matches(t: XmlTree, f: int, v: StbSecFigureBeam) -> bool {
    &&& (v.stb_sec_haunch is Some <==> t.child_named(f, "StbSecHaunch"@) is Some)
    &&& (v.stb_sec_haunch matches Some(h) ==> haunch_matches(t, t.child_named(f, "StbSecHaunch"@)->0 as int, h))
    &&& (v.stb_sec_straight is Some <==> t.child_named(f, "StbSecStraight"@) is Some)
    &&& (v.stb_sec_straight matches Some(s) ==> straight_beam_matches(t, t.child_named(f, "StbSecStraight"@)->0 as int, s))
}

fn parse_figure_beam(t: &XmlTree, f: usize) -> (r: Result<StbSecFigureBeam, StbError>)
    requires
        t.wf(),
        f < t.nodes@.len(),
    ensures
        r is Ok <==> figure_beam_ok(*t, f as int),
        r matches Ok(v) ==> figure_beam_matches(*t, f as int, v),
        r matches Err(err) ==> !(err is UnknownTag),
        r matches Err(err) ==> tree_fault(*t, err),
{
    let stb_sec_haunch = match extract_node(t, "StbSecHaunch", f) {
        Some(h) => Some(parse_haunch(t, h)?),
        None => None,
    };
    let stb_sec_straight = match extract_node(t, "StbSecStraight", f) {
        Some(s) => Some(parse_straight_beam(t, s)?),
        None => None,
    };
    Ok(StbSecFigureBeam { stb_sec_haunch, stb_sec_straight })
}

/// Bar arrangement of a reinforced-concrete beam section: schedules for
/// start, center and end, or one schedule for the whole beam (exclusive by
/// the format, not enforced).
#[derive(Debug, Clone, PartialEq)]
pub struct StbSecBarArrangementBeam {
    pub stb_sec_beam_start_center_end_section_list: Option<Vec<StbSecBeamStartCenterEndSection>>,
    pub stb_sec_beam_same_section: Option<StbSecBeamSameSection>,
}

/// The part schedules among the children of bar-arrangement element `b`.
pub open spec fn part_schedules(t: XmlTree, b: int) -> Seq<usize> {
    named_among(t, t.child_elements(b), "StbSecBeam_Start_Center_End_Section"@)
}

/// Every part schedule among the children of bar-arrangement element `b` reads.
pub open spec fn part_schedules_ok(t: XmlTree, b: int) -> bool {
    forall|j: int|
        0 <= j < t.child_elements(b).len() ==> (t.is_element_named(#[trigger] t.child_elements(b)[j] as int, "StbSecBeam_Start_Center_End_Section"@)
            ==> start_center_end_ok(t, t.child_elements(b)[j] as int))
}

/// The schedules of bar-arrangement element `b` read.
pub open spec fn bar_arrangement_beam_ok(t: XmlTree, b: int) -> bool {
    &&& part_schedules_ok(t, b)
    &&& (t.child_named(b, "StbSecBeam_Same_Section"@) is None || same_section_ok(t, t.child_named(b, "StbSecBeam_Same_Section"@)->0 as int))
}

/// `v` holds the part schedules of bar-arrangement element `b` in order
/// (`None` where it has none) and its whole-beam schedule (`None` where absent).
pub open spec fn bar_arrangement_beam_matches(t: XmlTree, b: int, v: StbSecBarArrangementBeam) -> bool {
    &&& (v.stb_sec_beam_start_center_end_section_list is Some <==> part_schedules(t, b).len() > 0)
    &&& (v.stb_sec_beam_start_center_end_section_list matches Some(l) ==> read_from(l@, part_schedules(t, b), |e: int, s: StbSecBeamStartCenterEndSection| start_center_end_matches(t, e, s)))
    &&& (v.stb_sec_beam_same_section is Some <==> t.child_named(b, "StbSecBeam_Same_Section"@) is Some)
    &&& (v.stb_sec_beam_same_section matches Some(s) ==> same_section_matches(t, t.child_named(b, "StbSecBeam_Same_Section"@)->0 as int, s))
}

fn extract_part_schedules(t: &XmlTree, b: usize) -> (r: Result<Vec<StbSecBeamStartCenterEndSection>, StbError>)
    requires
        t.wf(),
        b < t.nodes@.len(),
    ensures
        r is Ok <==> part_schedules_ok(*t, b as int),
        r matches Ok(l) ==> read_from(l@, part_schedules(*t, b as int), |e: int, s: StbSecBeamStartCenterEndSection| start_center_end_matches(*t, e, s)),
        r matches Err(err) ==> !(err is UnknownTag),
        r matches Err(err) ==> tree_fault(*t, err),
{
    let elems = t.child_elements_of(b);
    let mut list: Vec<StbSecBeamStartCenterEndSection> = Vec::new();
    let mut k: usize = 0;
    while k < elems.len()
        invariant
            t.wf(),
            elems@ == t.child_elements(b as int),
            forall|m: int| 0 <= m < elems@.len() ==> #[trigger] elems@[m] < t.nodes@.len(),
            forall|m: int| 0 <= m < elems@.len() ==> t.nodes@[#[trigger] elems@[m] as int].is_element,
            k <= elems@.len(),
            forall|j: int|
                0 <= j < k ==> (t.is_element_named(#[trigger] elems@[j] as int, "StbSecBeam_Start_Center_End_Section"@) ==> start_center_end_ok(*t, elems@[j] as int)),
            read_from(list@, named_among(*t, elems@.subrange(0, k as int), "StbSecBeam_Start_Center_End_Section"@), |e: int, s: StbSecBeamStartCenterEndSection| start_center_end_matches(*t, e, s)),
        decreases elems@.len() - k,
    {
        let e = elems[k];
        assert(elems@.subrange(0, k + 1).drop_last() =~= elems@.subrange(0, k as int));
        if same_text(t.nodes[e].name.as_str(), "StbSecBeam_Start_Center_End_Section") {
            let s = parse_start_center_end(t, e)?;
            list.push(s);
        }
        k = k + 1;
    }
    assert(elems@.subrange(0, k as int) =~= elems@);
    Ok(list)
}

fn parse_bar_arrangement_beam(t: &XmlTree, b: usize) -> (r: Result<StbSecBarArrangementBeam, StbError>)
    requires
        t.wf(),
        b < t.nodes@.len(),
    ensures
        r is Ok <==> bar_arrangement_beam_ok(*t, b as int),
        r matches Ok(v) ==> bar_arrangement_beam_matches(*t, b as int, v),
        r matches Err(err) ==> !(err is UnknownTag),
        r matches Err(err) ==> tree_fault(*t, err),
{
    let list = extract_part_schedules(t, b)?;
    let stb_sec_beam_start_center_end_section_list = if list.len() > 0 {
        Some(list)
    } else {
        None
    };
    let stb_sec_beam_same_section = match extract_node(t, "StbSecBeam_Same_Section", b) {
        Some(s) => Some(parse_same_section(t, s)?),
        None => None,
    };
    Ok(StbSecBarArrangementBeam { stb_sec_beam_start_center_end_section_list, stb_sec_beam_same_section })
}

/// Outline of a reinforced-concrete slab section.
#[derive(Debug, Clone, PartialEq)]
pub struct StbSecFigureSlab {
    pub stb_sec_straight: StbSecStraightSlab,
}

/// Bar arrangement of a reinforced-concrete slab section.
#[derive(Debug, Clone, PartialEq)]
pub struct StbSecBarArrangementSlab {
    pub stb_sec_1way_slab_1_list: Vec<StbSec1WaySlab1>,
}

/// Every child of bar-arrangement element `b` reads as a slab bar schedule.
pub open spec fn slab_schedules_ok(t: XmlTree, b: int) -> bool {
    forall|j: int| 0 <= j < t.child_elements(b).len() ==> one_way_slab_ok(t, #[trigger] t.child_elements(b)[j] as int)
}

fn parse_bar_arrangement_slab(t: &XmlTree, b: usize) -> (r: Result<StbSecBarArrangementSlab, StbError>)
    requires
        t.wf(),
        b < t.nodes@.len(),
    ensures
        r is Ok <==> slab_schedules_ok(*t, b as int),
        r matches Ok(v) ==> read_from(v.stb_sec_1way_slab_1_list@, t.child_elements(b as int), |e: int, s: StbSec1WaySlab1| one_way_slab_matches(*t, e, s)),
        r matches Err(err) ==> !(err is UnknownTag),
        r matches Err(err) ==> tree_fault(*t, err),
{
    let elems = t.child_elements_of(b);
    let mut list: Vec<StbSec1WaySlab1> = Vec::new();
    let mut k: usize = 0;
    while k < elems.len()
        invariant
            t.wf(),
            elems@ == t.child_elements(b as int),
            forall|m: int| 0 <= m < elems@.len() ==> #[trigger] elems@[m] < t.nodes@.len(),
            k <= elems@.len(),
            list@.len() == k,
            forall|j: int|
                0 <= j < k ==> one_way_slab_ok(*t, #[trigger] elems@[j] as int)
                    && one_way_slab_matches(*t, elems@[j] as int, list@[j]),
        decreases elems@.len() - k,
    {
        let s = parse_one_way_slab(t, elems[k])?;
        list.push(s);
        k = k + 1;
    }
    Ok(StbSecBarArrangementSlab { stb_sec_1way_slab_1_list: list })
}

/// A section definition.
#[derive(Debug, Clone, PartialEq)]
#[allow(inconsistent_fields)]
pub enum StbSection {
    StbSecColumnS {
        id: u32,
        name: String,
        floor: String,
        kind_column: ColumnKind,
        direction: bool,
        base_type: SteelBaseType,
        stb_sec_steel_column: StbSecSteelColumn,
    },
    StbSecBeamRC {
        id: u32,
        name: String,
        floor: String,
        kind_beam: BeamKind,
        is_foundation: bool,
        is_canti: bool,
        d_reinforcement_main: String,
        d_stirrup: String,
        d_reinforcement_web: String,
        d_bar_spacing: String,
        strength_concrete: Option<String>,
        strength_reinforcement_main: String,
        strength_reinforcement_2nd_main: Option<String>,
        strength_stirrup: String,
        strength_reinforcement_web: String,
        strength_bar_spacing: String,
        depth_cover_left: Option<Real>,
        depth_cover_right: Option<Real>,
        depth_cover_top: Option<Real>,
        depth_cover_bottom: Option<Real>,
        stb_sec_figure: StbSecFigureBeam,
        stb_sec_bar_arrangement: StbSecBarArrangementBeam,
    },
    StbSecBeamS {
        id: u32,
        name: String,
        floor: String,
        kind_beam: BeamKind,
        is_canti: bool,
        stb_sec_steel_beam: StbSecSteelBeam,
    },
    StbSecSlabRC {
        id: u32,
        name: String,
        is_foundation: bool,
        is_canti: bool,
        strength_concrete: String,
        stb_sec_figure: StbSecFigureSlab,
        stb_sec_bar_arrangement: StbSecBarArrangementSlab,
    },
    StbSecBraceS {
        id: u32,
        name: String,
        floor: String,
        kind_brace: BraceKind,
        stb_sec_steel_brace: StbSecSteelBrace,
    },
}

/// Element `e` reads whole as a section of this kind.
pub open spec fn column_s_ok(t: XmlTree, e: int) -> bool {
    &&& scalar::<u32>(t, e, "id"@) is Some
    &&& t.attr(e, "name"@) is Some
    &&& t.attr(e, "floor"@) is Some
    &&& exact::<ColumnKind>(t, e, "kind_column"@) is Some
    &&& scalar::<bool>(t, e, "direction"@) is Some
    &&& exact::<SteelBaseType>(t, e, "base_type"@) is Some
    &&& t.child_named(e, "StbSecSteelColumn"@) is Some
    &&& steel_column_ok(t, t.child_named(e, "StbSecSteelColumn"@)->0 as int)
}

/// `v` is the section that element `e` holds.
pub open spec fn column_s_matches(t: XmlTree, e: int, v: StbSection) -> bool {
    &&& v matches StbSection::StbSecColumnS { id, name, floor, kind_column, direction, base_type, stb_sec_steel_column }
    &&& id == scalar::<u32>(t, e, "id"@)->0
    &&& name@ == lowered(t, e, "name"@)->0
    &&& floor@ == lowered(t, e, "floor"@)->0
    &&& kind_column == exact::<ColumnKind>(t, e, "kind_column"@)->0
    &&& direction == scalar::<bool>(t, e, "direction"@)->0
    &&& base_type == exact::<SteelBaseType>(t, e, "base_type"@)->0
    &&& steel_column_matches(t, t.child_named(e, "StbSecSteelColumn"@)->0 as int, stb_sec_steel_column)
}

fn parse_column_s(t: &XmlTree, e: usize) -> (r: Result<StbSection, StbError>)
    requires
        t.wf(),
        e < t.nodes@.len(),
    ensures
        r is Ok <==> column_s_ok(*t, e as int),
        r matches Ok(v) ==> column_s_matches(*t, e as int, v),
        r matches Err(err) ==> !(err is UnknownTag),
        r matches Err(err) ==> tree_fault(*t, err),
{
    let x = required_child(t, e, "StbSecSteelColumn")?;
    let stb_sec_steel_column = parse_steel_column(t, x)?;
    Ok(StbSection::StbSecColumnS {
        id: parse_attribute::<u32>(t, e, "id")?,
        name: parse_text_attribute(t, e, "name")?,
        floor: parse_text_attribute(t, e, "floor")?,
        kind_column: parse_enum_attribute::<ColumnKind>(t, e, "kind_column")?,
        direction: parse_attribute::<bool>(t, e, "direction")?,
        base_type: parse_enum_attribute::<SteelBaseType>(t, e, "base_type")?,
        stb_sec_steel_column: stb_sec_steel_column,
    })
}

/// Element `e` reads whole as a section of this kind.
pub open spec fn beam_rc_ok(t: XmlTree, e: int) -> bool {
    &&& scalar::<u32>(t, e, "id"@) is Some
    &&& t.attr(e, "name"@) is Some
    &&& t.attr(e, "floor"@) is Some
    &&& exact::<BeamKind>(t, e, "kind_beam"@) is Some
    &&& scalar::<bool>(t, e, "isFoundation"@) is Some
    &&& scalar::<bool>(t, e, "isCanti"@) is Some
    &&& t.attr(e, "D_reinforcement_main"@) is Some
    &&& t.attr(e, "D_stirrup"@) is Some
    &&& t.attr(e, "D_reinforcement_web"@) is Some
    &&& t.attr(e, "D_bar_spacing"@) is Some
    &&& t.attr(e, "strength_reinforcement_main"@) is Some
    &&& t.attr(e, "strength_stirrup"@) is Some
    &&& t.attr(e, "strength_reinforcement_web"@) is Some
    &&& t.attr(e, "strength_bar_spacing"@) is Some
    &&& (t.attr(e, "depth_cover_left"@) is None || exact_real(t, e, "depth_cover_left"@) is Some)
    &&& (t.attr(e, "depth_cover_right"@) is None || exact_real(t, e, "depth_cover_right"@) is Some)
    &&& (t.attr(e, "depth_cover_top"@) is None || exact_real(t, e, "depth_cover_top"@) is Some)
    &&& (t.attr(e, "depth_cover_bottom"@) is None || exact_real(t, e, "depth_cover_bottom"@) is Some)
    &&& t.child_named(e, "StbSecFigure"@) is Some
    &&& figure_beam_ok(t, t.child_named(e, "StbSecFigure"@)->0 as int)
    &&& t.child_named(e, "StbSecBar_Arrangement"@) is Some
    &&& bar_arrangement_beam_ok(t, t.child_named(e, "StbSecBar_Arrangement"@)->0 as int)
}

/// `v` is the section that element `e` holds.
pub open spec fn beam_rc_matches(t: XmlTree, e: int, v: StbSection) -> bool {
    &&& v matches StbSection::StbSecBeamRC { id, name, floor, kind_beam, is_foundation, is_canti, d_reinforcement_main, d_stirrup, d_reinforcement_web, d_bar_spacing, strength_concrete, strength_reinforcement_main, strength_reinforcement_2nd_main, strength_stirrup, strength_reinforcement_web, strength_bar_spacing, depth_cover_left, depth_cover_right, depth_cover_top, depth_cover_bottom, stb_sec_figure, stb_sec_bar_arrangement }
    &&& id == scalar::<u32>(t, e, "id"@)->0
    &&& name@ == lowered(t, e, "name"@)->0
    &&& floor@ == lowered(t, e, "floor"@)->0
    &&& kind_beam == exact::<BeamKind>(t, e, "kind_beam"@)->0
    &&& is_foundation == scalar::<bool>(t, e, "isFoundation"@)->0
    &&& is_canti == scalar::<bool>(t, e, "isCanti"@)->0
    &&& d_reinforcement_main@ == lowered(t, e, "D_reinforcement_main"@)->0
    &&& d_stirrup@ == lowered(t, e, "D_stirrup"@)->0
    &&& d_reinforcement_web@ == lowered(t, e, "D_reinforcement_web"@)->0
    &&& d_bar_spacing@ == lowered(t, e, "D_bar_spacing"@)->0
    &&& (strength_concrete is Some <==> t.attr(e, "strength_concrete"@) is Some) && (strength_concrete matches Some(x) ==> t.attr(e, "strength_concrete"@) == Some(x@))
    &&& strength_reinforcement_main@ == lowered(t, e, "strength_reinforcement_main"@)->0
    &&& (strength_reinforcement_2nd_main is Some <==> t.attr(e, "strength_reinforcement_2nd_main"@) is Some) && (strength_reinforcement_2nd_main matches Some(x) ==> t.attr(e, "strength_reinforcement_2nd_main"@) == Some(x@))
    &&& strength_stirrup@ == lowered(t, e, "strength_stirrup"@)->0
    &&& strength_reinforcement_web@ == lowered(t, e, "strength_reinforcement_web"@)->0
    &&& strength_bar_spacing@ == lowered(t, e, "strength_bar_spacing"@)->0
    &&& (depth_cover_left is Some <==> t.attr(e, "depth_cover_left"@) is Some) && (depth_cover_left matches Some(x) ==> exact_real(t, e, "depth_cover_left"@) == Some(x@))
    &&& (depth_cover_right is Some <==> t.attr(e, "depth_cover_right"@) is Some) && (depth_cover_right matches Some(x) ==> exact_real(t, e, "depth_cover_right"@) == Some(x@))
    &&& (depth_cover_top is Some <==> t.attr(e, "depth_cover_top"@) is Some) && (depth_cover_top matches Some(x) ==> exact_real(t, e, "depth_cover_top"@) == Some(x@))
    &&& (depth_cover_bottom is Some <==> t.attr(e, "depth_cover_bottom"@) is Some) && (depth_cover_bottom matches Some(x) ==> exact_real(t, e, "depth_cover_bottom"@) == Some(x@))
    &&& figure_beam_matches(t, t.child_named(e, "StbSecFigure"@)->0 as int, stb_sec_figure)
    &&& bar_arrangement_beam_matches(t, t.child_named(e, "StbSecBar_Arrangement"@)->0 as int, stb_sec_bar_arrangement)
}

fn parse_beam_rc(t: &XmlTree, e: usize) -> (r: Result<StbSection, StbError>)
    requires
        t.wf(),
        e < t.nodes@.len(),
    ensures
        r is Ok <==> beam_rc_ok(*t, e as int),
        r matches Ok(v) ==> beam_rc_matches(*t, e as int, v),
        r matches Err(err) ==> !(err is UnknownTag),
        r matches Err(err) ==> tree_fault(*t, err),
{
    let f = required_child(t, e, "StbSecFigure")?;
    let stb_sec_figure = parse_figure_beam(t, f)?;
    let b = required_child(t, e, "StbSecBar_Arrangement")?;
    let stb_sec_bar_arrangement = parse_bar_arrangement_beam(t, b)?;
    Ok(StbSection::StbSecBeamRC {
        id: parse_attribute::<u32>(t, e, "id")?,
        name: parse_text_attribute(t, e, "name")?,
        floor: parse_text_attribute(t, e, "floor")?,
        kind_beam: parse_enum_attribute::<BeamKind>(t, e, "kind_beam")?,
        is_foundation: parse_attribute::<bool>(t, e, "isFoundation")?,
        is_canti: parse_attribute::<bool>(t, e, "isCanti")?,
        d_reinforcement_main: parse_text_attribute(t, e, "D_reinforcement_main")?,
        d_stirrup: parse_text_attribute(t, e, "D_stirrup")?,
        d_reinforcement_web: parse_text_attribute(t, e, "D_reinforcement_web")?,
        d_bar_spacing: parse_text_attribute(t, e, "D_bar_spacing")?,
        strength_concrete: optional_raw(t, e, "strength_concrete"),
        strength_reinforcement_main: parse_text_attribute(t, e, "strength_reinforcement_main")?,
        strength_reinforcement_2nd_main: optional_raw(t, e, "strength_reinforcement_2nd_main"),
        strength_stirrup: parse_text_attribute(t, e, "strength_stirrup")?,
        strength_reinforcement_web: parse_text_attribute(t, e, "strength_reinforcement_web")?,
        strength_bar_spacing: parse_text_attribute(t, e, "strength_bar_spacing")?,
        depth_cover_left: optional_real(t, e, "depth_cover_left")?,
        depth_cover_right: optional_real(t, e, "depth_cover_right")?,
        depth_cover_top: optional_real(t, e, "depth_cover_top")?,
        depth_cover_bottom: optional_real(t, e, "depth_cover_bottom")?,
        stb_sec_figure: stb_sec_figure,
        stb_sec_bar_arrangement: stb_sec_bar_arrangement,
    })
}

/// Element `e` reads whole as a section of this kind.
pub open spec fn beam_s_ok(t: XmlTree, e: int) -> bool {
    &&& scalar::<u32>(t, e, "id"@) is Some
    &&& t.attr(e, "name"@) is Some
    &&& t.attr(e, "floor"@) is Some
    &&& exact::<BeamKind>(t, e, "kind_beam"@) is Some
    &&& scalar::<bool>(t, e, "isCanti"@) is Some
    &&& t.child_named(e, "StbSecSteelBeam"@) is Some
    &&& steel_beam_ok(t, t.child_named(e, "StbSecSteelBeam"@)->0 as int)
}

/// `v` is the section that element `e` holds.
pub open spec fn beam_s_matches(t: XmlTree, e: int, v: StbSection) -> bool {
    &&& v matches StbSection::StbSecBeamS { id, name, floor, kind_beam, is_canti, stb_sec_steel_beam }
    &&& id == scalar::<u32>(t, e, "id"@)->0
    &&& name@ == lowered(t, e, "name"@)->0
    &&& floor@ == lowered(t, e, "floor"@)->0
    &&& kind_beam == exact::<BeamKind>(t, e, "kind_beam"@)->0
    &&& is_canti == scalar::<bool>(t, e, "isCanti"@)->0
    &&& steel_beam_matches(t, t.child_named(e, "StbSecSteelBeam"@)->0 as int, stb_sec_steel_beam)
}

fn parse_beam_s(t: &XmlTree, e: usize) -> (r: Result<StbSection, StbError>)
    requires
        t.wf(),
        e < t.nodes@.len(),
    ensures
        r is Ok <==> beam_s_ok(*t, e as int),
        r matches Ok(v) ==> beam_s_matches(*t, e as int, v),
        r matches Err(err) ==> !(err is UnknownTag),
        r matches Err(err) ==> tree_fault(*t, err),
{
    let x = required_child(t, e, "StbSecSteelBeam")?;
    let stb_sec_steel_beam = parse_steel_beam(t, x)?;
    Ok(StbSection::StbSecBeamS {
        id: parse_attribute::<u32>(t, e, "id")?,
        name: parse_text_attribute(t, e, "name")?,
        floor: parse_text_attribute(t, e, "floor")?,
        kind_beam: parse_enum_attribute::<BeamKind>(t, e, "kind_beam")?,
        is_canti: parse_attribute::<bool>(t, e, "isCanti")?,
        stb_sec_steel_beam: stb_sec_steel_beam,
    })
}

/// Element `e` reads whole as a section of this kind.
pub open spec fn slab_rc_ok(t: XmlTree, e: int) -> bool {
    &&& scalar::<u32>(t, e, "id"@) is Some
    &&& t.attr(e, "name"@) is Some
    &&& scalar::<bool>(t, e, "isFoundation"@) is Some
    &&& scalar::<bool>(t, e, "isCanti"@) is Some
    &&& t.attr(e, "strength_concrete"@) is Some
    &&& t.child_named(e, "StbSecFigure"@) is Some
    &&& t.child_named(t.child_named(e, "StbSecFigure"@)->0 as int, "StbSecStraight"@) is Some
    &&& straight_slab_ok(t, t.child_named(t.child_named(e, "StbSecFigure"@)->0 as int, "StbSecStraight"@)->0 as int)
    &&& t.child_named(e, "StbSecBar_Arrangement"@) is Some
    &&& slab_schedules_ok(t, t.child_named(e, "StbSecBar_Arrangement"@)->0 as int)
}

/// `v` is the section that element `e` holds.
pub open spec fn slab_rc_matches(t: XmlTree, e: int, v: StbSection) -> bool {
    &&& v matches StbSection::StbSecSlabRC { id, name, is_foundation, is_canti, strength_concrete, stb_sec_figure, stb_sec_bar_arrangement }
    &&& id == scalar::<u32>(t, e, "id"@)->0
    &&& name@ == lowered(t, e, "name"@)->0
    &&& is_foundation == scalar::<bool>(t, e, "isFoundation"@)->0
    &&& is_canti == scalar::<bool>(t, e, "isCanti"@)->0
    &&& strength_concrete@ == lowered(t, e, "strength_concrete"@)->0
    &&& straight_slab_matches(t, t.child_named(t.child_named(e, "StbSecFigure"@)->0 as int, "StbSecStraight"@)->0 as int, stb_sec_figure.stb_sec_straight)
    &&& read_from(stb_sec_bar_arrangement.stb_sec_1way_slab_1_list@, t.child_elements(t.child_named(e, "StbSecBar_Arrangement"@)->0 as int), |x: int, s: StbSec1WaySlab1| one_way_slab_matches(t, x, s))
}

fn parse_slab_rc(t: &XmlTree, e: usize) -> (r: Result<StbSection, StbError>)
    requires
        t.wf(),
        e < t.nodes@.len(),
    ensures
        r is Ok <==> slab_rc_ok(*t, e as int),
        r matches Ok(v) ==> slab_rc_matches(*t, e as int, v),
        r matches Err(err) ==> !(err is UnknownTag),
        r matches Err(err) ==> tree_fault(*t, err),
{
    let f = required_child(t, e, "StbSecFigure")?;
    let s = required_child(t, f, "StbSecStraight")?;
    let stb_sec_figure = StbSecFigureSlab { stb_sec_straight: parse_straight_slab(t, s)? };
    let b = required_child(t, e, "StbSecBar_Arrangement")?;
    let stb_sec_bar_arrangement = parse_bar_arrangement_slab(t, b)?;
    Ok(StbSection::StbSecSlabRC {
        id: parse_attribute::<u32>(t, e, "id")?,
        name: parse_text_attribute(t, e, "name")?,
        is_foundation: parse_attribute::<bool>(t, e, "isFoundation")?,
        is_canti: parse_attribute::<bool>(t, e, "isCanti")?,
        strength_concrete: parse_text_attribute(t, e, "strength_concrete")?,
        stb_sec_figure: stb_sec_figure,
        stb_sec_bar_arrangement: stb_sec_bar_arrangement,
    })
}

/// Element `e` reads whole as a section of this kind.
pub open spec fn brace_s_ok(t: XmlTree, e: int) -> bool {
    &&& scalar::<u32>(t, e, "id"@) is Some
    &&& t.attr(e, "name"@) is Some
    &&& t.attr(e, "floor"@) is Some
    &&& exact::<BraceKind>(t, e, "kind_brace"@) is Some
    &&& t.child_named(e, "StbSecSteelBrace"@) is Some
    &&& steel_brace_ok(t, t.child_named(e, "StbSecSteelBrace"@)->0 as int)
}

/// `v` is the section that element `e` holds.
pub open spec fn brace_s_matches(t: XmlTree, e: int, v: StbSection) -> bool {
    &&& v matches StbSection::StbSecBraceS { id, name, floor, kind_brace, stb_sec_steel_brace }
    &&& id == scalar::<u32>(t, e, "id"@)->0
    &&& name@ == lowered(t, e, "name"@)->0
    &&& floor@ == lowered(t, e, "floor"@)->0
    &&& kind_brace == exact::<BraceKind>(t, e, "kind_brace"@)->0
    &&& steel_brace_matches(t, t.child_named(e, "StbSecSteelBrace"@)->0 as int, stb_sec_steel_brace)
}

fn parse_brace_s(t: &XmlTree, e: usize) -> (r: Result<StbSection, StbError>)
    requires
        t.wf(),
        e < t.nodes@.len(),
    ensures
        r is Ok <==> brace_s_ok(*t, e as int),
        r matches Ok(v) ==> brace_s_matches(*t, e as int, v),
        r matches Err(err) ==> !(err is UnknownTag),
        r matches Err(err) ==> tree_fault(*t, err),
{
    let x = required_child(t, e, "StbSecSteelBrace")?;
    let stb_sec_steel_brace = parse_steel_brace(t, x)?;
    Ok(StbSection::StbSecBraceS {
        id: parse_attribute::<u32>(t, e, "id")?,
        name: parse_text_attribute(t, e, "name")?,
        floor: parse_text_attribute(t, e, "floor")?,
        kind_brace: parse_enum_attribute::<BraceKind>(t, e, "kind_brace")?,
        stb_sec_steel_brace: stb_sec_steel_brace,
    })
}

impl StbSection {
    pub open spec fn spec_id(self) -> u32 {
        match self {
            StbSection::StbSecColumnS { id, .. } => id,
            StbSection::StbSecBeamRC { id, .. } => id,
            StbSection::StbSecBeamS { id, .. } => id,
            StbSection::StbSecSlabRC { id, .. } => id,
            StbSection::StbSecBraceS { id, .. } => id,
        }
    }

    pub fn id(&self) -> (r: u32)
        ensures
            r == self.spec_id(),
    {
        match self {
            StbSection::StbSecColumnS { id, .. } => *id,
            StbSection::StbSecBeamRC { id, .. } => *id,
            StbSection::StbSecBeamS { id, .. } => *id,
            StbSection::StbSecSlabRC { id, .. } => *id,
            StbSection::StbSecBraceS { id, .. } => *id,
        }
    }
}

/// A steel profile of the catalog.
#[derive(Debug, Clone, PartialEq)]
#[allow(inconsistent_fields)]
pub enum StbSecSteelChildren {
    StbSecRollH {
        name: String,
        sec_type: StbSecRollHType,
        a: Real,
        b: Real,
        t1: Real,
        t2: Real,
        r: Real,
    },
    StbSecBuildH {
        name: String,
        a: Real,
        b: Real,
        t1: Real,
        t2: Real,
    },
    StbSecRollBox {
        name: String,
        sec_type: StbSecRollBoxType,
        a: Real,
        b: Real,
        t: Real,
        r: Real,
    },
    StbSecBuildBox {
        name: String,
        a: Real,
        b: Real,
        t1: Real,
        t2: Real,
    },
    StbSecPipe {
        name: String,
        d: Real,
        t: Real,
    },
    StbSecRollL {
        name: String,
        sec_type: StbSecRollLType,
        a: Real,
        b: Real,
        t1: Real,
        t2: Real,
        r1: Real,
        r2: Real,
        side: bool,
    },
}

/// Element `e` reads whole as a profile of this kind.
pub open spec fn roll_h_ok(t: XmlTree, e: int) -> bool {
    &&& t.attr(e, "name"@) is Some
    &&& exact::<StbSecRollHType>(t, e, "type"@) is Some
    &&& real_value(t, e, "A"@) is Some
    &&& real_value(t, e, "B"@) is Some
    &&& real_value(t, e, "t1"@) is Some
    &&& real_value(t, e, "t2"@) is Some
    &&& real_value(t, e, "r"@) is Some
}

/// `v` is the profile that element `e` holds.
pub open spec fn roll_h_matches(t: XmlTree, e: int, v: StbSecSteelChildren) -> bool {
    &&& v matches StbSecSteelChildren::StbSecRollH { name, sec_type, a, b, t1, t2, r }
    &&& name@ == lowered(t, e, "name"@)->0
    &&& sec_type == exact::<StbSecRollHType>(t, e, "type"@)->0
    &&& a@ == real_value(t, e, "A"@)->0
    &&& b@ == real_value(t, e, "B"@)->0
    &&& t1@ == real_value(t, e, "t1"@)->0
    &&& t2@ == real_value(t, e, "t2"@)->0
    &&& r@ == real_value(t, e, "r"@)->0
}

fn parse_roll_h(t: &XmlTree, e: usize) -> (r: Result<StbSecSteelChildren, StbError>)
    requires
        t.wf(),
        e < t.nodes@.len(),
    ensures
        r is Ok <==> roll_h_ok(*t, e as int),
        r matches Ok(v) ==> roll_h_matches(*t, e as int, v),
        r matches Err(err) ==> attribute_fault(*t, e as int, err),
        r matches Err(err) ==> !(err is UnknownTag),
        r matches Err(err) ==> tree_fault(*t, err),
{
    Ok(StbSecSteelChildren::StbSecRollH {
        name: parse_text_attribute(t, e, "name")?,
        sec_type: parse_enum_attribute::<StbSecRollHType>(t, e, "type")?,
        a: parse_real_attribute(t, e, "A")?,
        b: parse_real_attribute(t, e, "B")?,
        t1: parse_real_attribute(t, e, "t1")?,
        t2: parse_real_attribute(t, e, "t2")?,
        r: parse_real_attribute(t, e, "r")?,
    })
}

/// Element `e` reads whole as a profile of this kind.
pub open spec fn build_h_ok(t: XmlTree, e: int) -> bool {
    &&& t.attr(e, "name"@) is Some
    &&& real_value(t, e, "A"@) is Some
    &&& real_value(t, e, "B"@) is Some
    &&& real_value(t, e, "t1"@) is Some
    &&& real_value(t, e, "t2"@) is Some
}

/// `v` is the profile that element `e` holds.
pub open spec fn build_h_matches(t: XmlTree, e: int, v: StbSecSteelChildren) -> bool {
    &&& v matches StbSecSteelChildren::StbSecBuildH { name, a, b, t1, t2 }
    &&& name@ == lowered(t, e, "name"@)->0
    &&& a@ == real_value(t, e, "A"@)->0
    &&& b@ == real_value(t, e, "B"@)->0
    &&& t1@ == real_value(t, e, "t1"@)->0
    &&& t2@ == real_value(t, e, "t2"@)->0
}

fn parse_build_h(t: &XmlTree, e: usize) -> (r: Result<StbSecSteelChildren, StbError>)
    requires
        t.wf(),
        e < t.nodes@.len(),
    ensures
        r is Ok <==> build_h_ok(*t, e as int),
        r matches Ok(v) ==> build_h_matches(*t, e as int, v),
        r matches Err(err) ==> attribute_fault(*t, e as int, err),
        r matches Err(err) ==> !(err is UnknownTag),
        r matches Err(err) ==> tree_fault(*t, err),
{
    Ok(StbSecSteelChildren::StbSecBuildH {
        name: parse_text_attribute(t, e, "name")?,
        a: parse_real_attribute(t, e, "A")?,
        b: parse_real_attribute(t, e, "B")?,
        t1: parse_real_attribute(t, e, "t1")?,
        t2: parse_real_attribute(t, e, "t2")?,
    })
}

/// Element `e` reads whole as a profile of this kind.
pub open spec fn roll_box_ok(t: XmlTree, e: int) -> bool {
    &&& t.attr(e, "name"@) is Some
    &&& exact::<StbSecRollBoxType>(t, e, "type"@) is Some
    &&& real_value(t, e, "A"@) is Some
    &&& real_value(t, e, "B"@) is Some
    &&& real_value(t, e, "t"@) is Some
    &&& real_value(t, e, "R"@) is Some
}

/// `v` is the profile that element `e` holds.
pub open spec fn roll_box_matches(t: XmlTree, e: int, v: StbSecSteelChildren) -> bool {
    &&& v matches StbSecSteelChildren::StbSecRollBox { name, sec_type, a, b, t: thickness, r }
    &&& name@ == lowered(t, e, "name"@)->0
    &&& sec_type == exact::<StbSecRollBoxType>(t, e, "type"@)->0
    &&& a@ == real_value(t, e, "A"@)->0
    &&& b@ == real_value(t, e, "B"@)->0
    &&& thickness@ == real_value(t, e, "t"@)->0
    &&& r@ == real_value(t, e, "R"@)->0
}

fn parse_roll_box(t: &XmlTree, e: usize) -> (r: Result<StbSecSteelChildren, StbError>)
    requires
        t.wf(),
        e < t.nodes@.len(),
    ensures
        r is Ok <==> roll_box_ok(*t, e as int),
        r matches Ok(v) ==> roll_box_matches(*t, e as int, v),
        r matches Err(err) ==> attribute_fault(*t, e as int, err),
        r matches Err(err) ==> !(err is UnknownTag),
        r matches Err(err) ==> tree_fault(*t, err),
{
    Ok(StbSecSteelChildren::StbSecRollBox {
        name: parse_text_attribute(t, e, "name")?,
        sec_type: parse_enum_attribute::<StbSecRollBoxType>(t, e, "type")?,
        a: parse_real_attribute(t, e, "A")?,
        b: parse_real_attribute(t, e, "B")?,
        t: parse_real_attribute(t, e, "t")?,
        r: parse_real_attribute(t, e, "R")?,
    })
}

/// Element `e` reads whole as a profile of this kind.
pub open spec fn build_box_ok(t: XmlTree, e: int) -> bool {
    &&& t.attr(e, "name"@) is Some
    &&& real_value(t, e, "A"@) is Some
    &&& real_value(t, e, "B"@) is Some
    &&& real_value(t, e, "t1"@) is Some
    &&& real_value(t, e, "t2"@) is Some
}

/// `v` is the profile that element `e` holds.
pub open spec fn build_box_matches(t: XmlTree, e: int, v: StbSecSteelChildren) -> bool {
    &&& v matches StbSecSteelChildren::StbSecBuildBox { name, a, b, t1, t2 }
    &&& name@ == lowered(t, e, "name"@)->0
    &&& a@ == real_value(t, e, "A"@)->0
    &&& b@ == real_value(t, e, "B"@)->0
    &&& t1@ == real_value(t, e, "t1"@)->0
    &&& t2@ == real_value(t, e, "t2"@)->0
}

fn parse_build_box(t: &XmlTree, e: usize) -> (r: Result<StbSecSteelChildren, StbError>)
    requires
        t.wf(),
        e < t.nodes@.len(),
    ensures
        r is Ok <==> build_box_ok(*t, e as int),
        r matches Ok(v) ==> build_box_matches(*t, e as int, v),
        r matches Err(err) ==> attribute_fault(*t, e as int, err),
        r matches Err(err) ==> !(err is UnknownTag),
        r matches Err(err) ==> tree_fault(*t, err),
{
    Ok(StbSecSteelChildren::StbSecBuildBox {
        name: parse_text_attribute(t, e, "name")?,
        a: parse_real_attribute(t, e, "A")?,
        b: parse_real_attribute(t, e, "B")?,
        t1: parse_real_attribute(t, e, "t1")?,
        t2: parse_real_attribute(t, e, "t2")?,
    })
}

/// Element `e` reads whole as a profile of this kind.
pub open spec fn pipe_ok(t: XmlTree, e: int) -> bool {
    &&& t.attr(e, "name"@) is Some
    &&& real_value(t, e, "D"@) is Some
    &&& real_value(t, e, "t"@) is Some
}

/// `v` is the profile that element `e` holds.
pub open spec fn pipe_matches(t: XmlTree, e: int, v: StbSecSteelChildren) -> bool {
    &&& v matches StbSecSteelChildren::StbSecPipe { name, d, t: thickness }
    &&& name@ == lowered(t, e, "name"@)->0
    &&& d@ == real_value(t, e, "D"@)->0
    &&& thickness@ == real_value(t, e, "t"@)->0
}

fn parse_pipe(t: &XmlTree, e: usize) -> (r: Result<StbSecSteelChildren, StbError>)
    requires
        t.wf(),
        e < t.nodes@.len(),
    ensures
        r is Ok <==> pipe_ok(*t, e as int),
        r matches Ok(v) ==> pipe_matches(*t, e as int, v),
        r matches Err(err) ==> attribute_fault(*t, e as int, err),
        r matches Err(err) ==> !(err is UnknownTag),
        r matches Err(err) ==> tree_fault(*t, err),
{
    Ok(StbSecSteelChildren::StbSecPipe {
        name: parse_text_attribute(t, e, "name")?,
        d: parse_real_attribute(t, e, "D")?,
        t: parse_real_attribute(t, e, "t")?,
    })
}

/// Element `e` reads whole as a profile of this kind.
pub open spec fn roll_l_ok(t: XmlTree, e: int) -> bool {
    &&& t.attr(e, "name"@) is Some
    &&& exact::<StbSecRollLType>(t, e, "type"@) is Some
    &&& real_value(t, e, "A"@) is Some
    &&& real_value(t, e, "B"@) is Some
    &&& real_value(t, e, "t1"@) is Some
    &&& real_value(t, e, "t2"@) is Some
    &&& real_value(t, e, "r1"@) is Some
    &&& real_value(t, e, "r2"@) is Some
    &&& scalar::<bool>(t, e, "side"@) is Some
}

/// `v` is the profile that element `e` holds.
pub open spec fn roll_l_matches(t: XmlTree, e: int, v: StbSecSteelChildren) -> bool {
    &&& v matches StbSecSteelChildren::StbSecRollL { name, sec_type, a, b, t1, t2, r1, r2, side }
    &&& name@ == lowered(t, e, "name"@)->0
    &&& sec_type == exact::<StbSecRollLType>(t, e, "type"@)->0
    &&& a@ == real_value(t, e, "A"@)->0
    &&& b@ == real_value(t, e, "B"@)->0
    &&& t1@ == real_value(t, e, "t1"@)->0
    &&& t2@ == real_value(t, e, "t2"@)->0
    &&& r1@ == real_value(t, e, "r1"@)->0
    &&& r2@ == real_value(t, e, "r2"@)->0
    &&& side == scalar::<bool>(t, e, "side"@)->0
}

fn parse_roll_l(t: &XmlTree, e: usize) -> (r: Result<StbSecSteelChildren, StbError>)
    requires
        t.wf(),
        e < t.nodes@.len(),
    ensures
        r is Ok <==> roll_l_ok(*t, e as int),
        r matches Ok(v) ==> roll_l_matches(*t, e as int, v),
        r matches Err(err) ==> attribute_fault(*t, e as int, err),
        r matches Err(err) ==> !(err is UnknownTag),
        r matches Err(err) ==> tree_fault(*t, err),
{
    Ok(StbSecSteelChildren::StbSecRollL {
        name: parse_text_attribute(t, e, "name")?,
        sec_type: parse_enum_attribute::<StbSecRollLType>(t, e, "type")?,
        a: parse_real_attribute(t, e, "A")?,
        b: parse_real_attribute(t, e, "B")?,
        t1: parse_real_attribute(t, e, "t1")?,
        t2: parse_real_attribute(t, e, "t2")?,
        r1: parse_real_attribute(t, e, "r1")?,
        r2: parse_real_attribute(t, e, "r2")?,
        side: parse_attribute::<bool>(t, e, "side")?,
    })
}

impl StbSecSteelChildren {
    pub open spec fn spec_name(self) -> Seq<char> {
        match self {
            StbSecSteelChildren::StbSecRollH { name, .. } => name@,
            StbSecSteelChildren::StbSecBuildH { name, .. } => name@,
            StbSecSteelChildren::StbSecRollBox { name, .. } => name@,
            StbSecSteelChildren::StbSecBuildBox { name, .. } => name@,
            StbSecSteelChildren::StbSecPipe { name, .. } => name@,
            StbSecSteelChildren::StbSecRollL { name, .. } => name@,
        }
    }

    /// The profile's name, its key in the catalog.
    pub fn name(&self) -> (r: String)
        ensures
            r@ == self.spec_name(),
    {
        match self {
            StbSecSteelChildren::StbSecRollH { name, .. } => name.clone(),
            StbSecSteelChildren::StbSecBuildH { name, .. } => name.clone(),
            StbSecSteelChildren::StbSecRollBox { name, .. } => name.clone(),
            StbSecSteelChildren::StbSecBuildBox { name, .. } => name.clone(),
            StbSecSteelChildren::StbSecPipe { name, .. } => name.clone(),
            StbSecSteelChildren::StbSecRollL { name, .. } => name.clone(),
        }
    }
}

/// Whether the profiles of tag `g` are read.
pub open spec fn is_read_steel(g: SteelTag) -> bool {
    ||| g is RollH
    ||| g is BuildH
    ||| g is RollBox
    ||| g is BuildBox
    ||| g is Pipe
    ||| g is RollL
}

/// The profile tag of element `e`.
pub open spec fn steel_tag_of(t: XmlTree, e: int) -> Option<SteelTag> {
    SteelTag::spec_parse(t.tag(e))
}

/// Element `e` of profile tag `g` reads.
pub open spec fn steel_child_ok(t: XmlTree, e: int, g: SteelTag) -> bool {
    match g {
        SteelTag::RollH => roll_h_ok(t, e),
        SteelTag::BuildH => build_h_ok(t, e),
        SteelTag::RollBox => roll_box_ok(t, e),
        SteelTag::BuildBox => build_box_ok(t, e),
        SteelTag::Pipe => pipe_ok(t, e),
        SteelTag::RollL => roll_l_ok(t, e),
        _ => true,
    }
}

/// `v` is the profile that element `e` of profile tag `g` holds.
pub open spec fn steel_child_matches(t: XmlTree, e: int, g: SteelTag, v: StbSecSteelChildren) -> bool {
    match g {
        SteelTag::RollH => roll_h_matches(t, e, v),
        SteelTag::BuildH => build_h_matches(t, e, v),
        SteelTag::RollBox => roll_box_matches(t, e, v),
        SteelTag::BuildBox => build_box_matches(t, e, v),
        SteelTag::Pipe => pipe_matches(t, e, v),
        SteelTag::RollL => roll_l_matches(t, e, v),
        _ => false,
    }
}

fn parse_steel_child(t: &XmlTree, e: usize, g: SteelTag) -> (r: Result<StbSecSteelChildren, StbError>)
    requires
        t.wf(),
        e < t.nodes@.len(),
        is_read_steel(g),
    ensures
        r is Ok <==> steel_child_ok(*t, e as int, g),
        r matches Ok(v) ==> steel_child_matches(*t, e as int, g, v),
        r matches Err(err) ==> !(err is UnknownTag),
        r matches Err(err) ==> tree_fault(*t, err),
{
    match g {
        SteelTag::RollH => parse_roll_h(t, e),
        SteelTag::BuildH => parse_build_h(t, e),
        SteelTag::RollBox => parse_roll_box(t, e),
        SteelTag::BuildBox => parse_build_box(t, e),
        SteelTag::Pipe => parse_pipe(t, e),
        SteelTag::RollL => parse_roll_l(t, e),
        _ => Err(StbError::MalformedTree),
    }
}

/// Those of `cs` whose profiles are read, in order.
pub open spec fn read_profiles(t: XmlTree, cs: Seq<usize>) -> Seq<usize>
    decreases cs.len(),
{
    if cs.len() == 0 {
        Seq::empty()
    } else {
        let p = read_profiles(t, cs.drop_last());
        if steel_tag_of(t, cs.last() as int) matches Some(g) && is_read_steel(g) {
            p.push(cs.last())
        } else {
            p
        }
    }
}

/// The names of the profile elements `elems`.
pub open spec fn profile_keys(t: XmlTree, elems: Seq<usize>) -> Seq<Seq<char>> {
    Seq::new(elems.len(), |j: int| lowered(t, elems[j] as int, "name"@)->0)
}

/// What the j-th of the profile elements `elems` makes.
pub open spec fn profile_made(t: XmlTree, elems: Seq<usize>) -> spec_fn(int, StbSecSteelChildren) -> bool {
    |j: int, v: StbSecSteelChildren| steel_child_matches(t, elems[j] as int, steel_tag_of(t, elems[j] as int)->0, v)
}

/// Element `e` of a steel catalog is a profile that reads, or one that is passed over.
pub open spec fn profile_ok(t: XmlTree, e: int) -> bool {
    match steel_tag_of(t, e) {
        Some(g) => steel_child_ok(t, e, g),
        None => false,
    }
}

/// Every child of steel catalog element `s` has a profile tag, and each
/// profile that is read reads.
pub open spec fn steel_ok(t: XmlTree, s: int) -> bool {
    forall|j: int| 0 <= j < t.child_elements(s).len() ==> profile_ok(t, #[trigger] t.child_elements(s)[j] as int)
}

/// `table` holds the profiles of steel catalog element `s`: one entry per
/// distinct name, holding the profile of the last element with that name.
pub open spec fn steel_built(t: XmlTree, s: int, table: Seq<(Seq<char>, StbSecSteelChildren)>) -> bool {
    let elems = read_profiles(t, t.child_elements(s));
    built_from(table, profile_keys(t, elems), profile_made(t, elems))
}

/// The catalog of steel profiles, keyed by profile name.
#[derive(Debug, Clone, PartialEq)]
pub struct StbSecSteel {
    pub children_map: TextTable<StbSecSteelChildren>,
}

impl StbSecSteel {
    pub fn new() -> (r: StbSecSteel)
        ensures
            r.children_map@.len() == 0,
    {
        StbSecSteel { children_map: TextTable::new() }
    }
}

/// Reads the steel catalog element `s`. Profiles of a tag that is known but
/// not read are passed over; a tag that is not known is an error.
pub fn extract_stb_sec_steel(t: &XmlTree, s: usize) -> (r: Result<StbSecSteel, StbError>)
    requires
        t.wf(),
        s < t.nodes@.len(),
    ensures
        r is Ok <==> steel_ok(*t, s as int),
        r matches Ok(v) ==> steel_built(*t, s as int, v.children_map@),
        r matches Err(StbError::UnknownTag { name }) ==> exists|j: int|
            0 <= j < t.child_elements(s as int).len() && #[trigger] t.tag(t.child_elements(s as int)[j] as int) == name@
                && SteelTag::spec_parse(name@) is None,
        r matches Err(err) ==> tree_fault(*t, err),
{
    let elems = t.child_elements_of(s);
    let mut steel = StbSecSteel::new();
    let mut k: usize = 0;
    assert(elems@.subrange(0, 0) =~= Seq::<usize>::empty());
    assert(profile_keys(*t, read_profiles(*t, elems@.subrange(0, 0))) =~= Seq::<Seq<char>>::empty());
    while k < elems.len()
        invariant
            t.wf(),
            elems@ == t.child_elements(s as int),
            forall|m: int| 0 <= m < elems@.len() ==> #[trigger] elems@[m] < t.nodes@.len(),
            forall|m: int| 0 <= m < elems@.len() ==> t.nodes@[#[trigger] elems@[m] as int].is_element,
            k <= elems@.len(),
            forall|j: int| 0 <= j < k ==> profile_ok(*t, #[trigger] elems@[j] as int),
            built_from(
                steel.children_map@,
                profile_keys(*t, read_profiles(*t, elems@.subrange(0, k as int))),
                profile_made(*t, read_profiles(*t, elems@.subrange(0, k as int))),
            ),
        decreases elems@.len() - k,
    {
        let e = elems[k];
        let ghost before = read_profiles(*t, elems@.subrange(0, k as int));
        assert(elems@.subrange(0, k + 1).drop_last() =~= elems@.subrange(0, k as int));
        assert(elems@.subrange(0, k + 1).last() == e);
        match SteelTag::parse_text(t.nodes[e].name.as_str()) {
            Some(g) => {
                match g {
                    SteelTag::RollH | SteelTag::BuildH | SteelTag::RollBox | SteelTag::BuildBox | SteelTag::Pipe | SteelTag::RollL => {
                            let v = parse_steel_child(t, e, g)?;
                            let name = v.name();
                            proof {
                                let after = read_profiles(*t, elems@.subrange(0, k + 1));
                                assert(after == before.push(e));
                                lemma_built_from_made(
                                    steel.children_map@,
                                    profile_keys(*t, before),
                                    profile_made(*t, before),
                                    profile_made(*t, after),
                                );
                                lemma_built_from_insert(
                                    steel.children_map@,
                                    profile_keys(*t, before),
                                    profile_made(*t, after),
                                    name@,
                                    v,
                                );
                                assert(profile_keys(*t, after) =~= profile_keys(*t, before).push(name@));
                            }
                            steel.children_map.insert(name, v);

                    },
                    _ => {},
                }
            },
            None => {
                let name = t.nodes[e].name.clone();
                assert(t.tag(e as int) == name@);
                return Err(StbError::UnknownTag { name });
            },
        }
        k = k + 1;
    }
    assert(elems@.subrange(0, k as int) =~= elems@);
    Ok(steel)
}

/// The section tag of element `e`.
pub open spec fn section_tag_of(t: XmlTree, e: int) -> Option<SectionTag> {
    SectionTag::spec_parse(t.tag(e))
}

/// Section element `e` of tag `g` reads.
pub open spec fn section_ok(t: XmlTree, e: int, g: SectionTag) -> bool {
    match g {
        SectionTag::ColumnS => column_s_ok(t, e),
        SectionTag::BeamRC => beam_rc_ok(t, e),
        SectionTag::BeamS => beam_s_ok(t, e),
        SectionTag::SlabRC => slab_rc_ok(t, e),
        SectionTag::BraceS => brace_s_ok(t, e),
        SectionTag::Steel => steel_ok(t, e),
    }
}

/// `v` is the section that element `e` of tag `g` holds.
pub open spec fn section_matches(t: XmlTree, e: int, g: SectionTag, v: StbSection) -> bool {
    match g {
        SectionTag::ColumnS => column_s_matches(t, e, v),
        SectionTag::BeamRC => beam_rc_matches(t, e, v),
        SectionTag::BeamS => beam_s_matches(t, e, v),
        SectionTag::SlabRC => slab_rc_matches(t, e, v),
        SectionTag::BraceS => brace_s_matches(t, e, v),
        SectionTag::Steel => false,
    }
}

fn parse_section(t: &XmlTree, e: usize, g: SectionTag) -> (r: Result<StbSection, StbError>)
    requires
        t.wf(),
        e < t.nodes@.len(),
        !(g is Steel),
    ensures
        r is Ok <==> section_ok(*t, e as int, g),
        r matches Ok(v) ==> section_matches(*t, e as int, g, v),
        r matches Err(err) ==> tree_fault(*t, err),
{
    match g {
        SectionTag::ColumnS => parse_column_s(t, e),
        SectionTag::BeamRC => parse_beam_rc(t, e),
        SectionTag::BeamS => parse_beam_s(t, e),
        SectionTag::SlabRC => parse_slab_rc(t, e),
        SectionTag::BraceS => parse_brace_s(t, e),
        SectionTag::Steel => Err(StbError::MalformedTree),
    }
}

/// Those of `cs` whose section tag is `g`, in order.
pub open spec fn tagged_among(t: XmlTree, cs: Seq<usize>, g: SectionTag) -> Seq<usize>
    decreases cs.len(),
{
    if cs.len() == 0 {
        Seq::empty()
    } else {
        let p = tagged_among(t, cs.drop_last(), g);
        if section_tag_of(t, cs.last() as int) == Some(g) {
            p.push(cs.last())
        } else {
            p
        }
    }
}

/// The last of `cs` whose section tag is `g`.
pub open spec fn last_tagged(t: XmlTree, cs: Seq<usize>, g: SectionTag) -> Option<usize>
    decreases cs.len(),
{
    if cs.len() == 0 {
        None
    } else if section_tag_of(t, cs.last() as int) == Some(g) {
        Some(cs.last())
    } else {
        last_tagged(t, cs.drop_last(), g)
    }
}

/// What the j-th of the section elements `elems` of tag `g` makes.
pub open spec fn section_made(t: XmlTree, elems: Seq<usize>, g: SectionTag) -> spec_fn(int, StbSection) -> bool {
    |j: int, v: StbSection| section_matches(t, elems[j] as int, g, v)
}

/// `table` holds the sections of tag `g` among `cs`: one entry per distinct
/// ID, holding the section of the last element with that ID.
pub open spec fn kind_sections(t: XmlTree, cs: Seq<usize>, g: SectionTag, table: Seq<(u32, StbSection)>) -> bool {
    let elems = tagged_among(t, cs, g);
    built_from(table, id_keys(t, elems), section_made(t, elems, g))
}

/// Element `e` reads whole if it is a section element that is read.
pub open spec fn section_element_ok(t: XmlTree, e: int) -> bool {
    match section_tag_of(t, e) {
        Some(g) => section_ok(t, e, g),
        None => true,
    }
}

/// Every section element among the children of the section container `c`
/// that is read reads whole; other children are passed over.
pub open spec fn sections_ok(t: XmlTree, c: int) -> bool {
    forall|j: int| 0 <= j < t.child_elements(c).len() ==> section_element_ok(t, #[trigger] t.child_elements(c)[j] as int)
}

/// Each section table of `v` holds the sections of its tag among `cs`, and
/// the steel catalog is that of the last steel catalog element (empty where
/// there is none).
pub open spec fn sections_from(t: XmlTree, cs: Seq<usize>, v: StbSections) -> bool {
    &&& kind_sections(t, cs, SectionTag::ColumnS, v.column_s_map@)
    &&& kind_sections(t, cs, SectionTag::BeamRC, v.beam_rc_map@)
    &&& kind_sections(t, cs, SectionTag::BeamS, v.beam_s_map@)
    &&& kind_sections(t, cs, SectionTag::SlabRC, v.slab_rc_map@)
    &&& kind_sections(t, cs, SectionTag::BraceS, v.brace_s_map@)
    &&& match last_tagged(t, cs, SectionTag::Steel) {
        Some(x) => steel_built(t, x as int, v.stb_sec_steel.children_map@),
        None => v.stb_sec_steel.children_map@.len() == 0,
    }
}

/// The sections of the model: one table per section kind, and the steel catalog.
#[derive(Debug, Clone, PartialEq)]
pub struct StbSections {
    pub column_s_map: IdTable<StbSection>,
    pub beam_rc_map: IdTable<StbSection>,
    pub beam_s_map: IdTable<StbSection>,
    pub slab_rc_map: IdTable<StbSection>,
    pub brace_s_map: IdTable<StbSection>,
    pub stb_sec_steel: StbSecSteel,
}

impl StbSections {
    pub fn new() -> (r: StbSections)
        ensures
            r.column_s_map@.len() == 0,
            r.beam_rc_map@.len() == 0,
            r.beam_s_map@.len() == 0,
            r.slab_rc_map@.len() == 0,
            r.brace_s_map@.len() == 0,
            r.stb_sec_steel.children_map@.len() == 0,
    {
        StbSections {
            column_s_map: IdTable::new(),
            beam_rc_map: IdTable::new(),
            beam_s_map: IdTable::new(),
            slab_rc_map: IdTable::new(),
            brace_s_map: IdTable::new(),
            stb_sec_steel: StbSecSteel::new(),
        }
    }
}

/// Reads section element `e` of tag `g` into `table`, which holds the
/// sections of tag `g` among `prefix`.
fn add_section(
    t: &XmlTree,
    e: usize,
    g: SectionTag,
    table: &mut IdTable<StbSection>,
    prefix: Ghost<Seq<usize>>,
) -> (r: Result<(), StbError>)
    requires
        t.wf(),
        e < t.nodes@.len(),
        !(g is Steel),
        section_tag_of(*t, e as int) == Some(g),
        kind_sections(*t, prefix@, g, old(table)@),
    ensures
        r is Ok <==> section_ok(*t, e as int, g),
        r is Ok ==> kind_sections(*t, prefix@.push(e), g, final(table)@),
        r matches Err(err) ==> tree_fault(*t, err),
{
    let v = parse_section(t, e, g)?;
    let id = v.id();
    proof {
        let before = tagged_among(*t, prefix@, g);
        let after = tagged_among(*t, prefix@.push(e), g);
        assert(prefix@.push(e).drop_last() =~= prefix@);
        assert(after == before.push(e));
        lemma_built_from_made(table@, id_keys(*t, before), section_made(*t, before, g), section_made(*t, after, g));
        lemma_built_from_insert(table@, id_keys(*t, before), section_made(*t, after, g), id, v);
        assert(id_keys(*t, after) =~= id_keys(*t, before).push(id));
    }
    table.insert(id, v);
    Ok(())
}

/// Reads the sections of the section container `c`. Section elements of a
/// kind that is not read are passed over.
pub fn extract_stb_sections(t: &XmlTree, c: usize) -> (r: Result<StbSections, StbError>)
    requires
        t.wf(),
        c < t.nodes@.len(),
    ensures
        r is Ok <==> sections_ok(*t, c as int),
        r matches Ok(v) ==> sections_from(*t, t.child_elements(c as int), v),
        r matches Err(err) ==> tree_fault(*t, err),
{
    let elems = t.child_elements_of(c);
    let mut sections = StbSections::new();
    let mut k: usize = 0;
    assert(elems@.subrange(0, 0) =~= Seq::<usize>::empty());
    proof {
        assert(id_keys(*t, tagged_among(*t, elems@.subrange(0, 0), SectionTag::ColumnS)) =~= Seq::<u32>::empty());
        assert(id_keys(*t, tagged_among(*t, elems@.subrange(0, 0), SectionTag::BeamRC)) =~= Seq::<u32>::empty());
        assert(id_keys(*t, tagged_among(*t, elems@.subrange(0, 0), SectionTag::BeamS)) =~= Seq::<u32>::empty());
        assert(id_keys(*t, tagged_among(*t, elems@.subrange(0, 0), SectionTag::SlabRC)) =~= Seq::<u32>::empty());
        assert(id_keys(*t, tagged_among(*t, elems@.subrange(0, 0), SectionTag::BraceS)) =~= Seq::<u32>::empty());
    }
    while k < elems.len()
        invariant
            t.wf(),
            elems@ == t.child_elements(c as int),
            forall|m: int| 0 <= m < elems@.len() ==> #[trigger] elems@[m] < t.nodes@.len(),
            k <= elems@.len(),
            forall|j: int| 0 <= j < k ==> section_element_ok(*t, #[trigger] elems@[j] as int),
            sections_from(*t, elems@.subrange(0, k as int), sections),
        decreases elems@.len() - k,
    {
        let e = elems[k];
        let ghost prefix = elems@.subrange(0, k as int);
        let ghost next = elems@.subrange(0, k + 1);
        assert(next.drop_last() =~= prefix);
        assert(next.last() == e);
        match SectionTag::parse_text(t.nodes[e].name.as_str()) {
            Some(SectionTag::Steel) => {
                sections.stb_sec_steel = extract_stb_sec_steel(t, e)?;
            },
            Some(SectionTag::ColumnS) => {
                assert(next =~= prefix.push(e));
                add_section(t, e, SectionTag::ColumnS, &mut sections.column_s_map, Ghost(prefix))?;
            },
            Some(SectionTag::BeamRC) => {
                assert(next =~= prefix.push(e));
                add_section(t, e, SectionTag::BeamRC, &mut sections.beam_rc_map, Ghost(prefix))?;
            },
            Some(SectionTag::BeamS) => {
                assert(next =~= prefix.push(e));
                add_section(t, e, SectionTag::BeamS, &mut sections.beam_s_map, Ghost(prefix))?;
            },
            Some(SectionTag::SlabRC) => {
                assert(next =~= prefix.push(e));
                add_section(t, e, SectionTag::SlabRC, &mut sections.slab_rc_map, Ghost(prefix))?;
            },
            Some(SectionTag::BraceS) => {
                assert(next =~= prefix.push(e));
                add_section(t, e, SectionTag::BraceS, &mut sections.brace_s_map, Ghost(prefix))?;
            },
            None => {},
        }
        k = k + 1;
    }
    assert(elems@.subrange(0, k as int) =~= elems@);
    Ok(sections)
}

} // verus!
