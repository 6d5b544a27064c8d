//! Axes and stories: named reference planes and levels, each with the IDs
//! of the nodes on it.

use crate::coerce::{tree_fault, attribute_fault, exact, lowered, parse_attribute, parse_enum_attribute, parse_real_attribute, parse_text_attribute, raw_attribute, real_value, required_child, scalar, TextValue};
use crate::error::StbError;
use crate::text::{same_text, Real};
use crate::xml::{named_among, read_from, XmlTree};
use vstd::prelude::*;

verus! {

/// What a story is.
#[derive(Debug, Clone, Copy, PartialEq, Eq, Structural)]
pub enum StbStoryKind {
    General,
    Basement,
    Roof,
    Penthouse,
    Isolation,
    Dependence,
}

impl TextValue for StbStoryKind {
    open spec fn spec_parse(s: Seq<char>) -> Option<StbStoryKind> {
        if s == "GENERAL"@ {
            Some(StbStoryKind::General)
        } else if s == "BASEMENT"@ {
            Some(StbStoryKind::Basement)
        } else if s == "ROOF"@ {
            Some(StbStoryKind::Roof)
        } else if s == "PENTHOUSE"@ {
            Some(StbStoryKind::Penthouse)
        } else if s == "ISOLATION"@ {
            Some(StbStoryKind::Isolation)
        } else if s == "DEPENDENCE"@ {
            Some(StbStoryKind::Dependence)
        } else {
            None
        }
    }

    fn parse_text(s: &str) -> (r: Option<StbStoryKind>) {
        if same_text(s, "GENERAL") {
            Some(StbStoryKind::General)
        } else if same_text(s, "BASEMENT") {
            Some(StbStoryKind::Basement)
        } else if same_text(s, "ROOF") {
            Some(StbStoryKind::Roof)
        } else if same_text(s, "PENTHOUSE") {
            Some(StbStoryKind::Penthouse)
        } else if same_text(s, "ISOLATION") {
            Some(StbStoryKind::Isolation)
        } else if same_text(s, "DEPENDENCE") {
            Some(StbStoryKind::Dependence)
        } else {
            None
        }
    }
}

/// A reference to a node by ID, not resolved against the node table.
#[derive(Debug, Clone, Copy, PartialEq, Eq, Structural)]
pub struct StbNodeId {
    pub id: i32,
}

/// Node references in document order.
#[derive(Debug, Clone, PartialEq)]
pub struct StbNodeIdList {
    pub children: Vec<StbNodeId>,
}

/// Every child of the node-ID list element `l` has an integer `id`.
pub open spec fn node_id_list_ok(t: XmlTree, l: int) -> bool {
    forall|j: int|
        0 <= j < t.child_elements(l).len() ==> scalar::<i32>(t, #[trigger] t.child_elements(l)[j] as int, "id"@) is Some
}

/// `v` holds the IDs of the children of the node-ID list element `l`, in order.
pub open spec fn node_id_list_matches(t: XmlTree, l: int, v: StbNodeIdList) -> bool {
    read_from(v.children@, t.child_elements(l), |e: int, n: StbNodeId| n.id == scalar::<i32>(t, e, "id"@)->0)
}

fn extract_node_id_list(t: &XmlTree, l: usize) -> (r: Result<StbNodeIdList, StbError>)
    requires
        t.wf(),
        l < t.nodes@.len(),
    ensures
        r is Ok <==> node_id_list_ok(*t, l as int),
        r matches Ok(v) ==> node_id_list_matches(*t, l as int, v),
        r matches Err(err) ==> !(err is UnknownTag),
        r matches Err(err) ==> tree_fault(*t, err),
{
    let elems = t.child_elements_of(l);
    let mut children: Vec<StbNodeId> = Vec::new();
    let mut k: usize = 0;
    while k < elems.len()
        invariant
            t.wf(),
            elems@ == t.child_elements(l as int),
            forall|m: int| 0 <= m < elems@.len() ==> #[trigger] elems@[m] < t.nodes@.len(),
            k <= elems@.len(),
            children@.len() == k,
            forall|j: int|
                0 <= j < k ==> scalar::<i32>(*t, #[trigger] elems@[j] as int, "id"@) is Some
                    && children@[j].id == scalar::<i32>(*t, elems@[j] as int, "id"@)->0,
        decreases elems@.len() - k,
    {
        let id = parse_attribute::<i32>(t, elems[k], "id")?;
        children.push(StbNodeId { id });
        k = k + 1;
    }
    Ok(StbNodeIdList { children })
}

/// An axis across X, at `distance`.
#[derive(Debug, Clone, PartialEq)]
pub struct StbXAxis {
    pub id: i32,
    pub name: String,
    pub distance: Real,
    pub stb_node_id_list: StbNodeIdList,
}

/// An axis across Y, at `distance`.
#[derive(Debug, Clone, PartialEq)]
pub struct StbYAxis {
    pub id: i32,
    pub name: String,
    pub distance: Real,
    pub stb_node_id_list: StbNodeIdList,
}

/// X axis element `e` reads.
pub open spec fn x_axis_ok(t: XmlTree, e: int) -> bool {
    &&& scalar::<i32>(t, e, "id"@) is Some
    &&& t.attr(e, "name"@) is Some
    &&& real_value(t, e, "distance"@) is Some
    &&& t.child_named(e, "StbNodeid_List"@) is Some
    &&& node_id_list_ok(t, t.child_named(e, "StbNodeid_List"@)->0 as int)
}

/// `v` is what X axis element `e` holds.
pub open spec fn x_axis_matches(t: XmlTree, e: int, v: StbXAxis) -> bool {
    &&& v.id == scalar::<i32>(t, e, "id"@)->0
    &&& v.name@ == lowered(t, e, "name"@)->0
    &&& v.distance@ == real_value(t, e, "distance"@)->0
    &&& node_id_list_matches(t, t.child_named(e, "StbNodeid_List"@)->0 as int, v.stb_node_id_list)
}

/// Y axis element `e` reads.
pub open spec fn y_axis_ok(t: XmlTree, e: int) -> bool {
    &&& scalar::<i32>(t, e, "id"@) is Some
    &&& t.attr(e, "name"@) is Some
    &&& real_value(t, e, "distance"@) is Some
    &&& t.child_named(e, "StbNodeid_List"@) is Some
    &&& node_id_list_ok(t, t.child_named(e, "StbNodeid_List"@)->0 as int)
}

/// `v` is what Y axis element `e` holds.
pub open spec fn y_axis_matches(t: XmlTree, e: int, v: StbYAxis) -> bool {
    &&& v.id == scalar::<i32>(t, e, "id"@)->0
    &&& v.name@ == lowered(t, e, "name"@)->0
    &&& v.distance@ == real_value(t, e, "distance"@)->0
    &&& node_id_list_matches(t, t.child_named(e, "StbNodeid_List"@)->0 as int, v.stb_node_id_list)
}

fn parse_x_axis(t: &XmlTree, e: usize) -> (r: Result<StbXAxis, StbError>)
    requires
        t.wf(),
        e < t.nodes@.len(),
    ensures
        r is Ok <==> x_axis_ok(*t, e as int),
        r matches Ok(v) ==> x_axis_matches(*t, e as int, v),
        r matches Err(err) ==> !(err is UnknownTag),
        r matches Err(err) ==> tree_fault(*t, err),
{
    let l = required_child(t, e, "StbNodeid_List")?;
    let stb_node_id_list = extract_node_id_list(t, l)?;
    Ok(StbXAxis {
        id: parse_attribute::<i32>(t, e, "id")?,
        name: parse_text_attribute(t, e, "name")?,
        distance: parse_real_attribute(t, e, "distance")?,
        stb_node_id_list: stb_node_id_list,
    })
}

fn parse_y_axis(t: &XmlTree, e: usize) -> (r: Result<StbYAxis, StbError>)
    requires
        t.wf(),
        e < t.nodes@.len(),
    ensures
        r is Ok <==> y_axis_ok(*t, e as int),
        r matches Ok(v) ==> y_axis_matches(*t, e as int, v),
        r matches Err(err) ==> !(err is UnknownTag),
        r matches Err(err) ==> tree_fault(*t, err),
{
    let l = required_child(t, e, "StbNodeid_List")?;
    let stb_node_id_list = extract_node_id_list(t, l)?;
    Ok(StbYAxis {
        id: parse_attribute::<i32>(t, e, "id")?,
        name: parse_text_attribute(t, e, "name")?,
        distance: parse_real_attribute(t, e, "distance")?,
        stb_node_id_list: stb_node_id_list,
    })
}

/// The axes of the model, in document order.
#[derive(Debug, Clone, PartialEq)]
pub struct StbAxes {
    pub stb_x_axis_list: Vec<StbXAxis>,
    pub stb_y_axis_list: Vec<StbYAxis>,
}

impl StbAxes {
    pub fn new() -> (r: StbAxes)
        ensures
            r.stb_x_axis_list@.len() == 0,
            r.stb_y_axis_list@.len() == 0,
    {
        StbAxes { stb_x_axis_list: Vec::new(), stb_y_axis_list: Vec::new() }
    }
}

/// Every child of the axis container `c` is an X or Y axis that reads.
pub open spec fn axes_ok(t: XmlTree, c: int) -> bool {
    forall|j: int|
        0 <= j < t.child_elements(c).len() ==> {
            let e = #[trigger] t.child_elements(c)[j] as int;
            ||| t.tag(e) == "StbX_Axis"@ && x_axis_ok(t, e)
            ||| t.tag(e) == "StbY_Axis"@ && y_axis_ok(t, e)
        }
}

/// `v` holds the X axes and the Y axes of the axis container `c`, each in document order.
pub open spec fn axes_matches(t: XmlTree, c: int, v: StbAxes) -> bool {
    &&& read_from(v.stb_x_axis_list@, named_among(t, t.child_elements(c), "StbX_Axis"@), |e: int, a: StbXAxis| x_axis_matches(t, e, a))
    &&& read_from(v.stb_y_axis_list@, named_among(t, t.child_elements(c), "StbY_Axis"@), |e: int, a: StbYAxis| y_axis_matches(t, e, a))
}

/// Reads the axes of the axis container `c`; a child of another tag is an error.
pub fn extract_stb_axes(t: &XmlTree, c: usize) -> (r: Result<StbAxes, StbError>)
    requires
        t.wf(),
        c < t.nodes@.len(),
    ensures
        r is Ok <==> axes_ok(*t, c as int),
        r matches Ok(v) ==> axes_matches(*t, c as int, v),
        r matches Err(StbError::UnknownTag { name }) ==> exists|j: int|
            0 <= j < t.child_elements(c as int).len() && #[trigger] t.tag(t.child_elements(c as int)[j] as int) == name@
                && name@ != "StbX_Axis"@ && name@ != "StbY_Axis"@,
        r matches Err(err) ==> tree_fault(*t, err),
{
    let elems = t.child_elements_of(c);
    let mut axes = StbAxes::new();
    let mut k: usize = 0;
    while k < elems.len()
        invariant
            t.wf(),
            elems@ == t.child_elements(c as int),
            forall|m: int| 0 <= m < elems@.len() ==> #[trigger] elems@[m] < t.nodes@.len(),
            forall|m: int| 0 <= m < elems@.len() ==> t.nodes@[#[trigger] elems@[m] as int].is_element,
            k <= elems@.len(),
            forall|j: int|
                0 <= j < k ==> {
                    let e = #[trigger] elems@[j] as int;
                    ||| t.tag(e) == "StbX_Axis"@ && x_axis_ok(*t, e)
                    ||| t.tag(e) == "StbY_Axis"@ && y_axis_ok(*t, e)
                },
            read_from(axes.stb_x_axis_list@, named_among(*t, elems@.subrange(0, k as int), "StbX_Axis"@), |e: int, a: StbXAxis| x_axis_matches(*t, e, a)),
            read_from(axes.stb_y_axis_list@, named_among(*t, elems@.subrange(0, k as int), "StbY_Axis"@), |e: int, a: StbYAxis| y_axis_matches(*t, e, a)),
        decreases elems@.len() - k,
    {
        let e = elems[k];
        assert(elems@.subrange(0, k + 1).drop_last() =~= elems@.subrange(0, k as int));
        assert("StbX_Axis"@ != "StbY_Axis"@) by {
            reveal_strlit("StbX_Axis");
            reveal_strlit("StbY_Axis");
            assert("StbX_Axis"@[3] != "StbY_Axis"@[3]);
        }
        if same_text(t.nodes[e].name.as_str(), "StbX_Axis") {
            let a = parse_x_axis(t, e)?;
            axes.stb_x_axis_list.push(a);
        } else if same_text(t.nodes[e].name.as_str(), "StbY_Axis") {
            let a = parse_y_axis(t, e)?;
            axes.stb_y_axis_list.push(a);
        } else {
            let name = t.nodes[e].name.clone();
            assert(t.tag(e as int) == name@);
            return Err(StbError::UnknownTag { name });
        }
        k = k + 1;
    }
    assert(elems@.subrange(0, k as int) =~= elems@);
    Ok(axes)
}

/// A story: a level of the building.
#[derive(Debug, Clone, PartialEq)]
pub struct StbStory {
    pub id: i32,
    pub name: String,
    pub height: Real,
    pub kind: StbStoryKind,
    pub concrete_strength: String,
    pub stb_node_id_list: StbNodeIdList,
}

/// Story element `e` reads.
pub open spec fn story_ok(t: XmlTree, e: int) -> bool {
    &&& scalar::<i32>(t, e, "id"@) is Some
    &&& t.attr(e, "name"@) is Some
    &&& real_value(t, e, "height"@) is Some
    &&& exact::<StbStoryKind>(t, e, "kind"@) is Some
    &&& t.attr(e, "concrete_strength"@) is Some
    &&& t.child_named(e, "StbNodeid_List"@) is Some
    &&& node_id_list_ok(t, t.child_named(e, "StbNodeid_List"@)->0 as int)
}

/// `v` is what story element `e` holds.
pub open spec fn story_matches(t: XmlTree, e: int, v: StbStory) -> bool {
    &&& v.id == scalar::<i32>(t, e, "id"@)->0
    &&& v.name@ == lowered(t, e, "name"@)->0
    &&& v.height@ == real_value(t, e, "height"@)->0
    &&& v.kind == exact::<StbStoryKind>(t, e, "kind"@)->0
    &&& v.concrete_strength@ == t.attr(e, "concrete_strength"@)->0
    &&& node_id_list_matches(t, t.child_named(e, "StbNodeid_List"@)->0 as int, v.stb_node_id_list)
}

fn parse_story(t: &XmlTree, e: usize) -> (r: Result<StbStory, StbError>)
    requires
        t.wf(),
        e < t.nodes@.len(),
    ensures
        r is Ok <==> story_ok(*t, e as int),
        r matches Ok(v) ==> story_matches(*t, e as int, v),
        r matches Err(err) ==> !(err is UnknownTag),
        r matches Err(err) ==> tree_fault(*t, err),
{
    let l = required_child(t, e, "StbNodeid_List")?;
    let stb_node_id_list = extract_node_id_list(t, l)?;
    Ok(StbStory {
        id: parse_attribute::<i32>(t, e, "id")?,
        name: parse_text_attribute(t, e, "name")?,
        height: parse_real_attribute(t, e, "height")?,
        kind: parse_enum_attribute::<StbStoryKind>(t, e, "kind")?,
        concrete_strength: raw_attribute(t, e, "concrete_strength")?,
        stb_node_id_list: stb_node_id_list,
    })
}

/// The stories of the model, in document order.
#[derive(Debug, Clone, PartialEq)]
pub struct StbStories {
    pub stb_story_list: Vec<StbStory>,
}

impl StbStories {
    pub fn new() -> (r: StbStories)
        ensures
            r.stb_story_list@.len() == 0,
    {
        StbStories { stb_story_list: Vec::new() }
    }
}

/// Every child of the story container `c` reads as a story.
pub open spec fn stories_ok(t: XmlTree, c: int) -> bool {
    forall|j: int| 0 <= j < t.child_elements(c).len() ==> story_ok(t, #[trigger] t.child_elements(c)[j] as int)
}

/// Reads the stories of the story container `c`.
pub fn extract_stb_stories(t: &XmlTree, c: usize) -> (r: Result<StbStories, StbError>)
    requires
        t.wf(),
        c < t.nodes@.len(),
    ensures
        r is Ok <==> stories_ok(*t, c as int),
        r matches Ok(v) ==> read_from(v.stb_story_list@, t.child_elements(c as int), |e: int, s: StbStory| story_matches(*t, e, s)),
        r matches Err(err) ==> tree_fault(*t, err),
{
    let elems = t.child_elements_of(c);
    let mut stories = StbStories::new();
    let mut k: usize = 0;
    while k < elems.len()
        invariant
            t.wf(),
            elems@ == t.child_elements(c as int),
            forall|m: int| 0 <= m < elems@.len() ==> #[trigger] elems@[m] < t.nodes@.len(),
            k <= elems@.len(),
            stories.stb_story_list@.len() == k,
            forall|j: int|
                0 <= j < k ==> story_ok(*t, #[trigger] elems@[j] as int)
                    && story_matches(*t, elems@[j] as int, stories.stb_story_list@[j]),
        decreases elems@.len() - k,
    {
        let s = parse_story(t, elems[k])?;
        stories.stb_story_list.push(s);
        k = k + 1;
    }
    Ok(stories)
}

} // verus!
