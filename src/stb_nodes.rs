//! Nodes: points of the model keyed by numeric ID.

use crate::coerce::{tree_fault, attribute_fault, exact, parse_attribute, parse_enum_attribute, optional_exact, parse_real_attribute, real_value, scalar, TextValue};
use crate::error::StbError;
use crate::table::{built_from, lemma_built_from_insert, IdTable};
use crate::text::{same_text, Real};
use crate::xml::XmlTree;
use vstd::prelude::*;

verus! {

/// Where a node lies.
#[derive(Debug, Clone, Copy, PartialEq, Eq, Structural)]
pub enum StbNodeKind {
    OnGirder,
    OnBeam,
    OnColumn,
    OnPost,
    OnGrid,
    OnCanti,
    OnSlab,
    Other,
}

impl TextValue for StbNodeKind {
    open spec fn spec_parse(s: Seq<char>) -> Option<StbNodeKind> {
        if s == "ON_GIRDER"@ {
            Some(StbNodeKind::OnGirder)
        } else if s == "ON_BEAM"@ {
            Some(StbNodeKind::OnBeam)
        } else if s == "ON_COLUMN"@ {
            Some(StbNodeKind::OnColumn)
        } else if s == "ON_POST"@ {
            Some(StbNodeKind::OnPost)
        } else if s == "ON_GRID"@ {
            Some(StbNodeKind::OnGrid)
        } else if s == "ON_CANTI"@ {
            Some(StbNodeKind::OnCanti)
        } else if s == "ON_SLAB"@ {
            Some(StbNodeKind::OnSlab)
        } else if s == "OTHER"@ {
            Some(StbNodeKind::Other)
        } else {
            None
        }
    }

    fn parse_text(s: &str) -> (r: Option<StbNodeKind>) {
        if same_text(s, "ON_GIRDER") {
            Some(StbNodeKind::OnGirder)
        } else if same_text(s, "ON_BEAM") {
            Some(StbNodeKind::OnBeam)
        } else if same_text(s, "ON_COLUMN") {
            Some(StbNodeKind::OnColumn)
        } else if same_text(s, "ON_POST") {
            Some(StbNodeKind::OnPost)
        } else if same_text(s, "ON_GRID") {
            Some(StbNodeKind::OnGrid)
        } else if same_text(s, "ON_CANTI") {
            Some(StbNodeKind::OnCanti)
        } else if same_text(s, "ON_SLAB") {
            Some(StbNodeKind::OnSlab)
        } else if same_text(s, "OTHER") {
            Some(StbNodeKind::Other)
        } else {
            None
        }
    }
}

/// A point of the model, optionally owned by a member.
#[derive(Debug, Clone, PartialEq)]
pub struct StbNode {
    pub x: Real,
    pub y: Real,
    pub z: Real,
    pub kind: StbNodeKind,
    pub id_member: Option<u32>,
}

/// Every attribute of node element `e` reads.
pub open spec fn node_ok(t: XmlTree, e: int) -> bool {
    &&& real_value(t, e, "x"@) is Some
    &&& real_value(t, e, "y"@) is Some
    &&& real_value(t, e, "z"@) is Some
    &&& exact::<StbNodeKind>(t, e, "kind"@) is Some
    &&& (t.attr(e, "id_member"@) is None || exact::<u32>(t, e, "id_member"@) is Some)
}

/// `v` is what node element `e` holds.
pub open spec fn node_matches(t: XmlTree, e: int, v: StbNode) -> bool {
    &&& v.x@ == real_value(t, e, "x"@)->0
    &&& v.y@ == real_value(t, e, "y"@)->0
    &&& v.z@ == real_value(t, e, "z"@)->0
    &&& v.kind == exact::<StbNodeKind>(t, e, "kind"@)->0
    &&& v.id_member == exact::<u32>(t, e, "id_member"@)
}

fn parse_node(t: &XmlTree, e: usize) -> (r: Result<StbNode, StbError>)
    requires
        t.wf(),
        e < t.nodes@.len(),
    ensures
        r is Ok <==> node_ok(*t, e as int),
        r matches Ok(v) ==> node_matches(*t, e as int, v),
        r matches Err(err) ==> attribute_fault(*t, e as int, err),
        r matches Err(err) ==> !(err is UnknownTag),
        r matches Err(err) ==> tree_fault(*t, err),
{
    Ok(StbNode {
        x: parse_real_attribute(t, e, "x")?,
        y: parse_real_attribute(t, e, "y")?,
        z: parse_real_attribute(t, e, "z")?,
        kind: parse_enum_attribute::<StbNodeKind>(t, e, "kind")?,
        id_member: optional_exact::<u32>(t, e, "id_member")?,
    })
}

/// The node table: nodes keyed by ID, in order of first appearance.
#[derive(Debug, Clone, PartialEq)]
pub struct StbNodes {
    pub map: IdTable<StbNode>,
}

impl StbNodes {
    pub fn new() -> (r: StbNodes)
        ensures
            r.map@.len() == 0,
    {
        StbNodes { map: IdTable::new() }
    }

    /// Inserts `value` under `key`, replacing the node already there.
    pub fn insert(&mut self, key: u32, value: StbNode)
        ensures
            final(self).map@ == crate::table::inserted(old(self).map@, key, value),
    {
        self.map.insert(key, value);
    }

    /// The node with ID `key`.
    pub fn get(&self, key: u32) -> (r: Option<&StbNode>)
        ensures
            r is None <==> crate::table::index_of(self.map@, key) == -1,
            r matches Some(v) ==> *v == self.map@[crate::table::index_of(self.map@, key)].1,
    {
        self.map.get(key)
    }
}

/// The IDs of the node elements `elems`.
pub open spec fn node_keys(t: XmlTree, elems: Seq<usize>) -> Seq<u32> {
    Seq::new(elems.len(), |j: int| scalar::<u32>(t, elems[j] as int, "id"@)->0)
}

/// What the j-th of the node elements `elems` makes.
pub open spec fn node_made(t: XmlTree, elems: Seq<usize>) -> spec_fn(int, StbNode) -> bool {
    |j: int, v: StbNode| node_matches(t, elems[j] as int, v)
}

/// Every child of the node container `c` reads as a node with an ID.
pub open spec fn nodes_ok(t: XmlTree, c: int) -> bool {
    forall|j: int|
        0 <= j < t.child_elements(c).len() ==> {
            let e = #[trigger] t.child_elements(c)[j] as int;
            scalar::<u32>(t, e, "id"@) is Some && node_ok(t, e)
        }
}

/// Reads the node table from the node container `c`: one entry per distinct
/// ID, holding the node of the last element with that ID.
pub fn extract_stb_nodes(t: &XmlTree, c: usize) -> (r: Result<StbNodes, StbError>)
    requires
        t.wf(),
        c < t.nodes@.len(),
    ensures
        r is Ok <==> nodes_ok(*t, c as int),
        r matches Ok(n) ==> built_from(
            n.map@,
            node_keys(*t, t.child_elements(c as int)),
            node_made(*t, t.child_elements(c as int)),
        ),
        r matches Err(err) ==> tree_fault(*t, err),
{
    let elems = t.child_elements_of(c);
    let ghost keys = node_keys(*t, elems@);
    let ghost made = node_made(*t, elems@);
    let mut nodes = StbNodes::new();
    let mut k: usize = 0;
    assert(keys.subrange(0, 0) =~= Seq::<u32>::empty());
    while k < elems.len()
        invariant
            t.wf(),
            elems@ == t.child_elements(c as int),
            forall|m: int| 0 <= m < elems@.len() ==> #[trigger] elems@[m] < t.nodes@.len(),
            keys == node_keys(*t, elems@),
            made == node_made(*t, elems@),
            k <= elems@.len(),
            forall|j: int|
                0 <= j < k ==> scalar::<u32>(*t, #[trigger] elems@[j] as int, "id"@) is Some && node_ok(*t, elems@[j] as int),
            built_from(nodes.map@, keys.subrange(0, k as int), made),
        decreases elems@.len() - k,
    {
        let e = elems[k];
        let id = parse_attribute::<u32>(t, e, "id")?;
        let node = parse_node(t, e)?;
        proof {
            lemma_built_from_insert(nodes.map@, keys.subrange(0, k as int), made, id, node);
            assert(keys.subrange(0, k + 1) =~= keys.subrange(0, k as int).push(id));
        }
        nodes.insert(id, node);
        k = k + 1;
    }
    assert(keys.subrange(0, k as int) =~= keys);
    Ok(nodes)
}

} // verus!
