//! The whole document: its model assembled from the extractors in a fixed
//! order, and the query that resolves member end nodes.

use crate::coerce::{tree_fault, raw_attribute, required_child};
use crate::error::StbError;
use crate::stb_axes_and_stories::{axes_matches, axes_ok, extract_stb_axes, extract_stb_stories, stories_ok, story_matches, StbAxes, StbStories, StbStory};
use crate::stb_common::{common_matches, common_ok, extract_stb_common, StbCommon};
use crate::stb_extensions::{extensions_matches, extensions_ok, extract_stb_extensions, StbExtensions};
use crate::stb_members::{all_members, extract_stb_members, member_values, members_from, members_ok, StbMember, StbMembers};
use crate::stb_nodes::{extract_stb_nodes, node_keys, node_made, nodes_ok, StbNode, StbNodes};
use crate::stb_sections::{extract_stb_sections, sections_from, sections_ok, StbSections};
use crate::table::{built_from, index_of, lemma_index_of, IdTable};
use crate::xml::{read_from, xml_tree_of, XmlTree};
use vstd::prelude::*;

verus! {

/// The structural model: nodes, axes, stories, members and sections.
#[derive(Debug, Clone, PartialEq)]
pub struct StbModel {
    pub stb_nodes: StbNodes,
    pub stb_axes: StbAxes,
    pub stb_stories: StbStories,
    pub stb_members: StbMembers,
    pub stb_sections: StbSections,
}

/// The container `name` of the model element under root element `root`.
pub open spec fn model_part(t: XmlTree, root: int, name: Seq<char>) -> Option<usize> {
    match t.child_named(root, "StbModel"@) {
        Some(m) => t.child_named(m as int, name),
        None => None,
    }
}

/// The model under root element `root` has every container, and each reads.
pub open spec fn model_ok(t: XmlTree, root: int) -> bool {
    &&& model_part(t, root, "StbNodes"@) is Some
    &&& model_part(t, root, "StbAxes"@) is Some
    &&& model_part(t, root, "StbStories"@) is Some
    &&& model_part(t, root, "StbMembers"@) is Some
    &&& model_part(t, root, "StbSections"@) is Some
    &&& nodes_ok(t, model_part(t, root, "StbNodes"@)->0 as int)
    &&& axes_ok(t, model_part(t, root, "StbAxes"@)->0 as int)
    &&& stories_ok(t, model_part(t, root, "StbStories"@)->0 as int)
    &&& members_ok(t, model_part(t, root, "StbMembers"@)->0 as int)
    &&& sections_ok(t, model_part(t, root, "StbSections"@)->0 as int)
}

/// `v` is what the containers of the model under root element `root` hold.
pub open spec fn model_matches(t: XmlTree, root: int, v: StbModel) -> bool {
    let nodes = t.child_elements(model_part(t, root, "StbNodes"@)->0 as int);
    &&& built_from(v.stb_nodes.map@, node_keys(t, nodes), node_made(t, nodes))
    &&& axes_matches(t, model_part(t, root, "StbAxes"@)->0 as int, v.stb_axes)
    &&& read_from(
        v.stb_stories.stb_story_list@,
        t.child_elements(model_part(t, root, "StbStories"@)->0 as int),
        |e: int, s: StbStory| story_matches(t, e, s),
    )
    &&& members_from(t, t.child_elements(model_part(t, root, "StbMembers"@)->0 as int), v.stb_members)
    &&& sections_from(t, t.child_elements(model_part(t, root, "StbSections"@)->0 as int), v.stb_sections)
}

/// Reads the model under the root element `root`: nodes, axes, stories,
/// members, then sections.
pub fn extract_stb_model(t: &XmlTree, root: usize) -> (r: Result<StbModel, StbError>)
    requires
        t.wf(),
        root < t.nodes@.len(),
    ensures
        r is Ok <==> model_ok(*t, root as int),
        r matches Ok(v) ==> model_matches(*t, root as int, v),
        r matches Err(err) ==> tree_fault(*t, err),
{
    let m = required_child(t, root, "StbModel")?;
    let c = required_child(t, m, "StbNodes")?;
    let stb_nodes = extract_stb_nodes(t, c)?;
    let c = required_child(t, m, "StbAxes")?;
    let stb_axes = extract_stb_axes(t, c)?;
    let c = required_child(t, m, "StbStories")?;
    let stb_stories = extract_stb_stories(t, c)?;
    let c = required_child(t, m, "StbMembers")?;
    let stb_members = extract_stb_members(t, c)?;
    let c = required_child(t, m, "StbSections")?;
    let stb_sections = extract_stb_sections(t, c)?;
    Ok(StbModel { stb_nodes, stb_axes, stb_stories, stb_members, stb_sections })
}

/// A whole interchange document.
#[derive(Debug, Clone, PartialEq)]
pub struct StBridge {
    pub version: String,
    pub stb_common: StbCommon,
    pub stb_model: StbModel,
    pub stb_extensions: StbExtensions,
}

/// The document held by tree `t` reads: it has a root element with a
/// version, and its common definitions, model and extensions read.
pub open spec fn document_ok(t: XmlTree) -> bool {
    &&& t.root_element() is Some
    &&& t.attr(t.root_element()->0 as int, "version"@) is Some
    &&& common_ok(t, t.root_element()->0 as int)
    &&& model_ok(t, t.root_element()->0 as int)
    &&& extensions_ok(t, t.root_element()->0 as int)
}

/// `v` is the document that tree `t` holds.
pub open spec fn document_matches(t: XmlTree, v: StBridge) -> bool {
    let root = t.root_element()->0 as int;
    &&& t.attr(root, "version"@) == Some(v.version@)
    &&& common_matches(t, root, v.stb_common)
    &&& model_matches(t, root, v.stb_model)
    &&& extensions_matches(t, root, v.stb_extensions)
}

/// Reads the document that the tree `t` holds: common definitions, model,
/// then extensions.
pub fn extract_st_bridge(t: &XmlTree) -> (r: Result<StBridge, StbError>)
    requires
        t.wf(),
    ensures
        r is Ok <==> document_ok(*t),
        r matches Ok(v) ==> document_matches(*t, v),
        t.root_element() is None ==> r matches Err(StbError::MalformedTree),
        r matches Err(err) ==> tree_fault(*t, err),
{
    let root = match t.find_root_element() {
        Some(root) => root,
        None => {
            return Err(StbError::MalformedTree);
        },
    };
    let version = raw_attribute(t, root, "version")?;
    let stb_common = extract_stb_common(t, root)?;
    let stb_model = extract_stb_model(t, root)?;
    let stb_extensions = extract_stb_extensions(t, root)?;
    Ok(StBridge { version, stb_common, stb_model, stb_extensions })
}

/// Parses an interchange document from its text.
pub fn parse_st_bridge(text: &str) -> (r: Result<StBridge, StbError>)
    ensures
        r is Ok <==> (xml_tree_of(text@) matches Some(t) && t.wf() && document_ok(t)),
        r matches Ok(v) ==> document_matches(xml_tree_of(text@)->0, v),
        r matches Err(e) ==> (e is Xml <==> xml_tree_of(text@) is None),
{
    let t = XmlTree::parse(text)?;
    extract_st_bridge(&t)
}

/// The node with ID `id`, where the table holds one.
pub open spec fn node_of(nodes: StbNodes, id: u32) -> StbNode {
    nodes.map@[index_of(nodes.map@, id)].1
}

/// Member `m` has both end nodes, and the table holds them.
pub open spec fn resolvable(nodes: StbNodes, m: StbMember) -> bool {
    &&& m.spec_node_i() is Some
    &&& m.spec_node_j() is Some
    &&& index_of(nodes.map@, m.spec_node_i()->0) >= 0
    &&& index_of(nodes.map@, m.spec_node_j()->0) >= 0
}

/// Every one of `ms` is resolvable.
pub open spec fn all_resolvable(nodes: StbNodes, ms: Seq<StbMember>) -> bool {
    forall|i: int| 0 <= i < ms.len() ==> resolvable(nodes, #[trigger] ms[i])
}

/// `pairs` holds, for each of `ms` in order, its end nodes.
pub open spec fn resolved_pairs(nodes: StbNodes, ms: Seq<StbMember>, pairs: Seq<(&StbNode, &StbNode)>) -> bool {
    &&& pairs.len() == ms.len()
    &&& forall|i: int|
        0 <= i < ms.len() ==> *(#[trigger] pairs[i]).0 == node_of(nodes, ms[i].spec_node_i()->0) && *pairs[i].1
            == node_of(nodes, ms[i].spec_node_j()->0)
}

/// `err` is what member `m` fails with: it has no end nodes, or it refers
/// to a node that `nodes` lacks.
pub open spec fn member_fault(nodes: StbNodes, m: StbMember, err: StbError) -> bool {
    match err {
        StbError::NoEndpoints { member } => m.spec_node_i() is None && m.spec_id() == member,
        StbError::UnknownNode { id } => (m.spec_node_i() == Some(id) || m.spec_node_j() == Some(id)) && index_of(
            nodes.map@,
            id,
        ) == -1,
        _ => false,
    }
}

/// Some one of `ms` fails with `err`.
pub open spec fn some_fault(nodes: StbNodes, ms: Seq<StbMember>, err: StbError) -> bool {
    exists|i: int| 0 <= i < ms.len() && member_fault(nodes, #[trigger] ms[i], err)
}

proof fn lemma_some_fault_concat(nodes: StbNodes, a: Seq<StbMember>, b: Seq<StbMember>, err: StbError)
    ensures
        some_fault(nodes, a, err) ==> some_fault(nodes, a + b, err),
        some_fault(nodes, b, err) ==> some_fault(nodes, a + b, err),
{
    if some_fault(nodes, a, err) {
        let i = choose|i: int| 0 <= i < a.len() && member_fault(nodes, #[trigger] a[i], err);
        assert((a + b)[i] == a[i]);
    }
    if some_fault(nodes, b, err) {
        let i = choose|i: int| 0 <= i < b.len() && member_fault(nodes, #[trigger] b[i], err);
        assert((a + b)[a.len() + i] == b[i]);
    }
}

/// A member of any one kind that fails with `err` is a member of `ms` that
/// fails with it.
proof fn lemma_some_fault_in_all(nodes: StbNodes, ms: StbMembers, err: StbError)
    ensures
        some_fault(nodes, member_values(ms.stb_columns@), err) || some_fault(nodes, member_values(ms.stb_posts@), err)
            || some_fault(nodes, member_values(ms.stb_girders@), err) || some_fault(nodes, member_values(ms.stb_beams@), err)
            || some_fault(nodes, member_values(ms.stb_braces@), err) || some_fault(nodes, member_values(ms.stb_slabs@), err)
            ==> some_fault(nodes, all_members(ms), err),
{
    let v0 = member_values(ms.stb_columns@);
    let v1 = member_values(ms.stb_posts@);
    let v2 = member_values(ms.stb_girders@);
    let v3 = member_values(ms.stb_beams@);
    let v4 = member_values(ms.stb_braces@);
    let v5 = member_values(ms.stb_slabs@);
    lemma_some_fault_concat(nodes, v0, v1, err);
    lemma_some_fault_concat(nodes, v0 + v1, v2, err);
    lemma_some_fault_concat(nodes, v0 + v1 + v2, v3, err);
    lemma_some_fault_concat(nodes, v0 + v1 + v2 + v3, v4, err);
    lemma_some_fault_concat(nodes, v0 + v1 + v2 + v3 + v4, v5, err);
}

proof fn lemma_all_resolvable_concat(nodes: StbNodes, a: Seq<StbMember>, b: Seq<StbMember>)
    ensures
        all_resolvable(nodes, a + b) <==> all_resolvable(nodes, a) && all_resolvable(nodes, b),
{
    if all_resolvable(nodes, a + b) {
        assert forall|i: int| 0 <= i < a.len() implies resolvable(nodes, #[trigger] a[i]) by {
            assert((a + b)[i] == a[i]);
        }
        assert forall|i: int| 0 <= i < b.len() implies resolvable(nodes, #[trigger] b[i]) by {
            assert((a + b)[a.len() + i] == b[i]);
        }
    }
}

proof fn lemma_resolved_pairs_concat(
    nodes: StbNodes,
    a: Seq<StbMember>,
    b: Seq<StbMember>,
    p: Seq<(&StbNode, &StbNode)>,
    q: Seq<(&StbNode, &StbNode)>,
)
    requires
        resolved_pairs(nodes, a, p),
        resolved_pairs(nodes, b, q),
    ensures
        resolved_pairs(nodes, a + b, p + q),
{
    assert forall|i: int| 0 <= i < a.len() + b.len() implies *(#[trigger] (p + q)[i]).0 == node_of(
        nodes,
        (a + b)[i].spec_node_i()->0,
    ) && *(p + q)[i].1 == node_of(nodes, (a + b)[i].spec_node_j()->0) by {
        if i >= a.len() {
            assert((p + q)[i] == q[i - a.len()]);
            assert((a + b)[i] == b[i - a.len()]);
        }
    }
}

/// Appends to `out` the end nodes of each member of `table`, in order;
/// fails at the first member without end nodes or with an end node that
/// `nodes` lacks.
fn resolve_table<'a>(
    nodes: &'a StbNodes,
    table: &'a IdTable<StbMember>,
    out: &mut Vec<(&'a StbNode, &'a StbNode)>,
) -> (r: Result<(), StbError>)
    ensures
        r is Ok <==> all_resolvable(*nodes, member_values(table@)),
        r matches Err(err) ==> some_fault(*nodes, member_values(table@), err),
        r is Ok ==> final(out)@ == old(out)@ + final(out)@.subrange(old(out)@.len() as int, final(out)@.len() as int),
        r is Ok ==> resolved_pairs(
            *nodes,
            member_values(table@),
            final(out)@.subrange(old(out)@.len() as int, final(out)@.len() as int),
        ),
{
    let entries = table.entries();
    let ghost start = out@.len();
    let ghost ms = member_values(table@);
    let mut k: usize = 0;
    while k < entries.len()
        invariant
            entries@ == table@,
            ms == member_values(table@),
            k <= entries@.len(),
            start == old(out)@.len(),
            out@.len() == start + k,
            out@.subrange(0, start as int) == old(out)@,
            forall|i: int| 0 <= i < k ==> resolvable(*nodes, #[trigger] ms[i]),
            resolved_pairs(*nodes, ms.subrange(0, k as int), out@.subrange(start as int, out@.len() as int)),
        decreases entries@.len() - k,
    {
        let m = &entries[k].1;
        assert(ms[k as int] == *m);
        match m {
            StbMember::StbSlab { id, .. } => {
                let err = StbError::NoEndpoints { member: *id };
                assert(member_fault(*nodes, ms[k as int], err));
                return Err(err);
            },
            _ => {},
        }
        let i = m.node_i();
        let j = m.node_j();
        let ni = match nodes.get(i) {
            Some(n) => n,
            None => {
                let err = StbError::UnknownNode { id: i };
                assert(member_fault(*nodes, ms[k as int], err));
                return Err(err);
            },
        };
        let nj = match nodes.get(j) {
            Some(n) => n,
            None => {
                let err = StbError::UnknownNode { id: j };
                assert(member_fault(*nodes, ms[k as int], err));
                return Err(err);
            },
        };
        let ghost before = out@;
        out.push((ni, nj));
        proof {
            lemma_index_of(nodes.map@, i);
            lemma_index_of(nodes.map@, j);
            assert(out@.subrange(0, start as int) =~= before.subrange(0, start as int));
            assert(ms.subrange(0, k + 1) =~= ms.subrange(0, k as int).push(*m));
            assert(out@.subrange(start as int, out@.len() as int) =~= before.subrange(start as int, before.len() as int).push((ni, nj)));
        }
        k = k + 1;
    }
    proof {
        assert(ms.subrange(0, k as int) =~= ms);
        assert(out@ =~= old(out)@ + out@.subrange(start as int, out@.len() as int));
    }
    Ok(())
}

impl StBridge {
    /// The end nodes of every member, in iteration order: columns, posts,
    /// girders, beams, braces, then slabs. Fails where a member has no end
    /// nodes (a slab) or refers to a node that the node table lacks.
    pub fn members(&self) -> (r: Result<Vec<(&StbNode, &StbNode)>, StbError>)
        ensures
            r is Ok <==> all_resolvable(self.stb_model.stb_nodes, all_members(self.stb_model.stb_members)),
            r matches Ok(pairs) ==> resolved_pairs(self.stb_model.stb_nodes, all_members(self.stb_model.stb_members), pairs@),
            r matches Err(err) ==> some_fault(self.stb_model.stb_nodes, all_members(self.stb_model.stb_members), err),
    {
        let nodes = &self.stb_model.stb_nodes;
        let ms = &self.stb_model.stb_members;
        let ghost v0 = member_values(ms.stb_columns@);
        let ghost v1 = member_values(ms.stb_posts@);
        let ghost v2 = member_values(ms.stb_girders@);
        let ghost v3 = member_values(ms.stb_beams@);
        let ghost v4 = member_values(ms.stb_braces@);
        let ghost v5 = member_values(ms.stb_slabs@);
        proof {
            lemma_all_resolvable_concat(*nodes, v0, v1);
            lemma_all_resolvable_concat(*nodes, v0 + v1, v2);
            lemma_all_resolvable_concat(*nodes, v0 + v1 + v2, v3);
            lemma_all_resolvable_concat(*nodes, v0 + v1 + v2 + v3, v4);
            lemma_all_resolvable_concat(*nodes, v0 + v1 + v2 + v3 + v4, v5);
        }
        let mut out: Vec<(&StbNode, &StbNode)> = Vec::new();
        let ghost before = out@;
        if let Err(err) = resolve_table(nodes, &ms.stb_columns, &mut out) {
            proof {
                lemma_some_fault_in_all(*nodes, *ms, err);
            }
            return Err(err);
        }
        assert(out@.subrange(0, out@.len() as int) =~= out@);
        let ghost before = out@;
        if let Err(err) = resolve_table(nodes, &ms.stb_posts, &mut out) {
            proof {
                lemma_some_fault_in_all(*nodes, *ms, err);
            }
            return Err(err);
        }
        proof {
            lemma_resolved_pairs_concat(*nodes, v0, v1, before, out@.subrange(before.len() as int, out@.len() as int));
        }
        let ghost before = out@;
        if let Err(err) = resolve_table(nodes, &ms.stb_girders, &mut out) {
            proof {
                lemma_some_fault_in_all(*nodes, *ms, err);
            }
            return Err(err);
        }
        proof {
            lemma_resolved_pairs_concat(*nodes, v0 + v1, v2, before, out@.subrange(before.len() as int, out@.len() as int));
        }
        let ghost before = out@;
        if let Err(err) = resolve_table(nodes, &ms.stb_beams, &mut out) {
            proof {
                lemma_some_fault_in_all(*nodes, *ms, err);
            }
            return Err(err);
        }
        proof {
            lemma_resolved_pairs_concat(*nodes, v0 + v1 + v2, v3, before, out@.subrange(before.len() as int, out@.len() as int));
        }
        let ghost before = out@;
        if let Err(err) = resolve_table(nodes, &ms.stb_braces, &mut out) {
            proof {
                lemma_some_fault_in_all(*nodes, *ms, err);
            }
            return Err(err);
        }
        proof {
            lemma_resolved_pairs_concat(*nodes, v0 + v1 + v2 + v3, v4, before, out@.subrange(before.len() as int, out@.len() as int));
        }
        let ghost before = out@;
        if let Err(err) = resolve_table(nodes, &ms.stb_slabs, &mut out) {
            proof {
                lemma_some_fault_in_all(*nodes, *ms, err);
            }
            return Err(err);
        }
        proof {
            lemma_resolved_pairs_concat(*nodes, v0 + v1 + v2 + v3 + v4, v5, before, out@.subrange(before.len() as int, out@.len() as int));
        }
        Ok(out)
    }
}

} // verus!
