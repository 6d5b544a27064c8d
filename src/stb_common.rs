//! Common definitions: the design strength of each reinforcement bar diameter.

use crate::coerce::{tree_fault, raw_attribute, required_child};
use crate::error::StbError;
use crate::table::{built_from, index_of, inserted, lemma_built_from_insert, TextTable};
use crate::xml::XmlTree;
use vstd::prelude::*;

verus! {

/// Design strength designation of each bar diameter designation.
#[derive(Debug, Clone, PartialEq)]
pub struct StbReinforcementStrengthList {
    map: TextTable<String>,
}

impl View for StbReinforcementStrengthList {
    type V = Seq<(Seq<char>, String)>;

    closed spec fn view(&self) -> Seq<(Seq<char>, String)> {
        self.map@
    }
}

impl StbReinforcementStrengthList {
    pub fn new() -> (r: StbReinforcementStrengthList)
        ensures
            r@.len() == 0,
    {
        StbReinforcementStrengthList { map: TextTable::new() }
    }

    /// Records `sd` as the strength of diameter `d`, replacing any earlier one.
    pub fn insert(&mut self, d: String, sd: String)
        ensures
            final(self)@ == inserted(old(self)@, d@, sd),
    {
        self.map.insert(d, sd);
    }

    /// The strength of diameter `d`.
    pub fn get(&self, d: String) -> (r: Option<&String>)
        ensures
            r is None <==> index_of(self@, d@) == -1,
            r matches Some(v) ==> *v == self@[index_of(self@, d@)].1,
    {
        self.map.get(&d)
    }

    /// The diameters and their strengths, in order of first insertion.
    pub fn entries(&self) -> (r: &Vec<(String, String)>)
        ensures
            crate::table::text_entries(r@) == self@,
    {
        self.map.entries()
    }
}

/// The common definitions of a document.
#[derive(Debug, Clone, PartialEq)]
pub struct StbCommon {
    pub stb_reinforcement_strength_list: StbReinforcementStrengthList,
}

impl StbCommon {
    pub fn new() -> (r: StbCommon)
        ensures
            r.stb_reinforcement_strength_list@.len() == 0,
    {
        StbCommon { stb_reinforcement_strength_list: StbReinforcementStrengthList::new() }
    }
}

/// The strength list element under the root element `root`.
pub open spec fn strength_list_of(t: XmlTree, root: int) -> Option<usize> {
    match t.child_named(root, "StbCommon"@) {
        Some(c) => t.child_named(c as int, "StbReinforcement_Strength_List"@),
        None => None,
    }
}

/// The diameters of the strength elements `elems`.
pub open spec fn strength_keys(t: XmlTree, elems: Seq<usize>) -> Seq<Seq<char>> {
    Seq::new(elems.len(), |j: int| t.attr(elems[j] as int, "D"@)->0)
}

/// What the j-th of the strength elements `elems` makes.
pub open spec fn strength_made(t: XmlTree, elems: Seq<usize>) -> spec_fn(int, String) -> bool {
    |j: int, v: String| t.attr(elems[j] as int, "SD"@) == Some(v@)
}

/// Every strength element under list element `l` has a diameter and a strength.
pub open spec fn strengths_ok(t: XmlTree, l: int) -> bool {
    forall|j: int|
        0 <= j < t.child_elements(l).len() ==> {
            let e = #[trigger] t.child_elements(l)[j] as int;
            t.attr(e, "D"@) is Some && t.attr(e, "SD"@) is Some
        }
}

/// The common definitions under root element `root` read.
pub open spec fn common_ok(t: XmlTree, root: int) -> bool {
    &&& strength_list_of(t, root) is Some
    &&& strengths_ok(t, strength_list_of(t, root)->0 as int)
}

/// `v` holds the strengths under root element `root`: one entry per distinct
/// diameter, holding the strength of the last element with that diameter.
pub open spec fn common_matches(t: XmlTree, root: int, v: StbCommon) -> bool {
    let elems = t.child_elements(strength_list_of(t, root)->0 as int);
    built_from(v.stb_reinforcement_strength_list@, strength_keys(t, elems), strength_made(t, elems))
}

/// Reads the common definitions under the root element `root`.
pub fn extract_stb_common(t: &XmlTree, root: usize) -> (r: Result<StbCommon, StbError>)
    requires
        t.wf(),
        root < t.nodes@.len(),
    ensures
        r is Ok <==> common_ok(*t, root as int),
        r matches Ok(v) ==> common_matches(*t, root as int, v),
        r matches Err(err) ==> tree_fault(*t, err),
{
    let c = required_child(t, root, "StbCommon")?;
    let l = required_child(t, c, "StbReinforcement_Strength_List")?;
    let elems = t.child_elements_of(l);
    let ghost keys = strength_keys(*t, elems@);
    let ghost made = strength_made(*t, elems@);
    let mut common = StbCommon::new();
    let mut k: usize = 0;
    assert(keys.subrange(0, 0) =~= Seq::<Seq<char>>::empty());
    while k < elems.len()
        invariant
            t.wf(),
            elems@ == t.child_elements(l as int),
            strength_list_of(*t, root as int) == Some(l),
            forall|m: int| 0 <= m < elems@.len() ==> #[trigger] elems@[m] < t.nodes@.len(),
            keys == strength_keys(*t, elems@),
            made == strength_made(*t, elems@),
            k <= elems@.len(),
            forall|j: int|
                0 <= j < k ==> {
                    let e = #[trigger] elems@[j] as int;
                    t.attr(e, "D"@) is Some && t.attr(e, "SD"@) is Some
                },
            built_from(common.stb_reinforcement_strength_list@, keys.subrange(0, k as int), made),
        decreases elems@.len() - k,
    {
        let e = elems[k];
        let d = raw_attribute(t, e, "D")?;
        let sd = raw_attribute(t, e, "SD")?;
        proof {
            lemma_built_from_insert(common.stb_reinforcement_strength_list@, keys.subrange(0, k as int), made, d@, sd);
            assert(keys.subrange(0, k + 1) =~= keys.subrange(0, k as int).push(d@));
        }
        common.stb_reinforcement_strength_list.insert(d, sd);
        k = k + 1;
    }
    assert(keys.subrange(0, k as int) =~= keys);
    Ok(common)
}

} // verus!
