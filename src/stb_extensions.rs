//! Extensions: identifier and description pairs, in document order.

use crate::coerce::{tree_fault, lowered, parse_text_attribute, required_child};
use crate::error::StbError;
use crate::xml::{read_from, XmlTree};
use vstd::prelude::*;

verus! {

/// One extension declared by the document.
#[derive(Debug, Clone, PartialEq)]
pub struct StbExtension {
    pub identifier: String,
    pub description: String,
}

/// The extensions declared by the document, in document order.
#[derive(Debug, Clone, PartialEq)]
pub struct StbExtensions {
    pub stb_extension_list: Vec<StbExtension>,
}

/// The extension container under the root element `root`.
pub open spec fn extensions_of(t: XmlTree, root: int) -> Option<usize> {
    t.child_named(root, "StbExtensions"@)
}

/// Extension element `e` has an identifier and a description.
pub open spec fn extension_ok(t: XmlTree, e: int) -> bool {
    t.attr(e, "identifier"@) is Some && t.attr(e, "description"@) is Some
}

/// `v` holds the lowercase identifier and description of extension element `e`.
pub open spec fn extension_matches(t: XmlTree, e: int, v: StbExtension) -> bool {
    &&& v.identifier@ == lowered(t, e, "identifier"@)->0
    &&& v.description@ == lowered(t, e, "description"@)->0
}

/// Every element under the extension container `c` is an extension that reads.
pub open spec fn extension_list_ok(t: XmlTree, c: int) -> bool {
    forall|j: int| 0 <= j < t.child_elements(c).len() ==> extension_ok(t, #[trigger] t.child_elements(c)[j] as int)
}

/// The extensions under root element `root` read.
pub open spec fn extensions_ok(t: XmlTree, root: int) -> bool {
    &&& extensions_of(t, root) is Some
    &&& extension_list_ok(t, extensions_of(t, root)->0 as int)
}

/// `v` holds one extension per element under the extension container, in order.
pub open spec fn extensions_matches(t: XmlTree, root: int, v: StbExtensions) -> bool {
    read_from(
        v.stb_extension_list@,
        t.child_elements(extensions_of(t, root)->0 as int),
        |e: int, x: StbExtension| extension_matches(t, e, x),
    )
}

/// Reads the extensions under the root element `root`.
pub fn extract_stb_extensions(t: &XmlTree, root: usize) -> (r: Result<StbExtensions, StbError>)
    requires
        t.wf(),
        root < t.nodes@.len(),
    ensures
        r is Ok <==> extensions_ok(*t, root as int),
        r matches Ok(v) ==> extensions_matches(*t, root as int, v),
        r matches Err(err) ==> tree_fault(*t, err),
{
    let c = required_child(t, root, "StbExtensions")?;
    let elems = t.child_elements_of(c);
    let mut list: Vec<StbExtension> = Vec::new();
    let mut k: usize = 0;
    while k < elems.len()
        invariant
            t.wf(),
            elems@ == t.child_elements(c as int),
            extensions_of(*t, root as int) == Some(c),
            forall|m: int| 0 <= m < elems@.len() ==> #[trigger] elems@[m] < t.nodes@.len(),
            k <= elems@.len(),
            list@.len() == k,
            forall|j: int|
                0 <= j < k ==> extension_ok(*t, #[trigger] elems@[j] as int) && extension_matches(
                    *t,
                    elems@[j] as int,
                    list@[j],
                ),
        decreases elems@.len() - k,
    {
        let e = elems[k];
        let identifier = parse_text_attribute(t, e, "identifier")?;
        let description = parse_text_attribute(t, e, "description")?;
        list.push(StbExtension { identifier, description });
        k = k + 1;
    }
    Ok(StbExtensions { stb_extension_list: list })
}

} // verus!
