//! The element tree of an XML document, as plain values, and the queries
//! that the extraction makes of it.

use crate::error::StbError;
use crate::text::same_text;
use vstd::prelude::*;

verus! {

/// One attribute of an element: its local name and its value.
#[derive(Debug, Clone, PartialEq)]
pub struct XmlAttribute {
    pub name: String,
    pub value: String,
}

/// One node of the tree. Nodes that are not elements (the document root,
/// text, comments, processing instructions) have `is_element` false.
#[derive(Debug, Clone, PartialEq)]
pub struct XmlNode {
    pub is_element: bool,
    /// Local tag name; empty for nodes that are not elements.
    pub name: String,
    pub attributes: Vec<XmlAttribute>,
    /// Indices of the child nodes, in document order.
    pub children: Vec<usize>,
}

/// A whole document: its nodes in document order, the document root first.
#[derive(Debug, Clone, PartialEq)]
pub struct XmlTree {
    pub nodes: Vec<XmlNode>,
}

#[verifier::external_type_specification]
#[verifier::external_body]
pub struct ExXmlError(roxmltree::Error);

/// The tree that `roxmltree` reads from an XML text, or `None` where the
/// text is not well-formed XML.
pub uninterp spec fn xml_tree_of(text: Seq<char>) -> Option<XmlTree>;

/// Relies on `roxmltree::Document::parse`, `Document::descendants` and the
/// node accessors: every node of the document in document order (the k-th
/// one has the identifier k), with its kind, local tag name, attributes and
/// the identifiers of its children. The tree depends on the text alone.
#[verifier::external_body]
fn read_xml_tree(text: &str) -> (r: Result<XmlTree, roxmltree::Error>)
    ensures
        r is Ok <==> xml_tree_of(text@) is Some,
        r matches Ok(t) ==> xml_tree_of(text@) == Some(t),
{
    let doc = roxmltree::Document::parse(text)?;
    Ok(XmlTree { nodes: doc.descendants().map(|n| XmlNode {
        is_element: n.is_element(),
        name: n.tag_name().name().to_string(),
        attributes: n.attributes().map(|a| XmlAttribute {
            name: a.name().to_string(),
            value: a.value().to_string(),
        }).collect(),
        children: n.children().map(|c| c.id().get_usize()).collect(),
    }).collect() })
}

/// Relies on the `Display` impl of `roxmltree::Error`: its description.
#[verifier::external_body]
fn xml_error_message(e: &roxmltree::Error) -> (r: String) {
    e.to_string()
}

/// Every child index of every node refers to a node of the sequence.
pub open spec fn nodes_wf(nodes: Seq<XmlNode>) -> bool {
    forall|i: int, j: int|
        0 <= i < nodes.len() && 0 <= j < nodes[i].children@.len() ==> #[trigger] nodes[i].children@[j]
            < nodes.len()
}

/// The value of the first attribute of `attrs` named `key`.
pub open spec fn attr_value(attrs: Seq<XmlAttribute>, key: Seq<char>) -> Option<Seq<char>>
    decreases attrs.len(),
{
    if attrs.len() == 0 {
        None
    } else if attrs[0].name@ == key {
        Some(attrs[0].value@)
    } else {
        attr_value(attrs.drop_first(), key)
    }
}

/// The first of `cs` that is an element named `name`.
pub open spec fn first_named(t: XmlTree, cs: Seq<usize>, name: Seq<char>) -> Option<usize>
    decreases cs.len(),
{
    if cs.len() == 0 {
        None
    } else if t.is_element_named(cs[0] as int, name) {
        Some(cs[0])
    } else {
        first_named(t, cs.drop_first(), name)
    }
}

/// The first of `cs` that is an element.
pub open spec fn first_element(t: XmlTree, cs: Seq<usize>) -> Option<usize>
    decreases cs.len(),
{
    if cs.len() == 0 {
        None
    } else if t.nodes@[cs[0] as int].is_element {
        Some(cs[0])
    } else {
        first_element(t, cs.drop_first())
    }
}

/// Those of `cs` that are elements, in order.
pub open spec fn elements_among(t: XmlTree, cs: Seq<usize>) -> Seq<usize>
    decreases cs.len(),
{
    if cs.len() == 0 {
        Seq::empty()
    } else {
        let p = elements_among(t, cs.drop_last());
        if t.nodes@[cs.last() as int].is_element {
            p.push(cs.last())
        } else {
            p
        }
    }
}

/// Those of `cs` that are elements named `name`, in order.
pub open spec fn named_among(t: XmlTree, cs: Seq<usize>, name: Seq<char>) -> Seq<usize>
    decreases cs.len(),
{
    if cs.len() == 0 {
        Seq::empty()
    } else {
        let p = named_among(t, cs.drop_last(), name);
        if t.is_element_named(cs.last() as int, name) {
            p.push(cs.last())
        } else {
            p
        }
    }
}

/// `items` holds one value per element of `elems`, in order, where
/// `read(e, v)` says that `v` is what element `e` holds.
pub open spec fn read_from<V>(items: Seq<V>, elems: Seq<usize>, read: spec_fn(int, V) -> bool) -> bool {
    &&& items.len() == elems.len()
    &&& forall|j: int| 0 <= j < items.len() ==> read(#[trigger] elems[j] as int, items[j])
}

impl XmlTree {
    pub open spec fn wf(self) -> bool {
        &&& self.nodes@.len() > 0
        &&& nodes_wf(self.nodes@)
    }

    pub open spec fn is_element_named(self, i: int, name: Seq<char>) -> bool {
        &&& 0 <= i < self.nodes@.len()
        &&& self.nodes@[i].is_element
        &&& self.nodes@[i].name@ == name
    }

    /// Tag name of node `i`.
    pub open spec fn tag(self, i: int) -> Seq<char> {
        self.nodes@[i].name@
    }

    /// Value of the attribute `key` of node `i`.
    pub open spec fn attr(self, i: int, key: Seq<char>) -> Option<Seq<char>> {
        attr_value(self.nodes@[i].attributes@, key)
    }

    /// The first child element of node `i` named `name`.
    pub open spec fn child_named(self, i: int, name: Seq<char>) -> Option<usize> {
        first_named(self, self.nodes@[i].children@, name)
    }

    /// The child elements of node `i`, in document order.
    pub open spec fn child_elements(self, i: int) -> Seq<usize> {
        elements_among(self, self.nodes@[i].children@)
    }

    /// The outermost element of the document.
    pub open spec fn root_element(self) -> Option<usize> {
        first_element(self, self.nodes@[0].children@)
    }

    /// A tree over `nodes`; fails when a node has a child index out of range
    /// or there is no node at all.
    pub fn from_nodes(nodes: Vec<XmlNode>) -> (r: Result<XmlTree, StbError>)
        ensures
            r is Ok <==> nodes@.len() > 0 && nodes_wf(nodes@),
            r matches Ok(t) ==> t.nodes == nodes,
            r matches Err(e) ==> e is MalformedTree,
    {
        let n = nodes.len();
        if n == 0 {
            return Err(StbError::MalformedTree);
        }
        let mut i: usize = 0;
        while i < n
            invariant
                n == nodes@.len(),
                i <= n,
                forall|a: int, b: int|
                    0 <= a < i && 0 <= b < nodes@[a].children@.len() ==> #[trigger] nodes@[a].children@[b]
                        < n,
            decreases n - i,
        {
            let children = &nodes[i].children;
            let mut j: usize = 0;
            while j < children.len()
                invariant
                    n == nodes@.len(),
                    i < n,
                    children@ == nodes@[i as int].children@,
                    j <= children@.len(),
                    forall|a: int, b: int|
                        0 <= a < i && 0 <= b < nodes@[a].children@.len() ==> #[trigger] nodes@[a].children@[b]
                            < n,
                    forall|b: int| 0 <= b < j ==> #[trigger] children@[b] < n,
                decreases children@.len() - j,
            {
                if children[j] >= n {
                    return Err(StbError::MalformedTree);
                }
                j = j + 1;
            }
            i = i + 1;
        }
        Ok(XmlTree { nodes })
    }

    /// Parses an XML text into its tree.
    pub fn parse(text: &str) -> (r: Result<XmlTree, StbError>)
        ensures
            r is Ok <==> (xml_tree_of(text@) matches Some(t) && t.wf()),
            r matches Ok(t) ==> xml_tree_of(text@) == Some(t),
            r matches Err(e) ==> (e is Xml <==> xml_tree_of(text@) is None),
            r matches Err(e) ==> e is Xml || e is MalformedTree,
    {
        match read_xml_tree(text) {
            Ok(t) => XmlTree::from_nodes(t.nodes),
            Err(e) => Err(StbError::Xml { message: xml_error_message(&e) }),
        }
    }

    /// The value of attribute `key` of node `i`.
    pub fn attribute(&self, i: usize, key: &str) -> (r: Option<&str>)
        requires
            i < self.nodes@.len(),
        ensures
            r is Some <==> self.attr(i as int, key@) is Some,
            r matches Some(v) ==> v@ == self.attr(i as int, key@)->0,
    {
        let attrs = &self.nodes[i].attributes;
        let mut k: usize = 0;
        assert(attrs@.subrange(0, attrs@.len() as int) =~= attrs@);
        while k < attrs.len()
            invariant
                i < self.nodes@.len(),
                attrs@ == self.nodes@[i as int].attributes@,
                k <= attrs@.len(),
                self.attr(i as int, key@) == attr_value(attrs@.subrange(k as int, attrs@.len() as int), key@),
            decreases attrs@.len() - k,
        {
            let ghost rest = attrs@.subrange(k as int, attrs@.len() as int);
            assert(rest.drop_first() =~= attrs@.subrange(k + 1, attrs@.len() as int));
            if same_text(attrs[k].name.as_str(), key) {
                return Some(attrs[k].value.as_str());
            }
            k = k + 1;
        }
        None
    }

    /// The child elements of node `i`, in document order.
    pub fn child_elements_of(&self, i: usize) -> (r: Vec<usize>)
        requires
            self.wf(),
            i < self.nodes@.len(),
        ensures
            r@ == self.child_elements(i as int),
            forall|k: int| 0 <= k < r@.len() ==> #[trigger] r@[k] < self.nodes@.len(),
            forall|k: int| 0 <= k < r@.len() ==> self.nodes@[#[trigger] r@[k] as int].is_element,
    {
        let children = &self.nodes[i].children;
        let mut out: Vec<usize> = Vec::new();
        let mut k: usize = 0;
        while k < children.len()
            invariant
                self.wf(),
                i < self.nodes@.len(),
                children@ == self.nodes@[i as int].children@,
                k <= children@.len(),
                out@ == elements_among(*self, children@.subrange(0, k as int)),
                forall|m: int| 0 <= m < out@.len() ==> #[trigger] out@[m] < self.nodes@.len(),
                forall|m: int| 0 <= m < out@.len() ==> self.nodes@[#[trigger] out@[m] as int].is_element,
            decreases children@.len() - k,
        {
            assert(children@.subrange(0, k + 1).drop_last() =~= children@.subrange(0, k as int));
            let c = children[k];
            assert(c < self.nodes@.len());
            if self.nodes[c].is_element {
                out.push(c);
            }
            k = k + 1;
        }
        assert(children@.subrange(0, children@.len() as int) =~= children@);
        out
    }

    /// The outermost element of the document.
    pub fn find_root_element(&self) -> (r: Option<usize>)
        requires
            self.wf(),
        ensures
            r == self.root_element(),
            r matches Some(e) ==> e < self.nodes@.len(),
    {
        let children = &self.nodes[0].children;
        let mut k: usize = 0;
        assert(children@.subrange(0, children@.len() as int) =~= children@);
        while k < children.len()
            invariant
                self.wf(),
                children@ == self.nodes@[0].children@,
                k <= children@.len(),
                self.root_element() == first_element(
                    *self,
                    children@.subrange(k as int, children@.len() as int),
                ),
            decreases children@.len() - k,
        {
            let ghost rest = children@.subrange(k as int, children@.len() as int);
            assert(rest.drop_first() =~= children@.subrange(k + 1, children@.len() as int));
            let c = children[k];
            assert(c < self.nodes@.len());
            if self.nodes[c].is_element {
                return Some(c);
            }
            k = k + 1;
        }
        None
    }
}

/// The first child element of node `parent` named `name`.
pub fn extract_node(t: &XmlTree, name: &str, parent: usize) -> (r: Option<usize>)
    requires
        parent < t.nodes@.len(),
    ensures
        r == t.child_named(parent as int, name@),
        r matches Some(c) ==> t.is_element_named(c as int, name@),
{
    let children = &t.nodes[parent].children;
    let mut k: usize = 0;
    assert(children@.subrange(0, children@.len() as int) =~= children@);
    while k < children.len()
        invariant
            parent < t.nodes@.len(),
            children@ == t.nodes@[parent as int].children@,
            k <= children@.len(),
            t.child_named(parent as int, name@) == first_named(
                *t,
                children@.subrange(k as int, children@.len() as int),
                name@,
            ),
        decreases children@.len() - k,
    {
        let ghost rest = children@.subrange(k as int, children@.len() as int);
        assert(rest.drop_first() =~= children@.subrange(k + 1, children@.len() as int));
        let c = children[k];
        if c < t.nodes.len() && t.nodes[c].is_element && same_text(
            t.nodes[c].name.as_str(),
            name,
        ) {
            return Some(c);
        }
        k = k + 1;
    }
    None
}

} // verus!
