//! What can go wrong while a document is read or queried.

use vstd::prelude::*;

verus! {

/// A fault found while reading a document or resolving its references.
#[derive(Debug, Clone, PartialEq)]
pub enum StbError {
    /// The text is not well-formed XML; the parser's own description.
    Xml { message: String },
    /// The parsed tree refers to a node it does not hold.
    MalformedTree,
    /// A required child element is absent.
    MissingElement { name: String },
    /// A required attribute is absent.
    MissingAttribute { name: String },
    /// An attribute is present but its text does not read as the field's type
    /// or as one of the labels of the field's enumeration.
    InvalidAttribute { name: String, value: String },
    /// A child element's tag is none that its container admits.
    UnknownTag { name: String },
    /// A member refers to a node that the node table lacks.
    UnknownNode { id: u32 },
    /// A member kind without end nodes was asked for them.
    NoEndpoints { member: u32 },
}

} // verus!
