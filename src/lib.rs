//! Typed model of a structural-engineering interchange document (an XML
//! dialect of nodes, axes, stories, members and sections), read from the
//! document's element tree with every attribute coerced by a stated rule.
//!
//! - `xml`: the element tree as plain values, and the queries made of it.
//! - `text`, `coerce`: how attribute text becomes numbers, booleans, real
//!   numbers, text and enumeration values.
//! - `table`: tables that keep keys in order of first insertion, where a
//!   later value for a key replaces the earlier one.
//! - `stb_*`: the entities of the document and their extractors;
//!   `stb_model` assembles the document and resolves member end nodes.

pub mod text;
pub mod error;
pub mod xml;
pub mod coerce;
pub mod table;
pub mod stb_nodes;
pub mod stb_axes_and_stories;
pub mod stb_members;
pub mod stb_sections;
pub mod stb_common;
pub mod stb_extensions;
pub mod stb_model;
