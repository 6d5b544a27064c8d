//! Attribute coercion. Numeric, boolean and text fields read the
//! attribute's lowercase form; enumeration fields read its exact text.

use crate::error::StbError;
use crate::text::{bool_of, i32_of, is_real_literal, lower_of, lowercase, parse_bool, parse_i32, parse_u32, u32_of, Real};
use crate::xml::{extract_node, XmlTree};
use vstd::prelude::*;

verus! {

/// A type whose values are read from text.
pub trait TextValue: Sized {
    spec fn spec_parse(s: Seq<char>) -> Option<Self>;

    fn parse_text(s: &str) -> (r: Option<Self>)
        ensures
            r == Self::spec_parse(s@),
    ;
}

impl TextValue for u32 {
    open spec fn spec_parse(s: Seq<char>) -> Option<u32> {
        u32_of(s)
    }

    fn parse_text(s: &str) -> (r: Option<u32>) {
        parse_u32(s)
    }
}

impl TextValue for i32 {
    open spec fn spec_parse(s: Seq<char>) -> Option<i32> {
        i32_of(s)
    }

    fn parse_text(s: &str) -> (r: Option<i32>) {
        parse_i32(s)
    }
}

impl TextValue for bool {
    open spec fn spec_parse(s: Seq<char>) -> Option<bool> {
        bool_of(s)
    }

    fn parse_text(s: &str) -> (r: Option<bool>) {
        parse_bool(s)
    }
}

/// The attribute `key` of element `e` read as a `T` after lowercasing.
pub open spec fn scalar<T: TextValue>(t: XmlTree, e: int, key: Seq<char>) -> Option<T> {
    match t.attr(e, key) {
        Some(v) => T::spec_parse(lower_of(v)),
        None => None,
    }
}

/// The attribute `key` of element `e` read as a `T` from its exact text.
pub open spec fn exact<T: TextValue>(t: XmlTree, e: int, key: Seq<char>) -> Option<T> {
    match t.attr(e, key) {
        Some(v) => T::spec_parse(v),
        None => None,
    }
}

/// The lowercase text of the attribute `key` of element `e`.
pub open spec fn lowered(t: XmlTree, e: int, key: Seq<char>) -> Option<Seq<char>> {
    match t.attr(e, key) {
        Some(v) => Some(lower_of(v)),
        None => None,
    }
}

/// The lowercase text of the attribute `key` of element `e`, where it is a
/// real-number literal.
pub open spec fn real_value(t: XmlTree, e: int, key: Seq<char>) -> Option<Seq<char>> {
    match t.attr(e, key) {
        Some(v) => if is_real_literal(lower_of(v)) {
            Some(lower_of(v))
        } else {
            None
        },
        None => None,
    }
}

/// The exact text of the attribute `key` of element `e`, where it is a
/// real-number literal.
pub open spec fn exact_real(t: XmlTree, e: int, key: Seq<char>) -> Option<Seq<char>> {
    match t.attr(e, key) {
        Some(v) => if is_real_literal(v) {
            Some(v)
        } else {
            None
        },
        None => None,
    }
}

/// The error of a failed coercion names a missing attribute exactly when the
/// attribute is absent.
pub open spec fn coercion_error(t: XmlTree, e: int, key: Seq<char>, err: StbError) -> bool {
    match err {
        StbError::MissingAttribute { name } => t.attr(e, key) is None && name@ == key,
        StbError::InvalidAttribute { name, value } => t.attr(e, key) == Some(value@) && name@ == key,
        _ => false,
    }
}

/// `err` names a fault that the tree `t` has: an element without a required
/// child, an attribute absent or present with the text `err` carries, an
/// element with the tag `err` carries, or no root element.
pub open spec fn tree_fault(t: XmlTree, err: StbError) -> bool {
    match err {
        StbError::MissingElement { name } => exists|i: int|
            0 <= i < t.nodes@.len() && #[trigger] t.child_named(i, name@) is None,
        StbError::MissingAttribute { name } => exists|i: int|
            0 <= i < t.nodes@.len() && #[trigger] t.attr(i, name@) is None,
        StbError::InvalidAttribute { name, value } => exists|i: int|
            0 <= i < t.nodes@.len() && #[trigger] t.attr(i, name@) == Some(value@),
        StbError::UnknownTag { name } => exists|i: int|
            0 <= i < t.nodes@.len() && t.nodes@[i].is_element && #[trigger] t.tag(i) == name@,
        StbError::MalformedTree => t.root_element() is None,
        _ => false,
    }
}

/// `err` names an attribute of element `e` that is absent, or that is
/// present with the text `err` carries.
pub open spec fn attribute_fault(t: XmlTree, e: int, err: StbError) -> bool {
    match err {
        StbError::MissingAttribute { name } => t.attr(e, name@) is None,
        StbError::InvalidAttribute { name, value } => t.attr(e, name@) == Some(value@),
        _ => false,
    }
}

fn present<'a>(t: &'a XmlTree, e: usize, key: &str) -> (r: Result<&'a str, StbError>)
    requires
        e < t.nodes@.len(),
    ensures
        r is Ok <==> t.attr(e as int, key@) is Some,
        r matches Ok(v) ==> t.attr(e as int, key@) == Some(v@),
        r matches Err(err) ==> coercion_error(*t, e as int, key@, err),
{
    match t.attribute(e, key) {
        Some(v) => Ok(v),
        None => Err(StbError::MissingAttribute { name: key.to_string() }),
    }
}

fn invalid(key: &str, v: &str) -> (r: StbError)
    ensures
        r matches StbError::InvalidAttribute { name, value } && name@ == key@ && value@ == v@,
{
    StbError::InvalidAttribute { name: key.to_string(), value: v.to_string() }
}

/// Scalar coercion: the attribute's lowercase text read as a `T`.
pub fn parse_attribute<T: TextValue>(t: &XmlTree, e: usize, key: &str) -> (r: Result<T, StbError>)
    requires
        e < t.nodes@.len(),
    ensures
        r is Ok <==> scalar::<T>(*t, e as int, key@) is Some,
        r matches Ok(v) ==> scalar::<T>(*t, e as int, key@) == Some(v),
        r matches Err(err) ==> coercion_error(*t, e as int, key@, err),
        r matches Err(err) ==> tree_fault(*t, err),
{
    let v = present(t, e, key)?;
    match T::parse_text(lowercase(v).as_str()) {
        Some(x) => Ok(x),
        None => Err(invalid(key, v)),
    }
}

/// Enumeration coercion: the attribute's exact text read as a `T`.
pub fn parse_enum_attribute<T: TextValue>(t: &XmlTree, e: usize, key: &str) -> (r: Result<T, StbError>)
    requires
        e < t.nodes@.len(),
    ensures
        r is Ok <==> exact::<T>(*t, e as int, key@) is Some,
        r matches Ok(v) ==> exact::<T>(*t, e as int, key@) == Some(v),
        r matches Err(err) ==> coercion_error(*t, e as int, key@, err),
        r matches Err(err) ==> tree_fault(*t, err),
{
    let v = present(t, e, key)?;
    match T::parse_text(v) {
        Some(x) => Ok(x),
        None => Err(invalid(key, v)),
    }
}

/// The attribute's lowercase text.
pub fn parse_text_attribute(t: &XmlTree, e: usize, key: &str) -> (r: Result<String, StbError>)
    requires
        e < t.nodes@.len(),
    ensures
        r is Ok <==> t.attr(e as int, key@) is Some,
        r matches Ok(v) ==> lowered(*t, e as int, key@) == Some(v@),
        r matches Err(err) ==> coercion_error(*t, e as int, key@, err),
        r matches Err(err) ==> tree_fault(*t, err),
{
    let v = present(t, e, key)?;
    Ok(lowercase(v))
}

/// The attribute's exact text.
pub fn raw_attribute(t: &XmlTree, e: usize, key: &str) -> (r: Result<String, StbError>)
    requires
        e < t.nodes@.len(),
    ensures
        r is Ok <==> t.attr(e as int, key@) is Some,
        r matches Ok(v) ==> t.attr(e as int, key@) == Some(v@),
        r matches Err(err) ==> coercion_error(*t, e as int, key@, err),
        r matches Err(err) ==> tree_fault(*t, err),
{
    let v = present(t, e, key)?;
    Ok(v.to_string())
}

/// The attribute's lowercase text read as a real number.
pub fn parse_real_attribute(t: &XmlTree, e: usize, key: &str) -> (r: Result<Real, StbError>)
    requires
        e < t.nodes@.len(),
    ensures
        r is Ok <==> real_value(*t, e as int, key@) is Some,
        r matches Ok(v) ==> real_value(*t, e as int, key@) == Some(v@),
        r matches Err(err) ==> coercion_error(*t, e as int, key@, err),
        r matches Err(err) ==> tree_fault(*t, err),
{
    let v = present(t, e, key)?;
    match Real::parse(lowercase(v).as_str()) {
        Some(x) => Ok(x),
        None => Err(invalid(key, v)),
    }
}

/// An optional attribute read as a `T` from its exact text.
pub fn optional_exact<T: TextValue>(t: &XmlTree, e: usize, key: &str) -> (r: Result<Option<T>, StbError>)
    requires
        e < t.nodes@.len(),
    ensures
        r is Ok <==> (t.attr(e as int, key@) is None || exact::<T>(*t, e as int, key@) is Some),
        r matches Ok(v) ==> v == exact::<T>(*t, e as int, key@),
        r matches Err(err) ==> coercion_error(*t, e as int, key@, err),
        r matches Err(err) ==> tree_fault(*t, err),
{
    match t.attribute(e, key) {
        None => Ok(None),
        Some(v) => match T::parse_text(v) {
            Some(x) => Ok(Some(x)),
            None => Err(invalid(key, v)),
        },
    }
}

/// An optional attribute's exact text.
pub fn optional_raw(t: &XmlTree, e: usize, key: &str) -> (r: Option<String>)
    requires
        e < t.nodes@.len(),
    ensures
        r is Some <==> t.attr(e as int, key@) is Some,
        r matches Some(v) ==> t.attr(e as int, key@) == Some(v@),
{
    match t.attribute(e, key) {
        None => None,
        Some(v) => Some(v.to_string()),
    }
}

/// An optional attribute read as a real number from its exact text.
pub fn optional_real(t: &XmlTree, e: usize, key: &str) -> (r: Result<Option<Real>, StbError>)
    requires
        e < t.nodes@.len(),
    ensures
        r is Ok <==> (t.attr(e as int, key@) is None || exact_real(*t, e as int, key@) is Some),
        r matches Ok(v) ==> (v is Some <==> t.attr(e as int, key@) is Some),
        r matches Ok(Some(x)) ==> exact_real(*t, e as int, key@) == Some(x@),
        r matches Err(err) ==> coercion_error(*t, e as int, key@, err),
        r matches Err(err) ==> tree_fault(*t, err),
{
    match t.attribute(e, key) {
        None => Ok(None),
        Some(v) => match Real::parse(v) {
            Some(x) => Ok(Some(x)),
            None => Err(invalid(key, v)),
        },
    }
}

/// The first child element of `e` named `name`, which must be there.
pub fn required_child(t: &XmlTree, e: usize, name: &str) -> (r: Result<usize, StbError>)
    requires
        e < t.nodes@.len(),
    ensures
        r is Ok <==> t.child_named(e as int, name@) is Some,
        r matches Ok(c) ==> Some(c) == t.child_named(e as int, name@) && c < t.nodes@.len(),
        r matches Err(err) ==> err matches StbError::MissingElement { name: n } && n@ == name@,
        r matches Err(err) ==> tree_fault(*t, err),
{
    match extract_node(t, name, e) {
        Some(c) => Ok(c),
        None => Err(StbError::MissingElement { name: name.to_string() }),
    }
}

/// The IDs of the elements `elems`, read from their `id` attributes.
pub open spec fn id_keys(t: XmlTree, elems: Seq<usize>) -> Seq<u32> {
    Seq::new(elems.len(), |j: int| scalar::<u32>(t, elems[j] as int, "id"@)->0)
}

/// Case asymmetry of the two coercions: scalar coercion reads the
/// lowercase form, so two attribute texts that lowercase alike read alike;
/// enumeration coercion reads the exact text, so its result is that of the
/// text as written.
pub proof fn lemma_case_asymmetry<T: TextValue, E: TextValue>(t: XmlTree, e: int, u: XmlTree, f: int, key: Seq<char>)
    requires
        t.attr(e, key) is Some,
        u.attr(f, key) is Some,
        lower_of(t.attr(e, key)->0) == lower_of(u.attr(f, key)->0),
    ensures
        scalar::<T>(t, e, key) == scalar::<T>(u, f, key),
        scalar::<T>(t, e, key) == T::spec_parse(lower_of(t.attr(e, key)->0)),
        exact::<E>(t, e, key) == E::spec_parse(t.attr(e, key)->0),
        exact::<E>(u, f, key) == E::spec_parse(u.attr(f, key)->0),
{
}

} // verus!
