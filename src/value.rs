//! The decoded element model: values, elements, namespaces and documents.
use vstd::prelude::*;

verus! {

/// One decoded element of a document.
pub enum TaggedValue {
    /// No value.
    Absent,
    /// A text string.
    Text(String),
    /// A boolean.
    Boolean(bool),
    /// A signed integer.
    Integer(i128),
    /// A 64-bit float, held as its default decimal rendering, which is formed
    /// where the float itself is decoded.
    Float(String),
    /// An opaque byte string; only its length is ever shown.
    Bytes(Vec<u8>),
    /// An ordered list of values.
    Sequence(Vec<TaggedValue>),
    /// An ordered list of key/value pairs; duplicate keys are kept.
    Mapping(Vec<(TaggedValue, TaggedValue)>),
    /// A value carrying a numeric semantic tag.
    Tagged(u64, Box<TaggedValue>),
}

/// One named data element of a namespace.
pub struct Element {
    pub key: String,
    pub value: TaggedValue,
}

/// A named group of elements, in document order.
pub struct Namespace {
    pub name: String,
    pub elements: Vec<Element>,
}

/// The decoded contents of a document: its namespaces, in document order.
pub struct Document {
    pub namespaces: Vec<Namespace>,
}

} // verus!
