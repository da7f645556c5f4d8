//! The structural events that make up a document stream.

use vstd::prelude::*;

verus! {

/// The concrete encoding requested by a `StartFbx` event: compact binary,
/// with a format version, or human-readable ASCII.
#[derive(Clone, Copy, Debug, PartialEq, Eq, Structural)]
pub enum FbxFormatType {
    Binary(u32),
    Ascii,
}

/// One typed value in a node's ordered property list.
///
/// The emitter never interprets a property; it only encodes it.  A
/// double-precision floating-point property is carried as its IEEE 754 bit
/// pattern, which is all the encoder needs.
#[derive(Clone, Debug, PartialEq)]
pub enum PropertyValue {
    Bool(bool),
    I64(i64),
    F64Bits(u64),
    Text(String),
}

/// The mathematical value of a [`PropertyValue`].
pub enum PropertyModel {
    Bool(bool),
    I64(i64),
    F64Bits(u64),
    Text(Seq<char>),
}

impl View for PropertyValue {
    type V = PropertyModel;

    open spec fn view(&self) -> PropertyModel {
        match self {
            PropertyValue::Bool(b) => PropertyModel::Bool(*b),
            PropertyValue::I64(i) => PropertyModel::I64(*i),
            PropertyValue::F64Bits(bits) => PropertyModel::F64Bits(*bits),
            PropertyValue::Text(s) => PropertyModel::Text(s@),
        }
    }
}

/// The mathematical value of a whole property list.
pub open spec fn properties_model(ps: Seq<PropertyValue>) -> Seq<PropertyModel> {
    ps.map_values(|p: PropertyValue| p@)
}

/// One unit of the document stream handed to [`crate::Emitter::write`].
#[derive(Clone, Debug, PartialEq)]
pub enum FbxEvent {
    /// Open a document in the given encoding.
    StartFbx(FbxFormatType),
    /// Close the document.
    EndFbx,
    /// Open a node with a name and its ordered property list.
    StartNode { name: String, properties: Vec<PropertyValue> },
    /// Close the most recently opened node.
    EndNode,
    /// A comment; only the ASCII encoding could represent one.
    Comment(String),
}

/// The mathematical value of an [`FbxEvent`].
pub enum EventModel {
    StartFbx(FbxFormatType),
    EndFbx,
    StartNode { name: Seq<char>, properties: Seq<PropertyModel> },
    EndNode,
    Comment(Seq<char>),
}

impl View for FbxEvent {
    type V = EventModel;

    open spec fn view(&self) -> EventModel {
        match self {
            FbxEvent::StartFbx(format) => EventModel::StartFbx(*format),
            FbxEvent::EndFbx => EventModel::EndFbx,
            FbxEvent::StartNode { name, properties } => EventModel::StartNode {
                name: name@,
                properties: properties_model(properties@),
            },
            FbxEvent::EndNode => EventModel::EndNode,
            FbxEvent::Comment(text) => EventModel::Comment(text@),
        }
    }
}

} // verus!
