//! The binary format encoder.
//!
//! Every record is framed with 64-bit little-endian length fields so that
//! any name, text or property list a caller can hold in memory is
//! representable.  A node record starts with a length placeholder that is
//! patched when the node is closed, so the encoder remembers the placeholder
//! offset of every node that is still open.

use vstd::bytes::spec_u32_to_le_bytes;
use vstd::bytes::spec_u64_to_le_bytes;
use vstd::bytes::u32_to_le_bytes;
use vstd::prelude::*;
use vstd::utf8::encode_utf8;

use crate::encode::patched_u64_le;
use crate::encode::push_bytes;
use crate::encode::push_u64_le;
use crate::encode::write_u64_le_at;
use crate::error::Error;
use crate::error::ErrorModel;
use crate::event::properties_model;
use crate::event::PropertyModel;
use crate::event::PropertyValue;

verus! {

/// Tag byte that opens the encoding of a boolean property.
pub const TAG_BOOL: u8 = 1;

/// Tag byte that opens the encoding of a signed 64-bit integer property.
pub const TAG_I64: u8 = 2;

/// Tag byte that opens the encoding of a double-precision property, carried
/// as its IEEE 754 bit pattern.
pub const TAG_F64: u8 = 3;

/// Tag byte that opens the encoding of a text property.
pub const TAG_TEXT: u8 = 4;

/// The header that opens a binary document: the magic `FBXB` followed by
/// the format version, little-endian.
pub open spec fn header_bytes(version: u32) -> Seq<u8> {
    seq![0x46u8, 0x42u8, 0x58u8, 0x42u8] + spec_u32_to_le_bytes(version)
}

/// The footer that closes a binary document: the magic `FBXE`.
pub open spec fn footer_bytes() -> Seq<u8> {
    seq![0x46u8, 0x42u8, 0x58u8, 0x45u8]
}

/// The encoding of one property: a tag byte followed by the value.
/// Variable-length payloads carry their byte length first.
pub open spec fn property_bytes(p: PropertyModel) -> Seq<u8> {
    match p {
        PropertyModel::Bool(b) => seq![TAG_BOOL, if b { 1u8 } else { 0u8 }],
        PropertyModel::I64(i) => seq![TAG_I64] + spec_u64_to_le_bytes(i as u64),
        PropertyModel::F64Bits(bits) => seq![TAG_F64] + spec_u64_to_le_bytes(bits),
        PropertyModel::Text(s) => seq![TAG_TEXT] + spec_u64_to_le_bytes(
            encode_utf8(s).len() as u64,
        ) + encode_utf8(s),
    }
}

/// The encoding of a whole property list, in order.
pub open spec fn property_list_bytes(ps: Seq<PropertyModel>) -> Seq<u8>
    decreases ps.len(),
{
    if ps.len() == 0 {
        Seq::empty()
    } else {
        property_list_bytes(ps.drop_last()) + property_bytes(ps.last())
    }
}

/// The record appended when a node is opened: an eight-byte length
/// placeholder (patched when the node is closed), the name's byte length,
/// the name in UTF-8, the property count, and the encoded properties.
pub open spec fn node_record_bytes(name: Seq<char>, ps: Seq<PropertyModel>) -> Seq<u8> {
    spec_u64_to_le_bytes(0) + spec_u64_to_le_bytes(encode_utf8(name).len() as u64) + encode_utf8(
        name,
    ) + spec_u64_to_le_bytes(ps.len() as u64) + property_list_bytes(ps)
}

/// The mathematical state of a [`BinaryEmitter`]: the format version and
/// the placeholder offsets of the nodes that are still open, innermost
/// last.
pub struct BinaryModel {
    pub version: u32,
    pub open_offsets: Seq<usize>,
}

/// Encodes events into the binary format.
///
/// The emitter constructs one when a binary document is opened and routes
/// every later structural event through it.
#[derive(Debug)]
pub struct BinaryEmitter {
    version: u32,
    open_offsets: Vec<usize>,
}

impl View for BinaryEmitter {
    type V = BinaryModel;

    closed spec fn view(&self) -> BinaryModel {
        BinaryModel { version: self.version, open_offsets: self.open_offsets@ }
    }
}

impl BinaryEmitter {
    pub fn new(version: u32) -> (r: BinaryEmitter)
        ensures
            r@ == (BinaryModel { version, open_offsets: Seq::<usize>::empty() }),
    {
        let r = BinaryEmitter { version, open_offsets: Vec::new() };
        proof {
            assert(r@.open_offsets =~= Seq::<usize>::empty());
        }
        r
    }

    /// Appends the document header to the sink.
    pub fn emit_start_fbx(&mut self, sink: &mut Vec<u8>, version: u32) -> (r: Result<(), Error>)
        ensures
            r is Ok,
            final(self)@ == old(self)@,
            final(sink)@ == old(sink)@ + header_bytes(version),
    {
        sink.push(0x46);
        sink.push(0x42);
        sink.push(0x58);
        sink.push(0x42);
        let version_bytes = u32_to_le_bytes(version);
        push_bytes(sink, version_bytes.as_slice());
        proof {
            assert(sink@ =~= old(sink)@ + header_bytes(version));
        }
        Ok(())
    }

    /// Appends the document footer to the sink, once every node has been
    /// closed.
    pub fn emit_end_fbx(&mut self, sink: &mut Vec<u8>) -> (r: Result<(), Error>)
        ensures
            final(self)@ == old(self)@,
            old(self)@.open_offsets.len() > 0 ==> {
                &&& r matches Err(e) && e@ == ErrorModel::UnclosedNode
                &&& final(sink)@ == old(sink)@
            },
            old(self)@.open_offsets.len() == 0 ==> {
                &&& r is Ok
                &&& final(sink)@ == old(sink)@ + footer_bytes()
            },
    {
        if self.open_offsets.len() > 0 {
            return Err(Error::UnclosedNode);
        }
        sink.push(0x46);
        sink.push(0x42);
        sink.push(0x58);
        sink.push(0x45);
        proof {
            assert(sink@ =~= old(sink)@ + footer_bytes());
        }
        Ok(())
    }

    /// Appends a node record to the sink and remembers the offset of its
    /// length placeholder.
    pub fn emit_start_node(
        &mut self,
        sink: &mut Vec<u8>,
        name: &String,
        properties: &Vec<PropertyValue>,
    ) -> (r: Result<(), Error>)
        ensures
            r is Ok,
            final(self)@ == (BinaryModel {
                version: old(self)@.version,
                open_offsets: old(self)@.open_offsets.push(old(sink)@.len() as usize),
            }),
            final(sink)@ == old(sink)@ + node_record_bytes(
                name@,
                properties_model(properties@),
            ),
    {
        let off = sink.len();
        self.open_offsets.push(off);
        push_u64_le(sink, 0);
        let name_bytes: &[u8] = name.as_str().as_bytes();
        push_u64_le(sink, name_bytes.len() as u64);
        push_bytes(sink, name_bytes);
        push_u64_le(sink, properties.len() as u64);
        let ghost prefix = sink@;
        let ghost ps = properties_model(properties@);
        let mut i: usize = 0;
        while i < properties.len()
            invariant
                i <= properties@.len(),
                ps == properties_model(properties@),
                sink@ == prefix + property_list_bytes(ps.take(i as int)),
            decreases properties@.len() - i,
        {
            push_property(sink, &properties[i]);
            proof {
                assert(ps.take(i + 1).drop_last() =~= ps.take(i as int));
                assert(ps.take(i + 1).last() == properties@[i as int]@);
                assert(prefix + property_list_bytes(ps.take(i + 1)) =~= (prefix
                    + property_list_bytes(ps.take(i as int))) + property_bytes(
                    properties@[i as int]@,
                ));
            }
            i = i + 1;
        }
        proof {
            assert(ps.take(properties@.len() as int) =~= ps);
            assert(sink@ =~= old(sink)@ + node_record_bytes(
                name@,
                properties_model(properties@),
            ));
        }
        Ok(())
    }

    /// Closes the innermost open node by patching its length placeholder
    /// with the number of bytes the node's content occupies in the sink.
    pub fn emit_end_node(&mut self, sink: &mut Vec<u8>) -> (r: Result<(), Error>)
        ensures
            old(self)@.open_offsets.len() == 0 ==> {
                &&& r matches Err(e) && e@ == ErrorModel::ExtraNodeEnd
                &&& final(self)@ == old(self)@
                &&& final(sink)@ == old(sink)@
            },
            old(self)@.open_offsets.len() > 0 && old(sink)@.len() < old(
                self,
            )@.open_offsets.last() + 8 ==> {
                &&& r matches Err(e) && e@ == ErrorModel::BrokenSink
                &&& final(self)@ == old(self)@
                &&& final(sink)@ == old(sink)@
            },
            old(self)@.open_offsets.len() > 0 && old(sink)@.len() >= old(
                self,
            )@.open_offsets.last() + 8 ==> {
                &&& r is Ok
                &&& final(self)@ == (BinaryModel {
                    version: old(self)@.version,
                    open_offsets: old(self)@.open_offsets.drop_last(),
                })
                &&& final(sink)@ == patched_u64_le(
                    old(sink)@,
                    old(self)@.open_offsets.last() as int,
                    (old(sink)@.len() - old(self)@.open_offsets.last() - 8) as u64,
                )
            },
    {
        let n = self.open_offsets.len();
        if n == 0 {
            return Err(Error::ExtraNodeEnd);
        }
        let off = self.open_offsets[n - 1];
        let sink_len = sink.len();
        if sink_len < off || sink_len - off < 8 {
            return Err(Error::BrokenSink);
        }
        let _ = self.open_offsets.pop();
        let content_len = sink_len - off - 8;
        write_u64_le_at(sink, off, content_len as u64);
        Ok(())
    }
}

/// Appends the encoding of one property to the sink.
fn push_property(sink: &mut Vec<u8>, p: &PropertyValue)
    ensures
        final(sink)@ == old(sink)@ + property_bytes(p@),
{
    match p {
        PropertyValue::Bool(b) => {
            sink.push(TAG_BOOL);
            sink.push(if *b { 1 } else { 0 });
        },
        PropertyValue::I64(i) => {
            sink.push(TAG_I64);
            push_u64_le(sink, #[verifier::truncate] (*i as u64));
        },
        PropertyValue::F64Bits(bits) => {
            sink.push(TAG_F64);
            push_u64_le(sink, *bits);
        },
        PropertyValue::Text(s) => {
            sink.push(TAG_TEXT);
            let text_bytes: &[u8] = s.as_str().as_bytes();
            push_u64_le(sink, text_bytes.len() as u64);
            push_bytes(sink, text_bytes);
        },
    }
    proof {
        assert(sink@ =~= old(sink)@ + property_bytes(p@));
    }
}

} // verus!
