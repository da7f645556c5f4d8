//! The binary grammar read back: spec-level decoders for the byte forms of
//! [`crate::binary`], with proofs that decoding undoes encoding.
//!
//! No executable reader ships with this library, but these lemmas pin the
//! grammar down: the document header, a node's fields and every property
//! list can be recovered exactly from the bytes the encoder appends, so the
//! encoding loses nothing.

use vstd::bytes::lemma_auto_spec_u32_to_from_le_bytes;
use vstd::bytes::lemma_auto_spec_u64_to_from_le_bytes;
use vstd::bytes::spec_u32_from_le_bytes;
use vstd::bytes::spec_u64_from_le_bytes;
use vstd::bytes::spec_u64_to_le_bytes;
use vstd::prelude::*;
use vstd::utf8::decode_utf8;
use vstd::utf8::encode_utf8;
use vstd::utf8::encode_utf8_decode_utf8;

use crate::binary::header_bytes;
use crate::binary::node_record_bytes;
use crate::binary::property_bytes;
use crate::binary::property_list_bytes;
use crate::binary::TAG_BOOL;
use crate::binary::TAG_F64;
use crate::binary::TAG_I64;
use crate::binary::TAG_TEXT;
use crate::event::PropertyModel;

verus! {

/// Reads a document header: the magic `FBXB`, then the version.
pub open spec fn decode_header(bytes: Seq<u8>) -> Option<(u32, Seq<u8>)> {
    if bytes.len() >= 8 && bytes[0] == 0x46u8 && bytes[1] == 0x42u8 && bytes[2] == 0x58u8
        && bytes[3] == 0x42u8 {
        Some((spec_u32_from_le_bytes(bytes.subrange(4, 8)), bytes.skip(8)))
    } else {
        None
    }
}

/// Reads one property: a tag byte, then the value.
pub open spec fn decode_property(bytes: Seq<u8>) -> Option<(PropertyModel, Seq<u8>)> {
    if bytes.len() < 1 {
        None
    } else if bytes[0] == TAG_BOOL {
        if bytes.len() < 2 {
            None
        } else if bytes[1] == 1u8 {
            Some((PropertyModel::Bool(true), bytes.skip(2)))
        } else if bytes[1] == 0u8 {
            Some((PropertyModel::Bool(false), bytes.skip(2)))
        } else {
            None
        }
    } else if bytes[0] == TAG_I64 {
        if bytes.len() < 9 {
            None
        } else {
            Some(
                (
                    PropertyModel::I64(spec_u64_from_le_bytes(bytes.subrange(1, 9)) as i64),
                    bytes.skip(9),
                ),
            )
        }
    } else if bytes[0] == TAG_F64 {
        if bytes.len() < 9 {
            None
        } else {
            Some(
                (
                    PropertyModel::F64Bits(spec_u64_from_le_bytes(bytes.subrange(1, 9))),
                    bytes.skip(9),
                ),
            )
        }
    } else if bytes[0] == TAG_TEXT {
        if bytes.len() < 9 {
            None
        } else {
            let n = spec_u64_from_le_bytes(bytes.subrange(1, 9)) as int;
            if bytes.len() < 9 + n {
                None
            } else {
                Some(
                    (
                        PropertyModel::Text(decode_utf8(bytes.subrange(9, 9 + n))),
                        bytes.skip(9 + n),
                    ),
                )
            }
        }
    } else {
        None
    }
}

/// Reads `count` properties in a row.
pub open spec fn decode_property_list(bytes: Seq<u8>, count: nat) -> Option<
    (Seq<PropertyModel>, Seq<u8>),
>
    decreases count,
{
    if count == 0 {
        Some((Seq::empty(), bytes))
    } else {
        match decode_property(bytes) {
            None => None,
            Some((p, after_first)) => match decode_property_list(
                after_first,
                (count - 1) as nat,
            ) {
                None => None,
                Some((ps, tail)) => Some((seq![p] + ps, tail)),
            },
        }
    }
}

/// Reads the fields of a node record, skipping the eight-byte content
/// length that the encoder patches when the node is closed: the name's byte
/// length, the name, the property count, and the properties.
pub open spec fn decode_node_fields(bytes: Seq<u8>) -> Option<
    ((Seq<char>, Seq<PropertyModel>), Seq<u8>),
> {
    if bytes.len() < 24 {
        None
    } else {
        let name_len = spec_u64_from_le_bytes(bytes.subrange(8, 16)) as int;
        if bytes.len() < 24 + name_len {
            None
        } else {
            let name = decode_utf8(bytes.subrange(16, 16 + name_len));
            let count = spec_u64_from_le_bytes(bytes.subrange(16 + name_len, 24 + name_len));
            match decode_property_list(bytes.skip(24 + name_len), count as nat) {
                None => None,
                Some((ps, tail)) => Some(((name, ps), tail)),
            }
        }
    }
}

/// Whether a property's variable-length payload is small enough for its
/// length field; every value an emitter can be handed satisfies this.
pub open spec fn property_fits(p: PropertyModel) -> bool {
    match p {
        PropertyModel::Text(s) => encode_utf8(s).len() <= u64::MAX,
        _ => true,
    }
}

/// Decoding a header recovers the version and the trailing bytes exactly.
pub proof fn lemma_header_lossless(version: u32, rest: Seq<u8>)
    ensures
        decode_header(header_bytes(version) + rest) == Some((version, rest)),
{
    lemma_auto_spec_u32_to_from_le_bytes();
    let bytes = header_bytes(version) + rest;
    assert(bytes.subrange(4, 8) =~= vstd::bytes::spec_u32_to_le_bytes(version));
    assert(bytes.skip(8) =~= rest);
}

/// Decoding one encoded property recovers it, and the trailing bytes,
/// exactly.
pub proof fn lemma_property_lossless(p: PropertyModel, rest: Seq<u8>)
    requires
        property_fits(p),
    ensures
        decode_property(property_bytes(p) + rest) == Some((p, rest)),
{
    lemma_auto_spec_u64_to_from_le_bytes();
    let bytes = property_bytes(p) + rest;
    match p {
        PropertyModel::Bool(b) => {
            assert(bytes.skip(2) =~= rest);
        },
        PropertyModel::I64(i) => {
            assert(bytes.subrange(1, 9) =~= spec_u64_to_le_bytes(i as u64));
            assert(bytes.skip(9) =~= rest);
            assert(((i as u64) as i64) == i) by (bit_vector);
        },
        PropertyModel::F64Bits(bits) => {
            assert(bytes.subrange(1, 9) =~= spec_u64_to_le_bytes(bits));
            assert(bytes.skip(9) =~= rest);
        },
        PropertyModel::Text(s) => {
            let enc = encode_utf8(s);
            let n = enc.len() as u64;
            assert(bytes.subrange(1, 9) =~= spec_u64_to_le_bytes(n));
            assert(bytes.subrange(9, 9 + n as int) =~= enc);
            encode_utf8_decode_utf8(s);
            assert(bytes.skip(9 + n as int) =~= rest);
        },
    }
}

/// A non-empty property list's bytes start with its first property's bytes.
proof fn lemma_property_list_bytes_first(ps: Seq<PropertyModel>)
    requires
        ps.len() > 0,
    ensures
        property_list_bytes(ps) == property_bytes(ps.first()) + property_list_bytes(
            ps.drop_first(),
        ),
    decreases ps.len(),
{
    if ps.len() == 1 {
        assert(ps.drop_last() =~= Seq::<PropertyModel>::empty());
        assert(ps.drop_first() =~= Seq::<PropertyModel>::empty());
        assert(property_list_bytes(ps) =~= property_bytes(ps.first()) + property_list_bytes(
            ps.drop_first(),
        ));
    } else {
        lemma_property_list_bytes_first(ps.drop_last());
        assert(ps.drop_last().first() == ps.first());
        assert(ps.drop_last().drop_first() =~= ps.drop_first().drop_last());
        assert(ps.drop_first().last() == ps.last());
        assert(property_list_bytes(ps) == property_list_bytes(ps.drop_last()) + property_bytes(
            ps.last(),
        ));
        assert((property_bytes(ps.first()) + property_list_bytes(ps.drop_first().drop_last()))
            + property_bytes(ps.last()) =~= property_bytes(ps.first()) + (property_list_bytes(
            ps.drop_first().drop_last(),
        ) + property_bytes(ps.last())));
    }
}

/// Decoding an encoded property list recovers every property, in order,
/// and the trailing bytes exactly.
pub proof fn lemma_property_list_lossless(ps: Seq<PropertyModel>, rest: Seq<u8>)
    requires
        forall|i: int| 0 <= i < ps.len() ==> property_fits(#[trigger] ps[i]),
    ensures
        decode_property_list(property_list_bytes(ps) + rest, ps.len()) == Some((ps, rest)),
    decreases ps.len(),
{
    if ps.len() == 0 {
        assert(property_list_bytes(ps) + rest =~= rest);
        assert(decode_property_list(rest, 0) == Some((Seq::<PropertyModel>::empty(), rest)));
        assert(ps =~= Seq::<PropertyModel>::empty());
    } else {
        lemma_property_list_bytes_first(ps);
        let tail_bytes = property_list_bytes(ps.drop_first()) + rest;
        assert(property_list_bytes(ps) + rest =~= property_bytes(ps.first()) + tail_bytes);
        assert(ps.first() == ps[0]);
        lemma_property_lossless(ps.first(), tail_bytes);
        assert(forall|i: int|
            0 <= i < ps.drop_first().len() ==> property_fits(#[trigger] ps.drop_first()[i]));
        lemma_property_list_lossless(ps.drop_first(), rest);
        assert(seq![ps.first()] + ps.drop_first() =~= ps);
    }
}

/// Decoding an encoded node record recovers the name, the property list
/// and the trailing bytes exactly.
pub proof fn lemma_node_record_lossless(
    name: Seq<char>,
    ps: Seq<PropertyModel>,
    rest: Seq<u8>,
)
    requires
        encode_utf8(name).len() <= u64::MAX,
        ps.len() <= u64::MAX,
        forall|i: int| 0 <= i < ps.len() ==> property_fits(#[trigger] ps[i]),
    ensures
        decode_node_fields(node_record_bytes(name, ps) + rest) == Some(((name, ps), rest)),
{
    lemma_auto_spec_u64_to_from_le_bytes();
    let bytes = node_record_bytes(name, ps) + rest;
    let enc = encode_utf8(name);
    let name_len = enc.len() as int;
    assert(bytes.subrange(8, 16) =~= spec_u64_to_le_bytes(enc.len() as u64));
    assert(bytes.subrange(16, 16 + name_len) =~= enc);
    encode_utf8_decode_utf8(name);
    assert(bytes.subrange(16 + name_len, 24 + name_len) =~= spec_u64_to_le_bytes(
        ps.len() as u64,
    ));
    assert(bytes.skip(24 + name_len) =~= property_list_bytes(ps) + rest);
    lemma_property_list_lossless(ps, rest);
}

} // verus!
