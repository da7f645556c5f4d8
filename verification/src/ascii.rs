//! The ASCII format encoder.
//!
//! Only the document header is implemented; the emitter answers every later
//! structural event in an ASCII document with `Unimplemented`.

use vstd::prelude::*;

use crate::error::Error;

verus! {

/// The header that opens an ASCII document: the comment line `; FBX ASCII`
/// followed by a line feed.
pub open spec fn ascii_header_bytes() -> Seq<u8> {
    seq![0x3bu8, 0x20u8, 0x46u8, 0x42u8, 0x58u8, 0x20u8, 0x41u8, 0x53u8, 0x43u8, 0x49u8, 0x49u8, 0x0au8]
}

/// Encodes events into the ASCII format.  It keeps no state of its own.
#[derive(Debug)]
pub struct AsciiEmitter {}

impl AsciiEmitter {
    pub fn new() -> (r: AsciiEmitter) {
        AsciiEmitter {  }
    }

    /// Appends the document header to the sink.
    pub fn emit_start_fbx(&mut self, sink: &mut Vec<u8>) -> (r: Result<(), Error>)
        ensures
            r is Ok,
            final(sink)@ == old(sink)@ + ascii_header_bytes(),
    {
        sink.push(0x3b);
        sink.push(0x20);
        sink.push(0x46);
        sink.push(0x42);
        sink.push(0x58);
        sink.push(0x20);
        sink.push(0x41);
        sink.push(0x53);
        sink.push(0x43);
        sink.push(0x49);
        sink.push(0x49);
        sink.push(0x0a);
        proof {
            assert(sink@ =~= old(sink)@ + ascii_header_bytes());
        }
        Ok(())
    }
}

} // verus!
