//! Configuration recognized by the emitter.

use vstd::prelude::*;

verus! {

/// Options that are fixed for the lifetime of an [`crate::Emitter`].
///
/// `ignore_minor_errors` downgrades events that the active encoding cannot
/// represent (a comment in a binary document) from a hard failure to a
/// silent no-op.
#[derive(Clone, Copy, Debug, PartialEq, Eq, Structural)]
pub struct EmitterConfig {
    pub ignore_minor_errors: bool,
}

impl EmitterConfig {
    pub fn new() -> (r: EmitterConfig)
        ensures
            r == (EmitterConfig { ignore_minor_errors: false }),
    {
        EmitterConfig { ignore_minor_errors: false }
    }
}

impl Default for EmitterConfig {
    fn default() -> (r: EmitterConfig)
        ensures
            r == (EmitterConfig { ignore_minor_errors: false }),
    {
        EmitterConfig { ignore_minor_errors: false }
    }
}

} // verus!
