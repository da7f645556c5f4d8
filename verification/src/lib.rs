//! An event-driven writer for the FBX document format.
//!
//! A caller feeds the [`Emitter`] one structural event at a time — document
//! start and end, node start and end, typed properties on a node, comments —
//! together with a byte sink, and the emitter validates the event against
//! its current state, encodes the legal ones into the sink, and permanently
//! refuses all further work once any call has failed.
//!
//! The first `StartFbx` event fixes the concrete encoding, compact binary or
//! human-readable ASCII, for the life of the emitter.  The protocol rules
//! the emitter enforces are captured by the spec function
//! [`emitter::step`], which [`Emitter::write`] is proved to implement
//! exactly; the guarantees that hold of every emitter are stated and proved
//! once and for all in [`laws`].

pub mod ascii;
pub mod binary;
pub mod config;
pub mod decode;
pub mod emitter;
pub mod encode;
pub mod error;
pub mod event;
pub mod laws;

pub use config::EmitterConfig;
pub use emitter::Emitter;
pub use error::Error;
pub use event::FbxEvent;
pub use event::FbxFormatType;
pub use event::PropertyValue;
