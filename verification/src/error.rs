//! Errors surfaced by the emitter and its encoders.

use vstd::prelude::*;

verus! {

/// A failure returned by [`crate::Emitter::write`].
///
/// The first four variants are protocol errors raised by the emitter's own
/// state machine; the last three are structural errors raised by the binary
/// encoder.
#[derive(Debug, PartialEq, Eq)]
pub enum Error {
    /// A structural event arrived before any `StartFbx` event.
    FbxNotStarted,
    /// A second `StartFbx` event arrived while a document was already open.
    FbxAlreadyStarted,
    /// The event has no representation in the active encoding and leniency
    /// is disabled.
    UnwritableEvent,
    /// The active encoder does not implement this event yet; the payload
    /// describes what is missing.
    Unimplemented(String),
    /// An `EndNode` event arrived while no node was open.
    ExtraNodeEnd,
    /// An `EndFbx` event arrived while a node was still open.
    UnclosedNode,
    /// The sink handed to this call is too short to hold the length field
    /// of the node being closed; it is not the sink the node was opened in.
    BrokenSink,
}

/// The mathematical value of an [`Error`]: the same variants, with the
/// `Unimplemented` detail abstracted to its character sequence.
pub enum ErrorModel {
    FbxNotStarted,
    FbxAlreadyStarted,
    UnwritableEvent,
    Unimplemented(Seq<char>),
    ExtraNodeEnd,
    UnclosedNode,
    BrokenSink,
}

impl View for Error {
    type V = ErrorModel;

    open spec fn view(&self) -> ErrorModel {
        match self {
            Error::FbxNotStarted => ErrorModel::FbxNotStarted,
            Error::FbxAlreadyStarted => ErrorModel::FbxAlreadyStarted,
            Error::UnwritableEvent => ErrorModel::UnwritableEvent,
            Error::Unimplemented(detail) => ErrorModel::Unimplemented(detail@),
            Error::ExtraNodeEnd => ErrorModel::ExtraNodeEnd,
            Error::UnclosedNode => ErrorModel::UnclosedNode,
            Error::BrokenSink => ErrorModel::BrokenSink,
        }
    }
}

impl Clone for Error {
    /// A clone carries the same value, so a cached failure can be returned
    /// again unchanged.
    fn clone(&self) -> (r: Error)
        ensures
            r@ == self@,
    {
        match self {
            Error::FbxNotStarted => Error::FbxNotStarted,
            Error::FbxAlreadyStarted => Error::FbxAlreadyStarted,
            Error::UnwritableEvent => Error::UnwritableEvent,
            Error::Unimplemented(detail) => Error::Unimplemented(detail.clone()),
            Error::ExtraNodeEnd => Error::ExtraNodeEnd,
            Error::UnclosedNode => Error::UnclosedNode,
            Error::BrokenSink => Error::BrokenSink,
        }
    }
}

/// The mathematical value of a whole `write` result.
pub open spec fn result_model(r: Result<(), Error>) -> Result<(), ErrorModel> {
    match r {
        Ok(_) => Ok(()),
        Err(e) => Err(e@),
    }
}

} // verus!
