//! The emitter: the protocol state machine that validates event ordering,
//! owns the format encoder chosen by the first event, and turns the first
//! failure into a permanent one.
//!
//! The whole observable behaviour of [`Emitter::write`] — the result it
//! returns, the bytes it appends to the sink, and the state it moves to —
//! is the spec function [`step`], applied to the emitter's mathematical
//! value, the sink's bytes and the event's value.

use vstd::prelude::*;

use crate::ascii::ascii_header_bytes;
use crate::ascii::AsciiEmitter;
use crate::binary::footer_bytes;
use crate::binary::header_bytes;
use crate::binary::node_record_bytes;
use crate::binary::BinaryEmitter;
use crate::binary::BinaryModel;
use crate::config::EmitterConfig;
use crate::encode::patched_u64_le;
use crate::error::result_model;
use crate::error::Error;
use crate::error::ErrorModel;
use crate::event::EventModel;
use crate::event::FbxEvent;
use crate::event::FbxFormatType;

verus! {

/// The detail carried by the `Unimplemented` failure of the ASCII encoder.
pub open spec fn ascii_unimplemented_detail() -> Seq<char> {
    "Ascii FBX emitter is unimplemented yet"@
}

/// The mathematical state of an [`Emitter`]: still waiting for the first
/// event, or bound to one of the two encoders.
pub enum EmitterStateModel {
    Initial,
    Binary(BinaryModel),
    Ascii,
}

/// The mathematical value of an [`Emitter`].
pub struct EmitterModel {
    /// The leniency option the emitter was constructed with.
    pub ignore_minor_errors: bool,
    /// The cached first failure, if any call has failed.
    pub poison: Option<ErrorModel>,
    /// The protocol state.
    pub state: EmitterStateModel,
}

/// What one `write` call does: the state the emitter moves to, the bytes
/// the sink holds afterwards, and the returned result.
pub struct Step {
    pub emitter: EmitterModel,
    pub sink: Seq<u8>,
    pub result: Result<(), ErrorModel>,
}

/// One transition of an emitter that has not failed yet, before the sticky
/// failure rule is applied.
pub open spec fn step_fresh(m: EmitterModel, sink: Seq<u8>, ev: EventModel) -> Step
    recommends
        m.poison is None,
{
    match m.state {
        EmitterStateModel::Initial => match ev {
            EventModel::StartFbx(FbxFormatType::Binary(version)) => Step {
                emitter: EmitterModel {
                    ignore_minor_errors: m.ignore_minor_errors,
                    poison: None,
                    state: EmitterStateModel::Binary(
                        BinaryModel { version, open_offsets: Seq::empty() },
                    ),
                },
                sink: sink + header_bytes(version),
                result: Ok(()),
            },
            EventModel::StartFbx(FbxFormatType::Ascii) => Step {
                emitter: EmitterModel {
                    ignore_minor_errors: m.ignore_minor_errors,
                    poison: None,
                    state: EmitterStateModel::Ascii,
                },
                sink: sink + ascii_header_bytes(),
                result: Ok(()),
            },
            _ => Step { emitter: m, sink, result: Err(ErrorModel::FbxNotStarted) },
        },
        EmitterStateModel::Binary(b) => match ev {
            EventModel::StartFbx(_) => Step {
                emitter: m,
                sink,
                result: Err(ErrorModel::FbxAlreadyStarted),
            },
            EventModel::EndFbx => if b.open_offsets.len() > 0 {
                Step { emitter: m, sink, result: Err(ErrorModel::UnclosedNode) }
            } else {
                Step { emitter: m, sink: sink + footer_bytes(), result: Ok(()) }
            },
            EventModel::StartNode { name, properties } => Step {
                emitter: EmitterModel {
                    ignore_minor_errors: m.ignore_minor_errors,
                    poison: None,
                    state: EmitterStateModel::Binary(
                        BinaryModel {
                            version: b.version,
                            open_offsets: b.open_offsets.push(sink.len() as usize),
                        },
                    ),
                },
                sink: sink + node_record_bytes(name, properties),
                result: Ok(()),
            },
            EventModel::EndNode => if b.open_offsets.len() == 0 {
                Step { emitter: m, sink, result: Err(ErrorModel::ExtraNodeEnd) }
            } else if sink.len() < b.open_offsets.last() + 8 {
                Step { emitter: m, sink, result: Err(ErrorModel::BrokenSink) }
            } else {
                Step {
                    emitter: EmitterModel {
                        ignore_minor_errors: m.ignore_minor_errors,
                        poison: None,
                        state: EmitterStateModel::Binary(
                            BinaryModel {
                                version: b.version,
                                open_offsets: b.open_offsets.drop_last(),
                            },
                        ),
                    },
                    sink: patched_u64_le(
                        sink,
                        b.open_offsets.last() as int,
                        (sink.len() - b.open_offsets.last() - 8) as u64,
                    ),
                    result: Ok(()),
                }
            },
            EventModel::Comment(_) => if m.ignore_minor_errors {
                Step { emitter: m, sink, result: Ok(()) }
            } else {
                Step { emitter: m, sink, result: Err(ErrorModel::UnwritableEvent) }
            },
        },
        EmitterStateModel::Ascii => match ev {
            EventModel::StartFbx(_) => Step {
                emitter: m,
                sink,
                result: Err(ErrorModel::FbxAlreadyStarted),
            },
            _ => Step {
                emitter: m,
                sink,
                result: Err(ErrorModel::Unimplemented(ascii_unimplemented_detail())),
            },
        },
    }
}

/// One transition of the emitter, sticky failure rule included: a poisoned
/// emitter answers every event with its cached failure and touches nothing,
/// and a fresh failure becomes the poison.
pub open spec fn step(m: EmitterModel, sink: Seq<u8>, ev: EventModel) -> Step {
    match m.poison {
        Some(e) => Step { emitter: m, sink, result: Err(e) },
        None => {
            let fresh = step_fresh(m, sink, ev);
            match fresh.result {
                Ok(_) => fresh,
                Err(e) => Step {
                    emitter: EmitterModel {
                        ignore_minor_errors: fresh.emitter.ignore_minor_errors,
                        poison: Some(e),
                        state: fresh.emitter.state,
                    },
                    sink: fresh.sink,
                    result: fresh.result,
                },
            }
        },
    }
}

/// The protocol state an [`Emitter`] is in.
enum EmitterState {
    /// No event has been processed yet.
    Initial,
    /// Emitting a binary document.
    Binary(BinaryEmitter),
    /// Emitting an ASCII document.
    Ascii(AsciiEmitter),
}

/// Writes a document as a sequence of structural events.
///
/// The first `StartFbx` event fixes the encoding; every later event is
/// validated against the current state and encoded into the sink supplied
/// with the call.  Once any call fails, the emitter is poisoned: every
/// later call returns the same failure and leaves the sink untouched.
pub struct Emitter {
    config: EmitterConfig,
    final_result: Option<Error>,
    state: EmitterState,
}

impl View for Emitter {
    type V = EmitterModel;

    closed spec fn view(&self) -> EmitterModel {
        EmitterModel {
            ignore_minor_errors: self.config.ignore_minor_errors,
            poison: match self.final_result {
                Some(e) => Some(e@),
                None => None,
            },
            state: match self.state {
                EmitterState::Initial => EmitterStateModel::Initial,
                EmitterState::Binary(enc) => EmitterStateModel::Binary(enc@),
                EmitterState::Ascii(_) => EmitterStateModel::Ascii,
            },
        }
    }
}

impl Emitter {
    /// A fresh emitter: not yet started, not poisoned, with the given
    /// configuration.
    pub fn new(config: EmitterConfig) -> (r: Emitter)
        ensures
            r@ == (EmitterModel {
                ignore_minor_errors: config.ignore_minor_errors,
                poison: None,
                state: EmitterStateModel::Initial,
            }),
    {
        Emitter { config, final_result: None, state: EmitterState::Initial }
    }

    /// Processes one event against the sink: exactly the transition that
    /// [`step`] describes.
    ///
    /// The emitter itself emits no diagnostics: when a comment is dropped
    /// under leniency, or rejected without it, warning the user is the
    /// caller's affair, to be read off the returned result.
    pub fn write(&mut self, sink: &mut Vec<u8>, event: FbxEvent) -> (r: Result<(), Error>)
        ensures
            ({
                let s = step(old(self)@, old(sink)@, event@);
                &&& final(self)@ == s.emitter
                &&& final(sink)@ == s.sink
                &&& result_model(r) == s.result
            }),
    {
        if let Some(cached) = &self.final_result {
            return Err(cached.clone());
        }
        let result = match &mut self.state {
            EmitterState::Initial => match event {
                FbxEvent::StartFbx(FbxFormatType::Binary(version)) => {
                    let mut encoder = BinaryEmitter::new(version);
                    let result = encoder.emit_start_fbx(sink, version);
                    self.state = EmitterState::Binary(encoder);
                    result
                },
                FbxEvent::StartFbx(FbxFormatType::Ascii) => {
                    let mut encoder = AsciiEmitter::new();
                    let result = encoder.emit_start_fbx(sink);
                    self.state = EmitterState::Ascii(encoder);
                    result
                },
                _ => Err(Error::FbxNotStarted),
            },
            EmitterState::Binary(encoder) => match event {
                FbxEvent::StartFbx(_) => Err(Error::FbxAlreadyStarted),
                FbxEvent::EndFbx => encoder.emit_end_fbx(sink),
                FbxEvent::StartNode { name, properties } => encoder.emit_start_node(
                    sink,
                    &name,
                    &properties,
                ),
                FbxEvent::EndNode => encoder.emit_end_node(sink),
                FbxEvent::Comment(_) => if self.config.ignore_minor_errors {
                    Ok(())
                } else {
                    Err(Error::UnwritableEvent)
                },
            },
            EmitterState::Ascii(_) => match event {
                FbxEvent::StartFbx(_) => Err(Error::FbxAlreadyStarted),
                _ => Err(Error::Unimplemented("Ascii FBX emitter is unimplemented yet".to_owned())),
            },
        };
        if let Err(failure) = &result {
            self.final_result = Some(failure.clone());
        }
        result
    }
}

} // verus!
