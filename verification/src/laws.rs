//! The protocol guarantees of the emitter, stated over [`step`] — the spec
//! function that `Emitter::write` is proved to implement exactly — and
//! proved once for every emitter state, sink and event.

use vstd::prelude::*;

use crate::emitter::step;
use crate::emitter::EmitterModel;
use crate::emitter::EmitterStateModel;
use crate::error::ErrorModel;
use crate::event::EventModel;

verus! {

/// Before any `StartFbx` event, every other event fails with
/// `FbxNotStarted` and writes nothing.
pub proof fn lemma_rejects_before_start(m: EmitterModel, sink: Seq<u8>, ev: EventModel)
    requires
        m.poison is None,
        m.state is Initial,
        !(ev is StartFbx),
    ensures
        step(m, sink, ev).result == Err::<(), ErrorModel>(ErrorModel::FbxNotStarted),
        step(m, sink, ev).sink == sink,
        step(m, sink, ev).emitter.state == m.state,
{
}

/// Once a document is open, in either encoding, a further `StartFbx` event
/// fails with `FbxAlreadyStarted` and writes nothing.
pub proof fn lemma_rejects_second_start(m: EmitterModel, sink: Seq<u8>, ev: EventModel)
    requires
        m.poison is None,
        !(m.state is Initial),
        ev is StartFbx,
    ensures
        step(m, sink, ev).result == Err::<(), ErrorModel>(ErrorModel::FbxAlreadyStarted),
        step(m, sink, ev).sink == sink,
        step(m, sink, ev).emitter.state == m.state,
{
}

/// Once any call fails, every later call — whatever the event and whatever
/// sink it is handed — returns that same failure, writes nothing, and
/// leaves the emitter unchanged; so the emitter is poisoned forever.
pub proof fn lemma_failure_is_permanent(
    m: EmitterModel,
    sink: Seq<u8>,
    ev: EventModel,
    later_sink: Seq<u8>,
    later_ev: EventModel,
)
    requires
        step(m, sink, ev).result is Err,
    ensures
        ({
            let first = step(m, sink, ev);
            let later = step(first.emitter, later_sink, later_ev);
            &&& later.result == first.result
            &&& later.sink == later_sink
            &&& later.emitter == first.emitter
        }),
{
}

/// The state only moves forward: an emitter never returns to the initial
/// state, never trades one encoding for the other, and never changes the
/// version its binary encoder was chosen with.
pub proof fn lemma_encoding_is_irrevocable(m: EmitterModel, sink: Seq<u8>, ev: EventModel)
    ensures
        ({
            let next = step(m, sink, ev).emitter;
            &&& m.state is Binary ==> next.state is Binary
            &&& m.state is Ascii ==> next.state is Ascii
            &&& m.state matches EmitterStateModel::Binary(b) ==> next.state
                matches EmitterStateModel::Binary(b2) && b2.version == b.version
        }),
{
}

/// In a binary document with leniency enabled, a comment succeeds but
/// writes nothing and changes nothing: it is silently dropped.
pub proof fn lemma_comment_dropped_when_lenient(m: EmitterModel, sink: Seq<u8>, ev: EventModel)
    requires
        m.poison is None,
        m.state is Binary,
        m.ignore_minor_errors,
        ev is Comment,
    ensures
        step(m, sink, ev).result == Ok::<(), ErrorModel>(()),
        step(m, sink, ev).sink == sink,
        step(m, sink, ev).emitter == m,
{
}

/// In a binary document with leniency disabled, a comment fails with
/// `UnwritableEvent`, writes nothing, and poisons the emitter.
pub proof fn lemma_comment_rejected_when_strict(m: EmitterModel, sink: Seq<u8>, ev: EventModel)
    requires
        m.poison is None,
        m.state is Binary,
        !m.ignore_minor_errors,
        ev is Comment,
    ensures
        step(m, sink, ev).result == Err::<(), ErrorModel>(ErrorModel::UnwritableEvent),
        step(m, sink, ev).sink == sink,
        step(m, sink, ev).emitter == (EmitterModel {
            ignore_minor_errors: m.ignore_minor_errors,
            poison: Some(ErrorModel::UnwritableEvent),
            state: m.state,
        }),
{
}

} // verus!
