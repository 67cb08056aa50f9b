//! What holds of every engine, stated over its model.

use vstd::prelude::*;
use crate::discovery::EngineModel;
use crate::response::Record;

verus! {

/// One readable event, as the engine sees it: the token it came for, and the
/// responses that the read gave.
pub struct Arrival {
    pub token: usize,
    pub responses: Seq<Seq<Record>>,
}

/// All responses of a run of events, in the order of the events.
pub open spec fn arrived(events: Seq<Arrival>) -> Seq<Seq<Record>>
    decreases events.len(),
{
    if events.len() == 0 {
        Seq::empty()
    } else {
        arrived(events.drop_last()) + events.last().responses
    }
}

/// The engine after a run of events, handled in order.
pub open spec fn deliver_all(engine: EngineModel, events: Seq<Arrival>) -> EngineModel
    decreases events.len(),
{
    if events.len() == 0 {
        engine
    } else {
        deliver_all(engine, events.drop_last()).deliver(
            events.last().token,
            events.last().responses,
        )
    }
}

/// The tokens of an engine are as many as its interfaces: none is held twice.
pub proof fn tokens_are_unique(engine: EngineModel)
    requires
        engine.wf(),
    ensures
        engine.tokens().to_set().len() == engine.interfaces.len(),
        forall|i: int, j: int|
            0 <= i < j < engine.interfaces.len() ==> engine.interfaces[i].token
                != engine.interfaces[j].token,
{
    engine.tokens().unique_seq_to_set();
    assert forall|i: int, j: int| 0 <= i < j < engine.interfaces.len() implies engine.interfaces[i].token
        != engine.interfaces[j].token by {
        assert(engine.tokens()[i] != engine.tokens()[j]);
    }
}

/// Handling an event or handing the queue out leaves the interfaces and the
/// service name as they were, so an engine stays well formed.
pub proof fn engine_stays_well_formed(engine: EngineModel, token: usize, responses: Seq<Seq<Record>>)
    requires
        engine.wf(),
    ensures
        engine.deliver(token, responses).wf(),
        engine.deliver(token, responses).interfaces == engine.interfaces,
        engine.drain().wf(),
        engine.drain().interfaces == engine.interfaces,
{
}

/// Once the queue was handed out, handing it out again gives nothing and
/// changes nothing.
pub proof fn drain_is_idempotent(engine: EngineModel)
    ensures
        engine.drain().queue == Seq::<Seq<Record>>::empty(),
        engine.drain().drain() == engine.drain(),
{
}

/// An event for a token that no interface holds leaves the engine as it was.
pub proof fn unknown_token_changes_nothing(
    engine: EngineModel,
    token: usize,
    responses: Seq<Seq<Record>>,
)
    requires
        !engine.knows(token),
    ensures
        engine.deliver(token, responses) == engine,
{
}

/// Responses leave the queue in the order in which their events were handled:
/// after a run of events for known tokens the queue is what it was, followed
/// by the responses of the first event, then those of the second, and so on.
pub proof fn delivery_is_fifo(engine: EngineModel, events: Seq<Arrival>)
    requires
        forall|i: int| 0 <= i < events.len() ==> engine.knows(#[trigger] events[i].token),
    ensures
        deliver_all(engine, events).queue == engine.queue + arrived(events),
        deliver_all(engine, events).interfaces == engine.interfaces,
        deliver_all(engine, events).service_name == engine.service_name,
    decreases events.len(),
{
    if events.len() == 0 {
        assert(engine.queue + arrived(events) =~= engine.queue);
    } else {
        let before = events.drop_last();
        assert forall|i: int| 0 <= i < before.len() implies engine.knows(
            #[trigger] before[i].token,
        ) by {
            assert(before[i] == events[i]);
        }
        delivery_is_fifo(engine, before);
        let mid = deliver_all(engine, before);
        assert(mid.tokens() == engine.tokens());
        assert(mid.knows(events.last().token));
        assert(engine.queue + arrived(before) + events.last().responses =~= engine.queue + (arrived(
            before,
        ) + events.last().responses));
    }
}

} // verus!
