//! Laws of the executor, stated over the worker's and the producers'
//! decisions.
//!
//! A run of the worker is the sequence of what its receives gave, in channel
//! order; `delivered` is what the callback sees over that run.
use vstd::prelude::*;
use crate::executor::enqueue_outcome;
use crate::message::MessageView;
use crate::text::safe_text;
use crate::worker::{WorkerView, delivered, started, state_after, next_state, step_of, StepView};

verus! {

/// The receives that `Work` messages with these identifier pairs give, in order.
pub open spec fn work_events(pending: Seq<(Seq<char>, Seq<char>)>) -> Seq<Option<MessageView>> {
    pending.map_values(|x: (Seq<char>, Seq<char>)| Some(MessageView::Work(x.0, x.1)))
}

/// A run may be cut anywhere: what is delivered over `a + b` is what `a`
/// delivers, then what `b` delivers from the state that `a` left.
pub proof fn lemma_run_split(w: WorkerView, a: Seq<Option<MessageView>>, b: Seq<Option<MessageView>>)
    ensures
        delivered(w, a + b) == delivered(w, a) + delivered(state_after(w, a), b),
        state_after(w, a + b) == state_after(state_after(w, a), b),
    decreases a.len(),
{
    if a.len() == 0 {
        assert(a + b =~= b);
        assert(delivered(w, a) =~= Seq::empty());
        assert(delivered(w, a + b) =~= delivered(w, a) + delivered(state_after(w, a), b));
    } else {
        let w1 = next_state(w, a[0]);
        assert((a + b).drop_first() =~= a.drop_first() + b);
        assert((a + b)[0] == a[0]);
        lemma_run_split(w1, a.drop_first(), b);
        let head = match step_of(w, a[0]) {
            StepView::Deliver(playlist_id, item_id) => seq![(playlist_id, item_id)],
            _ => Seq::empty(),
        };
        assert(delivered(w, a + b) =~= head + delivered(w1, a.drop_first() + b));
        assert(delivered(w, a + b) =~= delivered(w, a) + delivered(state_after(w, a), b));
    }
}

/// A stopped worker delivers nothing more and stays stopped.
pub proof fn lemma_stopped_is_silent(w: WorkerView, events: Seq<Option<MessageView>>)
    requires
        w.exited,
    ensures
        delivered(w, events) == Seq::<(Seq<char>, Seq<char>)>::empty(),
        state_after(w, events) == w,
    decreases events.len(),
{
    if events.len() > 0 {
        lemma_stopped_is_silent(next_state(w, events[0]), events.drop_first());
        assert(delivered(w, events) =~= Seq::<(Seq<char>, Seq<char>)>::empty());
    }
}

/// A run that receives a `Shutdown` leaves the worker stopped.
pub proof fn lemma_shutdown_stops(w: WorkerView, events: Seq<Option<MessageView>>)
    requires
        events.contains(Some(MessageView::Shutdown)),
    ensures
        state_after(w, events).exited,
    decreases events.len(),
{
    if events[0] == Some(MessageView::Shutdown) {
        let w1 = next_state(w, events[0]);
        lemma_stopped_is_silent(w1, events.drop_first());
    } else {
        let k = choose|k: int| 0 <= k < events.len() && events[k] == Some(MessageView::Shutdown);
        assert(events.drop_first()[k - 1] == Some(MessageView::Shutdown));
        lemma_shutdown_stops(next_state(w, events[0]), events.drop_first());
    }
}

/// A worker with a callback hands on every `Work` message of a run of them,
/// in order, and is still running afterwards.
pub proof fn lemma_work_delivered(pending: Seq<(Seq<char>, Seq<char>)>)
    ensures
        delivered(started(true), work_events(pending)) == pending,
        state_after(started(true), work_events(pending)) == started(true),
    decreases pending.len(),
{
    let events = work_events(pending);
    if pending.len() > 0 {
        assert(events.drop_first() =~= work_events(pending.drop_first()));
        lemma_work_delivered(pending.drop_first());
        assert(pending =~= seq![pending[0]] + pending.drop_first());
        assert(delivered(started(true), events) =~= pending);
    } else {
        assert(delivered(started(true), events) =~= pending);
    }
}

/// Shutdown drains what is already queued: every `Work` message received ahead
/// of a `Shutdown` reaches the callback, in order, whatever follows the
/// `Shutdown`, and the worker then stops.
pub proof fn drain_before_shutdown(
    pending: Seq<(Seq<char>, Seq<char>)>,
    later: Seq<Option<MessageView>>,
)
    ensures
        delivered(started(true), work_events(pending) + seq![Some(MessageView::Shutdown)] + later)
            == pending,
        state_after(
            started(true),
            work_events(pending) + seq![Some(MessageView::Shutdown)] + later,
        ).exited,
{
    let w = started(true);
    let queued = work_events(pending);
    let tail = seq![Some(MessageView::Shutdown)] + later;
    assert(queued + seq![Some(MessageView::Shutdown)] + later =~= queued + tail);
    lemma_work_delivered(pending);
    lemma_run_split(w, queued, tail);
    let stopped = next_state(w, tail[0]);
    assert(tail.drop_first() =~= later);
    lemma_stopped_is_silent(stopped, later);
    assert(delivered(w, tail) =~= Seq::<(Seq<char>, Seq<char>)>::empty());
    assert(pending + Seq::<(Seq<char>, Seq<char>)>::empty() =~= pending);
}

/// First in, first out: when one producer enqueues the identifier pairs `ids`
/// in order on a live executor with a callback, and then shuts it down, the
/// callback receives the safe texts of exactly those pairs, in the same order,
/// and nothing after them.
pub proof fn fifo_delivery(ids: Seq<(Seq<u8>, Seq<u8>)>, later: Seq<Option<MessageView>>)
    ensures
        delivered(
            started(true),
            ids.map_values(|id: (Seq<u8>, Seq<u8>)| enqueue_outcome(true, Some(id.0), Some(id.1)))
                + seq![Some(MessageView::Shutdown)] + later,
        ) == ids.map_values(|id: (Seq<u8>, Seq<u8>)| (safe_text(id.0), safe_text(id.1))),
{
    let texts = ids.map_values(|id: (Seq<u8>, Seq<u8>)| (safe_text(id.0), safe_text(id.1)));
    let sent = ids.map_values(
        |id: (Seq<u8>, Seq<u8>)| enqueue_outcome(true, Some(id.0), Some(id.1)),
    );
    assert(sent =~= work_events(texts));
    drain_before_shutdown(texts, later);
}

/// Without a callback nothing is ever delivered, and a `Shutdown` still stops
/// the worker.
pub proof fn no_callback_delivers_nothing(exited: bool, events: Seq<Option<MessageView>>)
    ensures
        delivered(WorkerView { has_callback: false, exited }, events) == Seq::<
            (Seq<char>, Seq<char>),
        >::empty(),
        events.contains(Some(MessageView::Shutdown)) ==> state_after(
            WorkerView { has_callback: false, exited },
            events,
        ).exited,
    decreases events.len(),
{
    let w = WorkerView { has_callback: false, exited };
    if events.len() > 0 {
        no_callback_delivers_nothing(next_state(w, events[0]).exited, events.drop_first());
        assert(delivered(w, events) =~= Seq::<(Seq<char>, Seq<char>)>::empty());
    }
    if events.contains(Some(MessageView::Shutdown)) {
        lemma_shutdown_stops(w, events);
    }
}

/// Once the worker has stopped, which `destroy` waits for, the callback is
/// never invoked again, whatever the channel gives afterwards; and an enqueue
/// on the destroyed executor, whose liveness flag reads false, sends nothing.
pub proof fn silent_after_destroy(
    has_callback: bool,
    before: Seq<Option<MessageView>>,
    after: Seq<Option<MessageView>>,
)
    requires
        state_after(started(has_callback), before).exited,
    ensures
        delivered(started(has_callback), before + after) == delivered(started(has_callback), before),
        forall|playlist_id: Option<Seq<u8>>, item_id: Option<Seq<u8>>|
            enqueue_outcome(false, playlist_id, item_id) is None,
{
    let w = started(has_callback);
    lemma_run_split(w, before, after);
    lemma_stopped_is_silent(state_after(w, before), after);
    assert(delivered(w, before) + Seq::<(Seq<char>, Seq<char>)>::empty() =~= delivered(w, before));
}

} // verus!
