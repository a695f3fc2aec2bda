//! The worker's decisions.
//!
//! The worker receives messages one at a time. For each it decides whether
//! to hand a pair of identifiers to the callback, to drop the message, or to
//! stop for good. `delivered` follows those decisions over a whole run of
//! receives; the laws of the executor are stated over it.
use vstd::prelude::*;
use crate::message::{Message, MessageView, option_view};

verus! {

/// What the worker does with one received message.
#[derive(Debug, PartialEq, Eq)]
pub enum Step {
    /// Invoke the callback with these two identifiers.
    Deliver(String, String),
    /// Drop the message: there is no callback.
    Discard,
    /// Stop; nothing is received after this.
    Exit,
}

pub enum StepView {
    Deliver(Seq<char>, Seq<char>),
    Discard,
    Exit,
}

impl View for Step {
    type V = StepView;

    open spec fn view(&self) -> StepView {
        match self {
            Step::Deliver(playlist_id, item_id) => StepView::Deliver(playlist_id@, item_id@),
            Step::Discard => StepView::Discard,
            Step::Exit => StepView::Exit,
        }
    }
}

/// The worker's state: whether a callback was supplied, and whether it has stopped.
pub struct WorkerView {
    pub has_callback: bool,
    pub exited: bool,
}

/// The state of a worker that has just been started.
pub open spec fn started(has_callback: bool) -> WorkerView {
    WorkerView { has_callback, exited: false }
}

/// The decision on one receive. A stopped worker stays stopped; a closed
/// channel or a `Shutdown` stops it; a `Work` message goes to the callback,
/// or is dropped when there is none.
pub open spec fn step_of(w: WorkerView, received: Option<MessageView>) -> StepView {
    if w.exited {
        StepView::Exit
    } else {
        match received {
            None => StepView::Exit,
            Some(MessageView::Shutdown) => StepView::Exit,
            Some(MessageView::Work(playlist_id, item_id)) => if w.has_callback {
                StepView::Deliver(playlist_id, item_id)
            } else {
                StepView::Discard
            },
        }
    }
}

/// The state after one receive.
pub open spec fn next_state(w: WorkerView, received: Option<MessageView>) -> WorkerView {
    WorkerView { has_callback: w.has_callback, exited: step_of(w, received) is Exit }
}

/// The state after a run of receives.
pub open spec fn state_after(w: WorkerView, events: Seq<Option<MessageView>>) -> WorkerView
    decreases events.len(),
{
    if events.len() == 0 {
        w
    } else {
        state_after(next_state(w, events[0]), events.drop_first())
    }
}

/// The pairs handed to the callback over a run of receives, in order.
pub open spec fn delivered(w: WorkerView, events: Seq<Option<MessageView>>) -> Seq<
    (Seq<char>, Seq<char>),
>
    decreases events.len(),
{
    if events.len() == 0 {
        Seq::empty()
    } else {
        let head = match step_of(w, events[0]) {
            StepView::Deliver(playlist_id, item_id) => seq![(playlist_id, item_id)],
            _ => Seq::empty(),
        };
        head + delivered(next_state(w, events[0]), events.drop_first())
    }
}

/// The worker loop's state, kept by whoever runs the loop.
pub struct Worker {
    has_callback: bool,
    exited: bool,
}

impl View for Worker {
    type V = WorkerView;

    closed spec fn view(&self) -> WorkerView {
        WorkerView { has_callback: self.has_callback, exited: self.exited }
    }
}

impl Worker {
    /// A worker that has not stopped; it delivers only if `has_callback`.
    pub fn new(has_callback: bool) -> (w: Worker)
        ensures
            w@ == started(has_callback),
    {
        Worker { has_callback, exited: false }
    }

    /// Whether the worker should go on receiving.
    pub fn is_running(&self) -> (r: bool)
        ensures
            r == !self@.exited,
    {
        !self.exited
    }

    /// Decides what to do with what one receive gave: `None` when the channel
    /// is closed.
    pub fn on_receive(&mut self, received: Option<Message>) -> (s: Step)
        ensures
            s@ == step_of(old(self)@, option_view(received)),
            final(self)@ == next_state(old(self)@, option_view(received)),
    {
        if self.exited {
            return Step::Exit;
        }
        match received {
            None => {
                self.exited = true;
                Step::Exit
            },
            Some(Message::Shutdown) => {
                self.exited = true;
                Step::Exit
            },
            Some(Message::Work(playlist_id, item_id)) => {
                if self.has_callback {
                    Step::Deliver(playlist_id, item_id)
                } else {
                    Step::Discard
                }
            },
        }
    }
}

} // verus!
