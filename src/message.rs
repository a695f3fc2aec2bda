//! The items that travel from producers to the worker.
use vstd::prelude::*;

verus! {

/// One queued unit of work: a notification for the callback, or the request
/// that the worker stop.
#[derive(Debug, PartialEq, Eq)]
pub enum Message {
    /// A playlist identifier and an item identifier, owned by the message.
    Work(String, String),
    /// The sentinel that ends the worker; it is ordered like any other message.
    Shutdown,
}

/// What a message says, with its identifiers as character sequences.
pub enum MessageView {
    Work(Seq<char>, Seq<char>),
    Shutdown,
}

impl View for Message {
    type V = MessageView;

    open spec fn view(&self) -> MessageView {
        match self {
            Message::Work(playlist_id, item_id) => MessageView::Work(playlist_id@, item_id@),
            Message::Shutdown => MessageView::Shutdown,
        }
    }
}

/// The view of an optional message: what a receive gave the worker (`None`
/// once every sender is gone), or what a producer is to send.
pub open spec fn option_view(received: Option<Message>) -> Option<MessageView> {
    match received {
        Some(m) => Some(m@),
        None => None,
    }
}

} // verus!
