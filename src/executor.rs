//! The producer side: what `enqueue` puts on the channel.
use vstd::prelude::*;
use crate::message::{Message, MessageView, option_view};
use crate::text::{identifier_text, safe_text};

verus! {

/// The bytes of an identifier that may be absent.
pub open spec fn bytes_view(raw: Option<&[u8]>) -> Option<Seq<u8>> {
    match raw {
        Some(b) => Some(b@),
        None => None,
    }
}

/// What an enqueue sends. Nothing while the liveness flag reads false or when
/// an identifier is absent; otherwise a `Work` message with the identifiers'
/// safe texts.
pub open spec fn enqueue_outcome(
    alive: bool,
    playlist_id: Option<Seq<u8>>,
    item_id: Option<Seq<u8>>,
) -> Option<MessageView> {
    match (playlist_id, item_id) {
        (Some(p), Some(i)) => if alive {
            Some(MessageView::Work(safe_text(p), safe_text(i)))
        } else {
            None
        },
        _ => None,
    }
}

/// The message to send for an enqueue of `playlist_id` and `item_id` while the
/// liveness flag reads `alive`, or `None` when nothing is to be sent.
pub fn work_message(alive: bool, playlist_id: Option<&[u8]>, item_id: Option<&[u8]>) -> (r: Option<
    Message,
>)
    ensures
        option_view(r) == enqueue_outcome(alive, bytes_view(playlist_id), bytes_view(item_id)),
{
    match (playlist_id, item_id) {
        (Some(p), Some(i)) => {
            if !alive {
                return None;
            }
            let playlist_text = identifier_text(p);
            let item_text = identifier_text(i);
            Some(Message::Work(playlist_text, item_text))
        },
        _ => None,
    }
}

} // verus!
