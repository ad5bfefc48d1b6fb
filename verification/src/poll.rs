//! The poll layer: once per tick, republish what the capture layer queued.

use vstd::prelude::*;
use crate::event::event_views;
use crate::event::WebEvent;
use crate::event::WebEventView;
use crate::message::message_views;
use crate::message::published;
use crate::message::translate;
use crate::message::translated;
use crate::message::WebMessage;
use crate::message::WebMessageView;
use crate::state::state_after;
use crate::state::BridgeState;
use crate::state::BridgeStateView;

verus! {

/// What one tick was handed: the batch it drained, or nothing when the
/// queue's lock could not be taken.
pub open spec fn drained_views(drained: Option<Vec<WebEvent>>) -> Option<Seq<WebEventView>> {
    match drained {
        Some(batch) => Some(event_views(batch@)),
        None => None,
    }
}

/// The messages that one tick publishes: one per drained event, in the order
/// of the batch; none when the tick is skipped.
pub open spec fn tick_messages(drained: Option<Seq<WebEventView>>) -> Seq<WebMessageView> {
    match drained {
        Some(batch) => published(batch),
        None => Seq::<WebMessageView>::empty(),
    }
}

/// The bridge state after one tick: the focus seen at the tick, then every
/// drained event applied in order; unchanged when the tick is skipped.
pub open spec fn tick_state(
    state: BridgeStateView,
    target_focused: bool,
    drained: Option<Seq<WebEventView>>,
) -> BridgeStateView {
    match drained {
        Some(batch) => state_after(BridgeStateView { focused: target_focused, ..state }, batch),
        None => state,
    }
}

/// Runs one tick of the poll layer.
///
/// `drained` is what [`crate::queue::take_batch`] returned: the batch drained
/// under the queue's lock, or `None` when the lock could not be taken. The
/// lock is released before this function is called, so producers are never
/// held up by the translation. `target_focused` says whether the target has
/// keyboard focus now.
///
/// Every drained event is published as exactly one message, in the order in
/// which it was enqueued, and recorded in `state`. A skipped tick publishes
/// nothing and leaves `state` as it was; the queue keeps its events for the
/// next tick.
pub fn poll_web_input(
    drained: Option<Vec<WebEvent>>,
    target_focused: bool,
    state: &mut BridgeState,
) -> (messages: Vec<WebMessage>)
    ensures
        message_views(messages@) == tick_messages(drained_views(drained)),
        final(state)@ == tick_state(old(state)@, target_focused, drained_views(drained)),
{
    let mut messages: Vec<WebMessage> = Vec::new();
    let batch = match drained {
        Some(batch) => batch,
        None => return messages,
    };
    state.set_focused(target_focused);
    let ghost start = state@;
    let ghost all = event_views(batch@);
    for event in it: batch
        invariant
            all == event_views(it.seq()),
            messages@.len() == it.index(),
            message_views(messages@) == published(all.take(it.index() as int)),
            state@ == state_after(start, all.take(it.index() as int)),
    {
        state.apply(&event);
        messages.push(translate(event));
        proof {
            let k = it.index() as int;
            let now = message_views(messages@);
            assert(all.take(k + 1).drop_last() =~= all.take(k));
            assert forall|j: int| 0 <= j < k + 1 implies now[j] == published(all.take(k + 1))[j] by {
                if j < k {
                    assert(published(all.take(k))[j] == translated(all[j]));
                }
            }
        }
    }
    messages
}

} // verus!
