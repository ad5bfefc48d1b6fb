//! What holds of the bridge as a whole, whatever the browser and the host do.
//!
//! The queue sits behind one lock, so the listeners' enqueues and the host's
//! drains happen one at a time, in some order that nobody controls. A
//! sequence of [`QueueStep`]s stands for one such order, and the laws below
//! hold for every sequence.

use vstd::prelude::*;
use crate::control::issued;
use crate::control::TargetCommandView;
use crate::event::WebEventView;
use crate::install::install_outcome;
use crate::install::installed_after;
use crate::install::InstallOutcome;
use crate::message::published;
use crate::message::translated;
use crate::message::WebMessageView;
use crate::poll::tick_messages;
use crate::queue::enqueued;
use crate::poll::tick_state;
use crate::state::state_after;
use crate::state::BridgeStateView;

verus! {

/// One step on the shared queue.
pub enum QueueStep {
    /// A listener offers an event and holds the lock: the event is enqueued
    /// ([`crate::queue::offer`] with the queue).
    Enqueue(WebEventView),
    /// A listener offers an event and cannot take the lock: the event is
    /// dropped ([`crate::queue::offer`] without the queue).
    EnqueueLost(WebEventView),
    /// The host's tick holds the lock: it drains the queue and publishes the
    /// batch ([`crate::queue::take_batch`] with the queue, then
    /// [`crate::poll::poll_web_input`]).
    Drain,
    /// The host's tick cannot take the lock: it publishes nothing and the
    /// queue keeps its events ([`crate::queue::take_batch`] without the queue,
    /// then [`crate::poll::poll_web_input`]).
    DrainSkipped,
}

/// Where a run of steps stands: what waits in the queue, and every message
/// delivered to the host so far.
pub struct Run {
    pub waiting: Seq<WebEventView>,
    pub delivered: Seq<WebMessageView>,
}

/// What the tick of a step is handed: the whole queue on a drain, nothing on a
/// skipped drain. A step of a listener is no tick.
pub open spec fn drained_by(run: Run, step: QueueStep) -> Option<Seq<WebEventView>> {
    match step {
        QueueStep::Drain => Some(run.waiting),
        _ => None,
    }
}

/// The run after one more step.
pub open spec fn after_step(run: Run, step: QueueStep) -> Run {
    match step {
        QueueStep::Enqueue(event) => Run { waiting: run.waiting.push(event), ..run },
        QueueStep::EnqueueLost(_) => run,
        QueueStep::Drain => Run {
            waiting: Seq::<WebEventView>::empty(),
            delivered: run.delivered + tick_messages(drained_by(run, step)),
        },
        QueueStep::DrainSkipped => Run {
            delivered: run.delivered + tick_messages(drained_by(run, step)),
            ..run
        },
    }
}

/// The run after `steps`, taken in order.
pub open spec fn after_steps(run: Run, steps: Seq<QueueStep>) -> Run
    decreases steps.len(),
{
    if steps.len() == 0 {
        run
    } else {
        after_step(after_steps(run, steps.drop_last()), steps.last())
    }
}

/// The events that `steps` put into the queue, in order: those of the
/// enqueues that held the lock.
pub open spec fn accepted(steps: Seq<QueueStep>) -> Seq<WebEventView>
    decreases steps.len(),
{
    if steps.len() == 0 {
        Seq::<WebEventView>::empty()
    } else {
        match steps.last() {
            QueueStep::Enqueue(event) => accepted(steps.drop_last()).push(event),
            _ => accepted(steps.drop_last()),
        }
    }
}

/// The steps of enqueuing `events` one after another, each holding the lock.
pub open spec fn enqueues(events: Seq<WebEventView>) -> Seq<QueueStep> {
    events.map_values(|e: WebEventView| QueueStep::Enqueue(e))
}

/// A run that starts from an empty queue with nothing published.
pub open spec fn fresh() -> Run {
    Run { waiting: Seq::<WebEventView>::empty(), delivered: Seq::<WebMessageView>::empty() }
}

/// Publishing goes event by event: the messages of two batches on end are the
/// messages of the batches put on end.
pub proof fn lemma_published_concat(a: Seq<WebEventView>, b: Seq<WebEventView>)
    ensures
        published(a + b) == published(a) + published(b),
{
}

/// Conservation: after any steps, the messages delivered so far, followed by
/// the messages of what still waits, are exactly the messages of what waited
/// at first followed by the accepted events, in the order of acceptance.
/// Nothing accepted is lost, nothing is published twice, nothing changes
/// place.
pub proof fn lemma_accepted_events_are_published_once(run: Run, steps: Seq<QueueStep>)
    ensures
        after_steps(run, steps).delivered + published(after_steps(run, steps).waiting)
            == run.delivered + published(run.waiting + accepted(steps)),
    decreases steps.len(),
{
    if steps.len() > 0 {
        let taken = accepted(steps.drop_last());
        lemma_accepted_events_are_published_once(run, steps.drop_last());
        lemma_published_concat(run.waiting, taken);
        lemma_published_concat(run.waiting, accepted(steps));
        if let QueueStep::Enqueue(event) = steps.last() {
            let message = translated(event);
            let waited = published(run.waiting);
            let since = published(taken);
            assert(published(taken.push(event)) =~= since.push(message));
            assert(run.delivered + (waited + since.push(message)) =~= (run.delivered + (waited
                + since)).push(message));
        }
    }
}

/// Enqueuing one by one only appends: the queue holds what waited before,
/// then the new events in the order of their arrival.
pub proof fn lemma_enqueued_appends(queue: Seq<WebEventView>, events: Seq<WebEventView>)
    ensures
        enqueued(queue, events) == queue + events,
    decreases events.len(),
{
    if events.len() > 0 {
        lemma_enqueued_appends(queue, events.drop_last());
    }
}

/// Enqueuing never publishes, and in a run it fills the queue as
/// [`enqueued`] says.
pub proof fn lemma_enqueues_only_fill_the_queue(run: Run, events: Seq<WebEventView>)
    ensures
        after_steps(run, enqueues(events)) == (Run {
            waiting: enqueued(run.waiting, events),
            ..run
        }),
    decreases events.len(),
{
    if events.len() > 0 {
        lemma_enqueues_only_fill_the_queue(run, events.drop_last());
        assert(enqueues(events).drop_last() =~= enqueues(events.drop_last()));
    }
}

/// Order preservation: when events are enqueued in some order into an empty
/// queue and one drain follows, the tick of that drain publishes one message
/// per event, in the same order, each of the kind and with the text of its
/// event, and the drain leaves nothing behind.
pub proof fn lemma_single_drain_preserves_order(events: Seq<WebEventView>)
    ensures
        enqueued(Seq::<WebEventView>::empty(), events) == events,
        tick_messages(Some(enqueued(Seq::<WebEventView>::empty(), events))).len() == events.len(),
        forall|i: int|
            0 <= i < events.len() ==> tick_messages(
                Some(enqueued(Seq::<WebEventView>::empty(), events)),
            )[i] == translated(events[i]),
        after_steps(fresh(), enqueues(events).push(QueueStep::Drain)) == (Run {
            waiting: Seq::<WebEventView>::empty(),
            delivered: published(events),
        }),
{
    let steps = enqueues(events).push(QueueStep::Drain);
    lemma_enqueued_appends(Seq::<WebEventView>::empty(), events);
    lemma_enqueues_only_fill_the_queue(fresh(), events);
    assert(steps.drop_last() =~= enqueues(events));
}

/// A drain empties the queue, so a second drain right after it, with nothing
/// enqueued in between, is handed an empty batch and its tick publishes no
/// message.
pub proof fn lemma_second_drain_publishes_nothing(run: Run)
    ensures
        after_step(run, QueueStep::Drain).waiting == Seq::<WebEventView>::empty(),
        tick_messages(Some(Seq::<WebEventView>::empty())) == Seq::<WebMessageView>::empty(),
        tick_messages(drained_by(after_step(run, QueueStep::Drain), QueueStep::Drain))
            == Seq::<WebMessageView>::empty(),
        after_step(after_step(run, QueueStep::Drain), QueueStep::Drain) == after_step(
            run,
            QueueStep::Drain,
        ),
{
}

/// No event appears in two consecutive drains: whatever the listeners do
/// between one drain and the next, the second drain is handed exactly the
/// events accepted in between, and none that the first one took.
pub proof fn lemma_consecutive_drains_share_nothing(run: Run, between: Seq<QueueStep>)
    requires
        forall|i: int| 0 <= i < between.len() ==> !(between[i] is Drain),
    ensures
        drained_by(after_steps(after_step(run, QueueStep::Drain), between), QueueStep::Drain)
            == Some(accepted(between)),
    decreases between.len(),
{
    if between.len() > 0 {
        lemma_consecutive_drains_share_nothing(run, between.drop_last());
    }
}

/// The edit that a batch leaves in force: the text of its last input, or
/// empty text where a submit came later; nothing where the batch holds
/// neither.
pub open spec fn last_edit(batch: Seq<WebEventView>) -> Option<Seq<char>>
    decreases batch.len(),
{
    if batch.len() == 0 {
        None
    } else {
        match batch.last() {
            WebEventView::Input(text) => Some(text),
            WebEventView::Submit(_) => Some(Seq::<char>::empty()),
            WebEventView::Composition { .. } => last_edit(batch.drop_last()),
        }
    }
}

/// The composition that a batch leaves in force: the text and flag of its
/// last composition event, if it holds one.
pub open spec fn last_composition(batch: Seq<WebEventView>) -> Option<(Seq<char>, bool)>
    decreases batch.len(),
{
    if batch.len() == 0 {
        None
    } else {
        match batch.last() {
            WebEventView::Composition { text, is_composing } => Some((text, is_composing)),
            _ => last_composition(batch.drop_last()),
        }
    }
}

/// After a batch, each part of the bridge state is what the last event that
/// speaks of it says; a part of which no event speaks stays. No event speaks
/// of the focus.
pub proof fn lemma_last_event_decides_state(state: BridgeStateView, batch: Seq<WebEventView>)
    ensures
        state_after(state, batch).focused == state.focused,
        state_after(state, batch).current_value == match last_edit(batch) {
            Some(text) => text,
            None => state.current_value,
        },
        state_after(state, batch).composition == match last_composition(batch) {
            Some(pair) => pair.0,
            None => state.composition,
        },
        state_after(state, batch).is_composing == match last_composition(batch) {
            Some(pair) => pair.1,
            None => state.is_composing,
        },
    decreases batch.len(),
{
    if batch.len() > 0 {
        lemma_last_event_decides_state(state, batch.drop_last());
    }
}

/// Submit clears state: after a tick whose last drained event is a submit,
/// the current value is empty, whatever it was and whatever came before.
pub proof fn lemma_submit_clears_value(
    state: BridgeStateView,
    target_focused: bool,
    batch: Seq<WebEventView>,
)
    requires
        batch.len() > 0,
        batch.last() is Submit,
    ensures
        tick_state(state, target_focused, Some(batch)).current_value == Seq::<char>::empty(),
{
    lemma_last_event_decides_state(BridgeStateView { focused: target_focused, ..state }, batch);
}

/// A tick that drains records the focus it was told of, whatever it drained.
pub proof fn lemma_tick_records_focus(
    state: BridgeStateView,
    target_focused: bool,
    batch: Seq<WebEventView>,
)
    ensures
        tick_state(state, target_focused, Some(batch)).focused == target_focused,
{
    lemma_last_event_decides_state(BridgeStateView { focused: target_focused, ..state }, batch);
}

/// The listeners are registered at most once: after an install that
/// registered them, and ever after, an install registers nothing.
pub proof fn lemma_listeners_are_registered_once(installed: bool, first: bool, second: bool)
    ensures
        install_outcome(installed, first) == InstallOutcome::Installed ==> install_outcome(
            installed_after(installed, first),
            second,
        ) == InstallOutcome::AlreadyInstalled,
        installed ==> install_outcome(installed, first) == InstallOutcome::AlreadyInstalled
            && installed_after(installed, first),
{
}

/// Missing-target degradation: an install that finds no target registers
/// nothing and changes nothing. While the target stays away no command is
/// issued; on a bridge that was never installed none is issued even if the
/// target turns up, until an install finds it.
pub proof fn lemma_missing_target_leaves_bridge_inert(
    installed: bool,
    target_later: bool,
    command: TargetCommandView,
)
    ensures
        install_outcome(installed, false) != InstallOutcome::Installed,
        !installed ==> install_outcome(installed, false) == InstallOutcome::MissingTarget,
        installed_after(installed, false) == installed,
        issued(installed_after(installed, false), false, command) is None,
        !installed ==> issued(installed_after(installed, false), target_later, command) is None,
{
}

} // verus!
