//! The events that the capture layer queues for the host.

use vstd::prelude::*;

verus! {

/// One captured native event, as it waits in the queue.
#[derive(Clone, Debug, PartialEq, Eq)]
pub enum WebEvent {
    /// The target's text changed; carries the target's full current value.
    Input(String),
    /// Enter was pressed; carries the target's full value at that moment.
    Submit(String),
    /// An input-method composition started, advanced or ended.
    Composition { text: String, is_composing: bool },
}

/// What a [`WebEvent`] says, with its text as a sequence of characters.
pub enum WebEventView {
    Input(Seq<char>),
    Submit(Seq<char>),
    Composition { text: Seq<char>, is_composing: bool },
}

impl View for WebEvent {
    type V = WebEventView;

    open spec fn view(&self) -> WebEventView {
        match self {
            WebEvent::Input(text) => WebEventView::Input(text@),
            WebEvent::Submit(text) => WebEventView::Submit(text@),
            WebEvent::Composition { text, is_composing } => WebEventView::Composition {
                text: text@,
                is_composing: *is_composing,
            },
        }
    }
}

/// The views of a sequence of events, in the same order.
pub open spec fn event_views(events: Seq<WebEvent>) -> Seq<WebEventView> {
    events.map_values(|e: WebEvent| e@)
}

} // verus!
