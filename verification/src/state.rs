//! The bridge's current state, as the poll layer last left it.

use vstd::prelude::*;
use crate::event::WebEvent;
use crate::event::WebEventView;

verus! {

/// What the host knows of the input target between two ticks.
///
/// Only the poll layer writes it; display systems read it.
#[derive(Clone, Debug, PartialEq, Eq)]
pub struct BridgeState {
    focused: bool,
    current_value: String,
    composition: String,
    is_composing: bool,
}

/// A [`BridgeState`], with its texts as sequences of characters.
pub struct BridgeStateView {
    /// Whether the target had keyboard focus at the last tick.
    pub focused: bool,
    /// The target's text as of the last input; empty after a submit.
    pub current_value: Seq<char>,
    /// The provisional text of the last composition event.
    pub composition: Seq<char>,
    /// Whether that composition was still under way.
    pub is_composing: bool,
}

impl View for BridgeState {
    type V = BridgeStateView;

    closed spec fn view(&self) -> BridgeStateView {
        BridgeStateView {
            focused: self.focused,
            current_value: self.current_value@,
            composition: self.composition@,
            is_composing: self.is_composing,
        }
    }
}

/// The state at start-up: no focus, no text, no composition.
pub open spec fn initial_state() -> BridgeStateView {
    BridgeStateView {
        focused: false,
        current_value: Seq::<char>::empty(),
        composition: Seq::<char>::empty(),
        is_composing: false,
    }
}

/// The state after one event: an input sets the current value, a submit clears
/// it, a composition event sets the composition's text and flag.
pub open spec fn state_after_event(state: BridgeStateView, event: WebEventView) -> BridgeStateView {
    match event {
        WebEventView::Input(text) => BridgeStateView { current_value: text, ..state },
        WebEventView::Submit(_) => BridgeStateView { current_value: Seq::<char>::empty(), ..state },
        WebEventView::Composition { text, is_composing } => BridgeStateView {
            composition: text,
            is_composing,
            ..state
        },
    }
}

/// The state after a batch of events, applied oldest first.
pub open spec fn state_after(state: BridgeStateView, batch: Seq<WebEventView>) -> BridgeStateView {
    batch.fold_left(state, |s: BridgeStateView, e: WebEventView| state_after_event(s, e))
}

impl BridgeState {
    /// The state at start-up.
    pub fn new() -> (state: Self)
        ensures
            state@ == initial_state(),
    {
        BridgeState {
            focused: false,
            current_value: String::new(),
            composition: String::new(),
            is_composing: false,
        }
    }

    /// Whether the target had keyboard focus at the last tick.
    pub fn focused(&self) -> (focused: bool)
        ensures
            focused == self@.focused,
    {
        self.focused
    }

    /// The target's text as of the last input; empty after a submit.
    pub fn current_value(&self) -> (value: &str)
        ensures
            value@ == self@.current_value,
    {
        self.current_value.as_str()
    }

    /// The provisional text of the last composition event.
    pub fn composition(&self) -> (text: &str)
        ensures
            text@ == self@.composition,
    {
        self.composition.as_str()
    }

    /// Whether the last composition event left a composition under way.
    pub fn is_composing(&self) -> (composing: bool)
        ensures
            composing == self@.is_composing,
    {
        self.is_composing
    }

    /// Records whether the target has keyboard focus.
    pub(crate) fn set_focused(&mut self, focused: bool)
        ensures
            final(self)@ == (BridgeStateView { focused, ..old(self)@ }),
    {
        self.focused = focused;
    }

    /// Records one drained event.
    pub fn apply(&mut self, event: &WebEvent)
        ensures
            final(self)@ == state_after_event(old(self)@, event@),
    {
        match event {
            WebEvent::Input(text) => {
                self.current_value = text.clone();
            },
            WebEvent::Submit(_) => {
                self.current_value = String::new();
            },
            WebEvent::Composition { text, is_composing } => {
                self.composition = text.clone();
                self.is_composing = *is_composing;
            },
        }
    }
}

} // verus!
