//! The capture layer: what each listener on the input target does with the
//! native event it receives.
//!
//! The handlers here never touch host state. Each one turns what the listener
//! read from the browser into the event to enqueue, and says what, if anything,
//! must be written back to the target.

use vstd::prelude::*;
use crate::event::WebEvent;
use crate::event::WebEventView;
use crate::text::same_text;

verus! {

/// The keys that the keydown listener tells apart by name.
#[derive(Clone, Copy, Debug, PartialEq, Eq, Structural)]
pub enum Key {
    Enter,
    Backspace,
    Escape,
    /// Any key whose name is none of the above.
    Unrecognized,
}

/// The key that a key name stands for.
pub open spec fn key_named(name: Seq<char>) -> Key {
    if name == "Enter"@ {
        Key::Enter
    } else if name == "Backspace"@ {
        Key::Backspace
    } else if name == "Escape"@ {
        Key::Escape
    } else {
        Key::Unrecognized
    }
}

/// The three recognized key names are pairwise different, so each of them
/// decodes to its own key.
pub proof fn lemma_key_names_decode()
    ensures
        key_named("Enter"@) == Key::Enter,
        key_named("Backspace"@) == Key::Backspace,
        key_named("Escape"@) == Key::Escape,
{
    reveal_strlit("Enter");
    reveal_strlit("Backspace");
    reveal_strlit("Escape");
    assert("Enter"@.len() == 5 && "Backspace"@.len() == 9 && "Escape"@.len() == 6);
}

/// Decodes the name that the browser reports for a key.
pub fn decode_key(name: &str) -> (key: Key)
    ensures
        key == key_named(name@),
{
    if same_text(name, "Enter") {
        Key::Enter
    } else if same_text(name, "Backspace") {
        Key::Backspace
    } else if same_text(name, "Escape") {
        Key::Escape
    } else {
        Key::Unrecognized
    }
}

/// What the keydown listener does with a key.
#[derive(Clone, Copy, Debug, PartialEq, Eq, Structural)]
pub enum KeydownAction {
    /// Leave the key to the native element.
    Ignore,
    /// Read the target's value, enqueue it as a submit, and clear the target.
    Submit,
}

/// The action that a key calls for: only Enter is intercepted.
pub open spec fn keydown_action(key: Key) -> KeydownAction {
    match key {
        Key::Enter => KeydownAction::Submit,
        Key::Backspace | Key::Escape | Key::Unrecognized => KeydownAction::Ignore,
    }
}

/// Handler of `keydown`: decides from the key's name what the listener does.
///
/// Editing keys stay with the native element, which reports their effect
/// through `input`; every other key is ignored.
pub fn on_keydown(key_name: &str) -> (action: KeydownAction)
    ensures
        action == keydown_action(key_named(key_name@)),
{
    match decode_key(key_name) {
        Key::Enter => KeydownAction::Submit,
        Key::Backspace => KeydownAction::Ignore,
        Key::Escape => KeydownAction::Ignore,
        Key::Unrecognized => KeydownAction::Ignore,
    }
}

/// What a submit leaves behind: the event to enqueue and the value that the
/// target is set to.
#[derive(Clone, Debug, PartialEq, Eq)]
pub struct Submission {
    pub event: WebEvent,
    pub cleared_value: String,
}

/// Carries out [`KeydownAction::Submit`] on the value just read from the target.
///
/// The whole value becomes a submit event, and the target is cleared, so that
/// the next `input` starts from empty.
pub fn on_submit(value: String) -> (submission: Submission)
    ensures
        submission.event@ == WebEventView::Submit(value@),
        submission.cleared_value@ == Seq::<char>::empty(),
{
    Submission { event: WebEvent::Submit(value), cleared_value: String::new() }
}

/// Handler of `input`: the target's full current value becomes an input event.
pub fn on_input(value: String) -> (event: WebEvent)
    ensures
        event@ == WebEventView::Input(value@),
{
    WebEvent::Input(value)
}

/// The three native events of one input-method composition.
#[derive(Clone, Copy, Debug, PartialEq, Eq, Structural)]
pub enum CompositionPhase {
    Start,
    Update,
    End,
}

/// The text that a composition event carries: its data, or nothing.
pub open spec fn composition_text(data: Option<String>) -> Seq<char> {
    match data {
        Some(text) => text@,
        None => Seq::<char>::empty(),
    }
}

/// Handler of `compositionstart`, `compositionupdate` and `compositionend`.
///
/// Missing data counts as empty text. The composition is under way until its
/// end event.
pub fn on_composition(phase: CompositionPhase, data: Option<String>) -> (event: WebEvent)
    ensures
        event@ == (WebEventView::Composition {
            text: composition_text(data),
            is_composing: phase != CompositionPhase::End,
        }),
{
    let text = match data {
        Some(text) => text,
        None => String::new(),
    };
    let is_composing = match phase {
        CompositionPhase::Start => true,
        CompositionPhase::Update => true,
        CompositionPhase::End => false,
    };
    WebEvent::Composition { text, is_composing }
}

} // verus!
