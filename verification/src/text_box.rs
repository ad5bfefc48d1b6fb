//! A one-line text box on the host's side, edited by key presses.

use vstd::prelude::*;
use vstd::string::*;

verus! {

/// The keys that edit the text box.
#[derive(Clone, Debug, PartialEq, Eq)]
pub enum KeyPress {
    /// Submits the line.
    Enter,
    /// Deletes the last character.
    Backspace,
    /// Types the text carried.
    Character(String),
    /// Any other key.
    Other,
}

/// A [`KeyPress`], with its text as a sequence of characters.
pub enum KeyPressView {
    Enter,
    Backspace,
    Character(Seq<char>),
    Other,
}

impl View for KeyPress {
    type V = KeyPressView;

    open spec fn view(&self) -> KeyPressView {
        match self {
            KeyPress::Enter => KeyPressView::Enter,
            KeyPress::Backspace => KeyPressView::Backspace,
            KeyPress::Character(text) => KeyPressView::Character(text@),
            KeyPress::Other => KeyPressView::Other,
        }
    }
}

/// One keyboard message of the host: a key went down or came up.
#[derive(Clone, Debug, PartialEq, Eq)]
pub struct KeyEvent {
    pub pressed: bool,
    pub key: KeyPress,
}

/// A [`KeyEvent`], with its key by its view.
pub struct KeyEventView {
    pub pressed: bool,
    pub key: KeyPressView,
}

impl View for KeyEvent {
    type V = KeyEventView;

    open spec fn view(&self) -> KeyEventView {
        KeyEventView { pressed: self.pressed, key: self.key@ }
    }
}

/// The views of a sequence of key events, in the same order.
pub open spec fn key_event_views(events: Seq<KeyEvent>) -> Seq<KeyEventView> {
    events.map_values(|e: KeyEvent| e@)
}

/// What the text box shows and what it last announced as submitted.
pub struct TextBoxView {
    pub input: Seq<char>,
    pub submitted: Option<Seq<char>>,
}

/// The line that announces a submitted text.
pub open spec fn submitted_label(text: Seq<char>) -> Seq<char> {
    "Submitted: "@ + text
}

/// The text box after one key event. Only a key going down edits: Enter
/// announces the line and clears it, Backspace drops the last character if
/// there is one, a character key appends its text.
pub open spec fn box_after_key(text_box: TextBoxView, event: KeyEventView) -> TextBoxView {
    if !event.pressed {
        text_box
    } else {
        match event.key {
            KeyPressView::Enter => TextBoxView {
                input: Seq::<char>::empty(),
                submitted: Some(submitted_label(text_box.input)),
            },
            KeyPressView::Backspace => TextBoxView {
                input: if text_box.input.len() > 0 {
                    text_box.input.drop_last()
                } else {
                    text_box.input
                },
                ..text_box
            },
            KeyPressView::Character(text) => TextBoxView {
                input: text_box.input + text,
                ..text_box
            },
            KeyPressView::Other => text_box,
        }
    }
}

/// The text box after a run of key events, oldest first.
pub open spec fn box_after_keys(text_box: TextBoxView, events: Seq<KeyEventView>) -> TextBoxView
    decreases events.len(),
{
    if events.len() == 0 {
        text_box
    } else {
        box_after_key(box_after_keys(text_box, events.drop_last()), events.last())
    }
}

/// What a submitted line is, as characters.
pub open spec fn label_view(label: Option<String>) -> Option<Seq<char>> {
    match label {
        Some(text) => Some(text@),
        None => None,
    }
}

/// `String::pop`: takes the last character off the text and returns it; an
/// empty text stays as it is and nothing is returned.
#[verifier::external_body]
fn pop_last(text: &mut String) -> (popped: Option<char>)
    ensures
        old(text)@.len() == 0 ==> popped is None && final(text)@ == old(text)@,
        old(text)@.len() > 0 ==> popped == Some(old(text)@.last()) && final(text)@ == old(
            text,
        )@.drop_last(),
{
    text.pop()
}

/// Applies the host's keyboard messages of one tick to the text of the input
/// line.
///
/// Returns the line to show as submitted, if Enter went down: the label of
/// the last submit.
pub fn handle_keyboard(input: &mut String, events: &Vec<KeyEvent>) -> (submitted: Option<String>)
    ensures
        final(input)@ == box_after_keys(
            TextBoxView { input: old(input)@, submitted: None },
            key_event_views(events@),
        ).input,
        label_view(submitted) == box_after_keys(
            TextBoxView { input: old(input)@, submitted: None },
            key_event_views(events@),
        ).submitted,
{
    let ghost start = TextBoxView { input: input@, submitted: None };
    let ghost all = key_event_views(events@);
    let mut submitted: Option<String> = None;
    let mut i: usize = 0;
    while i < events.len()
        invariant
            i <= events.len(),
            all == key_event_views(events@),
            input@ == box_after_keys(start, all.take(i as int)).input,
            label_view(submitted) == box_after_keys(start, all.take(i as int)).submitted,
        decreases events.len() - i,
    {
        let event = &events[i];
        proof {
            assert(all.take(i + 1).drop_last() =~= all.take(i as int));
        }
        if event.pressed {
            match &event.key {
                KeyPress::Enter => {
                    let mut line = String::new();
                    std::mem::swap(&mut line, input);
                    let mut label = "Submitted: ".to_owned();
                    label.append(line.as_str());
                    submitted = Some(label);
                },
                KeyPress::Backspace => {
                    let _ = pop_last(input);
                },
                KeyPress::Character(text) => {
                    input.append(text.as_str());
                },
                KeyPress::Other => {},
            }
        }
        i += 1;
    }
    assert(all.take(events.len() as int) =~= all);
    submitted
}

} // verus!
