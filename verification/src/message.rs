//! The messages that the poll layer publishes to the host.

use vstd::prelude::*;
use crate::event::WebEvent;
use crate::event::WebEventView;

verus! {

/// The target's text changed to the value carried.
#[derive(Clone, Debug, PartialEq, Eq)]
pub struct WebTextInput(pub String);

/// The user submitted the value carried.
#[derive(Clone, Debug, PartialEq, Eq)]
pub struct WebTextSubmit(pub String);

/// An input-method composition holds `text`; it is under way while
/// `is_composing` is set.
#[derive(Clone, Debug, PartialEq, Eq)]
pub struct WebImeComposition {
    pub text: String,
    pub is_composing: bool,
}

/// One published message.
#[derive(Clone, Debug, PartialEq, Eq)]
pub enum WebMessage {
    TextInput(WebTextInput),
    TextSubmit(WebTextSubmit),
    ImeComposition(WebImeComposition),
}

/// What a [`WebMessage`] says, with its text as a sequence of characters.
pub enum WebMessageView {
    TextInput(Seq<char>),
    TextSubmit(Seq<char>),
    ImeComposition { text: Seq<char>, is_composing: bool },
}

impl View for WebMessage {
    type V = WebMessageView;

    open spec fn view(&self) -> WebMessageView {
        match self {
            WebMessage::TextInput(m) => WebMessageView::TextInput(m.0@),
            WebMessage::TextSubmit(m) => WebMessageView::TextSubmit(m.0@),
            WebMessage::ImeComposition(m) => WebMessageView::ImeComposition {
                text: m.text@,
                is_composing: m.is_composing,
            },
        }
    }
}

/// The views of a sequence of messages, in the same order.
pub open spec fn message_views(messages: Seq<WebMessage>) -> Seq<WebMessageView> {
    messages.map_values(|m: WebMessage| m@)
}

/// The message that an event is published as: the same kind, the same text,
/// the same flag.
pub open spec fn translated(event: WebEventView) -> WebMessageView {
    match event {
        WebEventView::Input(text) => WebMessageView::TextInput(text),
        WebEventView::Submit(text) => WebMessageView::TextSubmit(text),
        WebEventView::Composition { text, is_composing } => WebMessageView::ImeComposition {
            text,
            is_composing,
        },
    }
}

/// The messages that a batch of events is published as, one for one.
pub open spec fn published(batch: Seq<WebEventView>) -> Seq<WebMessageView> {
    batch.map_values(|e: WebEventView| translated(e))
}

/// Turns one event into its message. The text moves over unchanged.
pub fn translate(event: WebEvent) -> (message: WebMessage)
    ensures
        message@ == translated(event@),
{
    match event {
        WebEvent::Input(text) => WebMessage::TextInput(WebTextInput(text)),
        WebEvent::Submit(text) => WebMessage::TextSubmit(WebTextSubmit(text)),
        WebEvent::Composition { text, is_composing } => WebMessage::ImeComposition(
            WebImeComposition { text, is_composing },
        ),
    }
}

/// Translation is one to one: different events never give the same message.
pub proof fn lemma_translation_is_one_to_one(a: WebEventView, b: WebEventView)
    requires
        translated(a) == translated(b),
    ensures
        a == b,
{
}

} // verus!
