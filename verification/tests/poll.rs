use web_input_bridge::capture::{on_composition, on_input, on_submit, CompositionPhase};
use web_input_bridge::event::WebEvent;
use web_input_bridge::message::{
    translate, WebImeComposition, WebMessage, WebTextInput, WebTextSubmit,
};
use web_input_bridge::poll::poll_web_input;
use web_input_bridge::queue::{take_batch, EventQueue};
use web_input_bridge::state::BridgeState;

fn text_input(text: &str) -> WebMessage {
    WebMessage::TextInput(WebTextInput(text.to_string()))
}

fn text_submit(text: &str) -> WebMessage {
    WebMessage::TextSubmit(WebTextSubmit(text.to_string()))
}

fn composition(text: &str, is_composing: bool) -> WebMessage {
    WebMessage::ImeComposition(WebImeComposition { text: text.to_string(), is_composing })
}

#[test]
fn translate_keeps_kind_text_and_flag() {
    assert_eq!(translate(WebEvent::Input("a".to_string())), text_input("a"));
    assert_eq!(translate(WebEvent::Submit("b".to_string())), text_submit("b"));
    assert_eq!(
        translate(WebEvent::Composition { text: "c".to_string(), is_composing: true }),
        composition("c", true)
    );
    assert_eq!(
        translate(WebEvent::Composition { text: "c".to_string(), is_composing: false }),
        composition("c", false)
    );
}

#[test]
fn single_drain_publishes_in_enqueue_order() {
    let mut queue = EventQueue::new();
    let mut expected = Vec::new();
    for i in 0..50u32 {
        let text = format!("t{i}");
        match i % 3 {
            0 => {
                queue.enqueue(WebEvent::Input(text.clone()));
                expected.push(text_input(&text));
            }
            1 => {
                queue.enqueue(WebEvent::Submit(text.clone()));
                expected.push(text_submit(&text));
            }
            _ => {
                queue.enqueue(WebEvent::Composition { text: text.clone(), is_composing: i % 2 == 0 });
                expected.push(composition(&text, i % 2 == 0));
            }
        }
    }
    let mut state = BridgeState::new();
    let messages = poll_web_input(Some(queue.drain()), false, &mut state);
    assert_eq!(messages, expected);
}

#[test]
fn second_drain_publishes_nothing() {
    let mut queue = EventQueue::new();
    queue.enqueue(on_input("abc".to_string()));
    let mut state = BridgeState::new();
    let first = poll_web_input(take_batch(Some(&mut queue)), false, &mut state);
    assert_eq!(first.len(), 1);
    let second = poll_web_input(take_batch(Some(&mut queue)), false, &mut state);
    assert_eq!(second, Vec::<WebMessage>::new());
    assert_eq!(state.current_value(), "abc");
}

#[test]
fn submit_clears_state() {
    let mut queue = EventQueue::new();
    queue.enqueue(WebEvent::Input("abc".to_string()));
    queue.enqueue(WebEvent::Submit("abc".to_string()));
    let mut state = BridgeState::new();
    let messages = poll_web_input(Some(queue.drain()), true, &mut state);
    assert_eq!(messages, vec![text_input("abc"), text_submit("abc")]);
    assert_eq!(state.current_value(), "");
}

#[test]
fn composition_round_trip() {
    let mut queue = EventQueue::new();
    queue.enqueue(WebEvent::Composition { text: "n".to_string(), is_composing: true });
    queue.enqueue(WebEvent::Composition { text: "no".to_string(), is_composing: true });
    queue.enqueue(WebEvent::Composition { text: "no".to_string(), is_composing: false });
    let mut state = BridgeState::new();
    let messages = poll_web_input(Some(queue.drain()), true, &mut state);
    assert_eq!(
        messages,
        vec![composition("n", true), composition("no", true), composition("no", false)]
    );
    assert_eq!(state.composition(), "no");
    assert!(!state.is_composing());
}

#[test]
fn composition_through_the_handlers() {
    let mut queue = EventQueue::new();
    queue.enqueue(on_composition(CompositionPhase::Update, Some("n".to_string())));
    queue.enqueue(on_composition(CompositionPhase::Update, Some("no".to_string())));
    queue.enqueue(on_composition(CompositionPhase::End, Some("no".to_string())));
    let mut state = BridgeState::new();
    let messages = poll_web_input(Some(queue.drain()), true, &mut state);
    assert_eq!(
        messages,
        vec![composition("n", true), composition("no", true), composition("no", false)]
    );
}

#[test]
fn skipped_tick_publishes_nothing_and_keeps_state() {
    let mut state = BridgeState::new();
    let batch = vec![WebEvent::Input("kept".to_string())];
    assert_eq!(poll_web_input(Some(batch), true, &mut state).len(), 1);
    let before = state.clone();
    let messages = poll_web_input(None, false, &mut state);
    assert_eq!(messages, Vec::<WebMessage>::new());
    assert_eq!(state, before);
    assert!(state.focused());
    assert_eq!(state.current_value(), "kept");
}

#[test]
fn events_of_a_skipped_tick_arrive_with_the_next() {
    let mut queue = EventQueue::new();
    queue.enqueue(WebEvent::Input("a".to_string()));
    let mut state = BridgeState::new();
    assert!(poll_web_input(take_batch(None), false, &mut state).is_empty());
    queue.enqueue(WebEvent::Input("ab".to_string()));
    let messages = poll_web_input(take_batch(Some(&mut queue)), false, &mut state);
    assert_eq!(messages, vec![text_input("a"), text_input("ab")]);
    assert_eq!(state.current_value(), "ab");
}

#[test]
fn empty_batch_records_only_the_focus() {
    let mut state = BridgeState::new();
    assert!(!state.focused());
    assert!(poll_web_input(Some(Vec::new()), true, &mut state).is_empty());
    assert!(state.focused());
    assert_eq!(state.current_value(), "");
    assert!(poll_web_input(Some(Vec::new()), false, &mut state).is_empty());
    assert!(!state.focused());
}

#[test]
fn initial_state_is_blank() {
    let state = BridgeState::new();
    assert!(!state.focused());
    assert_eq!(state.current_value(), "");
    assert_eq!(state.composition(), "");
    assert!(!state.is_composing());
}

#[test]
fn apply_follows_each_kind_of_event() {
    let mut state = BridgeState::new();
    state.apply(&WebEvent::Input("abc".to_string()));
    assert_eq!(state.current_value(), "abc");
    state.apply(&WebEvent::Composition { text: "n".to_string(), is_composing: true });
    assert_eq!(state.current_value(), "abc");
    assert_eq!(state.composition(), "n");
    assert!(state.is_composing());
    state.apply(&WebEvent::Submit("abc".to_string()));
    assert_eq!(state.current_value(), "");
    assert_eq!(state.composition(), "n");
    assert!(state.is_composing());
    state.apply(&WebEvent::Composition { text: String::new(), is_composing: false });
    assert_eq!(state.composition(), "");
    assert!(!state.is_composing());
}

#[test]
fn last_edit_of_a_batch_decides_the_value() {
    let mut state = BridgeState::new();
    let batch = vec![
        WebEvent::Input("a".to_string()),
        WebEvent::Submit("a".to_string()),
        WebEvent::Input("b".to_string()),
        WebEvent::Composition { text: "x".to_string(), is_composing: true },
    ];
    poll_web_input(Some(batch), true, &mut state);
    assert_eq!(state.current_value(), "b");
    assert_eq!(state.composition(), "x");
    assert!(state.is_composing());
}

#[test]
fn enter_read_then_clear_reaches_the_host() {
    let mut queue = EventQueue::new();
    queue.enqueue(on_input("hi".to_string()));
    let submission = on_submit("hi".to_string());
    queue.enqueue(submission.event);
    queue.enqueue(on_input(submission.cleared_value));
    let mut state = BridgeState::new();
    let messages = poll_web_input(Some(queue.drain()), true, &mut state);
    assert_eq!(messages, vec![text_input("hi"), text_submit("hi"), text_input("")]);
    assert_eq!(state.current_value(), "");
}
