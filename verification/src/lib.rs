//! Bridge between the text events of a browser's input element and a
//! frame-based host application.
//!
//! The browser fires its events whenever it likes; the host looks at the
//! world once per tick. Between the two stands one queue:
//!
//! - The capture layer ([`capture`], installed by [`install`]) turns each
//!   native event into a [`event::WebEvent`]. An `input` carries the target's
//!   full current value; Enter becomes a submit of that value, after which
//!   the target is cleared; composition events carry their provisional text.
//! - The [`queue::EventQueue`] keeps the events in the order of their arrival.
//!   It is meant to sit behind a lock; [`queue::offer`] and
//!   [`queue::take_batch`] say what happens when the lock cannot be taken.
//! - The poll layer ([`poll`]) republishes a drained batch, one
//!   [`message::WebMessage`] per event and in the same order, and keeps the
//!   [`state::BridgeState`] up to date.
//! - [`control`] turns the requests of the host's user interface (focus, blur,
//!   set the value) into commands for the target.
//!
//! [`laws`] states what holds of these parts together. [`text_box`] is a small
//! line editor for hosts that show what is typed.

pub mod capture;
pub mod control;
pub mod event;
pub mod install;
pub mod laws;
pub mod message;
pub mod poll;
pub mod queue;
pub mod state;
pub mod text;
pub mod text_box;
