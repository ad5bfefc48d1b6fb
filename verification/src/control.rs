//! The commands with which the host's user interface drives the input target.

use vstd::prelude::*;
use crate::install::WebInputPlugin;

verus! {

/// One command for the input target.
#[derive(Clone, Debug, PartialEq, Eq)]
pub enum TargetCommand {
    /// Request keyboard focus.
    Focus,
    /// Release keyboard focus.
    Blur,
    /// Overwrite the target's text. This is a direct write: the target fires
    /// no `input` for it, so nothing is enqueued.
    SetValue(String),
}

/// A [`TargetCommand`], with its text as a sequence of characters.
pub enum TargetCommandView {
    Focus,
    Blur,
    SetValue(Seq<char>),
}

impl View for TargetCommand {
    type V = TargetCommandView;

    open spec fn view(&self) -> TargetCommandView {
        match self {
            TargetCommand::Focus => TargetCommandView::Focus,
            TargetCommand::Blur => TargetCommandView::Blur,
            TargetCommand::SetValue(text) => TargetCommandView::SetValue(text@),
        }
    }
}

/// What a request turns into: nothing or one command.
pub open spec fn command_view(command: Option<TargetCommand>) -> Option<TargetCommandView> {
    match command {
        Some(c) => Some(c@),
        None => None,
    }
}

/// Whether a command reaches the target: the capture layer is installed and
/// the target exists.
pub open spec fn reaches_target(installed: bool, target_present: bool) -> bool {
    installed && target_present
}

/// The command that a request is turned into, if it reaches the target.
pub open spec fn issued(
    installed: bool,
    target_present: bool,
    command: TargetCommandView,
) -> Option<TargetCommandView> {
    if reaches_target(installed, target_present) {
        Some(command)
    } else {
        None
    }
}

/// Asks for keyboard focus on the target. Without an installed capture layer,
/// or without a target, this does nothing.
pub fn focus_input(
    plugin: &WebInputPlugin,
    target_present: bool,
) -> (command: Option<TargetCommand>)
    ensures
        command_view(command) == issued(
            plugin.installed(),
            target_present,
            TargetCommandView::Focus,
        ),
{
    if plugin.is_installed() && target_present {
        Some(TargetCommand::Focus)
    } else {
        None
    }
}

/// Releases keyboard focus. Without an installed capture layer, or without a
/// target, this does nothing.
pub fn blur_input(
    plugin: &WebInputPlugin,
    target_present: bool,
) -> (command: Option<TargetCommand>)
    ensures
        command_view(command) == issued(plugin.installed(), target_present, TargetCommandView::Blur),
{
    if plugin.is_installed() && target_present {
        Some(TargetCommand::Blur)
    } else {
        None
    }
}

/// Overwrites the target's text with `text`. Without an installed capture
/// layer, or without a target, this does nothing.
pub fn set_input_value(
    plugin: &WebInputPlugin,
    target_present: bool,
    text: String,
) -> (command: Option<TargetCommand>)
    ensures
        command_view(command) == issued(
            plugin.installed(),
            target_present,
            TargetCommandView::SetValue(text@),
        ),
{
    if plugin.is_installed() && target_present {
        Some(TargetCommand::SetValue(text))
    } else {
        None
    }
}

} // verus!
