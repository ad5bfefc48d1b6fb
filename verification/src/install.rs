//! Installing the capture layer on the input target.

use vstd::prelude::*;
use crate::capture::CompositionPhase;

verus! {

/// The identifier under which the document holds the input target. The
/// bridge owns no handle on the target: it is looked up by this identifier
/// each time it is needed.
pub const TARGET_ID: &'static str = "bevy-hidden-input";

/// The native events that the capture layer listens for.
#[derive(Clone, Copy, Debug, PartialEq, Eq, Structural)]
pub enum NativeEvent {
    Input,
    Keydown,
    CompositionStart,
    CompositionUpdate,
    CompositionEnd,
}

/// The name under which the browser delivers a native event.
pub open spec fn native_event_name(event: NativeEvent) -> Seq<char> {
    match event {
        NativeEvent::Input => "input"@,
        NativeEvent::Keydown => "keydown"@,
        NativeEvent::CompositionStart => "compositionstart"@,
        NativeEvent::CompositionUpdate => "compositionupdate"@,
        NativeEvent::CompositionEnd => "compositionend"@,
    }
}

/// The phase of a composition that a native event reports, if it is one of
/// the three composition events.
pub open spec fn composition_phase_of(event: NativeEvent) -> Option<CompositionPhase> {
    match event {
        NativeEvent::CompositionStart => Some(CompositionPhase::Start),
        NativeEvent::CompositionUpdate => Some(CompositionPhase::Update),
        NativeEvent::CompositionEnd => Some(CompositionPhase::End),
        NativeEvent::Input | NativeEvent::Keydown => None,
    }
}

impl NativeEvent {
    /// The phase that the listener of this event hands to
    /// [`crate::capture::on_composition`]; `None` for `input` and `keydown`.
    pub fn composition_phase(&self) -> (phase: Option<CompositionPhase>)
        ensures
            phase == composition_phase_of(*self),
    {
        match self {
            NativeEvent::CompositionStart => Some(CompositionPhase::Start),
            NativeEvent::CompositionUpdate => Some(CompositionPhase::Update),
            NativeEvent::CompositionEnd => Some(CompositionPhase::End),
            NativeEvent::Input => None,
            NativeEvent::Keydown => None,
        }
    }

    /// The name to register a listener under.
    pub fn name(&self) -> (name: &'static str)
        ensures
            name@ == native_event_name(*self),
    {
        match self {
            NativeEvent::Input => "input",
            NativeEvent::Keydown => "keydown",
            NativeEvent::CompositionStart => "compositionstart",
            NativeEvent::CompositionUpdate => "compositionupdate",
            NativeEvent::CompositionEnd => "compositionend",
        }
    }
}

/// The fixed set of listeners, in the order in which they are registered.
pub open spec fn listener_set() -> Seq<NativeEvent> {
    seq![
        NativeEvent::Input,
        NativeEvent::Keydown,
        NativeEvent::CompositionStart,
        NativeEvent::CompositionUpdate,
        NativeEvent::CompositionEnd,
    ]
}

/// The listeners that an installation registers: each native event once.
pub fn listeners() -> (set: Vec<NativeEvent>)
    ensures
        set@ == listener_set(),
{
    let mut set: Vec<NativeEvent> = Vec::new();
    set.push(NativeEvent::Input);
    set.push(NativeEvent::Keydown);
    set.push(NativeEvent::CompositionStart);
    set.push(NativeEvent::CompositionUpdate);
    set.push(NativeEvent::CompositionEnd);
    set
}

/// No native event stands twice in the listener set, and every one stands in
/// it.
pub proof fn lemma_listener_set_is_exact()
    ensures
        listener_set().no_duplicates(),
        forall|event: NativeEvent| listener_set().contains(event),
{
    let set = listener_set();
    assert forall|event: NativeEvent| set.contains(event) by {
        match event {
            NativeEvent::Input => assert(set[0] == event),
            NativeEvent::Keydown => assert(set[1] == event),
            NativeEvent::CompositionStart => assert(set[2] == event),
            NativeEvent::CompositionUpdate => assert(set[3] == event),
            NativeEvent::CompositionEnd => assert(set[4] == event),
        }
    }
}

/// The bridge's handle on the capture layer: it remembers whether the
/// listeners are registered. Once registered they stay for the life of the
/// process; there is no way to take them off again.
#[derive(Debug)]
pub struct WebInputPlugin {
    installed: bool,
}

/// How an attempt to install ended.
#[derive(Clone, Copy, Debug, PartialEq, Eq, Structural)]
pub enum InstallOutcome {
    /// The target exists: the caller registers every listener of
    /// [`listeners`] now.
    Installed,
    /// The listeners were registered by an earlier call; nothing is registered
    /// again.
    AlreadyInstalled,
    /// No target exists: nothing is registered, and the caller reports it.
    MissingTarget,
}

/// How an attempt to install ends, given whether the listeners are registered
/// already and whether the target exists.
pub open spec fn install_outcome(installed: bool, target_present: bool) -> InstallOutcome {
    if installed {
        InstallOutcome::AlreadyInstalled
    } else if target_present {
        InstallOutcome::Installed
    } else {
        InstallOutcome::MissingTarget
    }
}

/// Whether the listeners are registered after an attempt to install.
pub open spec fn installed_after(installed: bool, target_present: bool) -> bool {
    installed || target_present
}

impl WebInputPlugin {
    /// Whether the listeners are registered.
    pub closed spec fn installed(&self) -> bool {
        self.installed
    }

    /// A bridge on which nothing is installed yet.
    pub fn new() -> (plugin: Self)
        ensures
            !plugin.installed(),
    {
        WebInputPlugin { installed: false }
    }

    /// Whether the listeners are registered.
    pub fn is_installed(&self) -> (installed: bool)
        ensures
            installed == self.installed(),
    {
        self.installed
    }
}

/// Installs the capture layer, given whether the lookup of the input target
/// found it.
///
/// The listeners are registered at most once, however often this is called.
/// Without a target nothing is registered and the bridge stays inert until a
/// later call finds the target.
pub fn setup_web_input(
    plugin: &mut WebInputPlugin,
    target_present: bool,
) -> (outcome: InstallOutcome)
    ensures
        outcome == install_outcome(old(plugin).installed(), target_present),
        final(plugin).installed() == installed_after(old(plugin).installed(), target_present),
{
    if plugin.installed {
        InstallOutcome::AlreadyInstalled
    } else if target_present {
        plugin.installed = true;
        InstallOutcome::Installed
    } else {
        InstallOutcome::MissingTarget
    }
}

} // verus!
