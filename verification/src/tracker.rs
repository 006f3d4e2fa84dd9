//! The input edge tracker: a deterministic mapping from raw press/release
//! edges on a fixed set of logical controls to outbound commands and
//! active-state toggling, with no duplicate "active" application and no
//! missed release. Publishing the returned command is the application
//! layer's non-blocking work; a failed publish never reaches the input path.

use vstd::prelude::*;
use crate::text::{decimal_bytes, spec_decimal};

verus! {

/// The logical controls the console knows.
#[derive(Clone, Copy, PartialEq, Eq, Structural, Debug)]
pub enum Control {
    Forward,
    Left,
    Backward,
    Right,
    Rotate,
    Quit,
}

/// One edge of a key: pressed or released.
#[derive(Clone, Copy, PartialEq, Eq, Structural, Debug)]
pub enum Transition {
    Pressed,
    Released,
}

/// Whether the input layer should stop propagating the raw event. Every
/// recognized control stops propagation; unrecognized raw input never
/// reaches the tracker and proceeds.
#[derive(Clone, Copy, PartialEq, Eq, Structural, Debug)]
pub enum Propagation {
    Stop,
    Proceed,
}

/// An outbound command: the topic and the decimal-ASCII payload to publish.
#[derive(Debug)]
pub struct PublishCommand {
    pub topic: &'static str,
    pub payload: Vec<u8>,
}

/// Everything one edge results in: the propagation directive, at most one
/// command to publish, and the quit/rotate signals for the owning context.
#[derive(Debug)]
pub struct EdgeOutcome {
    pub propagation: Propagation,
    pub command: Option<PublishCommand>,
    pub quit: bool,
    pub rotate: bool,
}

/// The topic a control publishes on, if it has one. Only engine power is
/// mapped; steering and the display-only controls publish nothing.
pub open spec fn spec_topic_of(c: Control) -> Option<Seq<char>> {
    match c {
        Control::Forward => Some("Vehicle/Teleop/EnginePower"@),
        _ => None,
    }
}

/// The payload an edge publishes: the engage power on press, zero power on
/// release.
pub open spec fn spec_payload_of(t: Transition) -> Seq<u8> {
    match t {
        Transition::Pressed => spec_decimal(10),
        Transition::Released => spec_decimal(0),
    }
}

/// The command one edge fires: exactly one per edge on a mapped control —
/// on every pressed edge, even a repeated one — and none on an unmapped
/// control. It does not depend on the tracker's state.
pub open spec fn spec_command_of(c: Control, t: Transition) -> Option<(Seq<char>, Seq<u8>)> {
    match spec_topic_of(c) {
        Some(topic) => Some((topic, spec_payload_of(t))),
        None => None,
    }
}

/// The tracker's state: the "active" flag of each control, used for
/// idempotent visual and logical toggling.
#[derive(Clone, Copy, PartialEq, Eq, Structural, Debug)]
pub struct Tracker {
    pub forward_active: bool,
    pub left_active: bool,
    pub backward_active: bool,
    pub right_active: bool,
    pub rotate_active: bool,
    pub quit_active: bool,
}

impl Tracker {
    /// Whether a control is marked active.
    pub open spec fn active(self, c: Control) -> bool {
        match c {
            Control::Forward => self.forward_active,
            Control::Left => self.left_active,
            Control::Backward => self.backward_active,
            Control::Right => self.right_active,
            Control::Rotate => self.rotate_active,
            Control::Quit => self.quit_active,
        }
    }

    /// The tracker with one control's active flag set to `v`.
    pub open spec fn with_active(self, c: Control, v: bool) -> Tracker {
        match c {
            Control::Forward => Tracker { forward_active: v, ..self },
            Control::Left => Tracker { left_active: v, ..self },
            Control::Backward => Tracker { backward_active: v, ..self },
            Control::Right => Tracker { right_active: v, ..self },
            Control::Rotate => Tracker { rotate_active: v, ..self },
            Control::Quit => Tracker { quit_active: v, ..self },
        }
    }

    /// The tracker after one edge: pressed marks active (idempotently),
    /// released clears unconditionally.
    pub open spec fn spec_edge_step(self, c: Control, t: Transition) -> Tracker {
        self.with_active(c, t == Transition::Pressed)
    }

    /// A tracker with every control inactive.
    pub fn new() -> (r: Tracker)
        ensures
            forall|c: Control| !r.active(c),
    {
        Tracker {
            forward_active: false,
            left_active: false,
            backward_active: false,
            right_active: false,
            rotate_active: false,
            quit_active: false,
        }
    }

    /// Handle one edge: toggle the control's active state, fire the
    /// control's command if it has a topic — on every pressed edge, even
    /// without an intervening release — and signal quit or rotate for the
    /// special controls. Recognized controls always stop propagation.
    pub fn handle_edge(&mut self, control: Control, transition: Transition) -> (r: EdgeOutcome)
        ensures
            *final(self) == old(self).spec_edge_step(control, transition),
            r.propagation == Propagation::Stop,
            r.quit == (control == Control::Quit && transition == Transition::Pressed),
            r.rotate == (control == Control::Rotate && transition == Transition::Pressed),
            match spec_command_of(control, transition) {
                Some(cmd) => match r.command {
                    Some(c) => c.topic@ == cmd.0 && c.payload@ == cmd.1,
                    None => false,
                },
                None => r.command is None,
            },
    {
        let engage = matches!(transition, Transition::Pressed);
        match control {
            Control::Forward => self.forward_active = engage,
            Control::Left => self.left_active = engage,
            Control::Backward => self.backward_active = engage,
            Control::Right => self.right_active = engage,
            Control::Rotate => self.rotate_active = engage,
            Control::Quit => self.quit_active = engage,
        }
        let command = match control {
            Control::Forward => {
                let payload = decimal_bytes(if engage { 10 } else { 0 });
                Some(PublishCommand { topic: "Vehicle/Teleop/EnginePower", payload })
            },
            _ => None,
        };
        EdgeOutcome {
            propagation: Propagation::Stop,
            command,
            quit: engage && matches!(control, Control::Quit),
            rotate: engage && matches!(control, Control::Rotate),
        }
    }
}

/// A pressed edge followed immediately by a released edge fires exactly one
/// engage command and then exactly one disengage command on the control's
/// topic when it has one, and no command at all when it has none; the
/// control ends inactive either way.
pub proof fn lemma_press_then_release(t: Tracker, c: Control)
    ensures
        spec_topic_of(c) is None ==> spec_command_of(c, Transition::Pressed) is None
            && spec_command_of(c, Transition::Released) is None,
        spec_topic_of(c) is Some ==> spec_command_of(c, Transition::Pressed) == Some(
            (spec_topic_of(c)->Some_0, spec_decimal(10)),
        ) && spec_command_of(c, Transition::Released) == Some(
            (spec_topic_of(c)->Some_0, spec_decimal(0)),
        ),
        !t.spec_edge_step(c, Transition::Pressed).spec_edge_step(c, Transition::Released).active(c),
{
}

/// Repeated pressed edges without an intervening release mark the control
/// active at most once: the second press leaves the tracker exactly as the
/// first left it. The command of a pressed edge does not depend on the
/// tracker's state, so each repeated press still fires it.
pub proof fn lemma_repeated_press_idempotent(t: Tracker, c: Control)
    ensures
        t.spec_edge_step(c, Transition::Pressed).spec_edge_step(c, Transition::Pressed)
            == t.spec_edge_step(c, Transition::Pressed),
        t.spec_edge_step(c, Transition::Pressed).active(c),
{
}

} // verus!
