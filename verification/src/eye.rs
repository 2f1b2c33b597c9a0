//! State machine of the terminal eye-animation demo.
//!
//! The demo holds one boolean: whether the eye is currently in its alternate
//! ("x") state rather than the normal ("O") state. Three input signals drive
//! it:
//! - a blink request runs a blink animation, but only while the eye is in
//!   the normal state; the state itself never changes;
//! - a toggle request always flips the state and runs the transition
//!   animation whose direction matches the flip;
//! - a solver request runs the "absolute solver" animation, again only while
//!   the eye is in the normal state, without changing it.
//!
//! The library only decides which animation to run; performing it (the log
//! markers around a timed delay) is the caller's job. Each action carries
//! its two log markers and its duration.

use vstd::prelude::*;

verus! {

/// A discrete key-press signal handed to the eye state machine.
#[derive(Clone, Copy, PartialEq, Eq, Structural, Debug)]
pub enum InputSignal {
    /// Run the blink animation (the demo's "up" key).
    Blink,
    /// Flip between the normal and the alternate eye ("down" key).
    ToggleAlternate,
    /// Run the absolute-solver animation ("left" key).
    Solve,
}

/// A timed animation the caller must perform: print the start marker, wait
/// for the duration, print the finish marker.
#[derive(Clone, Copy, PartialEq, Eq, Structural, Debug)]
pub enum AnimationAction {
    /// A blink of the normal eye.
    Blink,
    /// The transition from the normal eye to the alternate one (O to x).
    EnterAlternate,
    /// The transition from the alternate eye back to the normal one (x to O).
    LeaveAlternate,
    /// The absolute-solver animation of the normal eye.
    Solver,
}

impl AnimationAction {
    /// The log line printed before the animation's delay.
    pub open spec fn start_marker_spec(self) -> Seq<char> {
        match self {
            AnimationAction::Blink => "blink start"@,
            AnimationAction::EnterAlternate => "animation O-x start"@,
            AnimationAction::LeaveAlternate => "animation x-O start"@,
            AnimationAction::Solver => "animation absolute solver start"@,
        }
    }

    /// The log line printed after the animation's delay.
    pub open spec fn fin_marker_spec(self) -> Seq<char> {
        match self {
            AnimationAction::Blink => "blink fin"@,
            AnimationAction::EnterAlternate => "animation O-x fin"@,
            AnimationAction::LeaveAlternate => "animation x-O fin"@,
            AnimationAction::Solver => "animation absolute solver fin"@,
        }
    }

    /// How long the animation's delay lasts, in milliseconds.
    pub open spec fn duration_ms_spec(self) -> u64 {
        match self {
            AnimationAction::Solver => 2000u64,
            _ => 500u64,
        }
    }

    /// The log line printed before the animation's delay.
    pub fn start_marker(&self) -> (r: &'static str)
        ensures
            r@ == self.start_marker_spec(),
    {
        match self {
            AnimationAction::Blink => "blink start",
            AnimationAction::EnterAlternate => "animation O-x start",
            AnimationAction::LeaveAlternate => "animation x-O start",
            AnimationAction::Solver => "animation absolute solver start",
        }
    }

    /// The log line printed after the animation's delay.
    pub fn fin_marker(&self) -> (r: &'static str)
        ensures
            r@ == self.fin_marker_spec(),
    {
        match self {
            AnimationAction::Blink => "blink fin",
            AnimationAction::EnterAlternate => "animation O-x fin",
            AnimationAction::LeaveAlternate => "animation x-O fin",
            AnimationAction::Solver => "animation absolute solver fin",
        }
    }

    /// How long the animation's delay lasts, in milliseconds.
    pub fn duration_ms(&self) -> (r: u64)
        ensures
            r == self.duration_ms_spec(),
    {
        match self {
            AnimationAction::Solver => 2000,
            _ => 500,
        }
    }
}

/// Whether the eye is in its alternate state after a signal: only a toggle
/// request changes it, and a toggle always does.
pub open spec fn next_alternate_state(is_alternate: bool, signal: InputSignal) -> bool {
    match signal {
        InputSignal::ToggleAlternate => !is_alternate,
        _ => is_alternate,
    }
}

/// Which animation a signal triggers from a given state. Blink and solver
/// requests animate only the normal eye; a toggle request animates the
/// transition that matches the state it leaves.
pub open spec fn action_for(is_alternate: bool, signal: InputSignal) -> Option<AnimationAction> {
    match signal {
        InputSignal::Blink => if is_alternate {
            None
        } else {
            Some(AnimationAction::Blink)
        },
        InputSignal::ToggleAlternate => if is_alternate {
            Some(AnimationAction::LeaveAlternate)
        } else {
            Some(AnimationAction::EnterAlternate)
        },
        InputSignal::Solve => if is_alternate {
            None
        } else {
            Some(AnimationAction::Solver)
        },
    }
}

/// The terminal demo's whole state: whether the eye is currently shown in
/// its alternate ("x") form.
#[derive(Clone, Copy, PartialEq, Eq, Structural, Debug)]
pub struct EyeState {
    pub is_alternate_state: bool,
}

impl EyeState {
    /// The demo starts with the normal eye.
    pub fn new() -> (r: EyeState)
        ensures
            !r.is_alternate_state,
    {
        EyeState { is_alternate_state: false }
    }

    /// Reacts to one input signal: moves to the next state and reports the
    /// animation the caller must perform, if any.
    pub fn handle_signal(&mut self, signal: InputSignal) -> (r: Option<AnimationAction>)
        ensures
            final(self).is_alternate_state == next_alternate_state(
                old(self).is_alternate_state,
                signal,
            ),
            r == action_for(old(self).is_alternate_state, signal),
    {
        match signal {
            InputSignal::Blink => {
                if self.is_alternate_state {
                    None
                } else {
                    Some(AnimationAction::Blink)
                }
            },
            InputSignal::ToggleAlternate => {
                if self.is_alternate_state {
                    self.is_alternate_state = false;
                    Some(AnimationAction::LeaveAlternate)
                } else {
                    self.is_alternate_state = true;
                    Some(AnimationAction::EnterAlternate)
                }
            },
            InputSignal::Solve => {
                if self.is_alternate_state {
                    None
                } else {
                    Some(AnimationAction::Solver)
                }
            },
        }
    }
}

/// A toggle signal flips the alternate state, and a second toggle returns
/// it; blink and solver signals never change the state.
pub proof fn lemma_toggle_returns(s: bool)
    ensures
        next_alternate_state(next_alternate_state(s, InputSignal::ToggleAlternate),
            InputSignal::ToggleAlternate) == s,
        forall|sig: InputSignal| sig != InputSignal::ToggleAlternate
            ==> #[trigger] next_alternate_state(s, sig) == s,
{
}

} // verus!
