//! The status indicator's state machine: a cooperative signal shown while
//! the loop waits on network calls. The state is `stopped` (terminal), or
//! running with the marker visible or hidden; the background renderer only
//! ever asks this module what to do next, so the indicator can never affect
//! the loop's outcome.
use vstd::prelude::*;

verus! {

use vstd::string::StringExecFns;

/// The shared indicator state: `running` is cleared exactly once and never
/// set again; `visible` toggles with pause and resume while running.
#[derive(Debug, Clone, Copy, PartialEq, Eq, Structural)]
pub struct AnimationState {
    pub running: bool,
    pub visible: bool,
}

/// What the background renderer does on one tick: draw the marker with this
/// many trailing dots, clear the line, or clear it one last time and exit.
#[derive(Debug)]
pub enum TickAction {
    Render(String),
    Clear,
    Stop,
}

/// The animated marker: one additional trailing dot per tick, without bound.
pub open spec fn spec_dots(n: nat) -> Seq<char> {
    Seq::new(n, |i: int| '.')
}

/// Builds the trailing dots of one rendered frame.
pub fn dots(n: usize) -> (r: String)
    ensures
        r@ == spec_dots(n as nat),
{
    let mut r = String::new();
    let mut i: usize = 0;
    while i < n
        invariant
            i <= n,
            r@ == spec_dots(i as nat),
        decreases n - i,
    {
        r.append(".");
        proof {
            reveal_strlit(".");
            assert(r@ =~= spec_dots((i + 1) as nat));
        }
        i = i + 1;
    }
    r
}

impl AnimationState {
    /// The state on start: running with the marker visible.
    pub fn new() -> (s: AnimationState)
        ensures
            s.running,
            s.visible,
    {
        AnimationState { running: true, visible: true }
    }

    /// Hides the marker while diagnostics are printed. A no-op once stopped:
    /// stopped is terminal.
    pub fn pause(&mut self)
        ensures
            final(self).running == old(self).running,
            final(self).visible == (if old(self).running {
                false
            } else {
                old(self).visible
            }),
    {
        if self.running {
            self.visible = false;
        }
    }

    /// Shows the marker again after diagnostics. A no-op once stopped.
    pub fn resume(&mut self)
        ensures
            final(self).running == old(self).running,
            final(self).visible == (if old(self).running {
                true
            } else {
                old(self).visible
            }),
    {
        if self.running {
            self.visible = true;
        }
    }

    /// Ends the indicator: `running` is cleared and, by the contracts of
    /// every transition, never set again.
    pub fn stop(&mut self)
        ensures
            !final(self).running,
            final(self).visible == old(self).visible,
    {
        self.running = false;
    }

    /// One tick of the background renderer: exit once stopped, draw the
    /// marker with `dot_count` trailing dots while visible, and keep the
    /// line clear while hidden.
    pub fn tick(&self, dot_count: usize) -> (r: TickAction)
        ensures
            match r {
                TickAction::Stop => !self.running,
                TickAction::Render(dots) => self.running && self.visible && dots@ == spec_dots(
                    dot_count as nat,
                ),
                TickAction::Clear => self.running && !self.visible,
            },
    {
        if !self.running {
            TickAction::Stop
        } else if self.visible {
            TickAction::Render(dots(dot_count))
        } else {
            TickAction::Clear
        }
    }
}

} // verus!
