//! Diagnostic timing. A timer only records a start instant when diagnostics
//! are active, so that timing costs nothing otherwise; it never influences
//! the gateway's results.

use vstd::prelude::*;

verus! {

/// A diagnostic stopwatch: armed with a start instant only when diagnostics
/// are active.
#[derive(PartialEq, Eq, Debug)]
pub struct Timer {
    pub started: Option<u64>,
}

impl Timer {
    /// Arms the timer with the current instant (in milliseconds) when
    /// diagnostics are active, and leaves it idle otherwise.
    pub fn start(diagnostics: bool, now_millis: u64) -> (t: Timer)
        ensures
            t.started == (if diagnostics {
                Some(now_millis)
            } else {
                None::<u64>
            }),
    {
        Timer { started: if diagnostics { Some(now_millis) } else { None } }
    }

    /// Reads the elapsed milliseconds of an armed timer; an idle timer
    /// reports nothing. A clock running backwards reads as zero rather than
    /// failing.
    pub fn end(self, now_millis: u64) -> (r: Option<u64>)
        ensures
            r == (match self.started {
                Some(s) => Some(if now_millis >= s {
                    (now_millis - s) as u64
                } else {
                    0u64
                }),
                None => None::<u64>,
            }),
    {
        match self.started {
            Some(s) => Some(if now_millis >= s { now_millis - s } else { 0 }),
            None => None,
        }
    }
}

} // verus!
