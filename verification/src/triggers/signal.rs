use vstd::prelude::*;

use super::send_event;
use crate::context::Context;

verus! {

/// A trigger that shuts the loop down on a termination signal.
///
/// The first signal asks the loop to shut down in an orderly way; a second
/// signal demands an immediate exit with the signal's number, which the
/// surrounding program performs.
#[derive(Debug, PartialEq, Eq, Structural)]
pub struct SignalTrigger {
    pub trigger_count: u8,
}

impl SignalTrigger {
    /// Creates the trigger with no signal seen yet.
    pub fn new() -> (r: SignalTrigger)
        ensures
            r.trigger_count == 0,
    {
        SignalTrigger { trigger_count: 0 }
    }

    /// Handles the given signals in order: the first signal ever seen sends
    /// the shutdown token, and any later signal returns its number as the
    /// exit code the process must end with right away.
    pub fn listen_inner(
        &mut self,
        tx: std::sync::mpsc::Sender<Option<Context>>,
        signals: Vec<i32>,
    ) -> (r: Option<i32>)
        ensures
            final(self).trigger_count >= old(self).trigger_count,
            old(self).trigger_count == 0 && signals@.len() >= 2 ==> r == Some(signals@[1]),
            old(self).trigger_count == 0 && signals@.len() < 2 ==> r is None,
            old(self).trigger_count > 0 && signals@.len() >= 1 ==> r == Some(signals@[0]),
            old(self).trigger_count > 0 && signals@.len() == 0 ==> r is None,
    {
        let mut i: usize = 0;
        while i < signals.len()
            invariant
                0 <= i <= signals@.len(),
                self.trigger_count >= old(self).trigger_count,
                old(self).trigger_count == 0 ==> i <= 1,
                old(self).trigger_count == 0 && i == 0 ==> self.trigger_count == 0,
                old(self).trigger_count == 0 && i == 1 ==> self.trigger_count > 0,
                old(self).trigger_count > 0 ==> i == 0 && self.trigger_count == old(
                    self,
                ).trigger_count,
            decreases signals@.len() - i,
        {
            let previous = self.trigger_count;
            self.trigger_count = if previous == 255 {
                255
            } else {
                previous + 1
            };
            if previous == 0 {
                let _ = send_event(&tx, None);
            } else {
                return Some(signals[i]);
            }
            i = i + 1;
        }
        None
    }
}

} // verus!
