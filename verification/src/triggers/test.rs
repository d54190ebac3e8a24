use vstd::prelude::*;

use super::{classify_send, send_event, Trigger, TriggerError};
use crate::context::Context;

verus! {

/// A test double of a trigger: one empty event, then shutdown.
#[derive(Debug, PartialEq, Eq, Structural)]
pub struct TestTrigger;

impl TestTrigger {
    /// Creates the test trigger.
    pub fn new() -> (r: Self)
        ensures
            r == TestTrigger,
    {
        TestTrigger
    }
}

impl Trigger for TestTrigger {
    /// Emits one empty event and then asks the loop to shut down.
    fn listen(&self, tx: std::sync::mpsc::Sender<Option<Context>>) -> Result<(), TriggerError> {
        match classify_send(send_event(&tx, Some(Context::new()))) {
            Ok(()) => {
            },
            Err(e) => {
                return Err(e);
            },
        }
        classify_send(send_event(&tx, None))
    }
}

} // verus!
