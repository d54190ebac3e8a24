use vstd::prelude::*;

use super::{classify_send, send_event, Trigger, TriggerError};
use crate::context::Context;

verus! {

/// A trigger that emits exactly one event followed by the shutdown token.
#[derive(Debug, PartialEq, Eq)]
pub struct OnceTrigger;

/// The context of the one emission: only the trigger name.
pub fn once_context() -> (r: Context)
    ensures
        r.wf(),
        r@ == Map::<Seq<char>, Seq<char>>::empty().insert("TRIGGER_NAME"@, "ONCE"@),
{
    let mut context = Context::new();
    context.insert("TRIGGER_NAME", "ONCE".to_owned());
    context
}

impl Trigger for OnceTrigger {
    /// Emits one event and then asks the loop to shut down.
    fn listen(&self, tx: std::sync::mpsc::Sender<Option<Context>>) -> Result<(), TriggerError> {
        let context = once_context();
        match classify_send(send_event(&tx, Some(context))) {
            Ok(()) => {
            },
            Err(e) => {
                return Err(e);
            },
        }
        classify_send(send_event(&tx, None))
    }
}

} // verus!
