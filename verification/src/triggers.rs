use vstd::prelude::*;

use crate::context::Context;

/// A trigger that emits on every HTTP request.
pub mod http;
/// A trigger that emits once and then shuts the loop down.
pub mod once;
/// A trigger that emits periodically.
pub mod schedule;
/// A trigger that shuts the loop down on a termination signal.
pub mod signal;
/// A test double emitting one event.
pub mod test;

verus! {

#[verifier::external_type_specification]
#[verifier::external_body]
#[verifier::reject_recursive_types(T)]
pub struct ExSender<T>(std::sync::mpsc::Sender<T>);

#[verifier::external_type_specification]
#[verifier::external_body]
#[verifier::reject_recursive_types(T)]
pub struct ExReceiver<T>(std::sync::mpsc::Receiver<T>);

/// Relies on std::sync::mpsc::Sender::send: hands the message to the
/// channel; the result is `true` exactly when a receiver was still
/// connected and the message was taken.
#[verifier::external_body]
pub(crate) fn send_event(
    tx: &std::sync::mpsc::Sender<Option<Context>>,
    message: Option<Context>,
) -> bool {
    tx.send(message).is_ok()
}

/// Relies on std::sync::mpsc::Receiver::recv: blocks for the next message,
/// `None` once every sender is gone.
#[verifier::external_body]
pub(crate) fn recv_event(rx: &std::sync::mpsc::Receiver<Option<Context>>) -> Option<
    Option<Context>,
> {
    rx.recv().ok()
}

/// The emission rule: a message the channel refused means the receiving
/// end is gone, which ends the trigger with the hang-up error.
pub fn classify_send(sent: bool) -> (r: Result<(), TriggerError>)
    ensures
        sent == (r is Ok),
        r matches Err(e) ==> e is ReceiverHangup,
{
    if sent {
        Ok(())
    } else {
        Err(TriggerError::ReceiverHangup)
    }
}

/// The error cases for triggers.
#[derive(Debug, PartialEq, Eq)]
pub enum TriggerError {
    /// The trigger cannot be initialized because of a misconfiguration.
    Misconfigured(String),
    /// An emission failed because the receiving end hung up.
    ReceiverHangup,
    /// Running the trigger failed; the parameter holds the message.
    FailedTrigger(String),
}

/// A trigger is a long running producer of events, each asking the loop to
/// run the check; emitting `None` asks the loop to shut down.
pub trait Trigger {
    /// Runs the trigger until it is done or fails.
    fn listen(&self, tx: std::sync::mpsc::Sender<Option<Context>>) -> Result<(), TriggerError>;
}

} // verus!
