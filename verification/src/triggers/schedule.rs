use vstd::prelude::*;

use super::TriggerError;
use crate::context::Context;

verus! {

/// A trigger that emits periodically, optionally until a deadline.
#[derive(Debug, PartialEq, Eq)]
pub struct ScheduleTrigger {
    pub duration_ms: u64,
    pub timeout_ms: Option<u64>,
}

/// The error cases for the schedule trigger.
#[derive(Debug, PartialEq, Eq, Structural)]
pub enum ScheduleError {
    /// An emission failed because the receiving end hung up.
    ReceiverHangup,
}

impl ScheduleError {
    /// Lifts the schedule error into the trigger taxonomy.
    pub fn into_trigger(self) -> (r: TriggerError)
        ensures
            r is ReceiverHangup,
    {
        match self {
            ScheduleError::ReceiverHangup => TriggerError::ReceiverHangup,
        }
    }
}

/// The human readable form of a duration given in milliseconds.
pub uninterp spec fn human_duration(ms: u64) -> Seq<char>;

/// Relies on duration_string::DurationString: formats a duration with the
/// largest unit that divides it evenly; the result depends on the duration
/// alone.
#[verifier::external_body]
pub fn format_duration(ms: u64) -> (r: String)
    ensures
        r@ == human_duration(ms),
{
    duration_string::DurationString::from(std::time::Duration::from_millis(ms)).to_string()
}

impl ScheduleTrigger {
    /// Creates a schedule emitting every `duration_ms` milliseconds.
    pub fn new(duration_ms: u64) -> (r: Self)
        ensures
            r.duration_ms == duration_ms,
            r.timeout_ms is None,
    {
        ScheduleTrigger { duration_ms, timeout_ms: None }
    }

    /// Creates a schedule emitting every `duration_ms` milliseconds and
    /// ending after `timeout_ms` milliseconds.
    pub fn new_with_timeout(duration_ms: u64, timeout_ms: u64) -> (r: Self)
        ensures
            r.duration_ms == duration_ms,
            r.timeout_ms == Some(timeout_ms),
    {
        ScheduleTrigger { duration_ms, timeout_ms: Some(timeout_ms) }
    }

    /// The context of one periodic emission: the trigger name and the
    /// human readable delay.
    pub fn step_context(&self) -> (r: Context)
        ensures
            r.wf(),
            r@ == Map::<Seq<char>, Seq<char>>::empty().insert("TRIGGER_NAME"@, "SCHEDULE"@).insert(
                "SCHEDULE_DELAY"@,
                human_duration(self.duration_ms),
            ),
    {
        proof {
            reveal_strlit("TRIGGER_NAME");
            reveal_strlit("SCHEDULE_DELAY");
            assert("TRIGGER_NAME"@.len() == 12);
            assert("SCHEDULE_DELAY"@.len() == 14);
            assert("TRIGGER_NAME"@ != "SCHEDULE_DELAY"@);
        }
        let mut context = Context::new();
        context.insert("TRIGGER_NAME", "SCHEDULE".to_owned());
        context.insert("SCHEDULE_DELAY", format_duration(self.duration_ms));
        context
    }
}

/// Addition capped at the largest representable value.
pub open spec fn saturating_add(a: u64, b: u64) -> u64 {
    if a + b > u64::MAX {
        u64::MAX
    } else {
        (a + b) as u64
    }
}

/// Plans one periodic step taken at `now_ms`: the emission happens at the
/// start of the step, then the step sleeps until the returned time.
///
/// Without a deadline the next tick is one interval later and the loop goes
/// on; with a deadline that the next tick would overshoot, the final sleep
/// is truncated to the deadline and the loop ends there, so that the total
/// run time reaches the deadline and no tick happens after it.
pub fn step_sleep_until(now_ms: u64, duration_ms: u64, timeout_ms: Option<u64>) -> (r: (u64, bool))
    ensures
        ({
            let next = saturating_add(now_ms, duration_ms);
            match timeout_ms {
                Some(deadline) => if next > deadline {
                    r == (deadline, false)
                } else {
                    r == (next, true)
                },
                None => r == (next, true),
            }
        }),
{
    let next = if duration_ms > u64::MAX - now_ms {
        u64::MAX
    } else {
        now_ms + duration_ms
    };
    match timeout_ms {
        Some(deadline) => {
            if next > deadline {
                (deadline, false)
            } else {
                (next, true)
            }
        },
        None => (next, true),
    }
}

/// Decides, after waking at `now_ms`, whether the schedule goes on: it does
/// exactly while the deadline, if any, has not been reached.
pub fn step_should_continue(now_ms: u64, timeout_ms: Option<u64>) -> (r: bool)
    ensures
        r == (timeout_ms matches Some(deadline) ==> now_ms < deadline),
{
    match timeout_ms {
        Some(deadline) => now_ms < deadline,
        None => true,
    }
}

} // verus!
