//! Delivery states, attempt states and the retry policy.

use vstd::prelude::*;

use crate::text::same_text;
use crate::time::{add_millis, UtcTime};

verus! {

/// The largest integer that every portable client can hold exactly.
pub const MAX_SAFE_WIRE_INTEGER: i64 = 9_007_199_254_740_991;

#[derive(Debug, Clone, Copy, PartialEq, Eq, Structural)]
pub enum DeliveryStatus {
    Queued,
    Attempting,
    Accepted,
    RetryScheduled,
    Delivered,
    Failed,
    DeliveryUnknown,
}

impl DeliveryStatus {
    /// The stored name of the status.
    pub open spec fn name(self) -> Seq<char> {
        match self {
            DeliveryStatus::Queued => "queued"@,
            DeliveryStatus::Attempting => "attempting"@,
            DeliveryStatus::Accepted => "accepted"@,
            DeliveryStatus::RetryScheduled => "retry_scheduled"@,
            DeliveryStatus::Delivered => "delivered"@,
            DeliveryStatus::Failed => "failed"@,
            DeliveryStatus::DeliveryUnknown => "delivery_unknown"@,
        }
    }

    /// Whether nothing is left to be done for a delivery in this status.
    pub open spec fn terminal(self) -> bool {
        self is Delivered || self is Failed || self is DeliveryUnknown
    }

    pub fn as_str(self) -> (name: &'static str)
        ensures
            name@ == self.name(),
    {
        match self {
            DeliveryStatus::Queued => "queued",
            DeliveryStatus::Attempting => "attempting",
            DeliveryStatus::Accepted => "accepted",
            DeliveryStatus::RetryScheduled => "retry_scheduled",
            DeliveryStatus::Delivered => "delivered",
            DeliveryStatus::Failed => "failed",
            DeliveryStatus::DeliveryUnknown => "delivery_unknown",
        }
    }

    pub fn is_terminal(self) -> (r: bool)
        ensures
            r == self.terminal(),
    {
        match self {
            DeliveryStatus::Delivered
            | DeliveryStatus::Failed
            | DeliveryStatus::DeliveryUnknown => true,
            _ => false,
        }
    }

    /// The status stored under `value`, if it is the name of one.
    pub fn from_name(value: &str) -> (r: Option<DeliveryStatus>)
        ensures
            r == delivery_status_named(value@),
    {
        if same_text(value, "queued") {
            Some(DeliveryStatus::Queued)
        } else if same_text(value, "attempting") {
            Some(DeliveryStatus::Attempting)
        } else if same_text(value, "accepted") {
            Some(DeliveryStatus::Accepted)
        } else if same_text(value, "retry_scheduled") {
            Some(DeliveryStatus::RetryScheduled)
        } else if same_text(value, "delivered") {
            Some(DeliveryStatus::Delivered)
        } else if same_text(value, "failed") {
            Some(DeliveryStatus::Failed)
        } else if same_text(value, "delivery_unknown") {
            Some(DeliveryStatus::DeliveryUnknown)
        } else {
            None
        }
    }
}

impl std::str::FromStr for DeliveryStatus {
    type Err = &'static str;

    fn from_str(value: &str) -> (r: Result<Self, Self::Err>)
        ensures
            match delivery_status_named(value@) {
                Some(status) => r == Ok::<DeliveryStatus, &'static str>(status),
                None => r matches Err(message) && message@ == "unknown delivery status"@,
            },
            r is Ok ==> r->Ok_0.name() == value@,
            value@ == "queued"@ ==> r == Ok::<Self, Self::Err>(DeliveryStatus::Queued),
            value@ == "attempting"@ ==> r == Ok::<Self, Self::Err>(DeliveryStatus::Attempting),
            value@ == "accepted"@ ==> r == Ok::<Self, Self::Err>(DeliveryStatus::Accepted),
            value@ == "retry_scheduled"@ ==> r == Ok::<Self, Self::Err>(
                DeliveryStatus::RetryScheduled,
            ),
            value@ == "delivered"@ ==> r == Ok::<Self, Self::Err>(DeliveryStatus::Delivered),
            value@ == "failed"@ ==> r == Ok::<Self, Self::Err>(DeliveryStatus::Failed),
            value@ == "delivery_unknown"@ ==> r == Ok::<Self, Self::Err>(
                DeliveryStatus::DeliveryUnknown,
            ),
    {
        proof {
            reveal_strlit("queued");
            reveal_strlit("attempting");
            reveal_strlit("accepted");
            reveal_strlit("retry_scheduled");
            reveal_strlit("delivered");
            reveal_strlit("failed");
            reveal_strlit("delivery_unknown");
            assert("queued"@.len() == 6 && "queued"@[0] == 'q');
            assert("attempting"@.len() == 10);
            assert("accepted"@.len() == 8);
            assert("retry_scheduled"@.len() == 15);
            assert("delivered"@.len() == 9);
            assert("failed"@.len() == 6 && "failed"@[0] == 'f');
            assert("delivery_unknown"@.len() == 16);
        }
        match DeliveryStatus::from_name(value) {
            Some(status) => Ok(status),
            None => Err("unknown delivery status"),
        }
    }
}

/// The status stored under `name`, if it is the name of one.
pub open spec fn delivery_status_named(name: Seq<char>) -> Option<DeliveryStatus> {
    if name == "queued"@ {
        Some(DeliveryStatus::Queued)
    } else if name == "attempting"@ {
        Some(DeliveryStatus::Attempting)
    } else if name == "accepted"@ {
        Some(DeliveryStatus::Accepted)
    } else if name == "retry_scheduled"@ {
        Some(DeliveryStatus::RetryScheduled)
    } else if name == "delivered"@ {
        Some(DeliveryStatus::Delivered)
    } else if name == "failed"@ {
        Some(DeliveryStatus::Failed)
    } else if name == "delivery_unknown"@ {
        Some(DeliveryStatus::DeliveryUnknown)
    } else {
        None
    }
}

/// The names of the delivery statuses are pairwise different.
pub proof fn lemma_status_names_differ()
    ensures
        forall|a: DeliveryStatus, b: DeliveryStatus| #[trigger] a.name() == #[trigger] b.name() ==> a == b,
{
    reveal_strlit("queued");
    reveal_strlit("attempting");
    reveal_strlit("accepted");
    reveal_strlit("retry_scheduled");
    reveal_strlit("delivered");
    reveal_strlit("failed");
    reveal_strlit("delivery_unknown");
    assert forall|a: DeliveryStatus, b: DeliveryStatus|
        #[trigger] a.name() == #[trigger] b.name() implies a == b by {
        assert("attempting"@[1] == 't' && "delivered"@[1] == 'e' && "accepted"@[1] == 'c');
        assert(a.name().len() == b.name().len());
        assert(a.name()[0] == b.name()[0]);
    }
}

/// The name of an ambiguous delivery is none of the other names.
pub proof fn lemma_unknown_name_differs()
    ensures
        "delivery_unknown"@ != "queued"@,
        "delivery_unknown"@ != "attempting"@,
        "delivery_unknown"@ != "accepted"@,
        "delivery_unknown"@ != "retry_scheduled"@,
        "delivery_unknown"@ != "delivered"@,
        "delivery_unknown"@ != "failed"@,
{
    lemma_status_names_differ();
    let name = DeliveryStatus::DeliveryUnknown.name();
    assert(name != DeliveryStatus::Queued.name());
    assert(name != DeliveryStatus::Attempting.name());
    assert(name != DeliveryStatus::Accepted.name());
    assert(name != DeliveryStatus::RetryScheduled.name());
    assert(name != DeliveryStatus::Delivered.name());
    assert(name != DeliveryStatus::Failed.name());
}

/// A status is found again under its own name, and every name that is found
/// is the name of what was found.
pub proof fn law_status_name_round_trip(status: DeliveryStatus, name: Seq<char>)
    ensures
        delivery_status_named(status.name()) == Some(status),
        delivery_status_named(name) matches Some(found) ==> found.name() == name,
{
    lemma_status_names_differ();
    assert(DeliveryStatus::Queued.name() == "queued"@);
    assert(DeliveryStatus::Attempting.name() == "attempting"@);
    assert(DeliveryStatus::Accepted.name() == "accepted"@);
    assert(DeliveryStatus::RetryScheduled.name() == "retry_scheduled"@);
    assert(DeliveryStatus::Delivered.name() == "delivered"@);
    assert(DeliveryStatus::Failed.name() == "failed"@);
    assert(DeliveryStatus::DeliveryUnknown.name() == "delivery_unknown"@);
}

#[derive(Debug, Clone, Copy, PartialEq, Eq, Structural)]
pub enum AttemptStatus {
    Dispatching,
    Accepted,
    TemporaryFailure,
    PermanentFailure,
    DeliveryUnknown,
}

impl AttemptStatus {
    /// The stored name of the status.
    pub open spec fn name(self) -> Seq<char> {
        match self {
            AttemptStatus::Dispatching => "dispatching"@,
            AttemptStatus::Accepted => "accepted"@,
            AttemptStatus::TemporaryFailure => "temporary_failure"@,
            AttemptStatus::PermanentFailure => "permanent_failure"@,
            AttemptStatus::DeliveryUnknown => "delivery_unknown"@,
        }
    }

    pub fn as_str(self) -> (name: &'static str)
        ensures
            name@ == self.name(),
    {
        match self {
            AttemptStatus::Dispatching => "dispatching",
            AttemptStatus::Accepted => "accepted",
            AttemptStatus::TemporaryFailure => "temporary_failure",
            AttemptStatus::PermanentFailure => "permanent_failure",
            AttemptStatus::DeliveryUnknown => "delivery_unknown",
        }
    }
}

#[derive(Debug, Clone, Copy, PartialEq, Eq, Structural)]
pub enum RetryKind {
    Automatic,
    Manual,
}

impl RetryKind {
    /// The stored name of the kind.
    pub open spec fn name(self) -> Seq<char> {
        match self {
            RetryKind::Automatic => "automatic"@,
            RetryKind::Manual => "manual"@,
        }
    }

    pub fn as_str(self) -> (name: &'static str)
        ensures
            name@ == self.name(),
    {
        match self {
            RetryKind::Automatic => "automatic",
            RetryKind::Manual => "manual",
        }
    }
}

/// When a temporarily failed attempt is tried again.
#[derive(Debug, Clone, PartialEq, Eq)]
pub struct RetryPolicy {
    pub max_attempts: i32,
    pub delays_seconds: Vec<i64>,
}

/// The delays between attempts of the default policy.
pub open spec fn default_delays() -> Seq<i64> {
    seq![60i64, 300i64, 1_800i64]
}

impl Default for RetryPolicy {
    fn default() -> (policy: Self)
        ensures
            policy.max_attempts == 4,
            policy.delays_seconds@ == default_delays(),
    {
        RetryPolicy::with_max_attempts(4)
    }
}

impl RetryPolicy {
    /// The default delays under the given bound on attempts.
    pub fn with_max_attempts(max_attempts: i32) -> (policy: Self)
        ensures
            policy.max_attempts == max_attempts,
            policy.delays_seconds@ == default_delays(),
    {
        let delays_seconds: Vec<i64> = vec![60, 300, 1_800];
        assert(delays_seconds@ =~= default_delays());
        RetryPolicy { max_attempts, delays_seconds }
    }

    /// The delay in seconds after attempt number `completed_attempt`, if
    /// another attempt is allowed. Attempts are numbered from one.
    pub open spec fn delay_after(self, completed_attempt: i32) -> Option<i64> {
        let index = completed_attempt - 1;
        if completed_attempt >= self.max_attempts || index < 0 || index
            >= self.delays_seconds@.len() {
            None
        } else {
            Some(self.delays_seconds@[index])
        }
    }

    /// When the next attempt is due after attempt number `completed_attempt`
    /// ended at `now`.
    pub open spec fn next_after(self, completed_attempt: i32, now: UtcTime) -> Option<UtcTime> {
        match self.delay_after(completed_attempt) {
            Some(seconds) => Some(now.plus_millis(seconds * 1_000)),
            None => None,
        }
    }

    pub(crate) fn delay(&self, completed_attempt: i32) -> (seconds: Option<i64>)
        ensures
            seconds == self.delay_after(completed_attempt),
    {
        if completed_attempt >= self.max_attempts || completed_attempt < 1 {
            return None;
        }
        let index: usize = (completed_attempt - 1) as usize;
        if index >= self.delays_seconds.len() {
            return None;
        }
        Some(self.delays_seconds[index])
    }

    /// When the next attempt is due, if another one is allowed.
    pub fn next_at(&self, completed_attempt: i32, now: UtcTime) -> (next: Option<UtcTime>)
        requires
            now.valid(),
            self.delay_after(completed_attempt) matches Some(seconds) ==> i64::MIN < seconds * 1_000
                <= i64::MAX && now.has_plus_millis(seconds * 1_000),
        ensures
            next == self.next_after(completed_attempt, now),
            next matches Some(at) ==> at.valid(),
    {
        match self.delay(completed_attempt) {
            Some(seconds) => Some(add_millis(now, seconds * 1_000)),
            None => None,
        }
    }
}

/// Which status may follow which.
pub open spec fn follows(from: DeliveryStatus, to: DeliveryStatus) -> bool {
    match from {
        DeliveryStatus::Queued | DeliveryStatus::RetryScheduled => to is Attempting,
        DeliveryStatus::Attempting => to is Accepted || to is Delivered || to is RetryScheduled
            || to is Failed || to is DeliveryUnknown,
        DeliveryStatus::Accepted => to is Delivered || to is RetryScheduled || to is Failed
            || to is DeliveryUnknown,
        DeliveryStatus::Failed => to is RetryScheduled,
        DeliveryStatus::Delivered | DeliveryStatus::DeliveryUnknown => false,
    }
}

/// Whether a delivery may go from one status to another.
pub fn can_transition(from: DeliveryStatus, to: DeliveryStatus) -> (r: bool)
    ensures
        r == follows(from, to),
{
    match from {
        DeliveryStatus::Queued | DeliveryStatus::RetryScheduled => match to {
            DeliveryStatus::Attempting => true,
            _ => false,
        },
        DeliveryStatus::Attempting => match to {
            DeliveryStatus::Accepted
            | DeliveryStatus::Delivered
            | DeliveryStatus::RetryScheduled
            | DeliveryStatus::Failed
            | DeliveryStatus::DeliveryUnknown => true,
            _ => false,
        },
        DeliveryStatus::Accepted => match to {
            DeliveryStatus::Delivered
            | DeliveryStatus::RetryScheduled
            | DeliveryStatus::Failed
            | DeliveryStatus::DeliveryUnknown => true,
            _ => false,
        },
        DeliveryStatus::Failed => match to {
            DeliveryStatus::RetryScheduled => true,
            _ => false,
        },
        DeliveryStatus::Delivered | DeliveryStatus::DeliveryUnknown => false,
    }
}

/// A path through the delivery statuses along allowed transitions.
pub open spec fn status_path(path: Seq<DeliveryStatus>) -> bool {
    forall|i: int| 0 <= i < path.len() - 1 ==> follows(#[trigger] path[i], path[i + 1])
}

/// Delivered and ambiguous deliveries are final: no path goes on from them.
pub proof fn law_delivered_and_unknown_are_final(path: Seq<DeliveryStatus>, at: int)
    requires
        status_path(path),
        0 <= at < path.len(),
        path[at] is Delivered || path[at] is DeliveryUnknown,
    ensures
        at == path.len() - 1,
{
    if at < path.len() - 1 {
        assert(follows(path[at], path[at + 1]));
    }
}

/// No delivery returns to the queue, and none is delivered without an attempt
/// or an acceptance before it.
pub proof fn law_no_regression(from: DeliveryStatus, to: DeliveryStatus)
    requires
        follows(from, to),
    ensures
        to !is Queued,
        to is Delivered ==> from is Attempting || from is Accepted,
        to is Accepted ==> from is Attempting,
        from is Accepted ==> to !is Attempting,
{
}

/// The policy never schedules an attempt past its bound, and with the default
/// delays every scheduled attempt lies in the future.
pub proof fn law_retry_policy_is_bounded(policy: RetryPolicy, completed: i32, now: UtcTime)
    requires
        now.valid(),
        policy.delays_seconds@ == default_delays(),
        policy.delay_after(completed) matches Some(seconds) ==> now.has_plus_millis(
            seconds * 1_000,
        ),
    ensures
        policy.next_after(completed, now) matches Some(at) ==> {
            &&& 1 <= completed < policy.max_attempts
            &&& completed <= 3
            &&& now.before(at)
        },
        completed >= policy.max_attempts ==> policy.next_after(completed, now) is None,
{
    if let Some(seconds) = policy.delay_after(completed) {
        crate::time::lemma_plus_millis_is_later(now, seconds * 1_000);
    }
}

} // verus!
