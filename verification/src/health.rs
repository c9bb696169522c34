//! The health of one backend as a mathematical model: the record, the
//! effective routing weight derived from it, and the transitions that a
//! success and a failure cause.
//!
//! Every instant is a number of nanoseconds on one monotonic clock; the
//! executable types elsewhere are proved against the functions of this file.

use vstd::prelude::*;
use crate::error::Error;

verus! {

/// Nanoseconds in one second.
pub const SECOND: u64 = 1_000_000_000;

/// Failures that come within this long of the first failure of a streak do
/// not escalate the status.
pub const DEBOUNCE_WINDOW: u64 = 1_000_000_000;

/// How long a backend is left alone after an escalation while retrying.
pub const RETRY_DELAY: u64 = 1_000_000_000;

/// How long a backend is blocked when its retries are used up.
pub const FIRST_BLOCK_DELAY: u64 = 3_000_000_000;

/// How long a backend is blocked when it fails at block level one.
pub const SECOND_BLOCK_DELAY: u64 = 60_000_000_000;

/// How long a backend is blocked when it fails at block level two.
pub const THIRD_BLOCK_DELAY: u64 = 300_000_000_000;

/// How long a backend is blocked each time it fails at the highest level.
pub const CEILING_BLOCK_DELAY: u64 = 3_600_000_000_000;

/// The retries granted when a ready backend starts failing.
pub const RETRY_ATTEMPTS: u32 = 3;

/// The highest block level.
pub const BLOCK_CEILING: u32 = 3;

/// A run of successes longer than this restores full trust.
pub const TRUSTED_SUCCESS_RUN: u64 = 3;

/// Below this many calls the success rate is not consulted.
pub const RATED_SAMPLE: u64 = 100;

/// The latest instant at which a failure can be recorded: every backoff
/// window that starts no later than this ends within the clock's range.
pub const LAST_INSTANT: u64 = 0xffff_ffff_ffff_ffff - 3_600_000_000_000;

/// Where a backend stands in its failure streak.
pub enum Status {
    /// Eligible, and not known to be failing.
    Ready,
    /// Failing; excluded until `retry_after`, with `attempts_left`
    /// escalations to go before it is blocked.
    Retrying { attempts_left: nat, retry_after: int },
    /// Blocked at `level` until `blocked_until`.
    Blocked { level: nat, blocked_until: int },
}

/// The health record of one backend.
pub struct HealthState {
    /// The place in the failure streak.
    pub status: Status,
    /// The most recent failure, if the last call failed.
    pub last_error: Option<Error>,
    /// When the current unresolved failure streak began.
    pub last_error_time: Option<int>,
    /// All calls made.
    pub total_calls: nat,
    /// The calls that succeeded.
    pub successful_calls: nat,
    /// The successes since the last failure.
    pub consecutive_successes: nat,
}

/// A backend as the dispatcher knows it: the weight fixed at registration
/// and the health record.
pub struct BackendState {
    /// The weight from the catalog.
    pub static_weight: nat,
    /// The health record.
    pub health: HealthState,
}

/// The record of a backend that has not been called yet.
pub open spec fn fresh() -> HealthState {
    HealthState {
        status: Status::Ready,
        last_error: None,
        last_error_time: None,
        total_calls: 0,
        successful_calls: 0,
        consecutive_successes: 0,
    }
}

/// A backend right after registration with the given weight.
pub open spec fn registered(static_weight: nat) -> BackendState {
    BackendState { static_weight, health: fresh() }
}

/// The statuses that the transitions produce: one to three retries left,
/// or a block level from one to three.
pub open spec fn status_in_range(status: Status) -> bool {
    match status {
        Status::Ready => true,
        Status::Retrying { attempts_left, .. } => 1 <= attempts_left <= RETRY_ATTEMPTS,
        Status::Blocked { level, .. } => 1 <= level <= BLOCK_CEILING,
    }
}

/// What holds of every record that the transitions can reach from `fresh`.
pub open spec fn well_formed(health: HealthState) -> bool {
    &&& status_in_range(health.status)
    &&& health.consecutive_successes <= health.successful_calls <= health.total_calls
    &&& health.last_error.is_some() == health.last_error_time.is_some()
    &&& health.status != Status::Ready ==> health.last_error_time.is_some()
    &&& health.consecutive_successes > 0 ==> health.last_error_time.is_none()
}

/// The instant at which the backoff window of the status ends; zero for a
/// ready backend.
pub open spec fn window_end(status: Status) -> int {
    match status {
        Status::Ready => 0,
        Status::Retrying { retry_after, .. } => retry_after,
        Status::Blocked { blocked_until, .. } => blocked_until,
    }
}

/// Whether the backend is inside a backoff window at `now`.
pub open spec fn backing_off(status: Status, now: int) -> bool {
    status != Status::Ready && now < window_end(status)
}

/// How long from `now` until the backoff window of the status has passed.
pub open spec fn remaining_delay(status: Status, now: int) -> int {
    if backing_off(status, now) {
        window_end(status) - now
    } else {
        0
    }
}

/// The static weight scaled by the success rate, rounded to the nearest
/// integer, halves upwards.
pub open spec fn rated_weight(successful_calls: nat, total_calls: nat, static_weight: nat) -> nat
    recommends
        total_calls > 0,
{
    let product = successful_calls * static_weight;
    if 2 * (product % total_calls) >= total_calls {
        product / total_calls + 1
    } else {
        product / total_calls
    }
}

/// The routing weight of a backend at `now`: nothing inside a backoff
/// window, the static weight otherwise.
pub open spec fn effective_weight(health: HealthState, static_weight: nat, now: int) -> nat {
    if backing_off(health.status, now) {
        0
    } else {
        static_weight
    }
}

/// The routing weight as the policy derives it, step by step: nothing
/// inside a backoff window; the static weight after a long enough run of
/// successes or on a small sample; else the larger of the static weight and
/// the weight scaled by the success rate.
pub open spec fn policy_weight(health: HealthState, static_weight: nat, now: int) -> nat {
    if backing_off(health.status, now) {
        0
    } else if health.consecutive_successes > TRUSTED_SUCCESS_RUN {
        static_weight
    } else if health.total_calls < RATED_SAMPLE {
        static_weight
    } else {
        let rated = rated_weight(health.successful_calls, health.total_calls, static_weight);
        if rated > static_weight {
            rated
        } else {
            static_weight
        }
    }
}

/// The status after one escalation at `now`.
pub open spec fn escalate(status: Status, now: int) -> Status {
    match status {
        Status::Ready => Status::Retrying {
            attempts_left: RETRY_ATTEMPTS as nat,
            retry_after: now + RETRY_DELAY,
        },
        Status::Retrying { attempts_left, .. } => if attempts_left > 1 {
            Status::Retrying {
                attempts_left: (attempts_left - 1) as nat,
                retry_after: now + RETRY_DELAY,
            }
        } else if attempts_left == 1 {
            Status::Blocked { level: 1, blocked_until: now + FIRST_BLOCK_DELAY }
        } else {
            Status::Blocked { level: BLOCK_CEILING as nat, blocked_until: now + CEILING_BLOCK_DELAY }
        },
        Status::Blocked { level, .. } => if level == 1 {
            Status::Blocked { level: 2, blocked_until: now + SECOND_BLOCK_DELAY }
        } else if level == 2 {
            Status::Blocked { level: 3, blocked_until: now + THIRD_BLOCK_DELAY }
        } else {
            Status::Blocked { level: BLOCK_CEILING as nat, blocked_until: now + CEILING_BLOCK_DELAY }
        },
    }
}

/// Whether a failure at `now` escalates: the streak must have begun, more
/// than the debounce window ago.
pub open spec fn escalates(health: HealthState, now: int) -> bool {
    match health.last_error_time {
        Some(began) => now - began > DEBOUNCE_WINDOW,
        None => false,
    }
}

/// The record after a call that succeeded.
pub open spec fn after_success(health: HealthState) -> HealthState {
    HealthState {
        status: Status::Ready,
        last_error: None,
        last_error_time: None,
        total_calls: health.total_calls + 1,
        successful_calls: health.successful_calls + 1,
        consecutive_successes: health.consecutive_successes + 1,
    }
}

/// The record after a call that failed with `error` at `now`.
pub open spec fn after_failure(health: HealthState, error: Error, now: int) -> HealthState {
    HealthState {
        status: if escalates(health, now) {
            escalate(health.status, now)
        } else {
            health.status
        },
        last_error: Some(error),
        last_error_time: match health.last_error_time {
            Some(began) => Some(began),
            None => Some(now),
        },
        total_calls: health.total_calls + 1,
        successful_calls: health.successful_calls,
        consecutive_successes: 0,
    }
}

/// The record after a call with the given outcome, observed at `now`.
pub open spec fn after_call<R>(health: HealthState, outcome: Result<R, Error>, now: int) -> HealthState {
    match outcome {
        Ok(_) => after_success(health),
        Err(error) => after_failure(health, error, now),
    }
}

/// How far along the failure streak a status is: zero when ready, one to
/// three while retrying, four to six when blocked.
pub open spec fn severity(status: Status) -> nat {
    match status {
        Status::Ready => 0,
        Status::Retrying { attempts_left, .. } => (4 - attempts_left) as nat,
        Status::Blocked { level, .. } => 3 + level,
    }
}

/// The length of the window that an escalation to the given severity opens.
pub open spec fn window_at(severity: nat) -> int {
    if severity <= 3 {
        RETRY_DELAY as int
    } else if severity == 4 {
        FIRST_BLOCK_DELAY as int
    } else if severity == 5 {
        SECOND_BLOCK_DELAY as int
    } else {
        THIRD_BLOCK_DELAY as int
    }
}

/// Both transitions keep a record well formed.
pub proof fn lemma_transitions_keep_well_formed(health: HealthState, error: Error, now: int)
    requires
        well_formed(health),
    ensures
        well_formed(fresh()),
        well_formed(after_success(health)),
        well_formed(after_failure(health, error, now)),
{
}

/// The success rate never raises a weight: with no more successes than
/// calls, the rated weight is at most the static weight.
pub proof fn lemma_rated_weight_is_bounded(successful_calls: nat, total_calls: nat, static_weight: nat)
    requires
        0 < total_calls,
        successful_calls <= total_calls,
    ensures
        rated_weight(successful_calls, total_calls, static_weight) <= static_weight,
{
    let product = successful_calls * static_weight;
    let quotient = product / total_calls;
    let rest = product % total_calls;
    assert(product == total_calls * quotient + rest && 0 <= rest < total_calls) by {
        vstd::arithmetic::div_mod::lemma_fundamental_div_mod(product as int, total_calls as int);
        vstd::arithmetic::div_mod::lemma_mod_bound(product as int, total_calls as int);
    }
    assert(product <= total_calls * static_weight) by (nonlinear_arith)
        requires
            product == successful_calls * static_weight,
            successful_calls <= total_calls,
    ;
    assert(quotient <= static_weight && (quotient == static_weight ==> rest == 0)) by (nonlinear_arith)
        requires
            total_calls * quotient + rest <= total_calls * static_weight,
            0 <= rest < total_calls,
    ;
}

/// The policy never applies a penalty: outside a backoff window the routing
/// weight is the static weight, whatever the success rate.
pub proof fn lemma_policy_weight_is_effective_weight(health: HealthState, static_weight: nat, now: int)
    requires
        well_formed(health),
    ensures
        policy_weight(health, static_weight, now) == effective_weight(health, static_weight, now),
{
    if health.total_calls >= RATED_SAMPLE {
        lemma_rated_weight_is_bounded(health.successful_calls, health.total_calls, static_weight);
    }
}

/// One success resets the record from any state: the status is `Ready`,
/// the last error and the start of the streak are cleared, and the run of
/// successes is one longer.
pub proof fn lemma_success_resets(health: HealthState)
    ensures
        after_success(health).status == Status::Ready,
        after_success(health).last_error.is_none(),
        after_success(health).last_error_time.is_none(),
        after_success(health).consecutive_successes == health.consecutive_successes + 1,
        after_success(health).successful_calls == health.successful_calls + 1,
        after_success(health).total_calls == health.total_calls + 1,
        forall|static_weight: nat, now: int|
            effective_weight(after_success(health), static_weight, now) == static_weight,
{
}

/// A failure that opens a streak, or that comes within the debounce window
/// of the streak's first failure, leaves the status as it was.
pub proof fn lemma_debounce_holds_status(health: HealthState, error: Error, now: int)
    requires
        match health.last_error_time {
            Some(began) => now - began <= DEBOUNCE_WINDOW,
            None => true,
        },
    ensures
        after_failure(health, error, now).status == health.status,
{
}

/// Two failures in a row, from a backend that has not failed since its
/// last success, cause no transition if the second comes within the
/// debounce window of the first.
pub proof fn lemma_rapid_failures_hold_status(
    health: HealthState,
    first: Error,
    second: Error,
    now: int,
    later: int,
)
    requires
        health.last_error_time.is_none(),
        now <= later <= now + DEBOUNCE_WINDOW,
    ensures
        ({
            let once = after_failure(health, first, now);
            let twice = after_failure(once, second, later);
            &&& once.status == health.status
            &&& twice.status == health.status
            &&& twice.last_error_time == Some(now)
        }),
{
}

/// Two failures of a ready backend whose streak began more than the
/// debounce window ago: the first takes it from `Ready` to three retries
/// left, the second takes it on to two, so `Ready` is left once and not
/// twice.
pub proof fn lemma_ready_is_left_once(
    health: HealthState,
    first: Error,
    second: Error,
    now: int,
    later: int,
)
    requires
        health.status == Status::Ready,
        escalates(health, now),
        now <= later,
    ensures
        ({
            let once = after_failure(health, first, now);
            let twice = after_failure(once, second, later);
            &&& once.status == Status::Retrying { attempts_left: 3, retry_after: now + RETRY_DELAY }
            &&& twice.status == Status::Retrying { attempts_left: 2, retry_after: later + RETRY_DELAY }
        }),
{
}

/// Within a streak a failure moves the status forward by at most one step
/// and never back: past the debounce window by exactly one step, up to the
/// highest block level, where it stays.
pub proof fn lemma_failure_steps_forward(health: HealthState, error: Error, now: int)
    requires
        status_in_range(health.status),
    ensures
        status_in_range(after_failure(health, error, now).status),
        severity(after_failure(health, error, now).status) == if !escalates(health, now) {
            severity(health.status)
        } else if severity(health.status) < 6 {
            severity(health.status) + 1
        } else {
            6
        },
        escalates(health, now) ==> window_end(after_failure(health, error, now).status) == now + (
        if severity(health.status) < 6 {
            window_at(severity(health.status) + 1)
        } else {
            CEILING_BLOCK_DELAY as int
        }),
{
}

/// The status of a backend that fails at each of the given instants in
/// turn, starting from `health`.
pub open spec fn after_failures(health: HealthState, error: Error, instants: Seq<int>) -> HealthState
    decreases instants.len(),
{
    if instants.len() == 0 {
        health
    } else {
        after_failure(after_failures(health, error, instants.drop_last()), error, instants.last())
    }
}

/// The whole escalation path. A ready backend whose streak begins at
/// `began`, and which then fails at instants that are each more than the
/// debounce window after `began`, has after its `n`-th such failure three
/// retries left, then two, then one, is then blocked at level one, two and
/// three, and stays at level three. The windows it opens are one second
/// three times, then three seconds, sixty seconds, three hundred seconds,
/// and from then on an hour each.
pub proof fn lemma_full_escalation_path(health: HealthState, error: Error, began: int, instants: Seq<int>)
    requires
        health.status == Status::Ready,
        health.last_error_time.is_none(),
        instants.len() > 0,
        forall|i: int| 0 <= i < instants.len() ==> instants[i] - began > DEBOUNCE_WINDOW,
    ensures
        ({
            let start = after_failure(health, error, began);
            let end = after_failures(start, error, instants);
            let n = instants.len();
            let at = instants.last();
            &&& start.status == Status::Ready
            &&& end.last_error_time == Some(began)
            &&& end.status == if n == 1 {
                Status::Retrying { attempts_left: 3, retry_after: at + SECOND }
            } else if n == 2 {
                Status::Retrying { attempts_left: 2, retry_after: at + SECOND }
            } else if n == 3 {
                Status::Retrying { attempts_left: 1, retry_after: at + SECOND }
            } else if n == 4 {
                Status::Blocked { level: 1, blocked_until: at + 3 * SECOND }
            } else if n == 5 {
                Status::Blocked { level: 2, blocked_until: at + 60 * SECOND }
            } else if n == 6 {
                Status::Blocked { level: 3, blocked_until: at + 300 * SECOND }
            } else {
                Status::Blocked { level: 3, blocked_until: at + 3600 * SECOND }
            }
        }),
    decreases instants.len(),
{
    let start = after_failure(health, error, began);
    if instants.len() > 1 {
        let earlier = instants.drop_last();
        lemma_full_escalation_path(health, error, began, earlier);
    } else {
        assert(after_failures(start, error, instants.drop_last()) == start);
    }
}

/// The longest remaining backoff window over the given backends at `now`;
/// zero where none is backing off.
pub open spec fn longest_delay(backends: Seq<BackendState>, now: int) -> int
    decreases backends.len(),
{
    if backends.len() == 0 {
        0
    } else {
        let before = longest_delay(backends.drop_last(), now);
        let own = remaining_delay(backends.last().health.status, now);
        if own > before {
            own
        } else {
            before
        }
    }
}

/// The longest delay is a delay of one of the backends, or zero, and no
/// backend has a longer one.
pub proof fn lemma_longest_delay(backends: Seq<BackendState>, now: int)
    ensures
        0 <= longest_delay(backends, now),
        forall|at: int|
            0 <= at < backends.len() ==> remaining_delay(
                (#[trigger] backends[at]).health.status,
                now,
            ) <= longest_delay(backends, now),
        longest_delay(backends, now) == 0 || exists|at: int|
            0 <= at < backends.len() && remaining_delay(
                (#[trigger] backends[at]).health.status,
                now,
            ) == longest_delay(backends, now),
    decreases backends.len(),
{
    if backends.len() > 0 {
        let front = backends.drop_last();
        lemma_longest_delay(front, now);
        let longest = longest_delay(backends, now);
        assert forall|at: int| 0 <= at < backends.len() implies remaining_delay(
            (#[trigger] backends[at]).health.status,
            now,
        ) <= longest by {
            if at < front.len() {
                assert(backends[at] == front[at]);
            }
        }
    }
}

} // verus!
