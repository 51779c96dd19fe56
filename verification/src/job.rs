//! The job record: identity, payload, schedule time, and retry bookkeeping.
//!
//! A `Job` is a plain single-owner value. Three mutators drive it:
//! `perform_in` shifts the schedule time, `change_status` overwrites the
//! status label, and `retry` applies the retry/backoff transition, marking
//! the job dead once its retry budget is exhausted.

use vstd::arithmetic::power2::lemma2_to64;
use vstd::arithmetic::power2::lemma2_to64_rest;
use vstd::arithmetic::power2::lemma_pow2_pos;
use vstd::arithmetic::power2::lemma_pow2_strictly_increases;
use vstd::arithmetic::power2::lemma_pow2_unfold;
use vstd::arithmetic::power2::pow2;
use vstd::prelude::*;

use crate::sat_add_i64;
use crate::saturating_add_i64;

verus! {

/// Retry budget of a freshly created job.
pub const DEFAULT_MAX_TRIES: u32 = 10;

/// Microseconds in one second.
pub const MICROS_PER_SECOND: i64 = 1_000_000;

/// Upper bound on clock readings, in microseconds since the Unix epoch.
/// chrono's latest representable instant (end of year 262142) lies at about
/// 8.21e18 microseconds, below this bound.
pub const CLOCK_MAX_MICROS: i64 = 8_400_000_000_000_000_000;

/// The values the UTC clock can hand out: `Utc::now` aborts on a system time
/// before the Unix epoch, and chrono cannot represent an instant past
/// `CLOCK_MAX_MICROS`.
pub open spec fn clock_reading(t: int) -> bool {
    0 <= t <= CLOCK_MAX_MICROS as int
}

/// A unit of deferred work: an identifier, a status label, a caller-supplied
/// payload, the earliest eligible execution time (microseconds since the
/// Unix epoch, UTC), and retry bookkeeping.
pub struct Job<T> {
    pub id: String,
    pub status: String,
    pub data: T,
    pub perform_at: i64,
    pub tries: u32,
    pub max_tries: u32,
}

/// The mathematical model of a job record.
pub struct JobView<T> {
    pub id: Seq<char>,
    pub status: Seq<char>,
    pub data: T,
    pub perform_at: int,
    pub tries: int,
    pub max_tries: int,
}

impl<T> View for Job<T> {
    type V = JobView<T>;

    open spec fn view(&self) -> JobView<T> {
        JobView {
            id: self.id@,
            status: self.status@,
            data: self.data,
            perform_at: self.perform_at as int,
            tries: self.tries as int,
            max_tries: self.max_tries as int,
        }
    }
}

/// The backoff delay of the `k`-th retry, in microseconds: `2^k` seconds,
/// saturated to the `i64` range.
pub open spec fn backoff_micros(k: nat) -> int {
    if pow2(k) * (MICROS_PER_SECOND as int) <= i64::MAX {
        pow2(k) * (MICROS_PER_SECOND as int)
    } else {
        i64::MAX as int
    }
}

impl<T> JobView<T> {
    /// Well-formedness: the try counter never exceeds the retry budget.
    pub open spec fn wf(self) -> bool {
        0 <= self.tries <= self.max_tries
    }

    /// The record produced by one retry observed at clock reading `now`:
    /// a job whose budget is exhausted is marked dead and left otherwise
    /// untouched; any other job is rescheduled to `now` plus the backoff of
    /// its new try count.
    pub open spec fn retried(self, now: i64) -> JobView<T> {
        if self.tries == self.max_tries {
            JobView { status: "dead"@, ..self }
        } else {
            JobView {
                status: "scheduled"@,
                perform_at: sat_add_i64(now as int, backoff_micros((self.tries + 1) as nat)),
                tries: self.tries + 1,
                ..self
            }
        }
    }

    /// The record produced by one retry per clock reading in `nows`, applied
    /// in order.
    pub open spec fn retried_all(self, nows: Seq<i64>) -> JobView<T>
        decreases nows.len(),
    {
        if nows.len() == 0 {
            self
        } else {
            self.retried(nows[0]).retried_all(nows.drop_first())
        }
    }
}

/// Relies on uuid's `Uuid::new_v4` and its `Display` impl: a fresh random
/// version-4 identifier, rendered in the hyphenated form, which is exactly
/// 36 characters long.
#[verifier::external_body]
fn fresh_id() -> (r: String)
    ensures
        r@.len() == 36,
{
    uuid::Uuid::new_v4().to_string()
}

/// Relies on chrono's `Utc::now` and `DateTime::timestamp_micros`: the
/// current UTC time in microseconds since the Unix epoch. `Utc::now` aborts
/// on a system time before the epoch, so a reading is nonnegative, and no
/// chrono instant lies past `CLOCK_MAX_MICROS`.
#[verifier::external_body]
fn clock_now_micros() -> (r: i64)
    ensures
        clock_reading(r as int),
{
    chrono::Utc::now().timestamp_micros()
}

/// The backoff delay of the `k`-th retry, in microseconds: `2^k` seconds,
/// saturated to the `i64` range.
fn backoff_delay_micros(k: u32) -> (r: i64)
    ensures
        r as int == backoff_micros(k as nat),
{
    if k <= 43 {
        proof {
            lemma2_to64();
        }
        let mut p: i64 = 1;
        let mut i: u32 = 0;
        while i < k
            invariant
                i <= k <= 43,
                p as int == pow2(i as nat),
            decreases k - i,
        {
            proof {
                lemma_pow2_unfold((i + 1) as nat);
                lemma2_to64_rest();
                if i + 1 < 43 {
                    lemma_pow2_strictly_increases((i + 1) as nat, 43);
                }
            }
            p = 2 * p;
            i = i + 1;
        }
        proof {
            lemma2_to64_rest();
            if k < 43 {
                lemma_pow2_strictly_increases(k as nat, 43);
            }
        }
        p * MICROS_PER_SECOND
    } else {
        proof {
            lemma2_to64_rest();
            if k > 44 {
                lemma_pow2_strictly_increases(44, k as nat);
            }
        }
        i64::MAX
    }
}

impl<T> Job<T> {
    /// Creates a job around the given payload: a fresh unique identifier,
    /// the `draft` status, the current time as the schedule time, no tries
    /// so far, and the default retry budget. Always succeeds.
    pub fn new(data: T) -> (job: Job<T>)
        ensures
            job@.tries == 0,
            job@.max_tries == DEFAULT_MAX_TRIES as int,
            job@.status == "draft"@,
            job@.data == data,
            job@.id.len() == 36,
            clock_reading(job@.perform_at),
            job@.wf(),
    {
        Job {
            id: fresh_id(),
            status: "draft".to_owned(),
            data,
            perform_at: clock_now_micros(),
            tries: 0,
            max_tries: DEFAULT_MAX_TRIES,
        }
    }

    /// Shifts the schedule time by the given signed delay, in microseconds.
    /// A negative delay moves the time earlier; the result saturates at the
    /// `i64` bounds.
    pub fn perform_in(&mut self, delay_micros: i64)
        ensures
            final(self)@.perform_at == sat_add_i64(old(self)@.perform_at, delay_micros as int),
            final(self)@.id == old(self)@.id,
            final(self)@.status == old(self)@.status,
            final(self)@.data == old(self)@.data,
            final(self)@.tries == old(self)@.tries,
            final(self)@.max_tries == old(self)@.max_tries,
    {
        self.perform_at = saturating_add_i64(self.perform_at, delay_micros);
    }

    /// Overwrites the status with the given label, whatever it was before.
    /// No other field changes.
    pub fn change_status(&mut self, status: &str)
        ensures
            final(self)@.status == status@,
            final(self)@.id == old(self)@.id,
            final(self)@.data == old(self)@.data,
            final(self)@.perform_at == old(self)@.perform_at,
            final(self)@.tries == old(self)@.tries,
            final(self)@.max_tries == old(self)@.max_tries,
    {
        self.status = status.to_owned();
    }

    /// Applies the retry transition as observed at clock reading `now`: the
    /// deterministic core of `retry`, usable with any time source.
    pub fn retry_at(&mut self, now: i64)
        requires
            old(self)@.wf(),
        ensures
            final(self)@ == old(self)@.retried(now),
            final(self)@.wf(),
    {
        if self.tries == self.max_tries {
            self.change_status("dead");
        } else {
            self.change_status("scheduled");
            self.perform_at = now;
            self.tries = self.tries + 1;
            let delay = backoff_delay_micros(self.tries);
            self.perform_in(delay);
        }
    }

    /// Applies the retry transition at the current UTC time: if the retry
    /// budget is exhausted the job is marked dead, else it is rescheduled
    /// with exponential backoff for some clock reading `t`.
    pub fn retry(&mut self)
        requires
            old(self)@.wf(),
        ensures
            exists|t: i64|
                clock_reading(t as int) && final(self)@ == old(self)@.retried(t),
            final(self)@.wf(),
    {
        let t = clock_now_micros();
        self.retry_at(t);
        proof {
            assert(clock_reading(t as int) && self@ == old(self)@.retried(t));
        }
    }
}

/// Law: a retry of a well-formed job preserves well-formedness — the try
/// counter never exceeds the retry budget, and the budget itself never
/// changes.
pub proof fn lemma_retry_bounded<T>(j: JobView<T>, now: i64)
    requires
        j.wf(),
    ensures
        j.retried(now).wf(),
        j.retried(now).tries <= j.max_tries,
        j.retried(now).max_tries == j.max_tries,
{
}

/// Law: a retry of a job that still has tries left increments the try
/// counter by exactly one, sets the status to `scheduled`, and — provided
/// the clock has reached the job's schedule time, which is not already at
/// the numeric limit — strictly advances the schedule time.
pub proof fn lemma_retry_schedules<T>(j: JobView<T>, now: i64)
    requires
        j.wf(),
        j.tries < j.max_tries,
        j.perform_at <= now,
        j.perform_at < i64::MAX as int,
    ensures
        j.retried(now).tries == j.tries + 1,
        j.retried(now).status == "scheduled"@,
        j.retried(now).perform_at > j.perform_at,
{
    lemma_pow2_pos((j.tries + 1) as nat);
}

/// Law: from a job whose remaining retry budget covers every reading in
/// `nows`, the retries schedule the job each time, incrementing the try
/// counter once per reading and never past the budget.
pub proof fn lemma_retry_counts<T>(j: JobView<T>, nows: Seq<i64>)
    requires
        j.wf(),
        j.tries + nows.len() <= j.max_tries,
    ensures
        j.retried_all(nows).tries == j.tries + nows.len(),
        j.retried_all(nows).max_tries == j.max_tries,
        j.retried_all(nows).wf(),
        nows.len() > 0 ==> j.retried_all(nows).status == "scheduled"@,
        nows.len() == 0 ==> j.retried_all(nows) == j,
    decreases nows.len(),
{
    if nows.len() > 0 {
        lemma_retry_counts(j.retried(nows[0]), nows.drop_first());
    }
}

/// Law: a fresh job retried once per clock reading in `nows` — exactly as
/// many readings as its retry budget — ends with the full try count, and
/// the next retry marks it dead with the try count still at the budget.
pub proof fn lemma_retry_exhaustion<T>(j: JobView<T>, nows: Seq<i64>, last: i64)
    requires
        j.wf(),
        j.tries + nows.len() == j.max_tries,
    ensures
        j.retried_all(nows).retried(last).status == "dead"@,
        j.retried_all(nows).retried(last).tries == j.max_tries,
        j.retried_all(nows).retried(last).perform_at == j.retried_all(nows).perform_at,
{
    lemma_retry_counts(j, nows);
}

/// Law: backoff growth — on the `k`-th retry (the new try count, here at
/// most the default budget of 10) the schedule time lands exactly `2^k`
/// seconds after the clock reading: 2 s, 4 s, 8 s, … 1024 s.
pub proof fn lemma_backoff_growth<T>(j: JobView<T>, now: i64)
    requires
        j.wf(),
        j.tries < j.max_tries,
        j.tries + 1 <= DEFAULT_MAX_TRIES as int,
        clock_reading(now as int),
    ensures
        j.retried(now).perform_at == now + pow2((j.tries + 1) as nat) * (MICROS_PER_SECOND as int),
{
    lemma2_to64();
    if j.tries + 1 < 10 {
        lemma_pow2_strictly_increases((j.tries + 1) as nat, 10);
    }
}

} // verus!
