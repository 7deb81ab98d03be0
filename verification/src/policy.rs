//! When a buffered batch must be flushed: a count threshold or a time threshold.

use std::time::Duration;
use std::time::Instant;
use vstd::prelude::*;

verus! {

/// `std::time::Instant`, a reading of the monotonic clock: carried, never
/// looked into.
#[verifier::external_type_specification]
#[verifier::external_body]
pub struct ExInstant(std::time::Instant);

/// The whole nanoseconds that a `Duration` holds.
pub uninterp spec fn duration_nanos(d: Duration) -> nat;

/// `Duration::as_nanos`: the total number of nanoseconds contained by the
/// duration. Trusted: the result is the duration's nanosecond count.
#[verifier::external_body]
fn duration_as_nanos(d: &Duration) -> (n: u128)
    ensures
        n == duration_nanos(*d),
{
    d.as_nanos()
}

/// `Instant::now`: the current reading of the monotonic clock. Trusted;
/// nothing is claimed of the reading.
#[verifier::external_body]
fn instant_now() -> (t: Instant) {
    Instant::now()
}

/// The time from the reading `earlier` to the reading `later`: what the two
/// readings alone determine, whenever and wherever it is computed.
pub uninterp spec fn span_between(later: Instant, earlier: Instant) -> Duration;

/// `Instant::saturating_duration_since`: the time from `earlier` to `later`,
/// zero where `earlier` is the later one. Trusted: the result is the span
/// between the two readings; nothing is claimed of its length.
#[verifier::external_body]
fn duration_between(later: &Instant, earlier: &Instant) -> (d: Duration)
    ensures
        d == span_between(*later, *earlier),
{
    later.saturating_duration_since(*earlier)
}

/// Flush when the batch holds `max_messages` results, or when
/// `max_time_between_flushes` has passed since the last flush.
pub struct CompletionPolicy {
    max_messages: u16,
    max_time_between_flushes: Duration,
    last_flush: Instant,
}

impl CompletionPolicy {
    /// The count threshold.
    pub closed spec fn max_messages(&self) -> nat {
        self.max_messages as nat
    }

    /// The time threshold, in nanoseconds.
    pub closed spec fn max_nanos(&self) -> nat {
        duration_nanos(self.max_time_between_flushes)
    }

    /// The clock reading at the last reset.
    pub closed spec fn last_flush(&self) -> Instant {
        self.last_flush
    }

    /// The rule: a flush is due for `count` buffered results after `elapsed`
    /// nanoseconds without one.
    pub open spec fn flush_due(&self, count: nat, elapsed: nat) -> bool {
        count >= self.max_messages() || elapsed >= self.max_nanos()
    }

    /// The count threshold fits in sixteen bits.
    pub proof fn lemma_max_messages_bound(&self)
        ensures
            self.max_messages() <= 65535,
    {
    }

    /// A policy with the two thresholds, whose window starts now.
    pub fn new(max_messages: u16, max_time_between_flushes: Duration) -> (p: Self)
        ensures
            p.max_messages() == max_messages,
            p.max_nanos() == duration_nanos(max_time_between_flushes),
    {
        Self { max_messages, max_time_between_flushes, last_flush: instant_now() }
    }

    /// The rule, for a given time since the last reset.
    pub fn should_flush_at(&self, cur_messages: u16, elapsed: Duration) -> (due: bool)
        ensures
            due == self.flush_due(cur_messages as nat, duration_nanos(elapsed)),
    {
        cur_messages >= self.max_messages || duration_as_nanos(&elapsed) >= duration_as_nanos(
            &self.max_time_between_flushes,
        )
    }

    /// The time that has passed since the last reset, by the monotonic
    /// clock: the span from the last reset to a reading of the clock.
    pub(crate) fn elapsed(&self) -> (d: Duration)
        ensures
            exists|now: Instant| d == #[trigger] span_between(now, self.last_flush()),
    {
        let now = instant_now();
        let d = duration_between(&now, &self.last_flush);
        assert(d == span_between(now, self.last_flush()));
        d
    }

    /// The rule, by the clock: the rule for the time from the last reset to
    /// a reading of the clock. The count alone forces a flush, and so does a
    /// time threshold of zero; otherwise the clock decides.
    pub fn should_flush(&self, cur_messages: u16) -> (due: bool)
        ensures
            exists|now: Instant|
                due == self.flush_due(
                    cur_messages as nat,
                    duration_nanos(#[trigger] span_between(now, self.last_flush())),
                ),
            cur_messages >= self.max_messages() ==> due,
            self.max_nanos() == 0 ==> due,
    {
        let elapsed = self.elapsed();
        self.should_flush_at(cur_messages, elapsed)
    }

    /// Starts a new window at `now`; the thresholds stay.
    pub fn set_last_flush_at(&mut self, now: Instant)
        ensures
            final(self).max_messages() == old(self).max_messages(),
            final(self).max_nanos() == old(self).max_nanos(),
            final(self).last_flush() == now,
    {
        self.last_flush = now;
    }

    /// Starts a new window now; the thresholds stay.
    pub fn set_last_flush(&mut self)
        ensures
            final(self).max_messages() == old(self).max_messages(),
            final(self).max_nanos() == old(self).max_nanos(),
    {
        let now = instant_now();
        self.set_last_flush_at(now);
    }
}

} // verus!
