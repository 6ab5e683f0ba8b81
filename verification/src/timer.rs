//! A stopwatch with labelled checkpoints.

use std::time::{Duration, Instant};
use vstd::prelude::*;
use vstd::string::StringExecFns;

verus! {

#[verifier::external_type_specification]
#[verifier::external_body]
pub struct ExInstant(std::time::Instant);

/// `Instant::now`: the current reading of the monotonic clock. Nothing is
/// known of it beforehand.
pub assume_specification[ std::time::Instant::now ]() -> Instant;

/// `Instant::elapsed`: the time since the instant was taken. Nothing is
/// known of it beforehand.
pub assume_specification[ std::time::Instant::elapsed ](start: &Instant) -> Duration;

/// `Duration::as_nanos`: the whole duration in nanoseconds.
pub assume_specification[ std::time::Duration::as_nanos ](duration: &Duration) -> u128;

/// One line of a timer's report.
pub struct ReportLine {
    /// What the checkpoint was called.
    pub label: String,
    /// Nanoseconds from the start to the checkpoint.
    pub at: u128,
    /// Nanoseconds since the checkpoint before; none for the first one.
    pub since_previous: Option<u128>,
}

/// `a - b`, or zero where `b` is the larger.
pub open spec fn gap(a: u128, b: u128) -> u128 {
    if a >= b {
        (a - b) as u128
    } else {
        0
    }
}

/// A stopwatch: the instant it was started at, and the checkpoints taken
/// since, each with its label and the nanoseconds from the start.
pub struct Timer {
    start: Instant,
    checkpoints: Vec<(String, u128)>,
}

impl Timer {
    /// The checkpoints in the order they were taken: label and nanoseconds
    /// from the start.
    pub closed spec fn marks(&self) -> Seq<(Seq<char>, u128)> {
        Seq::new(
            self.checkpoints@.len(),
            |i: int| (self.checkpoints@[i].0@, self.checkpoints@[i].1),
        )
    }

    /// The instant the timer was started at.
    pub closed spec fn started(&self) -> Instant {
        self.start
    }

    /// A timer that starts now, with no checkpoints.
    pub fn new() -> (timer: Timer)
        ensures
            timer.marks() == Seq::<(Seq<char>, u128)>::empty(),
    {
        let timer = Timer { start: Instant::now(), checkpoints: Vec::new() };
        assert(timer.marks() =~= Seq::<(Seq<char>, u128)>::empty());
        timer
    }

    /// Adds a checkpoint called `label` at `nanos` nanoseconds from the
    /// start.
    pub fn record(&mut self, label: &str, nanos: u128)
        ensures
            final(self).marks() == old(self).marks().push((label@, nanos)),
            final(self).started() == old(self).started(),
    {
        self.checkpoints.push((String::from_str(label), nanos));
        assert(self.marks() =~= old(self).marks().push((label@, nanos)));
    }

    /// Adds a checkpoint called `label` at the time that has passed since
    /// the start.
    pub fn checkpoint(&mut self, label: &str)
        ensures
            final(self).marks().len() == old(self).marks().len() + 1,
            final(self).marks().drop_last() == old(self).marks(),
            final(self).marks().last().0 == label@,
            final(self).started() == old(self).started(),
    {
        let elapsed = self.start.elapsed();
        let nanos = elapsed.as_nanos();
        self.record(label, nanos);
        assert(self.marks().drop_last() =~= old(self).marks());
    }

    /// The time that has passed since the start.
    pub fn elapsed(&self) -> Duration {
        self.start.elapsed()
    }

    /// What the report says of checkpoint `i`: its label, its time, and the
    /// time since the checkpoint before it, which the first one lacks. A
    /// checkpoint that reads earlier than the one before is zero after it.
    pub open spec fn line(&self, i: int) -> (Seq<char>, u128, Option<u128>) {
        (
            self.marks()[i].0,
            self.marks()[i].1,
            if i == 0 {
                None
            } else {
                Some(gap(self.marks()[i].1, self.marks()[i - 1].1))
            },
        )
    }

    /// The report: a line for each checkpoint, in the order taken.
    pub fn report(&self) -> (lines: Vec<ReportLine>)
        ensures
            lines@.len() == self.marks().len(),
            forall|i: int|
                0 <= i < lines@.len() ==> (
                    #[trigger] lines@[i].label@,
                    lines@[i].at,
                    lines@[i].since_previous,
                ) == self.line(i),
    {
        let n = self.checkpoints.len();
        let mut lines: Vec<ReportLine> = Vec::new();
        let mut i: usize = 0;
        while i < n
            invariant
                i <= n,
                n == self.checkpoints@.len(),
                lines@.len() == i,
                forall|j: int|
                    0 <= j < i ==> (
                        #[trigger] lines@[j].label@,
                        lines@[j].at,
                        lines@[j].since_previous,
                    ) == self.line(j),
            decreases n - i,
        {
            let at = self.checkpoints[i].1;
            let since_previous = if i == 0 {
                None
            } else {
                Some(at.saturating_sub(self.checkpoints[i - 1].1))
            };
            lines.push(ReportLine { label: self.checkpoints[i].0.clone(), at, since_previous });
            i += 1;
        }
        lines
    }

    /// The time from the last checkpoint to `now`, where `now` is in
    /// nanoseconds from the start; none where no checkpoint was taken.
    pub fn since_last(&self, now: u128) -> (since: Option<u128>)
        ensures
            since == if self.marks().len() == 0 {
                None
            } else {
                Some(gap(now, self.marks().last().1))
            },
    {
        let n = self.checkpoints.len();
        if n == 0 {
            None
        } else {
            Some(now.saturating_sub(self.checkpoints[n - 1].1))
        }
    }

    /// How many checkpoints were taken.
    pub fn len(&self) -> (n: usize)
        ensures
            n == self.marks().len(),
    {
        self.checkpoints.len()
    }
}

} // verus!
