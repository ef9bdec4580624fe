//! One interface over the two kinds of temporal source: recurring periods
//! and calendar schedules.

use vstd::prelude::*;

use crate::clock::Clock;
use crate::period::{first_due, Cursor, OwnedPeriodIterator, Period};
use crate::schedule::{CalendarCursor, CalendarIterator, CronSchedule};
use crate::time::{nanos_of, Instant, UtcOffset};

verus! {

/// The state of a sequence of due instants, whichever source it was drawn
/// from.
pub enum SequenceView {
    /// A sequence drawn from a period.
    Recurring(Cursor),
    /// A sequence drawn from a calendar schedule.
    Calendar(CalendarCursor),
}

impl SequenceView {
    /// The instant that comes next, in nanoseconds since the Unix epoch, or
    /// nothing once the sequence has run out.
    pub open spec fn upcoming(self) -> Option<int> {
        match self {
            SequenceView::Recurring(cursor) => cursor.next,
            SequenceView::Calendar(cursor) => cursor.upcoming(),
        }
    }

    /// The sequence after it has yielded one instant.
    pub open spec fn advance(self) -> SequenceView {
        match self {
            SequenceView::Recurring(cursor) => SequenceView::Recurring(cursor.advance()),
            SequenceView::Calendar(cursor) => SequenceView::Calendar(cursor.advance()),
        }
    }

    /// The sequence after it has yielded `n` instants.
    pub open spec fn advance_by(self, n: nat) -> SequenceView
        decreases n,
    {
        if n == 0 {
            self
        } else {
            self.advance_by((n - 1) as nat).advance()
        }
    }

    /// What the sequence yields after `n` instants have been taken from it.
    pub open spec fn nth(self, n: nat) -> Option<int> {
        self.advance_by(n).upcoming()
    }
}

/// A lazy sequence of due instants, drawn from a period or from a calendar
/// schedule. Whoever consumes it need not know which.
pub enum TemporalSequence {
    /// A sequence drawn from a period.
    Recurring(OwnedPeriodIterator),
    /// A sequence drawn from a calendar schedule.
    Calendar(CalendarIterator),
}

impl View for TemporalSequence {
    type V = SequenceView;

    open spec fn view(&self) -> SequenceView {
        match self {
            TemporalSequence::Recurring(it) => SequenceView::Recurring(it@),
            TemporalSequence::Calendar(it) => SequenceView::Calendar(it@),
        }
    }
}

impl TemporalSequence {
    /// Yields the next due instant, or nothing once the sequence has run
    /// out.
    pub fn next(&mut self) -> (yielded: Option<Instant>)
        ensures
            nanos_of(yielded) == old(self)@.upcoming(),
            yielded matches Some(t) ==> t.wf(),
            final(self)@ == old(self)@.advance(),
    {
        match self {
            TemporalSequence::Recurring(it) => it.next(),
            TemporalSequence::Calendar(it) => it.next(),
        }
    }

    /// Yields the next `count` due instants, or fewer where the sequence
    /// runs out before.
    pub fn take(&mut self, count: usize) -> (taken: Vec<Instant>)
        ensures
            taken@.len() <= count,
            forall|i: int|
                0 <= i < taken@.len() ==> old(self)@.nth(i as nat) == Some(#[trigger] taken@[i]@),
            taken@.len() < count ==> old(self)@.nth(taken@.len()) is None,
            final(self)@ == old(self)@.advance_by(
                if taken@.len() < count {
                    taken@.len() + 1
                } else {
                    taken@.len()
                },
            ),
    {
        let ghost origin = self@;
        let mut taken: Vec<Instant> = Vec::new();
        let mut open = true;
        while open && taken.len() < count
            invariant
                taken@.len() <= count,
                self@ == origin.advance_by(
                    if open {
                        taken@.len()
                    } else {
                        taken@.len() + 1
                    },
                ),
                !open ==> taken@.len() < count && origin.nth(taken@.len()) is None,
                forall|i: int|
                    0 <= i < taken@.len() ==> origin.nth(i as nat) == Some(#[trigger] taken@[i]@),
            decreases count - taken.len() + (if open { 1int } else { 0int }),
        {
            match self.next() {
                Some(at) => taken.push(at),
                None => {
                    open = false;
                },
            }
        }
        taken
    }
}

/// Whatever can produce a lazy sequence of due instants for a time zone.
pub trait TemporalIterator {
    /// The sequence of due instants of this source, with `timezone` as the
    /// zone that calendar fields are read against.
    fn iter_times(&self, timezone: &UtcOffset) -> TemporalSequence;
}

impl TemporalIterator for Period {
    /// The catching-up sequence of the period. The zone plays no part: a
    /// period steps through elapsed time.
    fn iter_times(&self, _timezone: &UtcOffset) -> (sequence: TemporalSequence)
        ensures
            exists|now: Instant| #[trigger]
                self@.clock.admits(now) && sequence@ == SequenceView::Recurring(
                    Cursor {
                        next: first_due(now@, self@.start, self@.duration),
                        step: self@.duration,
                    },
                ),
    {
        TemporalSequence::Recurring(self.upcoming_relative_owned())
    }
}

impl TemporalIterator for CronSchedule {
    /// The matches of the schedule after the reading of its clock.
    fn iter_times(&self, timezone: &UtcOffset) -> (sequence: TemporalSequence)
        ensures
            exists|now: Instant| #[trigger]
                self@.clock.admits(now) && sequence@ == SequenceView::Calendar(
                    CalendarCursor {
                        expression: self@.expression,
                        east_seconds: timezone@,
                        previous: Some(now@),
                    },
                ),
    {
        TemporalSequence::Calendar(self.upcoming(timezone))
    }
}

/// A temporal source: a recurring period or a calendar schedule.
#[derive(Debug)]
pub enum Scheduling {
    /// A recurring period.
    Dynamic(Period),
    /// A calendar schedule.
    Fixed(CronSchedule),
}

impl Scheduling {
    /// What the sequence of this source is when it is begun at the clock
    /// reading `now` for the zone `east_seconds` east of UTC.
    pub open spec fn sequence_from(self, east_seconds: int, now: int) -> SequenceView {
        match self {
            Scheduling::Dynamic(period) => SequenceView::Recurring(
                Cursor {
                    next: first_due(now, period@.start, period@.duration),
                    step: period@.duration,
                },
            ),
            Scheduling::Fixed(schedule) => SequenceView::Calendar(
                CalendarCursor { expression: schedule@.expression, east_seconds, previous: Some(now) },
            ),
        }
    }

    /// The clock that the source was bound to.
    pub open spec fn clock(self) -> Clock {
        match self {
            Scheduling::Dynamic(period) => period@.clock,
            Scheduling::Fixed(schedule) => schedule@.clock,
        }
    }
}

impl TemporalIterator for Scheduling {
    /// The sequence of the period or of the schedule, whichever this is.
    fn iter_times(&self, timezone: &UtcOffset) -> (sequence: TemporalSequence)
        ensures
            exists|now: Instant| #[trigger]
                self.clock().admits(now) && sequence@ == self.sequence_from(timezone@, now@),
    {
        match self {
            Scheduling::Dynamic(period) => period.iter_times(timezone),
            Scheduling::Fixed(schedule) => schedule.iter_times(timezone),
        }
    }
}

/// Within one sequence the due instants come in strictly ascending order,
/// whichever source it was drawn from: where an instant follows
/// another, it lies after it.
pub proof fn law_sequence_ascends(sequence: SequenceView)
    requires
        sequence matches SequenceView::Recurring(cursor) ==> cursor.step > 0,
    ensures
        sequence.advance().upcoming() matches Some(later) ==> sequence.upcoming() matches Some(
            earlier,
        ) && earlier < later,
{
}

/// A sequence that has nothing to yield has nothing to yield ever after.
pub proof fn law_sequence_stays_exhausted(sequence: SequenceView, n: nat)
    requires
        sequence.upcoming() is None,
    ensures
        sequence.nth(n) is None,
    decreases n,
{
    if n > 0 {
        law_sequence_stays_exhausted(sequence, (n - 1) as nat);
    }
}

} // verus!
