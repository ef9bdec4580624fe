//! Calendar schedules: cron expressions, parsed and evaluated by the `cron`
//! crate, as sources of due instants.

use std::str::FromStr;

use chrono::{FixedOffset, TimeZone};
use cron::Schedule;
use vstd::prelude::*;

use crate::clock::Clock;
use crate::time::{nanos_of, Instant, UtcOffset, MAX_TIMESTAMP, MIN_TIMESTAMP, NANOS_PER_SEC};

verus! {

/// Whether the `cron` crate takes `expression` for a schedule.
pub uninterp spec fn cron_accepts(expression: Seq<char>) -> bool;

/// The first second, counted from the Unix epoch, that lies after second
/// `after` and that the schedule `expression` names when read against the
/// zone `east_seconds` east of UTC, as the `cron` crate finds it; `None`
/// where it finds none.
pub uninterp spec fn cron_next_after(expression: Seq<char>, east_seconds: int, after: int) -> Option<int>;

/// Asks `cron::Schedule::from_str` whether `expression` is a schedule. Its
/// verdict is what `cron_accepts` names; where it refuses, the text of its
/// error comes back.
#[verifier::external_body]
fn cron_check(expression: &str) -> (verdict: Result<(), String>)
    ensures
        verdict is Ok <==> cron_accepts(expression@),
{
    match Schedule::from_str(expression) {
        Ok(_) => Ok(()),
        Err(error) => Err(error.to_string()),
    }
}

/// Asks the `cron` crate for the first match of `expression` after second
/// `after`: `Schedule::from_str`, then `Schedule::after` from that second in
/// the zone that `chrono::FixedOffset::east_opt` gives, then the iterator's
/// first item, as a timestamp. The answer is what `cron_next_after` names.
///
/// The search begins one second after `after`, and `chrono` panics where
/// that second lies beyond its range: hence the bound on `after`.
#[verifier::external_body]
fn cron_upcoming(expression: &str, east_seconds: i32, after: i64) -> (found: Option<i64>)
    requires
        after < MAX_TIMESTAMP,
    ensures
        match found {
            Some(at) => cron_next_after(expression@, east_seconds as int, after as int) == Some(
                at as int,
            ),
            None => cron_next_after(expression@, east_seconds as int, after as int) is None,
        },
{
    let schedule = Schedule::from_str(expression).ok()?;
    let zone = FixedOffset::east_opt(east_seconds)?;
    let start = zone.timestamp_opt(after, 0).single()?;
    let found = schedule.after(&start).next()?;
    Some(found.timestamp())
}

/// What becomes of the answer `found` that the evaluator gave when asked for
/// the first match after second `after`: the instant at that second, in
/// nanoseconds since the Unix epoch. An answer that does not lie after
/// `after`, or that lies outside the representable range, ends the sequence
/// as a missing answer does.
pub open spec fn calendar_due(after: int, found: Option<int>) -> Option<int> {
    match found {
        Some(at) => if after < at && MIN_TIMESTAMP <= at <= MAX_TIMESTAMP {
            Some(at * NANOS_PER_SEC)
        } else {
            None
        },
        None => None,
    }
}

/// Turns the evaluator's answer to "what comes after second `after`?" into
/// the instant that falls due next, or into the end of the sequence.
pub fn due_after(after: i64, found: Option<i64>) -> (due: Option<Instant>)
    ensures
        nanos_of(due) == calendar_due(
            after as int,
            match found {
                Some(at) => Some(at as int),
                None => None,
            },
        ),
        due matches Some(t) ==> t.wf() && t@ > after * NANOS_PER_SEC,
{
    match found {
        Some(at) => if after < at {
            Instant::new(at, 0)
        } else {
            None
        },
        None => None,
    }
}

/// Why an expression was not taken for a schedule.
#[derive(Debug, PartialEq, Eq)]
pub struct ScheduleError {
    pub(crate) reason: String,
}

impl View for ScheduleError {
    type V = Seq<char>;

    /// The text of the reason.
    open(crate) spec fn view(&self) -> Seq<char> {
        self.reason@
    }
}

impl ScheduleError {
    /// What the parser had to say about the expression.
    pub fn reason(&self) -> (reason: &str)
        ensures
            reason@ == self@,
    {
        self.reason.as_str()
    }
}

/// What a calendar schedule is: the text of its expression and the clock it
/// was given.
pub struct CronScheduleView {
    /// The cron expression.
    pub expression: Seq<char>,
    /// The clock that tells from when on matches are wanted.
    pub clock: Clock,
}

/// A cron expression that the `cron` crate accepts (seconds, minutes, hours,
/// day of month, month, day of week and, if wanted, year), bound to a clock.
///
/// The schedule is held as its text, which is what contracts can speak of;
/// the evaluator reads the text anew whenever a match is asked for.
#[derive(Debug)]
pub struct CronSchedule {
    pub(crate) expression: String,
    pub(crate) clock: Clock,
}

impl View for CronSchedule {
    type V = CronScheduleView;

    open(crate) spec fn view(&self) -> CronScheduleView {
        CronScheduleView { expression: self.expression@, clock: self.clock }
    }
}

impl CronSchedule {
    /// Holds of every schedule that executable code can get hold of: the
    /// expression is one that the evaluator accepts.
    #[verifier::type_invariant]
    pub open(crate) spec fn wf(self) -> bool {
        &&& cron_accepts(self.expression@)
        &&& self.clock matches Clock::Fixed(at) ==> at.wf()
    }

    /// The schedule that `expression` describes, bound to the machine's
    /// clock; an error where the evaluator does not accept the expression.
    pub fn parse(expression: &str) -> (r: Result<CronSchedule, ScheduleError>)
        ensures
            r is Ok <==> cron_accepts(expression@),
            r matches Ok(schedule) ==> schedule.wf() && schedule@ == (CronScheduleView {
                expression: expression@,
                clock: Clock::System,
            }),
    {
        CronSchedule::parse_with_clock(expression, Clock::System)
    }

    /// The schedule that `expression` describes, bound to `clock`; an error
    /// where the evaluator does not accept the expression.
    pub fn parse_with_clock(expression: &str, clock: Clock) -> (r: Result<
        CronSchedule,
        ScheduleError,
    >)
        ensures
            r is Ok <==> cron_accepts(expression@),
            r matches Ok(schedule) ==> schedule.wf() && schedule@ == (CronScheduleView {
                expression: expression@,
                clock,
            }),
    {
        proof {
            if let Clock::Fixed(at) = clock {
                use_type_invariant(&at);
            }
        }
        match cron_check(expression) {
            Ok(()) => Ok(CronSchedule { expression: expression.to_owned(), clock }),
            Err(reason) => Err(ScheduleError { reason }),
        }
    }

    /// The text of the expression.
    pub fn expression(&self) -> (expression: &str)
        ensures
            expression@ == self@.expression,
            cron_accepts(expression@),
    {
        proof {
            use_type_invariant(self);
        }
        self.expression.as_str()
    }

    /// The clock the schedule was bound to.
    pub fn clock(&self) -> (clock: Clock)
        ensures
            clock == self@.clock,
    {
        self.clock
    }

    /// The matches of the schedule, read against `timezone`, that lie after
    /// `after`, in ascending order.
    pub fn after(&self, timezone: &UtcOffset, after: Instant) -> (it: CalendarIterator)
        ensures
            it.wf(),
            it@ == (CalendarCursor {
                expression: self@.expression,
                east_seconds: timezone@,
                previous: Some(after@),
            }),
    {
        proof {
            use_type_invariant(self);
            use_type_invariant(timezone);
            use_type_invariant(&after);
        }
        CalendarIterator {
            expression: self.expression.clone(),
            timezone: *timezone,
            previous: Some(after),
        }
    }

    /// The matches of the schedule, read against `timezone`, that lie after
    /// the reading of the schedule's clock, in ascending order.
    pub fn upcoming(&self, timezone: &UtcOffset) -> (it: CalendarIterator)
        ensures
            it.wf(),
            exists|now: Instant| #[trigger]
                self@.clock.admits(now) && it@ == (CalendarCursor {
                    expression: self@.expression,
                    east_seconds: timezone@,
                    previous: Some(now@),
                }),
    {
        let now = self.clock.now();
        self.after(timezone, now)
    }
}

/// The state of a sequence of calendar matches: the schedule, the zone it is
/// read against, and the instant after which the next match is looked for,
/// or nothing once the sequence has run out.
pub struct CalendarCursor {
    /// The cron expression.
    pub expression: Seq<char>,
    /// The zone, in seconds east of UTC.
    pub east_seconds: int,
    /// The instant yielded last, or the one the sequence was started from,
    /// in nanoseconds since the Unix epoch.
    pub previous: Option<int>,
}

impl CalendarCursor {
    /// The instant that comes next, if any: what the evaluator finds after
    /// the second that `previous` falls in.
    pub open spec fn upcoming(self) -> Option<int> {
        match self.previous {
            Some(previous) => {
                let after = previous / (NANOS_PER_SEC as int);
                if after < MAX_TIMESTAMP {
                    calendar_due(
                        after,
                        cron_next_after(self.expression, self.east_seconds, after),
                    )
                } else {
                    None
                }
            },
            None => None,
        }
    }

    /// The cursor after it has yielded one instant.
    pub open spec fn advance(self) -> CalendarCursor {
        CalendarCursor {
            expression: self.expression,
            east_seconds: self.east_seconds,
            previous: self.upcoming(),
        }
    }
}

/// A sequence of the instants that a calendar schedule names, in ascending
/// order. It is finite where the schedule names no instant beyond some year.
#[derive(Debug)]
pub struct CalendarIterator {
    pub(crate) expression: String,
    pub(crate) timezone: UtcOffset,
    pub(crate) previous: Option<Instant>,
}

impl View for CalendarIterator {
    type V = CalendarCursor;

    open(crate) spec fn view(&self) -> CalendarCursor {
        CalendarCursor {
            expression: self.expression@,
            east_seconds: self.timezone@,
            previous: nanos_of(self.previous),
        }
    }
}

impl CalendarIterator {
    /// Holds of every sequence that executable code can get hold of.
    #[verifier::type_invariant]
    pub open(crate) spec fn wf(self) -> bool {
        &&& self.timezone.wf()
        &&& self.previous matches Some(at) ==> at.wf()
    }

    /// Yields the first match after the instant yielded last. The sequence
    /// has run out once the evaluator finds no further match.
    pub fn next(&mut self) -> (yielded: Option<Instant>)
        ensures
            nanos_of(yielded) == old(self)@.upcoming(),
            yielded matches Some(t) ==> t.wf(),
            final(self)@ == old(self)@.advance(),
            final(self).wf(),
    {
        proof {
            use_type_invariant(&*self);
        }
        let yielded = match self.previous {
            Some(previous) => {
                let after = previous.timestamp();
                if after < MAX_TIMESTAMP {
                    let found = cron_upcoming(
                        self.expression.as_str(),
                        self.timezone.east_seconds(),
                        after,
                    );
                    due_after(after, found)
                } else {
                    None
                }
            },
            None => None,
        };
        self.previous = yielded;
        yielded
    }
}

/// The instants of a calendar sequence come in strictly ascending order:
/// each one lies after the instant yielded before it, and the first one
/// after the instant that the sequence was started from.
pub proof fn law_calendar_ascends(cursor: CalendarCursor)
    ensures
        cursor.upcoming() matches Some(next) ==> cursor.previous matches Some(previous) && next
            > previous,
{
}

} // verus!
