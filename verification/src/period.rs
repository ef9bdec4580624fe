//! Recurring periods: a start instant, a positive whole-second duration, and
//! the sequences of due instants that follow from them.

use vstd::arithmetic::div_mod::{lemma_div_denominator, lemma_fundamental_div_mod, lemma_mod_bound};
use vstd::prelude::*;

use crate::clock::Clock;
use crate::time::{instant_in_range, nanos_of, Instant, Span, MAX_TIMESTAMP, NANOS_PER_SEC};

verus! {

/// Nanoseconds in half a second.
pub const HALF_SECOND: i64 = 500_000_000;

/// Why a period could not be built.
#[derive(Clone, Copy, Debug, PartialEq, Eq, Structural)]
pub enum PeriodError {
    /// The duration lies below zero.
    NegativeDurationError,
    /// The duration, in whole seconds, is zero.
    ZeroDurationError,
}

/// A signed count of nanoseconds rounded to the nearest whole second; a
/// count halfway between two seconds goes to the one farther from zero.
pub open spec fn round_half_away(nanos: int) -> int {
    if nanos >= 0 {
        (nanos + HALF_SECOND) / (NANOS_PER_SEC as int) * NANOS_PER_SEC
    } else {
        -((HALF_SECOND - nanos) / (NANOS_PER_SEC as int) * NANOS_PER_SEC)
    }
}

/// A point in time, in nanoseconds since the Unix epoch, rounded to the
/// nearest whole second; a point halfway between two seconds goes to the
/// later one. At the very end of the representable range, where the later
/// second cannot be named, the point is rounded down.
pub open spec fn nearest_second(nanos: int) -> int {
    let rounded = (nanos + HALF_SECOND) / (NANOS_PER_SEC as int) * NANOS_PER_SEC;
    if instant_in_range(rounded) {
        rounded
    } else {
        nanos / (NANOS_PER_SEC as int) * NANOS_PER_SEC
    }
}

/// Rounds a span to the nearest whole second, halves away from zero.
pub fn adjust_duration(duration: Span) -> (adjusted: Span)
    ensures
        adjusted.wf(),
        adjusted.is_whole(),
        adjusted@ == round_half_away(duration@),
        -HALF_SECOND <= adjusted@ - duration@ <= HALF_SECOND,
{
    proof {
        use_type_invariant(&duration);
    }
    let secs: i64 = if duration.nanos >= HALF_SECOND as i32 {
        duration.secs + 1
    } else if duration.nanos <= -(HALF_SECOND as i32) {
        duration.secs - 1
    } else {
        duration.secs
    };
    Span { secs, nanos: 0 }
}

/// Rounds an instant to the nearest whole second, halves to the later one.
pub fn adjust_timestamp(timestamp: Instant) -> (adjusted: Instant)
    ensures
        adjusted.wf(),
        adjusted.is_whole(),
        adjusted@ == nearest_second(timestamp@),
        -HALF_SECOND <= adjusted@ - timestamp@ <= HALF_SECOND || adjusted@ == MAX_TIMESTAMP
            * NANOS_PER_SEC,
{
    proof {
        use_type_invariant(&timestamp);
    }
    let secs: i64 = if timestamp.nanos >= HALF_SECOND as u32 && timestamp.secs < MAX_TIMESTAMP {
        timestamp.secs + 1
    } else {
        timestamp.secs
    };
    Instant { secs, nanos: 0 }
}

/// The point `k` steps of length `step` after `start`.
pub open spec fn grid_point(start: int, step: int, k: int) -> int {
    start + k * step
}

/// How many steps of length `step` lead from `start` to the first point of
/// `start`, `start + step`, `start + 2 * step`, ... that lies strictly after
/// `now`.
pub open spec fn steps_after(now: int, start: int, step: int) -> int
    recommends
        step > 0,
{
    if now < start {
        0
    } else {
        (now - start) / step + 1
    }
}

/// The first point of `start`, `start + step`, `start + 2 * step`, ... that
/// lies strictly after `now`.
pub open spec fn first_after(now: int, start: int, step: int) -> int
    recommends
        step > 0,
{
    grid_point(start, step, steps_after(now, start, step))
}

/// Where a sequence that catches up with `now` begins: the first point of
/// the grid laid out from `start` in steps of `step` that lies strictly
/// after `now`. There is none where `step` is not a positive whole number of
/// seconds, or where that point cannot be represented.
pub open spec fn first_due(now: int, start: int, step: int) -> Option<int> {
    if step > 0 && step % (NANOS_PER_SEC as int) == 0 && instant_in_range(
        first_after(now, start, step),
    ) {
        Some(first_after(now, start, step))
    } else {
        None
    }
}

/// The first instant of `timestamp`, `timestamp + duration`,
/// `timestamp + 2 * duration`, ... that lies strictly after `now`.
///
/// `None` where `duration` is not a positive whole number of seconds, or
/// where the instant would lie beyond the representable range.
pub fn next_timestamp_after(now: Instant, timestamp: Instant, duration: &Span) -> (next: Option<
    Instant,
>)
    ensures
        nanos_of(next) == first_due(now@, timestamp@, duration@),
        next matches Some(t) ==> t.wf(),
{
    proof {
        use_type_invariant(&now);
        use_type_invariant(&timestamp);
        use_type_invariant(duration);
    }
    if duration.secs <= 0 || duration.nanos != 0 {
        return None;
    }
    if now.is_before(&timestamp) {
        return Some(timestamp);
    }
    let step_secs: i64 = duration.secs;
    let elapsed: i64 = if now.nanos >= timestamp.nanos {
        now.secs - timestamp.secs
    } else {
        now.secs - timestamp.secs - 1
    };
    let whole_steps: i64 = elapsed / step_secs;
    proof {
        let gap = now@ - timestamp@;
        assert(gap / (NANOS_PER_SEC as int) == elapsed);
        lemma_div_denominator(gap, NANOS_PER_SEC as int, step_secs as int);
        assert(NANOS_PER_SEC * step_secs == duration@);
        assert(gap / duration@ == whole_steps);
        lemma_fundamental_div_mod(elapsed as int, step_secs as int);
        lemma_mod_bound(elapsed as int, step_secs as int);
        assert((whole_steps + 1) * step_secs == step_secs * whole_steps + step_secs)
            by (nonlinear_arith);
        assert((whole_steps + 1) * duration@ == ((whole_steps + 1) * step_secs) * NANOS_PER_SEC)
            by (nonlinear_arith)
            requires
                duration@ == step_secs * NANOS_PER_SEC,
        ;
    }
    let shift: i64 = (whole_steps + 1) * step_secs;
    let secs: i64 = timestamp.secs + shift;
    if secs <= MAX_TIMESTAMP {
        Some(Instant { secs, nanos: timestamp.nanos })
    } else {
        None
    }
}

/// The first instant of `timestamp`, `timestamp + duration`, ... that lies
/// strictly after the reading `clock` gives when asked.
pub fn next_available_timestamp(timestamp: Instant, duration: &Span, clock: &Clock) -> (next:
    Option<Instant>)
    ensures
        exists|now: Instant| #[trigger]
            clock.admits(now) && nanos_of(next) == first_due(now@, timestamp@, duration@),
        next matches Some(t) ==> t.wf(),
{
    let now = clock.now();
    next_timestamp_after(now, timestamp, duration)
}

/// What a period is: its anchor and its step, both in nanoseconds, and the
/// clock it was given.
pub struct PeriodView {
    /// The start instant, in nanoseconds since the Unix epoch.
    pub start: int,
    /// The duration, in nanoseconds.
    pub duration: int,
    /// The clock that sequences catching up with the present will read.
    pub clock: Clock,
}

/// A start instant and a duration of a positive whole number of seconds,
/// bound to a clock. A period is never changed once built, and any number of
/// sequences can be drawn from it.
#[derive(Clone, Copy, Debug, PartialEq, Eq, Structural)]
pub struct Period {
    pub(crate) start: Instant,
    pub(crate) duration: Span,
    pub(crate) clock: Clock,
}

impl View for Period {
    type V = PeriodView;

    open(crate) spec fn view(&self) -> PeriodView {
        PeriodView { start: self.start@, duration: self.duration@, clock: self.clock }
    }
}

impl Period {
    /// Holds of every period that executable code can get hold of: the
    /// duration is a positive whole number of seconds.
    #[verifier::type_invariant]
    pub open(crate) spec fn wf(self) -> bool {
        &&& self.start.wf()
        &&& self.duration.wf()
        &&& self.duration@ > 0
        &&& self.duration.is_whole()
        &&& self.clock matches Clock::Fixed(at) ==> at.wf()
    }

    /// The period that starts at `start` and repeats every `duration`,
    /// bound to the machine's clock.
    ///
    /// A negative duration is refused, however short. Any other duration is
    /// rounded to the nearest whole second, and refused where that leaves
    /// nothing. The start is kept as it is given.
    pub fn starting_at(start: Instant, duration: Span) -> (r: Result<Period, PeriodError>)
        ensures
            (r matches Err(PeriodError::NegativeDurationError)) <==> duration@ < 0,
            (r matches Err(PeriodError::ZeroDurationError)) <==> duration@ >= 0 && round_half_away(
                duration@,
            ) == 0,
            r is Ok <==> round_half_away(duration@) > 0,
            r matches Ok(period) ==> period.wf() && period@ == (PeriodView {
                start: start@,
                duration: round_half_away(duration@),
                clock: Clock::System,
            }),
            duration.is_whole() ==> round_half_away(duration@) == duration@,
    {
        Period::starting_at_with_clock(start, duration, Clock::System)
    }

    /// The period that starts at `start` and repeats every `duration`,
    /// bound to `clock`.
    ///
    /// A negative duration is refused, however short. Any other duration is
    /// rounded to the nearest whole second, and refused where that leaves
    /// nothing. The start is kept as it is given.
    pub fn starting_at_with_clock(start: Instant, duration: Span, clock: Clock) -> (r: Result<
        Period,
        PeriodError,
    >)
        ensures
            (r matches Err(PeriodError::NegativeDurationError)) <==> duration@ < 0,
            (r matches Err(PeriodError::ZeroDurationError)) <==> duration@ >= 0 && round_half_away(
                duration@,
            ) == 0,
            r is Ok <==> round_half_away(duration@) > 0,
            r matches Ok(period) ==> period.wf() && period@ == (PeriodView {
                start: start@,
                duration: round_half_away(duration@),
                clock,
            }),
            duration.is_whole() ==> round_half_away(duration@) == duration@,
    {
        proof {
            use_type_invariant(&start);
            use_type_invariant(&duration);
            if let Clock::Fixed(at) = clock {
                use_type_invariant(&at);
            }
        }
        if duration.is_negative() {
            return Err(PeriodError::NegativeDurationError);
        }
        let duration = adjust_duration(duration);
        if duration.is_zero() {
            Err(PeriodError::ZeroDurationError)
        } else {
            Ok(Period { start, duration, clock })
        }
    }

    /// The instant the period is anchored at.
    pub fn start(&self) -> (start: Instant)
        ensures
            start.wf(),
            start@ == self@.start,
    {
        proof {
            use_type_invariant(self);
        }
        self.start
    }

    /// The length of one step, a positive whole number of seconds.
    pub fn duration(&self) -> (duration: Span)
        ensures
            duration.wf(),
            duration@ == self@.duration,
            duration@ > 0,
            duration.is_whole(),
    {
        proof {
            use_type_invariant(self);
        }
        self.duration
    }

    /// The clock the period was bound to.
    pub fn clock(&self) -> (clock: Clock)
        ensures
            clock == self@.clock,
    {
        self.clock
    }

    /// The sequence that catches up with the present once: it begins with
    /// the first instant of `start`, `start + duration`, ... lying strictly
    /// after the reading of the period's clock. The period stays usable.
    pub fn upcoming_relative(&self) -> (it: PeriodIterator<'_>)
        ensures
            it.wf(),
            exists|now: Instant| #[trigger]
                self@.clock.admits(now) && it@ == (Cursor {
                    next: first_due(now@, self@.start, self@.duration),
                    step: self@.duration,
                }),
    {
        PeriodIterator::new_relative(self)
    }

    /// The sequence `start`, `start + duration`, `start + 2 * duration`, ...
    /// whatever the time is now. The period stays usable.
    pub fn upcoming_fixed(&self) -> (it: PeriodIterator<'_>)
        ensures
            it.wf(),
            it@ == (Cursor { next: Some(self@.start), step: self@.duration }),
    {
        PeriodIterator::new_fixed(self)
    }

    /// The sequence that catches up with the present once, as
    /// [`Period::upcoming_relative`] gives it, taking the period with it.
    pub fn upcoming_relative_owned(self) -> (it: OwnedPeriodIterator)
        ensures
            it.wf(),
            exists|now: Instant| #[trigger]
                self@.clock.admits(now) && it@ == (Cursor {
                    next: first_due(now@, self@.start, self@.duration),
                    step: self@.duration,
                }),
    {
        OwnedPeriodIterator::new_relative(self)
    }

    /// The sequence `start`, `start + duration`, `start + 2 * duration`, ...
    /// as [`Period::upcoming_fixed`] gives it, taking the period with it.
    pub fn upcoming_fixed_owned(self) -> (it: OwnedPeriodIterator)
        ensures
            it.wf(),
            it@ == (Cursor { next: Some(self@.start), step: self@.duration }),
    {
        OwnedPeriodIterator::new_fixed(self)
    }
}

/// The state of a sequence of due instants: the instant it yields next, in
/// nanoseconds since the Unix epoch, or nothing once it has run out, and the
/// step that leads from one instant to the following one.
pub struct Cursor {
    /// The instant that comes next, if any.
    pub next: Option<int>,
    /// The distance between two instants that follow each other.
    pub step: int,
}

impl Cursor {
    /// The cursor after it has yielded one instant. It runs out where the
    /// following instant could not be represented.
    pub open spec fn advance(self) -> Cursor {
        Cursor {
            next: match self.next {
                Some(at) => if instant_in_range(at + self.step) {
                    Some(at + self.step)
                } else {
                    None
                },
                None => None,
            },
            step: self.step,
        }
    }

    /// The cursor after it has yielded `n` instants.
    pub open spec fn advance_by(self, n: nat) -> Cursor
        decreases n,
    {
        if n == 0 {
            self
        } else {
            self.advance_by((n - 1) as nat).advance()
        }
    }

    /// What the cursor yields after `n` instants have been taken from it.
    pub open spec fn nth(self, n: nat) -> Option<int> {
        self.advance_by(n).next
    }
}

/// The instant after `current` in steps of `step`.
fn step_forward(current: Option<Instant>, step: &Span) -> (next: Option<Instant>)
    ensures
        (Cursor { next: nanos_of(next), step: step@ }) == (Cursor {
            next: nanos_of(current),
            step: step@,
        }).advance(),
        next matches Some(t) ==> t.wf(),
{
    match current {
        Some(at) => at.checked_add(step),
        None => None,
    }
}

/// Takes up to `count` instants from the sequence that stands at `current`
/// and moves in steps of `step`. Returns them with what the sequence then
/// stands at.
fn take_upcoming(current: Option<Instant>, step: &Span, count: usize) -> (r: (
    Vec<Instant>,
    Option<Instant>,
))
    ensures
        r.0@.len() <= count,
        forall|i: int|
            0 <= i < r.0@.len() ==> (Cursor { next: nanos_of(current), step: step@ }).nth(i as nat)
                == Some(#[trigger] r.0@[i]@),
        r.0@.len() < count ==> (Cursor { next: nanos_of(current), step: step@ }).nth(r.0@.len())
            is None,
        (Cursor { next: nanos_of(r.1), step: step@ }) == (Cursor {
            next: nanos_of(current),
            step: step@,
        }).advance_by(r.0@.len()),
        r.1 matches Some(t) ==> t.wf(),
{
    let ghost origin = Cursor { next: nanos_of(current), step: step@ };
    let mut taken: Vec<Instant> = Vec::new();
    let mut current = current;
    proof {
        if let Some(at) = current {
            use_type_invariant(&at);
        }
    }
    while taken.len() < count && current.is_some()
        invariant
            taken@.len() <= count,
            current matches Some(t) ==> t.wf(),
            (Cursor { next: nanos_of(current), step: step@ }) == origin.advance_by(taken@.len()),
            forall|i: int|
                0 <= i < taken@.len() ==> origin.nth(i as nat) == Some(#[trigger] taken@[i]@),
        decreases count - taken.len(),
    {
        let at = current.unwrap();
        taken.push(at);
        current = step_forward(Some(at), step);
    }
    (taken, current)
}

/// A sequence of due instants drawn from a borrowed period.
pub struct PeriodIterator<'a> {
    pub(crate) period: &'a Period,
    pub(crate) current: Option<Instant>,
}

impl View for PeriodIterator<'_> {
    type V = Cursor;

    open(crate) spec fn view(&self) -> Cursor {
        Cursor { next: nanos_of(self.current), step: self.period.duration@ }
    }
}

impl<'a> PeriodIterator<'a> {
    /// Holds of every sequence that executable code can get hold of.
    #[verifier::type_invariant]
    pub open(crate) spec fn wf(self) -> bool {
        &&& self.period.wf()
        &&& self.current matches Some(at) ==> at.wf()
    }

    fn new(period: &'a Period, start: Option<Instant>) -> (it: Self)
        ensures
            it@ == (Cursor { next: nanos_of(start), step: period@.duration }),
            it.wf(),
    {
        proof {
            use_type_invariant(period);
            if let Some(at) = start {
                use_type_invariant(&at);
            }
        }
        PeriodIterator { period, current: start }
    }

    /// The sequence `start`, `start + duration`, `start + 2 * duration`, ...
    /// of `period`, whatever the time is now.
    pub fn new_fixed(period: &'a Period) -> (it: Self)
        ensures
            it.wf(),
            it@ == (Cursor { next: Some(period@.start), step: period@.duration }),
    {
        Self::new(period, Some(period.start))
    }

    /// The sequence of `period` that begins with the first instant of
    /// `start`, `start + duration`, ... lying strictly after the reading of
    /// the period's clock, and goes on in steps of `duration`.
    pub fn new_relative(period: &'a Period) -> (it: Self)
        ensures
            it.wf(),
            exists|now: Instant| #[trigger]
                period@.clock.admits(now) && it@ == (Cursor {
                    next: first_due(now@, period@.start, period@.duration),
                    step: period@.duration,
                }),
    {
        let start = next_available_timestamp(period.start, &period.duration, &period.clock);
        Self::new(period, start)
    }

    /// The instant that the sequence will yield next, if it has not run out.
    pub fn current(&self) -> (current: Option<Instant>)
        ensures
            nanos_of(current) == self@.next,
            current matches Some(t) ==> t.wf(),
    {
        proof {
            use_type_invariant(self);
        }
        self.current
    }

    /// Yields the next instant and moves on by one duration. The sequence
    /// has run out once an instant could not be represented.
    pub fn next(&mut self) -> (yielded: Option<Instant>)
        ensures
            nanos_of(yielded) == old(self)@.next,
            yielded matches Some(t) ==> t.wf(),
            final(self)@ == old(self)@.advance(),
            final(self).wf(),
    {
        proof {
            use_type_invariant(&*self);
        }
        let yielded = self.current;
        self.current = step_forward(yielded, &self.period.duration);
        yielded
    }

    /// Yields the next `count` instants, or fewer where the sequence runs
    /// out before.
    pub fn take(&mut self, count: usize) -> (taken: Vec<Instant>)
        ensures
            taken@.len() <= count,
            forall|i: int|
                0 <= i < taken@.len() ==> old(self)@.nth(i as nat) == Some(#[trigger] taken@[i]@),
            taken@.len() < count ==> old(self)@.nth(taken@.len()) is None,
            final(self)@ == old(self)@.advance_by(taken@.len()),
            final(self).wf(),
    {
        proof {
            use_type_invariant(&*self);
        }
        let (taken, rest) = take_upcoming(self.current, &self.period.duration, count);
        self.current = rest;
        taken
    }
}

/// A sequence of due instants that owns the period it was drawn from.
pub struct OwnedPeriodIterator {
    pub(crate) period: Period,
    pub(crate) current: Option<Instant>,
}

impl View for OwnedPeriodIterator {
    type V = Cursor;

    open(crate) spec fn view(&self) -> Cursor {
        Cursor { next: nanos_of(self.current), step: self.period.duration@ }
    }
}

impl OwnedPeriodIterator {
    /// Holds of every sequence that executable code can get hold of.
    #[verifier::type_invariant]
    pub open(crate) spec fn wf(self) -> bool {
        &&& self.period.wf()
        &&& self.current matches Some(at) ==> at.wf()
    }

    fn new(period: Period, start: Option<Instant>) -> (it: Self)
        ensures
            it@ == (Cursor { next: nanos_of(start), step: period@.duration }),
            it.wf(),
    {
        proof {
            use_type_invariant(&period);
            if let Some(at) = start {
                use_type_invariant(&at);
            }
        }
        OwnedPeriodIterator { period, current: start }
    }

    /// The sequence `start`, `start + duration`, `start + 2 * duration`, ...
    /// of `period`, whatever the time is now.
    pub fn new_fixed(period: Period) -> (it: Self)
        ensures
            it.wf(),
            it@ == (Cursor { next: Some(period@.start), step: period@.duration }),
    {
        let start = period.start;
        Self::new(period, Some(start))
    }

    /// The sequence of `period` that begins with the first instant of
    /// `start`, `start + duration`, ... lying strictly after the reading of
    /// the period's clock, and goes on in steps of `duration`.
    pub fn new_relative(period: Period) -> (it: Self)
        ensures
            it.wf(),
            exists|now: Instant| #[trigger]
                period@.clock.admits(now) && it@ == (Cursor {
                    next: first_due(now@, period@.start, period@.duration),
                    step: period@.duration,
                }),
    {
        let start = next_available_timestamp(period.start, &period.duration, &period.clock);
        Self::new(period, start)
    }

    /// The instant that the sequence will yield next, if it has not run out.
    pub fn current(&self) -> (current: Option<Instant>)
        ensures
            nanos_of(current) == self@.next,
            current matches Some(t) ==> t.wf(),
    {
        proof {
            use_type_invariant(self);
        }
        self.current
    }

    /// Yields the next instant and moves on by one duration. The sequence
    /// has run out once an instant could not be represented.
    pub fn next(&mut self) -> (yielded: Option<Instant>)
        ensures
            nanos_of(yielded) == old(self)@.next,
            yielded matches Some(t) ==> t.wf(),
            final(self)@ == old(self)@.advance(),
            final(self).wf(),
    {
        proof {
            use_type_invariant(&*self);
        }
        let yielded = self.current;
        self.current = step_forward(yielded, &self.period.duration);
        yielded
    }

    /// Yields the next `count` instants, or fewer where the sequence runs
    /// out before.
    pub fn take(&mut self, count: usize) -> (taken: Vec<Instant>)
        ensures
            taken@.len() <= count,
            forall|i: int|
                0 <= i < taken@.len() ==> old(self)@.nth(i as nat) == Some(#[trigger] taken@[i]@),
            taken@.len() < count ==> old(self)@.nth(taken@.len()) is None,
            final(self)@ == old(self)@.advance_by(taken@.len()),
            final(self).wf(),
    {
        proof {
            use_type_invariant(&*self);
        }
        let (taken, rest) = take_upcoming(self.current, &self.period.duration, count);
        self.current = rest;
        taken
    }
}

/// A sequence that begins at `first` and moves in steps of `step` yields
/// `first + n * step` after `n` instants have been taken from it, exactly,
/// for as long as that instant can be represented; from then on it yields
/// nothing.
pub proof fn law_nth_instant(first: int, step: int, n: nat)
    requires
        step > 0,
        instant_in_range(first),
    ensures
        (Cursor { next: Some(first), step }).nth(n) == if instant_in_range(first + n * step) {
            Some(first + n * step)
        } else {
            None::<int>
        },
        (Cursor { next: Some(first), step }).advance_by(n).step == step,
    decreases n,
{
    if n > 0 {
        law_nth_instant(first, step, (n - 1) as nat);
        assert(n * step == (n - 1) * step + step) by (nonlinear_arith);
        assert((n - 1) * step >= 0) by (nonlinear_arith)
            requires
                n >= 1,
                step > 0,
        ;
    } else {
        assert(n * step == 0) by (nonlinear_arith)
            requires
                n == 0,
        ;
    }
}

/// A sequence that has run out stays so.
pub proof fn law_exhausted_stays(step: int, n: nat)
    ensures
        (Cursor { next: None, step }).advance_by(n) == (Cursor { next: None, step }),
    decreases n,
{
    if n > 0 {
        law_exhausted_stays(step, (n - 1) as nat);
    }
}

/// The instants of a sequence come in strictly ascending order: each one
/// lies exactly `step` after the one before.
pub proof fn law_instants_ascend(cursor: Cursor, n: nat)
    requires
        cursor.step > 0,
    ensures
        cursor.nth(n + 1) matches Some(later) ==> cursor.nth(n) == Some(later - cursor.step),
        cursor.advance_by(n).step == cursor.step,
    decreases n,
{
    if n > 0 {
        law_instants_ascend(cursor, (n - 1) as nat);
    }
    assert(cursor.advance_by(n + 1) == cursor.advance_by(n).advance());
}

/// The instant that a catching-up sequence begins with lies strictly after
/// `now`, on the grid laid out from `start` in steps of `step`, and no
/// earlier point of that grid does.
pub proof fn law_first_after_is_least(now: int, start: int, step: int)
    requires
        step > 0,
    ensures
        steps_after(now, start, step) >= 0,
        first_after(now, start, step) > now,
        forall|k: int|
            k >= 0 && #[trigger] grid_point(start, step, k) > now ==> first_after(now, start, step)
                <= grid_point(start, step, k),
{
    let steps = steps_after(now, start, step);
    if now >= start {
        let gap = now - start;
        lemma_fundamental_div_mod(gap, step);
        lemma_mod_bound(gap, step);
        assert((gap / step + 1) * step == step * (gap / step) + step) by (nonlinear_arith);
        assert(gap / step >= 0) by (nonlinear_arith)
            requires
                gap == step * (gap / step) + gap % step,
                0 <= gap % step < step,
                gap >= 0,
                step > 0,
        ;
        assert forall|k: int| k >= 0 && #[trigger] grid_point(start, step, k) > now implies
            first_after(now, start, step) <= grid_point(start, step, k) by {
            assert(k >= gap / step + 1) by (nonlinear_arith)
                requires
                    k * step > gap,
                    gap == step * (gap / step) + gap % step,
                    0 <= gap % step < step,
                    step > 0,
            ;
            assert((gap / step + 1) * step <= k * step) by (nonlinear_arith)
                requires
                    k >= gap / step + 1,
                    step > 0,
            ;
        }
    } else {
        assert(steps * step == 0);
        assert forall|k: int| k >= 0 && #[trigger] grid_point(start, step, k) > now implies
            first_after(now, start, step) <= grid_point(start, step, k) by {
            assert(k * step >= 0) by (nonlinear_arith)
                requires
                    k >= 0,
                    step > 0,
            ;
        }
    }
}

/// Where the clock reads exactly the start of a period, the catching-up
/// sequence begins one duration later, not at the start itself.
pub proof fn law_catch_up_at_start(start: int, step: int)
    requires
        step > 0,
        step % (NANOS_PER_SEC as int) == 0,
    ensures
        first_after(start, start, step) == start + step,
        first_due(start, start, step) == if instant_in_range(start + step) {
            Some(start + step)
        } else {
            None::<int>
        },
{
    assert(0int / step == 0) by (nonlinear_arith)
        requires
            step > 0,
    ;
    assert((0int / step + 1) * step == step) by (nonlinear_arith)
        requires
            0int / step == 0,
    ;
}

/// Where the start of a period lies strictly after the reading of the
/// clock, the catching-up sequence begins at the start, unchanged.
pub proof fn law_catch_up_before_start(now: int, start: int, step: int)
    requires
        now < start,
        step > 0,
        step % (NANOS_PER_SEC as int) == 0,
        instant_in_range(start),
    ensures
        first_after(now, start, step) == start,
        first_due(now, start, step) == Some(start),
{
    assert(0 * step == 0);
}

/// Rounding leaves a whole number of seconds as it is. So a period whose
/// duration is a positive whole number of seconds is built with the very
/// duration that was given.
pub proof fn law_whole_seconds_stay(nanos: int)
    requires
        nanos % (NANOS_PER_SEC as int) == 0,
    ensures
        round_half_away(nanos) == nanos,
        instant_in_range(nanos) ==> nearest_second(nanos) == nanos,
{
}

/// Rounding never moves a span by more than half a second, and never
/// across zero: a span keeps its sign or becomes zero.
pub proof fn law_rounding_is_nearest(nanos: int)
    ensures
        round_half_away(nanos) % (NANOS_PER_SEC as int) == 0,
        -HALF_SECOND <= round_half_away(nanos) - nanos <= HALF_SECOND,
        nanos >= 0 ==> round_half_away(nanos) >= 0,
        nanos <= 0 ==> round_half_away(nanos) <= 0,
{
}

} // verus!
