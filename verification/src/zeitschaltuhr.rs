//! The scheduler: registered pairs of a temporal source and a task, and the
//! decisions that take each pair from one due instant to the next.
//!
//! Waiting is left to whoever drives a pair. The driver reads the clock,
//! asks the pair what to do, and either suspends for the time it is told or
//! fires the pair.

use vstd::prelude::*;

use crate::clock::Clock;
use crate::task::Task;
use crate::temporal_iterator::{Scheduling, SequenceView, TemporalIterator, TemporalSequence};
use crate::time::{Instant, Span, UtcOffset};

verus! {

/// Where the execution path of a registered pair stands.
///
/// A path is pending until the clock is seen to have reached its due
/// instant, then due until it is fired, executing while its task runs, and
/// pending again on the instant that its source yields next; or exhausted,
/// for good, where the source yields none.
#[derive(Clone, Copy, Debug, PartialEq, Eq, Structural)]
pub enum Phase {
    /// The next due instant is known and has not been seen reached.
    Pending { due: Instant },
    /// The clock has reached or passed the due instant.
    Due { due: Instant },
    /// The task is being run for the due instant. A path is found in this
    /// phase only where its task did not come back: it has ended with it.
    Executing { due: Instant },
    /// The source has no further instant. The path has ended.
    Exhausted,
}

/// What the driver of an execution path has to do next.
#[derive(Clone, Copy, Debug, PartialEq, Eq, Structural)]
pub enum Directive {
    /// Suspend for this long, then read the clock and ask again.
    Wait(Span),
    /// The pair is due: fire it.
    Fire,
    /// The path has ended: stop asking.
    Stop,
}

impl Phase {
    /// Whether this is the phase of a path that has just drawn `due` from
    /// its source: pending on that instant, or exhausted where there is none.
    pub open spec fn awaits(self, due: Option<int>) -> bool {
        match due {
            Some(at) => self matches Phase::Pending { due } && due@ == at && due.wf(),
            None => self == Phase::Exhausted,
        }
    }

    /// The phase once the clock has been read as `now`: a pending instant
    /// that the clock has reached or passed is due. Nothing else changes.
    pub open spec fn seen_at(self, now: Instant) -> Phase {
        match self {
            Phase::Pending { due } => if now@ < due@ {
                self
            } else {
                Phase::Due { due }
            },
            _ => self,
        }
    }

    /// Whether `directive` is what a path in this phase is told when the
    /// clock reads `now`: to wait out what is left until a pending instant,
    /// to fire where the instant is due, and to stop where the path has
    /// ended.
    pub open spec fn tells(self, now: Instant, directive: Directive) -> bool {
        match self {
            Phase::Pending { due } => if now@ < due@ {
                directive matches Directive::Wait(delay) && delay@ == due@ - now@ && delay.wf()
            } else {
                directive == Directive::Fire
            },
            Phase::Due { .. } => directive == Directive::Fire,
            Phase::Executing { .. } => directive == Directive::Stop,
            Phase::Exhausted => directive == Directive::Stop,
        }
    }
}

/// How long to wait at `now` for `due`: the time left until then, and no
/// time at all where `due` has been reached or lies in the past.
pub fn delay_until(due: &Instant, now: &Instant) -> (delay: Span)
    ensures
        delay.wf(),
        delay@ == if due@ > now@ {
            due@ - now@
        } else {
            0
        },
{
    now.span_until(due)
}

/// What a registered pair is: the state of its sequence, in which the
/// pending instant has already been drawn, its task, and the phase of its
/// path.
pub struct EntryView<T> {
    /// The sequence of the instants that follow the pending one.
    pub sequence: SequenceView,
    /// The task that is run at each due instant.
    pub task: T,
    /// Where the path stands.
    pub phase: Phase,
}

/// One temporal source bound to one task, with the state of its execution
/// path.
pub struct ScheduledTask<T: Task> {
    pub(crate) iterator: TemporalSequence,
    pub(crate) task: T,
    pub(crate) phase: Phase,
}

impl<T: Task> View for ScheduledTask<T> {
    type V = EntryView<T>;

    open(crate) spec fn view(&self) -> EntryView<T> {
        EntryView { sequence: self.iterator@, task: self.task, phase: self.phase }
    }
}

impl<T: Task> ScheduledTask<T> {
    /// Binds `task` to the sequence `iterator` and draws the first due
    /// instant from it.
    pub fn new(iterator: TemporalSequence, task: T) -> (entry: Self)
        ensures
            entry@.phase.awaits(iterator@.upcoming()),
            entry@.sequence == iterator@.advance(),
            entry@.task == task,
    {
        let mut iterator = iterator;
        let phase = match iterator.next() {
            Some(due) => Phase::Pending { due },
            None => Phase::Exhausted,
        };
        ScheduledTask { iterator, task, phase }
    }

    /// Where the path stands.
    pub fn phase(&self) -> (phase: Phase)
        ensures
            phase == self@.phase,
    {
        self.phase
    }

    /// The task of the pair.
    pub fn task(&self) -> (task: &T)
        ensures
            *task == self@.task,
    {
        &self.task
    }

    /// Tells the driver what to do when the clock reads `now`, and records
    /// that a pending instant has fallen due. The sequence is not touched.
    pub fn poll(&mut self, now: Instant) -> (directive: Directive)
        ensures
            old(self)@.phase.tells(now, directive),
            final(self)@.phase == old(self)@.phase.seen_at(now),
            final(self)@.sequence == old(self)@.sequence,
            final(self)@.task == old(self)@.task,
    {
        match self.phase {
            Phase::Pending { due } => {
                if now.is_before(&due) {
                    Directive::Wait(delay_until(&due, &now))
                } else {
                    self.phase = Phase::Due { due };
                    Directive::Fire
                }
            },
            Phase::Due { .. } => Directive::Fire,
            Phase::Executing { .. } => Directive::Stop,
            Phase::Exhausted => Directive::Stop,
        }
    }

    /// Fires a due pair: runs the task once, then draws the next due
    /// instant from the source. Returns whether the task was run; a pair
    /// that is not due is left as it is.
    pub fn fire(&mut self) -> (fired: bool)
        ensures
            fired == (old(self)@.phase is Due),
            fired ==> final(self)@.phase.awaits(old(self)@.sequence.upcoming()),
            fired ==> final(self)@.sequence == old(self)@.sequence.advance(),
            final(self)@.task == old(self)@.task,
            !fired ==> final(self)@ == old(self)@,
    {
        match self.phase {
            Phase::Due { due } => {
                self.phase = Phase::Executing { due };
                self.task.execute();
                self.phase = match self.iterator.next() {
                    Some(next) => Phase::Pending { due: next },
                    None => Phase::Exhausted,
                };
                true
            },
            _ => false,
        }
    }
}

/// The scheduler: a time zone, a clock, and the pairs registered so far,
/// in the order in which they came.
pub struct Zeitschaltuhr<T: Task> {
    pub(crate) timezone: UtcOffset,
    pub(crate) clock: Clock,
    pub(crate) tasks: Vec<ScheduledTask<T>>,
}

/// What a scheduler is: its zone, its clock, and its pairs in order of
/// registration.
pub struct ZeitschaltuhrView<T> {
    /// The zone that calendar schedules are read against, in seconds east
    /// of UTC.
    pub timezone: int,
    /// The clock that the scheduler reads.
    pub clock: Clock,
    /// The registered pairs.
    pub entries: Seq<EntryView<T>>,
}

impl<T> ZeitschaltuhrView<T> {
    /// Whether `after` is this scheduler with nothing changed but, at most,
    /// the pair `index`.
    pub open spec fn changed_at_most(self, after: Self, index: int) -> bool {
        &&& after.timezone == self.timezone
        &&& after.clock == self.clock
        &&& after.entries.len() == self.entries.len()
        &&& forall|other: int|
            0 <= other < self.entries.len() && other != index ==> after.entries[other]
                == self.entries[other]
    }
}

impl<T: Task> View for Zeitschaltuhr<T> {
    type V = ZeitschaltuhrView<T>;

    open(crate) spec fn view(&self) -> ZeitschaltuhrView<T> {
        ZeitschaltuhrView {
            timezone: self.timezone@,
            clock: self.clock,
            entries: Seq::new(self.tasks@.len(), |i: int| self.tasks@[i]@),
        }
    }
}

impl<T: Task> Zeitschaltuhr<T> {
    /// A scheduler for `timezone` with no pair registered, reading the
    /// machine's clock.
    pub fn new(timezone: UtcOffset) -> (uhr: Self)
        ensures
            uhr@ == (ZeitschaltuhrView::<T> {
                timezone: timezone@,
                clock: Clock::System,
                entries: Seq::<EntryView<T>>::empty(),
            }),
    {
        Zeitschaltuhr::with_clock(timezone, Clock::System)
    }

    /// A scheduler for `timezone` with no pair registered, reading `clock`.
    pub fn with_clock(timezone: UtcOffset, clock: Clock) -> (uhr: Self)
        ensures
            uhr@ == (ZeitschaltuhrView::<T> {
                timezone: timezone@,
                clock,
                entries: Seq::<EntryView<T>>::empty(),
            }),
    {
        let uhr = Zeitschaltuhr { timezone, clock, tasks: Vec::new() };
        assert(uhr@.entries =~= Seq::<EntryView<T>>::empty());
        uhr
    }

    /// How many pairs are registered.
    pub fn len(&self) -> (n: usize)
        ensures
            n == self@.entries.len(),
    {
        self.tasks.len()
    }

    /// Registers `task` with the source `temporal_iterator`: the new pair
    /// comes last, with the first due instant of its sequence drawn. The
    /// pairs registered before are left as they are. Nothing is run and
    /// nothing is waited for.
    pub fn add_task(&mut self, temporal_iterator: Scheduling, task: T)
        ensures
            final(self)@.timezone == old(self)@.timezone,
            final(self)@.clock == old(self)@.clock,
            final(self)@.entries.len() == old(self)@.entries.len() + 1,
            final(self)@.entries.drop_last() == old(self)@.entries,
            final(self)@.entries.last().task == task,
            exists|now: Instant| #[trigger]
                temporal_iterator.clock().admits(now) && {
                    let sequence = temporal_iterator.sequence_from(old(self)@.timezone, now@);
                    &&& final(self)@.entries.last().phase.awaits(sequence.upcoming())
                    &&& final(self)@.entries.last().sequence == sequence.advance()
                },
    {
        let iterator = temporal_iterator.iter_times(&self.timezone);
        let scheduled_task = ScheduledTask::new(iterator, task);
        self.tasks.push(scheduled_task);
        assert(self@.entries.drop_last() =~= old(self)@.entries);
    }

    /// Where the path of pair `index` stands, if there is such a pair.
    pub fn phase(&self, index: usize) -> (phase: Option<Phase>)
        ensures
            phase == if index < self@.entries.len() {
                Some(self@.entries[index as int].phase)
            } else {
                None
            },
    {
        if index < self.tasks.len() {
            Some(self.tasks[index].phase())
        } else {
            None
        }
    }

    /// Tells the driver of pair `index` what to do when the clock reads
    /// `now`, as [`ScheduledTask::poll`] does. No other pair is touched.
    /// `None` where there is no such pair.
    pub fn poll_at(&mut self, index: usize, now: Instant) -> (directive: Option<Directive>)
        ensures
            old(self)@.changed_at_most(final(self)@, index as int),
            directive is Some <==> index < old(self)@.entries.len(),
            directive matches Some(told) ==> {
                let before = old(self)@.entries[index as int];
                let after = final(self)@.entries[index as int];
                &&& before.phase.tells(now, told)
                &&& after.phase == before.phase.seen_at(now)
                &&& after.sequence == before.sequence
                &&& after.task == before.task
            },
    {
        if index < self.tasks.len() {
            let directive = self.tasks[index].poll(now);
            Some(directive)
        } else {
            None
        }
    }

    /// Tells the driver of pair `index` what to do now: reads the clock of
    /// the scheduler and goes on as [`Zeitschaltuhr::poll_at`] does with
    /// that reading.
    pub fn poll(&mut self, index: usize) -> (directive: Option<Directive>)
        ensures
            old(self)@.changed_at_most(final(self)@, index as int),
            directive is Some <==> index < old(self)@.entries.len(),
            directive matches Some(told) ==> exists|now: Instant| #[trigger]
                old(self)@.clock.admits(now) && {
                    let before = old(self)@.entries[index as int];
                    let after = final(self)@.entries[index as int];
                    &&& before.phase.tells(now, told)
                    &&& after.phase == before.phase.seen_at(now)
                    &&& after.sequence == before.sequence
                    &&& after.task == before.task
                },
    {
        let now = self.clock.now();
        self.poll_at(index, now)
    }

    /// Fires pair `index` as [`ScheduledTask::fire`] does. No other pair is
    /// touched. Returns whether the task was run: it is not where there is
    /// no such pair or the pair is not due.
    pub fn fire(&mut self, index: usize) -> (fired: bool)
        ensures
            old(self)@.changed_at_most(final(self)@, index as int),
            fired == (index < old(self)@.entries.len() && old(self)@.entries[index as int].phase
                is Due),
            fired ==> {
                let before = old(self)@.entries[index as int];
                let after = final(self)@.entries[index as int];
                &&& after.phase.awaits(before.sequence.upcoming())
                &&& after.sequence == before.sequence.advance()
                &&& after.task == before.task
            },
            !fired ==> final(self)@ == old(self)@,
    {
        if index < self.tasks.len() {
            let fired = self.tasks[index].fire();
            proof {
                if !fired {
                    assert(self@.entries =~= old(self)@.entries);
                }
            }
            fired
        } else {
            false
        }
    }

    /// The zone that calendar schedules are read against.
    pub fn timezone(&self) -> (timezone: UtcOffset)
        ensures
            timezone@ == self@.timezone,
    {
        self.timezone
    }

    /// The clock that the scheduler reads.
    pub fn clock(&self) -> (clock: Clock)
        ensures
            clock == self@.clock,
    {
        self.clock
    }

    /// Hands the registered pairs out, in order of registration, so that
    /// each can be driven on a path of its own.
    pub fn into_tasks(self) -> (tasks: Vec<ScheduledTask<T>>)
        ensures
            tasks@.len() == self@.entries.len(),
            forall|i: int| 0 <= i < tasks@.len() ==> (#[trigger] tasks@[i])@ == self@.entries[i],
    {
        self.tasks
    }
}

/// A due instant is never skipped: once the clock has reached or passed a
/// pending instant, however long ago, the path is due and is told to fire.
/// Before that it is told to wait exactly the time that is left.
pub proof fn law_pending_path(due: Instant, now: Instant, directive: Directive)
    requires
        (Phase::Pending { due }).tells(now, directive),
    ensures
        now@ >= due@ ==> {
            &&& directive == Directive::Fire
            &&& (Phase::Pending { due }).seen_at(now) == (Phase::Due { due })
        },
        now@ < due@ ==> {
            &&& directive matches Directive::Wait(delay) && delay@ == due@ - now@
            &&& (Phase::Pending { due }).seen_at(now) == (Phase::Pending { due })
        },
{
}

/// A path that has ended stays ended: whatever the clock reads, it is told
/// to stop and it does not leave its phase.
pub proof fn law_exhausted_path(now: Instant, directive: Directive)
    ensures
        Phase::Exhausted.seen_at(now) == Phase::Exhausted,
        Phase::Exhausted.tells(now, directive) <==> directive == Directive::Stop,
{
}

} // verus!
