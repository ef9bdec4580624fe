//! Instants and spans of time, held as whole seconds plus nanoseconds.
//!
//! Both types are plain values. Their views are integers counted in
//! nanoseconds, so that contracts can add and compare them directly.

use vstd::prelude::*;

verus! {

/// Nanoseconds in one second.
pub const NANOS_PER_SEC: i64 = 1_000_000_000;

/// The earliest second an [`Instant`] can name, counted from the Unix epoch:
/// midnight of 1 January in the year -262143.
pub const MIN_TIMESTAMP: i64 = -8_334_601_228_800;

/// The latest second an [`Instant`] can name, counted from the Unix epoch:
/// the last second of 31 December in the year 262142.
pub const MAX_TIMESTAMP: i64 = 8_210_266_876_799;

/// The largest number of whole seconds a [`Span`] can hold, in either
/// direction.
pub const MAX_SPAN_SECONDS: i64 = 9_223_372_036_854_775;

/// Whether `nanos`, counted from the Unix epoch, names a representable instant.
pub open spec fn instant_in_range(nanos: int) -> bool {
    MIN_TIMESTAMP * NANOS_PER_SEC <= nanos < (MAX_TIMESTAMP + 1) * NANOS_PER_SEC
}

/// Whether a signed count of nanoseconds is a representable span.
pub open spec fn span_in_range(nanos: int) -> bool {
    -MAX_SPAN_SECONDS * NANOS_PER_SEC <= nanos <= MAX_SPAN_SECONDS * NANOS_PER_SEC
}

/// A point on the UTC time line: whole seconds since the Unix epoch, rounded
/// down, and the nanoseconds that have passed since that second.
#[derive(Clone, Copy, Debug, PartialEq, Eq, PartialOrd, Ord, Hash, Structural)]
pub struct Instant {
    pub(crate) secs: i64,
    pub(crate) nanos: u32,
}

impl View for Instant {
    type V = int;

    /// Nanoseconds since the Unix epoch.
    open(crate) spec fn view(&self) -> int {
        self.secs * NANOS_PER_SEC + self.nanos
    }
}

impl Instant {
    /// Holds of every instant that executable code can get hold of.
    #[verifier::type_invariant]
    pub open(crate) spec fn wf(self) -> bool {
        &&& MIN_TIMESTAMP <= self.secs <= MAX_TIMESTAMP
        &&& self.nanos < NANOS_PER_SEC
    }

    /// Whether the instant falls on a second boundary.
    pub open spec fn is_whole(self) -> bool {
        self@ % (NANOS_PER_SEC as int) == 0
    }

    /// The instant `nanos` nanoseconds after second `secs` of the Unix epoch,
    /// or `None` where the second is out of range or `nanos` is not below one
    /// second.
    pub fn new(secs: i64, nanos: u32) -> (r: Option<Instant>)
        ensures
            r is Some <==> MIN_TIMESTAMP <= secs <= MAX_TIMESTAMP && nanos < NANOS_PER_SEC,
            r matches Some(t) ==> t.wf() && t@ == secs * NANOS_PER_SEC + nanos,
    {
        if MIN_TIMESTAMP <= secs && secs <= MAX_TIMESTAMP && nanos < 1_000_000_000 {
            Some(Instant { secs, nanos })
        } else {
            None
        }
    }

    /// The representable instant nearest to the given reading: the second is
    /// brought into range and the nanoseconds are cut off below one second.
    pub fn clamped(secs: i64, nanos: u32) -> (t: Instant)
        ensures
            t.wf(),
            t@ == clamp_timestamp(secs as int) * NANOS_PER_SEC + clamp_subsec(nanos as int),
    {
        let secs: i64 = if secs < MIN_TIMESTAMP {
            MIN_TIMESTAMP
        } else if secs > MAX_TIMESTAMP {
            MAX_TIMESTAMP
        } else {
            secs
        };
        let nanos: u32 = if nanos >= 1_000_000_000 {
            999_999_999
        } else {
            nanos
        };
        Instant { secs, nanos }
    }

    /// Whole seconds since the Unix epoch, rounded down.
    pub fn timestamp(&self) -> (secs: i64)
        ensures
            secs == self@ / (NANOS_PER_SEC as int),
            MIN_TIMESTAMP <= secs <= MAX_TIMESTAMP,
    {
        proof {
            use_type_invariant(self);
        }
        self.secs
    }

    /// Nanoseconds since the last second boundary.
    pub fn timestamp_subsec_nanos(&self) -> (nanos: u32)
        ensures
            nanos == self@ % (NANOS_PER_SEC as int),
    {
        proof {
            use_type_invariant(self);
        }
        self.nanos
    }

    /// Whether this instant lies strictly before `other`.
    pub fn is_before(&self, other: &Instant) -> (b: bool)
        ensures
            b == (self@ < other@),
    {
        proof {
            use_type_invariant(self);
            use_type_invariant(other);
        }
        self.secs < other.secs || (self.secs == other.secs && self.nanos < other.nanos)
    }

    /// This instant moved by `span`, or `None` where the result would leave
    /// the representable range.
    pub fn checked_add(&self, span: &Span) -> (r: Option<Instant>)
        ensures
            r is Some <==> instant_in_range(self@ + span@),
            r matches Some(t) ==> t.wf() && t@ == self@ + span@,
    {
        proof {
            use_type_invariant(self);
            use_type_invariant(span);
        }
        let mut secs: i64 = self.secs + span.secs;
        let mut nanos: i64 = self.nanos as i64 + span.nanos as i64;
        if nanos < 0 {
            secs = secs - 1;
            nanos = nanos + NANOS_PER_SEC;
        } else if nanos >= NANOS_PER_SEC {
            secs = secs + 1;
            nanos = nanos - NANOS_PER_SEC;
        }
        if MIN_TIMESTAMP <= secs && secs <= MAX_TIMESTAMP {
            Some(Instant { secs, nanos: nanos as u32 })
        } else {
            None
        }
    }

    /// The time from this instant until `later`, or a zero span where `later`
    /// is not after it.
    pub fn span_until(&self, later: &Instant) -> (span: Span)
        ensures
            span.wf(),
            span@ == if later@ > self@ { later@ - self@ } else { 0 },
    {
        proof {
            use_type_invariant(self);
            use_type_invariant(later);
        }
        if later.is_before(self) || (later.secs == self.secs && later.nanos == self.nanos) {
            Span { secs: 0, nanos: 0 }
        } else if later.nanos >= self.nanos {
            Span { secs: later.secs - self.secs, nanos: (later.nanos - self.nanos) as i32 }
        } else {
            Span {
                secs: later.secs - self.secs - 1,
                nanos: (later.nanos + 1_000_000_000 - self.nanos) as i32,
            }
        }
    }
}

/// The nanosecond count of an instant that may be missing.
pub open spec fn nanos_of(instant: Option<Instant>) -> Option<int> {
    match instant {
        Some(at) => Some(at@),
        None => None,
    }
}

/// `secs` brought into the range of seconds an [`Instant`] can name.
pub open spec fn clamp_timestamp(secs: int) -> int {
    if secs < MIN_TIMESTAMP {
        MIN_TIMESTAMP as int
    } else if secs > MAX_TIMESTAMP {
        MAX_TIMESTAMP as int
    } else {
        secs
    }
}

/// `nanos` cut off below one second.
pub open spec fn clamp_subsec(nanos: int) -> int {
    if nanos >= NANOS_PER_SEC {
        NANOS_PER_SEC - 1
    } else {
        nanos
    }
}

/// A signed length of time: whole seconds, rounded toward zero, and the
/// remaining nanoseconds, which carry the sign of the span.
#[derive(Clone, Copy, Debug, PartialEq, Eq, PartialOrd, Ord, Hash, Structural)]
pub struct Span {
    pub(crate) secs: i64,
    pub(crate) nanos: i32,
}

impl View for Span {
    type V = int;

    /// The signed length in nanoseconds.
    open(crate) spec fn view(&self) -> int {
        self.secs * NANOS_PER_SEC + self.nanos
    }
}

impl Span {
    /// Holds of every span that executable code can get hold of.
    #[verifier::type_invariant]
    pub open(crate) spec fn wf(self) -> bool {
        &&& -MAX_SPAN_SECONDS <= self.secs <= MAX_SPAN_SECONDS
        &&& -NANOS_PER_SEC < self.nanos < NANOS_PER_SEC
        &&& self.secs > 0 ==> self.nanos >= 0
        &&& self.secs < 0 ==> self.nanos <= 0
        &&& (self.secs == MAX_SPAN_SECONDS || self.secs == -MAX_SPAN_SECONDS) ==> self.nanos == 0
    }

    /// Whether the span is a whole number of seconds.
    pub open spec fn is_whole(self) -> bool {
        self@ % (NANOS_PER_SEC as int) == 0
    }

    /// Whether `secs` and `nanos` are the two parts of one span: the
    /// nanoseconds stay below one second and do not pull against the sign of
    /// the seconds.
    pub open spec fn parts_agree(secs: int, nanos: int) -> bool {
        &&& -NANOS_PER_SEC < nanos < NANOS_PER_SEC
        &&& secs > 0 ==> nanos >= 0
        &&& secs < 0 ==> nanos <= 0
    }

    /// The span of `secs` seconds and `nanos` nanoseconds, or `None` where
    /// the two parts do not agree or the span is out of range.
    pub fn new(secs: i64, nanos: i32) -> (r: Option<Span>)
        ensures
            r is Some <==> Span::parts_agree(secs as int, nanos as int) && span_in_range(
                secs * NANOS_PER_SEC + nanos,
            ),
            r matches Some(d) ==> d.wf() && d@ == secs * NANOS_PER_SEC + nanos,
    {
        let agree = -1_000_000_000 < nanos && nanos < 1_000_000_000 && (secs <= 0 || nanos >= 0)
            && (secs >= 0 || nanos <= 0);
        let fits = -MAX_SPAN_SECONDS <= secs && secs <= MAX_SPAN_SECONDS && ((secs
            != MAX_SPAN_SECONDS && secs != -MAX_SPAN_SECONDS) || nanos == 0);
        if agree && fits {
            Some(Span { secs, nanos })
        } else {
            None
        }
    }

    /// The span of `secs` whole seconds, or `None` where that is out of range.
    pub fn seconds(secs: i64) -> (r: Option<Span>)
        ensures
            r is Some <==> -MAX_SPAN_SECONDS <= secs <= MAX_SPAN_SECONDS,
            r matches Some(d) ==> d.wf() && d@ == secs * NANOS_PER_SEC && d.is_whole(),
    {
        if -MAX_SPAN_SECONDS <= secs && secs <= MAX_SPAN_SECONDS {
            Some(Span { secs, nanos: 0 })
        } else {
            None
        }
    }

    /// Whole seconds in the span, rounded toward zero.
    pub fn num_seconds(&self) -> (secs: i64)
        ensures
            self@ >= 0 ==> secs == self@ / (NANOS_PER_SEC as int),
            self@ < 0 ==> secs == -((-self@) / (NANOS_PER_SEC as int)),
            -MAX_SPAN_SECONDS <= secs <= MAX_SPAN_SECONDS,
    {
        proof {
            use_type_invariant(self);
        }
        self.secs
    }

    /// What is left of the span beyond its whole seconds, in nanoseconds.
    pub fn subsec_nanos(&self) -> (nanos: i32)
        ensures
            self@ >= 0 ==> nanos == self@ % (NANOS_PER_SEC as int),
            self@ < 0 ==> nanos == -((-self@) % (NANOS_PER_SEC as int)),
    {
        proof {
            use_type_invariant(self);
        }
        self.nanos
    }

    /// Whether the span has no length.
    pub fn is_zero(&self) -> (b: bool)
        ensures
            b == (self@ == 0),
    {
        proof {
            use_type_invariant(self);
        }
        self.secs == 0 && self.nanos == 0
    }

    /// Whether the span points backwards in time.
    pub fn is_negative(&self) -> (b: bool)
        ensures
            b == (self@ < 0),
    {
        proof {
            use_type_invariant(self);
        }
        self.secs < 0 || self.nanos < 0
    }
}

/// A time zone that stays a fixed number of seconds east of UTC.
#[derive(Clone, Copy, Debug, PartialEq, Eq, Hash, Structural)]
pub struct UtcOffset {
    pub(crate) east_seconds: i32,
}

impl View for UtcOffset {
    type V = int;

    /// Seconds east of UTC; negative to the west.
    open(crate) spec fn view(&self) -> int {
        self.east_seconds as int
    }
}

impl UtcOffset {
    /// Holds of every offset that executable code can get hold of: it stays
    /// below one day in either direction.
    #[verifier::type_invariant]
    pub open(crate) spec fn wf(self) -> bool {
        -86_400 < self.east_seconds < 86_400
    }

    /// The zone `east_seconds` seconds east of UTC, or `None` where the
    /// offset is a day or more.
    pub fn new(east_seconds: i32) -> (r: Option<UtcOffset>)
        ensures
            r is Some <==> -86_400 < east_seconds < 86_400,
            r matches Some(zone) ==> zone.wf() && zone@ == east_seconds,
    {
        if -86_400 < east_seconds && east_seconds < 86_400 {
            Some(UtcOffset { east_seconds })
        } else {
            None
        }
    }

    /// UTC itself.
    pub fn utc() -> (zone: UtcOffset)
        ensures
            zone.wf(),
            zone@ == 0,
    {
        UtcOffset { east_seconds: 0 }
    }

    /// Seconds east of UTC; negative to the west.
    pub fn east_seconds(&self) -> (secs: i32)
        ensures
            secs == self@,
            -86_400 < secs < 86_400,
    {
        proof {
            use_type_invariant(self);
        }
        self.east_seconds
    }
}

} // verus!
