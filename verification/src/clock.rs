//! Times of day and the half-open trigger window that gates a notification kind.

use chrono::{Local, NaiveTime, Timelike};
use vstd::prelude::*;

verus! {

/// Whole seconds in one day.
pub const SECONDS_PER_DAY: u32 = 86_400;

/// Ticks in one second slot. A tick is a nanosecond; the slot is twice as long
/// as a second so that a leap second can be told from the second before it.
pub const TICKS_PER_SLOT: u32 = 2_000_000_000;

/// A wall-clock time without a date, as seconds since midnight and the
/// nanoseconds past that second.
#[derive(Clone, Copy, Debug, PartialEq, Eq, Structural)]
pub struct TimeOfDay {
    secs: u32,
    frac: u32,
}

/// `chrono::NaiveTime::from_hms_opt`, read back through
/// `Timelike::num_seconds_from_midnight` and `Timelike::nanosecond`.
///
/// Not proved: that chrono accepts exactly the hours below 24 with minutes and
/// seconds below 60, and that the time it builds lies `hour * 3600 + min * 60 + sec`
/// whole seconds after midnight.
#[verifier::external_body]
fn naive_time_from_hms(hour: u32, min: u32, sec: u32) -> (parts: Option<(u32, u32)>)
    ensures
        parts == (if hour < 24 && min < 60 && sec < 60 {
            Some(((hour * 3600 + min * 60 + sec) as u32, 0u32))
        } else {
            None
        }),
{
    match NaiveTime::from_hms_opt(hour, min, sec) {
        Some(time) => Some((time.num_seconds_from_midnight(), time.nanosecond())),
        None => None,
    }
}

/// `chrono::Local::now`, then `DateTime::time`, read back through
/// `Timelike::num_seconds_from_midnight` and `Timelike::nanosecond`.
///
/// Not proved: that every time chrono hands out keeps its seconds below one day
/// and its nanoseconds below two seconds. Nothing is said of which time it is.
#[verifier::external_body]
fn local_naive_time() -> (parts: (u32, u32))
    ensures
        parts.0 < SECONDS_PER_DAY,
        parts.1 < TICKS_PER_SLOT,
{
    let time: NaiveTime = Local::now().time();
    (time.num_seconds_from_midnight(), time.nanosecond())
}

impl TimeOfDay {
    /// Seconds since midnight.
    pub closed spec fn seconds(self) -> nat {
        self.secs as nat
    }

    /// Nanoseconds since the start of the second; a million thousand or more
    /// inside a leap second.
    pub closed spec fn fraction(self) -> nat {
        self.frac as nat
    }

    /// What every time of day satisfies: it lies within one day, and its
    /// fraction within one slot.
    #[verifier::type_invariant]
    pub closed spec fn valid(self) -> bool {
        self.secs < SECONDS_PER_DAY && self.frac < TICKS_PER_SLOT
    }

    /// The position of this time on the day's axis, counted in ticks.
    /// Earlier times have fewer ticks.
    pub open spec fn ticks(self) -> nat {
        self.seconds() * (TICKS_PER_SLOT as nat) + self.fraction()
    }

    /// The time `secs` seconds and `nanos` nanoseconds after midnight, or `None`
    /// when that is no time of one day.
    pub fn new(secs: u32, nanos: u32) -> (time: Option<TimeOfDay>)
        ensures
            time is Some <==> secs < SECONDS_PER_DAY && nanos < TICKS_PER_SLOT,
            time matches Some(t) ==> t.valid() && t.seconds() == secs && t.fraction() == nanos,
    {
        if secs < SECONDS_PER_DAY && nanos < TICKS_PER_SLOT {
            Some(TimeOfDay { secs, frac: nanos })
        } else {
            None
        }
    }

    /// The time at `hour:min:sec`, or `None` when the hour is 24 or more or the
    /// minute or second 60 or more.
    pub fn from_hms(hour: u32, min: u32, sec: u32) -> (time: Option<TimeOfDay>)
        ensures
            time is Some <==> hour < 24 && min < 60 && sec < 60,
            time matches Some(t) ==> t.valid() && t.seconds() == hour * 3600 + min * 60 + sec
                && t.fraction() == 0,
    {
        match naive_time_from_hms(hour, min, sec) {
            Some((secs, frac)) => Some(TimeOfDay { secs, frac }),
            None => None,
        }
    }

    /// The local wall-clock time at the moment of the call.
    pub fn now_local() -> (time: TimeOfDay)
        ensures
            time.valid(),
    {
        let (secs, frac) = local_naive_time();
        let time: Option<TimeOfDay> = TimeOfDay::new(secs, frac);
        time.unwrap()
    }

    /// Seconds since midnight.
    pub fn seconds_from_midnight(&self) -> (secs: u32)
        ensures
            secs == self.seconds(),
            secs < SECONDS_PER_DAY,
    {
        proof {
            use_type_invariant(self);
        }
        self.secs
    }

    /// Nanoseconds since the start of the second.
    pub fn nanosecond(&self) -> (nanos: u32)
        ensures
            nanos == self.fraction(),
            nanos < TICKS_PER_SLOT,
    {
        proof {
            use_type_invariant(self);
        }
        self.frac
    }

    /// Whether this time comes strictly before `other`.
    pub fn is_before(&self, other: &TimeOfDay) -> (before: bool)
        ensures
            before == (self.ticks() < other.ticks()),
    {
        proof {
            use_type_invariant(self);
            use_type_invariant(other);
            lemma_ticks_order(*self, *other);
        }
        self.secs < other.secs || (self.secs == other.secs && self.frac < other.frac)
    }
}

/// Ticks order valid times as seconds-then-fraction does, and tell them apart.
pub proof fn lemma_ticks_order(a: TimeOfDay, b: TimeOfDay)
    requires
        a.valid(),
        b.valid(),
    ensures
        a.ticks() < b.ticks() <==> a.seconds() < b.seconds() || (a.seconds() == b.seconds()
            && a.fraction() < b.fraction()),
        a.ticks() == b.ticks() <==> a == b,
{
}

/// The half-open interval `[start, end)` of times of day during which a
/// notification kind fires. A window whose end is not after its start is empty.
#[derive(Clone, Copy, Debug, PartialEq, Eq, Structural)]
pub struct TriggerWindow {
    start: TimeOfDay,
    end: TimeOfDay,
}

impl TriggerWindow {
    /// The first time inside the window.
    pub closed spec fn start(self) -> TimeOfDay {
        self.start
    }

    /// The first time after the window.
    pub closed spec fn end(self) -> TimeOfDay {
        self.end
    }

    /// Both ends are times of one day.
    #[verifier::type_invariant]
    pub open spec fn valid(self) -> bool {
        self.start().valid() && self.end().valid()
    }

    /// Whether `now` lies in `[start, end)`.
    pub open spec fn contains(self, now: TimeOfDay) -> bool {
        self.start().ticks() <= now.ticks() < self.end().ticks()
    }

    /// The window from `start` up to, and without, `end`.
    pub fn new(start: TimeOfDay, end: TimeOfDay) -> (window: TriggerWindow)
        ensures
            window.start() == start,
            window.end() == end,
            window.valid(),
    {
        proof {
            use_type_invariant(start);
            use_type_invariant(end);
        }
        TriggerWindow { start, end }
    }

    /// The minute from 08:30:00 that the daily notifications use.
    pub fn morning() -> (window: TriggerWindow)
        ensures
            window.valid(),
            window.start().seconds() == 8 * 3600 + 30 * 60,
            window.start().fraction() == 0,
            window.end().seconds() == 8 * 3600 + 31 * 60,
            window.end().fraction() == 0,
    {
        let start: Option<TimeOfDay> = TimeOfDay::from_hms(8, 30, 0);
        let end: Option<TimeOfDay> = TimeOfDay::from_hms(8, 31, 0);
        TriggerWindow { start: start.unwrap(), end: end.unwrap() }
    }

    /// The first time inside the window.
    pub fn start_time(&self) -> (start: TimeOfDay)
        ensures
            start == self.start(),
    {
        self.start
    }

    /// The first time after the window.
    pub fn end_time(&self) -> (end: TimeOfDay)
        ensures
            end == self.end(),
    {
        self.end
    }
}

/// The clock gate: whether `now` lies inside `window`. Only the time of day is
/// compared, so the answer is the same on every date.
pub fn inside_window(now: TimeOfDay, window: TriggerWindow) -> (inside: bool)
    ensures
        inside == window.contains(now),
{
    !now.is_before(&window.start) && now.is_before(&window.end)
}

/// The window is closed at its start and open at its end: every time from the
/// start up to the last tick before the end is inside; the end itself, and the
/// tick before the start, are outside.
pub proof fn lemma_window_is_half_open(now: TimeOfDay, window: TriggerWindow)
    requires
        now.valid(),
        window.valid(),
    ensures
        window.start().ticks() <= now.ticks() < window.end().ticks() ==> window.contains(now),
        now == window.start() && window.start().ticks() < window.end().ticks()
            ==> window.contains(now),
        now == window.end() ==> !window.contains(now),
        now.ticks() + 1 == window.start().ticks() ==> !window.contains(now),
        window.end().ticks() <= window.start().ticks() ==> !window.contains(now),
{
}

} // verus!
