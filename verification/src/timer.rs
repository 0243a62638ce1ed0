//! The timer device: a flags byte and an interval, and what the ticking
//! thread decides each time it wakes.
//!
//! The guest enables the timer and sets its interval through two ports. A
//! ticker sleeps for one interval at a time. After each sleep it marks the
//! timer as fired if the timer is enabled; if not, it waits until a write to
//! the flags wakes it, and sleeps again once the timer is enabled.

use vstd::prelude::*;

verus! {

/// The flag that the guest sets to let the timer fire.
pub const ENABLED: u8 = 1;

/// The flag that the ticker sets when an interval has passed, and that only
/// the guest clears.
pub const FIRED: u8 = 2;

/// Whether the enabled flag is set in a flags byte.
pub open spec fn is_enabled(flags: u8) -> bool {
    flags & ENABLED != 0
}

/// Whether the fired flag is set in a flags byte.
pub open spec fn is_fired(flags: u8) -> bool {
    flags & FIRED != 0
}

/// The flags byte of the timer.
#[derive(Clone, Copy, Debug, Default, PartialEq, Eq)]
pub struct TimerFlags(pub u8);

impl TimerFlags {
    /// Whether the timer is enabled.
    pub fn enabled(&self) -> (yes: bool)
        ensures
            yes == is_enabled(self.0),
    {
        self.0 & ENABLED != 0
    }

    /// Marks the timer as fired. The other flags stay as they are.
    pub fn fire(&mut self)
        ensures
            final(self).0 == old(self).0 | FIRED,
            is_fired(final(self).0),
            is_enabled(final(self).0) == is_enabled(old(self).0),
    {
        let before: u8 = self.0;
        assert((before | 2) & 2 != 0 && ((before | 2) & 1 != 0) == (before & 1 != 0))
            by (bit_vector);
        self.0 = before | FIRED;
    }
}

/// What the guest can see of the timer, and what it has set.
pub struct TimerView {
    pub flags: u8,
    /// The interval in milliseconds.
    pub interval: u32,
}

/// What the ticker does next.
#[derive(Clone, Copy, Debug, PartialEq, Eq, Structural)]
pub enum TickerStep {
    /// Sleep for so many milliseconds, then ask again with `after_sleep`.
    Sleep { millis: u32 },
    /// Wait until a write to the flags wakes the ticker, then ask again with
    /// `after_wake`.
    Wait,
}

/// What the ticker does once it finds the timer in this state, after a sleep
/// or a wake-up: it sleeps for the interval that is set at that moment if the
/// timer is enabled, and waits if not.
pub open spec fn next_step(timer: TimerView) -> TickerStep {
    if is_enabled(timer.flags) {
        TickerStep::Sleep { millis: timer.interval }
    } else {
        TickerStep::Wait
    }
}

/// The timer after one sleep of the ticker has ended: fired, if it is
/// enabled; unchanged, if not.
pub open spec fn slept(timer: TimerView) -> TimerView {
    if is_enabled(timer.flags) {
        TimerView { flags: timer.flags | FIRED, interval: timer.interval }
    } else {
        timer
    }
}

/// The state of the timer.
pub struct Timer {
    interval: u32,
    flags: TimerFlags,
}

impl View for Timer {
    type V = TimerView;

    closed spec fn view(&self) -> TimerView {
        TimerView { flags: self.flags.0, interval: self.interval }
    }
}

impl Default for Timer {
    /// A timer that is disabled and has not fired, with an interval of zero.
    fn default() -> (timer: Self)
        ensures
            timer@ == (TimerView { flags: 0, interval: 0 }),
    {
        Timer { interval: 0, flags: TimerFlags(0) }
    }
}

impl Timer {
    /// A timer that is disabled and has not fired, with an interval of zero.
    pub fn new() -> (timer: Self)
        ensures
            timer@ == (TimerView { flags: 0, interval: 0 }),
    {
        Timer { interval: 0, flags: TimerFlags(0) }
    }

    /// The interval in milliseconds.
    pub fn interval(&self) -> (millis: u64)
        ensures
            millis == self@.interval,
    {
        self.interval as u64
    }

    /// Sets the interval. A sleep of the ticker that has begun is not cut
    /// short or extended: the ticker reads the interval when it next decides
    /// to sleep.
    pub fn set_interval(&mut self, millis: u32)
        ensures
            final(self)@ == (TimerView { flags: old(self)@.flags, interval: millis }),
    {
        self.interval = millis;
    }

    /// The flags byte as the guest reads it.
    pub fn flags(&self) -> (flags: u8)
        ensures
            flags == self@.flags,
    {
        self.flags.0
    }

    /// Sets the flags byte to what the guest wrote: this is how the guest
    /// enables and disables the timer and clears the fired flag. A ticker that
    /// waits has to be woken after every call.
    pub fn set_flags(&mut self, val: u8)
        ensures
            final(self)@ == (TimerView { flags: val, interval: old(self)@.interval }),
    {
        self.flags = TimerFlags(val);
    }

    /// What the ticker does first: it sleeps for one interval, enabled or not.
    pub fn first_step(&self) -> (step: TickerStep)
        ensures
            step == (TickerStep::Sleep { millis: self@.interval }),
    {
        TickerStep::Sleep { millis: self.interval }
    }

    /// The ticker's decision when a sleep has ended. An enabled timer fires
    /// and the ticker sleeps again; a disabled timer is left alone and the
    /// ticker waits.
    pub fn after_sleep(&mut self) -> (step: TickerStep)
        ensures
            final(self)@ == slept(old(self)@),
            step == next_step(old(self)@),
    {
        if self.flags.enabled() {
            self.flags.fire();
            TickerStep::Sleep { millis: self.interval }
        } else {
            TickerStep::Wait
        }
    }

    /// The ticker's decision when it was woken from a wait. Nothing fires
    /// here. If the timer is enabled by now the ticker sleeps for one interval;
    /// if not, as after a wake-up without cause, it waits again.
    pub fn after_wake(&self) -> (step: TickerStep)
        ensures
            step == next_step(self@),
    {
        if self.flags.enabled() {
            TickerStep::Sleep { millis: self.interval }
        } else {
            TickerStep::Wait
        }
    }
}

/// Enabling the timer does not fire it: after the write the fired flag is
/// what the guest wrote, and the ticker, woken, sleeps for one interval. Only
/// when that sleep has ended is the fired flag set.
pub proof fn lemma_enabling_fires_after_one_interval(timer: TimerView, written: u8)
    requires
        is_enabled(written),
    ensures
        ({
            let enabled = TimerView { flags: written, interval: timer.interval };
            &&& is_fired(enabled.flags) == is_fired(written)
            &&& next_step(enabled) == (TickerStep::Sleep { millis: timer.interval })
            &&& is_fired(slept(enabled).flags)
            &&& is_enabled(slept(enabled).flags)
        }),
{
    assert((written | 2) & 2 != 0 && ((written | 2) & 1 != 0) == (written & 1 != 0))
        by (bit_vector);
}

/// A disabled timer does not fire: a sleep that ends leaves it as it is, and
/// the ticker waits, after that sleep and after every wake-up, for as long as
/// the timer is disabled.
pub proof fn lemma_disabled_timer_is_suspended(timer: TimerView)
    requires
        !is_enabled(timer.flags),
    ensures
        slept(timer) == timer,
        next_step(timer) == TickerStep::Wait,
{
}

/// The monitor never clears the fired flag: a sleep that ends leaves a fired
/// timer fired.
pub proof fn lemma_fired_stays_fired(timer: TimerView)
    requires
        is_fired(timer.flags),
    ensures
        is_fired(slept(timer).flags),
{
    let flags = timer.flags;
    assert(flags & 2 != 0 ==> (flags | 2) & 2 != 0) by (bit_vector);
}

/// A new interval leaves the flags alone and governs the next sleep that the
/// ticker decides on: the length of a sleep is fixed when the ticker decides
/// on it, so a sleep that has begun keeps the length it was given.
pub proof fn lemma_interval_governs_next_sleep(timer: TimerView, millis: u32)
    requires
        is_enabled(timer.flags),
    ensures
        ({
            let changed = TimerView { flags: timer.flags, interval: millis };
            &&& next_step(timer) == (TickerStep::Sleep { millis: timer.interval })
            &&& next_step(changed) == (TickerStep::Sleep { millis })
            &&& slept(changed).interval == millis
            &&& slept(changed).flags == slept(timer).flags
        }),
{
}

} // verus!
