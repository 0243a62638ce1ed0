//! The timer as the guest drives it.

use crate::devices::{le_u32, PortState, TIMER_FLAGS_PORT, TIMER_INTERVAL_PORT};
use crate::guest::io::{high_byte, low_byte, Bus, PortIo};
use crate::timer::{is_fired, TimerView, ENABLED, FIRED};
use vstd::prelude::*;

verus! {

/// The bus with the timer set to `timer`.
pub open spec fn with_timer(bus: Bus, timer: TimerView) -> Bus {
    Bus {
        devices: PortState {
            console: bus.devices.console,
            keyboard: bus.devices.keyboard,
            timer,
        },
        output: bus.output,
    }
}

/// A flags byte with the fired flag cleared.
pub open spec fn cleared(flags: u8) -> u8 {
    flags & !FIRED
}

/// The two bytes of a word, low byte first, spell the word.
pub proof fn lemma_word_bytes(word: u16)
    ensures
        le_u32(seq![low_byte(word), high_byte(word)]) == word,
{
    assert(((word & 0xff) as u8) as int + 0x100 * (((word >> 8) as u8) as int) == word as int)
        by (bit_vector);
}

/// The bus after the guest has set the interval and enabled the timer.
pub open spec fn armed(bus: Bus, millis: u16) -> Bus {
    with_timer(bus, TimerView { flags: ENABLED, interval: millis as u32 })
}

/// The bus after the guest has asked for a tick: the fired flag is cleared.
pub open spec fn tick_taken(bus: Bus) -> Bus {
    if is_fired(bus.devices.timer.flags) {
        with_timer(
            bus,
            TimerView {
                flags: cleared(bus.devices.timer.flags),
                interval: bus.devices.timer.interval,
            },
        )
    } else {
        bus
    }
}

/// Sets the timer's interval and enables the timer, with the fired flag
/// cleared.
pub fn enable<P: PortIo>(io: &mut P, millis: u16)
    ensures
        match old(io).bus() {
            Some(bus) => final(io).bus() == Some(armed(bus, millis)),
            None => final(io).bus() is None,
        },
{
    proof {
        lemma_word_bytes(millis);
    }
    io.outs(TIMER_INTERVAL_PORT, millis);
    io.outb(TIMER_FLAGS_PORT, ENABLED);
}

/// Asks whether the timer has fired since it was last asked, and clears the
/// fired flag if so. The other flags and the interval stay as they are.
pub fn poll<P: PortIo>(io: &mut P) -> (tick: bool)
    ensures
        match old(io).bus() {
            Some(bus) => tick == is_fired(bus.devices.timer.flags) && final(io).bus() == Some(
                tick_taken(bus),
            ) && !is_fired(tick_taken(bus).devices.timer.flags),
            None => final(io).bus() is None,
        },
{
    let reg = io.inb(TIMER_FLAGS_PORT);
    let tick = reg & FIRED != 0;
    assert((reg & !2u8) & 2u8 == 0) by (bit_vector);
    if tick {
        io.outb(TIMER_FLAGS_PORT, reg & !FIRED);
    }
    tick
}

} // verus!
