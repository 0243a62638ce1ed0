//! What the guest waits for: a key or a tick of the timer.

use crate::guest::io::{Bus, PortIo};
use crate::guest::keyboard::polled;
use crate::guest::timer::tick_taken;
use crate::timer::is_fired;
use vstd::prelude::*;

verus! {

/// Something that the guest reacts to.
#[derive(Clone, Copy, Debug, PartialEq, Eq, Structural)]
pub enum Event {
    /// A byte from the keyboard.
    Keyboard(u8),
    /// The timer has fired.
    Tick,
}

/// The event that one look at the devices finds: the oldest key that waits,
/// else a tick if the timer has fired, else nothing.
pub open spec fn pending_event(bus: Bus) -> Option<Event> {
    if bus.devices.keyboard.len() > 0 {
        Some(Event::Keyboard(bus.devices.keyboard[0]))
    } else if is_fired(bus.devices.timer.flags) {
        Some(Event::Tick)
    } else {
        None
    }
}

/// The bus after the guest has taken the event that waited: the key is gone
/// from the queue, or the fired flag is cleared.
pub open spec fn after_event(bus: Bus) -> Bus {
    if bus.devices.keyboard.len() > 0 {
        polled(bus)
    } else {
        tick_taken(bus)
    }
}

impl Event {
    /// Looks once at the keyboard and then at the timer, and takes the event
    /// that waits there. A key goes before a tick. `None` where nothing waits:
    /// a guest that has nothing else to do asks again.
    pub fn next<P: PortIo>(io: &mut P) -> (event: Option<Event>)
        ensures
            match old(io).bus() {
                Some(bus) => event == pending_event(bus) && final(io).bus() == Some(
                    after_event(bus),
                ),
                None => final(io).bus() is None,
            },
    {
        if let Some(c) = crate::guest::keyboard::poll(io) {
            Some(Event::Keyboard(c))
        } else if crate::guest::timer::poll(io) {
            Some(Event::Tick)
        } else {
            None
        }
    }
}

} // verus!
