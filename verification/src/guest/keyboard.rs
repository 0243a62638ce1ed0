//! Keyboard input in the guest.

use crate::devices::{PortState, KEYBOARD_DATA_PORT, KEYBOARD_STATUS_PORT};
use crate::guest::io::{Bus, PortIo};
use crate::keyboard::acknowledged;
use vstd::prelude::*;

verus! {

/// The bus after the guest has taken the oldest byte from the keyboard queue,
/// if there was one.
pub open spec fn polled(bus: Bus) -> Bus {
    Bus {
        devices: PortState {
            console: bus.devices.console,
            keyboard: acknowledged(bus.devices.keyboard),
            timer: bus.devices.timer,
        },
        output: bus.output,
    }
}

/// The oldest key that waits in the keyboard queue, if one does.
pub open spec fn oldest_key(bus: Bus) -> Option<u8> {
    if bus.devices.keyboard.len() > 0 {
        Some(bus.devices.keyboard[0])
    } else {
        None
    }
}

/// Takes the oldest byte that waits in the keyboard queue: asks the status
/// port whether one waits, reads it from the data port and acknowledges it.
/// `None` where the queue is empty.
pub fn poll<P: PortIo>(io: &mut P) -> (key: Option<u8>)
    ensures
        match old(io).bus() {
            Some(bus) => key == oldest_key(bus) && final(io).bus() == Some(polled(bus)),
            None => final(io).bus() is None,
        },
{
    if io.inb(KEYBOARD_STATUS_PORT) != 0 {
        let c = io.inb(KEYBOARD_DATA_PORT);
        io.outb(KEYBOARD_STATUS_PORT, 0);
        Some(c)
    } else {
        None
    }
}

} // verus!
