//! Port I/O as the guest sees it.
//!
//! Code that runs in the guest reaches the devices through the CPU's port
//! instructions. `PortIo` stands for those instructions, so that the guest's
//! routines can be proved against the devices that answer them.

use crate::devices::{after_output, input_value, lines_of, output_action, PortState};
use vstd::prelude::*;

verus! {

/// What lies behind the ports: the devices, and the lines that they have
/// handed to the host so far.
pub struct Bus {
    pub devices: PortState,
    pub output: Seq<Seq<u8>>,
}

/// The bus after the guest has written `data` to the port.
pub open spec fn written(bus: Bus, port: u16, data: Seq<u8>) -> Bus {
    Bus {
        devices: after_output(bus.devices, port, data),
        output: bus.output + lines_of(output_action(bus.devices, port, data)),
    }
}

/// The low byte of a word.
pub open spec fn low_byte(word: u16) -> u8 {
    (word & 0xff) as u8
}

/// The high byte of a word.
pub open spec fn high_byte(word: u16) -> u8 {
    (word >> 8) as u8
}

/// The bus after a write of `data` to the port, where the ports know their
/// bus.
pub open spec fn written_to(bus: Option<Bus>, port: u16, data: Seq<u8>) -> Option<Bus> {
    match bus {
        Some(bus) => Some(written(bus, port, data)),
        None => None,
    }
}

/// The port instructions of the CPU.
pub trait PortIo {
    /// What lies behind the ports, where the ports know it.
    ///
    /// Ports whose devices live in this program say here what the devices
    /// hold, and their methods are proved to do as the devices do. Ports that
    /// lead out of the program, as the CPU's own do, know nothing of the other
    /// side and leave this as it is: of them nothing is stated.
    open spec fn bus(&self) -> Option<Bus> {
        None
    }

    /// Reads a byte from the port. No read changes a device.
    fn inb(&mut self, port: u16) -> (value: u8)
        ensures
            final(self).bus() == old(self).bus(),
            old(self).bus() matches Some(bus) ==> value == input_value(bus.devices, port),
    ;

    /// Writes a byte to the port.
    fn outb(&mut self, port: u16, val: u8)
        ensures
            final(self).bus() == written_to(old(self).bus(), port, seq![val]),
    ;

    /// Writes a word to the port, low byte first.
    fn outs(&mut self, port: u16, val: u16)
        ensures
            final(self).bus() == written_to(
                old(self).bus(),
                port,
                seq![low_byte(val), high_byte(val)],
            ),
    ;
}

} // verus!
