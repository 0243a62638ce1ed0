//! The devices behind a bus in the same process: guest routines can be run
//! against them without a virtual CPU in between.

use crate::console::line_views;
use crate::devices::{port_state, Action, Devices, Exit};
use crate::guest::io::{high_byte, low_byte, written_to, Bus, PortIo};
use crate::timer::Timer;
use vstd::prelude::*;

verus! {

/// The devices, the timer and the lines that the console has handed to the
/// host, reached through port accesses that are answered on the spot.
pub struct Loopback {
    pub devices: Devices,
    pub timer: Timer,
    /// The lines handed to the host so far, oldest first.
    pub output: Vec<Vec<u8>>,
}

impl Loopback {
    /// Devices to which nothing has happened yet, and no output.
    pub fn new() -> (bus: Self)
        ensures
            bus.devices.console@ == Seq::<u8>::empty(),
            bus.devices.keyboard@ == Seq::<u8>::empty(),
            bus.timer@.flags == 0,
            bus.timer@.interval == 0,
            bus.output@ == Seq::<Vec<u8>>::empty(),
    {
        Loopback { devices: Devices::new(), timer: Timer::new(), output: Vec::new() }
    }

    /// What the devices hold, and the lines handed to the host so far.
    pub open spec fn held(&self) -> Bus {
        Bus { devices: port_state(self.devices, self.timer), output: line_views(self.output@) }
    }

    /// Answers a write of `data` to the port, and keeps the lines that it
    /// completes.
    fn write(&mut self, port: u16, data: Vec<u8>)
        ensures
            final(self).bus() == written_to(old(self).bus(), port, data@),
    {
        let ghost before = line_views(self.output@);
        match self.devices.handle_exit(&mut self.timer, &Exit::IoOut { port, data }) {
            Ok(Action::Flush { lines }) => {
                let mut lines = lines;
                let ghost added = line_views(lines@);
                self.output.append(&mut lines);
                assert(line_views(self.output@) == before + added);
            },
            _ => {
            },
        }
    }
}

impl PortIo for Loopback {
    open spec fn bus(&self) -> Option<Bus> {
        Some(self.held())
    }

    fn inb(&mut self, port: u16) -> (value: u8) {
        match self.devices.handle_exit(&mut self.timer, &Exit::IoIn { port }) {
            Ok(Action::Reply { value }) => value,
            Ok(Action::UnknownInput { value, .. }) => value,
            _ => 0,
        }
    }

    fn outb(&mut self, port: u16, val: u8) {
        let mut data: Vec<u8> = Vec::new();
        data.push(val);
        self.write(port, data)
    }

    fn outs(&mut self, port: u16, val: u16) {
        let mut data: Vec<u8> = Vec::new();
        data.push((val & 0xff) as u8);
        data.push((val >> 8) as u8);
        assert(data@ == seq![low_byte(val), high_byte(val)]);
        self.write(port, data)
    }
}

} // verus!
