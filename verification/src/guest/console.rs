//! Console output from the guest.

use crate::console::{
    finished_lines, joined, lemma_joined_append, lemma_lines_of_two_writes, lemma_lines_rebuild,
};
use crate::devices::CONSOLE_PORT;
use crate::guest::io::{written, Bus, PortIo};
use crate::guest::keyboard::polled;
use vstd::prelude::*;

verus! {

/// The bus after the guest has printed `bytes`: as after one write of them
/// all to the console port, and unchanged where there are none.
pub open spec fn printed(bus: Bus, bytes: Seq<u8>) -> Bus {
    if bytes.len() == 0 {
        bus
    } else {
        written(bus, CONSOLE_PORT, bytes)
    }
}

/// Printing `first` and then `next` is printing both at once.
pub proof fn lemma_print_in_pieces(bus: Bus, first: Seq<u8>, next: Seq<u8>)
    ensures
        printed(printed(bus, first), next) == printed(bus, first + next),
{
    if first.len() > 0 && next.len() > 0 {
        let held = bus.devices.console;
        let middle = written(bus, CONSOLE_PORT, first);
        lemma_lines_of_two_writes(held + first, next);
        assert(held + (first + next) == (held + first) + next);
        assert((bus.output + finished_lines(held + first)) + finished_lines(
            middle.devices.console + next,
        ) == bus.output + (finished_lines(held + first) + finished_lines(
            middle.devices.console + next,
        )));
    }
}

/// Everything that has reached the console so far, in order: the lines that
/// the host was handed, and the line that is still being written.
pub open spec fn console_stream(bus: Bus) -> Seq<u8> {
    joined(bus.output) + bus.devices.console
}

/// What the guest prints is added to the end of what has reached the console,
/// byte for byte: nothing is lost, changed or moved.
pub proof fn lemma_print_extends_stream(bus: Bus, bytes: Seq<u8>)
    ensures
        console_stream(printed(bus, bytes)) == console_stream(bus) + bytes,
{
    if bytes.len() > 0 {
        let seen = bus.devices.console + bytes;
        lemma_lines_rebuild(seen);
        lemma_joined_append(bus.output, finished_lines(seen));
        assert(joined(bus.output) + (bus.devices.console + bytes) == console_stream(bus) + bytes);
    }
}

/// A guest that takes the oldest key and prints it moves that byte from the
/// keyboard queue to the end of what has reached the console, and changes
/// nothing else in either.
pub proof fn lemma_echo_moves_key(bus: Bus)
    requires
        bus.devices.keyboard.len() > 0,
    ensures
        ({
            let after = printed(polled(bus), seq![bus.devices.keyboard[0]]);
            &&& after.devices.keyboard == bus.devices.keyboard.drop_first()
            &&& console_stream(after) == console_stream(bus).push(bus.devices.keyboard[0])
        }),
{
    lemma_print_extends_stream(polled(bus), seq![bus.devices.keyboard[0]]);
}

/// The bus after the guest has printed `bytes`, where the ports know their
/// bus.
pub open spec fn printed_to(bus: Option<Bus>, bytes: Seq<u8>) -> Option<Bus> {
    match bus {
        Some(bus) => Some(printed(bus, bytes)),
        None => None,
    }
}

/// Writes one byte to the console.
pub fn put_char<P: PortIo>(io: &mut P, c: u8)
    ensures
        final(io).bus() == printed_to(old(io).bus(), seq![c]),
{
    io.outb(CONSOLE_PORT, c);
}

/// Writes the bytes to the console, one after another.
pub fn print<P: PortIo>(io: &mut P, s: &[u8])
    ensures
        final(io).bus() == printed_to(old(io).bus(), s@),
{
    let mut i: usize = 0;
    while i < s.len()
        invariant
            i <= s@.len(),
            io.bus() == printed_to(old(io).bus(), s@.take(i as int)),
        decreases s@.len() - i,
    {
        proof {
            if let Some(bus) = old(io).bus() {
                lemma_print_in_pieces(bus, s@.take(i as int), seq![s@[i as int]]);
            }
            assert(s@.take(i as int) + seq![s@[i as int]] == s@.take(i + 1));
        }
        put_char(io, s[i]);
        i += 1;
    }
    assert(s@.take(i as int) == s@);
}

} // verus!
