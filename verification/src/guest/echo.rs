//! A guest program: it gathers the keys that are typed into a line, and on
//! every tick of the timer prints the last line that was completed.

use crate::console::NEWLINE;
use crate::guest::console::{print, printed};
use crate::guest::event::{after_event, pending_event, Event};
use crate::guest::io::{Bus, PortIo};
use crate::guest::timer::{armed, enable};
use tinyvec::ArrayVec;
use vstd::prelude::*;

verus! {

/// The most bytes that a line holds.
pub const LINE_CAPACITY: usize = 64;

/// The interval in milliseconds at which the program prints.
pub const TICK_MILLIS: u16 = 750;

/// `tinyvec::ArrayVec`: a vector that lives in an array of fixed size.
#[verifier::external_type_specification]
#[verifier::external_body]
#[verifier::reject_recursive_types(A)]
pub struct ExArrayVec<A>(ArrayVec<A>);

/// The bytes that a line holds, oldest first.
pub uninterp spec fn line_bytes(line: ArrayVec<[u8; 64]>) -> Seq<u8>;

/// Calls `ArrayVec::from_array_empty`: a line that holds nothing.
#[verifier::external_body]
fn empty_line() -> (line: ArrayVec<[u8; 64]>)
    ensures
        line_bytes(line) == Seq::<u8>::empty(),
{
    ArrayVec::from_array_empty([0; 64])
}

/// Calls `ArrayVec::len`: how many bytes the line holds.
#[verifier::external_body]
fn line_len(line: &ArrayVec<[u8; 64]>) -> (n: usize)
    ensures
        n == line_bytes(*line).len(),
{
    line.len()
}

/// Calls `ArrayVec::capacity`: the size of the array behind the line.
#[verifier::external_body]
fn line_capacity(line: &ArrayVec<[u8; 64]>) -> (n: usize)
    ensures
        n == LINE_CAPACITY,
{
    line.capacity()
}

/// Calls `ArrayVec::pop`: takes the newest byte off the line and returns it,
/// or returns `None` and leaves an empty line empty.
#[verifier::external_body]
fn line_pop(line: &mut ArrayVec<[u8; 64]>) -> (newest: Option<u8>)
    ensures
        line_bytes(*old(line)).len() == 0 ==> newest is None && line_bytes(*final(line))
            == line_bytes(*old(line)),
        line_bytes(*old(line)).len() > 0 ==> newest == Some(line_bytes(*old(line)).last())
            && line_bytes(*final(line)) == line_bytes(*old(line)).drop_last(),
{
    line.pop()
}

/// Calls `ArrayVec::push`: puts a byte at the end of the line. It panics on a
/// line that is full, which is left out here.
#[verifier::external_body]
fn line_push(line: &mut ArrayVec<[u8; 64]>, byte: u8)
    requires
        line_bytes(*old(line)).len() < LINE_CAPACITY,
    ensures
        line_bytes(*final(line)) == line_bytes(*old(line)).push(byte),
{
    line.push(byte)
}

/// Calls `ArrayVec::clear`: empties the line.
#[verifier::external_body]
fn line_clear(line: &mut ArrayVec<[u8; 64]>)
    ensures
        line_bytes(*final(line)) == Seq::<u8>::empty(),
{
    line.clear()
}

/// Calls `ArrayVec::as_slice`: the bytes that the line holds.
#[verifier::external_body]
fn line_slice(line: &ArrayVec<[u8; 64]>) -> (bytes: &[u8])
    ensures
        bytes@ == line_bytes(*line),
{
    line.as_slice()
}

/// What the program holds.
pub struct EchoView {
    /// The line that is being typed.
    pub typing: Seq<u8>,
    /// The last line that was completed.
    pub line: Seq<u8>,
}

/// The program after a key: the key joins the line that is being typed, in
/// place of its newest byte if the line is full. A newline completes the
/// line, and a new one begins.
pub open spec fn typed(echo: EchoView, key: u8) -> EchoView {
    let room = if echo.typing.len() == LINE_CAPACITY {
        echo.typing.drop_last()
    } else {
        echo.typing
    };
    if key == NEWLINE {
        EchoView { typing: Seq::empty(), line: room.push(key) }
    } else {
        EchoView { typing: room.push(key), line: echo.line }
    }
}

/// The program after an event.
pub open spec fn reacted(echo: EchoView, event: Event) -> EchoView {
    match event {
        Event::Keyboard(key) => typed(echo, key),
        Event::Tick => echo,
    }
}

/// The bus after the program has reacted to an event: on a tick the last
/// completed line is printed.
pub open spec fn reaction(bus: Bus, echo: EchoView, event: Event) -> Bus {
    match event {
        Event::Keyboard(_) => bus,
        Event::Tick => printed(bus, echo.line),
    }
}

/// The bus and the program after one round: the event that waits, if one
/// does, is taken and reacted to.
pub open spec fn stepped(bus: Bus, echo: EchoView) -> (Bus, EchoView) {
    match pending_event(bus) {
        Some(event) => (reaction(after_event(bus), echo, event), reacted(echo, event)),
        None => (bus, echo),
    }
}

/// The two lines of the program.
pub struct LineEcho {
    in_buf: ArrayVec<[u8; 64]>,
    out_buf: ArrayVec<[u8; 64]>,
}

impl View for LineEcho {
    type V = EchoView;

    closed spec fn view(&self) -> EchoView {
        EchoView { typing: line_bytes(self.in_buf), line: line_bytes(self.out_buf) }
    }
}

impl LineEcho {
    #[verifier::type_invariant]
    spec fn within_capacity(self) -> bool {
        line_bytes(self.in_buf).len() <= LINE_CAPACITY && line_bytes(self.out_buf).len()
            <= LINE_CAPACITY
    }

    /// A program that has seen no key yet.
    pub fn new() -> (echo: Self)
        ensures
            echo@ == (EchoView { typing: Seq::empty(), line: Seq::empty() }),
    {
        LineEcho { in_buf: empty_line(), out_buf: empty_line() }
    }

    /// Starts the program: the timer is enabled with the program's interval,
    /// and no key has been seen.
    pub fn start<P: PortIo>(io: &mut P) -> (echo: Self)
        ensures
            echo@ == (EchoView { typing: Seq::empty(), line: Seq::empty() }),
            match old(io).bus() {
                Some(bus) => final(io).bus() == Some(armed(bus, TICK_MILLIS)),
                None => final(io).bus() is None,
            },
    {
        enable(io, TICK_MILLIS);
        LineEcho::new()
    }

    /// The line that is being typed.
    pub fn typing(&self) -> (bytes: &[u8])
        ensures
            bytes@ == self@.typing,
            bytes@.len() <= LINE_CAPACITY,
    {
        proof {
            use_type_invariant(self);
        }
        line_slice(&self.in_buf)
    }

    /// The last line that was completed.
    pub fn line(&self) -> (bytes: &[u8])
        ensures
            bytes@ == self@.line,
            bytes@.len() <= LINE_CAPACITY,
    {
        proof {
            use_type_invariant(self);
        }
        line_slice(&self.out_buf)
    }

    /// Takes a key, as `typed` says.
    pub fn key(&mut self, key: u8)
        ensures
            final(self)@ == typed(old(self)@, key),
    {
        proof {
            use_type_invariant(&*self);
        }
        let mut in_buf = self.in_buf;
        let mut out_buf = self.out_buf;
        // a full line loses its newest byte to the key
        if line_len(&in_buf) == line_capacity(&in_buf) {
            let _ = line_pop(&mut in_buf);
        }
        line_push(&mut in_buf, key);
        if key == NEWLINE {
            std::mem::swap(&mut in_buf, &mut out_buf);
            line_clear(&mut in_buf);
        }
        self.in_buf = in_buf;
        self.out_buf = out_buf;
    }

    /// Reacts to an event: a key is taken into the line that is being typed,
    /// and a tick prints the last completed line.
    pub fn on_event<P: PortIo>(&mut self, io: &mut P, event: Event)
        ensures
            final(self)@ == reacted(old(self)@, event),
            match old(io).bus() {
                Some(bus) => final(io).bus() == Some(reaction(bus, old(self)@, event)),
                None => final(io).bus() is None,
            },
    {
        match event {
            Event::Keyboard(key) => self.key(key),
            Event::Tick => print(io, line_slice(&self.out_buf)),
        }
    }

    /// One round of the program: it looks for an event and reacts to the one
    /// it finds. The answer says whether there was one.
    pub fn step<P: PortIo>(&mut self, io: &mut P) -> (busy: bool)
        ensures
            match old(io).bus() {
                Some(bus) => busy == pending_event(bus) is Some && final(self)@ == stepped(
                    bus,
                    old(self)@,
                ).1 && final(io).bus() == Some(stepped(bus, old(self)@).0),
                None => final(io).bus() is None,
            },
    {
        match Event::next(io) {
            Some(event) => {
                self.on_event(io, event);
                true
            },
            None => false,
        }
    }
}

} // verus!
