//! The port map, and how each exit of the virtual CPU is answered.
//!
//! The guest talks to the monitor through I/O ports. Every access makes the
//! virtual CPU exit; the monitor answers the exit from the state of its
//! devices and resumes the guest. This module states what each access means
//! (`step`) and holds the code that carries it out (`Devices::handle_exit`).

use crate::console::{
    finished_lines, has_newline, lemma_lines_of_two_writes, lemma_no_newline_no_line, line_views,
    unfinished, ConsoleBuffer,
};
use crate::keyboard::{
    acknowledged, data_byte, offered, status_byte, KeyboardQueue, KEYBOARD_CAPACITY,
};
use crate::timer::{is_enabled, is_fired, next_step, TickerStep, Timer, TimerView};
use vstd::prelude::*;

verus! {

/// Written by the guest: a byte of console output.
pub const CONSOLE_PORT: u16 = 0x42;

/// Read by the guest: the oldest byte that waits in the keyboard queue.
pub const KEYBOARD_DATA_PORT: u16 = 0x44;

/// Read by the guest: whether a byte waits. Written with zero: the guest has
/// taken the oldest byte.
pub const KEYBOARD_STATUS_PORT: u16 = 0x45;

/// Written by the guest: the timer's interval in milliseconds, low byte
/// first.
pub const TIMER_INTERVAL_PORT: u16 = 0x46;

/// Read and written by the guest: the timer's flags.
pub const TIMER_FLAGS_PORT: u16 = 0x47;

/// The byte at position `i`, or zero where there is none.
pub open spec fn byte_or_zero(bytes: Seq<u8>, i: int) -> int {
    if 0 <= i < bytes.len() {
        bytes[i] as int
    } else {
        0
    }
}

/// The number that up to four bytes spell, low byte first. Bytes that are
/// missing count as zero; bytes beyond the fourth are not looked at.
pub open spec fn le_u32(bytes: Seq<u8>) -> int {
    byte_or_zero(bytes, 0) + 0x100 * byte_or_zero(bytes, 1) + 0x1_0000 * byte_or_zero(bytes, 2)
        + 0x100_0000 * byte_or_zero(bytes, 3)
}

/// Reads a number of up to four bytes, low byte first.
pub fn u32_from_le_bytes(b: &[u8]) -> (value: u32)
    ensures
        value == le_u32(b@),
{
    let b0: u32 = if b.len() > 0 {
        b[0] as u32
    } else {
        0
    };
    let b1: u32 = if b.len() > 1 {
        b[1] as u32
    } else {
        0
    };
    let b2: u32 = if b.len() > 2 {
        b[2] as u32
    } else {
        0
    };
    let b3: u32 = if b.len() > 3 {
        b[3] as u32
    } else {
        0
    };
    b0 + 0x100 * b1 + 0x1_0000 * b2 + 0x100_0000 * b3
}

/// Why the virtual CPU handed control back to the monitor.
#[derive(Debug, PartialEq, Eq)]
pub enum Exit {
    /// The guest reads from a port.
    IoIn { port: u16 },
    /// The guest writes bytes to a port.
    IoOut { port: u16, data: Vec<u8> },
    /// The guest has halted.
    Hlt,
    /// Anything else; `name` says what.
    Other { name: String },
}

/// An exit, with its data as plain values.
pub enum ExitView {
    IoIn { port: u16 },
    IoOut { port: u16, data: Seq<u8> },
    Hlt,
    Other { name: Seq<char> },
}

impl View for Exit {
    type V = ExitView;

    open spec fn view(&self) -> ExitView {
        match *self {
            Exit::IoIn { port } => ExitView::IoIn { port },
            Exit::IoOut { port, data } => ExitView::IoOut { port, data: data@ },
            Exit::Hlt => ExitView::Hlt,
            Exit::Other { name } => ExitView::Other { name: name@ },
        }
    }
}

/// What the monitor has to do after an exit, before it resumes the guest.
#[derive(Debug, PartialEq, Eq)]
pub enum Action {
    /// Nothing.
    Resume,
    /// Hand `value` to the guest as the first byte that it reads.
    Reply { value: u8 },
    /// No device answers reads of `port`: note the access, and hand `value`
    /// to the guest as the first byte that it reads.
    UnknownInput { port: u16, value: u8 },
    /// Put these lines out on the host, one by one and in this order.
    Flush { lines: Vec<Vec<u8>> },
    /// Wake every thread that waits for the timer's flags to change.
    WakeTimer,
    /// The write to `port` had no effect: note the access.
    UnknownOutput { port: u16 },
    /// Stop: the guest has halted.
    Halt,
}

/// An action, with its data as plain values.
pub enum ActionView {
    Resume,
    Reply { value: u8 },
    UnknownInput { port: u16, value: u8 },
    Flush { lines: Seq<Seq<u8>> },
    WakeTimer,
    UnknownOutput { port: u16 },
    Halt,
}

impl View for Action {
    type V = ActionView;

    open spec fn view(&self) -> ActionView {
        match *self {
            Action::Resume => ActionView::Resume,
            Action::Reply { value } => ActionView::Reply { value },
            Action::UnknownInput { port, value } => ActionView::UnknownInput { port, value },
            Action::Flush { lines } => ActionView::Flush { lines: line_views(lines@) },
            Action::WakeTimer => ActionView::WakeTimer,
            Action::UnknownOutput { port } => ActionView::UnknownOutput { port },
            Action::Halt => ActionView::Halt,
        }
    }
}

/// Why a run cannot go on.
#[derive(Debug, PartialEq, Eq)]
pub enum RunError {
    /// The virtual CPU exited for a reason that the monitor does not handle;
    /// `name` says which.
    UnexpectedExit { name: String },
}

/// What the devices hold.
pub struct PortState {
    /// The console line that is still being written.
    pub console: Seq<u8>,
    /// The bytes that wait in the keyboard queue, oldest first.
    pub keyboard: Seq<u8>,
    pub timer: TimerView,
}

/// Whether a device answers reads of the port.
pub open spec fn answers_input(port: u16) -> bool {
    port == KEYBOARD_DATA_PORT || port == KEYBOARD_STATUS_PORT || port == TIMER_FLAGS_PORT
}

/// The byte that a read of the port yields. No read changes a device.
pub open spec fn input_value(state: PortState, port: u16) -> u8 {
    if port == KEYBOARD_DATA_PORT {
        data_byte(state.keyboard)
    } else if port == KEYBOARD_STATUS_PORT {
        status_byte(state.keyboard)
    } else if port == TIMER_FLAGS_PORT {
        state.timer.flags
    } else {
        0
    }
}

/// Whether the write acknowledges a keyboard byte: its first byte is zero.
pub open spec fn acknowledges(port: u16, data: Seq<u8>) -> bool {
    port == KEYBOARD_STATUS_PORT && data.len() > 0 && data[0] == 0
}

/// Whether the write sets the timer's flags, to its first byte.
pub open spec fn sets_flags(port: u16, data: Seq<u8>) -> bool {
    port == TIMER_FLAGS_PORT && data.len() > 0
}

/// The devices after the guest has written `data` to the port.
pub open spec fn after_output(state: PortState, port: u16, data: Seq<u8>) -> PortState {
    if port == CONSOLE_PORT {
        PortState {
            console: unfinished(state.console + data),
            keyboard: state.keyboard,
            timer: state.timer,
        }
    } else if acknowledges(port, data) {
        PortState {
            console: state.console,
            keyboard: acknowledged(state.keyboard),
            timer: state.timer,
        }
    } else if port == TIMER_INTERVAL_PORT {
        PortState {
            console: state.console,
            keyboard: state.keyboard,
            timer: TimerView { flags: state.timer.flags, interval: le_u32(data) as u32 },
        }
    } else if sets_flags(port, data) {
        PortState {
            console: state.console,
            keyboard: state.keyboard,
            timer: TimerView { flags: data[0], interval: state.timer.interval },
        }
    } else {
        state
    }
}

/// What the monitor has to do when the guest has written `data` to the port.
pub open spec fn output_action(state: PortState, port: u16, data: Seq<u8>) -> ActionView {
    if port == CONSOLE_PORT {
        ActionView::Flush { lines: finished_lines(state.console + data) }
    } else if acknowledges(port, data) {
        ActionView::Resume
    } else if port == TIMER_INTERVAL_PORT {
        ActionView::Resume
    } else if sets_flags(port, data) {
        ActionView::WakeTimer
    } else {
        ActionView::UnknownOutput { port }
    }
}

/// The answer to one exit: the devices after it, and the action for the
/// monitor or the name of the exit that ends the run.
pub open spec fn step(state: PortState, exit: ExitView) -> (PortState, Result<ActionView, Seq<char>>) {
    match exit {
        ExitView::IoIn { port } => (
            state,
            Ok(
                if answers_input(port) {
                    ActionView::Reply { value: input_value(state, port) }
                } else {
                    ActionView::UnknownInput { port, value: 0 }
                },
            ),
        ),
        ExitView::IoOut { port, data } => (
            after_output(state, port, data),
            Ok(output_action(state, port, data)),
        ),
        ExitView::Hlt => (state, Ok(ActionView::Halt)),
        ExitView::Other { name } => (state, Err(name)),
    }
}

/// How far a run has come.
pub enum RunStatus {
    /// The guest is resumed after every exit so far.
    Running,
    /// The guest has halted: the run has ended well.
    Halted,
    /// An exit that the monitor does not handle has ended the run; `name`
    /// says which.
    Failed { name: Seq<char> },
}

/// Each exit of a list, with its data as plain values.
pub open spec fn exit_views(exits: Seq<Exit>) -> Seq<ExitView> {
    Seq::new(exits.len(), |i: int| exits[i]@)
}

/// A run: the devices, the lines handed to the host so far, and how far the
/// run has come.
pub struct Run {
    pub state: PortState,
    pub output: Seq<Seq<u8>>,
    pub status: RunStatus,
}

/// The lines that an action hands to the host.
pub open spec fn lines_of(action: ActionView) -> Seq<Seq<u8>> {
    match action {
        ActionView::Flush { lines } => lines,
        _ => Seq::empty(),
    }
}

/// The run in which the virtual CPU exits in these ways, one after another,
/// and is resumed after each exit until it halts or an exit fails. Exits that
/// follow the end of the run are not looked at.
pub open spec fn run(state: PortState, exits: Seq<ExitView>) -> Run
    decreases exits.len(),
{
    if exits.len() == 0 {
        Run { state, output: Seq::empty(), status: RunStatus::Running }
    } else {
        let before = run(state, exits.drop_last());
        if before.status is Running {
            let (after, outcome) = step(before.state, exits.last());
            match outcome {
                Ok(action) => Run {
                    state: after,
                    output: before.output + lines_of(action),
                    status: if action is Halt {
                        RunStatus::Halted
                    } else {
                        RunStatus::Running
                    },
                },
                Err(name) => Run {
                    state: after,
                    output: before.output,
                    status: RunStatus::Failed { name },
                },
            }
        } else {
            before
        }
    }
}

/// A run that has ended within the first `n` exits is not changed by the
/// exits that follow.
pub proof fn lemma_run_stops(state: PortState, exits: Seq<ExitView>, n: int)
    requires
        0 <= n <= exits.len(),
        !(run(state, exits.take(n)).status is Running),
    ensures
        run(state, exits) == run(state, exits.take(n)),
    decreases exits.len() - n,
{
    if n == exits.len() {
        assert(exits.take(n) == exits);
    } else {
        assert(exits.take(n + 1).drop_last() == exits.take(n));
        lemma_run_stops(state, exits, n + 1);
    }
}

/// The devices that only the thread of the virtual CPU touches.
pub struct Devices {
    pub console: ConsoleBuffer,
    pub keyboard: KeyboardQueue,
}

/// What the devices and the timer hold together.
pub open spec fn port_state(devices: Devices, timer: Timer) -> PortState {
    PortState { console: devices.console@, keyboard: devices.keyboard@, timer: timer@ }
}

impl Devices {
    /// Devices to which nothing has happened yet.
    pub fn new() -> (devices: Self)
        ensures
            devices.console@ == Seq::<u8>::empty(),
            devices.keyboard@ == Seq::<u8>::empty(),
    {
        Devices { console: ConsoleBuffer::new(), keyboard: KeyboardQueue::new() }
    }

    /// Answers one exit of the virtual CPU, as `step` says.
    ///
    /// The devices and the timer are changed as the access asks, and the
    /// action tells the monitor what is left for it to do. A halt is answered
    /// with `Action::Halt`; an exit that the monitor does not handle is an
    /// error that carries the exit's name, and changes nothing.
    pub fn handle_exit(&mut self, timer: &mut Timer, exit: &Exit) -> (res: Result<Action, RunError>)
        ensures
            port_state(*final(self), *final(timer)) == step(
                port_state(*old(self), *old(timer)),
                exit@,
            ).0,
            match res {
                Ok(action) => step(port_state(*old(self), *old(timer)), exit@).1 == Ok::<
                    ActionView,
                    Seq<char>,
                >(action@),
                Err(RunError::UnexpectedExit { name }) => step(
                    port_state(*old(self), *old(timer)),
                    exit@,
                ).1 == Err::<ActionView, Seq<char>>(name@),
            },
    {
        match exit {
            Exit::IoIn { port } => {
                let port = *port;
                if port == KEYBOARD_DATA_PORT {
                    Ok(Action::Reply { value: self.keyboard.data() })
                } else if port == KEYBOARD_STATUS_PORT {
                    Ok(Action::Reply { value: self.keyboard.status() })
                } else if port == TIMER_FLAGS_PORT {
                    Ok(Action::Reply { value: timer.flags() })
                } else {
                    Ok(Action::UnknownInput { port, value: 0 })
                }
            },
            Exit::IoOut { port, data } => {
                let port = *port;
                if port == CONSOLE_PORT {
                    let lines = self.console.write(data.as_slice());
                    Ok(Action::Flush { lines })
                } else if port == KEYBOARD_STATUS_PORT && data.len() > 0 && data[0] == 0 {
                    self.keyboard.acknowledge();
                    Ok(Action::Resume)
                } else if port == TIMER_INTERVAL_PORT {
                    timer.set_interval(u32_from_le_bytes(data.as_slice()));
                    Ok(Action::Resume)
                } else if port == TIMER_FLAGS_PORT && data.len() > 0 {
                    timer.set_flags(data[0]);
                    Ok(Action::WakeTimer)
                } else {
                    Ok(Action::UnknownOutput { port })
                }
            },
            Exit::Hlt => Ok(Action::Halt),
            Exit::Other { name } => Err(RunError::UnexpectedExit { name: name.clone() }),
        }
    }

    /// Answers recorded exits one after another as the monitor's loop does,
    /// as `run` says: until the guest halts, an exit fails, or the exits run
    /// out. Exits that follow a halt or a failure are not looked at. The lines
    /// that the console completes are added to `output`.
    ///
    /// The answer is `Ok(true)` where the guest has halted, `Ok(false)` where
    /// it is still running when the exits run out, and the error of the exit
    /// that failed.
    pub fn replay(&mut self, timer: &mut Timer, exits: &[Exit], output: &mut Vec<Vec<u8>>) -> (res:
        Result<bool, RunError>)
        ensures
            ({
                let played = run(port_state(*old(self), *old(timer)), exit_views(exits@));
                &&& port_state(*final(self), *final(timer)) == played.state
                &&& line_views(final(output)@) == line_views(old(output)@) + played.output
                &&& match res {
                    Ok(halted) => played.status == (if halted {
                        RunStatus::Halted
                    } else {
                        RunStatus::Running
                    }),
                    Err(RunError::UnexpectedExit { name }) => played.status == (RunStatus::Failed {
                        name: name@,
                    }),
                }
            }),
    {
        let ghost start = port_state(*self, *timer);
        let ghost views = exit_views(exits@);
        let ghost before = line_views(output@);
        let mut i: usize = 0;
        while i < exits.len()
            invariant
                i <= exits@.len(),
                views == exit_views(exits@),
                start == port_state(*old(self), *old(timer)),
                before == line_views(old(output)@),
                run(start, views.take(i as int)).status is Running,
                run(start, views.take(i as int)).state == port_state(*self, *timer),
                line_views(output@) == before + run(start, views.take(i as int)).output,
            decreases exits@.len() - i,
        {
            let ghost earlier = run(start, views.take(i as int));
            proof {
                assert(views.take(i + 1).drop_last() == views.take(i as int));
            }
            match self.handle_exit(timer, &exits[i]) {
                Ok(Action::Halt) => {
                    proof {
                        lemma_run_stops(start, views, i + 1);
                    }
                    return Ok(true);
                },
                Ok(Action::Flush { lines }) => {
                    let mut lines = lines;
                    let ghost added = line_views(lines@);
                    output.append(&mut lines);
                    assert((before + earlier.output) + added == before + (earlier.output + added));
                },
                Ok(_) => {},
                Err(error) => {
                    proof {
                        lemma_run_stops(start, views, i + 1);
                    }
                    return Err(error);
                },
            }
            i += 1;
        }
        assert(views.take(i as int) == views);
        Ok(false)
    }
}

/// Whether the exit is a port access.
pub open spec fn is_port_access(exit: ExitView) -> bool {
    exit is IoIn || exit is IoOut
}

/// The bytes that the guest writes to the console port in these exits, in
/// order.
pub open spec fn console_traffic(exits: Seq<ExitView>) -> Seq<u8>
    decreases exits.len(),
{
    if exits.len() == 0 {
        Seq::empty()
    } else {
        let before = console_traffic(exits.drop_last());
        match exits.last() {
            ExitView::IoOut { port, data } => if port == CONSOLE_PORT {
                before + data
            } else {
                before
            },
            _ => before,
        }
    }
}

/// A run goes on for as long as the guest neither halts nor exits in a way
/// that the monitor does not handle: nothing else ends it.
pub proof fn lemma_run_goes_on(state: PortState, exits: Seq<ExitView>)
    requires
        forall|i: int| 0 <= i < exits.len() ==> is_port_access(#[trigger] exits[i]),
    ensures
        run(state, exits).status is Running,
    decreases exits.len(),
{
    if exits.len() > 0 {
        assert(forall|i: int|
            0 <= i < exits.len() - 1 ==> exits.drop_last()[i] == #[trigger] exits[i]);
        lemma_run_goes_on(state, exits.drop_last());
    }
}

/// A halt ends a run that is going on, and ends it well: the devices and the
/// lines handed to the host are those of the exits before it.
pub proof fn lemma_halt_ends_run(state: PortState, exits: Seq<ExitView>)
    requires
        run(state, exits).status is Running,
    ensures
        run(state, exits.push(ExitView::Hlt)) == (Run {
            state: run(state, exits).state,
            output: run(state, exits).output,
            status: RunStatus::Halted,
        }),
{
    assert(exits.push(ExitView::Hlt).drop_last() == exits);
}

/// An exit that the monitor does not handle ends a run that is going on, and
/// fails it.
pub proof fn lemma_unexpected_exit_fails_run(state: PortState, exits: Seq<ExitView>, name: Seq<char>)
    requires
        run(state, exits).status is Running,
    ensures
        run(state, exits.push(ExitView::Other { name })).status == (RunStatus::Failed { name }),
{
    assert(exits.push(ExitView::Other { name }).drop_last() == exits);
}

/// Whatever else the guest does at its ports, the host is handed the lines of
/// what the guest wrote to the console port, each once and in the order
/// written, and the console holds what follows the last newline.
pub proof fn lemma_run_echoes_console(state: PortState, exits: Seq<ExitView>)
    requires
        !has_newline(state.console),
        forall|i: int| 0 <= i < exits.len() ==> is_port_access(#[trigger] exits[i]),
    ensures
        run(state, exits).output == finished_lines(state.console + console_traffic(exits)),
        run(state, exits).state.console == unfinished(state.console + console_traffic(exits)),
    decreases exits.len(),
{
    if exits.len() == 0 {
        lemma_no_newline_no_line(state.console);
    } else {
        let earlier = exits.drop_last();
        assert(forall|i: int| 0 <= i < earlier.len() ==> earlier[i] == #[trigger] exits[i]);
        lemma_run_goes_on(state, earlier);
        lemma_run_echoes_console(state, earlier);
        let seen = state.console + console_traffic(earlier);
        if let ExitView::IoOut { port, data } = exits.last() {
            if port == CONSOLE_PORT {
                lemma_lines_of_two_writes(seen, data);
                assert(state.console + (console_traffic(earlier) + data) == seen + data);
            }
        }
    }
}

/// Reading a port takes nothing from the keyboard queue: the read of the data
/// port yields the oldest byte and leaves every device as it was.
pub proof fn lemma_read_does_not_consume(state: PortState, port: u16)
    ensures
        step(state, ExitView::IoIn { port }).0 == state,
        state.keyboard.len() > 0 ==> step(state, ExitView::IoIn { port: KEYBOARD_DATA_PORT }).1
            == Ok::<ActionView, Seq<char>>(ActionView::Reply { value: state.keyboard[0] }),
{
}

/// A byte leaves the keyboard queue only when the guest acknowledges it, by a
/// write to the status port that begins with zero, and then it is the oldest
/// byte that leaves. No other exit changes the queue.
pub proof fn lemma_only_acknowledge_consumes(state: PortState, exit: ExitView)
    ensures
        step(state, exit).0.keyboard != state.keyboard ==> (exit matches ExitView::IoOut {
            port,
            data,
        } && acknowledges(port, data) && state.keyboard.len() > 0 && step(state, exit).0.keyboard
            == state.keyboard.drop_first()),
{
}

/// No exit makes the keyboard queue longer: it grows only when the host
/// types, and then never beyond its capacity.
pub proof fn lemma_exit_does_not_grow_queue(state: PortState, exit: ExitView)
    ensures
        step(state, exit).0.keyboard.len() <= state.keyboard.len(),
{
}

/// Something that happens to the devices while a guest runs: the host types a
/// byte, or the virtual CPU exits.
pub enum HostEvent {
    Typed { byte: u8 },
    Exited { exit: ExitView },
}

/// The devices after one event.
pub open spec fn after_event(state: PortState, event: HostEvent) -> PortState {
    match event {
        HostEvent::Typed { byte } => PortState {
            console: state.console,
            keyboard: offered(state.keyboard, byte),
            timer: state.timer,
        },
        HostEvent::Exited { exit } => step(state, exit).0,
    }
}

/// The devices after a run of events, in whatever order typing and exits
/// fall.
pub open spec fn after_events(state: PortState, events: Seq<HostEvent>) -> PortState
    decreases events.len(),
{
    if events.len() == 0 {
        state
    } else {
        after_event(after_events(state, events.drop_last()), events.last())
    }
}

/// The typed bytes that found room in the queue, in the order typed.
pub open spec fn queued_bytes(state: PortState, events: Seq<HostEvent>) -> Seq<u8>
    decreases events.len(),
{
    if events.len() == 0 {
        Seq::empty()
    } else {
        let before = queued_bytes(state, events.drop_last());
        match events.last() {
            HostEvent::Typed { byte } => if after_events(
                state,
                events.drop_last(),
            ).keyboard.len() < KEYBOARD_CAPACITY {
                before.push(byte)
            } else {
                before
            },
            _ => before,
        }
    }
}

/// How many bytes the guest has taken by acknowledging them.
pub open spec fn taken_count(state: PortState, events: Seq<HostEvent>) -> nat
    decreases events.len(),
{
    if events.len() == 0 {
        0
    } else {
        let before = taken_count(state, events.drop_last());
        match events.last() {
            HostEvent::Exited { exit: ExitView::IoOut { port, data } } => if acknowledges(
                port,
                data,
            ) && after_events(state, events.drop_last()).keyboard.len() > 0 {
                before + 1
            } else {
                before
            },
            _ => before,
        }
    }
}

/// However typing and exits fall, the queue is a queue: it holds the bytes
/// that were there or found room, in their order, less those that the guest
/// has acknowledged, which left oldest first. It never holds more than its
/// capacity.
pub proof fn lemma_queue_is_fifo(state: PortState, events: Seq<HostEvent>)
    requires
        state.keyboard.len() <= KEYBOARD_CAPACITY,
    ensures
        taken_count(state, events) <= state.keyboard.len() + queued_bytes(state, events).len(),
        after_events(state, events).keyboard == (state.keyboard + queued_bytes(
            state,
            events,
        )).skip(taken_count(state, events) as int),
        after_events(state, events).keyboard.len() <= KEYBOARD_CAPACITY,
    decreases events.len(),
{
    if events.len() > 0 {
        lemma_queue_is_fifo(state, events.drop_last());
    }
}

/// A write that enables the timer does not fire it, and wakes the ticker: the
/// flags are what the guest wrote, and the ticker, which waited while the
/// timer was disabled, now sleeps for the interval that is set, before
/// anything fires.
pub proof fn lemma_enabling_write_wakes_ticker(state: PortState, data: Seq<u8>)
    requires
        data.len() > 0,
        is_enabled(data[0]),
    ensures
        ({
            let (after, outcome) = step(state, ExitView::IoOut { port: TIMER_FLAGS_PORT, data });
            &&& outcome == Ok::<ActionView, Seq<char>>(ActionView::WakeTimer)
            &&& after.timer.flags == data[0]
            &&& is_fired(after.timer.flags) == is_fired(data[0])
            &&& next_step(after.timer) == (TickerStep::Sleep { millis: state.timer.interval })
        }),
{
}

/// A write that disables the timer suspends the ticker: woken by the write,
/// it finds the timer disabled and waits.
pub proof fn lemma_disabling_write_suspends_ticker(state: PortState, data: Seq<u8>)
    requires
        data.len() > 0,
        !is_enabled(data[0]),
    ensures
        ({
            let (after, outcome) = step(state, ExitView::IoOut { port: TIMER_FLAGS_PORT, data });
            &&& outcome == Ok::<ActionView, Seq<char>>(ActionView::WakeTimer)
            &&& next_step(after.timer) == TickerStep::Wait
        }),
{
}

/// A write to the interval port changes the interval alone and wakes nobody:
/// a sleep of the ticker that has begun runs its length, and the new interval
/// is the length of the next sleep that the ticker decides on.
pub proof fn lemma_interval_write_spares_sleep(state: PortState, data: Seq<u8>)
    ensures
        ({
            let (after, outcome) = step(
                state,
                ExitView::IoOut { port: TIMER_INTERVAL_PORT, data },
            );
            &&& outcome == Ok::<ActionView, Seq<char>>(ActionView::Resume)
            &&& after.timer.flags == state.timer.flags
            &&& after.timer.interval == le_u32(data)
            &&& is_enabled(state.timer.flags) ==> next_step(after.timer) == (TickerStep::Sleep {
                millis: le_u32(data) as u32,
            })
        }),
{
}

} // verus!
