use minivmm::devices::{Action, Devices, Exit, RunError};
use minivmm::guest::console::put_char;
use minivmm::guest::keyboard::poll;
use minivmm::keyboard::KeyboardQueue;
use minivmm::loopback::Loopback;
use minivmm::timer::Timer;
use minivmm::vcpu::setup_regs;
use std::sync::mpsc::sync_channel;

/// Answers the exits as the monitor's loop does, and gathers what the
/// console hands to the host.
fn run_to_completion(exits: Vec<Exit>) -> (Result<bool, RunError>, Vec<u8>, usize) {
    let mut devices = Devices::new();
    let mut timer = Timer::new();
    let mut lines = Vec::new();
    let result = devices.replay(&mut timer, &exits, &mut lines);
    (result, lines.concat(), lines.len())
}

#[test]
fn adding_guest_prints_five_and_halts() {
    // the guest adds the two seeded registers, makes a digit of the sum and
    // writes it and a newline to the console, then halts
    let regs = setup_regs(0x1000);
    let digit = (regs.rax + regs.rbx) as u8 + b'0';
    let exits = vec![
        Exit::IoOut { port: 0x42, data: vec![digit] },
        Exit::IoOut { port: 0x42, data: vec![b'\n'] },
        Exit::Hlt,
    ];
    let (result, output, flushes) = run_to_completion(exits);
    assert_eq!(result, Ok(true));
    assert_eq!(output, b"5\n".to_vec());
    assert_eq!(flushes, 1);
}

#[test]
fn exits_after_the_halt_are_not_answered() {
    let exits = vec![
        Exit::IoOut { port: 0x42, data: b"a\n".to_vec() },
        Exit::Hlt,
        Exit::IoOut { port: 0x42, data: b"b\n".to_vec() },
    ];
    let (result, output, _) = run_to_completion(exits);
    assert_eq!(result, Ok(true));
    assert_eq!(output, b"a\n".to_vec());
}

#[test]
fn unexpected_exit_fails_the_run() {
    let exits = vec![
        Exit::IoOut { port: 0x42, data: b"a\n".to_vec() },
        Exit::Other { name: "Debug".to_string() },
        Exit::Hlt,
    ];
    let (result, output, _) = run_to_completion(exits);
    assert_eq!(result, Err(RunError::UnexpectedExit { name: "Debug".to_string() }));
    assert_eq!(output, b"a\n".to_vec());
}

#[test]
fn run_without_halt_goes_on() {
    let mut exits = Vec::new();
    for i in 0..500u16 {
        exits.push(Exit::IoIn { port: i });
        exits.push(Exit::IoOut { port: i, data: vec![i as u8] });
    }
    let (result, _, _) = run_to_completion(exits);
    assert_eq!(result, Ok(false));
}

#[test]
fn echoing_guest_repeats_what_was_typed() {
    let typed = b"hello, world\nsecond line\n";
    let mut bus = Loopback::new();
    let mut fed = 0;
    let mut idle_rounds = 0;
    while idle_rounds < 2 {
        // the host types as fast as the queue takes it
        while fed < typed.len() && bus.devices.keyboard.offer(typed[fed]) {
            fed += 1;
        }
        // the guest polls the status port, reads the data port, acknowledges
        // and echoes
        match poll(&mut bus) {
            Some(key) => put_char(&mut bus, key),
            None => idle_rounds += 1,
        }
    }
    assert_eq!(fed, typed.len());
    assert_eq!(bus.output.concat(), typed.to_vec());
    assert_eq!(bus.output, vec![b"hello, world\n".to_vec(), b"second line\n".to_vec()]);
}

#[test]
fn echo_through_the_exits_of_a_guest() {
    // the same guest, seen from the monitor: each port access is one exit
    let (tx, rx) = sync_channel::<u8>(512);
    for byte in b"ok\n" {
        tx.send(*byte).unwrap();
    }
    let mut devices = Devices::new();
    let mut timer = Timer::new();
    let mut output: Vec<u8> = Vec::new();
    loop {
        devices.keyboard.process_keyboard_input(&rx);
        let status = devices.handle_exit(&mut timer, &Exit::IoIn { port: 0x45 });
        if status == Ok(Action::Reply { value: 0 }) {
            break;
        }
        assert_eq!(status, Ok(Action::Reply { value: 1 }));
        let key = match devices.handle_exit(&mut timer, &Exit::IoIn { port: 0x44 }) {
            Ok(Action::Reply { value }) => value,
            other => panic!("{:?}", other),
        };
        assert_eq!(
            devices.handle_exit(&mut timer, &Exit::IoOut { port: 0x45, data: vec![0] }),
            Ok(Action::Resume)
        );
        match devices.handle_exit(&mut timer, &Exit::IoOut { port: 0x42, data: vec![key] }) {
            Ok(Action::Flush { lines }) => output.extend(lines.concat()),
            other => panic!("{:?}", other),
        }
    }
    assert_eq!(output, b"ok\n".to_vec());
}

#[test]
fn typing_ahead_of_a_slow_guest_loses_the_overflow() {
    let mut queue = KeyboardQueue::new();
    let mut taken = 0;
    for i in 0..100u8 {
        if queue.offer(i) {
            taken += 1;
        }
    }
    assert_eq!(taken, 64);
    assert_eq!(queue.len(), 64);
    assert_eq!(queue.data(), 0);
}

#[test]
fn replay_adds_to_the_lines_already_there() {
    let mut devices = Devices::new();
    let mut timer = Timer::new();
    let mut lines = vec![b"before\n".to_vec()];
    let exits = vec![
        Exit::IoOut { port: 0x42, data: b"par".to_vec() },
        Exit::IoIn { port: 0x47 },
        Exit::IoOut { port: 0x42, data: b"t\nrest".to_vec() },
    ];
    assert_eq!(devices.replay(&mut timer, &exits, &mut lines), Ok(false));
    assert_eq!(lines, vec![b"before\n".to_vec(), b"part\n".to_vec()]);
    assert_eq!(devices.console.len(), 4);
    assert_eq!(devices.replay(&mut timer, &[], &mut lines), Ok(false));
    assert_eq!(devices.replay(&mut timer, &[Exit::Hlt], &mut lines), Ok(true));
    assert_eq!(lines.len(), 2);
}

#[test]
fn replay_changes_the_devices_as_the_exits_ask() {
    let mut devices = Devices::new();
    let mut timer = Timer::new();
    let mut lines = Vec::new();
    devices.keyboard.offer(b'a');
    devices.keyboard.offer(b'b');
    let exits = vec![
        Exit::IoOut { port: 0x46, data: vec![0xee, 0x02] },
        Exit::IoOut { port: 0x47, data: vec![1] },
        Exit::IoOut { port: 0x45, data: vec![0] },
        Exit::Other { name: "Shutdown".to_string() },
        Exit::IoOut { port: 0x45, data: vec![0] },
    ];
    assert_eq!(
        devices.replay(&mut timer, &exits, &mut lines),
        Err(RunError::UnexpectedExit { name: "Shutdown".to_string() })
    );
    assert_eq!(timer.interval(), 750);
    assert_eq!(timer.flags(), 1);
    assert_eq!(devices.keyboard.len(), 1);
    assert_eq!(devices.keyboard.data(), b'b');
}
