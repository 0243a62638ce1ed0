use minivmm::guest::console::{print, put_char};
use minivmm::guest::echo::{LineEcho, LINE_CAPACITY, TICK_MILLIS};
use minivmm::guest::event::Event;
use minivmm::guest::io::PortIo;
use minivmm::guest::keyboard::poll as poll_keyboard;
use minivmm::guest::timer::{enable, poll as poll_timer};
use minivmm::loopback::Loopback;

fn host_output(bus: &Loopback) -> Vec<u8> {
    bus.output.concat()
}

#[test]
fn ports_reach_the_devices() {
    let mut bus = Loopback::new();
    bus.devices.keyboard.offer(b'q');
    assert_eq!(bus.inb(0x45), 1);
    assert_eq!(bus.inb(0x44), b'q');
    assert_eq!(bus.inb(0x47), 0);
    assert_eq!(bus.inb(0x80), 0);
    bus.outb(0x47, 5);
    assert_eq!(bus.inb(0x47), 5);
    bus.outs(0x46, 0x1234);
    assert_eq!(bus.timer.interval(), 0x1234);
    bus.outb(0x46, 9);
    assert_eq!(bus.timer.interval(), 9);
    bus.outb(0x45, 0);
    assert_eq!(bus.inb(0x45), 0);
    bus.outb(0x80, 1);
    assert!(bus.output.is_empty());
}

#[test]
fn word_write_to_console_is_two_bytes() {
    let mut bus = Loopback::new();
    bus.outs(0x42, u16::from_le_bytes([b'a', b'\n']));
    assert_eq!(bus.output, vec![b"a\n".to_vec()]);
}

#[test]
fn put_char_writes_one_byte() {
    let mut bus = Loopback::new();
    put_char(&mut bus, b'o');
    put_char(&mut bus, b'k');
    assert!(bus.output.is_empty());
    assert_eq!(bus.devices.console.len(), 2);
    put_char(&mut bus, b'\n');
    assert_eq!(bus.output, vec![b"ok\n".to_vec()]);
    assert_eq!(bus.devices.console.len(), 0);
}

#[test]
fn print_writes_every_byte_in_order() {
    let mut bus = Loopback::new();
    print(&mut bus, b"first\nsecond\nthi");
    print(&mut bus, b"");
    print(&mut bus, b"rd\n");
    assert_eq!(bus.output, vec![b"first\n".to_vec(), b"second\n".to_vec(), b"third\n".to_vec()]);
}

#[test]
fn keyboard_poll_takes_keys_oldest_first() {
    let mut bus = Loopback::new();
    assert_eq!(poll_keyboard(&mut bus), None);
    bus.devices.keyboard.offer(b'a');
    bus.devices.keyboard.offer(b'b');
    assert_eq!(poll_keyboard(&mut bus), Some(b'a'));
    assert_eq!(bus.devices.keyboard.len(), 1);
    assert_eq!(poll_keyboard(&mut bus), Some(b'b'));
    assert_eq!(poll_keyboard(&mut bus), None);
    assert_eq!(bus.devices.keyboard.len(), 0);
}

#[test]
fn keyboard_poll_passes_zero_bytes_on() {
    let mut bus = Loopback::new();
    bus.devices.keyboard.offer(0);
    assert_eq!(poll_keyboard(&mut bus), Some(0));
    assert_eq!(poll_keyboard(&mut bus), None);
}

#[test]
fn timer_enable_sets_interval_and_flags() {
    let mut bus = Loopback::new();
    bus.timer.set_flags(0xff);
    enable(&mut bus, 750);
    assert_eq!(bus.timer.interval(), 750);
    assert_eq!(bus.timer.flags(), 1);
    enable(&mut bus, u16::MAX);
    assert_eq!(bus.timer.interval(), 65535);
    enable(&mut bus, 0x0100);
    assert_eq!(bus.timer.interval(), 256);
}

#[test]
fn timer_poll_sees_each_tick_once() {
    let mut bus = Loopback::new();
    enable(&mut bus, 10);
    assert!(!poll_timer(&mut bus));
    bus.timer.after_sleep();
    assert_eq!(bus.timer.flags(), 3);
    assert!(poll_timer(&mut bus));
    assert_eq!(bus.timer.flags(), 1);
    assert!(!poll_timer(&mut bus));
    bus.timer.after_sleep();
    bus.timer.after_sleep();
    assert!(poll_timer(&mut bus));
    assert!(!poll_timer(&mut bus));
}

#[test]
fn timer_poll_keeps_the_other_flags() {
    let mut bus = Loopback::new();
    bus.timer.set_flags(0xf3);
    assert!(poll_timer(&mut bus));
    assert_eq!(bus.timer.flags(), 0xf1);
    bus.timer.set_flags(0xf0);
    assert!(!poll_timer(&mut bus));
    assert_eq!(bus.timer.flags(), 0xf0);
}

#[test]
fn key_goes_before_tick() {
    let mut bus = Loopback::new();
    assert_eq!(Event::next(&mut bus), None);
    bus.timer.set_flags(3);
    bus.devices.keyboard.offer(b'z');
    assert_eq!(Event::next(&mut bus), Some(Event::Keyboard(b'z')));
    assert_eq!(bus.timer.flags(), 3);
    assert_eq!(Event::next(&mut bus), Some(Event::Tick));
    assert_eq!(bus.timer.flags(), 1);
    assert_eq!(Event::next(&mut bus), None);
}

#[test]
fn echo_starts_the_timer() {
    assert_eq!(TICK_MILLIS, 750);
    assert_eq!(LINE_CAPACITY, 64);
    let mut bus = Loopback::new();
    let echo = LineEcho::start(&mut bus);
    assert_eq!(bus.timer.interval(), 750);
    assert_eq!(bus.timer.flags(), 1);
    assert!(echo.typing().is_empty());
    assert!(echo.line().is_empty());
}

#[test]
fn echo_gathers_keys_into_a_line() {
    let mut echo = LineEcho::new();
    for key in b"hi" {
        echo.key(*key);
    }
    assert_eq!(echo.typing(), b"hi");
    assert_eq!(echo.line(), b"");
    echo.key(b'\n');
    assert_eq!(echo.typing(), b"");
    assert_eq!(echo.line(), b"hi\n");
    echo.key(b'x');
    assert_eq!(echo.typing(), b"x");
    assert_eq!(echo.line(), b"hi\n");
    echo.key(b'\n');
    assert_eq!(echo.line(), b"x\n");
}

#[test]
fn echo_full_line_loses_its_newest_byte() {
    let mut echo = LineEcho::new();
    for i in 0..64u8 {
        echo.key(b'a' + i % 26);
    }
    assert_eq!(echo.typing().len(), 64);
    assert_eq!(echo.typing()[63], b'a' + 63 % 26);
    echo.key(b'#');
    assert_eq!(echo.typing().len(), 64);
    assert_eq!(echo.typing()[62], b'a' + 62 % 26);
    assert_eq!(echo.typing()[63], b'#');
    echo.key(b'\n');
    assert_eq!(echo.typing().len(), 0);
    assert_eq!(echo.line().len(), 64);
    assert_eq!(echo.line()[62], b'a' + 62 % 26);
    assert_eq!(echo.line()[63], b'\n');
    assert_eq!(echo.line()[0], b'a');
}

#[test]
fn echo_prints_the_last_line_on_every_tick() {
    let mut bus = Loopback::new();
    let mut echo = LineEcho::start(&mut bus);
    echo.on_event(&mut bus, Event::Tick);
    assert!(bus.output.is_empty());
    for key in b"hello\nwor" {
        echo.on_event(&mut bus, Event::Keyboard(*key));
    }
    assert!(bus.output.is_empty());
    echo.on_event(&mut bus, Event::Tick);
    echo.on_event(&mut bus, Event::Tick);
    assert_eq!(host_output(&bus), b"hello\nhello\n".to_vec());
    for key in b"ld\n" {
        echo.on_event(&mut bus, Event::Keyboard(*key));
    }
    echo.on_event(&mut bus, Event::Tick);
    assert_eq!(host_output(&bus), b"hello\nhello\nworld\n".to_vec());
}

#[test]
fn echo_round_takes_one_event() {
    let mut bus = Loopback::new();
    let mut echo = LineEcho::start(&mut bus);
    assert!(!echo.step(&mut bus));
    for key in b"ab\n" {
        bus.devices.keyboard.offer(*key);
    }
    bus.timer.after_sleep();
    assert!(echo.step(&mut bus));
    assert_eq!(echo.typing(), b"a");
    assert!(echo.step(&mut bus));
    assert!(echo.step(&mut bus));
    assert_eq!(echo.line(), b"ab\n");
    assert!(bus.output.is_empty());
    assert!(echo.step(&mut bus));
    assert_eq!(bus.output, vec![b"ab\n".to_vec()]);
    assert!(!echo.step(&mut bus));
}

#[test]
fn new_loopback_is_quiet() {
    let mut bus = Loopback::new();
    assert!(bus.output.is_empty());
    assert_eq!(bus.devices.console.len(), 0);
    assert_eq!(bus.devices.keyboard.len(), 0);
    assert_eq!(bus.timer.flags(), 0);
    assert_eq!(bus.timer.interval(), 0);
    assert_eq!(Event::next(&mut bus), None);
}

#[test]
fn echo_tick_before_any_line_prints_nothing() {
    let mut bus = Loopback::new();
    let mut echo = LineEcho::start(&mut bus);
    for key in b"unfinished" {
        echo.on_event(&mut bus, Event::Keyboard(*key));
    }
    echo.on_event(&mut bus, Event::Tick);
    assert!(bus.output.is_empty());
    assert_eq!(bus.devices.console.len(), 0);
    assert_eq!(echo.typing(), b"unfinished");
}
