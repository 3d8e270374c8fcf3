use agon_periph::uart::{ByteSink, ByteSource, Uart};
use std::cell::RefCell;
use std::rc::Rc;

/// Sink that records every byte the device puts on the wire.
struct RecordingSink(Rc<RefCell<Vec<u8>>>);

impl ByteSink for RecordingSink {
    fn send(&mut self, byte: u8) {
        self.0.borrow_mut().push(byte);
    }
}

/// Source that hands out a fixed script of bytes, one per poll, counting the
/// polls made.
struct ScriptedSource {
    script: Rc<RefCell<Vec<u8>>>,
    polls: Rc<RefCell<usize>>,
}

impl ByteSource for ScriptedSource {
    fn recv(&mut self) -> Option<u8> {
        *self.polls.borrow_mut() += 1;
        let mut script = self.script.borrow_mut();
        if script.is_empty() {
            None
        } else {
            Some(script.remove(0))
        }
    }
}

fn make_uart(
    script: Vec<u8>,
) -> (
    Uart<RecordingSink, ScriptedSource>,
    Rc<RefCell<Vec<u8>>>,
    Rc<RefCell<usize>>,
) {
    let sent = Rc::new(RefCell::new(Vec::new()));
    let polls = Rc::new(RefCell::new(0));
    let uart = Uart::new(
        RecordingSink(sent.clone()),
        ScriptedSource {
            script: Rc::new(RefCell::new(script)),
            polls: polls.clone(),
        },
    );
    (uart, sent, polls)
}

fn drain(uart: &mut Uart<RecordingSink, ScriptedSource>) {
    for _ in 0..64 {
        uart.apply_ticks(i32::MAX);
    }
}

#[test]
fn fifo_mode_queue_caps_at_sixteen() {
    let (mut uart, sent, _) = make_uart(vec![]);
    uart.write_fctl(0x01);
    for b in 0..20u8 {
        uart.send_byte(b);
    }
    drain(&mut uart);
    let got = sent.borrow().clone();
    assert_eq!(got, (0..16u8).collect::<Vec<u8>>());
}

#[test]
fn non_fifo_queue_caps_at_one() {
    let (mut uart, sent, _) = make_uart(vec![]);
    for b in [5u8, 6, 7] {
        uart.send_byte(b);
    }
    drain(&mut uart);
    assert_eq!(sent.borrow().clone(), vec![5u8]);
}

#[test]
fn fifo_toggle_keeps_queued_backlog() {
    let (mut uart, sent, _) = make_uart(vec![]);
    uart.write_fctl(0x01);
    for b in [1u8, 2, 3] {
        uart.send_byte(b);
    }
    uart.write_fctl(0x00);
    // capacity is 1 now, so nothing more fits, but the backlog stays
    uart.send_byte(4);
    drain(&mut uart);
    assert_eq!(sent.borrow().clone(), vec![1u8, 2, 3]);
}

#[test]
fn transmit_timing_one_byte_per_cooldown() {
    let (mut uart, sent, _) = make_uart(vec![]);
    // default divisor is 2, so a byte rests 2 * 16 * 9 = 288 cycles
    uart.send_byte(0xAA);
    assert_eq!(uart.read_lsr() & 0x20, 0);
    // the transmitter is idle, so the first tick sends the byte
    uart.apply_ticks(1);
    assert_eq!(sent.borrow().clone(), vec![0xAA]);
    assert_eq!(uart.read_lsr() & 0x20, 0x20);

    // the next byte becomes head with a freshly reloaded cooldown
    uart.send_byte(0xBB);
    for _ in 0..287 {
        uart.apply_ticks(1);
        assert_eq!(uart.read_lsr() & 0x20, 0, "sent early");
    }
    assert_eq!(sent.borrow().clone(), vec![0xAA]);
    uart.apply_ticks(1);
    assert_eq!(sent.borrow().clone(), vec![0xAA, 0xBB]);
    assert_eq!(uart.read_lsr() & 0x20, 0x20);
    // no further sends happen with nothing queued
    drain(&mut uart);
    assert_eq!(sent.borrow().clone(), vec![0xAA, 0xBB]);
}

#[test]
fn large_tick_sends_at_most_one_byte() {
    let (mut uart, sent, _) = make_uart(vec![]);
    uart.write_fctl(0x01);
    uart.send_byte(1);
    uart.send_byte(2);
    uart.apply_ticks(1_000_000);
    assert_eq!(sent.borrow().clone(), vec![1u8]);
    uart.apply_ticks(1_000_000);
    assert_eq!(sent.borrow().clone(), vec![1u8, 2]);
}

#[test]
fn receive_pair_delivers_once_then_zero() {
    let (mut uart, _, polls) = make_uart(vec![42]);
    // latch the delivered byte through a status read: one poll
    assert_eq!(uart.read_lsr() & 0x01, 0x01);
    let polls_before_pair = *polls.borrow();
    assert_eq!(uart.receive_byte(), 42);
    assert_eq!(uart.receive_byte(), 0);
    // the pair polled the source exactly once (for the second, empty read)
    assert_eq!(*polls.borrow() - polls_before_pair, 1);
}

#[test]
fn receive_byte_returns_zero_when_no_data() {
    let (mut uart, _, polls) = make_uart(vec![]);
    assert_eq!(uart.receive_byte(), 0);
    assert_eq!(*polls.borrow(), 1);
}

#[test]
fn data_ready_bit_tracks_latch_and_source() {
    let (mut uart, _, polls) = make_uart(vec![9]);
    assert_eq!(uart.read_lsr() & 0x01, 0x01);
    let polls_after_first = *polls.borrow();
    // the byte is latched: further status reads do not poll again
    assert_eq!(uart.read_lsr() & 0x01, 0x01);
    assert_eq!(*polls.borrow(), polls_after_first);
    assert_eq!(uart.receive_byte(), 9);
    // nothing left: the data-ready bit goes back to 0
    assert_eq!(uart.read_lsr() & 0x01, 0);
}

#[test]
fn fill_rx_buf_latches_without_consuming() {
    let (mut uart, _, polls) = make_uart(vec![7, 8]);
    assert_eq!(uart.maybe_fill_rx_buf(), Some(7));
    // the latch holds the byte: refilling neither polls nor replaces it
    assert_eq!(uart.maybe_fill_rx_buf(), Some(7));
    assert_eq!(*polls.borrow(), 1);
    assert_eq!(uart.receive_byte(), 7);
    assert_eq!(uart.receive_byte(), 8);
    assert_eq!(*polls.borrow(), 2);
}

#[test]
fn status_bits_report_transmitter_state() {
    let (mut uart, _, _) = make_uart(vec![]);
    // idle and empty: transmit-empty and transmitter-idle bits set
    assert_eq!(uart.read_lsr(), 0x60);
    uart.send_byte(0x55);
    assert_eq!(uart.read_lsr(), 0x00);
    uart.apply_ticks(1);
    // byte sent, cooldown running: holding register empty, not yet idle
    assert_eq!(uart.read_lsr(), 0x20);
    uart.apply_ticks(288);
    assert_eq!(uart.read_lsr(), 0x60);
}

#[test]
fn register_accessors_follow_bits() {
    let (mut uart, _, _) = make_uart(vec![]);
    assert!(!uart.is_access_brg_registers());
    assert!(!uart.is_rx_interrupt_enabled());
    assert_eq!(uart.brg_div, 2);
    uart.lctl = 0x80;
    uart.ier = 0x01;
    assert!(uart.is_access_brg_registers());
    assert!(uart.is_rx_interrupt_enabled());
    uart.lctl = 0x7F;
    uart.ier = 0xFE;
    assert!(!uart.is_access_brg_registers());
    assert!(!uart.is_rx_interrupt_enabled());
}
