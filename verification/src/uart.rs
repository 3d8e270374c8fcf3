//! Register-level model of the serial peripheral: plain registers, a bounded
//! transmit queue, a single-slot receive latch, and a cooldown counter that
//! paces bytes onto the wire. The two host transports (outgoing sink,
//! incoming source) are capabilities the owner supplies at construction.

use vstd::prelude::*;

verus! {

/// FIFO-enable bit of the FIFO control register.
pub const FCTL_FIFOEN: u8 = 0x1;

/// Host transmit capability: takes each byte the device places on the wire.
/// Implementations live outside this library (a pty, a socket, a file), so
/// nothing is assumed about what `send` does; the device's own contracts
/// record each handed-over byte in its ghost `sent` history instead.
pub trait ByteSink {
    fn send(&mut self, byte: u8);
}

/// Host receive capability: non-blocking poll for at most one byte; `None`
/// means nothing is available right now. Implementations live outside this
/// library, so nothing is assumed about what `recv` returns; the device's
/// contracts record every poll outcome in its ghost `polls` history.
pub trait ByteSource {
    fn recv(&mut self) -> Option<u8>;
}

/// Abstract state of a `Uart`: the registers and queues as mathematical
/// values, plus two histories that exist only in specifications — `sent`, the
/// bytes handed to the sink so far, and `polls`, the outcome of every poll of
/// the source so far.
pub ghost struct UartState {
    /// Pending transmit bytes, oldest first.
    pub tx: Seq<u8>,
    /// The single-slot receive latch.
    pub rx: Option<u8>,
    /// Clock cycles left before the next byte may be sent.
    pub cooldown: int,
    /// Interrupt enable register.
    pub ier: u8,
    /// FIFO control register.
    pub fctl: u8,
    /// Line control register; its top bit selects the baud-rate registers.
    pub lctl: u8,
    /// Baud rate divisor.
    pub brg_div: u16,
    /// Scratchpad register.
    pub spr: u8,
    /// Every byte handed to the sink, in order.
    pub sent: Seq<u8>,
    /// The result of every poll of the source, in order.
    pub polls: Seq<Option<u8>>,
}

impl UartState {
    /// The state every freshly constructed device is in.
    pub open spec fn initial() -> UartState {
        UartState {
            tx: Seq::empty(),
            rx: None,
            cooldown: 0,
            ier: 0,
            fctl: 0,
            lctl: 0,
            brg_div: 2,
            spr: 0,
            sent: Seq::empty(),
            polls: Seq::empty(),
        }
    }

    /// Internal invariant: the cooldown never goes negative and the queue
    /// never holds more than the largest (FIFO) capacity.
    pub open spec fn wf(self) -> bool {
        &&& 0 <= self.cooldown <= i32::MAX
        &&& self.tx.len() <= 16
    }

    /// Whether the FIFO-enable bit of the FIFO control register is set.
    pub open spec fn fifo_enabled(self) -> bool {
        self.fctl & FCTL_FIFOEN != 0
    }

    /// Transmit queue capacity: 16 bytes in FIFO mode, 1 otherwise.
    pub open spec fn tx_capacity(self) -> int {
        if self.fifo_enabled() {
            16
        } else {
            1
        }
    }

    /// Cycles the transmitter rests after sending one byte: the divisor times
    /// 16 clocks per bit times 9 bits (8 data bits plus one parity/stop bit).
    pub open spec fn reload_cycles(self) -> int {
        self.brg_div as int * 16 * 9
    }

    /// Whether the top bit of the line control register redirects accesses to
    /// the baud rate generator registers.
    pub open spec fn brg_access_selected(self) -> bool {
        self.lctl & 0x80 != 0
    }

    /// Whether the receive interrupt is enabled.
    pub open spec fn rx_interrupt_enabled(self) -> bool {
        self.ier & 1 != 0
    }

    /// The line status byte: data ready (0x01), transmit holding register
    /// empty (0x20), transmitter empty and idle (0x40); other bits zero.
    pub open spec fn lsr(self) -> u8 {
        (if self.rx is Some {
            1u8
        } else {
            0u8
        }) | (if self.tx.len() == 0 {
            0x20u8
        } else {
            0u8
        }) | (if self.tx.len() == 0 && self.cooldown == 0 {
            0x40u8
        } else {
            0u8
        })
    }

    /// State after the clock advances by `cycles`: the cooldown drains toward
    /// zero, and if it reaches zero while a byte is queued, that one byte
    /// (never more per call) goes to the sink and the cooldown reloads.
    pub open spec fn after_ticks(self, cycles: int) -> UartState {
        let cd = if self.cooldown - cycles > 0 {
            self.cooldown - cycles
        } else {
            0
        };
        if cd == 0 && self.tx.len() > 0 {
            UartState {
                tx: self.tx.drop_first(),
                cooldown: self.reload_cycles(),
                sent: self.sent.push(self.tx[0]),
                ..self
            }
        } else {
            UartState { cooldown: cd, ..self }
        }
    }

    /// State after a byte is offered for transmission: appended if the queue
    /// is below its current capacity, silently dropped otherwise.
    pub open spec fn after_enqueue(self, byte: u8) -> UartState {
        if self.tx.len() < self.tx_capacity() {
            UartState { tx: self.tx.push(byte), ..self }
        } else {
            self
        }
    }

    /// The same state with the receive latch and poll history replaced.
    pub open spec fn with_latch(self, rx: Option<u8>, polls: Seq<Option<u8>>) -> UartState {
        UartState { rx, polls, ..self }
    }

    /// The same state with the FIFO control register replaced.
    pub open spec fn with_fctl(self, fctl: u8) -> UartState {
        UartState { fctl, ..self }
    }

    /// State after every byte of `bytes` is offered in order.
    pub open spec fn after_enqueue_seq(self, bytes: Seq<u8>) -> UartState
        decreases bytes.len(),
    {
        if bytes.len() == 0 {
            self
        } else {
            self.after_enqueue(bytes[0]).after_enqueue_seq(bytes.drop_first())
        }
    }

    /// State after the clock advances `n` times by a single cycle.
    pub open spec fn after_n_single_ticks(self, n: nat) -> UartState
        decreases n,
    {
        if n == 0 {
            self
        } else {
            self.after_n_single_ticks((n - 1) as nat).after_ticks(1)
        }
    }
}

/// How a lazy latch fill relates the state before it to the state after it:
/// a held byte stays put and nothing is polled; an empty latch costs exactly
/// one poll, whose outcome (recorded in the poll history) fills the latch.
pub open spec fn fill_step(pre: UartState, post: UartState) -> bool {
    if pre.rx is Some {
        post == pre
    } else {
        post == pre.with_latch(post.rx, pre.polls.push(post.rx))
    }
}

/// How one latch read relates the state before it, the state after it and the
/// byte returned: a waiting byte is taken without a poll; an empty latch
/// costs exactly one poll, whose outcome is delivered, or 0 in its place.
pub open spec fn receive_step(pre: UartState, post: UartState, r: u8) -> bool {
    match pre.rx {
        Some(data) => r == data && post == pre.with_latch(None, pre.polls),
        None => ({
            let polled = post.polls.last();
            &&& post == pre.with_latch(None, pre.polls.push(polled))
            &&& r == (match polled {
                Some(data) => data,
                None => 0u8,
            })
        }),
    }
}

/// Each status bit of the line status byte, read back individually.
pub proof fn lemma_lsr_bits(s: UartState)
    ensures
        s.lsr() & 0x01 == (if s.rx is Some {
            1u8
        } else {
            0u8
        }),
        s.lsr() & 0x20 == (if s.tx.len() == 0 {
            0x20u8
        } else {
            0u8
        }),
        s.lsr() & 0x40 == (if s.tx.len() == 0 && s.cooldown == 0 {
            0x40u8
        } else {
            0u8
        }),
{
    if s.rx is Some {
        if s.tx.len() == 0 {
            if s.cooldown == 0 {
                assert((1u8 | 0x20u8 | 0x40u8) & 0x01 == 1 && (1u8 | 0x20u8 | 0x40u8) & 0x20
                    == 0x20 && (1u8 | 0x20u8 | 0x40u8) & 0x40 == 0x40) by (bit_vector);
            } else {
                assert((1u8 | 0x20u8 | 0u8) & 0x01 == 1 && (1u8 | 0x20u8 | 0u8) & 0x20 == 0x20 && (
                1u8 | 0x20u8 | 0u8) & 0x40 == 0) by (bit_vector);
            }
        } else {
            assert((1u8 | 0u8 | 0u8) & 0x01 == 1 && (1u8 | 0u8 | 0u8) & 0x20 == 0 && (1u8 | 0u8
                | 0u8) & 0x40 == 0) by (bit_vector);
        }
    } else {
        if s.tx.len() == 0 {
            if s.cooldown == 0 {
                assert((0u8 | 0x20u8 | 0x40u8) & 0x01 == 0 && (0u8 | 0x20u8 | 0x40u8) & 0x20
                    == 0x20 && (0u8 | 0x20u8 | 0x40u8) & 0x40 == 0x40) by (bit_vector);
            } else {
                assert((0u8 | 0x20u8 | 0u8) & 0x01 == 0 && (0u8 | 0x20u8 | 0u8) & 0x20 == 0x20 && (
                0u8 | 0x20u8 | 0u8) & 0x40 == 0) by (bit_vector);
            }
        } else {
            assert((0u8 | 0u8 | 0u8) & 0x01 == 0 && (0u8 | 0u8 | 0u8) & 0x20 == 0 && (0u8 | 0u8
                | 0u8) & 0x40 == 0) by (bit_vector);
        }
    }
}

/// However many bytes are offered for transmission, the queue never grows
/// past the capacity the FIFO-enable bit selects — at any point during the
/// sequence — and the excess is dropped rather than reported.
pub proof fn lemma_enqueue_capacity(s: UartState, bytes: Seq<u8>)
    requires
        s.tx.len() <= s.tx_capacity(),
    ensures
        forall|k: int|
            0 <= k <= bytes.len() ==> #[trigger] s.after_enqueue_seq(bytes.take(k)).tx.len()
                <= s.tx_capacity(),
        s.after_enqueue_seq(bytes).tx.len() <= s.tx_capacity(),
        s.after_enqueue_seq(bytes).fctl == s.fctl,
    decreases bytes.len(),
{
    if bytes.len() == 0 {
        assert forall|k: int| 0 <= k <= bytes.len() implies #[trigger] s.after_enqueue_seq(
            bytes.take(k),
        ).tx.len() <= s.tx_capacity() by {
            assert(bytes.take(k) =~= bytes);
        }
    } else {
        let s1 = s.after_enqueue(bytes[0]);
        lemma_enqueue_capacity(s1, bytes.drop_first());
        assert forall|k: int| 0 <= k <= bytes.len() implies #[trigger] s.after_enqueue_seq(
            bytes.take(k),
        ).tx.len() <= s.tx_capacity() by {
            if k == 0 {
                assert(bytes.take(0) =~= Seq::<u8>::empty());
            } else {
                assert(bytes.take(k).drop_first() =~= bytes.drop_first().take(k - 1));
                assert(s.after_enqueue_seq(bytes.take(k)) == s1.after_enqueue_seq(
                    bytes.drop_first().take(k - 1),
                ));
            }
        }
        assert(bytes.take(bytes.len() as int) =~= bytes);
    }
}

/// A byte alone at the head of a freshly reloaded transmitter goes to the
/// sink exactly once, on the single-cycle tick that exhausts the cooldown of
/// `divisor * 16 * 9` cycles — never earlier — and the transmit-empty status
/// bit (0x20) is clear strictly before that tick and set from it onward,
/// given no further bytes are offered.
pub proof fn lemma_transmit_timing(s: UartState, b: u8, n: nat)
    requires
        s.wf(),
        s.tx == seq![b],
        s.cooldown == s.reload_cycles(),
        s.brg_div >= 1,
    ensures
        n < s.reload_cycles() ==> ({
            let t = s.after_n_single_ticks(n);
            &&& t.sent == s.sent
            &&& t.tx == s.tx
            &&& t.cooldown == s.reload_cycles() - n
            &&& t.lsr() & 0x20 == 0
        }),
        n >= s.reload_cycles() ==> ({
            let t = s.after_n_single_ticks(n);
            &&& t.sent == s.sent.push(b)
            &&& t.tx.len() == 0
            &&& t.lsr() & 0x20 == 0x20
        }),
    decreases n,
{
    assert(s.reload_cycles() >= 144);
    if n == 0 {
        lemma_lsr_bits(s);
    } else {
        lemma_transmit_timing(s, b, (n - 1) as nat);
        let prev = s.after_n_single_ticks((n - 1) as nat);
        let t = prev.after_ticks(1);
        if n < s.reload_cycles() {
            lemma_lsr_bits(t);
        } else if n == s.reload_cycles() {
            assert(prev.cooldown == 1);
            assert(seq![b].drop_first() =~= Seq::<u8>::empty());
            assert(prev.tx[0] == b);
            lemma_lsr_bits(t);
        } else {
            lemma_lsr_bits(t);
        }
    }
}

/// Two latch reads in a row, starting with a byte already delivered: the
/// first read returns that byte without polling the source, the second polls
/// exactly once — so the source is polled at most once over the pair — and
/// returns 0 when that poll yields nothing (no intervening host data).
pub proof fn lemma_receive_pair(
    s0: UartState,
    s1: UartState,
    s2: UartState,
    r1: u8,
    r2: u8,
    data: u8,
)
    requires
        s0.rx == Some(data),
        receive_step(s0, s1, r1),
        receive_step(s1, s2, r2),
    ensures
        r1 == data,
        s1.polls == s0.polls,
        s2.polls.len() == s0.polls.len() + 1,
        s2.polls.last() is None ==> r2 == 0,
        s1.rx is None,
        s2.rx is None,
{
}

/// The data-ready bit (0x01) of a status read is set if and only if the
/// latch already held a byte or the poll the read made yielded one.
pub proof fn lemma_data_ready(pre: UartState, post: UartState, r: u8)
    requires
        r == post.lsr(),
        fill_step(pre, post),
    ensures
        r & 0x01 == 1 <==> (pre.rx is Some || post.polls.last() is Some),
{
    lemma_lsr_bits(post);
}

/// The serial peripheral. Reads and writes of its I/O-mapped registers arrive
/// through the methods below; an external clock drives `apply_ticks`.
pub struct Uart<S: ByteSink, R: ByteSource> {
    send_fn: S,
    recv_fn: R,
    rx_buf: Option<u8>,
    /// Number of clock cycles before a byte can be sent again.
    transmit_cooldown: i32,
    /// Interrupt enable register.
    pub ier: u8,
    /// FIFO control register.
    fctl: u8,
    /// Line control register; `lctl & 0x80` enables access to the baud rate
    /// generator registers where rbr/thr and ier are normally accessed.
    pub lctl: u8,
    /// Baud rate divisor.
    pub brg_div: u16,
    /// Scratchpad register.
    pub spr: u8,
    tx_fifo: Vec<u8>,
    sent: Ghost<Seq<u8>>,
    polls: Ghost<Seq<Option<u8>>>,
}

impl<S: ByteSink, R: ByteSource> View for Uart<S, R> {
    type V = UartState;

    closed spec fn view(&self) -> UartState {
        UartState {
            tx: self.tx_fifo@,
            rx: self.rx_buf,
            cooldown: self.transmit_cooldown as int,
            ier: self.ier,
            fctl: self.fctl,
            lctl: self.lctl,
            brg_div: self.brg_div,
            spr: self.spr,
            sent: self.sent@,
            polls: self.polls@,
        }
    }
}

impl<S: ByteSink, R: ByteSource> Uart<S, R> {
    /// Builds an idle device that owns the two host transport capabilities.
    pub fn new(send_fn: S, recv_fn: R) -> (uart: Uart<S, R>)
        ensures
            uart@ == UartState::initial(),
    {
        let uart = Uart {
            send_fn,
            recv_fn,
            transmit_cooldown: 0,
            tx_fifo: Vec::new(),
            ier: 0,
            fctl: 0,
            lctl: 0,
            brg_div: 2,
            spr: 0,
            rx_buf: None,
            sent: Ghost(Seq::empty()),
            polls: Ghost(Seq::empty()),
        };
        proof {
            assert(uart@ =~= UartState::initial());
        }
        uart
    }

    /// Stores the FIFO control byte verbatim; only future capacity checks
    /// change, bytes already queued stay queued.
    pub fn write_fctl(&mut self, val: u8)
        requires
            old(self)@.wf(),
        ensures
            final(self)@ == old(self)@.with_fctl(val),
            final(self)@.wf(),
    {
        self.fctl = val;
    }

    /// Advances the emulated clock. At most one queued byte is sent per call,
    /// however large `cycles` is: one byte per shift register, never an
    /// unbounded catch-up burst.
    pub fn apply_ticks(&mut self, cycles: i32)
        requires
            old(self)@.wf(),
            cycles >= 0,
        ensures
            final(self)@ == old(self)@.after_ticks(cycles as int),
            final(self)@.wf(),
    {
        self.transmit_cooldown = if self.transmit_cooldown > cycles {
            self.transmit_cooldown - cycles
        } else {
            0
        };
        if self.transmit_cooldown == 0 {
            if self.tx_fifo.len() > 0 {
                let val = self.tx_fifo.remove(0);
                // actually send
                self.send_fn.send(val);
                self.sent = Ghost(self.sent@.push(val));
                self.transmit_cooldown = self.brg_div as i32 * 16 * 9;
                proof {
                    assert(self.tx_fifo@ =~= old(self)@.tx.drop_first());
                    assert(self@ =~= old(self)@.after_ticks(cycles as int));
                }
            }
        }
    }

    /// Offers a byte for transmission. Past the current capacity the byte is
    /// dropped silently: the hardware has no overflow signal.
    pub fn send_byte(&mut self, value: u8)
        requires
            old(self)@.wf(),
        ensures
            final(self)@ == old(self)@.after_enqueue(value),
            final(self)@.wf(),
    {
        if (self.tx_fifo.len() < 16 && self.fctl & FCTL_FIFOEN != 0) || (self.tx_fifo.len() == 0
            && self.fctl & FCTL_FIFOEN == 0) {
            self.tx_fifo.push(value);
        } else {
            // drop the data: the guest was pushing bytes too fast
        }
    }

    /// Ensures the receive latch is populated if the source has data, polling
    /// the source exactly once when (and only when) the latch is empty.
    pub fn maybe_fill_rx_buf(&mut self) -> (r: Option<u8>)
        requires
            old(self)@.wf(),
        ensures
            r == final(self)@.rx,
            fill_step(old(self)@, final(self)@),
            old(self)@.rx is Some ==> r == old(self)@.rx,
            final(self)@.wf(),
    {
        if self.rx_buf.is_none() {
            self.rx_buf = self.recv_fn.recv();
            self.polls = Ghost(self.polls@.push(self.rx_buf));
        }
        self.rx_buf
    }

    /// Takes the latched byte, polling the source first if the latch is
    /// empty; an empty read returns 0 rather than blocking or failing.
    pub fn receive_byte(&mut self) -> (r: u8)
        requires
            old(self)@.wf(),
        ensures
            final(self)@.rx is None,
            receive_step(old(self)@, final(self)@, r),
            final(self)@.wf(),
    {
        self.maybe_fill_rx_buf();

        let maybe_data = self.rx_buf;
        self.rx_buf = None;

        match maybe_data {
            Some(data) => data,
            None => 0,
        }
    }

    /// Reads the line status register, populating the receive latch lazily so
    /// the data-ready bit reflects what the source has to offer.
    pub fn read_lsr(&mut self) -> (r: u8)
        requires
            old(self)@.wf(),
        ensures
            r == final(self)@.lsr(),
            fill_step(old(self)@, final(self)@),
            final(self)@.wf(),
    {
        // 0x01 = DR (data ready: a byte can be received)
        let dr: u8 = if self.maybe_fill_rx_buf().is_some() {
            1
        } else {
            0
        };
        // 0x20 = THRE (transmit holding register empty)
        let thre: u8 = if self.tx_fifo.len() == 0 {
            0x20
        } else {
            0
        };
        // 0x40 = TEMT (transmit holding register empty and transmitter idle)
        let temt: u8 = if self.tx_fifo.len() == 0 && self.transmit_cooldown == 0 {
            0x40
        } else {
            0
        };
        dr | thre | temt
    }

    /// Pure test of the line control register's top bit.
    pub fn is_access_brg_registers(&self) -> (r: bool)
        ensures
            r == self@.brg_access_selected(),
    {
        self.lctl & 0x80 != 0
    }

    /// Pure test of the interrupt enable register's receive bit.
    pub fn is_rx_interrupt_enabled(&self) -> (r: bool)
        ensures
            r == self@.rx_interrupt_enabled(),
    {
        self.ier & 1 != 0
    }
}


} // verus!
