//! The active bus master, as far as it decides anything.
//!
//! Two PIO state machines carry the bus cycles: one takes write words, the
//! other takes read words and gives the byte read back. Pushing and pulling
//! the FIFOs is the caller's part; this module composes the words, bounds
//! the wait for a FIFO and keeps the books: the last words, and how often a
//! FIFO did not come free in time.

use vstd::prelude::*;
use crate::le_bytes::u16_from_le;
use crate::pins::reg::{FC80, FCF0, FCF1};
use crate::protocol::FredReply;
use crate::wrap::succ32;

verus! {

/// Number of FIFO status polls after which a wait is given up.
pub const FIFO_SPIN_LIMIT: u32 = 100_000;

/// The byte that stands for a read that did not happen.
pub const READ_TIMEOUT_BYTE: u8 = 0xFF;

/// State machine that takes the write words.
pub const WRITE_SM: usize = 0;

/// State machine that takes the read words and returns the data.
pub const READ_SM: usize = 1;

/// State machine that samples the bus in passive mode.
pub const SNIFFER_SM: usize = 2;

/// The bus word for `addr_lo` and `data`: data in the low byte, the low
/// address byte above it.
pub open spec fn bus_word(addr_lo: u8, data: u8) -> u16 {
    (256 * addr_lo + data) as u16
}

/// Composes the bus word for `addr_lo` and `data`.
pub fn compose_bus_word(addr_lo: u8, data: u8) -> (word: u16)
    ensures
        word == bus_word(addr_lo, data),
{
    u16_from_le(data, addr_lo)
}

/// The flag of state machine `sm` is set in `flags`.
pub open spec fn flag_set(flags: u8, sm: usize) -> bool {
    flags & (1u8 << sm) != 0
}

/// Tells whether the flag of state machine `sm` is set in `flags`, a
/// field of the FIFO status register with one bit for each state machine.
pub fn fifo_flag(flags: u8, sm: usize) -> (set: bool)
    requires
        sm < 8,
    ensures
        set == flag_set(flags, sm),
{
    let mask: u8 = 1u8 << sm;
    flags & mask != 0
}

/// What one look at the FIFO status tells a waiting caller.
#[derive(Clone, Copy, Debug, PartialEq, Eq, Structural)]
pub enum SpinStep {
    /// The FIFO is free: go on with the transfer.
    Ready,
    /// The FIFO is busy: look again.
    Again,
    /// The FIFO was busy too often: give up.
    TimedOut,
}

/// Mathematical model of a [`FifoSpin`].
pub struct SpinState {
    pub sm: usize,
    pub spins: u32,
}

impl SpinState {
    /// A wait that has not looked yet.
    pub open spec fn start(sm: usize) -> SpinState {
        SpinState { sm, spins: 0 }
    }

    /// What the wait does on seeing `flags`, in which a set bit means busy.
    pub open spec fn step(self, flags: u8) -> SpinStep {
        if !flag_set(flags, self.sm) {
            SpinStep::Ready
        } else if succ32(self.spins) >= FIFO_SPIN_LIMIT {
            SpinStep::TimedOut
        } else {
            SpinStep::Again
        }
    }

    /// The wait after seeing `flags`: every busy look is counted.
    pub open spec fn after(self, flags: u8) -> SpinState {
        if flag_set(flags, self.sm) {
            SpinState { spins: succ32(self.spins), ..self }
        } else {
            self
        }
    }

    /// The wait after all of `seen`, first to last.
    pub open spec fn after_all(self, seen: Seq<u8>) -> SpinState
        decreases seen.len(),
    {
        if seen.len() == 0 {
            self
        } else {
            self.after_all(seen.drop_last()).after(seen.last())
        }
    }

    /// Every look of `seen` told the wait to look again.
    pub open spec fn kept_waiting(self, seen: Seq<u8>) -> bool
        decreases seen.len(),
    {
        if seen.len() == 0 {
            true
        } else {
            &&& self.kept_waiting(seen.drop_last())
            &&& self.after_all(seen.drop_last()).step(seen.last()) == SpinStep::Again
        }
    }
}

/// A bounded wait for one FIFO of one state machine.
pub struct FifoSpin {
    sm: usize,
    spins: u32,
}

impl View for FifoSpin {
    type V = SpinState;

    closed spec fn view(&self) -> SpinState {
        SpinState { sm: self.sm, spins: self.spins }
    }
}

impl FifoSpin {
    #[verifier::type_invariant]
    spec fn flag_in_byte(self) -> bool {
        self.sm < 8
    }

    /// Starts a wait for a FIFO of state machine `sm`.
    pub fn new(sm: usize) -> (spin: Self)
        requires
            sm < 8,
        ensures
            spin@ == SpinState::start(sm),
    {
        FifoSpin { sm, spins: 0 }
    }

    /// Takes in the FIFO flags just read, in which the bit of a busy state
    /// machine is set, and says how to go on.
    pub fn observe(&mut self, flags: u8) -> (step: SpinStep)
        ensures
            step == old(self)@.step(flags),
            final(self)@ == old(self)@.after(flags),
    {
        proof {
            use_type_invariant(&*self);
        }
        if !fifo_flag(flags, self.sm) {
            return SpinStep::Ready;
        }
        self.spins = self.spins.wrapping_add(1);
        if self.spins >= FIFO_SPIN_LIMIT {
            SpinStep::TimedOut
        } else {
            SpinStep::Again
        }
    }
}

/// A wait counts its busy looks.
pub proof fn lemma_waiting_counts(sm: usize, seen: Seq<u8>)
    requires
        SpinState::start(sm).kept_waiting(seen),
    ensures
        SpinState::start(sm).after_all(seen).spins == seen.len(),
        seen.len() < FIFO_SPIN_LIMIT,
    decreases seen.len(),
{
    if seen.len() > 0 {
        lemma_waiting_counts(sm, seen.drop_last());
    }
}

/// No wait goes on without bound: a new wait is told to look again fewer
/// times than the spin limit, whatever the FIFO flags show.
pub proof fn lemma_wait_is_bounded(sm: usize, seen: Seq<u8>)
    requires
        seen.len() >= FIFO_SPIN_LIMIT,
    ensures
        !SpinState::start(sm).kept_waiting(seen),
{
    if SpinState::start(sm).kept_waiting(seen) {
        lemma_waiting_counts(sm, seen);
    }
}

/// How the bus cycle behind a register read ended.
#[derive(Clone, Copy, Debug, PartialEq, Eq, Structural)]
pub enum ReadCycle {
    /// No bus is attached: the transport answers from the injected reply.
    Detached,
    /// The read word could not be pushed in time.
    TxTimeout,
    /// The word was pushed, but no data came back in time.
    RxTimeout,
    /// The word that the read state machine returned.
    Data(u32),
}

/// Mathematical model of a [`Rp2040FredTransport`].
pub struct TransportState {
    pub status_fcf0: u8,
    pub response_fcf1: u8,
    pub last_write_word: u16,
    pub last_read_word: u16,
    pub tx_timeout_count: u32,
    pub rx_timeout_count: u32,
    pub initialized: bool,
}

impl TransportState {
    /// The transport before anything happened.
    pub open spec fn initial() -> TransportState {
        TransportState {
            status_fcf0: 0,
            response_fcf1: 0,
            last_write_word: 0,
            last_read_word: 0,
            tx_timeout_count: 0,
            rx_timeout_count: 0,
            initialized: false,
        }
    }

    /// The word that poses the sub-query `cmd`.
    pub open spec fn write_word(cmd: u8) -> u16 {
        bus_word(FC80, cmd)
    }

    /// The word that reads the register with low address byte `addr_lo`.
    pub open spec fn read_word(addr_lo: u8) -> u16 {
        bus_word(addr_lo, 0)
    }

    /// The transport after a write of `cmd`, pushed or not.
    pub open spec fn after_write(self, cmd: u8, pushed: bool) -> TransportState {
        TransportState {
            last_write_word: Self::write_word(cmd),
            tx_timeout_count: if pushed {
                self.tx_timeout_count
            } else {
                succ32(self.tx_timeout_count)
            },
            ..self
        }
    }

    /// The transport after a read of the register at `addr_lo`.
    pub open spec fn after_read(self, addr_lo: u8, cycle: ReadCycle) -> TransportState {
        TransportState {
            last_read_word: Self::read_word(addr_lo),
            tx_timeout_count: if cycle is TxTimeout {
                succ32(self.tx_timeout_count)
            } else {
                self.tx_timeout_count
            },
            rx_timeout_count: if cycle is RxTimeout {
                succ32(self.rx_timeout_count)
            } else {
                self.rx_timeout_count
            },
            ..self
        }
    }

    /// The byte that a read yields: the low byte of the data, the timeout
    /// byte after a timeout, and `injected` where no bus is attached.
    pub open spec fn read_value(cycle: ReadCycle, injected: u8) -> u8 {
        match cycle {
            ReadCycle::Detached => injected,
            ReadCycle::TxTimeout => READ_TIMEOUT_BYTE,
            ReadCycle::RxTimeout => READ_TIMEOUT_BYTE,
            ReadCycle::Data(v) => (v % 256) as u8,
        }
    }
}

/// Book-keeping of the bus master: words, timeouts, one-time set-up.
pub struct Rp2040FredTransport {
    status_fcf0: u8,
    response_fcf1: u8,
    last_write_word: u16,
    last_read_word: u16,
    tx_timeout_count: u32,
    rx_timeout_count: u32,
    initialized: bool,
}

impl View for Rp2040FredTransport {
    type V = TransportState;

    closed spec fn view(&self) -> TransportState {
        TransportState {
            status_fcf0: self.status_fcf0,
            response_fcf1: self.response_fcf1,
            last_write_word: self.last_write_word,
            last_read_word: self.last_read_word,
            tx_timeout_count: self.tx_timeout_count,
            rx_timeout_count: self.rx_timeout_count,
            initialized: self.initialized,
        }
    }
}

proof fn lemma_low_byte(v: u32)
    by (bit_vector)
    ensures
        v & 0xFF == v % 256,
{
}

impl Rp2040FredTransport {
    /// A transport before anything happened.
    pub fn new() -> (t: Self)
        ensures
            t@ == TransportState::initial(),
    {
        Rp2040FredTransport {
            status_fcf0: 0x00,
            response_fcf1: 0x00,
            last_write_word: 0,
            last_read_word: 0,
            tx_timeout_count: 0,
            rx_timeout_count: 0,
            initialized: false,
        }
    }

    /// Marks the transport as set up. Returns whether the set-up of the
    /// hardware is still due, which it is on the first call only.
    pub fn init(&mut self) -> (due: bool)
        ensures
            due == !old(self)@.initialized,
            final(self)@ == (TransportState { initialized: true, ..old(self)@ }),
    {
        if self.initialized {
            return false;
        }
        self.initialized = true;
        true
    }

    /// The word to push for the sub-query `cmd`.
    pub fn write_word(cmd: u8) -> (word: u16)
        ensures
            word == TransportState::write_word(cmd),
    {
        compose_bus_word(FC80, cmd)
    }

    /// The word to push for a read of the status register.
    pub fn status_read_word() -> (word: u16)
        ensures
            word == TransportState::read_word(FCF0),
    {
        compose_bus_word(FCF0, 0x00)
    }

    /// The word to push for a read of the data register.
    pub fn response_read_word() -> (word: u16)
        ensures
            word == TransportState::read_word(FCF1),
    {
        compose_bus_word(FCF1, 0x00)
    }

    /// Books the write of the sub-query `cmd`. `pushed` tells whether its
    /// word went into the FIFO; if not, a transmit timeout is counted.
    pub fn write_fc80(&mut self, cmd: u8, pushed: bool)
        ensures
            final(self)@ == old(self)@.after_write(cmd, pushed),
    {
        let word: u16 = compose_bus_word(FC80, cmd);
        self.last_write_word = word;
        if !pushed {
            self.tx_timeout_count = self.tx_timeout_count.wrapping_add(1);
        }
    }

    /// Sets the bytes that reads yield while no bus is attached.
    pub fn inject_mock_reply(&mut self, reply: FredReply)
        ensures
            final(self)@ == (TransportState {
                status_fcf0: reply.status_fcf0,
                response_fcf1: reply.response_fcf1,
                ..old(self)@
            }),
    {
        self.status_fcf0 = reply.status_fcf0;
        self.response_fcf1 = reply.response_fcf1;
    }

    /// Books a read of the status register and returns the byte read.
    pub fn read_fcf0(&mut self, cycle: ReadCycle) -> (value: u8)
        ensures
            value == TransportState::read_value(cycle, old(self)@.status_fcf0),
            final(self)@ == old(self)@.after_read(FCF0, cycle),
    {
        let injected: u8 = self.status_fcf0;
        self.read_register(FCF0, injected, cycle)
    }

    /// Books a read of the data register and returns the byte read.
    pub fn read_fcf1(&mut self, cycle: ReadCycle) -> (value: u8)
        ensures
            value == TransportState::read_value(cycle, old(self)@.response_fcf1),
            final(self)@ == old(self)@.after_read(FCF1, cycle),
    {
        let injected: u8 = self.response_fcf1;
        self.read_register(FCF1, injected, cycle)
    }

    fn read_register(&mut self, addr_lo: u8, injected: u8, cycle: ReadCycle) -> (value: u8)
        ensures
            value == TransportState::read_value(cycle, injected),
            final(self)@ == old(self)@.after_read(addr_lo, cycle),
    {
        let word: u16 = compose_bus_word(addr_lo, 0x00);
        self.last_read_word = word;
        match cycle {
            ReadCycle::Detached => injected,
            ReadCycle::TxTimeout => {
                self.tx_timeout_count = self.tx_timeout_count.wrapping_add(1);
                READ_TIMEOUT_BYTE
            },
            ReadCycle::RxTimeout => {
                self.rx_timeout_count = self.rx_timeout_count.wrapping_add(1);
                READ_TIMEOUT_BYTE
            },
            ReadCycle::Data(v) => {
                proof {
                    lemma_low_byte(v);
                }
                (v & 0xFF) as u8
            },
        }
    }

    /// The word of the last write.
    pub fn last_write_word(&self) -> (word: u16)
        ensures
            word == self@.last_write_word,
    {
        self.last_write_word
    }

    /// The word of the last read.
    pub fn last_read_word(&self) -> (word: u16)
        ensures
            word == self@.last_read_word,
    {
        self.last_read_word
    }

    /// How often a word could not be pushed in time.
    pub fn tx_timeout_count(&self) -> (count: u32)
        ensures
            count == self@.tx_timeout_count,
    {
        self.tx_timeout_count
    }

    /// How often no data came back in time.
    pub fn rx_timeout_count(&self) -> (count: u32)
        ensures
            count == self@.rx_timeout_count,
    {
        self.rx_timeout_count
    }
}

} // verus!
