//! A bus that needs no hardware: the synthetic engine, queried in the order
//! of the DRO cadence.

use vstd::prelude::*;
use crate::protocol::{DroProtocolEngine, EngineState, FredReply, STATUS_READY};

verus! {

/// The ten DRO sub-queries in the order in which they are posed. The last
/// one, the low byte of the speed, closes the cadence.
pub const DRO_CADENCE: [u8; 10] = [0x03, 0x02, 0x01, 0x00, 0x07, 0x06, 0x05, 0x04, 0x0D, 0x0C];

/// Number of sub-queries in one cadence.
pub const CADENCE_LEN: usize = 10;

/// The sub-query that closes the cadence.
pub const CADENCE_TERMINATOR: u8 = 0x0C;

/// The sub-query at position `i` of the cadence, counted on and on.
pub open spec fn cadence_at(i: int) -> u8 {
    DRO_CADENCE@[i % 10]
}

/// One bus dialogue: the sub-query and the two bytes read back.
#[derive(Clone, Copy, Debug, PartialEq, Eq, Structural)]
pub struct MockBusFrame {
    pub cmd_fc80: u8,
    pub status_fcf0: u8,
    pub response_fcf1: u8,
}

/// Mathematical model of a [`MockBusRunner`].
pub struct RunnerState {
    pub engine: EngineState,
    pub idx: int,
}

impl RunnerState {
    /// The runner before its first step.
    pub open spec fn initial() -> RunnerState {
        RunnerState { engine: EngineState::initial(), idx: 0 }
    }

    /// The position is one of the cadence.
    pub open spec fn wf(self) -> bool {
        0 <= self.idx < 10
    }

    /// The sub-query that the next step poses.
    pub open spec fn next_cmd(self) -> u8 {
        DRO_CADENCE@[self.idx]
    }

    /// The dialogue of the next step: the engine advances first and then
    /// answers the sub-query at the current position.
    pub open spec fn frame(self) -> MockBusFrame {
        MockBusFrame {
            cmd_fc80: self.next_cmd(),
            status_fcf0: STATUS_READY,
            response_fcf1: self.engine.step().response(self.next_cmd()),
        }
    }

    /// The runner after the next step. The position wraps at the end of the
    /// cadence.
    pub open spec fn step(self) -> RunnerState {
        RunnerState { engine: self.engine.step(), idx: (self.idx + 1) % 10 }
    }

    /// The runner after `n` steps.
    pub open spec fn steps(self, n: nat) -> RunnerState
        decreases n,
    {
        if n == 0 {
            self
        } else {
            self.steps((n - 1) as nat).step()
        }
    }
}

/// A place in the cadence. It never leaves the cadence.
pub struct CadenceCursor {
    idx: usize,
}

impl View for CadenceCursor {
    type V = int;

    closed spec fn view(&self) -> int {
        self.idx as int
    }
}

impl CadenceCursor {
    #[verifier::type_invariant]
    spec fn in_cadence(self) -> bool {
        self.idx < CADENCE_LEN
    }

    /// A cursor at the start of the cadence.
    pub fn new() -> (c: Self)
        ensures
            c@ == 0,
    {
        CadenceCursor { idx: 0 }
    }

    /// The sub-query at the cursor.
    pub fn current(&self) -> (cmd: u8)
        ensures
            0 <= self@ < 10,
            cmd == DRO_CADENCE@[self@],
    {
        proof {
            use_type_invariant(self);
        }
        DRO_CADENCE[self.idx]
    }

    /// Returns the sub-query at the cursor and moves the cursor one place
    /// on, back to the start after the last place.
    pub fn advance(&mut self) -> (cmd: u8)
        ensures
            0 <= old(self)@ < 10,
            cmd == DRO_CADENCE@[old(self)@],
            final(self)@ == (old(self)@ + 1) % 10,
    {
        proof {
            use_type_invariant(&*self);
        }
        let cmd: u8 = DRO_CADENCE[self.idx];
        self.idx = (self.idx + 1) % DRO_CADENCE.len();
        cmd
    }
}

/// Steps the synthetic engine through the cadence.
pub struct MockBusRunner {
    engine: DroProtocolEngine,
    cursor: CadenceCursor,
}

impl View for MockBusRunner {
    type V = RunnerState;

    closed spec fn view(&self) -> RunnerState {
        RunnerState { engine: self.engine@, idx: self.cursor@ }
    }
}

impl MockBusRunner {
    /// A runner at the start of the cadence, with a new engine.
    pub fn new() -> (r: Self)
        ensures
            r@ == RunnerState::initial(),
    {
        MockBusRunner { engine: DroProtocolEngine::new(), cursor: CadenceCursor::new() }
    }

    /// Performs one bus dialogue: advances the engine by one tick, poses the
    /// next sub-query of the cadence and returns it with the answer.
    pub fn step(&mut self) -> (frame: MockBusFrame)
        ensures
            old(self)@.wf(),
            frame == old(self)@.frame(),
            final(self)@ == old(self)@.step(),
    {
        let cmd: u8 = self.cursor.advance();

        self.engine.step_telemetry();
        let FredReply { status_fcf0, response_fcf1 } = self.engine.on_command(cmd);

        MockBusFrame { cmd_fc80: cmd, status_fcf0, response_fcf1 }
    }
}

/// After `n` steps from any place the runner stands `n` places further in
/// the cadence.
pub proof fn lemma_steps_advance(s: RunnerState, n: nat)
    requires
        s.wf(),
    ensures
        s.steps(n).wf(),
        s.steps(n).idx == (s.idx + n) % 10,
    decreases n,
{
    if n > 0 {
        let before = s.steps((n - 1) as nat);
        lemma_steps_advance(s, (n - 1) as nat);
        assert(before.idx == (s.idx + n - 1) % 10);
        assert(s.steps(n).idx == (before.idx + 1) % 10);
        assert(((s.idx + n - 1) % 10 + 1) % 10 == (s.idx + n) % 10);
    }
}

/// From any place the runner poses the sub-queries in the order of the
/// cadence, again and again, and the engine always reports ready.
pub proof fn lemma_cadence_order_from(s: RunnerState, i: nat)
    requires
        s.wf(),
    ensures
        s.steps(i).frame().cmd_fc80 == cadence_at(s.idx + i),
        s.steps(i).frame().status_fcf0 == STATUS_READY,
{
    lemma_steps_advance(s, i);
}

/// A new runner poses the sub-queries in the order of the cadence, again
/// and again: its step number `i`, counted from zero, poses the sub-query at
/// place `i` modulo ten.
pub proof fn lemma_cadence_order(i: nat)
    ensures
        RunnerState::initial().steps(i).frame().cmd_fc80 == DRO_CADENCE@[i as int % 10],
{
    lemma_cadence_order_from(RunnerState::initial(), i);
}

/// One if step number `i` from `s` poses the sub-query `cmd`, zero if not.
pub open spec fn posed_at(s: RunnerState, cmd: u8, i: nat) -> nat {
    if s.steps(i).frame().cmd_fc80 == cmd {
        1
    } else {
        0
    }
}

/// How many of the first `n` steps from `s` pose the sub-query `cmd`.
pub open spec fn times_posed(s: RunnerState, cmd: u8, n: nat) -> nat
    decreases n,
{
    if n == 0 {
        0
    } else {
        times_posed(s, cmd, (n - 1) as nat) + posed_at(s, cmd, (n - 1) as nat)
    }
}

/// The ten sub-queries of the cadence are all different.
pub proof fn lemma_cadence_distinct(i: int, j: int)
    requires
        0 <= i < 10,
        0 <= j < 10,
        DRO_CADENCE@[i] == DRO_CADENCE@[j],
    ensures
        i == j,
{
}

/// One if `offset` places behind the place `from` lies the place `place`.
spec fn lands_on(from: int, offset: int, place: int) -> nat {
    if (from + offset) % 10 == place {
        1
    } else {
        0
    }
}

proof fn lemma_posed_at_place(s: RunnerState, place: int, base: nat, offset: nat)
    requires
        s.wf(),
        0 <= place < 10,
        base % 10 == 0,
    ensures
        posed_at(s, DRO_CADENCE@[place], base + offset) == lands_on(s.idx, offset as int, place),
{
    lemma_steps_advance(s, base + offset);
    assert((s.idx + base + offset) % 10 == (s.idx + offset) % 10);
    if s.steps(base + offset).frame().cmd_fc80 == DRO_CADENCE@[place] {
        lemma_cadence_distinct((s.idx + offset) % 10, place);
    }
}

proof fn lemma_one_landing_in_ten(from: int, place: int)
    requires
        0 <= from < 10,
        0 <= place < 10,
    ensures
        lands_on(from, 0, place) + lands_on(from, 1, place) + lands_on(from, 2, place) + lands_on(
            from,
            3,
            place,
        ) + lands_on(from, 4, place) + lands_on(from, 5, place) + lands_on(from, 6, place)
            + lands_on(from, 7, place) + lands_on(from, 8, place) + lands_on(from, 9, place) == 1,
{
    let hit = (place - from + 10) % 10;
    assert((from + hit) % 10 == place);
}

proof fn lemma_ten_more_steps(s: RunnerState, cmd: u8, base: nat)
    ensures
        times_posed(s, cmd, base + 10) == times_posed(s, cmd, base) + posed_at(s, cmd, base)
            + posed_at(s, cmd, base + 1) + posed_at(s, cmd, base + 2) + posed_at(s, cmd, base + 3)
            + posed_at(s, cmd, base + 4) + posed_at(s, cmd, base + 5) + posed_at(s, cmd, base + 6)
            + posed_at(s, cmd, base + 7) + posed_at(s, cmd, base + 8) + posed_at(s, cmd, base + 9),
{
    assert(times_posed(s, cmd, base + 1) == times_posed(s, cmd, base) + posed_at(s, cmd, base));
    assert(times_posed(s, cmd, base + 2) == times_posed(s, cmd, base + 1) + posed_at(
        s,
        cmd,
        base + 1,
    ));
    assert(times_posed(s, cmd, base + 3) == times_posed(s, cmd, base + 2) + posed_at(
        s,
        cmd,
        base + 2,
    ));
    assert(times_posed(s, cmd, base + 4) == times_posed(s, cmd, base + 3) + posed_at(
        s,
        cmd,
        base + 3,
    ));
    assert(times_posed(s, cmd, base + 5) == times_posed(s, cmd, base + 4) + posed_at(
        s,
        cmd,
        base + 4,
    ));
    assert(times_posed(s, cmd, base + 6) == times_posed(s, cmd, base + 5) + posed_at(
        s,
        cmd,
        base + 5,
    ));
    assert(times_posed(s, cmd, base + 7) == times_posed(s, cmd, base + 6) + posed_at(
        s,
        cmd,
        base + 6,
    ));
    assert(times_posed(s, cmd, base + 8) == times_posed(s, cmd, base + 7) + posed_at(
        s,
        cmd,
        base + 7,
    ));
    assert(times_posed(s, cmd, base + 9) == times_posed(s, cmd, base + 8) + posed_at(
        s,
        cmd,
        base + 8,
    ));
    assert(times_posed(s, cmd, base + 10) == times_posed(s, cmd, base + 9) + posed_at(
        s,
        cmd,
        base + 9,
    ));
}

/// In any window of whole cadences, wherever it starts, every sub-query of
/// the cadence is posed exactly once per cadence.
pub proof fn lemma_once_per_cadence(s: RunnerState, place: int, cadences: nat)
    requires
        s.wf(),
        0 <= place < 10,
    ensures
        times_posed(s, DRO_CADENCE@[place], 10 * cadences) == cadences,
    decreases cadences,
{
    if cadences > 0 {
        let cmd = DRO_CADENCE@[place];
        let base = (10 * (cadences - 1)) as nat;
        lemma_once_per_cadence(s, place, (cadences - 1) as nat);
        lemma_ten_more_steps(s, cmd, base);
        lemma_posed_at_place(s, place, base, 0);
        lemma_posed_at_place(s, place, base, 1);
        lemma_posed_at_place(s, place, base, 2);
        lemma_posed_at_place(s, place, base, 3);
        lemma_posed_at_place(s, place, base, 4);
        lemma_posed_at_place(s, place, base, 5);
        lemma_posed_at_place(s, place, base, 6);
        lemma_posed_at_place(s, place, base, 7);
        lemma_posed_at_place(s, place, base, 8);
        lemma_posed_at_place(s, place, base, 9);
        lemma_one_landing_in_ten(s.idx, place);
        assert(base + 10 == 10 * cadences);
    }
}

} // verus!
