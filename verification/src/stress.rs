//! The write stress test: two timed phases of writes without response, one
//! byte at a time and then eight bytes at a time.
//!
//! The test is a sequence of actions that the program performs one by one:
//! it starts the clock of a phase, makes the writes of the phase, stops
//! the clock, and goes on to the next phase. [`WriteStress`] says which action
//! is due and takes note of how each one ended. Nothing is read back from the
//! peripheral: the test passes when no write is refused.

use vstd::prelude::*;

use crate::failure::{Failure, FailureModel};
use crate::gatt::{characteristic_ids, find_characteristic, CharacteristicDescriptor};
use crate::identifier::WRITABLE_CHARACTERISTIC;
use crate::search::first_at;

verus! {

/// The number of writes of each phase.
pub const SAMPLES: u32 = 1000;

/// The two phases of the test, by the size of each write.
#[derive(Clone, Copy, Debug, PartialEq, Eq, Structural)]
pub enum Phase {
    SingleByte,
    EightBytes,
}

impl Phase {
    /// The number of bytes of each write.
    pub open spec fn width(self) -> nat {
        match self {
            Phase::SingleByte => 1,
            Phase::EightBytes => 8,
        }
    }

    /// The number of bits of each write.
    pub open spec fn bits_per_sample(self) -> nat {
        self.width() * 8
    }

    /// The number of bits that the phase writes in all.
    pub open spec fn bits(self) -> nat {
        SAMPLES as nat * self.bits_per_sample()
    }

    /// The number of bytes of each write.
    pub fn payload_len(self) -> (len: usize)
        ensures
            len == self.width(),
    {
        match self {
            Phase::SingleByte => 1,
            Phase::EightBytes => 8,
        }
    }

    /// The number of bits that the phase writes in all: the number of
    /// samples times the bits of each.
    pub fn total_bits(self) -> (bits: u64)
        ensures
            bits == self.bits(),
            self == Phase::SingleByte ==> bits == 8000,
            self == Phase::EightBytes ==> bits == 64000,
    {
        match self {
            Phase::SingleByte => 8000,
            Phase::EightBytes => 64000,
        }
    }
}

/// The bytes of write number `index` of a phase: each byte is the index modulo 256.
pub open spec fn payload_of(phase: Phase, index: nat) -> Seq<u8> {
    Seq::new(phase.width(), |i: int| (index % 256) as u8)
}

/// The bytes of write number `index` of a phase.
pub fn payload(phase: Phase, index: u32) -> (bytes: Vec<u8>)
    ensures
        bytes@ == payload_of(phase, index as nat),
{
    let value: u8 = (index % 256) as u8;
    let len = phase.payload_len();
    let mut bytes: Vec<u8> = Vec::new();
    let mut i: usize = 0;
    while i < len
        invariant
            i <= len,
            len == phase.width(),
            value == (index as nat % 256) as u8,
            bytes@ == Seq::new(i as nat, |j: int| value),
        decreases len - i,
    {
        bytes.push(value);
        assert(bytes@ =~= Seq::new((i + 1) as nat, |j: int| value));
        i += 1;
    }
    assert(bytes@ =~= payload_of(phase, index as nat));
    bytes
}

/// The place, among all the characteristics of the peripheral, of the one
/// that the test writes to: the first with the identifier of the writable
/// characteristic, if there is one.
pub fn target(characteristics: &Vec<CharacteristicDescriptor>) -> (at: Option<usize>)
    ensures
        match at {
            Some(i) => first_at(
                characteristic_ids(characteristics@),
                WRITABLE_CHARACTERISTIC,
                i as int,
            ),
            None => !characteristic_ids(characteristics@).contains(WRITABLE_CHARACTERISTIC),
        },
{
    find_characteristic(characteristics, WRITABLE_CHARACTERISTIC)
}

/// Where the test stands.
#[derive(Clone, Copy, Debug, PartialEq, Eq, Structural)]
pub enum StressState {
    /// The clock of the phase is to be started.
    Starting(Phase),
    /// The write with the given number is to be made.
    Writing(Phase, u32),
    /// All writes of the phase are made; its clock is to be stopped.
    Stopping(Phase),
    /// Both phases went through.
    Passed,
    /// A write was refused.
    Failed,
}

/// What the program is to do next.
#[derive(Clone, Debug, PartialEq, Eq)]
pub enum StressAction {
    StartClock(Phase),
    /// Write these bytes to the writable characteristic, without response.
    Write(Vec<u8>),
    StopClock(Phase),
    /// The test is over: ask for its verdict.
    Finish,
}

/// The state that follows `state` once its action has ended; `accepted`
/// says whether a write went through, and counts for nothing else.
pub open spec fn next_state(state: StressState, accepted: bool) -> StressState {
    match state {
        StressState::Starting(phase) => StressState::Writing(phase, 0),
        StressState::Writing(phase, index) => if !accepted {
            StressState::Failed
        } else if index + 1 < SAMPLES {
            StressState::Writing(phase, (index + 1) as u32)
        } else {
            StressState::Stopping(phase)
        },
        StressState::Stopping(Phase::SingleByte) => StressState::Starting(Phase::EightBytes),
        StressState::Stopping(Phase::EightBytes) => StressState::Passed,
        StressState::Passed => StressState::Passed,
        StressState::Failed => StressState::Failed,
    }
}

/// The state after `n` actions when no write was refused.
pub open spec fn state_after(n: nat) -> StressState {
    if n == 0 {
        StressState::Starting(Phase::SingleByte)
    } else if n <= SAMPLES {
        StressState::Writing(Phase::SingleByte, (n - 1) as u32)
    } else if n == SAMPLES + 1 {
        StressState::Stopping(Phase::SingleByte)
    } else if n == SAMPLES + 2 {
        StressState::Starting(Phase::EightBytes)
    } else if n <= 2 * SAMPLES + 2 {
        StressState::Writing(Phase::EightBytes, (n - SAMPLES - 3) as u32)
    } else if n == 2 * SAMPLES + 3 {
        StressState::Stopping(Phase::EightBytes)
    } else {
        StressState::Passed
    }
}

/// The state after the actions whose ends `accepted` lists, from the start of the test.
pub open spec fn state_through(accepted: Seq<bool>) -> StressState
    decreases accepted.len(),
{
    if accepted.len() == 0 {
        state_after(0)
    } else {
        next_state(state_through(accepted.drop_last()), accepted.last())
    }
}

/// No write among the first `n` actions was refused.
pub open spec fn writes_accepted(accepted: Seq<bool>, n: int) -> bool {
    forall|i: int| 0 <= i < n && i < accepted.len() && state_after(i as nat) is Writing ==> accepted[i]
}

/// The test with the state it is in and, once a write was refused, the
/// words with which the link refused it.
pub struct WriteStress {
    pub state: StressState,
    pub refusal: String,
}

impl WriteStress {
    /// The test before its first action.
    pub fn new() -> (test: WriteStress)
        ensures
            test.state == state_after(0),
            test.refusal@.len() == 0,
    {
        WriteStress { state: StressState::Starting(Phase::SingleByte), refusal: String::new() }
    }

    /// The action that is due.
    pub fn action(&self) -> (action: StressAction)
        ensures
            match self.state {
                StressState::Starting(phase) => action == StressAction::StartClock(phase),
                StressState::Writing(phase, index) => action matches StressAction::Write(bytes)
                    && bytes@ == payload_of(phase, index as nat),
                StressState::Stopping(phase) => action == StressAction::StopClock(phase),
                StressState::Passed => action == StressAction::Finish,
                StressState::Failed => action == StressAction::Finish,
            },
    {
        match self.state {
            StressState::Starting(phase) => StressAction::StartClock(phase),
            StressState::Writing(phase, index) => StressAction::Write(payload(phase, index)),
            StressState::Stopping(phase) => StressAction::StopClock(phase),
            StressState::Passed => StressAction::Finish,
            StressState::Failed => StressAction::Finish,
        }
    }

    /// Takes note of how the action that was due ended. An error counts
    /// only for a write: it fails the test, and its text is kept.
    pub fn advance(&mut self, ended: Result<(), String>)
        ensures
            final(self).state == next_state(old(self).state, ended is Ok),
            final(self).refusal@ == if old(self).state is Writing && ended is Err {
                ended->Err_0@
            } else {
                old(self).refusal@
            },
    {
        match self.state {
            StressState::Starting(phase) => {
                self.state = StressState::Writing(phase, 0);
            },
            StressState::Writing(phase, index) => {
                match ended {
                    Ok(_) => {
                        if index < SAMPLES - 1 {
                            self.state = StressState::Writing(phase, index + 1);
                        } else {
                            self.state = StressState::Stopping(phase);
                        }
                    },
                    Err(text) => {
                        self.state = StressState::Failed;
                        self.refusal = text;
                    },
                }
            },
            StressState::Stopping(phase) => {
                match phase {
                    Phase::SingleByte => {
                        self.state = StressState::Starting(Phase::EightBytes);
                    },
                    Phase::EightBytes => {
                        self.state = StressState::Passed;
                    },
                }
            },
            StressState::Passed => {},
            StressState::Failed => {},
        }
    }

    /// The verdict of the test, once it is over: a pass when both phases
    /// went through, the refusal when a write was refused.
    pub fn verdict(&self) -> (verdict: Option<Result<(), Failure>>)
        ensures
            match self.state {
                StressState::Passed => verdict == Some(Ok::<(), Failure>(())),
                StressState::Failed => verdict matches Some(Err(failure)) && failure@ == (
                FailureModel::Write { message: self.refusal@ }),
                _ => verdict is None,
            },
    {
        match self.state {
            StressState::Passed => Some(Ok(())),
            StressState::Failed => Some(Err(Failure::Write { message: self.refusal.clone() })),
            _ => None,
        }
    }
}

/// While no write is refused the test moves one step along its plan with each action.
pub proof fn lemma_accepted_step(n: nat)
    ensures
        next_state(state_after(n), true) == state_after(n + 1),
{
}

/// A refused write fails the test, and a failed test stays failed.
pub proof fn lemma_refused_write_fails(phase: Phase, index: u32, accepted: bool)
    ensures
        next_state(StressState::Writing(phase, index), false) == StressState::Failed,
        next_state(StressState::Failed, accepted) == StressState::Failed,
{
}

/// The test passes exactly when no write is refused: after all its
/// actions it has passed if every write went through, and failed otherwise.
/// How the other actions ended does not count.
pub proof fn lemma_passes_iff_no_write_refused(accepted: Seq<bool>)
    requires
        accepted.len() == 2 * SAMPLES + 4,
    ensures
        state_through(accepted) == if writes_accepted(accepted, accepted.len() as int) {
            StressState::Passed
        } else {
            StressState::Failed
        },
{
    lemma_state_through(accepted);
}

/// After any number of actions the test is where its plan says, or failed
/// if one of the writes so far was refused.
pub proof fn lemma_state_through(accepted: Seq<bool>)
    ensures
        state_through(accepted) == if writes_accepted(accepted, accepted.len() as int) {
            state_after(accepted.len())
        } else {
            StressState::Failed
        },
    decreases accepted.len(),
{
    if accepted.len() > 0 {
        let before = accepted.drop_last();
        let n = before.len() as int;
        lemma_state_through(before);
        assert(forall|i: int| 0 <= i < n ==> before[i] == accepted[i]);
        if writes_accepted(before, n) {
            if state_after(n as nat) is Writing && !accepted[n] {
                assert(!writes_accepted(accepted, n + 1));
            } else {
                assert(writes_accepted(accepted, n + 1));
            }
        } else {
            let i = choose|i: int|
                0 <= i < n && i < before.len() && state_after(i as nat) is Writing && !before[i];
            assert(!accepted[i]);
            assert(!writes_accepted(accepted, n + 1));
        }
    }
}

/// The throughput of `bits` bits written in `nanos` nanoseconds, in
/// thousandths of a kilobit per second, rounded down. With the duration `D`
/// in seconds this is `bits / (D * 1000)` kilobits per second.
pub open spec fn throughput_of(bits: nat, nanos: nat) -> nat
    recommends
        nanos > 0,
{
    bits * 1_000_000_000 / nanos
}

/// The throughput of `bits` bits written in `nanos` nanoseconds, in
/// thousandths of a kilobit per second, rounded down; none for no time at all.
pub fn throughput(bits: u64, nanos: u128) -> (rate: Option<u128>)
    ensures
        rate is None <==> nanos == 0,
        rate matches Some(r) ==> r == throughput_of(bits as nat, nanos as nat),
{
    if nanos == 0 {
        return None;
    }
    let wide: u128 = bits as u128;
    assert(wide * 1_000_000_000 <= u128::MAX) by (nonlinear_arith)
        requires
            wide <= u64::MAX,
    ;
    Some(wide * 1_000_000_000 / nanos)
}

/// The throughput of a phase that took `nanos` nanoseconds.
pub fn phase_throughput(phase: Phase, nanos: u128) -> (rate: Option<u128>)
    ensures
        rate is None <==> nanos == 0,
        rate matches Some(r) ==> r == throughput_of(phase.bits(), nanos as nat),
        phase == Phase::SingleByte ==> (rate matches Some(r) ==> r == throughput_of(
            8000,
            nanos as nat,
        )),
        phase == Phase::EightBytes ==> (rate matches Some(r) ==> r == throughput_of(
            64000,
            nanos as nat,
        )),
{
    throughput(phase.total_bits(), nanos)
}

/// For a duration of whole seconds the figure is the bits written by the
/// seconds taken, rounded down: a thousand times `bits / (D * 1000)`. A
/// thousand one-byte writes in two seconds thus give 4000, that is 4.000
/// kilobits per second.
pub proof fn lemma_throughput_of_whole_seconds(bits: nat, seconds: nat)
    requires
        seconds > 0,
    ensures
        throughput_of(bits, seconds * 1_000_000_000) == bits / seconds,
{
    vstd::arithmetic::div_mod::lemma_div_multiples_vanish_quotient(
        1_000_000_000,
        bits as int,
        seconds as int,
    );
    assert(bits * 1_000_000_000 == 1_000_000_000 * bits) by (nonlinear_arith);
    assert(seconds * 1_000_000_000 == 1_000_000_000 * seconds) by (nonlinear_arith);
}

/// The figure is the quotient rounded down: times the duration it does
/// not exceed the bits written, and the next figure would.
pub proof fn lemma_throughput_bounds(bits: nat, nanos: nat)
    requires
        nanos > 0,
    ensures
        throughput_of(bits, nanos) * nanos <= bits * 1_000_000_000,
        bits * 1_000_000_000 < (throughput_of(bits, nanos) + 1) * nanos,
{
    let total = (bits * 1_000_000_000) as int;
    vstd::arithmetic::div_mod::lemma_fundamental_div_mod(total, nanos as int);
    vstd::arithmetic::div_mod::lemma_mod_bound(total, nanos as int);
    assert((total / nanos as int) * nanos == nanos * (total / nanos as int)) by (nonlinear_arith);
    assert((total / nanos as int + 1) * nanos == nanos * (total / nanos as int) + nanos)
        by (nonlinear_arith);
}

} // verus!
