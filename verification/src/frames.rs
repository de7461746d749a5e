//! The stream producer: an explicit state machine that emits one single-byte
//! frame per tick, advancing an 8-bit counter with wraparound, until a write
//! fails.

use vstd::prelude::*;
use vstd::arithmetic::div_mod::lemma_add_mod_noop;
use vstd::arithmetic::div_mod::lemma_small_mod;

verus! {

/// The value carried by the frame emitted at (0-indexed) tick `i` of a
/// stream that started from `start`: `(start + i) mod 256`.
pub open spec fn frame_at(start: u8, i: int) -> u8 {
    (((start as int) + i) % 256) as u8
}

/// The state of the producer: either still running, holding the counter
/// value of the next frame to emit, or stopped after a failed write.
#[derive(Clone, Copy, PartialEq, Eq, Structural, Debug)]
pub enum ProducerState {
    Running { counter: u8 },
    Stopped,
}

/// The outcome of one attempt to write a frame to the transport.
#[derive(Clone, Copy, PartialEq, Eq, Structural, Debug)]
pub enum WriteOutcome {
    Delivered,
    Failed,
}

impl ProducerState {
    /// A fresh producer begins running with the counter at `start`.
    pub fn init(start: u8) -> (s: Self)
        ensures
            s == (ProducerState::Running { counter: start }),
    {
        ProducerState::Running { counter: start }
    }

    /// The payload of the frame the producer will try to send next, if it is
    /// still running.
    pub fn pending_frame(&self) -> (r: Option<u8>)
        ensures
            *self matches ProducerState::Running { counter } ==> r == Some(counter),
            *self is Stopped ==> r is None,
    {
        match self {
            ProducerState::Running { counter } => Some(*counter),
            ProducerState::Stopped => None,
        }
    }

    /// One transition of the producer: a delivered write advances the counter
    /// with wraparound; any failed write stops the producer for good.
    pub fn step(self, w: WriteOutcome) -> (s: Self)
        ensures
            self matches ProducerState::Running { counter } ==> s == (if w is Delivered {
                ProducerState::Running { counter: ((counter + 1) % 256) as u8 }
            } else {
                ProducerState::Stopped
            }),
            self is Stopped || w is Failed ==> s is Stopped,
    {
        match (self, w) {
            (ProducerState::Running { counter }, WriteOutcome::Delivered) => {
                let next: u8 = if counter == 255 { 0 } else { counter + 1 };
                ProducerState::Running { counter: next }
            }
            _ => ProducerState::Stopped,
        }
    }
}

/// The frames a stream beginning at `start` carries over its first `n`
/// ticks.
pub open spec fn frame_seq(start: u8, n: int) -> Seq<u8> {
    Seq::new(n as nat, |i: int| frame_at(start, i))
}

/// Runs the producer state machine against a recorded prefix of write
/// outcomes, one attempt per tick, and returns the delivered frames. The
/// stream carries `(start + i) mod 256` at tick `i`; it runs until the
/// first failed write — and only until then: a failed write delivers
/// nothing further, and nothing is retried.
pub fn produce_frames(start: u8, outcomes: &Vec<bool>) -> (frames: Vec<u8>)
    ensures
        frames@ == frame_seq(start, frames@.len() as int),
        forall|i: int| 0 <= i < frames@.len() ==> outcomes@[i],
        frames@.len() <= outcomes@.len(),
        frames@.len() < outcomes@.len() ==> !outcomes@[frames@.len() as int],
{
    let mut st = ProducerState::init(start);
    let mut frames: Vec<u8> = Vec::new();
    let mut i: usize = 0;
    let mut stopped: bool = false;
    proof {
        lemma_first_frame(start);
    }
    while i < outcomes.len() && !stopped
        invariant
            0 <= i <= outcomes@.len(),
            frames@.len() == i,
            forall|j: int| 0 <= j < i ==> outcomes@[j],
            forall|j: int| 0 <= j < i ==> frames@[j] == frame_at(start, j),
            !stopped ==> st == (ProducerState::Running { counter: frame_at(start, i as int) }),
            stopped ==> i < outcomes@.len() && !outcomes@[i as int],
        decreases outcomes@.len() - i, if stopped { 0int } else { 1int },
    {
        let counter = st.pending_frame().unwrap();
        if outcomes[i] {
            frames.push(counter);
            st = st.step(WriteOutcome::Delivered);
            proof {
                lemma_small_mod(1nat, 256);
                lemma_add_mod_noop(start as int + i as int, 1, 256);
            }
            i = i + 1;
        } else {
            st = st.step(WriteOutcome::Failed);
            stopped = true;
        }
    }
    proof {
        assert(frames@ =~= frame_seq(start, frames@.len() as int));
    }
    frames
}

/// Restartability: the frame sequence is a function of `start` alone, so a
/// fresh stream with the same `start` value reproduces the identical first
/// `k` frames, however long either stream went on.
pub proof fn lemma_same_start_replays(start: u8, n1: int, n2: int, k: int)
    requires
        0 <= k <= n1,
        k <= n2,
    ensures
        frame_seq(start, n1).take(k) == frame_seq(start, n2).take(k),
{
    assert(frame_seq(start, n1).take(k) =~= frame_seq(start, n2).take(k));
}

/// The first frame of a stream carries exactly the `start` value.
pub proof fn lemma_first_frame(start: u8)
    ensures
        frame_at(start, 0) == start,
{
    lemma_small_mod(start as nat, 256);
}

/// Wraparound: whenever a frame carries 255, the next frame carries 0.
pub proof fn lemma_wraparound(start: u8, i: int)
    requires
        0 <= i,
        frame_at(start, i) == 255,
    ensures
        frame_at(start, i + 1) == 0,
{
    lemma_add_mod_noop(start as int + i, 1, 256);
}

} // verus!
