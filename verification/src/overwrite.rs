//! The overwrite engine: which passes a file gets, in which order, and what
//! the pass buffer holds for each of them.
//!
//! The engine owns the buffer and hands out one pass at a time. The caller
//! writes the buffer to the file at the offset the pass names, and asks for
//! the next pass only when that write has returned.

use crate::utils::{fill_buffer, random_byte, repeated};
use rand::rngs::ThreadRng;
use vstd::prelude::*;

verus! {

/// The pattern policy: counting from one, every third pass is random.
pub open spec fn randomized(index: nat) -> bool {
    (index + 1) % 3 == 0
}

/// The number of writes that a file gets: `times` passes, and one more of
/// zeros where `write_zeroes` is set.
pub open spec fn pass_total(times: nat, write_zeroes: bool) -> nat {
    if write_zeroes {
        times + 1
    } else {
        times
    }
}

/// Whether the pass with this 0-based index writes random bytes.
pub fn is_random_pass(index: u32) -> (r: bool)
    ensures
        r == randomized(index as nat),
{
    index % 3 == 2
}

/// One write of the whole pass buffer.
#[derive(Clone, Copy, Debug, PartialEq, Eq, Structural)]
pub struct Pass {
    /// The 0-based place of the pass among the writes of its file.
    pub index: u32,
    /// Where in the file the buffer goes.
    pub offset: u64,
    /// Whether the buffer holds random bytes.
    pub randomize: bool,
    /// The byte that fills the buffer where it is not random.
    pub value: u8,
}

/// What an engine is, to its contracts.
pub struct EngineState {
    /// The number of passes asked for, the one of zeros not counted.
    pub times: nat,
    /// Whether a pass of zeros follows the others.
    pub write_zeroes: bool,
    /// The number of passes handed out so far.
    pub issued: nat,
    /// The pass buffer.
    pub buffer: Seq<u8>,
}

/// An engine that has handed out no pass yet: its buffer holds `size` zeros.
pub open spec fn fresh(times: nat, write_zeroes: bool, size: nat) -> EngineState {
    EngineState { times, write_zeroes, issued: 0, buffer: repeated(0, size) }
}

/// One request for the next pass: what is handed out in the state `before`,
/// and the state `after` it.
///
/// While passes are left, the next one is handed out: it carries the number
/// of passes handed out before it, goes to offset 0, is random exactly where
/// it is one of the first `times` and the pattern policy says so, and leaves
/// the buffer, at its old length, repeating the pass's byte where it is not
/// random. The pass after the first `times` repeats 0. When none is left,
/// nothing is handed out and nothing changes.
pub open spec fn hands_out(before: EngineState, r: Option<Pass>, after: EngineState) -> bool {
    &&& after.times == before.times
    &&& after.write_zeroes == before.write_zeroes
    &&& after.buffer.len() == before.buffer.len()
    &&& before.issued < pass_total(before.times, before.write_zeroes) ==> {
        &&& r matches Some(pass)
        &&& pass.index == before.issued
        &&& pass.offset == 0
        &&& pass.randomize == (pass.index < before.times && randomized(pass.index as nat))
        &&& pass.index >= before.times ==> pass.value == 0
        &&& !pass.randomize ==> after.buffer == repeated(pass.value, before.buffer.len())
        &&& after.issued == before.issued + 1
    }
    &&& before.issued >= pass_total(before.times, before.write_zeroes) ==> {
        &&& r is None
        &&& after == before
    }
}

/// A whole run: `passes` are handed out one after another from `start`, with
/// `states[k]` the state before pass `k`, until the engine hands out nothing.
pub open spec fn full_run(start: EngineState, passes: Seq<Pass>, states: Seq<EngineState>) -> bool {
    &&& states.len() == passes.len() + 1
    &&& states[0] == start
    &&& forall|k: int|
        0 <= k < passes.len() ==> hands_out(#[trigger] states[k], Some(passes[k]), states[k + 1])
    &&& hands_out(states.last(), None, states.last())
}

/// The passes of one file, handed out one by one, and the buffer they share.
pub struct Overwriter {
    times: u32,
    write_zeroes: bool,
    issued: u64,
    buffer: Vec<u8>,
}

impl View for Overwriter {
    type V = EngineState;

    closed spec fn view(&self) -> EngineState {
        EngineState {
            times: self.times as nat,
            write_zeroes: self.write_zeroes,
            issued: self.issued as nat,
            buffer: self.buffer@,
        }
    }
}

impl Overwriter {
    /// An engine for `times` passes over `size` bytes, with a last pass of
    /// zeros where `write_zeroes` is set. No pass has been handed out, and
    /// the buffer holds zeros.
    pub fn new(times: u32, write_zeroes: bool, size: usize) -> (engine: Overwriter)
        ensures
            engine@ == (EngineState {
                times: times as nat,
                write_zeroes,
                issued: 0,
                buffer: repeated(0, size as nat),
            }),
    {
        let buffer = vec![0u8; size];
        assert(buffer@ =~= repeated(0, size as nat));
        Overwriter { times, write_zeroes, issued: 0, buffer }
    }

    /// The buffer to write for the pass handed out last.
    pub fn buffer(&self) -> (b: &Vec<u8>)
        ensures
            b@ == self@.buffer,
    {
        &self.buffer
    }

    /// Hands out the next pass and fills the buffer for it, or `None` when
    /// the file has had all its passes.
    ///
    /// The first `times` passes are random where the pattern policy says so;
    /// each of the others repeats one byte, drawn from `rng` for that pass.
    /// The pass of zeros comes last, is never random and repeats 0. Every
    /// pass covers the whole buffer and goes to offset 0.
    pub fn next_pass(&mut self, rng: &mut ThreadRng) -> (r: Option<Pass>)
        ensures
            hands_out(old(self)@, r, final(self)@),
    {
        if self.issued < self.times as u64 {
            let index = self.issued as u32;
            let randomize = is_random_pass(index);
            let value = random_byte(rng);
            fill_buffer(&mut self.buffer, rng, randomize, value);
            self.issued = self.issued + 1;
            Some(Pass { index, offset: 0, randomize, value })
        } else if self.write_zeroes && self.issued == self.times as u64 {
            fill_buffer(&mut self.buffer, rng, false, 0);
            self.issued = self.issued + 1;
            Some(Pass { index: self.times, offset: 0, randomize: false, value: 0 })
        } else {
            None
        }
    }
}

proof fn lemma_run_counts(
    start: EngineState,
    passes: Seq<Pass>,
    states: Seq<EngineState>,
    k: int,
)
    requires
        full_run(start, passes, states),
        start.issued == 0,
        0 <= k <= passes.len(),
    ensures
        states[k].issued == k,
        states[k].times == start.times,
        states[k].write_zeroes == start.write_zeroes,
        states[k].buffer.len() == start.buffer.len(),
        k <= pass_total(start.times, start.write_zeroes),
    decreases k,
{
    if k > 0 {
        lemma_run_counts(start, passes, states, k - 1);
        assert(hands_out(states[k - 1], Some(passes[k - 1]), states[k - 1 + 1]));
    }
}

/// Every run of a fresh engine writes the file exactly `times` times, and
/// once more exactly where the pass of zeros was asked for. Each write has
/// the length of the buffer and goes to offset 0. Among the first `times`
/// passes, the random ones are those that the pattern policy names; the
/// pass of zeros is not random and leaves the buffer holding zeros.
pub proof fn lemma_run_writes_every_pass_once(
    times: u32,
    write_zeroes: bool,
    size: nat,
    passes: Seq<Pass>,
    states: Seq<EngineState>,
)
    requires
        full_run(fresh(times as nat, write_zeroes, size), passes, states),
    ensures
        passes.len() == pass_total(times as nat, write_zeroes),
        forall|k: int|
            0 <= k < passes.len() ==> {
                &&& (#[trigger] passes[k]).index == k
                &&& passes[k].offset == 0
                &&& states[k + 1].buffer.len() == size
            },
        forall|k: int| 0 <= k < times ==> (#[trigger] passes[k]).randomize == randomized(k as nat),
        write_zeroes ==> {
            &&& !passes[times as int].randomize
            &&& states[times as int + 1].buffer == repeated(0, size)
        },
{
    let start = fresh(times as nat, write_zeroes, size);
    lemma_run_counts(start, passes, states, passes.len() as int);
    assert forall|k: int| 0 <= k < passes.len() implies {
        &&& (#[trigger] passes[k]).index == k
        &&& passes[k].offset == 0
        &&& states[k + 1].buffer.len() == size
        &&& k < times ==> passes[k].randomize == randomized(k as nat)
        &&& k >= times ==> !passes[k].randomize && states[k + 1].buffer == repeated(0, size)
    } by {
        lemma_run_counts(start, passes, states, k);
        lemma_run_counts(start, passes, states, k + 1);
        assert(hands_out(states[k], Some(passes[k]), states[k + 1]));
    }
}

} // verus!
