//! Filling the pass buffer: one byte repeated, or random bytes from the
//! thread's generator.

use rand::rngs::ThreadRng;
use rand::Rng;
use rand::RngCore;
use vstd::prelude::*;

verus! {

/// The thread-local random generator of `rand`; nothing inside it is visible
/// to the proofs.
#[verifier::external_type_specification]
#[verifier::external_body]
pub struct ExThreadRng(rand::rngs::ThreadRng);

/// `len` bytes, each of them `value`.
pub open spec fn repeated(value: u8, len: nat) -> Seq<u8> {
    Seq::new(len, |i: int| value)
}

/// Calls `rand::RngCore::fill_bytes` on the whole of `buffer`.
///
/// The generator writes into the slice it is given, so the buffer keeps its
/// length; nothing is claimed of the bytes. The generator panics if the
/// operating system refuses it fresh entropy when it reseeds.
#[verifier::external_body]
fn fill_random(rng: &mut ThreadRng, buffer: &mut Vec<u8>)
    ensures
        final(buffer)@.len() == old(buffer)@.len(),
{
    rng.fill_bytes(buffer.as_mut_slice());
}

/// Calls `rand::Rng::gen` for one byte. Nothing is claimed of the byte. The
/// generator panics if the operating system refuses it fresh entropy when it
/// reseeds.
#[verifier::external_body]
pub(crate) fn random_byte(rng: &mut ThreadRng) -> (value: u8) {
    rng.gen()
}

/// Overwrites every byte of `buffer` in place: with random bytes where
/// `randomize` is set, else with `value`. The length does not change.
pub fn fill_buffer(buffer: &mut Vec<u8>, rng: &mut ThreadRng, randomize: bool, value: u8)
    ensures
        final(buffer)@.len() == old(buffer)@.len(),
        !randomize ==> final(buffer)@ == repeated(value, old(buffer)@.len()),
{
    if randomize {
        fill_random(rng, buffer);
    } else {
        let len = buffer.len();
        let mut i: usize = 0;
        while i < len
            invariant
                i <= len,
                buffer@.len() == len,
                forall|j: int| 0 <= j < i ==> buffer@[j] == value,
            decreases len - i,
        {
            buffer[i] = value;
            i += 1;
        }
        assert(buffer@ =~= repeated(value, len as nat));
    }
}

} // verus!
