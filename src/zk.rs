//! Withdrawal proofs, their public inputs, and the verifiers that judge them.
use vstd::prelude::*;

verus! {

broadcast use vstd::array::group_array_axioms;

/// Number of public inputs of the withdrawal circuit.
pub const PUBLIC_INPUT_COUNT: usize = 7;

/// Position of the accumulator root among the public inputs.
pub const ROOT_INPUT: usize = 0;

/// Position of the spent note's nullifier among the public inputs.
pub const NULLIFIER_INPUT: usize = 1;

/// The public inputs of the withdrawal circuit, one field element each:
/// accumulator root, two nullifiers, two output commitments, public
/// amount and asset identifier.
pub type PublicInputs = [[u8; 32]; PUBLIC_INPUT_COUNT];

/// A succinct proof: three curve points.
#[derive(Clone, Copy, Debug, PartialEq, Eq)]
pub struct Proof {
    pub a: [u8; 64],
    pub b: [u8; 128],
    pub c: [u8; 64],
}

/// The public inputs a withdrawal is checked against: those the caller
/// gave, with the root and the nullifier replaced by the withdrawal's own.
pub open spec fn withdrawal_inputs(
    given: Seq<[u8; 32]>,
    new_root: [u8; 32],
    nullifier: [u8; 32],
) -> Seq<[u8; 32]> {
    given.update(ROOT_INPUT as int, new_root).update(NULLIFIER_INPUT as int, nullifier)
}

/// Assembles the public inputs of a withdrawal.
pub fn assemble_inputs(given: &PublicInputs, new_root: &[u8; 32], nullifier: &[u8; 32]) -> (r: PublicInputs)
    ensures
        r@ == withdrawal_inputs(given@, *new_root, *nullifier),
{
    let mut inputs = *given;
    inputs[ROOT_INPUT] = *new_root;
    inputs[NULLIFIER_INPUT] = *nullifier;
    inputs
}

/// Decides whether a proof establishes its public inputs.
///
/// Implementations are deterministic, and reject whatever they cannot
/// check (a missing or placeholder verifying key rejects every proof).
pub trait ProofVerifier {
    /// Whether `proof` is accepted for `inputs`.
    spec fn accepts(&self, proof: Proof, inputs: Seq<[u8; 32]>) -> bool;

    fn verify(&self, proof: &Proof, inputs: &PublicInputs) -> (r: bool)
        ensures
            r == self.accepts(*proof, inputs@),
    ;
}

/// Offset of the "verified" flag in a proof buffer.
pub const BUFFER_FINALIZED: usize = 40;

/// Offset of the nullifier that the buffered proof was verified for.
pub const BUFFER_NULLIFIER: usize = 73;

/// Offset of the accumulator root that the buffered proof was verified for.
pub const BUFFER_ROOT: usize = 105;

/// Length of a proof buffer up to the end of its root.
pub const BUFFER_MIN_LEN: usize = 137;

/// Whether `data`, read as a proof buffer, records a verified proof for the
/// root and the nullifier of `inputs`.
pub open spec fn buffer_attests(data: Seq<u8>, inputs: Seq<[u8; 32]>) -> bool {
    &&& data.len() >= BUFFER_MIN_LEN
    &&& data[BUFFER_FINALIZED as int] == 1
    &&& data.subrange(BUFFER_NULLIFIER as int, BUFFER_NULLIFIER + 32) == inputs[NULLIFIER_INPUT as int]@
    &&& data.subrange(BUFFER_ROOT as int, BUFFER_ROOT + 32) == inputs[ROOT_INPUT as int]@
}

/// A buffer written by an external verifier program, which checked the
/// proof there and set the "verified" flag. Which program owns the buffer
/// is the host's to check before the buffer is handed over.
///
/// Layout: owner (32 bytes), size (4), expected size (4), verified flag
/// (1), commitment (32), nullifier (32), accumulator root (32).
pub struct ProofBuffer {
    pub data: Vec<u8>,
}

/// Whether `data[start..start + 32]` equals `expected`.
fn slice_matches(data: &Vec<u8>, start: usize, expected: &[u8; 32]) -> (r: bool)
    requires
        start + 32 <= data@.len(),
    ensures
        r == (data@.subrange(start as int, start + 32) == expected@),
{
    let mut i: usize = 0;
    while i < 32
        invariant
            i <= 32,
            start + 32 <= data@.len(),
            forall|j: int| 0 <= j < i ==> data@[start + j] == expected@[j],
        decreases 32 - i,
    {
        assert(start + i < data@.len() <= usize::MAX) by {
            assert(data.len() == data@.len());
        }
        if data[start + i] != expected[i] {
            assert(data@.subrange(start as int, start + 32)[i as int] != expected@[i as int]);
            return false;
        }
        i = i + 1;
    }
    assert(data@.subrange(start as int, start + 32) =~= expected@);
    true
}

impl ProofVerifier for ProofBuffer {
    open spec fn accepts(&self, proof: Proof, inputs: Seq<[u8; 32]>) -> bool {
        buffer_attests(self.data@, inputs)
    }

    fn verify(&self, proof: &Proof, inputs: &PublicInputs) -> (r: bool) {
        if self.data.len() < BUFFER_MIN_LEN {
            return false;
        }
        if self.data[BUFFER_FINALIZED] != 1 {
            return false;
        }
        slice_matches(&self.data, BUFFER_NULLIFIER, &inputs[NULLIFIER_INPUT])
            && slice_matches(&self.data, BUFFER_ROOT, &inputs[ROOT_INPUT])
    }
}

} // verus!
