//! Piece validity: how a record's chunks are laid out for its commitment, and when a piece is
//! valid given its record commitment and witness.

use vstd::prelude::*;
use vstd::arithmetic::power2::pow2;

verus! {

/// `p` is the smallest power of two that is at least `n`.
pub open spec fn is_next_power_of_two(n: nat, p: nat) -> bool {
    &&& exists|k: nat| p == pow2(k)
    &&& p >= n
    &&& (p == 1 || p / 2 < n)
}

/// The 32 zero bytes of a chunk that pads a record.
pub open spec fn zero_chunk() -> Seq<u8> {
    Seq::new(32, |i: int| 0u8)
}

/// The chunks in the order in which the record commitment covers them: each source chunk
/// followed by the parity chunk at the same index, as far as both lists go.
pub open spec fn interleaved(source: Seq<[u8; 32]>, parity: Seq<[u8; 32]>) -> Seq<[u8; 32]> {
    let pairs = if source.len() <= parity.len() {
        source.len()
    } else {
        parity.len()
    };
    Seq::new(
        2 * pairs,
        |i: int|
            if i % 2 == 0 {
                source[i / 2]
            } else {
                parity[i / 2]
            },
    )
}

/// The smallest power of two that is at least `n`.
pub fn next_power_of_two(n: usize) -> (p: usize)
    requires
        n <= usize::MAX / 2 + 1,
    ensures
        is_next_power_of_two(n as nat, p as nat),
{
    let mut p: usize = 1;
    let ghost mut k: nat = 0;
    proof {
        vstd::arithmetic::power2::lemma2_to64();
    }
    while p < n
        invariant
            n <= usize::MAX / 2 + 1,
            p == pow2(k),
            p >= 1,
            p == 1 || p / 2 < n,
        decreases usize::MAX - p,
    {
        proof {
            vstd::arithmetic::power2::lemma_pow2_unfold(k + 1);
        }
        p = p * 2;
        proof {
            k = k + 1;
        }
    }
    p
}

/// Extends `chunks` with zero chunks up to the smallest power of two that is at least its
/// length, as a balanced tree over them needs.
pub fn pad_to_power_of_two(chunks: &mut Vec<[u8; 32]>)
    requires
        old(chunks).len() <= usize::MAX / 2 + 1,
    ensures
        is_next_power_of_two(old(chunks).len() as nat, final(chunks).len() as nat),
        final(chunks)@.take(old(chunks).len() as int) == old(chunks)@,
        forall|i: int|
            old(chunks).len() <= i < final(chunks).len() ==> final(chunks)@[i]@ == zero_chunk(),
{
    let target = next_power_of_two(chunks.len());
    let ghost initial = chunks@;
    while chunks.len() < target
        invariant
            initial.len() <= chunks.len() <= target,
            chunks@.take(initial.len() as int) == initial,
            forall|i: int| initial.len() <= i < chunks.len() ==> chunks@[i]@ == zero_chunk(),
        decreases target - chunks.len(),
    {
        let zero = [0u8; 32];
        assert(zero@ =~= zero_chunk());
        chunks.push(zero);
        assert(chunks@.take(initial.len() as int) =~= initial);
    }
}

/// The source chunks of a record and the parity chunks that erasure coding extends them with,
/// interleaved: each source chunk followed by the parity chunk at the same index, pairing them
/// up as far as both lists go.
pub fn interleave_chunks(source: &Vec<[u8; 32]>, parity: &Vec<[u8; 32]>) -> (chunks: Vec<
    [u8; 32],
>)
    requires
        2 * source.len() <= usize::MAX || 2 * parity.len() <= usize::MAX,
    ensures
        chunks@ == interleaved(source@, parity@),
{
    let pairs = if source.len() <= parity.len() {
        source.len()
    } else {
        parity.len()
    };
    let mut chunks: Vec<[u8; 32]> = Vec::new();
    for i in 0..pairs
        invariant
            pairs <= source.len(),
            pairs <= parity.len(),
            2 * pairs <= usize::MAX,
            chunks.len() == 2 * i,
            forall|j: int|
                0 <= j < 2 * i ==> chunks@[j] == if j % 2 == 0 {
                    source@[j / 2]
                } else {
                    parity@[j / 2]
                },
    {
        chunks.push(source[i]);
        chunks.push(parity[i]);
    }
    assert(chunks@ =~= interleaved(source@, parity@));
    chunks
}

/// Whether two 32-byte values are equal.
pub fn bytes_equal(a: &[u8; 32], b: &[u8; 32]) -> (equal: bool)
    ensures
        equal == (a@ == b@),
{
    for i in 0..32
        invariant
            forall|j: int| 0 <= j < i ==> a@[j] == b@[j],
    {
        if a[i] != b[i] {
            return false;
        }
    }
    assert(a@ =~= b@);
    true
}

/// Validate a piece produced by the archiver: every chunk of its record is a valid scalar, the
/// root of the tree over the record's interleaved source and parity chunks is the record
/// commitment that the piece carries, and the record witness proves that commitment against
/// the segment commitment at the piece's position.
pub fn is_piece_valid(
    record_chunks_are_scalars: bool,
    record_root: &[u8; 32],
    record_commitment: &[u8; 32],
    record_witness_valid: bool,
) -> (valid: bool)
    ensures
        valid == (record_chunks_are_scalars && record_root@ == record_commitment@
            && record_witness_valid),
{
    if !record_chunks_are_scalars {
        return false;
    }
    if !bytes_equal(record_root, record_commitment) {
        return false;
    }
    record_witness_valid
}

} // verus!
