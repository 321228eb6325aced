//! Solution distance: how far the audited chunk of a solution lies from the global challenge.

use vstd::prelude::*;

use crate::hashing::{blake3_keyed_hash, keyed_hash};

verus! {

/// The number of distinct `u64` values.
pub open spec fn u64_range() -> int {
    0x1_0000_0000_0000_0000
}

/// The little-endian value of the first eight bytes of `bytes`.
pub open spec fn le_u64_prefix(bytes: Seq<u8>) -> int {
    bytes[0] + 256 * (bytes[1] + 256 * (bytes[2] + 256 * (bytes[3] + 256 * (bytes[4] + 256 * (
    bytes[5] + 256 * (bytes[6] + 256 * bytes[7]))))))
}

/// Distance between `a` and `b` on the circle of `u64` values: the shorter of the two ways
/// round.
pub open spec fn circular_distance(a: int, b: int) -> int {
    let d = if a >= b {
        a - b
    } else {
        b - a
    };
    if d <= u64_range() - d {
        d
    } else {
        u64_range() - d
    }
}

/// Distance between a global challenge and an audit chunk: the circular distance between the
/// `u64` values that their first eight bytes encode in little-endian order.
pub open spec fn challenge_distance(global_challenge: Seq<u8>, audit_chunk: Seq<u8>) -> int {
    circular_distance(le_u64_prefix(global_challenge), le_u64_prefix(audit_chunk))
}

/// Distance of a solution whose (masked) chunk is `chunk`: the audit chunk is the keyed hash of
/// the chunk under the sector slot challenge.
pub open spec fn solution_distance(
    global_challenge: Seq<u8>,
    chunk: Seq<u8>,
    sector_slot_challenge: Seq<u8>,
) -> int {
    challenge_distance(global_challenge, blake3_keyed_hash(sector_slot_challenge, chunk))
}

/// The `u64` encoded in little-endian order by the first eight bytes of a 32-byte value.
pub fn u64_from_le_prefix(bytes: &[u8; 32]) -> (value: u64)
    ensures
        value == le_u64_prefix(bytes@),
{
    let mut value: u64 = bytes[7] as u64;
    value = value * 256 + bytes[6] as u64;
    value = value * 256 + bytes[5] as u64;
    value = value * 256 + bytes[4] as u64;
    value = value * 256 + bytes[3] as u64;
    value = value * 256 + bytes[2] as u64;
    value = value * 256 + bytes[1] as u64;
    value = value * 256 + bytes[0] as u64;
    value
}

/// Shorter of the two distances between `a` and `b` when going round the `u64` circle.
pub fn bidirectional_distance(a: &u64, b: &u64) -> (distance: u64)
    ensures
        distance == circular_distance(*a as int, *b as int),
{
    let diff = a.wrapping_sub(*b);
    let diff2 = b.wrapping_sub(*a);
    if diff < diff2 {
        diff
    } else {
        diff2
    }
}

/// Circular distance does not depend on the order of its arguments, is zero from a value to
/// itself, and is never more than half of the `u64` circle.
pub proof fn lemma_circular_distance_properties(a: u64, b: u64)
    ensures
        circular_distance(a as int, b as int) == circular_distance(b as int, a as int),
        circular_distance(a as int, a as int) == 0,
        0 <= circular_distance(a as int, b as int) <= u64_range() / 2,
        (circular_distance(a as int, b as int) == 0) == (a == b),
{
}

/// The distance between any two byte strings lies between zero and half the `u64` circle.
pub proof fn lemma_challenge_distance_bounded(global_challenge: Seq<u8>, audit_chunk: Seq<u8>)
    ensures
        0 <= challenge_distance(global_challenge, audit_chunk) <= u64_range() / 2,
{
    assert(0 <= le_u64_prefix(global_challenge) <= u64::MAX);
    assert(0 <= le_u64_prefix(audit_chunk) <= u64::MAX);
}

/// Distance between the global challenge and the audit chunk.
pub fn distance_to_audit_chunk(global_challenge: &[u8; 32], audit_chunk: &[u8; 32]) -> (distance:
    u64)
    ensures
        distance == challenge_distance(global_challenge@, audit_chunk@),
{
    let audit_chunk_as_solution_range = u64_from_le_prefix(audit_chunk);
    let global_challenge_as_solution_range = u64_from_le_prefix(global_challenge);
    bidirectional_distance(&global_challenge_as_solution_range, &audit_chunk_as_solution_range)
}

/// Calculates the solution distance for the given parameters: the audit chunk is the keyed hash
/// of `chunk` under the sector slot challenge, and its distance to the global challenge is
/// measured on the `u64` circle.
pub fn calculate_solution_distance(
    global_challenge: &[u8; 32],
    chunk: &[u8; 32],
    sector_slot_challenge: &[u8; 32],
) -> (distance: u64)
    ensures
        distance == solution_distance(global_challenge@, chunk@, sector_slot_challenge@),
{
    let audit_chunk = keyed_hash(sector_slot_challenge, chunk.as_slice());
    distance_to_audit_chunk(global_challenge, &audit_chunk)
}

/// Returns `Some(solution_distance)` if the solution distance is within the solution range for
/// the provided parameters, that is at most half of `solution_range`, and `None` otherwise.
pub fn is_within_solution_range(
    global_challenge: &[u8; 32],
    chunk: &[u8; 32],
    sector_slot_challenge: &[u8; 32],
    solution_range: u64,
) -> (result: Option<u64>)
    ensures
        ({
            let d = solution_distance(global_challenge@, chunk@, sector_slot_challenge@);
            if d <= solution_range / 2 {
                result == Some(d as u64)
            } else {
                result is None
            }
        }),
{
    let solution_distance = calculate_solution_distance(
        global_challenge,
        chunk,
        sector_slot_challenge,
    );
    if solution_distance <= solution_range / 2 {
        Some(solution_distance)
    } else {
        None
    }
}

/// A distance within a solution range is within every wider solution range.
pub proof fn lemma_wider_range_accepts_more(distance: int, range: u64, wider: u64)
    requires
        distance <= range / 2,
        range <= wider,
    ensures
        distance <= wider / 2,
{
}

} // verus!
