//! Solution verification: the checks that a solution passes, in the order in which they are
//! made, over the values derived from the solution and its sector.

use vstd::prelude::*;

use crate::distance::{calculate_solution_distance, solution_distance};
use crate::hashing::{blake3_hash, hash};

verus! {

/// Errors encountered by the Subspace consensus primitives.
#[derive(Debug, Clone, Copy, PartialEq, Eq, Structural)]
pub enum Error {
    /// Invalid piece offset
    InvalidPieceOffset {
        /// Index of the piece that failed verification
        piece_offset: u16,
        /// How many pieces one sector is supposed to contain (max)
        max_pieces_in_sector: u16,
    },
    /// Sector expired
    SectorExpired {
        /// Expiration history size
        expiration_history_size: u64,
        /// Current history size
        current_history_size: u64,
    },
    /// Piece verification failed
    InvalidPiece,
    /// Solution is outside of challenge range
    OutsideSolutionRange {
        /// Half of solution range
        half_solution_range: u64,
        /// Solution distance
        solution_distance: u64,
    },
    /// Invalid proof of space
    InvalidProofOfSpace,
    /// Invalid audit chunk offset
    InvalidAuditChunkOffset,
    /// Invalid chunk witness
    InvalidChunkWitness,
    /// Invalid history size
    InvalidHistorySize,
}

/// Parameters for checking piece validity
#[derive(Debug, Clone, Copy)]
pub struct PieceCheckParams {
    /// How many pieces one sector is supposed to contain (max)
    pub max_pieces_in_sector: u16,
    /// Segment commitment of segment to which piece belongs
    pub segment_commitment: [u8; 32],
    /// Number of latest archived segments that are considered "recent history"
    pub recent_segments: u64,
    /// Fraction of pieces from the "recent history" (`recent_segments`) in each sector
    pub recent_history_fraction: (u64, u64),
    /// Minimum lifetime of a plotted sector, measured in archived segment
    pub min_sector_lifetime: u64,
    /// Current size of the history
    pub current_history_size: u64,
    /// Segment commitment at `min_sector_lifetime` from sector creation (if exists)
    pub sector_expiration_check_segment_commitment: Option<[u8; 32]>,
}

/// Parameters for solution verification
#[derive(Debug, Clone, Copy)]
pub struct VerifySolutionParams {
    /// Proof of time for which solution is built
    pub proof_of_time: [u8; 16],
    /// Solution range
    pub solution_range: u64,
    /// Parameters for checking piece validity.
    ///
    /// If `None`, piece validity check will be skipped.
    pub piece_check_params: Option<PieceCheckParams>,
}

/// What solution verification reads: the solution's own chunk and piece offset, and the values
/// derived from the solution, its sector and the parameters (challenges, proof-of-space and
/// witness checks, the sector's expiration).
#[derive(Debug, Clone, Copy)]
pub struct SolutionChecks {
    /// Offset of the piece within the sector
    pub piece_offset: u16,
    /// Chunk of the record that the solution claims, before masking
    pub chunk: [u8; 32],
    /// Global challenge of the slot, derived from the proof of time
    pub global_challenge: [u8; 32],
    /// Challenge of the solution's sector for the slot
    pub sector_slot_challenge: [u8; 32],
    /// Whether the proof of space is valid for the sector's evaluation seed at the audited
    /// s-bucket
    pub proof_of_space_valid: bool,
    /// Hash of the proof of space, which masks the chunk
    pub proof_of_space_hash: [u8; 32],
    /// Whether the chunk witness proves the chunk against the record commitment at the audited
    /// s-bucket
    pub chunk_witness_valid: bool,
    /// Expiration history size derived for the sector, `None` where the derivation failed
    pub expiration_history_size: Option<u64>,
    /// Whether the record witness proves the record commitment against the segment commitment
    /// at the piece's position in the history
    pub record_commitment_valid: bool,
}

/// Byte-wise exclusive or of two 32-byte values.
pub open spec fn xor_bytes(a: Seq<u8>, b: Seq<u8>) -> Seq<u8> {
    Seq::new(32, |i: int| a[i] ^ b[i])
}

/// The chunk of a solution masked by the hash of its proof of space.
pub open spec fn masked_chunk(checks: SolutionChecks) -> Seq<u8> {
    xor_bytes(checks.chunk@, checks.proof_of_space_hash@)
}

/// Distance of a solution from the global challenge.
pub open spec fn checked_solution_distance(checks: SolutionChecks) -> int {
    solution_distance(
        checks.global_challenge@,
        masked_chunk(checks),
        checks.sector_slot_challenge@,
    )
}

/// Outcome of the piece checks, made only when piece check parameters are given.
pub open spec fn piece_check_outcome(checks: SolutionChecks, params: PieceCheckParams) -> Option<
    Error,
> {
    if checks.piece_offset >= params.max_pieces_in_sector {
        Some(
            Error::InvalidPieceOffset {
                piece_offset: checks.piece_offset,
                max_pieces_in_sector: params.max_pieces_in_sector,
            },
        )
    } else if params.sector_expiration_check_segment_commitment is Some
        && checks.expiration_history_size is None {
        Some(Error::InvalidHistorySize)
    } else if params.sector_expiration_check_segment_commitment is Some
        && checks.expiration_history_size.unwrap() <= params.current_history_size {
        Some(
            Error::SectorExpired {
                expiration_history_size: checks.expiration_history_size.unwrap(),
                current_history_size: params.current_history_size,
            },
        )
    } else if !checks.record_commitment_valid {
        Some(Error::InvalidPiece)
    } else {
        None
    }
}

/// Outcome of solution verification: the first check that fails gives the error, in the order
/// proof of space, solution range, chunk witness, then (with piece check parameters) piece
/// offset, history size, expiration and record commitment; where all pass, the solution
/// distance.
pub open spec fn solution_verification(checks: SolutionChecks, params: VerifySolutionParams) -> Result<
    u64,
    Error,
> {
    let distance = checked_solution_distance(checks);
    if !checks.proof_of_space_valid {
        Err(Error::InvalidProofOfSpace)
    } else if distance > params.solution_range / 2 {
        Err(
            Error::OutsideSolutionRange {
                half_solution_range: (params.solution_range / 2) as u64,
                solution_distance: distance as u64,
            },
        )
    } else if !checks.chunk_witness_valid {
        Err(Error::InvalidChunkWitness)
    } else {
        match params.piece_check_params {
            None => Ok(distance as u64),
            Some(piece_params) => match piece_check_outcome(checks, piece_params) {
                Some(error) => Err(error),
                None => Ok(distance as u64),
            },
        }
    }
}

/// Byte-wise exclusive or of a chunk and a mask.
pub fn mask_chunk(chunk: &[u8; 32], mask: &[u8; 32]) -> (masked: [u8; 32])
    ensures
        masked@ == xor_bytes(chunk@, mask@),
{
    let mut masked = [0u8; 32];
    for i in 0..32
        invariant
            forall|j: int| 0 <= j < i ==> masked@[j] == chunk@[j] ^ mask@[j],
    {
        masked[i] = chunk[i] ^ mask[i];
    }
    assert(masked@ =~= xor_bytes(chunk@, mask@));
    masked
}

/// Verify whether solution is valid, returns solution distance that is `<= solution_range/2` on
/// success.
pub fn verify_solution(checks: &SolutionChecks, params: &VerifySolutionParams) -> (result: Result<
    u64,
    Error,
>)
    ensures
        result == solution_verification(*checks, *params),
        result matches Ok(distance) ==> distance <= params.solution_range / 2,
{
    // Check that proof of space is valid
    if !checks.proof_of_space_valid {
        return Err(Error::InvalidProofOfSpace);
    }
    let masked_chunk = mask_chunk(&checks.chunk, &checks.proof_of_space_hash);

    let solution_distance = calculate_solution_distance(
        &checks.global_challenge,
        &masked_chunk,
        &checks.sector_slot_challenge,
    );

    // Check that solution is within solution range
    if solution_distance > params.solution_range / 2 {
        return Err(
            Error::OutsideSolutionRange {
                half_solution_range: params.solution_range / 2,
                solution_distance,
            },
        );
    }
    // Check that chunk belongs to the record
    if !checks.chunk_witness_valid {
        return Err(Error::InvalidChunkWitness);
    }
    if let Some(piece_params) = &params.piece_check_params {
        if checks.piece_offset >= piece_params.max_pieces_in_sector {
            return Err(
                Error::InvalidPieceOffset {
                    piece_offset: checks.piece_offset,
                    max_pieces_in_sector: piece_params.max_pieces_in_sector,
                },
            );
        }
        if piece_params.sector_expiration_check_segment_commitment.is_some() {
            let expiration_history_size = match checks.expiration_history_size {
                Some(expiration_history_size) => expiration_history_size,
                None => {
                    return Err(Error::InvalidHistorySize);
                },
            };
            if expiration_history_size <= piece_params.current_history_size {
                return Err(
                    Error::SectorExpired {
                        expiration_history_size,
                        current_history_size: piece_params.current_history_size,
                    },
                );
            }
        }
        // Check that piece is part of the blockchain history
        if !checks.record_commitment_valid {
            return Err(Error::InvalidPiece);
        }
    }
    Ok(solution_distance)
}

/// Derive proof of time entropy from chunk and proof of time for injection purposes: the BLAKE3
/// hash of the chunk followed by the proof of time.
pub fn derive_pot_entropy(chunk: &[u8; 32], proof_of_time: [u8; 16]) -> (entropy: [u8; 32])
    ensures
        entropy@ == blake3_hash(chunk@ + proof_of_time@),
{
    let mut data: Vec<u8> = Vec::new();
    for i in 0..32
        invariant
            data@ == chunk@.take(i as int),
    {
        data.push(chunk[i]);
        assert(chunk@.take(i + 1) == chunk@.take(i as int).push(chunk@[i as int]));
    }
    for i in 0..16
        invariant
            data@ == chunk@ + proof_of_time@.take(i as int),
    {
        data.push(proof_of_time[i]);
        assert(proof_of_time@.take(i + 1) == proof_of_time@.take(i as int).push(
            proof_of_time@[i as int],
        ));
    }
    assert(chunk@.take(32) == chunk@);
    assert(proof_of_time@.take(16) == proof_of_time@);
    hash(data.as_slice())
}

/// A solution that verification accepts passed every check: its proof of space and chunk
/// witness are valid, its distance is the one returned and lies within half the solution range,
/// and, where piece checks are asked for, its piece offset lies within the sector, its sector has
/// not expired and its record commitment is part of the history.
pub proof fn lemma_accepted_solution_passed_every_check(
    checks: SolutionChecks,
    params: VerifySolutionParams,
)
    requires
        solution_verification(checks, params) is Ok,
    ensures
        checks.proof_of_space_valid,
        checks.chunk_witness_valid,
        solution_verification(checks, params)->Ok_0 == checked_solution_distance(checks),
        checked_solution_distance(checks) <= params.solution_range / 2,
        params.piece_check_params matches Some(piece_params) ==> {
            &&& checks.piece_offset < piece_params.max_pieces_in_sector
            &&& checks.record_commitment_valid
            &&& piece_params.sector_expiration_check_segment_commitment is Some ==> {
                &&& checks.expiration_history_size is Some
                &&& checks.expiration_history_size->Some_0 > piece_params.current_history_size
            }
        },
{
    crate::distance::lemma_challenge_distance_bounded(
        checks.global_challenge@,
        crate::hashing::blake3_keyed_hash(checks.sector_slot_challenge@, masked_chunk(checks)),
    );
}

/// The chunk is masked by byte-wise exclusive or with the hash of the proof of space: masking
/// again with the same hash gives the chunk back, and a solution that verification accepts has
/// the distance of the audit chunk derived from that masked chunk.
pub proof fn lemma_accepted_distance_uses_xor_masked_chunk(
    checks: SolutionChecks,
    params: VerifySolutionParams,
)
    ensures
        masked_chunk(checks).len() == 32,
        forall|i: int|
            0 <= i < 32 ==> #[trigger] masked_chunk(checks)[i] == checks.chunk@[i]
                ^ checks.proof_of_space_hash@[i],
        forall|i: int|
            0 <= i < 32 ==> (#[trigger] masked_chunk(checks)[i] ^ checks.proof_of_space_hash@[i])
                == checks.chunk@[i],
        solution_verification(checks, params) is Ok ==> solution_verification(checks, params)->Ok_0
            == crate::distance::challenge_distance(
            checks.global_challenge@,
            crate::hashing::blake3_keyed_hash(
                checks.sector_slot_challenge@,
                Seq::new(32, |i: int| checks.chunk@[i] ^ checks.proof_of_space_hash@[i]),
            ),
        ),
{
    assert forall|i: int| 0 <= i < 32 implies (#[trigger] masked_chunk(checks)[i]
        ^ checks.proof_of_space_hash@[i]) == checks.chunk@[i] by {
        let c = checks.chunk@[i];
        let h = checks.proof_of_space_hash@[i];
        assert((c ^ h) ^ h == c) by (bit_vector);
    }
    assert(masked_chunk(checks) =~= Seq::new(
        32,
        |i: int| checks.chunk@[i] ^ checks.proof_of_space_hash@[i],
    ));
    if solution_verification(checks, params) is Ok {
        lemma_accepted_solution_passed_every_check(checks, params);
    }
}

} // verus!
