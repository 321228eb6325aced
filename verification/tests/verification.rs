use subspace_verification::verification::{
    derive_pot_entropy, mask_chunk, verify_solution, Error, PieceCheckParams, SolutionChecks,
    VerifySolutionParams,
};

fn distance_of(checks: &SolutionChecks) -> u64 {
    let mut masked = [0u8; 32];
    for i in 0..32 {
        masked[i] = checks.chunk[i] ^ checks.proof_of_space_hash[i];
    }
    let audit_chunk = *blake3::keyed_hash(&checks.sector_slot_challenge, &masked).as_bytes();
    let a = u64::from_le_bytes(checks.global_challenge[..8].try_into().unwrap());
    let b = u64::from_le_bytes(audit_chunk[..8].try_into().unwrap());
    a.wrapping_sub(b).min(b.wrapping_sub(a))
}

fn passing_checks() -> SolutionChecks {
    SolutionChecks {
        piece_offset: 3,
        chunk: [5u8; 32],
        global_challenge: [6u8; 32],
        sector_slot_challenge: [7u8; 32],
        proof_of_space_valid: true,
        proof_of_space_hash: [8u8; 32],
        chunk_witness_valid: true,
        expiration_history_size: Some(100),
        record_commitment_valid: true,
    }
}

fn piece_params() -> PieceCheckParams {
    PieceCheckParams {
        max_pieces_in_sector: 10,
        segment_commitment: [1u8; 32],
        recent_segments: 5,
        recent_history_fraction: (1, 10),
        min_sector_lifetime: 4,
        current_history_size: 50,
        sector_expiration_check_segment_commitment: Some([2u8; 32]),
    }
}

fn params(solution_range: u64, piece_check_params: Option<PieceCheckParams>) -> VerifySolutionParams {
    VerifySolutionParams { proof_of_time: [9u8; 16], solution_range, piece_check_params }
}

#[test]
fn mask_chunk_xors_bytes() {
    let mut chunk = [0u8; 32];
    chunk[0] = 0b1010;
    chunk[31] = 0xff;
    let mut mask = [0u8; 32];
    mask[0] = 0b0110;
    mask[31] = 0x0f;
    let masked = mask_chunk(&chunk, &mask);
    assert_eq!(masked[0], 0b1100);
    assert_eq!(masked[31], 0xf0);
    assert_eq!(masked[5], 0);
}

#[test]
fn valid_solution_returns_distance() {
    let checks = passing_checks();
    let distance = distance_of(&checks);
    assert_eq!(verify_solution(&checks, &params(u64::MAX, None)), Ok(distance));
    assert_eq!(verify_solution(&checks, &params(u64::MAX, Some(piece_params()))), Ok(distance));
}

#[test]
fn invalid_proof_of_space_comes_first() {
    let mut checks = passing_checks();
    checks.proof_of_space_valid = false;
    checks.chunk_witness_valid = false;
    assert_eq!(verify_solution(&checks, &params(0, None)), Err(Error::InvalidProofOfSpace));
}

#[test]
fn outside_solution_range_reports_distance() {
    let checks = passing_checks();
    let distance = distance_of(&checks);
    assert!(distance > 0);
    let range = distance * 2 - 2;
    assert_eq!(
        verify_solution(&checks, &params(range, None)),
        Err(Error::OutsideSolutionRange {
            half_solution_range: range / 2,
            solution_distance: distance,
        })
    );
    assert_eq!(verify_solution(&checks, &params(distance * 2, None)), Ok(distance));
}

#[test]
fn invalid_chunk_witness() {
    let mut checks = passing_checks();
    checks.chunk_witness_valid = false;
    assert_eq!(verify_solution(&checks, &params(u64::MAX, None)), Err(Error::InvalidChunkWitness));
}

#[test]
fn piece_offset_out_of_sector() {
    let mut checks = passing_checks();
    checks.piece_offset = 10;
    assert_eq!(
        verify_solution(&checks, &params(u64::MAX, Some(piece_params()))),
        Err(Error::InvalidPieceOffset { piece_offset: 10, max_pieces_in_sector: 10 })
    );
    // without piece check parameters the offset is not checked
    assert!(verify_solution(&checks, &params(u64::MAX, None)).is_ok());
}

#[test]
fn history_size_and_expiration() {
    let mut checks = passing_checks();
    checks.expiration_history_size = None;
    assert_eq!(
        verify_solution(&checks, &params(u64::MAX, Some(piece_params()))),
        Err(Error::InvalidHistorySize)
    );
    checks.expiration_history_size = Some(50);
    assert_eq!(
        verify_solution(&checks, &params(u64::MAX, Some(piece_params()))),
        Err(Error::SectorExpired { expiration_history_size: 50, current_history_size: 50 })
    );
    checks.expiration_history_size = Some(51);
    assert!(verify_solution(&checks, &params(u64::MAX, Some(piece_params()))).is_ok());
    // without a segment commitment to check expiration against, expiration is not checked
    let mut no_expiration = piece_params();
    no_expiration.sector_expiration_check_segment_commitment = None;
    checks.expiration_history_size = None;
    assert!(verify_solution(&checks, &params(u64::MAX, Some(no_expiration))).is_ok());
}

#[test]
fn invalid_record_commitment() {
    let mut checks = passing_checks();
    checks.record_commitment_valid = false;
    assert_eq!(
        verify_solution(&checks, &params(u64::MAX, Some(piece_params()))),
        Err(Error::InvalidPiece)
    );
    assert!(verify_solution(&checks, &params(u64::MAX, None)).is_ok());
}

#[test]
fn pot_entropy_is_hash_of_chunk_and_proof_of_time() {
    let chunk = [0x11u8; 32];
    let proof_of_time = [0x22u8; 16];
    let mut data = chunk.to_vec();
    data.extend_from_slice(&proof_of_time);
    let expected = *blake3::hash(&data).as_bytes();
    assert_eq!(derive_pot_entropy(&chunk, proof_of_time), expected);
    assert_ne!(derive_pot_entropy(&chunk, proof_of_time), chunk);
}
