use subspace_verification::distance::{
    bidirectional_distance, calculate_solution_distance, distance_to_audit_chunk,
    is_within_solution_range, u64_from_le_prefix,
};

fn prefix(bytes: &[u8; 32]) -> u64 {
    u64::from_le_bytes(bytes[..8].try_into().unwrap())
}

fn expected_distance(global_challenge: &[u8; 32], chunk: &[u8; 32], key: &[u8; 32]) -> u64 {
    let audit_chunk = *blake3::keyed_hash(key, chunk).as_bytes();
    let a = prefix(global_challenge);
    let b = prefix(&audit_chunk);
    let d1 = a.wrapping_sub(b);
    let d2 = b.wrapping_sub(a);
    d1.min(d2)
}

#[test]
fn le_prefix_reads_first_eight_bytes() {
    let mut bytes = [0xffu8; 32];
    for (i, byte) in bytes.iter_mut().take(8).enumerate() {
        *byte = i as u8 + 1;
    }
    assert_eq!(u64_from_le_prefix(&bytes), 0x0807_0605_0403_0201);
    assert_eq!(u64_from_le_prefix(&[0u8; 32]), 0);
    assert_eq!(u64_from_le_prefix(&[0xffu8; 32]), u64::MAX);
}

#[test]
fn bidirectional_distance_values() {
    assert_eq!(bidirectional_distance(&5, &3), 2);
    assert_eq!(bidirectional_distance(&3, &5), 2);
    assert_eq!(bidirectional_distance(&7, &7), 0);
    assert_eq!(bidirectional_distance(&0, &u64::MAX), 1);
    assert_eq!(bidirectional_distance(&u64::MAX, &0), 1);
    assert_eq!(bidirectional_distance(&0, &(1 << 63)), 1 << 63);
    assert_eq!(bidirectional_distance(&1, &((1 << 63) + 2)), (1 << 63) - 1);
}

#[test]
fn distance_to_audit_chunk_uses_prefixes() {
    let mut global_challenge = [0u8; 32];
    global_challenge[0] = 10;
    let mut audit_chunk = [0xaau8; 32];
    audit_chunk[..8].copy_from_slice(&3u64.to_le_bytes());
    assert_eq!(distance_to_audit_chunk(&global_challenge, &audit_chunk), 7);
}

#[test]
fn solution_distance_hashes_chunk_with_sector_slot_challenge() {
    let global_challenge = [7u8; 32];
    let chunk = [42u8; 32];
    let key = [3u8; 32];
    let expected = expected_distance(&global_challenge, &chunk, &key);
    assert_eq!(calculate_solution_distance(&global_challenge, &chunk, &key), expected);
    // the chunk itself, unhashed, would give another distance
    assert_ne!(
        distance_to_audit_chunk(&global_challenge, &chunk),
        calculate_solution_distance(&global_challenge, &chunk, &key)
    );
}

#[test]
fn within_solution_range_boundary() {
    let global_challenge = [1u8; 32];
    let chunk = [2u8; 32];
    let key = [9u8; 32];
    let distance = expected_distance(&global_challenge, &chunk, &key);
    let exact_range = distance.saturating_mul(2);
    assert_eq!(
        is_within_solution_range(&global_challenge, &chunk, &key, exact_range),
        Some(distance)
    );
    assert_eq!(
        is_within_solution_range(&global_challenge, &chunk, &key, u64::MAX),
        Some(distance)
    );
    if distance > 0 {
        assert_eq!(
            is_within_solution_range(&global_challenge, &chunk, &key, distance * 2 - 2),
            None
        );
    }
    assert_eq!(
        is_within_solution_range(&global_challenge, &chunk, &key, 0),
        if distance == 0 { Some(0) } else { None }
    );
}

#[test]
fn wider_range_accepts_what_narrower_accepts() {
    let global_challenge = [4u8; 32];
    let chunk = [5u8; 32];
    let key = [6u8; 32];
    let distance = expected_distance(&global_challenge, &chunk, &key);
    let range = distance.saturating_mul(2);
    for wider in [range, range.saturating_add(1), u64::MAX] {
        assert_eq!(
            is_within_solution_range(&global_challenge, &chunk, &key, wider),
            Some(distance)
        );
    }
}
