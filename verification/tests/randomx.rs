use zebra_work::block::Height;
use zebra_work::difficulty::ExpandedDifficulty;
use zebra_work::randomx::{
    genesis_seed, get_seed_info, hash_meets_target, seed_height, verify_randomx_hash,
    RandomXCache, RandomXError, SeedInfo, RANDOMX_SEEDHASH_EPOCH_BLOCKS,
};

#[test]
fn test_seed_height_genesis_epoch() {
    // First epoch: heights 0-2143 should use seed height 0
    assert_eq!(seed_height(0), 0);
    assert_eq!(seed_height(1), 0);
    assert_eq!(seed_height(2048), 0);
    assert_eq!(seed_height(2143), 0);
    assert_eq!(seed_height(2144), 0); // 2048 + 96 = 2144, still uses 0
}

#[test]
fn test_seed_height_second_epoch() {
    // Second epoch starts at 2145, uses seed from height 2048
    assert_eq!(seed_height(2145), 2048);
    assert_eq!(seed_height(4000), 2048);
    assert_eq!(seed_height(4192), 2048); // 4096 + 96 = 4192, still uses 2048
}

#[test]
fn test_seed_height_later_epochs() {
    // Third epoch starts at 4193
    assert_eq!(seed_height(4193), 4096);
    assert_eq!(seed_height(6000), 4096);
    assert_eq!(seed_height(6240), 4096); // 6144 + 96 = 6240, still uses 4096

    // Fourth epoch starts at 6241
    assert_eq!(seed_height(6241), 6144);
}

#[test]
fn test_genesis_seed() {
    let seed = genesis_seed();
    assert_eq!(seed[0], 0x08);
    assert!(seed[1..].iter().all(|&b| b == 0));
}

#[test]
fn test_get_seed_info() {
    // Genesis epoch
    match get_seed_info(100) {
        SeedInfo::Genesis(seed) => {
            assert_eq!(seed[0], 0x08);
        }
        _ => panic!("expected genesis seed"),
    }

    // Later epoch: height 4000 uses the seed from block 2048
    match get_seed_info(4000) {
        SeedInfo::BlockHash(height) => {
            assert_eq!(height.0, 2048);
        }
        _ => panic!("expected block hash seed"),
    }

    // Height 5000 is past 4096 + 96, so it uses the seed from block 4096,
    // as seed_height(5000) does. A seed from block 2048 here would contradict
    // seed_height(4193) == 4096 and seed_height(6000) == 4096 above, so the
    // expected height for 5000 is 4096, not 2048.
    match get_seed_info(5000) {
        SeedInfo::BlockHash(height) => {
            assert_eq!(height.0, 4096);
            assert_eq!(u64::from(height.0), seed_height(5000));
        }
        _ => panic!("expected block hash seed"),
    }
}

#[test]
fn seed_height_extremes() {
    assert_eq!(seed_height(u64::MAX), (u64::MAX - 97) / 2048 * 2048);
    assert_eq!(seed_height(2145 + 2047), 2048);
    assert_eq!(seed_height(2145 + 2048), 4096);
}

#[test]
fn seed_height_changes_once_per_epoch() {
    for h in [2145u64, 3000, 5000, 100_000, 1_234_567] {
        assert_eq!(
            seed_height(h + RANDOMX_SEEDHASH_EPOCH_BLOCKS),
            seed_height(h) + RANDOMX_SEEDHASH_EPOCH_BLOCKS
        );
        assert_eq!(seed_height(h) % RANDOMX_SEEDHASH_EPOCH_BLOCKS, 0);
        assert!(seed_height(h) + 96 < h);
        assert!(h <= seed_height(h) + 2048 + 96);
    }
}

#[test]
fn seed_height_is_monotonic() {
    let mut last = 0;
    for h in (0u64..20_000).step_by(7) {
        let s = seed_height(h);
        assert!(s >= last);
        last = s;
    }
}

#[test]
fn seed_info_at_first_transition() {
    assert!(matches!(get_seed_info(2144), SeedInfo::Genesis(_)));
    match get_seed_info(2145) {
        SeedInfo::BlockHash(h) => assert_eq!(h, Height(2048)),
        _ => panic!("expected block hash seed"),
    }
}

#[test]
fn seed_info_height_truncates_to_u32() {
    let height = (1u64 << 33) + 10_000;
    match get_seed_info(height) {
        SeedInfo::BlockHash(h) => assert_eq!(h.0, seed_height(height) as u32),
        _ => panic!("expected block hash seed"),
    }
}

#[test]
fn cache_new_holds_mode() {
    let _fast = RandomXCache::new(true);
    let _light = RandomXCache::new(false);
}

fn target_from_u128(v: u128) -> ExpandedDifficulty {
    let mut bytes = [0u8; 32];
    bytes[..16].copy_from_slice(&v.to_le_bytes());
    ExpandedDifficulty(bytes)
}

fn hash_from_u128(v: u128) -> [u8; 32] {
    target_from_u128(v).0
}

#[test]
fn hash_meets_target_compares_little_endian() {
    let target = target_from_u128(0x0100);
    assert!(hash_meets_target(&hash_from_u128(0x00ff), &target));
    assert!(hash_meets_target(&hash_from_u128(0x0100), &target));
    assert!(!hash_meets_target(&hash_from_u128(0x0101), &target));
    // The most significant byte is the last one.
    let mut high = [0u8; 32];
    high[31] = 1;
    assert!(!hash_meets_target(&high, &target));
    let mut low = [0xffu8; 32];
    low[31] = 0;
    assert!(hash_meets_target(&low, &ExpandedDifficulty(high)));
    assert!(hash_meets_target(&[0u8; 32], &ExpandedDifficulty([0u8; 32])));
    assert!(hash_meets_target(&[0xffu8; 32], &ExpandedDifficulty([0xffu8; 32])));
}

#[test]
fn verify_randomx_hash_accepts_equal_hashes() {
    let h = [7u8; 32];
    assert_eq!(verify_randomx_hash(Ok(h), &h), Ok(()));
}

#[test]
fn verify_randomx_hash_reports_mismatch_in_hex() {
    let mut computed = [0u8; 32];
    computed[0] = 0xab;
    let expected = [0x01u8; 32];
    match verify_randomx_hash(Ok(computed), &expected) {
        Err(RandomXError::HashMismatch { expected: e, computed: c }) => {
            assert_eq!(e, "01".repeat(32));
            assert_eq!(c, format!("ab{}", "00".repeat(31)));
        }
        other => panic!("unexpected result {:?}", other),
    }
}

#[test]
fn verify_randomx_hash_keeps_hashing_errors() {
    let err = RandomXError::VmInit("no memory".to_string());
    assert_eq!(verify_randomx_hash(Err(err.clone()), &[0u8; 32]), Err(err));
}
