use zebra_work::block::Header;
use zebra_work::equihash::{SerializationError, Solution, SolverCancelled};
use zebra_work::hex_codec::HexError;

fn header_with(solution: Solution) -> Header {
    Header {
        version: 5,
        previous_block_hash: [1u8; 32],
        merkle_root: [2u8; 32],
        commitment_bytes: [3u8; 32],
        time: 0x0403_0201,
        difficulty_threshold: 0x1f07_ffff,
        nonce: [4u8; 32],
        solution,
    }
}

#[test]
fn from_bytes_picks_kind_by_length() {
    let r = Solution::from_bytes(&[9u8; 32]).unwrap();
    assert!(r.is_randomx());
    assert_eq!(r.value(), &[9u8; 32][..]);
    assert_eq!(r.randomx_hash(), Some([9u8; 32]));

    let c = Solution::from_bytes(&[5u8; 1344]).unwrap();
    assert!(matches!(c, Solution::Common(_)));
    assert_eq!(c.value(), &[5u8; 1344][..]);
    assert_eq!(c.randomx_hash(), None);

    let g = Solution::from_bytes(&[6u8; 36]).unwrap();
    assert!(matches!(g, Solution::Regtest(_)));
    assert!(!g.is_randomx());
    assert_eq!(g.value().len(), 36);
}

#[test]
fn from_bytes_refuses_other_lengths() {
    for len in [0usize, 1, 31, 33, 35, 37, 1343, 1345, 2000] {
        let bytes = vec![0u8; len];
        assert_eq!(
            Solution::from_bytes(&bytes).err(),
            Some(SerializationError::Parse("incorrect solution size"))
        );
    }
}

#[test]
fn from_bytes_of_value_round_trips() {
    let mut bytes = [0u8; 1344];
    for (i, b) in bytes.iter_mut().enumerate() {
        *b = (i % 251) as u8;
    }
    for s in [
        Solution::RandomX([0xa5; 32]),
        Solution::Common(bytes),
        Solution::Regtest([0x11; 36]),
    ] {
        let back = Solution::from_bytes(s.value()).unwrap();
        assert!(back == s);
        assert_eq!(back.value(), s.value());
    }
}

#[test]
fn equality_compares_bytes() {
    assert!(Solution::RandomX([1; 32]) == Solution::RandomX([1; 32]));
    assert!(Solution::RandomX([1; 32]) != Solution::RandomX([2; 32]));
    assert!(Solution::Regtest([0; 36]) != Solution::RandomX([0; 32]));
    assert!(Solution::for_proposal() == Solution::default());
}

#[test]
fn proposal_placeholders() {
    assert!(Solution::for_proposal().is_randomx());
    assert_eq!(Solution::for_proposal().value(), &[0u8; 32][..]);
    assert_eq!(Solution::randomx_for_proposal().value(), &[0u8; 32][..]);
    let e = Solution::equihash_for_proposal();
    assert!(matches!(e, Solution::Common(_)));
    assert_eq!(e.value(), &[0u8; 1344][..]);
    assert_eq!(Solution::default().value(), &[0u8; 32][..]);
}

#[test]
fn check_accepts_randomx_solutions() {
    let s = Solution::RandomX([3; 32]);
    assert!(s.check(&header_with(s)).is_ok());
}

#[test]
fn check_refuses_regtest_solutions_with_mainnet_parameters() {
    let s = Solution::Regtest([0; 36]);
    assert!(s.check(&header_with(s)).is_err());
}

#[test]
fn check_refuses_an_all_zero_equihash_solution() {
    let s = Solution::equihash_for_proposal();
    assert!(s.check(&header_with(s)).is_err());
}

#[test]
fn encode_hex_both_cases() {
    let mut bytes = [0u8; 32];
    bytes[0] = 0xab;
    bytes[31] = 0x0f;
    let s = Solution::RandomX(bytes);
    let lower = s.encode_hex();
    assert_eq!(lower, format!("ab{}0f", "00".repeat(30)));
    assert_eq!(s.encode_hex_upper(), format!("AB{}0F", "00".repeat(30)));
}

#[test]
fn from_hex_round_trips_encode_hex() {
    let s = Solution::Regtest([0xc3; 36]);
    let back = Solution::from_hex(s.encode_hex().as_bytes()).unwrap();
    assert!(back == s);
    let back_upper = Solution::from_hex(s.encode_hex_upper().as_bytes()).unwrap();
    assert!(back_upper == s);
}

#[test]
fn from_hex_errors() {
    assert_eq!(Solution::from_hex(b"abc").err(), Some(HexError::OddLength));
    assert_eq!(
        Solution::from_hex(b"00zz").err(),
        Some(HexError::InvalidHexCharacter { c: 'z', index: 2 })
    );
    assert_eq!(
        Solution::from_hex(b"0g1").err(),
        Some(HexError::OddLength)
    );
    assert_eq!(
        Solution::from_hex(b"0011").err(),
        Some(HexError::InvalidStringLength)
    );
    assert!(Solution::from_hex("00".repeat(1344).as_bytes()).is_ok());
}

#[test]
fn next_nonce_increments_big_endian() {
    let mut n = [0u8; 32];
    Solution::next_nonce(&mut n);
    let mut one = [0u8; 32];
    one[31] = 1;
    assert_eq!(n, one);

    let mut n = [0u8; 32];
    n[30] = 0x12;
    n[31] = 0xff;
    Solution::next_nonce(&mut n);
    let mut expected = [0u8; 32];
    expected[30] = 0x13;
    assert_eq!(n, expected);
}

#[test]
fn next_nonce_wraps_to_zero() {
    let mut n = [0xffu8; 32];
    Solution::next_nonce(&mut n);
    assert_eq!(n, [0u8; 32]);
}

#[test]
fn mining_input_layout() {
    let h = header_with(Solution::for_proposal());
    let input = h.mining_input();
    assert_eq!(input.len(), 140);
    assert_eq!(&input[0..4], &[5, 0, 0, 0]);
    assert_eq!(&input[4..36], &[1u8; 32]);
    assert_eq!(&input[36..68], &[2u8; 32]);
    assert_eq!(&input[68..100], &[3u8; 32]);
    assert_eq!(&input[100..104], &[1, 2, 3, 4]);
    assert_eq!(&input[104..108], &[0xff, 0xff, 0x07, 0x1f]);
    assert_eq!(&input[108..140], &[4u8; 32]);
    assert_eq!(h.equihash_input(), input[..Solution::INPUT_LENGTH].to_vec());
}

#[test]
fn solver_cancelled_is_comparable() {
    assert_eq!(SolverCancelled, SolverCancelled);
}
