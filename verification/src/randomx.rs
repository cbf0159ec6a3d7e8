//! RandomX seed scheduling and target checks.

use vstd::prelude::*;

use crate::block::Height;
use crate::difficulty::{le_bytes_at_most, le_value, ExpandedDifficulty};
use crate::bytes::slices_equal;
use crate::hex_codec::{hex_chars, hex_encode};

verus! {

/// The size of a RandomX solution/hash in bytes.
pub const RANDOMX_SOLUTION_SIZE: usize = 32;

/// Number of blocks per RandomX epoch (the seed changes every 2048 blocks).
pub const RANDOMX_SEEDHASH_EPOCH_BLOCKS: u64 = 2048;

/// Lag before a new seed becomes active (96 blocks).
pub const RANDOMX_SEEDHASH_EPOCH_LAG: u64 = 96;

/// The seed height of `height`: zero up to the end of the first epoch plus its lag,
/// then the newest epoch boundary at or below `height - LAG - 1`.
pub open spec fn spec_seed_height(height: u64) -> u64 {
    if height <= 2144 {
        0
    } else {
        (((height - 97) / 2048) * 2048) as u64
    }
}

/// Calculate the seed height for a given block height.
///
/// The seed changes every 2048 blocks with a 96-block lag; heights up to
/// 2144 (= 2048 + 96) use the genesis seed (seed height 0).
pub fn seed_height(height: u64) -> (res: u64)
    ensures
        res == spec_seed_height(height),
{
    if height <= RANDOMX_SEEDHASH_EPOCH_BLOCKS + RANDOMX_SEEDHASH_EPOCH_LAG {
        return 0;
    }
    let x: u64 = height - RANDOMX_SEEDHASH_EPOCH_LAG - 1;
    assert(x & !(2047u64) == (x / 2048) * 2048) by (bit_vector);
    x & !(RANDOMX_SEEDHASH_EPOCH_BLOCKS - 1)
}


/// The seed of the first epoch: `0x08` followed by 31 zero bytes.
pub open spec fn spec_genesis_seed() -> Seq<u8> {
    seq![8u8] + Seq::new(31, |i: int| 0u8)
}

/// Returns the genesis epoch seed: `0x08` followed by 31 zero bytes.
pub fn genesis_seed() -> (seed: [u8; 32])
    ensures
        seed@ == spec_genesis_seed(),
{
    let mut seed = [0u8; 32];
    seed[0] = 0x08;
    assert(seed@ =~= spec_genesis_seed());
    seed
}

/// Information about which seed to use for RandomX.
#[derive(Debug, Clone)]
pub enum SeedInfo {
    /// Use the genesis seed (first epoch).
    Genesis([u8; 32]),
    /// Use the block hash at the given height as the seed.
    BlockHash(Height),
}

/// Get the seed for a given block height.
///
/// Heights in the genesis epoch use the genesis seed; later heights use the
/// hash of the block at the seed height, which the caller looks up.
pub fn get_seed_info(height: u64) -> (res: SeedInfo)
    ensures
        match res {
            SeedInfo::Genesis(seed) => spec_seed_height(height) == 0 && seed@ == spec_genesis_seed(),
            SeedInfo::BlockHash(h) => spec_seed_height(height) != 0 && h == Height(
                spec_seed_height(height) as u32,
            ),
        },
{
    let seed_h = seed_height(height);
    if seed_h == 0 {
        SeedInfo::Genesis(genesis_seed())
    } else {
        SeedInfo::BlockHash(Height(seed_h as u32))
    }
}

/// RandomX cache manager for efficient VM reuse.
pub struct RandomXCache {
    /// Current seed hash
    current_seed: Option<[u8; 32]>,
    /// Whether we're in fast mode (full dataset) or light mode (cache only)
    fast_mode: bool,
}

impl RandomXCache {
    /// The seed that the cache currently holds a VM for, if any.
    pub closed spec fn seed_view(&self) -> Option<[u8; 32]> {
        self.current_seed
    }

    /// Whether the cache runs in fast mode (full dataset).
    pub closed spec fn is_fast_mode(&self) -> bool {
        self.fast_mode
    }

    /// Create a new RandomX cache manager, holding no seed yet.
    pub fn new(fast_mode: bool) -> (res: Self)
        ensures
            res.seed_view() is None,
            res.is_fast_mode() == fast_mode,
    {
        RandomXCache { current_seed: None, fast_mode }
    }
}

/// Errors that can occur during RandomX operations.
#[derive(Debug, Clone, PartialEq, Eq)]
pub enum RandomXError {
    /// Failed to initialize RandomX cache.
    CacheInit(String),
    /// Failed to initialize RandomX VM.
    VmInit(String),
    /// Failed to calculate hash.
    Hash(String),
    /// Hash verification failed.
    HashMismatch { expected: String, computed: String },
    /// Invalid seed.
    InvalidSeed,
}

/// Decides a RandomX verification from the outcome of hashing: an error of the
/// hash computation is returned as it is, a hash equal to `expected` is accepted,
/// and any other hash is refused with both hashes in lower-case hexadecimal.
pub fn verify_randomx_hash(computed: Result<[u8; 32], RandomXError>, expected: &[u8; 32]) -> (res:
    Result<(), RandomXError>)
    ensures
        match computed {
            Err(e) => res == Err::<(), RandomXError>(e),
            Ok(hash) => if hash@ == expected@ {
                res is Ok
            } else {
                res matches Err(RandomXError::HashMismatch { expected: x, computed: c }) && x@
                    == hex_chars(expected@, false) && c@ == hex_chars(hash@, false)
            },
        },
{
    let computed_hash = computed?;
    if slices_equal(computed_hash.as_slice(), expected.as_slice()) {
        Ok(())
    } else {
        Err(
            RandomXError::HashMismatch {
                expected: hex_encode(expected.as_slice()),
                computed: hex_encode(computed_hash.as_slice()),
            },
        )
    }
}

/// Check if a RandomX hash meets the difficulty target.
///
/// The hash is interpreted as a little-endian 256-bit integer and compared
/// against the expanded difficulty threshold: it is valid proof of work when
/// it is at most the target (lower values represent more work).
pub fn hash_meets_target(hash: &[u8; 32], target: &ExpandedDifficulty) -> (res: bool)
    ensures
        res == (le_value(hash@) <= target.value()),
{
    le_bytes_at_most(hash, &target.0)
}

/// Heights up to the end of the first epoch plus its lag use the genesis seed,
/// and every later height uses a block's hash.
pub proof fn law_genesis_seed_range(height: u64)
    ensures
        spec_seed_height(height) == 0 <==> height <= RANDOMX_SEEDHASH_EPOCH_BLOCKS
            + RANDOMX_SEEDHASH_EPOCH_LAG,
{
    if height > 2144 {
        assert((height - 97) / 2048 >= 1);
        assert(((height - 97) / 2048) * 2048 >= 2048) by (nonlinear_arith)
            requires
                (height - 97) / 2048 >= 1,
        ;
    }
}

/// The seed height is the most recent epoch boundary that lies more than the
/// lag behind the height: a multiple of the epoch length, at most
/// `height - LAG - 1`, and within one epoch of it.
pub proof fn law_seed_height_is_lagged_epoch_boundary(height: u64)
    requires
        height > RANDOMX_SEEDHASH_EPOCH_BLOCKS + RANDOMX_SEEDHASH_EPOCH_LAG,
    ensures
        spec_seed_height(height) % RANDOMX_SEEDHASH_EPOCH_BLOCKS == 0,
        spec_seed_height(height) + RANDOMX_SEEDHASH_EPOCH_LAG < height,
        height <= spec_seed_height(height) + RANDOMX_SEEDHASH_EPOCH_BLOCKS
            + RANDOMX_SEEDHASH_EPOCH_LAG,
{
    let x = (height - 97) as int;
    let q = x / 2048;
    assert(q * 2048 <= x && x < q * 2048 + 2048 && (q * 2048) % 2048 == 0) by (nonlinear_arith)
        requires
            x >= 0,
            q == x / 2048,
    ;
}

/// Later heights never use an earlier seed.
pub proof fn law_seed_height_monotonic(h1: u64, h2: u64)
    requires
        h1 <= h2,
    ensures
        spec_seed_height(h1) <= spec_seed_height(h2),
{
    if h1 > 2144 {
        let x1 = (h1 - 97) as int;
        let x2 = (h2 - 97) as int;
        assert((x1 / 2048) * 2048 <= (x2 / 2048) * 2048) by (nonlinear_arith)
            requires
                0 <= x1 <= x2,
        ;
    }
}

/// After the first epoch, the seed changes every 2048 blocks: moving a height
/// forward by one epoch moves its seed height forward by one epoch.
pub proof fn law_seed_height_periodic(height: u64)
    requires
        height > RANDOMX_SEEDHASH_EPOCH_BLOCKS + RANDOMX_SEEDHASH_EPOCH_LAG,
        height + RANDOMX_SEEDHASH_EPOCH_BLOCKS <= u64::MAX,
    ensures
        spec_seed_height((height + RANDOMX_SEEDHASH_EPOCH_BLOCKS) as u64) == spec_seed_height(
            height,
        ) + RANDOMX_SEEDHASH_EPOCH_BLOCKS,
{
    let x = (height - 97) as int;
    assert(((x + 2048) / 2048) * 2048 == (x / 2048) * 2048 + 2048) by (nonlinear_arith)
        requires
            x >= 0,
    ;
}

} // verus!
