//! The decisions of the proof-of-work miners: which solver runs, and what each
//! solver attempt does to the header template.

use vstd::prelude::*;

use crate::block::Header;
use crate::bytes::{be_value, pow256};
use crate::difficulty::{le_value, ExpandedDifficulty};
use crate::equihash::{is_solution_length, solution_kind_matches, Solution, EQUIHASH_K, EQUIHASH_N};
use crate::equihash_verify::equihash_solution_is_valid;
use crate::randomx::{hash_meets_target, RandomXError};

verus! {

/// The proof-of-work algorithm that mines a header template.
#[derive(Clone, Copy, Debug)]
pub enum MiningAlgorithm {
    /// RandomX, with the 32-byte seed of the header's epoch.
    RandomX([u8; 32]),
    /// Equihash with parameters `(200, 9)`.
    Equihash,
}

/// `after` is `before` with only its nonce changed.
pub open spec fn same_except_nonce(before: Header, after: Header) -> bool {
    &&& after.version == before.version
    &&& after.previous_block_hash == before.previous_block_hash
    &&& after.merkle_root == before.merkle_root
    &&& after.commitment_bytes == before.commitment_bytes
    &&& after.time == before.time
    &&& after.difficulty_threshold == before.difficulty_threshold
    &&& after.solution == before.solution
}

/// `after` is `before` with only its solution changed.
pub open spec fn same_except_solution(before: Header, after: Header) -> bool {
    &&& after.version == before.version
    &&& after.previous_block_hash == before.previous_block_hash
    &&& after.merkle_root == before.merkle_root
    &&& after.commitment_bytes == before.commitment_bytes
    &&& after.time == before.time
    &&& after.difficulty_threshold == before.difficulty_threshold
    &&& after.nonce == before.nonce
}

impl Solution {
    /// Chooses the solver for a header whose template solution is `self`.
    ///
    /// RandomX templates are mined with RandomX and need the seed of their epoch;
    /// Equihash templates (Common or Regtest) ignore the seed.
    pub fn mining_algorithm(&self, seed: Option<[u8; 32]>) -> (res: MiningAlgorithm)
        requires
            self is RandomX ==> seed is Some,
        ensures
            self is RandomX ==> res == MiningAlgorithm::RandomX(seed->Some_0),
            !(self is RandomX) ==> res == MiningAlgorithm::Equihash,
    {
        match self {
            Solution::RandomX(_) => match seed {
                Some(s) => MiningAlgorithm::RandomX(s),
                None => MiningAlgorithm::Equihash,
            },
            Solution::Common(_) | Solution::Regtest(_) => MiningAlgorithm::Equihash,
        }
    }
}

/// One RandomX mining attempt on `header`, given the outcome of hashing its
/// mining input.
///
/// A hash that meets `target` becomes the header's solution and the nonce stays;
/// otherwise (a hash above the target, or a failed hash computation) the nonce
/// moves on to the next big-endian value and nothing else changes.
pub fn randomx_mining_step(
    header: &mut Header,
    hash: Result<[u8; 32], RandomXError>,
    target: &ExpandedDifficulty,
) -> (found: bool)
    ensures
        found == (hash is Ok && le_value(hash->Ok_0@) <= target.value()),
        found ==> same_except_solution(*old(header), *final(header)) && final(header).solution
            == Solution::RandomX(hash->Ok_0),
        !found ==> same_except_nonce(*old(header), *final(header)) && be_value(
            final(header).nonce@,
        ) == (be_value(old(header).nonce@) + 1) % pow256(32),
{
    match hash {
        Ok(h) => {
            if hash_meets_target(&h, target) {
                header.solution = Solution::RandomX(h);
                return true;
            }
        },
        Err(_) => {},
    }
    Solution::next_nonce(&mut header.nonce);
    false
}

/// Returns `true` if a header whose block hash is `header_hash` meets the
/// difficulty threshold: the hash, read as a little-endian 256-bit integer, is at
/// most the threshold (greater values represent less work).
pub fn difficulty_is_valid(header_hash: &[u8; 32], difficulty_threshold: &ExpandedDifficulty) -> (res:
    bool)
    ensures
        res == (le_value(header_hash@) <= difficulty_threshold.value()),
{
    hash_meets_target(header_hash, difficulty_threshold)
}

/// The candidate header for one solution that the Equihash solver found for
/// `header`: the header with that solution, kept only if the solution checks
/// against it.
pub fn equihash_candidate(header: &Header, solution: &[u8]) -> (res: Option<Header>)
    requires
        is_solution_length(solution@.len()),
    ensures
        match res {
            Some(h) => same_except_solution(*header, h) && solution_kind_matches(
                h.solution,
                solution@,
            ),
            None => true,
        },
        solution@.len() == 32 ==> res is Some,
        solution@.len() == 36 ==> res is None,
        solution@.len() == 1344 ==> (res is Some <==> equihash_solution_is_valid(
            EQUIHASH_N,
            EQUIHASH_K,
            header.spec_equihash_input(),
            header.nonce@,
            solution@,
        )),
{
    let mut candidate = *header;
    match Solution::from_bytes(solution) {
        Ok(s) => candidate.solution = s,
        Err(_) => {
            return None;
        },
    }
    assert(candidate.spec_equihash_input() == header.spec_equihash_input());
    match candidate.solution.check(&candidate) {
        Ok(()) => Some(candidate),
        Err(_) => None,
    }
}

} // verus!
