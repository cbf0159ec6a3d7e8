//! Proof-of-work solutions: RandomX hashes and Equihash solutions.

use vstd::prelude::*;
use vstd::std_specs::cmp::PartialEqSpec;

use crate::block::Header;
use crate::bytes::{be_value, increment_big_endian, pow256, slices_equal};
use crate::hex_codec::{
    hex_ascii, hex_chars, hex_decode, hex_encode, hex_encode_upper, law_hex_decode_encode,
    spec_hex_decode, HexError,
};
use crate::randomx::RANDOMX_SOLUTION_SIZE;
use crate::equihash_verify::{equihash_solution_is_valid, is_valid_solution};

verus! {

/// The error type for Equihash validation.
#[derive(Debug)]
pub struct EquihashError(pub ::equihash::Error);

/// The error type for Equihash solving.
#[derive(Clone, Copy, Debug, PartialEq, Eq, Structural)]
pub struct SolverCancelled;

/// An error reading a value from bytes.
#[derive(Clone, Copy, Debug, PartialEq, Eq)]
pub enum SerializationError {
    /// The bytes do not describe a valid value.
    Parse(&'static str),
}

/// The size of an Equihash solution in bytes (always 1344).
pub const SOLUTION_SIZE: usize = 1344;

/// The size of an Equihash solution in bytes on Regtest (always 36).
pub const REGTEST_SOLUTION_SIZE: usize = 36;

/// The Equihash parameter `n` of Zcash.
pub const EQUIHASH_N: u32 = 200;

/// The Equihash parameter `k` of Zcash.
pub const EQUIHASH_K: u32 = 9;

/// Proof-of-work solution.
///
/// Juno Cash uses RandomX with 32-byte solutions.
/// Zcash uses Equihash with 1344-byte solutions (or 36-byte on Regtest).
#[derive(Clone, Copy)]
pub enum Solution {
    /// RandomX solution (32 bytes) - used by Juno Cash
    RandomX([u8; 32]),
    /// Equihash solution on Mainnet or Testnet (1344 bytes)
    Common([u8; 1344]),
    /// Equihash solution on Regtest (36 bytes)
    Regtest([u8; 36]),
}

impl View for Solution {
    type V = Seq<u8>;

    /// The bytes of the solution.
    open spec fn view(&self) -> Seq<u8> {
        match self {
            Solution::RandomX(b) => b@,
            Solution::Common(b) => b@,
            Solution::Regtest(b) => b@,
        }
    }
}

/// The lengths that a solution can have: RandomX, Equihash, Equihash on Regtest.
pub open spec fn is_solution_length(len: nat) -> bool {
    len == 32 || len == 1344 || len == 36
}

/// `n` zero bytes.
pub open spec fn zeros(n: nat) -> Seq<u8> {
    Seq::new(n, |i: int| 0u8)
}

/// The solution that holds `bytes`, chosen by their length.
pub open spec fn solution_kind_matches(s: Solution, bytes: Seq<u8>) -> bool {
    &&& s@ == bytes
    &&& (s is RandomX <==> bytes.len() == 32)
    &&& (s is Common <==> bytes.len() == 1344)
    &&& (s is Regtest <==> bytes.len() == 36)
}

fn copy_32(src: &[u8]) -> (res: [u8; 32])
    requires
        src@.len() == 32,
    ensures
        res@ == src@,
{
    let mut out = [0u8; 32];
    let mut i: usize = 0;
    while i < 32
        invariant
            i <= 32,
            src@.len() == 32,
            forall|j: int| 0 <= j < i ==> out@[j] == src@[j],
        decreases 32 - i,
    {
        out[i] = src[i];
        i = i + 1;
    }
    assert(out@ =~= src@);
    out
}

fn copy_1344(src: &[u8]) -> (res: [u8; 1344])
    requires
        src@.len() == 1344,
    ensures
        res@ == src@,
{
    let mut out = [0u8; 1344];
    let mut i: usize = 0;
    while i < 1344
        invariant
            i <= 1344,
            src@.len() == 1344,
            forall|j: int| 0 <= j < i ==> out@[j] == src@[j],
        decreases 1344 - i,
    {
        out[i] = src[i];
        i = i + 1;
    }
    assert(out@ =~= src@);
    out
}

fn copy_36(src: &[u8]) -> (res: [u8; 36])
    requires
        src@.len() == 36,
    ensures
        res@ == src@,
{
    let mut out = [0u8; 36];
    let mut i: usize = 0;
    while i < 36
        invariant
            i <= 36,
            src@.len() == 36,
            forall|j: int| 0 <= j < i ==> out@[j] == src@[j],
        decreases 36 - i,
    {
        out[i] = src[i];
        i = i + 1;
    }
    assert(out@ =~= src@);
    out
}

impl Solution {
    /// The length of the portion of the header used as input when verifying
    /// equihash solutions, in bytes.
    ///
    /// Excludes the 32-byte nonce, which is passed as a separate argument
    /// to the verification function.
    pub const INPUT_LENGTH: usize = 4 + 32 * 3 + 4 * 2;

    /// Returns the inner value of the [`Solution`] as a byte slice.
    pub fn value(&self) -> (res: &[u8])
        ensures
            res@ == self@,
    {
        match self {
            Solution::RandomX(solution) => solution.as_slice(),
            Solution::Common(solution) => solution.as_slice(),
            Solution::Regtest(solution) => solution.as_slice(),
        }
    }

    /// Returns `true` if this is a RandomX solution.
    pub fn is_randomx(&self) -> (res: bool)
        ensures
            res == (self is RandomX),
    {
        matches!(self, Solution::RandomX(_))
    }

    /// Returns the RandomX hash if this is a RandomX solution.
    pub fn randomx_hash(&self) -> (res: Option<[u8; 32]>)
        ensures
            match self {
                Solution::RandomX(hash) => res == Some(*hash),
                _ => res is None,
            },
    {
        match self {
            Solution::RandomX(hash) => Some(*hash),
            _ => None,
        }
    }

    /// Returns `Ok(())` if the solution is valid for `header`.
    ///
    /// RandomX solutions are accepted here: they are checked against the chain's
    /// seed elsewhere. Equihash solutions are checked with parameters `(200, 9)`
    /// over the serialized header before its nonce, and the header's nonce.
    pub fn check(&self, header: &Header) -> (res: Result<(), EquihashError>)
        ensures
            self is RandomX ==> res is Ok,
            !(self is RandomX) ==> (res is Ok <==> equihash_solution_is_valid(
                EQUIHASH_N,
                EQUIHASH_K,
                header.spec_equihash_input(),
                header.nonce@,
                self@,
            )),
            self is Regtest ==> res is Err,
    {
        match self {
            Solution::RandomX(_) => Ok(()),
            Solution::Common(_) | Solution::Regtest(_) => {
                let input = header.equihash_input();
                match is_valid_solution(
                    EQUIHASH_N,
                    EQUIHASH_K,
                    input.as_slice(),
                    header.nonce.as_slice(),
                    self.value(),
                ) {
                    Ok(()) => Ok(()),
                    Err(e) => Err(EquihashError(e)),
                }
            },
        }
    }

    /// Returns a [`Solution`] containing the bytes from `solution`.
    /// Returns an error if `solution` is the wrong length.
    pub fn from_bytes(solution: &[u8]) -> (res: Result<Self, SerializationError>)
        ensures
            res is Ok <==> is_solution_length(solution@.len()),
            match res {
                Ok(s) => solution_kind_matches(s, solution@),
                Err(e) => e == SerializationError::Parse("incorrect solution size"),
            },
    {
        let len = solution.len();
        if len == RANDOMX_SOLUTION_SIZE {
            Ok(Solution::RandomX(copy_32(solution)))
        } else if len == SOLUTION_SIZE {
            Ok(Solution::Common(copy_1344(solution)))
        } else if len == REGTEST_SOLUTION_SIZE {
            Ok(Solution::Regtest(copy_36(solution)))
        } else {
            Err(SerializationError::Parse("incorrect solution size"))
        }
    }

    /// Returns a [`Solution`] of 32 zero bytes to be used in block proposals:
    /// a RandomX solution placeholder.
    pub fn for_proposal() -> (res: Self)
        ensures
            res is RandomX,
            res@ == zeros(32),
    {
        Solution::RandomX([0u8; 32])
    }

    /// Returns an empty RandomX solution for proposals.
    pub fn randomx_for_proposal() -> (res: Self)
        ensures
            res is RandomX,
            res@ == zeros(32),
    {
        Solution::RandomX([0u8; 32])
    }

    /// Returns an empty Equihash solution for proposals.
    pub fn equihash_for_proposal() -> (res: Self)
        ensures
            res is Common,
            res@ == zeros(1344),
    {
        Solution::Common([0u8; 1344])
    }

    /// The solution's bytes as lower-case hexadecimal.
    pub fn encode_hex(&self) -> (res: String)
        ensures
            res@ == hex_chars(self@, false),
    {
        hex_encode(self.value())
    }

    /// The solution's bytes as upper-case hexadecimal.
    pub fn encode_hex_upper(&self) -> (res: String)
        ensures
            res@ == hex_chars(self@, true),
    {
        hex_encode_upper(self.value())
    }

    /// Reads a solution from hexadecimal text (digits of either case).
    ///
    /// Text that is not hexadecimal keeps the decoding error; bytes of a length
    /// that no solution has give `InvalidStringLength`.
    pub fn from_hex(hex: &[u8]) -> (res: Result<Self, HexError>)
        ensures
            match spec_hex_decode(hex@) {
                Err(e) => res == Err::<Solution, HexError>(e),
                Ok(bytes) => if is_solution_length(bytes.len()) {
                    res is Ok && solution_kind_matches(res->Ok_0, bytes)
                } else {
                    res == Err::<Solution, HexError>(HexError::InvalidStringLength)
                },
            },
    {
        let bytes = hex_decode(hex)?;
        match Solution::from_bytes(bytes.as_slice()) {
            Ok(s) => Ok(s),
            Err(_) => Err(HexError::InvalidStringLength),
        }
    }
}

impl Solution {
    /// Modifies `nonce` to be the next integer in big-endian order.
    /// Wraps to zero if the next nonce would overflow.
    pub fn next_nonce(nonce: &mut [u8; 32])
        ensures
            be_value(final(nonce)@) == (be_value(old(nonce)@) + 1) % pow256(32),
    {
        let _ignore_overflow = increment_big_endian(nonce);
    }
}

/// The length of a solution's bytes follows from its kind.
proof fn lemma_solution_length(s: Solution)
    ensures
        solution_kind_matches(s, s@),
{
    match s {
        Solution::RandomX(a) => assert(a@.len() == 32),
        Solution::Common(a) => assert(a@.len() == 1344),
        Solution::Regtest(a) => assert(a@.len() == 36),
    }
}

/// A solution is determined by its bytes: their length decides its kind.
pub proof fn law_solution_determined_by_bytes(s1: Solution, s2: Solution)
    requires
        s1@ == s2@,
    ensures
        s1 == s2,
{
    lemma_solution_length(s1);
    lemma_solution_length(s2);
    match (s1, s2) {
        (Solution::RandomX(a), Solution::RandomX(b)) => assert(a =~= b),
        (Solution::Common(a), Solution::Common(b)) => assert(a =~= b),
        (Solution::Regtest(a), Solution::Regtest(b)) => assert(a =~= b),
        _ => {},
    }
}

/// Two solutions compare equal (`==`, which compares their bytes) exactly when
/// they are the same solution.
pub proof fn law_solution_eq_is_identity(s1: Solution, s2: Solution)
    ensures
        s1.eq_spec(&s2) <==> s1 == s2,
{
    if s1@ == s2@ {
        law_solution_determined_by_bytes(s1, s2);
    }
}

/// Every solution has one of the accepted lengths, and a solution read from the
/// bytes of another is that same solution: `from_bytes(s.value())` gives back `s`.
pub proof fn law_from_bytes_value(s: Solution, t: Solution)
    requires
        solution_kind_matches(t, s@),
    ensures
        is_solution_length(s@.len()),
        t == s,
{
    law_solution_determined_by_bytes(t, s);
}

/// The hexadecimal text of a solution, in either case, decodes to its bytes, so
/// `from_hex` of that text gives back the solution.
pub proof fn law_from_hex_encode_hex(s: Solution, upper: bool)
    ensures
        spec_hex_decode(hex_ascii(s@, upper)) == Ok::<Seq<u8>, HexError>(s@),
        is_solution_length(s@.len()),
{
    law_hex_decode_encode(s@, upper);
}

impl PartialEq for Solution {
    fn eq(&self, other: &Solution) -> (res: bool) {
        slices_equal(self.value(), other.value())
    }
}

impl vstd::std_specs::cmp::PartialEqSpecImpl for Solution {
    open spec fn obeys_eq_spec() -> bool {
        true
    }

    open spec fn eq_spec(&self, other: &Solution) -> bool {
        self@ == other@
    }
}

impl Eq for Solution {}

impl Default for Solution {
    fn default() -> (res: Self)
        ensures
            res is RandomX,
            res@ == zeros(32),
    {
        Solution::RandomX([0u8; 32])
    }
}

} // verus!
