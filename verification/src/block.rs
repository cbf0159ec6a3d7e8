//! Block heights and the header fields that proof-of-work reads.

use vstd::prelude::*;

use crate::difficulty::le_value;
use crate::equihash::Solution;

verus! {

/// The height of a block in the chain.
#[derive(Clone, Copy, Debug, PartialEq, Eq, Structural)]
pub struct Height(pub u32);

/// The four little-endian bytes of `v`.
pub open spec fn u32_le(v: u32) -> Seq<u8> {
    seq![
        (v % 256) as u8,
        ((v / 256) % 256) as u8,
        ((v / 65536) % 256) as u8,
        ((v / 16777216) % 256) as u8,
    ]
}

/// A block header: the fields that are hashed for proof of work, then the solution.
#[derive(Clone, Copy)]
pub struct Header {
    /// The block version.
    pub version: u32,
    /// The hash of the previous block.
    pub previous_block_hash: [u8; 32],
    /// The root of the transaction Merkle tree.
    pub merkle_root: [u8; 32],
    /// The block commitment bytes.
    pub commitment_bytes: [u8; 32],
    /// The block time, in seconds since the Unix epoch.
    pub time: u32,
    /// The compact encoding of the difficulty threshold.
    pub difficulty_threshold: u32,
    /// The nonce that miners vary.
    pub nonce: [u8; 32],
    /// The proof-of-work solution.
    pub solution: Solution,
}

impl Header {
    /// The serialized header fields before the nonce: version, previous block hash,
    /// Merkle root, commitment bytes, time and difficulty threshold.
    pub open spec fn spec_equihash_input(&self) -> Seq<u8> {
        u32_le(self.version) + self.previous_block_hash@ + self.merkle_root@
            + self.commitment_bytes@ + u32_le(self.time) + u32_le(self.difficulty_threshold)
    }

    /// The serialized header fields up to and including the nonce.
    pub open spec fn spec_mining_input(&self) -> Seq<u8> {
        self.spec_equihash_input() + self.nonce@
    }

    /// The part of the serialized header before the nonce and solution.
    pub fn equihash_input(&self) -> (res: Vec<u8>)
        ensures
            res@ == self.spec_equihash_input(),
            res@.len() == 108,
            le_value(res@.subrange(0, 4)) == self.version,
            res@.subrange(4, 36) == self.previous_block_hash@,
            res@.subrange(36, 68) == self.merkle_root@,
            res@.subrange(68, 100) == self.commitment_bytes@,
            le_value(res@.subrange(100, 104)) == self.time,
            le_value(res@.subrange(104, 108)) == self.difficulty_threshold,
    {
        proof {
            law_equihash_input_layout(*self);
        }
        let mut out: Vec<u8> = Vec::new();
        push_u32_le(&mut out, self.version);
        push_bytes(&mut out, &self.previous_block_hash);
        push_bytes(&mut out, &self.merkle_root);
        push_bytes(&mut out, &self.commitment_bytes);
        push_u32_le(&mut out, self.time);
        push_u32_le(&mut out, self.difficulty_threshold);
        out
    }

    /// The 140-byte input that is hashed when mining: the serialized header up to
    /// and including the nonce.
    pub fn mining_input(&self) -> (res: Vec<u8>)
        ensures
            res@ == self.spec_mining_input(),
            res@.len() == 140,
            res@.subrange(0, 108) == self.spec_equihash_input(),
            res@.subrange(108, 140) == self.nonce@,
    {
        proof {
            law_mining_input_layout(*self);
        }
        let mut out = self.equihash_input();
        push_bytes(&mut out, &self.nonce);
        out
    }
}

/// The four bytes written for a 32-bit field are its little-endian encoding:
/// read back in little-endian order they give the field's value.
pub proof fn law_u32_le_reads_back(v: u32)
    ensures
        u32_le(v).len() == 4,
        le_value(u32_le(v)) == v,
{
    let s = u32_le(v);
    let b0 = (v % 256) as u8;
    let b1 = ((v / 256) % 256) as u8;
    let b2 = ((v / 65536) % 256) as u8;
    let b3 = ((v / 16777216) % 256) as u8;
    assert(s.drop_first() =~= seq![b1, b2, b3]);
    assert(s.drop_first().drop_first() =~= seq![b2, b3]);
    assert(s.drop_first().drop_first().drop_first() =~= seq![b3]);
    assert(s.drop_first().drop_first().drop_first().drop_first() =~= Seq::<u8>::empty());
    assert(le_value(Seq::<u8>::empty()) == 0);
    assert(le_value(seq![b3]) == b3);
    assert(le_value(seq![b2, b3]) == b2 + 256 * b3);
    assert(le_value(seq![b1, b2, b3]) == b1 + 256 * (b2 + 256 * b3));
    assert(le_value(s) == b0 + 256 * (b1 + 256 * (b2 + 256 * b3)));
    assert(b0 + 256 * (b1 + 256 * (b2 + 256 * b3)) == v) by (nonlinear_arith)
        requires
            b0 == v % 256,
            b1 == (v / 256) % 256,
            b2 == (v / 65536) % 256,
            b3 == (v / 16777216) % 256,
            v < 0x1_0000_0000,
    ;
}

/// The Equihash input is the header's serialization before the nonce, each field
/// in its stored byte order: the version in little-endian order at 0..4, then the
/// previous block hash, Merkle root and commitment bytes exactly as stored, then
/// the time and the difficulty threshold in little-endian order.
pub proof fn law_equihash_input_layout(h: Header)
    ensures
        h.spec_equihash_input().len() == 108,
        le_value(h.spec_equihash_input().subrange(0, 4)) == h.version,
        h.spec_equihash_input().subrange(4, 36) == h.previous_block_hash@,
        h.spec_equihash_input().subrange(36, 68) == h.merkle_root@,
        h.spec_equihash_input().subrange(68, 100) == h.commitment_bytes@,
        le_value(h.spec_equihash_input().subrange(100, 104)) == h.time,
        le_value(h.spec_equihash_input().subrange(104, 108)) == h.difficulty_threshold,
{
    let s = h.spec_equihash_input();
    law_u32_le_reads_back(h.version);
    law_u32_le_reads_back(h.time);
    law_u32_le_reads_back(h.difficulty_threshold);
    assert(s.subrange(0, 4) =~= u32_le(h.version));
    assert(s.subrange(4, 36) =~= h.previous_block_hash@);
    assert(s.subrange(36, 68) =~= h.merkle_root@);
    assert(s.subrange(68, 100) =~= h.commitment_bytes@);
    assert(s.subrange(100, 104) =~= u32_le(h.time));
    assert(s.subrange(104, 108) =~= u32_le(h.difficulty_threshold));
}

/// The mining input is the Equihash input followed by the nonce in its stored
/// byte order, the same bytes that Equihash checking passes as the nonce.
pub proof fn law_mining_input_layout(h: Header)
    ensures
        h.spec_mining_input().len() == 140,
        h.spec_mining_input().subrange(0, 108) == h.spec_equihash_input(),
        h.spec_mining_input().subrange(108, 140) == h.nonce@,
{
    law_equihash_input_layout(h);
    assert(h.spec_mining_input().subrange(0, 108) =~= h.spec_equihash_input());
    assert(h.spec_mining_input().subrange(108, 140) =~= h.nonce@);
}

fn push_u32_le(out: &mut Vec<u8>, v: u32)
    ensures
        final(out)@ == old(out)@ + u32_le(v),
{
    assert((v & 0xff) as u8 == (v % 256) as u8) by (bit_vector);
    assert(((v >> 8) & 0xff) as u8 == ((v / 256) % 256) as u8) by (bit_vector);
    assert(((v >> 16) & 0xff) as u8 == ((v / 65536) % 256) as u8) by (bit_vector);
    assert(((v >> 24) & 0xff) as u8 == ((v / 16777216) % 256) as u8) by (bit_vector);
    out.push((v & 0xff) as u8);
    out.push(((v >> 8) & 0xff) as u8);
    out.push(((v >> 16) & 0xff) as u8);
    out.push(((v >> 24) & 0xff) as u8);
    assert(out@ =~= old(out)@ + u32_le(v));
}

fn push_bytes(out: &mut Vec<u8>, bytes: &[u8; 32])
    ensures
        final(out)@ == old(out)@ + bytes@,
{
    let ghost start = out@;
    let mut i: usize = 0;
    while i < 32
        invariant
            i <= 32,
            out@ == start + bytes@.take(i as int),
        decreases 32 - i,
    {
        out.push(bytes[i]);
        i = i + 1;
        assert(out@ =~= start + bytes@.take(i as int));
    }
    assert(bytes@.take(32) =~= bytes@);
}

} // verus!
