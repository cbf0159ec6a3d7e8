//! 256-bit difficulty targets and the little-endian integers they are compared with.

use vstd::prelude::*;

verus! {

/// The unsigned integer that `bytes` encodes in little-endian order.
pub open spec fn le_value(bytes: Seq<u8>) -> nat
    decreases bytes.len(),
{
    if bytes.len() == 0 {
        0
    } else {
        bytes[0] as nat + 256 * le_value(bytes.drop_first())
    }
}

/// An expanded difficulty threshold: a 256-bit unsigned integer, held as its
/// 32 little-endian bytes. Lower values represent more work.
#[derive(Clone, Copy, Debug)]
pub struct ExpandedDifficulty(pub [u8; 32]);

impl ExpandedDifficulty {
    /// The integer value of this threshold.
    pub open spec fn value(&self) -> nat {
        le_value(self.0@)
    }
}

/// If the higher bytes from `j` on encode a smaller number, so does the whole sequence.
proof fn lemma_le_value_lift(a: Seq<u8>, b: Seq<u8>, j: int)
    requires
        a.len() == b.len(),
        0 <= j <= a.len(),
        le_value(a.skip(j)) < le_value(b.skip(j)),
    ensures
        le_value(a) < le_value(b),
    decreases j,
{
    if j > 0 {
        let sa = a.skip(j - 1);
        let sb = b.skip(j - 1);
        assert(sa.drop_first() =~= a.skip(j));
        assert(sb.drop_first() =~= b.skip(j));
        let va = le_value(a.skip(j));
        let vb = le_value(b.skip(j));
        assert(sa[0] as nat + 256 * va < sb[0] as nat + 256 * vb) by (nonlinear_arith)
            requires
                va < vb,
                sa[0] < 256,
        ;
        lemma_le_value_lift(a, b, j - 1);
    } else {
        assert(a.skip(0) =~= a);
        assert(b.skip(0) =~= b);
    }
}

/// Equal byte sequences from `j` on, with a smaller byte at `j - 1`, give a smaller suffix value.
proof fn lemma_le_value_step(a: Seq<u8>, b: Seq<u8>, j: int)
    requires
        a.len() == b.len(),
        0 < j <= a.len(),
        a.skip(j) == b.skip(j),
        a[j - 1] < b[j - 1],
    ensures
        le_value(a.skip(j - 1)) < le_value(b.skip(j - 1)),
{
    assert(a.skip(j - 1).drop_first() =~= a.skip(j));
    assert(b.skip(j - 1).drop_first() =~= b.skip(j));
}

/// Returns `true` if `hash`, read as a little-endian 256-bit integer, is at most `target`.
pub fn le_bytes_at_most(hash: &[u8; 32], target: &[u8; 32]) -> (res: bool)
    ensures
        res == (le_value(hash@) <= le_value(target@)),
{
    let mut i: usize = 32;
    while i > 0
        invariant
            i <= 32,
            hash@.skip(i as int) == target@.skip(i as int),
        decreases i,
    {
        let h = hash[i - 1];
        let t = target[i - 1];
        if h < t {
            proof {
                lemma_le_value_step(hash@, target@, i as int);
                lemma_le_value_lift(hash@, target@, i - 1);
            }
            return true;
        } else if h > t {
            proof {
                lemma_le_value_step(target@, hash@, i as int);
                lemma_le_value_lift(target@, hash@, i - 1);
            }
            return false;
        }
        assert(hash@.skip(i - 1) =~= seq![h] + hash@.skip(i as int));
        assert(target@.skip(i - 1) =~= seq![t] + target@.skip(i as int));
        i = i - 1;
    }
    assert(hash@ =~= hash@.skip(0));
    assert(target@ =~= target@.skip(0));
    true
}

} // verus!
