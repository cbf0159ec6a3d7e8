//! Byte strings read as big-endian integers, and byte comparison.

use vstd::prelude::*;

verus! {

/// `256` to the power `n`.
pub open spec fn pow256(n: nat) -> nat
    decreases n,
{
    if n == 0 {
        1
    } else {
        256 * pow256((n - 1) as nat)
    }
}

/// The unsigned integer that `bytes` encodes in big-endian order.
pub open spec fn be_value(bytes: Seq<u8>) -> nat
    decreases bytes.len(),
{
    if bytes.len() == 0 {
        0
    } else {
        be_value(bytes.drop_last()) * 256 + bytes.last() as nat
    }
}

/// `n` bytes of value `b`.
pub open spec fn repeat_byte(b: u8, n: nat) -> Seq<u8> {
    Seq::new(n, |i: int| b)
}

/// Appending bytes shifts the value of the front by one byte per appended byte.
proof fn lemma_be_value_append(a: Seq<u8>, b: Seq<u8>)
    ensures
        be_value(a + b) == be_value(a) * pow256(b.len()) + be_value(b),
    decreases b.len(),
{
    if b.len() == 0 {
        assert(a + b =~= a);
        assert(be_value(b) == 0);
        assert(pow256(0) == 1);
        assert(be_value(a) * 1 == be_value(a));
    } else {
        let b0 = b.drop_last();
        lemma_be_value_append(a, b0);
        assert((a + b).drop_last() =~= a + b0);
        assert((a + b).last() == b.last());
        let pa = be_value(a);
        let p0 = pow256(b0.len());
        let v0 = be_value(b0);
        let l = b.last() as nat;
        assert(pow256(b.len()) == 256 * p0);
        assert(be_value(a + b) == (pa * p0 + v0) * 256 + l);
        assert(be_value(b) == v0 * 256 + l);
        assert((pa * p0 + v0) * 256 + l == pa * (256 * p0) + (v0 * 256 + l)) by (nonlinear_arith);
    }
}

proof fn lemma_be_value_single(b: u8)
    ensures
        be_value(seq![b]) == b,
{
    assert(be_value(Seq::<u8>::empty()) == 0);
    assert(seq![b].drop_last() =~= Seq::<u8>::empty());
    assert(seq![b].last() == b);
}

/// A run of zero bytes is worth zero; a run of `0xff` bytes is worth one less
/// than the next power.
proof fn lemma_be_value_runs(n: nat)
    ensures
        be_value(repeat_byte(0, n)) == 0,
        be_value(repeat_byte(255, n)) + 1 == pow256(n),
    decreases n,
{
    if n > 0 {
        lemma_be_value_runs((n - 1) as nat);
        assert(repeat_byte(0, n).drop_last() =~= repeat_byte(0, (n - 1) as nat));
        assert(repeat_byte(255, n).drop_last() =~= repeat_byte(255, (n - 1) as nat));
    }
}

/// `n` bytes encode a value below `256^n`.
proof fn lemma_be_value_bound(bytes: Seq<u8>)
    ensures
        be_value(bytes) < pow256(bytes.len()),
    decreases bytes.len(),
{
    if bytes.len() > 0 {
        let front = bytes.drop_last();
        lemma_be_value_bound(front);
        let v = be_value(front);
        let p = pow256(front.len());
        assert(v * 256 + (bytes.last() as nat) < 256 * p) by (nonlinear_arith)
            requires
                v < p,
                bytes.last() < 256,
        ;
    }
}

/// Adds one to a big-endian counter, wrapping to zero after the largest value.
/// Returns `true` when it wrapped.
pub fn increment_big_endian(bytes: &mut [u8; 32]) -> (overflowed: bool)
    ensures
        be_value(final(bytes)@) == (be_value(old(bytes)@) + 1) % pow256(32),
        overflowed == (be_value(old(bytes)@) + 1 == pow256(32)),
{
    let ghost start = bytes@;
    let mut i: usize = 32;
    while i > 0
        invariant
            i <= 32,
            bytes@.len() == 32,
            start.len() == 32,
            start == old(bytes)@,
            bytes@.take(i as int) == start.take(i as int),
            bytes@.skip(i as int) == repeat_byte(0, (32 - i) as nat),
            start.skip(i as int) == repeat_byte(255, (32 - i) as nat),
        decreases i,
    {
        let b = bytes[i - 1];
        if b < 255 {
            bytes[i - 1] = b + 1;
            proof {
                let k = (i - 1) as int;
                let m = (32 - i) as nat;
                let front = start.take(k);
                assert(start =~= (front + seq![b]) + repeat_byte(255, m)) by {
                    assert(start.take(k + 1) =~= front + seq![b]);
                    assert(start =~= start.take(k + 1) + start.skip(k + 1));
                }
                assert(bytes@ =~= (front + seq![(b + 1) as u8]) + repeat_byte(0, m)) by {
                    assert(bytes@.take(k) =~= start.take(k));
                }
                lemma_be_value_append(front + seq![b], repeat_byte(255, m));
                lemma_be_value_append(front + seq![(b + 1) as u8], repeat_byte(0, m));
                lemma_be_value_append(front, seq![b]);
                lemma_be_value_append(front, seq![(b + 1) as u8]);
                assert(pow256(1) == 256) by {
                    assert(pow256(0) == 1);
                }
                lemma_be_value_single(b);
                lemma_be_value_single((b + 1) as u8);
                lemma_be_value_runs(m);
                let f = be_value(front);
                let p = pow256(m);
                assert((f * 256 + b + 1) * p == (f * 256 + b) * p + p) by (nonlinear_arith);
                lemma_be_value_bound(bytes@);
                assert(be_value(bytes@) == be_value(start) + 1);
                assert(bytes@.len() == 32);
                vstd::arithmetic::div_mod::lemma_small_mod(
                    (be_value(start) + 1) as nat,
                    pow256(32),
                );
                assert(be_value(bytes@) == (be_value(start) + 1) % pow256(32));
            }
            return false;
        }
        let ghost prev = bytes@;
        bytes[i - 1] = 0;
        proof {
            let k = (i - 1) as int;
            assert(bytes@.take(k) =~= start.take(k)) by {
                assert(prev.take(k) =~= prev.take(k + 1).take(k));
            }
            assert forall|t: int| 0 <= t < 32 - k implies #[trigger] bytes@.skip(k)[t] == 0u8 by {
                if t > 0 {
                    assert(bytes@[k + t] == prev[k + t]);
                    assert(prev.skip(k + 1)[t - 1] == prev[k + t]);
                }
            }
            assert(bytes@.skip(k) =~= repeat_byte(0, (32 - k) as nat));
            assert(start[k] == b) by {
                assert(start.take(k + 1)[k] == start[k]);
                assert(prev.take(k + 1)[k] == prev[k]);
            }
            assert(start.skip(k) =~= repeat_byte(255, (32 - k) as nat)) by {
                assert(start.skip(k) =~= seq![start[k]] + start.skip(k + 1));
            }
        }
        i = i - 1;
    }
    proof {
        assert(start =~= repeat_byte(255, 32));
        assert(bytes@ =~= repeat_byte(0, 32));
        lemma_be_value_runs(32);
        vstd::arithmetic::div_mod::lemma_mod_self_0(pow256(32) as int);
    }
    true
}

/// Compares two byte strings.
pub fn slices_equal(a: &[u8], b: &[u8]) -> (res: bool)
    ensures
        res == (a@ == b@),
{
    if a.len() != b.len() {
        return false;
    }
    let mut i: usize = 0;
    while i < a.len()
        invariant
            i <= a.len(),
            a.len() == b.len(),
            forall|j: int| 0 <= j < i ==> a@[j] == b@[j],
        decreases a.len() - i,
    {
        if a[i] != b[i] {
            return false;
        }
        i = i + 1;
    }
    assert(a@ =~= b@);
    true
}

} // verus!
