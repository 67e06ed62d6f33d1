//! SHA-256 digests and the binary Merkle fold built on top of them.

use vstd::prelude::*;
use sha2::{Digest, Sha256};
use crate::bytes::{push_all, zero32, zeros32, seq_lt, bytes_lt, lemma_seq_lt_irreflexive, lemma_seq_lt_transitive, lemma_seq_lt_total, lemma_seq_lt_asymmetric};

verus! {

/// The SHA-256 digest of a byte string, as computed by the `sha2` crate.
pub uninterp spec fn sha256_spec(data: Seq<u8>) -> Seq<u8>;

/// Calls `sha2::Sha256::digest` on `data` and returns its 32 bytes.
/// Trusted: the result is the digest that `sha256_spec` names for `data`.
#[verifier::external_body]
pub(crate) fn sha256(data: &[u8]) -> (out: [u8; 32])
    ensures
        out@ == sha256_spec(data@),
{
    Sha256::digest(data).into()
}

/// The byte views of a sequence of 32-byte arrays.
pub open spec fn arr_views(s: Seq<[u8; 32]>) -> Seq<Seq<u8>> {
    s.map_values(|a: [u8; 32]| a@)
}

/// The digest of two nodes side by side.
pub open spec fn hash_pair(a: Seq<u8>, b: Seq<u8>) -> Seq<u8> {
    sha256_spec(a + b)
}

/// One level up the tree: nodes are paired left to right, and an odd last
/// node is paired with 32 zero bytes.
pub open spec fn next_level(h: Seq<Seq<u8>>) -> Seq<Seq<u8>> {
    Seq::new(
        ((h.len() + 1) / 2) as nat,
        |i: int|
            hash_pair(
                h[2 * i],
                if 2 * i + 1 < h.len() {
                    h[2 * i + 1]
                } else {
                    zeros32()
                },
            ),
    )
}

/// The Merkle root of a level of nodes: 32 zero bytes for no node, the node
/// itself for one, else the root of the next level.
pub open spec fn merkle_fold(h: Seq<Seq<u8>>) -> Seq<u8>
    decreases h.len(),
{
    if h.len() == 0 {
        zeros32()
    } else if h.len() == 1 {
        h[0]
    } else {
        merkle_fold(next_level(h))
    }
}

/// Appends the 32 bytes of `a` to `buf`.
pub fn push_arr(buf: &mut Vec<u8>, a: &[u8; 32])
    ensures
        final(buf)@ == old(buf)@ + a@,
{
    push_all(buf, a.as_slice());
}

/// Computes one level up the tree from `cur`.
fn fold_level(cur: &Vec<[u8; 32]>) -> (next: Vec<[u8; 32]>)
    ensures
        arr_views(next@) == next_level(arr_views(cur@)),
{
    let n = cur.len();
    let half = n / 2 + n % 2;
    let mut next: Vec<[u8; 32]> = Vec::new();
    let mut i: usize = 0;
    let ghost target = next_level(arr_views(cur@));
    assert(half == (n + 1) / 2);
    while i < half
        invariant
            n == cur@.len(),
            half == (n + 1) / 2,
            i <= half,
            target == next_level(arr_views(cur@)),
            arr_views(next@) == target.subrange(0, i as int),
            next@.len() == i,
            target.len() == half,
        decreases half - i,
    {
        let mut data: Vec<u8> = Vec::new();
        push_arr(&mut data, &cur[2 * i]);
        let right: [u8; 32] = if 2 * i + 1 < n {
            cur[2 * i + 1]
        } else {
            zero32()
        };
        push_arr(&mut data, &right);
        let h = sha256(data.as_slice());
        proof {
            assert(data@ == Seq::<u8>::empty() + cur@[2 * i as int]@ + right@);
            assert(Seq::<u8>::empty() + cur@[2 * i as int]@ =~= cur@[2 * i as int]@);
            assert(arr_views(cur@)[2 * i as int] == cur@[2 * i as int]@);
            if 2 * i + 1 < n {
                assert(arr_views(cur@)[2 * i + 1] == cur@[2 * i + 1]@);
            }
            assert(h@ == target[i as int]);
        }
        let ghost old_next = next@;
        next.push(h);
        assert(next@ == old_next.push(h));
        assert forall|j: int| 0 <= j < i + 1 implies arr_views(next@)[j] == target.subrange(0, i + 1)[j] by {
            if j < i {
                assert(arr_views(old_next)[j] == target.subrange(0, i as int)[j]);
                assert(next@[j] == old_next[j]);
            } else {
                assert(next@[j] == h);
            }
        }
        assert(arr_views(next@) =~= target.subrange(0, i + 1));
        i = i + 1;
    }
    assert(target.subrange(0, half as int) =~= target);
    next
}

/// The Merkle root of `leaves` (32 zero bytes when there is none).
pub fn merkle_root(leaves: Vec<[u8; 32]>) -> (root: [u8; 32])
    ensures
        root@ == merkle_fold(arr_views(leaves@)),
{
    if leaves.len() == 0 {
        return zero32();
    }
    let ghost target = merkle_fold(arr_views(leaves@));
    let mut cur = leaves;
    while cur.len() > 1
        invariant
            cur@.len() >= 1,
            merkle_fold(arr_views(cur@)) == target,
        decreases cur@.len(),
    {
        let next = fold_level(&cur);
        assert(arr_views(next@).len() == next@.len());
        assert(arr_views(cur@).len() == cur@.len());
        cur = next;
    }
    cur[0]
}

/// Byte strings in non-decreasing lexicographic order.
pub open spec fn sorted_le(s: Seq<Seq<u8>>) -> bool {
    forall|a: int, b: int| 0 <= a < b < s.len() ==> !seq_lt(#[trigger] s[b], #[trigger] s[a])
}

/// The 32-byte values of `v` in non-decreasing lexicographic order;
/// equal values keep their order.
pub fn sort_hashes(v: Vec<[u8; 32]>) -> (out: Vec<[u8; 32]>)
    ensures
        sorted_le(arr_views(out@)),
        out@.to_multiset() == v@.to_multiset(),
        out@.len() == v@.len(),
{
    let mut out: Vec<[u8; 32]> = Vec::new();
    let mut i: usize = 0;
    assert(out@ =~= v@.subrange(0, 0));
    while i < v.len()
        invariant
            i <= v@.len(),
            sorted_le(arr_views(out@)),
            out@.to_multiset() == v@.subrange(0, i as int).to_multiset(),
            out@.len() == i,
        decreases v@.len() - i,
    {
        let e = v[i];
        let mut pos: usize = 0;
        while pos < out.len() && !bytes_lt(e.as_slice(), out[pos].as_slice())
            invariant
                pos <= out@.len(),
                forall|j: int| 0 <= j < pos ==> !seq_lt(e@, (#[trigger] out@[j])@),
            decreases out@.len() - pos,
        {
            pos = pos + 1;
        }
        let ghost before = out@;
        proof {
            assert forall|j: int| pos <= j < before.len() implies !seq_lt((#[trigger] before[j])@, e@) by {
                assert(seq_lt(e@, before[pos as int]@));
                if j > pos {
                    assert(arr_views(before)[pos as int] == before[pos as int]@);
                    assert(arr_views(before)[j] == before[j]@);
                    assert(!seq_lt(before[j]@, before[pos as int]@));
                    lemma_seq_lt_total(before[j]@, before[pos as int]@);
                    if seq_lt(before[pos as int]@, before[j]@) {
                        lemma_seq_lt_transitive(e@, before[pos as int]@, before[j]@);
                    }
                }
                lemma_seq_lt_asymmetric(e@, before[j]@);
            }
        }
        out.insert(pos, e);
        proof {
            assert(out@ == before.insert(pos as int, e));
            assert forall|a: int, b: int| 0 <= a < b < arr_views(out@).len() implies !seq_lt(
                #[trigger] arr_views(out@)[b],
                #[trigger] arr_views(out@)[a],
            ) by {
                assert(arr_views(out@)[a] == out@[a]@);
                assert(arr_views(out@)[b] == out@[b]@);
                if a < pos && b == pos {
                    assert(out@[a] == before[a]);
                    assert(out@[b] == e);
                    assert(!seq_lt(e@, before[a]@));
                } else if a < pos && b > pos {
                    assert(out@[b] == before[b - 1]);
                    assert(out@[a] == before[a]);
                    assert(arr_views(before)[a] == before[a]@);
                    assert(arr_views(before)[b - 1] == before[b - 1]@);
                } else if a == pos {
                    assert(out@[b] == before[b - 1]);
                    assert(out@[a] == e);
                    assert(!seq_lt(before[b - 1]@, e@));
                } else if a < pos {
                    assert(out@[a] == before[a]);
                    assert(out@[b] == before[b]);
                    assert(arr_views(before)[a] == before[a]@);
                    assert(arr_views(before)[b] == before[b]@);
                } else {
                    assert(out@[a] == before[a - 1]);
                    assert(out@[b] == before[b - 1]);
                    assert(arr_views(before)[a - 1] == before[a - 1]@);
                    assert(arr_views(before)[b - 1] == before[b - 1]@);
                }
            }
            assert(v@.subrange(0, i + 1) =~= v@.subrange(0, i as int).push(e));
            vstd::seq_lib::to_multiset_insert(before, pos as int, e);
            vstd::seq_lib::to_multiset_build(v@.subrange(0, i as int), e);
            assert(out@.to_multiset() == before.to_multiset().insert(e));
        }
        i = i + 1;
    }
    assert(v@.subrange(0, i as int) =~= v@);
    out
}

} // verus!
