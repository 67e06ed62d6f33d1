//! Byte-level helpers: fixed-width comparison, little-endian encoding,
//! lexicographic order on byte strings and a sort by that order.

use vstd::prelude::*;

verus! {

/// Compares two 32-byte arrays element by element.
pub fn bytes32_eq(a: &[u8; 32], b: &[u8; 32]) -> (r: bool)
    ensures
        r == (a@ == b@),
{
    let mut i: usize = 0;
    while i < 32
        invariant
            i <= 32,
            a@.len() == 32,
            b@.len() == 32,
            forall|j: int| 0 <= j < i ==> a@[j] == b@[j],
        decreases 32 - i,
    {
        if a[i] != b[i] {
            assert(a@[i as int] != b@[i as int]);
            return false;
        }
        i = i + 1;
    }
    assert(a@ =~= b@);
    true
}

/// Compares two byte strings element by element.
pub fn bytes_eq(a: &[u8], b: &[u8]) -> (r: bool)
    ensures
        r == (a@ == b@),
{
    if a.len() != b.len() {
        return false;
    }
    let mut i: usize = 0;
    while i < a.len()
        invariant
            i <= a@.len(),
            a@.len() == b@.len(),
            forall|j: int| 0 <= j < i ==> a@[j] == b@[j],
        decreases a@.len() - i,
    {
        if a[i] != b[i] {
            assert(a@[i as int] != b@[i as int]);
            return false;
        }
        i = i + 1;
    }
    assert(a@ =~= b@);
    true
}

/// Whether all 32 bytes are zero.
pub fn bytes32_is_zero(a: &[u8; 32]) -> (r: bool)
    ensures
        r == (forall|j: int| 0 <= j < 32 ==> a@[j] == 0),
{
    let mut i: usize = 0;
    while i < 32
        invariant
            i <= 32,
            a@.len() == 32,
            forall|j: int| 0 <= j < i ==> a@[j] == 0,
        decreases 32 - i,
    {
        if a[i] != 0 {
            return false;
        }
        i = i + 1;
    }
    true
}

/// The sequence of 32 zero bytes.
pub open spec fn zeros32() -> Seq<u8> {
    Seq::new(32, |i: int| 0u8)
}

/// The 32-byte array of zeros.
pub fn zero32() -> (a: [u8; 32])
    ensures
        a@ == zeros32(),
{
    let a = [0u8; 32];
    assert(a@ =~= zeros32());
    a
}

/// Appends every byte of `data` to `buf`.
pub fn push_all(buf: &mut Vec<u8>, data: &[u8])
    ensures
        final(buf)@ == old(buf)@ + data@,
{
    let ghost start = buf@;
    let mut i: usize = 0;
    while i < data.len()
        invariant
            i <= data@.len(),
            buf@ == start + data@.subrange(0, i as int),
        decreases data@.len() - i,
    {
        buf.push(data[i]);
        assert(data@.subrange(0, i + 1) =~= data@.subrange(0, i as int).push(data@[i as int]));
        i = i + 1;
    }
    assert(data@.subrange(0, data@.len() as int) =~= data@);
}

/// The `n` least significant bytes of `x`, least significant first.
pub open spec fn le_bytes(x: nat, n: nat) -> Seq<u8>
    decreases n,
{
    if n == 0 {
        Seq::empty()
    } else {
        seq![(x % 256) as u8] + le_bytes(x / 256, (n - 1) as nat)
    }
}

/// Appends the `n` least significant bytes of `x` to `buf`, least significant first.
pub fn push_le(buf: &mut Vec<u8>, x: u128, n: usize)
    ensures
        final(buf)@ == old(buf)@ + le_bytes(x as nat, n as nat),
{
    let ghost start = buf@;
    let mut v: u128 = x;
    let mut i: usize = 0;
    while i < n
        invariant
            i <= n,
            start + le_bytes(x as nat, n as nat) == buf@ + le_bytes(v as nat, (n - i) as nat),
        decreases n - i,
    {
        let ghost before = buf@;
        let b: u8 = (v % 256) as u8;
        buf.push(b);
        assert(le_bytes(v as nat, (n - i) as nat) == seq![b] + le_bytes((v / 256) as nat, (n - i
            - 1) as nat));
        assert(before + le_bytes(v as nat, (n - i) as nat) =~= buf@ + le_bytes(
            (v / 256) as nat,
            (n - i - 1) as nat,
        ));
        v = v / 256;
        i = i + 1;
    }
    assert(le_bytes(v as nat, 0) =~= Seq::<u8>::empty());
    assert(buf@ + Seq::<u8>::empty() =~= buf@);
}

/// Decodes `bytes` as a little-endian number.
pub open spec fn le_value(bytes: Seq<u8>) -> nat
    decreases bytes.len(),
{
    if bytes.len() == 0 {
        0
    } else {
        bytes[0] as nat + 256 * le_value(bytes.drop_first())
    }
}

/// Reads the 16 bytes of `data` from `start` as a little-endian `u128`.
pub fn read_u128_le(data: &[u8], start: usize) -> (v: u128)
    requires
        start + 16 <= data@.len(),
    ensures
        v as nat == le_value(data@.subrange(start as int, start + 16)),
{
    read_le(data, start, 16)
}

/// Reads the 8 bytes of `data` from `start` as a little-endian `u64`.
pub fn read_u64_le(data: &[u8], start: usize) -> (v: u64)
    requires
        start + 8 <= data@.len(),
    ensures
        v as nat == le_value(data@.subrange(start as int, start + 8)),
{
    proof {
        lemma_le_value_bound(data@.subrange(start as int, start + 8));
        lemma_pow256_le16(8);
    }
    read_le(data, start, 8) as u64
}

/// `256` raised to the power `k`.
pub open spec fn pow256(k: nat) -> nat
    decreases k,
{
    if k == 0 {
        1
    } else {
        256 * pow256((k - 1) as nat)
    }
}

/// A little-endian value of `n` bytes is below `256^n`.
pub proof fn lemma_le_value_bound(s: Seq<u8>)
    ensures
        le_value(s) < pow256(s.len()),
    decreases s.len(),
{
    if s.len() > 0 {
        lemma_le_value_bound(s.drop_first());
    }
}

/// `256^k` is at most `2^128` for `k <= 16`.
proof fn lemma_pow256_le16(k: nat)
    requires
        k <= 16,
    ensures
        pow256(k) <= pow256(16),
        pow256(16) == 0x1_0000_0000_0000_0000_0000_0000_0000_0000,
        pow256(8) == 0x1_0000_0000_0000_0000,
    decreases 16 - k,
{
    reveal_with_fuel(pow256, 17);
    if k < 16 {
        lemma_pow256_le16(k + 1);
    }
}

/// Reads `n` bytes of `data` from `start` as a little-endian number.
fn read_le(data: &[u8], start: usize, n: usize) -> (v: u128)
    requires
        n <= 16,
        start + n <= data@.len(),
    ensures
        v as nat == le_value(data@.subrange(start as int, start + n)),
{
    let mut v: u128 = 0;
    let mut i: usize = n;
    let len = data.len();
    while i > 0
        invariant
            i <= n <= 16,
            len == data@.len(),
            start + n <= data@.len(),
            v as nat == le_value(data@.subrange(start + i, start + n)),
            v < pow256((n - i) as nat),
        decreases i,
    {
        let ghost old_v = v;
        let ghost s = data@.subrange(start + i - 1, start + n);
        assert(s.drop_first() =~= data@.subrange(start + i, start + n));
        proof {
            lemma_pow256_le16((n - i + 1) as nat);
        }
        let b = data[start + (i - 1)];
        assert(pow256((n - i + 1) as nat) == 256 * pow256((n - i) as nat));
        v = v * 256 + b as u128;
        i = i - 1;
    }
    v
}

/// Lexicographic order on byte strings: the first differing byte decides,
/// and a proper prefix comes first.
pub open spec fn seq_lt(a: Seq<u8>, b: Seq<u8>) -> bool
    decreases a.len(),
{
    if a.len() == 0 {
        b.len() > 0
    } else if b.len() == 0 {
        false
    } else if a[0] != b[0] {
        a[0] < b[0]
    } else {
        seq_lt(a.drop_first(), b.drop_first())
    }
}

pub proof fn lemma_seq_lt_irreflexive(a: Seq<u8>)
    ensures
        !seq_lt(a, a),
    decreases a.len(),
{
    if a.len() > 0 {
        lemma_seq_lt_irreflexive(a.drop_first());
    }
}

pub proof fn lemma_seq_lt_transitive(a: Seq<u8>, b: Seq<u8>, c: Seq<u8>)
    requires
        seq_lt(a, b),
        seq_lt(b, c),
    ensures
        seq_lt(a, c),
    decreases a.len(),
{
    if a.len() > 0 && b.len() > 0 && c.len() > 0 {
        if a[0] == b[0] && b[0] == c[0] {
            lemma_seq_lt_transitive(a.drop_first(), b.drop_first(), c.drop_first());
        }
    }
}

pub proof fn lemma_seq_lt_total(a: Seq<u8>, b: Seq<u8>)
    ensures
        a == b || seq_lt(a, b) || seq_lt(b, a),
    decreases a.len(),
{
    if a.len() > 0 && b.len() > 0 {
        if a[0] == b[0] {
            lemma_seq_lt_total(a.drop_first(), b.drop_first());
            if a.drop_first() == b.drop_first() {
                assert(a =~= seq![a[0]] + a.drop_first());
                assert(b =~= seq![b[0]] + b.drop_first());
            }
        }
    } else if a.len() == 0 && b.len() == 0 {
        assert(a =~= b);
    }
}

pub proof fn lemma_seq_lt_asymmetric(a: Seq<u8>, b: Seq<u8>)
    requires
        seq_lt(a, b),
    ensures
        !seq_lt(b, a),
{
    if seq_lt(b, a) {
        lemma_seq_lt_transitive(a, b, a);
        lemma_seq_lt_irreflexive(a);
    }
}

/// Lexicographic comparison of two byte strings.
pub fn bytes_lt(a: &[u8], b: &[u8]) -> (r: bool)
    ensures
        r == seq_lt(a@, b@),
{
    let mut i: usize = 0;
    assert(a@.subrange(0, a@.len() as int) =~= a@);
    assert(b@.subrange(0, b@.len() as int) =~= b@);
    while i < a.len() && i < b.len()
        invariant
            i <= a@.len(),
            i <= b@.len(),
            a@.subrange(0, i as int) == b@.subrange(0, i as int),
            seq_lt(a@, b@) == seq_lt(a@.subrange(i as int, a@.len() as int), b@.subrange(i as int, b@.len() as int)),
        decreases a@.len() - i,
    {
        let ghost sa = a@.subrange(i as int, a@.len() as int);
        let ghost sb = b@.subrange(i as int, b@.len() as int);
        if a[i] != b[i] {
            return a[i] < b[i];
        }
        assert(sa.drop_first() =~= a@.subrange(i + 1, a@.len() as int));
        assert(sb.drop_first() =~= b@.subrange(i + 1, b@.len() as int));
        assert(a@.subrange(0, i + 1) =~= a@.subrange(0, i as int).push(a@[i as int]));
        assert(b@.subrange(0, i + 1) =~= b@.subrange(0, i as int).push(b@[i as int]));
        i = i + 1;
    }
    i < b.len()
}

} // verus!
