//! Binary Merkle trees over 32-byte chunks: virtual zero-padded subtrees,
//! chunk packing, and length mix-in, as the consensus containers demand.

use vstd::prelude::*;

use crate::hash::{hash_pair, hash_two, sha256_of};
use vstd::arithmetic::power2::{
    pow2, lemma2_to64, lemma2_to64_rest, lemma_pow2_unfold, lemma_pow2_strictly_increases,
};

verus! {

pub proof fn lemma_pow2_le(a: nat, b: nat)
    requires
        a <= b,
    ensures
        pow2(a) <= pow2(b),
{
    if a < b {
        lemma_pow2_strictly_increases(a, b);
    }
}

pub proof fn lemma_pow2_64_bound(e: nat)
    requires
        e <= 63,
    ensures
        pow2(e) <= 0x8000_0000_0000_0000nat,
        pow2(e) >= 1,
{
    lemma_pow2_le(e, 63);
    lemma_pow2_le(0, e);
    lemma2_to64();
    lemma2_to64_rest();
}

/// 2^e as a machine integer.
pub fn pow2_u64(e: u64) -> (r: u64)
    requires
        e <= 63,
    ensures
        r as nat == pow2(e as nat),
{
    let mut r: u64 = 1;
    let mut i: u64 = 0;
    proof {
        lemma2_to64();
    }
    while i < e
        invariant
            i <= e <= 63,
            r as nat == pow2(i as nat),
        decreases e - i,
    {
        proof {
            lemma_pow2_unfold((i + 1) as nat);
            lemma_pow2_64_bound((i + 1) as nat);
        }
        r = r * 2;
        i = i + 1;
    }
    r
}

/// The least depth whose subtree holds n leaves: ceiling of log2, 0 for n <= 1.
pub open spec fn log2_ceil(n: nat) -> nat
    decreases n,
{
    if n <= 1 {
        0nat
    } else {
        1 + log2_ceil((n + 1) / 2)
    }
}

/// A depth both large enough for n leaves and minimal is the ceiling of log2.
pub proof fn lemma_log2_ceil_char(n: nat, d: nat)
    requires
        1 <= n,
        n <= pow2(d),
        d > 0 ==> pow2((d - 1) as nat) < n,
    ensures
        log2_ceil(n) == d,
    decreases d,
{
    if d == 0 {
        lemma2_to64();
    } else {
        let m = (n + 1) / 2;
        assert(pow2(d) == 2 * pow2((d - 1) as nat)) by {
            lemma_pow2_unfold(d);
        }
        assert(m <= pow2((d - 1) as nat));
        if d > 1 {
            assert(pow2((d - 1) as nat) == 2 * pow2((d - 2) as nat)) by {
                lemma_pow2_unfold((d - 1) as nat);
            }
            assert(pow2((d - 2) as nat) < m);
        }
        assert(1 <= m) by {
            lemma_pow2_64_bound(0);
        }
        lemma_log2_ceil_char(m, (d - 1) as nat);
    }
}

/// The least depth whose subtree holds `limit` leaves.
pub fn depth_for(limit: u64) -> (d: u64)
    requires
        1 <= limit <= 0x8000_0000_0000_0000,
    ensures
        d as nat == log2_ceil(limit as nat),
        d <= 63,
        limit as nat <= pow2(d as nat),
        d > 0 ==> pow2((d - 1) as nat) < limit as nat,
{
    let mut d: u64 = 0;
    let mut p: u64 = 1;
    proof {
        lemma2_to64();
    }
    while p < limit
        invariant
            1 <= limit <= 0x8000_0000_0000_0000,
            d <= 63,
            p as nat == pow2(d as nat),
            d > 0 ==> pow2((d - 1) as nat) < limit as nat,
        decreases 63 - d,
    {
        proof {
            if d >= 63 {
                lemma_pow2_le(63, d as nat);
                lemma2_to64_rest();
            }
            assert(d < 63);
            lemma_pow2_unfold((d + 1) as nat);
            lemma_pow2_64_bound((d + 1) as nat);
        }
        p = p * 2;
        d = d + 1;
    }
    proof {
        if d > 63 {
            lemma_pow2_le(63, (d - 1) as nat);
            lemma2_to64_rest();
        }
        lemma_log2_ceil_char(limit as nat, d as nat);
    }
    d
}

/// A tree deep enough for at most 2^62 leaves is at most 62 levels deep.
pub proof fn lemma_depth_bound(d: nat, limit: nat)
    requires
        limit <= 0x4000_0000_0000_0000nat,
        d > 0 ==> pow2((d - 1) as nat) < limit,
    ensures
        d <= 62,
{
    if d > 62 {
        lemma_pow2_le(62, (d - 1) as nat);
        lemma2_to64_rest();
    }
}

/// The all-zero 32-byte chunk.
pub open spec fn zero_chunk() -> Seq<u8> {
    Seq::new(32, |i: int| 0u8)
}

/// The root of a subtree of the given depth all of whose leaves are zero chunks.
pub open spec fn zero_subtree_root(depth: nat) -> Seq<u8>
    decreases depth,
{
    if depth == 0 {
        zero_chunk()
    } else {
        hash_pair(zero_subtree_root((depth - 1) as nat), zero_subtree_root((depth - 1) as nat))
    }
}

/// A fresh all-zero chunk.
pub fn make_zero_chunk() -> (r: Vec<u8>)
    ensures
        r@ == zero_chunk(),
{
    let mut r: Vec<u8> = Vec::new();
    let mut i: usize = 0;
    while i < 32
        invariant
            i <= 32,
            r@.len() == i,
            forall|j: int| 0 <= j < i ==> r@[j] == 0u8,
        decreases 32 - i,
    {
        r.push(0u8);
        i = i + 1;
    }
    assert(r@ =~= zero_chunk());
    r
}

/// The root of the all-zero subtree of the given depth.
pub fn make_zero_subtree_root(depth: u64) -> (r: Vec<u8>)
    ensures
        r@ == zero_subtree_root(depth as nat),
        r@.len() == 32,
{
    let mut r = make_zero_chunk();
    let mut i: u64 = 0;
    while i < depth
        invariant
            i <= depth,
            r@ == zero_subtree_root(i as nat),
            r@.len() == 32,
        decreases depth - i,
    {
        r = hash_two(&r, &r);
        i = i + 1;
    }
    r
}

/// The views of a sequence of chunk vectors.
pub open spec fn views_of(s: Seq<Vec<u8>>) -> Seq<Seq<u8>> {
    s.map_values(|v: Vec<u8>| v@)
}

/// Every chunk in the window [lo, hi) is 32 bytes long.
pub open spec fn chunks_sized(s: Seq<Vec<u8>>, lo: int, hi: int) -> bool {
    forall|i: int| lo <= i < hi ==> (#[trigger] s[i])@.len() == 32
}

/// The root of a Merkle subtree of the given depth whose first leaves are
/// `chunks` and whose remaining leaves are zero chunks.
pub open spec fn subtree_root(chunks: Seq<Seq<u8>>, depth: nat) -> Seq<u8>
    decreases depth,
{
    if chunks.len() == 0 {
        zero_subtree_root(depth)
    } else if depth == 0 {
        chunks[0]
    } else {
        let half = pow2((depth - 1) as nat) as int;
        let mid = if chunks.len() <= half {
            chunks.len() as int
        } else {
            half
        };
        hash_pair(
            subtree_root(chunks.subrange(0, mid), (depth - 1) as nat),
            subtree_root(chunks.subrange(mid, chunks.len() as int), (depth - 1) as nat),
        )
    }
}

/// The root of the subtree of the given depth over the chunk window [lo, hi),
/// the remaining leaves taken as zero.
pub fn window_subtree_root(chunks: &Vec<Vec<u8>>, lo: usize, hi: usize, depth: u64) -> (r: Vec<u8>)
    requires
        lo <= hi <= chunks@.len(),
        depth <= 62,
        (hi - lo) as nat <= pow2(depth as nat),
        chunks_sized(chunks@, lo as int, hi as int),
    ensures
        r@ == subtree_root(views_of(chunks@).subrange(lo as int, hi as int), depth as nat),
        r@.len() == 32,
    decreases depth,
{
    let ghost window = views_of(chunks@).subrange(lo as int, hi as int);
    if hi == lo {
        assert(window.len() == 0);
        make_zero_subtree_root(depth)
    } else if depth == 0 {
        let r = chunks[lo].clone();
        assert(r@ =~= chunks@[lo as int]@);
        assert(window[0] == chunks@[lo as int]@);
        r
    } else {
        let half = pow2_u64(depth - 1);
        proof {
            lemma_pow2_unfold(depth as nat);
            lemma_pow2_64_bound(depth as nat);
        }
        let mid: usize = if ((hi - lo) as u64) <= half {
            hi
        } else {
            lo + (half as usize)
        };
        let left = window_subtree_root(chunks, lo, mid, depth - 1);
        let right = window_subtree_root(chunks, mid, hi, depth - 1);
        proof {
            let m = (mid - lo) as int;
            assert(views_of(chunks@).subrange(lo as int, mid as int) =~= window.subrange(0, m));
            assert(views_of(chunks@).subrange(mid as int, hi as int) =~= window.subrange(
                m,
                window.len() as int,
            ));
        }
        hash_two(&left, &right)
    }
}

/// The first 8 bytes of the little-endian encoding of a 64-bit integer.
pub open spec fn le_bytes8(x: u64) -> Seq<u8> {
    seq![
        (x % 256) as u8,
        ((x / 256) % 256) as u8,
        ((x / 0x1_0000) % 256) as u8,
        ((x / 0x100_0000) % 256) as u8,
        ((x / 0x1_0000_0000) % 256) as u8,
        ((x / 0x100_0000_0000) % 256) as u8,
        ((x / 0x1_0000_0000_0000) % 256) as u8,
        ((x / 0x100_0000_0000_0000) % 256) as u8,
    ]
}

/// A 32-byte chunk holding the little-endian encoding of a 64-bit integer.
pub open spec fn u64_le_chunk(x: u64) -> Seq<u8> {
    Seq::new(32, |i: int| if i < 8 { le_bytes8(x)[i] } else { 0u8 })
}

/// Pack a 64-bit integer into its 32-byte little-endian chunk.
pub fn make_u64_chunk(x: u64) -> (r: Vec<u8>)
    ensures
        r@ == u64_le_chunk(x),
        r@.len() == 32,
{
    let mut r: Vec<u8> = Vec::new();
    r.push((x % 256) as u8);
    r.push(((x / 256) % 256) as u8);
    r.push(((x / 0x1_0000) % 256) as u8);
    r.push(((x / 0x100_0000) % 256) as u8);
    r.push(((x / 0x1_0000_0000) % 256) as u8);
    r.push(((x / 0x100_0000_0000) % 256) as u8);
    r.push(((x / 0x1_0000_0000_0000) % 256) as u8);
    r.push(((x / 0x100_0000_0000_0000) % 256) as u8);
    let mut i: usize = 8;
    while i < 32
        invariant
            8 <= i <= 32,
            r@.len() == i,
            r@.subrange(0, 8) =~= le_bytes8(x),
            forall|j: int| 8 <= j < i ==> r@[j] == 0u8,
        decreases 32 - i,
    {
        r.push(0u8);
        i = i + 1;
    }
    assert(r@ =~= u64_le_chunk(x));
    r
}

/// A 32-byte chunk holding a boolean as its first byte.
pub open spec fn bool_chunk(b: bool) -> Seq<u8> {
    Seq::new(32, |i: int| if i == 0 && b { 1u8 } else { 0u8 })
}

/// Pack a boolean into its 32-byte chunk.
pub fn make_bool_chunk(b: bool) -> (r: Vec<u8>)
    ensures
        r@ == bool_chunk(b),
        r@.len() == 32,
{
    let mut r = make_zero_chunk();
    if b {
        r[0] = 1u8;
    }
    assert(r@ =~= bool_chunk(b));
    r
}

/// The number of 32-byte chunks needed to hold this many bytes.
pub open spec fn chunk_count(len: nat) -> nat {
    (len + 31) / 32
}

/// A byte sequence split into 32-byte chunks, the last zero-padded.
pub open spec fn pack_chunks(bytes: Seq<u8>) -> Seq<Seq<u8>> {
    Seq::new(
        chunk_count(bytes.len()),
        |c: int| Seq::new(32, |j: int| if 32 * c + j < bytes.len() { bytes[32 * c + j] } else { 0u8 }),
    )
}

/// Split a byte vector into zero-padded 32-byte chunks.
pub fn make_packed_chunks(bytes: &Vec<u8>) -> (r: Vec<Vec<u8>>)
    ensures
        views_of(r@) == pack_chunks(bytes@),
        chunks_sized(r@, 0, r@.len() as int),
        r@.len() == chunk_count(bytes@.len() as nat),
{
    let n = bytes.len();
    let n_chunks = n / 32 + (if n % 32 == 0 { 0 } else { 1 });
    assert(n_chunks == chunk_count(n as nat));
    let mut r: Vec<Vec<u8>> = Vec::new();
    let mut c: usize = 0;
    while c < n_chunks
        invariant
            c <= n_chunks,
            n == bytes@.len(),
            n_chunks == chunk_count(n as nat),
            r@.len() == c,
            forall|k: int| 0 <= k < c ==> (#[trigger] r@[k])@ == pack_chunks(bytes@)[k],
            chunks_sized(r@, 0, c as int),
        decreases n_chunks - c,
    {
        let mut chunk: Vec<u8> = Vec::new();
        let mut j: usize = 0;
        while j < 32
            invariant
                j <= 32,
                c < n_chunks,
                n == bytes@.len(),
                n_chunks == chunk_count(n as nat),
                chunk@.len() == j,
                forall|t: int|
                    0 <= t < j ==> chunk@[t] == (if 32 * c + t < n {
                        bytes@[32 * (c as int) + t]
                    } else {
                        0u8
                    }),
            decreases 32 - j,
        {
            if 32 * c + j < n {
                chunk.push(bytes[32 * c + j]);
            } else {
                chunk.push(0u8);
            }
            j = j + 1;
        }
        assert(chunk@ =~= pack_chunks(bytes@)[c as int]);
        r.push(chunk);
        c = c + 1;
    }
    assert(views_of(r@) =~~= pack_chunks(bytes@));
    r
}

/// A list root: the subtree root of the element roots with the list length
/// mixed in.
pub open spec fn mix_in_length(root: Seq<u8>, len: u64) -> Seq<u8> {
    hash_pair(root, u64_le_chunk(len))
}

/// Mix the length of a list into its contents root.
pub fn mix_length(root: &Vec<u8>, len: u64) -> (r: Vec<u8>)
    requires
        root@.len() == 32,
    ensures
        r@ == mix_in_length(root@, len),
        r@.len() == 32,
{
    let len_chunk = make_u64_chunk(len);
    hash_two(root, &len_chunk)
}

} // verus!
