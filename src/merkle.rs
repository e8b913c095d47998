//! Root of the append-only integrity log: leaves are 32-byte digests, folded
//! pairwise level by level until one remains.
use vstd::prelude::*;

verus! {

/// The SHA-256 digest of `data`.
pub uninterp spec fn sha256_of(data: Seq<u8>) -> Seq<u8>;

/// Relies on sha2's `Sha256::digest`: the digest of `data`, a function of its bytes.
#[verifier::external_body]
fn sha256(data: &[u8]) -> (r: [u8; 32])
    ensures
        r@ == sha256_of(data@),
{
    <sha2::Sha256 as sha2::Digest>::digest(data).into()
}

/// One level up: each pair of neighbours is hashed together; a last node
/// without a partner is hashed alone.
pub open spec fn next_level(level: Seq<Seq<u8>>) -> Seq<Seq<u8>> {
    Seq::new(
        ((level.len() + 1) / 2) as nat,
        |i: int|
            if 2 * i + 1 < level.len() {
                sha256_of(level[2 * i] + level[2 * i + 1])
            } else {
                sha256_of(level[2 * i])
            },
    )
}

/// The root over a level: 32 zero bytes for no leaves, the single node once
/// one remains.
pub open spec fn root_of(level: Seq<Seq<u8>>) -> Seq<u8>
    decreases level.len(),
{
    if level.len() == 0 {
        Seq::new(32, |i: int| 0u8)
    } else if level.len() == 1 {
        level[0]
    } else {
        root_of(next_level(level))
    }
}

/// The bytes of each digest in a sequence.
pub open spec fn digests(level: Seq<[u8; 32]>) -> Seq<Seq<u8>> {
    level.map_values(|d: [u8; 32]| d@)
}

/// `a` followed by `b`.
fn concat_digests(a: &[u8; 32], b: &[u8; 32]) -> (r: Vec<u8>)
    ensures
        r@ == a@ + b@,
{
    let mut out: Vec<u8> = Vec::with_capacity(64);
    let mut i: usize = 0;
    while i < 32
        invariant
            i <= 32,
            out@ == a@.subrange(0, i as int),
        decreases 32 - i,
    {
        out.push(a[i]);
        i = i + 1;
    }
    let mut j: usize = 0;
    while j < 32
        invariant
            j <= 32,
            out@ == a@ + b@.subrange(0, j as int),
        decreases 32 - j,
    {
        out.push(b[j]);
        j = j + 1;
    }
    assert(b@.subrange(0, 32) =~= b@);
    out
}

/// Hashes one level into the next.
fn fold_level(level: &Vec<[u8; 32]>) -> (r: Vec<[u8; 32]>)
    ensures
        r@.len() == (level@.len() + 1) / 2,
        digests(r@) == next_level(digests(level@)),
{
    let ghost lv = digests(level@);
    let n = level.len();
    let m = n / 2 + n % 2;
    let mut next: Vec<[u8; 32]> = Vec::new();
    let mut k: usize = 0;
    while k < m
        invariant
            n == level@.len(),
            lv == digests(level@),
            m == (n + 1) / 2,
            k <= m,
            next@.len() == k,
            forall|j: int| 0 <= j < k ==> (#[trigger] next@[j])@ == next_level(lv)[j],
        decreases m - k,
    {
        let i = 2 * k;
        let h = if i + 1 < n {
            let pair = concat_digests(&level[i], &level[i + 1]);
            sha256(pair.as_slice())
        } else {
            sha256(level[i].as_slice())
        };
        assert(h@ == next_level(lv)[k as int]);
        next.push(h);
        k = k + 1;
    }
    assert(digests(next@) =~= next_level(lv));
    next
}

/// The root of the log over `leaves`, in append order.
pub fn merkle_root(leaves: Vec<[u8; 32]>) -> (r: [u8; 32])
    ensures
        r@ == root_of(digests(leaves@)),
{
    if leaves.len() == 0 {
        let z: [u8; 32] = [0u8; 32];
        assert(z@ =~= Seq::new(32, |i: int| 0u8));
        return z;
    }
    let mut level = leaves;
    while level.len() > 1
        invariant
            level@.len() >= 1,
            root_of(digests(level@)) == root_of(digests(leaves@)),
        decreases level@.len(),
    {
        level = fold_level(&level);
    }
    level[0]
}

} // verus!
