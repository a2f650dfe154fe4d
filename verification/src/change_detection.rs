//! Content fingerprinting: hashing file contents into stable hex digests and
//! assembling the sorted fingerprint list of a directory tree.
//!
//! The digest is the first 64 bytes of a wide, extendable-output hash of the
//! content, rendered as lowercase hex. Content can be fed either all at once
//! (the memory-mapped strategy, which hashes the region with internal
//! parallelism) or incrementally through a fixed-size buffer (the buffered
//! streaming strategy); both are proved to yield the digest of the same
//! content function, so digests from either path compare interchangeably.

use vstd::prelude::*;
use vstd::multiset::Multiset;
use vstd::relations::{sorted_by, total_ordering};
use vstd::seq_lib::lemma_sorted_unique;

use crate::text::{lex_leq, lemma_lex_leq_antisymmetric, lemma_lex_leq_total,
    lemma_lex_leq_transitive, spec_digit_char, str_lex_leq};

verus! {

// ---------------------------------------------------------------------------
// The hash function, taken on trust from its implementation
// ---------------------------------------------------------------------------

#[verifier::external_type_specification]
#[verifier::external_body]
pub struct ExBlake3Hasher(blake3::Hasher);

/// The bytes absorbed so far by a hash state.
pub uninterp spec fn hasher_fed(h: blake3::Hasher) -> Seq<u8>;

/// The first 64 bytes of the extendable output of the hash over `data`.
/// The output is a function of the input bytes alone.
pub uninterp spec fn spec_blake3_xof(data: Seq<u8>) -> Seq<u8>;

/// Relies on `blake3::Hasher::new`: a fresh state has absorbed nothing.
#[verifier::external_body]
fn hasher_new() -> (h: blake3::Hasher)
    ensures
        hasher_fed(h) == Seq::<u8>::empty(),
{
    blake3::Hasher::new()
}

/// Relies on `blake3::Hasher::update`: appends the input to the absorbed
/// bytes.
#[verifier::external_body]
fn hasher_update(h: &mut blake3::Hasher, data: &[u8])
    ensures
        hasher_fed(*final(h)) == hasher_fed(*old(h)) + data@,
{
    h.update(data);
}

/// Relies on `blake3::Hasher::update_rayon`: hashes with internal
/// parallelism, absorbing exactly the same bytes as `update` would.
#[verifier::external_body]
fn hasher_update_rayon(h: &mut blake3::Hasher, data: &[u8])
    ensures
        hasher_fed(*final(h)) == hasher_fed(*old(h)) + data@,
{
    h.update_rayon(data);
}

/// Relies on `blake3::Hasher::finalize_xof` and `blake3::OutputReader::fill`:
/// reads the first 64 bytes of the extendable output of the hash over the
/// absorbed bytes, a value determined by those bytes alone.
#[verifier::external_body]
fn hasher_xof_64(h: &blake3::Hasher) -> (r: Vec<u8>)
    ensures
        r@ == spec_blake3_xof(hasher_fed(*h)),
        r@.len() == 64,
{
    let mut reader = h.finalize_xof();
    let mut block = [0u8; 64];
    reader.fill(&mut block);
    block.to_vec()
}

// ---------------------------------------------------------------------------
// Lowercase hex encoding
// ---------------------------------------------------------------------------

/// The lowercase hex character for a value below 16.
pub open spec fn spec_hex_digit(d: int) -> char {
    if d < 10 {
        spec_digit_char(d)
    } else if d == 10 {
        'a'
    } else if d == 11 {
        'b'
    } else if d == 12 {
        'c'
    } else if d == 13 {
        'd'
    } else if d == 14 {
        'e'
    } else {
        'f'
    }
}

/// Lowercase hex encoding: two characters per byte, high nibble first, in
/// order of the bytes.
pub open spec fn spec_hex_lower(bytes: Seq<u8>) -> Seq<char>
    decreases bytes.len(),
{
    if bytes.len() == 0 {
        Seq::<char>::empty()
    } else {
        seq![
            spec_hex_digit(bytes[0] as int / 16),
            spec_hex_digit(bytes[0] as int % 16),
        ] + spec_hex_lower(bytes.drop_first())
    }
}

/// Relies on `hex::encode`: renders each byte as two lowercase hex
/// characters, high nibble first, in order.
#[verifier::external_body]
fn hex_encode(bytes: &Vec<u8>) -> (r: String)
    ensures
        r@ == spec_hex_lower(bytes@),
{
    hex::encode(bytes)
}

// ---------------------------------------------------------------------------
// The digest pipeline
// ---------------------------------------------------------------------------

/// The digest of a byte content: the lowercase hex rendering of the first
/// 64 bytes of the extendable hash output.
pub open spec fn spec_digest(data: Seq<u8>) -> Seq<char> {
    spec_hex_lower(spec_blake3_xof(data))
}

/// An incremental content hasher. Feed the content in any pieces, in order;
/// the digest depends only on the concatenation of the pieces.
pub struct FingerprintHasher {
    inner: blake3::Hasher,
}

impl FingerprintHasher {
    /// The bytes fed so far.
    pub closed spec fn bytes_fed(&self) -> Seq<u8> {
        hasher_fed(self.inner)
    }

    /// A fresh hasher that has seen no bytes.
    pub fn new() -> (r: FingerprintHasher)
        ensures
            r.bytes_fed() == Seq::<u8>::empty(),
    {
        FingerprintHasher { inner: hasher_new() }
    }

    /// Feeds one piece of content.
    pub fn feed(&mut self, chunk: &[u8])
        ensures
            final(self).bytes_fed() == old(self).bytes_fed() + chunk@,
    {
        hasher_update(&mut self.inner, chunk);
    }

    /// Feeds one piece of content, hashing it with internal parallelism.
    pub fn feed_parallel(&mut self, chunk: &[u8])
        ensures
            final(self).bytes_fed() == old(self).bytes_fed() + chunk@,
    {
        hasher_update_rayon(&mut self.inner, chunk);
    }

    /// The digest of everything fed so far.
    pub fn finish_hex(&self) -> (r: String)
        ensures
            r@ == spec_digest(self.bytes_fed()),
    {
        let out = hasher_xof_64(&self.inner);
        hex_encode(&out)
    }
}

/// The buffer size of the streaming strategy.
pub const STREAM_BUF_LEN: usize = 65536;

/// Hashes content through the buffered streaming strategy: the bytes pass
/// through a fixed-size buffer into the hash. Yields the same digest as
/// [`hash_bytes_mapped`] on the same content.
pub fn hash_bytes_buffered(data: &[u8]) -> (r: String)
    ensures
        r@ == spec_digest(data@),
{
    let mut h = FingerprintHasher::new();
    let len = data.len();
    let mut pos: usize = 0;
    proof {
        assert(Seq::<u8>::empty() + data@.take(0) =~= data@.take(0));
        assert(h.bytes_fed() + data@.take(0) =~= data@.take(0));
    }
    while pos < len
        invariant
            pos <= len,
            len == data@.len(),
            h.bytes_fed() == data@.take(pos as int),
        decreases len - pos,
    {
        let remaining = len - pos;
        let step = if remaining > STREAM_BUF_LEN {
            STREAM_BUF_LEN
        } else {
            remaining
        };
        let chunk = vstd::slice::slice_subrange(data, pos, pos + step);
        h.feed(chunk);
        proof {
            assert(data@.take(pos as int) + data@.subrange(pos as int, pos + step as int)
                =~= data@.take(pos + step as int));
        }
        pos = pos + step;
    }
    proof {
        assert(data@.take(len as int) =~= data@);
    }
    h.finish_hex()
}

/// Hashes content through the memory-mapped strategy: the whole region is
/// handed to the hash, which parallelizes internally. Yields the same digest
/// as [`hash_bytes_buffered`] on the same content.
pub fn hash_bytes_mapped(data: &[u8]) -> (r: String)
    ensures
        r@ == spec_digest(data@),
{
    let mut h = FingerprintHasher::new();
    h.feed_parallel(data);
    proof {
        assert(Seq::<u8>::empty() + data@ =~= data@);
    }
    h.finish_hex()
}

/// Whatever mix of pieces and strategies fed the content, the digest is a
/// function of the concatenated bytes alone: digests produced through the
/// memory-mapped path and the buffered streaming path agree on identical
/// content.
pub proof fn lemma_digest_strategy_agreement(content: Seq<u8>, mapped: Seq<char>, buffered: Seq<char>)
    requires
        mapped == spec_digest(content),
        buffered == spec_digest(content),
    ensures
        mapped == buffered,
{
}

// ---------------------------------------------------------------------------
// Strategy choice
// ---------------------------------------------------------------------------

/// The minimal size, in bytes, at which a file is worth memory-mapping.
pub const MMAP_MIN_LEN: u64 = 16384;

/// How a file's content reaches the hash function.
#[derive(Debug, Clone, Copy, PartialEq, Eq, Structural)]
pub enum HashStrategy {
    /// Read incrementally through a fixed-size buffer.
    Buffered,
    /// Map the whole file read-only, with its length pinned at open time,
    /// and hash the region with internal parallelism.
    Mapped,
}

/// The strategy for a file: mapping is chosen only for a regular file whose
/// size is safely addressable, not empty, and at least [`MMAP_MIN_LEN`];
/// everything else streams through the buffer.
pub open spec fn spec_choose_strategy(is_regular_file: bool, size: u64) -> HashStrategy {
    if !is_regular_file {
        HashStrategy::Buffered
    } else if size > isize::MAX as u64 {
        HashStrategy::Buffered
    } else if size == 0 {
        HashStrategy::Buffered
    } else if size < MMAP_MIN_LEN {
        HashStrategy::Buffered
    } else {
        HashStrategy::Mapped
    }
}

/// Chooses the input strategy for a file, as [`spec_choose_strategy`]
/// describes.
pub fn choose_strategy(is_regular_file: bool, size: u64) -> (r: HashStrategy)
    ensures
        r == spec_choose_strategy(is_regular_file, size),
{
    if !is_regular_file {
        HashStrategy::Buffered
    } else if size > isize::MAX as u64 {
        HashStrategy::Buffered
    } else if size == 0 {
        HashStrategy::Buffered
    } else if size < MMAP_MIN_LEN {
        HashStrategy::Buffered
    } else {
        HashStrategy::Mapped
    }
}

// ---------------------------------------------------------------------------
// Tree fingerprints
// ---------------------------------------------------------------------------

/// The fingerprint of one regular file: its path relative to the tree root
/// and the digest of its content.
#[derive(Debug, Clone)]
pub struct FileFingerprint {
    pub relative_path: String,
    pub digest: String,
}

impl View for FileFingerprint {
    type V = (Seq<char>, Seq<char>);

    open spec fn view(&self) -> (Seq<char>, Seq<char>) {
        (self.relative_path@, self.digest@)
    }
}

impl DeepView for FileFingerprint {
    type V = (Seq<char>, Seq<char>);

    open spec fn deep_view(&self) -> (Seq<char>, Seq<char>) {
        self.view()
    }
}

/// The order on fingerprints: by relative path, with the digest breaking a
/// tie between entries of equal path.
pub open spec fn spec_fp_leq(a: (Seq<char>, Seq<char>), b: (Seq<char>, Seq<char>)) -> bool {
    if a.0 == b.0 {
        lex_leq(a.1, b.1)
    } else {
        lex_leq(a.0, b.0)
    }
}

/// The fingerprint order as a closed-over relation.
pub open spec fn fp_le() -> spec_fn((Seq<char>, Seq<char>), (Seq<char>, Seq<char>)) -> bool {
    |a: (Seq<char>, Seq<char>), b: (Seq<char>, Seq<char>)| spec_fp_leq(a, b)
}

/// The fingerprint order is a total ordering.
pub proof fn lemma_fp_le_total_ordering()
    ensures
        total_ordering(fp_le()),
{
    let r = fp_le();
    assert forall|a: (Seq<char>, Seq<char>)| #[trigger] r(a, a) by {
        lemma_lex_leq_total(a.1, a.1);
    }
    assert forall|a: (Seq<char>, Seq<char>), b: (Seq<char>, Seq<char>)|
        #[trigger] r(a, b) && #[trigger] r(b, a) implies a == b by {
        if a.0 == b.0 {
            lemma_lex_leq_antisymmetric(a.1, b.1);
        } else {
            lemma_lex_leq_antisymmetric(a.0, b.0);
        }
    }
    assert forall|a: (Seq<char>, Seq<char>), b: (Seq<char>, Seq<char>), c: (Seq<char>, Seq<char>)|
        #[trigger] r(a, b) && #[trigger] r(b, c) implies r(a, c) by {
        lemma_fp_leq_transitive(a, b, c);
    }
    assert forall|a: (Seq<char>, Seq<char>), b: (Seq<char>, Seq<char>)|
        #[trigger] r(a, b) || #[trigger] r(b, a) by {
        lemma_fp_leq_total(a, b);
    }
}

/// Any two fingerprints are ordered one way or the other.
pub proof fn lemma_fp_leq_total(a: (Seq<char>, Seq<char>), b: (Seq<char>, Seq<char>))
    ensures
        spec_fp_leq(a, b) || spec_fp_leq(b, a),
{
    if a.0 == b.0 {
        lemma_lex_leq_total(a.1, b.1);
    } else {
        lemma_lex_leq_total(a.0, b.0);
    }
}

proof fn lemma_fp_leq_transitive(a: (Seq<char>, Seq<char>), b: (Seq<char>, Seq<char>), c: (Seq<char>, Seq<char>))
    requires
        spec_fp_leq(a, b),
        spec_fp_leq(b, c),
    ensures
        spec_fp_leq(a, c),
{
    if a.0 == b.0 && b.0 == c.0 {
        lemma_lex_leq_transitive(a.1, b.1, c.1);
    } else if a.0 == b.0 {
    } else if b.0 == c.0 {
    } else {
        lemma_lex_leq_transitive(a.0, b.0, c.0);
        if a.0 == c.0 {
            lemma_lex_leq_antisymmetric(a.0, b.0);
        }
    }
}

/// Compares two fingerprints, as [`spec_fp_leq`] describes.
pub fn fp_leq(a: &FileFingerprint, b: &FileFingerprint) -> (r: bool)
    ensures
        r == spec_fp_leq(a@, b@),
{
    if a.relative_path == b.relative_path {
        str_lex_leq(a.digest.as_str(), b.digest.as_str())
    } else {
        str_lex_leq(a.relative_path.as_str(), b.relative_path.as_str())
    }
}

/// Sorts fingerprints into the canonical order: the result is sorted by
/// path (digest breaking ties) and holds exactly the given fingerprints.
pub fn sort_fingerprints(v: Vec<FileFingerprint>) -> (r: Vec<FileFingerprint>)
    ensures
        sorted_by(r.deep_view(), fp_le()),
        r.deep_view().to_multiset() == v.deep_view().to_multiset(),
{
    broadcast use vstd::seq_lib::group_to_multiset_ensures;

    let mut src = v;
    let mut out: Vec<FileFingerprint> = Vec::new();
    proof {
        assert(out.deep_view().to_multiset().add(src.deep_view().to_multiset())
            =~= v.deep_view().to_multiset());
    }
    while src.len() > 0
        invariant
            out.deep_view().to_multiset().add(src.deep_view().to_multiset())
                == v.deep_view().to_multiset(),
            sorted_by(out.deep_view(), fp_le()),
            forall|x: int, y: int|
                0 <= x < out.deep_view().len() && 0 <= y < src.deep_view().len()
                    ==> spec_fp_leq(#[trigger] out.deep_view()[x], #[trigger] src.deep_view()[y]),
        decreases src.len(),
    {
        let ghost src_dv_before = src.deep_view();
        let ghost out_dv_before = out.deep_view();
        let mut m: usize = 0;
        let mut i: usize = 1;
        proof {
            lemma_fp_leq_total(src.deep_view()[0], src.deep_view()[0]);
        }
        while i < src.len()
            invariant
                src.len() > 0,
                m < i,
                i <= src.len(),
                src.deep_view() == src_dv_before,
                forall|k: int| 0 <= k < i
                    ==> spec_fp_leq(src.deep_view()[m as int], #[trigger] src.deep_view()[k]),
            decreases src.len() - i,
        {
            if fp_leq(&src[i], &src[m]) {
                proof {
                    assert forall|k: int| 0 <= k < i + 1 implies
                        spec_fp_leq(src.deep_view()[i as int], #[trigger] src.deep_view()[k]) by {
                        if k < i {
                            lemma_fp_leq_transitive(
                                src.deep_view()[i as int],
                                src.deep_view()[m as int],
                                src.deep_view()[k],
                            );
                        } else {
                            lemma_fp_leq_total(src.deep_view()[i as int], src.deep_view()[i as int]);
                        }
                    }
                }
                m = i;
            } else {
                proof {
                    lemma_fp_leq_total(src.deep_view()[m as int], src.deep_view()[i as int]);
                    assert forall|k: int| 0 <= k < i + 1 implies
                        spec_fp_leq(src.deep_view()[m as int], #[trigger] src.deep_view()[k]) by {}
                }
            }
            i = i + 1;
        }
        let e = src.remove(m);
        out.push(e);
        proof {
            let edv = e.deep_view();
            assert(edv == src_dv_before[m as int]);
            assert(src.deep_view() =~= src_dv_before.remove(m as int));
            assert(out.deep_view() =~= out_dv_before.push(edv));
            // the chosen minimum keeps the output sorted and below the rest
            assert forall|x: int, y: int|
                0 <= x < y < out.deep_view().len() implies
                #[trigger] fp_le()(out.deep_view()[x], out.deep_view()[y]) by {
                if y < out.deep_view().len() - 1 {
                    assert(fp_le()(out_dv_before[x], out_dv_before[y]));
                } else {
                    assert(spec_fp_leq(out_dv_before[x], src_dv_before[m as int]));
                }
            }
            assert forall|x: int, y: int|
                0 <= x < out.deep_view().len() && 0 <= y < src.deep_view().len() implies
                spec_fp_leq(#[trigger] out.deep_view()[x], #[trigger] src.deep_view()[y]) by {
                let sy = src.deep_view()[y];
                let before_idx: int = if y < m { y } else { y + 1 };
                assert(sy == src_dv_before[before_idx]);
                if x < out.deep_view().len() - 1 {
                    assert(spec_fp_leq(out_dv_before[x], sy));
                } else {
                    assert(spec_fp_leq(src_dv_before[m as int], sy));
                }
            }
            // the extracted element moves between the two multisets
            src_dv_before.to_multiset_ensures();
            out_dv_before.to_multiset_ensures();
            assert(src_dv_before.contains(src_dv_before[m as int]));
            assert(src_dv_before.to_multiset().count(edv) > 0);
            lemma_multiset_shift(
                out_dv_before.to_multiset(),
                src_dv_before.to_multiset(),
                edv,
            );
            assert(out_dv_before.push(edv).to_multiset() =~= out_dv_before.to_multiset().insert(edv));
            assert(src_dv_before.remove(m as int).to_multiset()
                =~= src_dv_before.to_multiset().remove(edv));
            assert(out.deep_view().to_multiset() == out_dv_before.to_multiset().insert(edv));
            assert(src.deep_view().to_multiset() == src_dv_before.to_multiset().remove(edv));
        }
    }
    proof {
        assert(src.deep_view().to_multiset() =~= Multiset::<(Seq<char>, Seq<char>)>::empty());
        assert(out.deep_view().to_multiset().add(Multiset::<(Seq<char>, Seq<char>)>::empty())
            =~= out.deep_view().to_multiset());
    }
    out
}

proof fn lemma_multiset_shift(
    a: Multiset<(Seq<char>, Seq<char>)>,
    b: Multiset<(Seq<char>, Seq<char>)>,
    x: (Seq<char>, Seq<char>),
)
    requires
        b.count(x) > 0,
    ensures
        a.insert(x).add(b.remove(x)) == a.add(b),
{
    assert(a.insert(x).add(b.remove(x)) =~= a.add(b));
}

/// Fingerprinting an unchanged tree is deterministic: however two walks of
/// the same tree ordered the same files, once each walk's fingerprints are
/// sorted into the canonical order the two lists are identical.
pub proof fn lemma_fingerprint_determinism(
    walk1: Seq<(Seq<char>, Seq<char>)>,
    walk2: Seq<(Seq<char>, Seq<char>)>,
    sorted1: Seq<(Seq<char>, Seq<char>)>,
    sorted2: Seq<(Seq<char>, Seq<char>)>,
)
    requires
        walk1.to_multiset() == walk2.to_multiset(),
        sorted_by(sorted1, fp_le()),
        sorted_by(sorted2, fp_le()),
        sorted1.to_multiset() == walk1.to_multiset(),
        sorted2.to_multiset() == walk2.to_multiset(),
    ensures
        sorted1 == sorted2,
{
    lemma_fp_le_total_ordering();
    lemma_sorted_unique(sorted1, sorted2, fp_le());
}

} // verus!
