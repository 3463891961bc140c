//! Multihashes in hex form, and checking downloaded content against them.
//!
//! A source hash is the hex form of a multihash: the multihash code of the algorithm, the
//! digest size and the digest. Only SHA-256 (code `0x12`) is supported.

use vstd::prelude::*;

use multihash_codetable::MultihashDigest;
use multihash_derive::Hasher;

verus! {

/// `multihash_codetable::Sha2_256`: an incremental SHA-256 hasher.
#[verifier::external_type_specification]
#[verifier::external_body]
pub struct ExSha2_256(multihash_codetable::Sha2_256);

/// `hex::FromHexError`: why a text is not hex.
#[verifier::external_type_specification]
#[verifier::external_body]
pub struct ExFromHexError(hex::FromHexError);

/// `multihash::Error`: why bytes are not a multihash.
#[verifier::external_type_specification]
#[verifier::external_body]
pub struct ExMultihashError(multihash::Error);

/// The multihash code of SHA-256.
pub const SHA256_CODE: u64 = 0x12;

/// The value of a hex digit (either case).
pub open spec fn hex_value(c: char) -> int {
    if '0' <= c <= '9' {
        c as int - '0' as int
    } else if 'a' <= c <= 'f' {
        c as int - 'a' as int + 10
    } else if 'A' <= c <= 'F' {
        c as int - 'A' as int + 10
    } else {
        -1
    }
}

/// Whether `c` is a hex digit.
pub open spec fn is_hex_digit(c: char) -> bool {
    hex_value(c) >= 0
}

/// What `hex::decode` makes of a text: for an even number of hex digits, the bytes that each
/// two of them stand for; otherwise nothing.
pub open spec fn spec_hex_decode(s: Seq<char>) -> Option<Seq<u8>> {
    if s.len() % 2 == 0 && forall|i: int| 0 <= i < s.len() ==> is_hex_digit(#[trigger] s[i]) {
        Some(Seq::new((s.len() / 2) as nat, |k: int| (16 * hex_value(s[2 * k]) + hex_value(s[2 * k + 1])) as u8))
    } else {
        None
    }
}

/// The lowercase hex digit for a value below 16.
pub open spec fn lower_hex_digit(d: int) -> char {
    "0123456789abcdef"@[d]
}

/// What `hex::encode` makes of bytes: two lowercase hex digits per byte, high half first.
pub open spec fn spec_hex_encode(b: Seq<u8>) -> Seq<char> {
    Seq::new(
        2 * b.len(),
        |i: int|
            if i % 2 == 0 {
                lower_hex_digit(b[i / 2] as int / 16)
            } else {
                lower_hex_digit(b[i / 2] as int % 16)
            },
    )
}

/// `hex::decode` on the bytes of `s`. Claims what the crate's documentation and source say:
/// an even number of hex digits gives their bytes; anything else fails.
#[verifier::external_body]
fn hex_decode(s: &str) -> (r: Result<Vec<u8>, hex::FromHexError>)
    ensures
        match r {
            Ok(b) => spec_hex_decode(s@) == Some(b@),
            Err(_) => spec_hex_decode(s@) is None,
        },
{
    hex::decode(s)
}

/// `hex::encode`: two lowercase hex digits per byte.
#[verifier::external_body]
fn hex_encode(b: &[u8]) -> (r: String)
    ensures
        r@ == spec_hex_encode(b@),
{
    hex::encode(b)
}

/// What `Multihash::<64>::from_bytes` reads from bytes: the code and the digest, if the bytes
/// are exactly one multihash with a digest of at most 64 bytes.
pub uninterp spec fn spec_multihash_from_bytes(b: Seq<u8>) -> Option<(u64, Seq<u8>)>;

/// Bytes that are a code and a digest size below 128 (each a single varint byte), followed by
/// exactly that many digest bytes, at most 64.
pub open spec fn single_byte_multihash(b: Seq<u8>) -> bool {
    b.len() >= 2 && b[0] < 128 && b[1] < 128 && b[1] <= 64 && b.len() == 2 + b[1]
}

/// `Multihash::<64>::from_bytes`, handing back the code and the digest. Claims that the result
/// is [`spec_multihash_from_bytes`], and, as the source shows, that a code and a digest size
/// below 128 (each a single varint byte) followed by exactly that many digest bytes (at most
/// 64) are read as that code and digest.
#[verifier::external_body]
fn multihash_from_bytes(b: &[u8]) -> (r: Result<(u64, Vec<u8>), multihash::Error>)
    ensures
        match r {
            Ok((code, digest)) => spec_multihash_from_bytes(b@) == Some((code, digest@)),
            Err(_) => spec_multihash_from_bytes(b@) is None,
        },
        single_byte_multihash(b@) ==> r is Ok && r->Ok_0.0 == b@[0] && r->Ok_0.1@ == b@.subrange(2, b@.len() as int),
{
    match multihash::Multihash::<64>::from_bytes(b) {
        Ok(m) => Ok((m.code(), m.digest().to_vec())),
        Err(e) => Err(e),
    }
}

/// The SHA-256 digest of some bytes, as `multihash_codetable::Sha2_256` computes it.
pub uninterp spec fn spec_sha256(data: Seq<u8>) -> Seq<u8>;

/// The bytes fed into a SHA-256 hasher so far.
pub uninterp spec fn sha256_fed(h: multihash_codetable::Sha2_256) -> Seq<u8>;

/// `Sha2_256::default`: a hasher that has been fed nothing.
#[verifier::external_body]
fn sha256_new() -> (r: multihash_codetable::Sha2_256)
    ensures
        sha256_fed(r) == Seq::<u8>::empty(),
{
    multihash_codetable::Sha2_256::default()
}

/// `Hasher::update` of `Sha2_256`: feeds `data`.
#[verifier::external_body]
fn sha256_update(h: &mut multihash_codetable::Sha2_256, data: &[u8])
    ensures
        sha256_fed(*final(h)) == sha256_fed(*old(h)) + data@,
{
    h.update(data)
}

/// `Hasher::finalize` of `Sha2_256`, copied: the digest of what was fed, 32 bytes; the
/// hasher keeps its state.
#[verifier::external_body]
fn sha256_finalize(h: &mut multihash_codetable::Sha2_256) -> (r: Vec<u8>)
    ensures
        r@ == spec_sha256(sha256_fed(*old(h))),
        r@.len() == 32,
        sha256_fed(*final(h)) == sha256_fed(*old(h)),
{
    h.finalize().to_vec()
}

/// `Code::Sha2_256.digest(data).to_bytes()`: the multihash bytes of the SHA-256 digest of
/// `data`: the code `0x12`, the size 32 (`0x20`), then the digest.
#[verifier::external_body]
fn sha256_multihash_bytes(data: &[u8]) -> (r: Vec<u8>)
    ensures
        r@ == seq![0x12u8, 0x20u8] + spec_sha256(data@),
        r@.len() == 34,
{
    multihash_codetable::Code::Sha2_256.digest(data).to_bytes()
}


/// A multihash as plain values: the code of the hash algorithm and the digest.
#[derive(Clone, Debug)]
pub struct MultihashValue {
    pub code: u64,
    pub digest: Vec<u8>,
}

/// Why a source hash could not be read.
#[derive(Debug)]
pub enum ParseHashError {
    /// The hash is not hex.
    HashNotHexEncoded { provided_hash: String, source: hex::FromHexError },
    /// The bytes are not a multihash.
    InvalidMultiHash { provided_hash: String, source: multihash::Error },
}

/// Why no verifier could be built for a source hash.
#[derive(Debug)]
pub enum BuildHashVerifierError {
    /// The hash could not be read.
    Parse(ParseHashError),
    /// The hash uses an algorithm other than SHA-256, with this code.
    UnsupportedHashAlgorithm { code: u64 },
}

/// Why content did not pass verification.
#[derive(Debug)]
pub enum HashVerificationError {
    /// The digest of the content differs from the expected one.
    HashesNotMatching { expected_hash: String, actual_hash: String },
}

/// What a source hash stands for: the code and digest of the multihash that its hex form
/// encodes, if it does encode one.
pub open spec fn spec_parse_hash(s: Seq<char>) -> Option<(u64, Seq<u8>)> {
    match spec_hex_decode(s) {
        Some(b) => spec_multihash_from_bytes(b),
        None => None,
    }
}

/// Reads a source hash: hex, then a multihash.
pub fn parse_hash(provided_hash: &str) -> (r: Result<MultihashValue, ParseHashError>)
    ensures
        spec_hex_decode(provided_hash@) is Some && single_byte_multihash(spec_hex_decode(provided_hash@)->0) ==> r is Ok
            && r->Ok_0.code == spec_hex_decode(provided_hash@)->0[0] && r->Ok_0.digest@ == spec_hex_decode(provided_hash@)->0.subrange(
            2,
            spec_hex_decode(provided_hash@)->0.len() as int,
        ),
        match r {
            Ok(m) => spec_parse_hash(provided_hash@) == Some((m.code, m.digest@)),
            Err(ParseHashError::HashNotHexEncoded { provided_hash: p, .. }) => spec_hex_decode(provided_hash@) is None
                && p@ == provided_hash@,
            Err(ParseHashError::InvalidMultiHash { provided_hash: p, .. }) => spec_hex_decode(provided_hash@) is Some
                && spec_parse_hash(provided_hash@) is None && p@ == provided_hash@,
        },
{
    let bytes = match hex_decode(provided_hash) {
        Ok(b) => b,
        Err(source) => {
            return Err(ParseHashError::HashNotHexEncoded { provided_hash: provided_hash.to_owned(), source });
        },
    };
    match multihash_from_bytes(bytes.as_slice()) {
        Ok((code, digest)) => Ok(MultihashValue { code, digest }),
        Err(source) => Err(ParseHashError::InvalidMultiHash { provided_hash: provided_hash.to_owned(), source }),
    }
}

/// The source hash of a SHA-256 digest: the hex form of the multihash made of the code
/// `0x12`, the size 32 (`0x20`) and the digest.
pub open spec fn sha256_source_hash_of(digest: Seq<u8>) -> Seq<char> {
    spec_hex_encode(seq![0x12u8, 0x20u8] + digest)
}

/// The hex form of the SHA-256 multihash of `bytes`.
pub fn build_sha256_source_hash(bytes: &[u8]) -> (r: String)
    ensures
        r@ == sha256_source_hash_of(spec_sha256(bytes@)),
        spec_sha256(bytes@).len() == 32,
{
    let multihash = sha256_multihash_bytes(bytes);
    assert(multihash@.subrange(2, 34) =~= spec_sha256(bytes@));
    hex_encode(multihash.as_slice())
}

/// A SHA-256 hasher for content that is checked against a multihash.
pub struct ReabootHasher {
    inner: multihash_codetable::Sha2_256,
}

impl ReabootHasher {
    /// What has been fed so far.
    pub closed spec fn fed(&self) -> Seq<u8> {
        sha256_fed(self.inner)
    }

    /// A hasher for the algorithm of `multihash`, which must be SHA-256.
    pub fn try_from_multihash(multihash: &MultihashValue) -> (r: Result<Self, BuildHashVerifierError>)
        ensures
            match r {
                Ok(h) => multihash.code == SHA256_CODE && h.fed() == Seq::<u8>::empty(),
                Err(BuildHashVerifierError::UnsupportedHashAlgorithm { code }) => multihash.code != SHA256_CODE && code
                    == multihash.code,
                Err(_) => false,
            },
    {
        if multihash.code != SHA256_CODE {
            return Err(BuildHashVerifierError::UnsupportedHashAlgorithm { code: multihash.code });
        }
        Ok(ReabootHasher { inner: sha256_new() })
    }

    /// Feeds `data`.
    pub fn update(&mut self, data: &[u8])
        ensures
            final(self).fed() == old(self).fed() + data@,
    {
        sha256_update(&mut self.inner, data)
    }

    /// The digest of everything fed.
    pub fn finalize(self) -> (r: Vec<u8>)
        ensures
            r@ == spec_sha256(self.fed()),
    {
        let mut h = self;
        sha256_finalize(&mut h.inner)
    }
}

/// Checks content, fed in pieces, against an expected source hash.
pub struct ReabootHashVerifier {
    expected_hash: String,
    expected_multihash: MultihashValue,
    hasher: ReabootHasher,
}

impl ReabootHashVerifier {
    /// The expected source hash, as given.
    pub closed spec fn expected_hash(&self) -> Seq<char> {
        self.expected_hash@
    }

    /// The expected digest.
    pub closed spec fn expected_digest(&self) -> Seq<u8> {
        self.expected_multihash.digest@
    }

    /// The content fed so far.
    pub closed spec fn fed(&self) -> Seq<u8> {
        self.hasher.fed()
    }

    /// A verifier for the source hash `expected_hash`, which must be the hex form of a
    /// SHA-256 multihash.
    pub fn try_from_hash(expected_hash: &str) -> (r: Result<Self, BuildHashVerifierError>)
        ensures
            forall|d: Seq<u8>|
                d.len() == 32 && expected_hash@ == #[trigger] sha256_source_hash_of(d) ==> r is Ok && r->Ok_0.expected_digest() == d,
            match r {
                Ok(v) => spec_parse_hash(expected_hash@) matches Some((code, digest)) && code == SHA256_CODE
                    && v.expected_digest() == digest && v.expected_hash() == expected_hash@ && v.fed() == Seq::<u8>::empty(),
                Err(BuildHashVerifierError::Parse(_)) => spec_parse_hash(expected_hash@) is None,
                Err(BuildHashVerifierError::UnsupportedHashAlgorithm { code }) => spec_parse_hash(expected_hash@) matches Some(
                    (c, _),
                ) && c == code && code != SHA256_CODE,
            },
    {
        proof {
            assert forall|d: Seq<u8>| d.len() == 32 && expected_hash@ == #[trigger] sha256_source_hash_of(d) implies spec_hex_decode(
                expected_hash@,
            ) == Some(seq![0x12u8, 0x20u8] + d) && single_byte_multihash(seq![0x12u8, 0x20u8] + d) && (seq![0x12u8, 0x20u8]
                + d).subrange(2, 34) == d by {
                let b = seq![0x12u8, 0x20u8] + d;
                law_hex_roundtrip(b);
                assert(b.subrange(2, 34) =~= d);
            }
        }
        let expected_multihash = match parse_hash(expected_hash) {
            Ok(m) => m,
            Err(e) => {
                return Err(BuildHashVerifierError::Parse(e));
            },
        };
        let hasher = ReabootHasher::try_from_multihash(&expected_multihash)?;
        Ok(ReabootHashVerifier { expected_hash: expected_hash.to_owned(), expected_multihash, hasher })
    }

    /// Feeds a piece of the content.
    pub fn update(&mut self, data: &[u8])
        ensures
            final(self).fed() == old(self).fed() + data@,
            final(self).expected_digest() == old(self).expected_digest(),
            final(self).expected_hash() == old(self).expected_hash(),
    {
        self.hasher.update(data)
    }

    /// Whether the digest of the content fed equals the expected one; if not, the error holds
    /// the expected source hash and the hex form of the actual digest.
    pub fn verify(self) -> (r: Result<(), HashVerificationError>)
        ensures
            r is Ok <==> spec_sha256(self.fed()) == self.expected_digest(),
            r matches Err(HashVerificationError::HashesNotMatching { expected_hash, actual_hash }) ==> expected_hash@
                == self.expected_hash() && actual_hash@ == spec_hex_encode(spec_sha256(self.fed())),
    {
        let expected_hash = self.expected_hash;
        let expected = self.expected_multihash.digest;
        let actual_digest = self.hasher.finalize();
        if !bytes_eq(&actual_digest, &expected) {
            let actual_hash = hex_encode(actual_digest.as_slice());
            return Err(HashVerificationError::HashesNotMatching { expected_hash, actual_hash });
        }
        Ok(())
    }
}

/// Whether two byte vectors are equal.
fn bytes_eq(a: &Vec<u8>, b: &Vec<u8>) -> (r: bool)
    ensures
        r == (a@ == b@),
{
    if a.len() != b.len() {
        return false;
    }
    let mut i: usize = 0;
    while i < a.len()
        invariant
            i <= a.len(),
            a.len() == b.len(),
            forall|j: int| 0 <= j < i ==> a@[j] == b@[j],
        decreases a.len() - i,
    {
        if a[i] != b[i] {
            return false;
        }
        i = i + 1;
    }
    assert(a@ =~= b@);
    true
}


proof fn lemma_lower_hex_digit(d: int)
    requires
        0 <= d < 16,
    ensures
        hex_value(lower_hex_digit(d)) == d,
{
    reveal_strlit("0123456789abcdef");
    if d == 0 {
    } else if d == 1 {
    } else if d == 2 {
    } else if d == 3 {
    } else if d == 4 {
    } else if d == 5 {
    } else if d == 6 {
    } else if d == 7 {
    } else if d == 8 {
    } else if d == 9 {
    } else if d == 10 {
    } else if d == 11 {
    } else if d == 12 {
    } else if d == 13 {
    } else if d == 14 {
    } else {
    }
}

/// Decoding the hex form of bytes gives the bytes back.
pub proof fn law_hex_roundtrip(b: Seq<u8>)
    ensures
        spec_hex_decode(spec_hex_encode(b)) == Some(b),
{
    let s = spec_hex_encode(b);
    assert forall|i: int| 0 <= i < s.len() implies is_hex_digit(#[trigger] s[i]) by {
        let x = b[i / 2] as int;
        lemma_lower_hex_digit(x / 16);
        lemma_lower_hex_digit(x % 16);
    }
    assert(s.len() % 2 == 0);
    let d = Seq::new((s.len() / 2) as nat, |k: int| (16 * hex_value(s[2 * k]) + hex_value(s[2 * k + 1])) as u8);
    assert forall|k: int| 0 <= k < b.len() implies d[k] == b[k] by {
        let x = b[k] as int;
        lemma_lower_hex_digit(x / 16);
        lemma_lower_hex_digit(x % 16);
        assert((2 * k) / 2 == k);
        assert((2 * k + 1) / 2 == k);
        assert((2 * k) % 2 == 0);
        assert((2 * k + 1) % 2 == 1);
        assert(16 * (x / 16) + x % 16 == x);
    }
    assert(d =~= b);
}

} // verus!
