//! Digests of file contents (MD5 for the game, SHA-256 for the updater) and
//! their lowercase hexadecimal form. The file is read by the caller and handed
//! over chunk by chunk.
use vstd::prelude::*;
use crate::chars::{digit_char, is_lower_hex_digit};
use crate::text::{lowercase, lemma_lowercase_unchanged};

verus! {

/// The lowercase hexadecimal digit of `v` (`0 <= v < 16`).
pub open spec fn hex_char(v: int) -> char {
    if v < 10 {
        digit_char(v)
    } else {
        ((87 + v) as u8) as char
    }
}

/// The lowercase hexadecimal form of `bytes`: two digits per byte, high
/// nibble first.
pub open spec fn hex_encoding(bytes: Seq<u8>) -> Seq<char>
    decreases bytes.len(),
{
    if bytes.len() == 0 {
        seq![]
    } else {
        seq![hex_char((bytes[0] / 16) as int), hex_char((bytes[0] % 16) as int)] + hex_encoding(bytes.drop_first())
    }
}

/// `hex::encode`: each byte becomes two lowercase hexadecimal digits, the
/// high nibble first, in the order of the bytes.
#[verifier::external_body]
fn hex_encode(data: &[u8]) -> (s: String)
    ensures
        s@ == hex_encoding(data@),
{
    hex::encode(data)
}

/// The hexadecimal form of a digest, as the updater prints and compares it.
pub fn digest_hex(digest: &[u8]) -> (s: String)
    ensures
        s@ == hex_encoding(digest@),
{
    hex_encode(digest)
}

/// The hexadecimal form has two characters per byte.
pub proof fn lemma_hex_encoding_len(bytes: Seq<u8>)
    ensures
        hex_encoding(bytes).len() == 2 * bytes.len(),
    decreases bytes.len(),
{
    if bytes.len() > 0 {
        lemma_hex_encoding_len(bytes.drop_first());
    }
}

/// The hexadecimal form consists of lowercase hexadecimal digits.
pub proof fn lemma_hex_encoding_digits(bytes: Seq<u8>)
    ensures
        forall|i: int|
            0 <= i < hex_encoding(bytes).len() ==> is_lower_hex_digit(#[trigger] hex_encoding(bytes)[i]),
    decreases bytes.len(),
{
    if bytes.len() > 0 {
        lemma_hex_encoding_digits(bytes.drop_first());
        let h = (bytes[0] / 16) as int;
        let l = (bytes[0] % 16) as int;
        lemma_hex_char(h);
        lemma_hex_char(l);
        let rest = hex_encoding(bytes.drop_first());
        let whole = seq![hex_char(h), hex_char(l)] + rest;
        assert forall|i: int| 0 <= i < whole.len() implies is_lower_hex_digit(#[trigger] whole[i]) by {
            if i >= 2 {
                assert(whole[i] == rest[i - 2]);
            }
        }
    }
}

/// A hexadecimal digit value gives a lowercase hexadecimal digit.
proof fn lemma_hex_char(v: int)
    requires
        0 <= v < 16,
    ensures
        is_lower_hex_digit(hex_char(v)),
{
    let b: u8 = if v < 10 { (48 + v) as u8 } else { (87 + v) as u8 };
    assert(hex_char(v) == b as char);
    assert(48 <= b <= 57 || 97 <= b <= 102);
    assert(('0' <= (b as char) && (b as char) <= '9') || ('a' <= (b as char) && (b as char) <= 'f'));
}

/// The hexadecimal form of any bytes is already lowercase: lowercasing it
/// (as the updater does before comparing digests) changes nothing.
pub proof fn lemma_lowercase_of_hex(bytes: Seq<u8>)
    ensures
        lowercase(hex_encoding(bytes)) == hex_encoding(bytes),
{
    lemma_hex_encoding_digits(bytes);
    let s = hex_encoding(bytes);
    assert forall|i: int| 0 <= i < s.len() implies #[trigger] s[i] <= '\x7f' by {
        assert(is_lower_hex_digit(s[i]));
    }
    assert forall|i: int| 0 <= i < s.len() implies !('A' <= #[trigger] s[i] && s[i] <= 'Z') by {
        assert(is_lower_hex_digit(s[i]));
    }
    lemma_lowercase_unchanged(s);
}

/// The MD5 digest (RFC 1321) of `data`, as the `md-5` crate computes it.
pub uninterp spec fn md5_digest(data: Seq<u8>) -> Seq<u8>;

/// The bytes that an MD5 hasher has been fed so far.
pub uninterp spec fn md5_fed(h: Md5Hasher) -> Seq<u8>;

/// An `md5::Md5` hasher (from the `md-5` crate), held opaquely.
#[verifier::external_body]
pub struct Md5Hasher {
    inner: md5::Md5,
}

impl Md5Hasher {
    /// `md5::Md5::new`: a hasher that has been fed nothing.
    #[verifier::external_body]
    fn create() -> (h: Md5Hasher)
        ensures
            md5_fed(h) == Seq::<u8>::empty(),
    {
        Md5Hasher { inner: md5::Digest::new() }
    }

    /// `Digest::update`: the hasher has now also been fed `data`.
    #[verifier::external_body]
    fn feed(&mut self, data: &[u8])
        ensures
            md5_fed(*final(self)) == md5_fed(*old(self)) + data@,
    {
        md5::Digest::update(&mut self.inner, data)
    }

    /// `Digest::finalize`: the MD5 digest of everything fed, 16 bytes long.
    #[verifier::external_body]
    fn digest(self) -> (d: Vec<u8>)
        ensures
            d@ == md5_digest(md5_fed(self)),
            d@.len() == 16,
    {
        md5::Digest::finalize(self.inner).to_vec()
    }
}

/// An MD5 computation over data given in chunks, such as the blocks of a file.
pub struct Md5Stream {
    hasher: Md5Hasher,
}

impl Md5Stream {
    /// The data given so far.
    pub closed spec fn data(&self) -> Seq<u8> {
        md5_fed(self.hasher)
    }

    /// A computation over no data yet.
    pub fn new() -> (s: Md5Stream)
        ensures
            s.data() == Seq::<u8>::empty(),
    {
        Md5Stream { hasher: Md5Hasher::create() }
    }

    /// Adds `chunk` after the data given so far.
    pub fn update(&mut self, chunk: &[u8])
        ensures
            final(self).data() == old(self).data() + chunk@,
    {
        self.hasher.feed(chunk);
    }

    /// The lowercase hexadecimal MD5 digest of all the data given: 32
    /// characters, unchanged by lowercasing.
    pub fn finish_hex(self) -> (s: String)
        ensures
            s@ == hex_encoding(md5_digest(self.data())),
            s@.len() == 32,
            lowercase(s@) == s@,
    {
        let d = self.hasher.digest();
        proof {
            lemma_hex_encoding_len(d@);
            lemma_lowercase_of_hex(d@);
        }
        digest_hex(d.as_slice())
    }
}

/// The SHA-256 digest (FIPS 180-4) of `data`, as the `sha2` crate computes it.
pub uninterp spec fn sha256_digest(data: Seq<u8>) -> Seq<u8>;

/// The bytes that a SHA-256 hasher has been fed so far.
pub uninterp spec fn sha256_fed(h: Sha256Hasher) -> Seq<u8>;

/// A `sha2::Sha256` hasher, held opaquely.
#[verifier::external_body]
pub struct Sha256Hasher {
    inner: sha2::Sha256,
}

impl Sha256Hasher {
    /// `sha2::Sha256::new`: a hasher that has been fed nothing.
    #[verifier::external_body]
    fn create() -> (h: Sha256Hasher)
        ensures
            sha256_fed(h) == Seq::<u8>::empty(),
    {
        Sha256Hasher { inner: sha2::Digest::new() }
    }

    /// `Digest::update`: the hasher has now also been fed `data`.
    #[verifier::external_body]
    fn feed(&mut self, data: &[u8])
        ensures
            sha256_fed(*final(self)) == sha256_fed(*old(self)) + data@,
    {
        sha2::Digest::update(&mut self.inner, data)
    }

    /// `Digest::finalize`: the SHA-256 digest of everything fed, 32 bytes long.
    #[verifier::external_body]
    fn digest(self) -> (d: Vec<u8>)
        ensures
            d@ == sha256_digest(sha256_fed(self)),
            d@.len() == 32,
    {
        sha2::Digest::finalize(self.inner).to_vec()
    }
}

/// A SHA-256 computation over data given in chunks, such as the blocks of a
/// file.
pub struct Sha256Stream {
    hasher: Sha256Hasher,
}

impl Sha256Stream {
    /// The data given so far.
    pub closed spec fn data(&self) -> Seq<u8> {
        sha256_fed(self.hasher)
    }

    /// A computation over no data yet.
    pub fn new() -> (s: Sha256Stream)
        ensures
            s.data() == Seq::<u8>::empty(),
    {
        Sha256Stream { hasher: Sha256Hasher::create() }
    }

    /// Adds `chunk` after the data given so far.
    pub fn update(&mut self, chunk: &[u8])
        ensures
            final(self).data() == old(self).data() + chunk@,
    {
        self.hasher.feed(chunk);
    }

    /// The lowercase hexadecimal SHA-256 digest of all the data given: 64
    /// characters, unchanged by lowercasing.
    pub fn finish_hex(self) -> (s: String)
        ensures
            s@ == hex_encoding(sha256_digest(self.data())),
            s@.len() == 64,
            lowercase(s@) == s@,
    {
        let d = self.hasher.digest();
        proof {
            lemma_hex_encoding_len(d@);
            lemma_lowercase_of_hex(d@);
        }
        digest_hex(d.as_slice())
    }
}

} // verus!
