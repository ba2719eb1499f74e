//! Discriminators: the first eight bytes of the SHA-256 digest of
//! `<namespace>:<name>`.
use sha2::{Digest, Sha256};
use vstd::prelude::*;
use vstd::utf8::encode_utf8;

verus! {

/// The namespace of instruction discriminators.
pub const SIGHASH_GLOBAL_NAMESPACE: &'static str = "global";

/// The SHA-256 digest of a byte string.
pub uninterp spec fn sha256(data: Seq<u8>) -> Seq<u8>;

/// `Sha256::digest` of the `sha2` crate (through its `Digest` trait). The
/// contract claims that the result is the SHA-256 digest of `data`, named
/// `sha256`, and that it is 32 bytes long, the output size that `sha2`
/// declares for `Sha256`.
#[verifier::external_body]
fn sha256_digest(data: &[u8]) -> (r: Vec<u8>)
    ensures
        r@ == sha256(data@),
        r@.len() == 32,
{
    Sha256::digest(data).to_vec()
}

/// The text that is hashed: `<namespace>:<name>`, in UTF-8.
pub open spec fn sighash_preimage(namespace: Seq<char>, name: Seq<char>) -> Seq<u8> {
    encode_utf8(namespace + seq![':'] + name)
}

/// The discriminator of `name` in `namespace`.
pub open spec fn spec_discriminator(namespace: Seq<char>, name: Seq<char>) -> Seq<u8> {
    sha256(sighash_preimage(namespace, name)).take(8)
}

/// UTF-8 encodes a concatenation piece by piece.
pub proof fn lemma_encode_utf8_concat(a: Seq<char>, b: Seq<char>)
    ensures
        encode_utf8(a + b) == encode_utf8(a) + encode_utf8(b),
    decreases a.len(),
{
    if a.len() == 0 {
        assert(a + b =~= b);
    } else {
        lemma_encode_utf8_concat(a.drop_first(), b);
        assert((a + b).drop_first() =~= a.drop_first() + b);
        assert((a + b)[0] == a[0]);
    }
}

/// The colon is the single byte 0x3a in UTF-8.
proof fn lemma_encode_colon()
    ensures
        encode_utf8(seq![':']) == seq![0x3au8],
{
    let s = seq![':'];
    assert(s.drop_first() =~= Seq::<char>::empty());
    assert((':' as u32) == 0x3a);
    assert((0x3au32 & 0x7F) as u8 == 0x3au8) by (bit_vector);
    assert(encode_utf8(s.drop_first()) =~= Seq::<u8>::empty());
    assert(encode_utf8(s) =~= seq![0x3au8]);
}

/// The bytes of `<namespace>:<name>`.
pub fn sighash_preimage_bytes(namespace: &str, name: &str) -> (r: Vec<u8>)
    ensures
        r@ == sighash_preimage(namespace@, name@),
{
    let mut bytes: Vec<u8> = Vec::new();
    bytes.extend_from_slice(namespace.as_bytes());
    assert(bytes@ =~= encode_utf8(namespace@));
    bytes.push(0x3au8);
    let ghost with_colon = bytes@;
    bytes.extend_from_slice(name.as_bytes());
    assert(bytes@ =~= with_colon + encode_utf8(name@));
    proof {
        lemma_encode_colon();
        lemma_encode_utf8_concat(namespace@, seq![':']);
        lemma_encode_utf8_concat(namespace@ + seq![':'], name@);
        assert(with_colon =~= encode_utf8(namespace@) + seq![0x3au8]);
    }
    bytes
}

/// The first eight bytes of a digest.
pub fn discriminator_from_digest(digest: &[u8]) -> (r: [u8; 8])
    requires
        digest@.len() >= 8,
    ensures
        r@ == digest@.take(8),
{
    let r = [
        digest[0],
        digest[1],
        digest[2],
        digest[3],
        digest[4],
        digest[5],
        digest[6],
        digest[7],
    ];
    assert(r@ =~= digest@.take(8));
    r
}

/// `Sha256(<namespace>:<name>)[..8]`.
pub fn generate_discriminator(namespace: &str, name: &str) -> (r: [u8; 8])
    ensures
        sha256(sighash_preimage(namespace@, name@)).len() == 32,
        r@ == spec_discriminator(namespace@, name@),
        forall|i: int| 0 <= i < 8 ==> r@[i] == sha256(sighash_preimage(namespace@, name@))[i],
{
    let preimage = sighash_preimage_bytes(namespace, name);
    let digest = sha256_digest(preimage.as_slice());
    discriminator_from_digest(digest.as_slice())
}

} // verus!
