//! SHA-256 and the tagged hashes built from it.
use crate::scalar::{be, order, reduce};
use vstd::prelude::*;

verus! {

/// What SHA-256 gives for `data`.
pub uninterp spec fn sha256_of(data: Seq<u8>) -> Seq<u8>;

/// Relies on bitcoin_hashes' `sha256::Hash::hash`, re-exported by secp256k1:
/// the SHA-256 digest of the bytes.
#[verifier::external_body]
pub(crate) fn sha256(data: &[u8]) -> (r: [u8; 32])
    ensures
        r@ == sha256_of(data@),
{
    let h = <secp256k1::hashes::sha256::Hash as secp256k1::hashes::Hash>::hash(data);
    <secp256k1::hashes::sha256::Hash as secp256k1::hashes::Hash>::to_byte_array(h)
}

/// The domain-separated hash `SHA256(SHA256(tag) || SHA256(tag) || msg)`.
pub open spec fn tagged(tag: Seq<u8>, msg: Seq<u8>) -> Seq<u8> {
    sha256_of(sha256_of(tag) + sha256_of(tag) + msg)
}

/// A tagged hash read as a scalar modulo the group order.
pub open spec fn hash_scalar(tag: Seq<u8>, msg: Seq<u8>) -> nat {
    be(tagged(tag, msg)) % order()
}

/// Appends the bytes of `s` to `v`.
pub fn append(v: &mut Vec<u8>, s: &[u8])
    ensures
        final(v)@ == old(v)@ + s@,
{
    let mut i: usize = 0;
    while i < s.len()
        invariant
            0 <= i <= s.len(),
            v@ == old(v)@ + s@.subrange(0, i as int),
        decreases s.len() - i,
    {
        v.push(s[i]);
        proof {
            assert(s@.subrange(0, i as int + 1) =~= s@.subrange(0, i as int).push(s@[i as int]));
        }
        i = i + 1;
    }
    proof {
        assert(s@.subrange(0, s@.len() as int) =~= s@);
    }
}

/// The tagged hash of `msg` under `tag`.
pub fn tagged_hash(tag: &[u8], msg: &[u8]) -> (r: [u8; 32])
    ensures
        r@ == tagged(tag@, msg@),
{
    let t = sha256(tag);
    let mut buf: Vec<u8> = Vec::new();
    append(&mut buf, &t);
    append(&mut buf, &t);
    append(&mut buf, msg);
    proof {
        assert(buf@ =~= sha256_of(tag@) + sha256_of(tag@) + msg@);
    }
    sha256(buf.as_slice())
}

/// The tagged hash of `msg` under `tag`, reduced modulo the group order.
pub fn tagged_scalar(tag: &[u8], msg: &[u8]) -> (r: [u8; 32])
    ensures
        be(r@) == hash_scalar(tag@, msg@),
        be(r@) < order(),
{
    let h = tagged_hash(tag, msg);
    reduce(&h)
}

/// The tag "KeyAgg list".
pub open spec fn tag_keyagg_list() -> Seq<u8> {
    seq![0x4b, 0x65, 0x79, 0x41, 0x67, 0x67, 0x20, 0x6c, 0x69, 0x73, 0x74]
}

pub fn tag_keyagg_list_bytes() -> (r: [u8; 11])
    ensures
        r@ == tag_keyagg_list(),
{
    let r: [u8; 11] = [0x4b, 0x65, 0x79, 0x41, 0x67, 0x67, 0x20, 0x6c, 0x69, 0x73, 0x74];
    proof {
        assert(r@ =~= tag_keyagg_list());
    }
    r
}

/// The tag "KeyAgg coefficient".
pub open spec fn tag_keyagg_coef() -> Seq<u8> {
    seq![0x4b, 0x65, 0x79, 0x41, 0x67, 0x67, 0x20, 0x63, 0x6f, 0x65, 0x66, 0x66, 0x69, 0x63, 0x69, 0x65, 0x6e, 0x74]
}

pub fn tag_keyagg_coef_bytes() -> (r: [u8; 18])
    ensures
        r@ == tag_keyagg_coef(),
{
    let r: [u8; 18] = [0x4b, 0x65, 0x79, 0x41, 0x67, 0x67, 0x20, 0x63, 0x6f, 0x65, 0x66, 0x66, 0x69, 0x63, 0x69, 0x65, 0x6e, 0x74];
    proof {
        assert(r@ =~= tag_keyagg_coef());
    }
    r
}

/// The tag "MuSigNonce".
pub open spec fn tag_nonce() -> Seq<u8> {
    seq![0x4d, 0x75, 0x53, 0x69, 0x67, 0x4e, 0x6f, 0x6e, 0x63, 0x65]
}

pub fn tag_nonce_bytes() -> (r: [u8; 10])
    ensures
        r@ == tag_nonce(),
{
    let r: [u8; 10] = [0x4d, 0x75, 0x53, 0x69, 0x67, 0x4e, 0x6f, 0x6e, 0x63, 0x65];
    proof {
        assert(r@ =~= tag_nonce());
    }
    r
}

/// The tag "MuSigNoncecoef".
pub open spec fn tag_noncecoef() -> Seq<u8> {
    seq![0x4d, 0x75, 0x53, 0x69, 0x67, 0x4e, 0x6f, 0x6e, 0x63, 0x65, 0x63, 0x6f, 0x65, 0x66]
}

pub fn tag_noncecoef_bytes() -> (r: [u8; 14])
    ensures
        r@ == tag_noncecoef(),
{
    let r: [u8; 14] = [0x4d, 0x75, 0x53, 0x69, 0x67, 0x4e, 0x6f, 0x6e, 0x63, 0x65, 0x63, 0x6f, 0x65, 0x66];
    proof {
        assert(r@ =~= tag_noncecoef());
    }
    r
}

/// The tag "BIP0340/challenge".
pub open spec fn tag_challenge() -> Seq<u8> {
    seq![0x42, 0x49, 0x50, 0x30, 0x33, 0x34, 0x30, 0x2f, 0x63, 0x68, 0x61, 0x6c, 0x6c, 0x65, 0x6e, 0x67, 0x65]
}

pub fn tag_challenge_bytes() -> (r: [u8; 17])
    ensures
        r@ == tag_challenge(),
{
    let r: [u8; 17] = [0x42, 0x49, 0x50, 0x30, 0x33, 0x34, 0x30, 0x2f, 0x63, 0x68, 0x61, 0x6c, 0x6c, 0x65, 0x6e, 0x67, 0x65];
    proof {
        assert(r@ =~= tag_challenge());
    }
    r
}

} // verus!
