//! Secret and public nonces: generation, aggregation and wire format.
use crate::errors::{MusigNonceGenError, ParseError};
use crate::hash::{append, sha256, sha256_of, tag_nonce, tag_nonce_bytes, tagged, tagged_hash};
use crate::keyagg::MusigKeyAggCache;
use crate::point::{
    add_points, copy33, gen_point, is_point, opt_add, opt_view, x_of, PublicKey,
};
use crate::scalar::{be, is_zero, lemma_be_zero, one_bytes, order, reduce_nonzero, SecretKey, Tweak};
use vstd::prelude::*;

verus! {

/// Whether every byte is zero.
pub open spec fn all_zero(s: Seq<u8>) -> bool {
    forall|i: int| 0 <= i < s.len() ==> s[i] == 0
}

/// An optional input as it enters the nonce derivation: its length byte,
/// then its bytes.
pub open spec fn opt_field(o: Option<Seq<u8>>) -> Seq<u8> {
    match o {
        Some(x) => seq![32u8] + x,
        None => seq![0u8],
    }
}

pub open spec fn opt_hashed(o: Option<Seq<u8>>) -> Option<Seq<u8>> {
    match o {
        Some(x) => Some(sha256_of(x)),
        None => None,
    }
}

/// Everything that the two secret nonces are derived from: the session
/// identifier, the hash of the secret key, the message, the aggregate key and
/// the extra randomness.
pub open spec fn nonce_input(
    session_id: Seq<u8>,
    sec_key: Option<Seq<u8>>,
    msg: Option<Seq<u8>>,
    agg_pk: Option<Seq<u8>>,
    extra: Option<Seq<u8>>,
) -> Seq<u8> {
    session_id + opt_field(opt_hashed(sec_key)) + opt_field(msg) + opt_field(agg_pk) + opt_field(
        extra,
    )
}

/// The `i`-th secret nonce: a tagged hash of the input and `i`, reduced into
/// the nonzero scalars.
pub open spec fn nonce_scalar(input: Seq<u8>, i: u8) -> nat {
    be(tagged(tag_nonce(), input.push(i))) % ((order() - 1) as nat) + 1
}

/// The secret nonce of a signer: two scalars, both zero once used.
#[derive(Debug, PartialEq, Eq)]
pub struct MusigSecNonce([Tweak; 2]);

pub open spec fn tweak_pair(a: [Tweak; 2]) -> (nat, nat) {
    (a@[0].value(), a@[1].value())
}

impl View for MusigSecNonce {
    type V = (nat, nat);

    closed spec fn view(&self) -> (nat, nat) {
        tweak_pair(self.0)
    }
}

impl MusigSecNonce {
    /// Whether the nonce was already used for signing.
    pub open spec fn is_used(&self) -> bool {
        self@.0 == 0 && self@.1 == 0
    }

    /// Hands out the two scalars and leaves zeros in their place.
    pub(crate) fn take(&mut self) -> (r: [Tweak; 2])
        ensures
            tweak_pair(r) == old(self)@,
            final(self)@ == (0nat, 0nat),
    {
        let k = self.0;
        self.0 = [Tweak::zero(), Tweak::zero()];
        k
    }

    /// The two scalars.
    pub fn as_ptr(&self) -> (r: &[Tweak; 2])
        ensures
            tweak_pair(*r) == self@,
    {
        &self.0
    }

    /// The two scalars, to be changed in place.
    pub fn as_mut_ptr(&mut self) -> (r: &mut [Tweak; 2])
        ensures
            tweak_pair(*r) == old(self)@,
            final(self)@ == tweak_pair(*final(r)),
    {
        &mut self.0
    }
}

pub open spec fn point_pair(a: [PublicKey; 2]) -> (Seq<u8>, Seq<u8>) {
    (a@[0]@, a@[1]@)
}

/// The two points of a nonce followed by 66 bytes of zeros.
pub open spec fn nonce_bytes(v: (Seq<u8>, Seq<u8>)) -> Seq<u8> {
    v.0 + v.1 + Seq::new(66, |i: int| 0u8)
}

/// Reading a nonce of 132 bytes: its length is checked first, then that its
/// first 66 bytes hold two points.
pub open spec fn nonce_parse(data: Seq<u8>) -> Result<(Seq<u8>, Seq<u8>), ParseError> {
    if data.len() != 132 {
        Err(ParseError::ArgLenMismatch { expected: 132, got: data.len() as usize })
    } else if !is_point(data.subrange(0, 33)) || !is_point(data.subrange(33, 66)) {
        Err(ParseError::MalformedArg)
    } else {
        Ok((data.subrange(0, 33), data.subrange(33, 66)))
    }
}

/// Writes two points and the zero padding.
fn write_nonce(p: &[PublicKey; 2]) -> (r: [u8; 132])
    ensures
        r@ == nonce_bytes(point_pair(*p)),
{
    let a = p[0].serialize();
    let b = p[1].serialize();
    let mut r: [u8; 132] = [0u8; 132];
    let mut i: usize = 0;
    while i < 132
        invariant
            0 <= i <= 132,
            r@.len() == 132,
            forall|j: int|
                0 <= j < i ==> r@[j] == (if j < 33 {
                    a@[j]
                } else if j < 66 {
                    b@[j - 33]
                } else {
                    0u8
                }),
        decreases 132 - i,
    {
        if i < 33 {
            r[i] = a[i];
        } else if i < 66 {
            r[i] = b[i - 33];
        } else {
            r[i] = 0;
        }
        i = i + 1;
    }
    proof {
        assert(r@ =~= nonce_bytes(point_pair(*p)));
    }
    r
}

/// Reads two points from 132 bytes.
fn read_nonce(data: &[u8]) -> (r: Result<[PublicKey; 2], ParseError>)
    ensures
        match r {
            Ok(p) => nonce_parse(data@) == Ok::<(Seq<u8>, Seq<u8>), ParseError>(point_pair(p)),
            Err(e) => nonce_parse(data@) == Err::<(Seq<u8>, Seq<u8>), ParseError>(e),
        },
{
    if data.len() != 132 {
        return Err(ParseError::ArgLenMismatch { expected: 132, got: data.len() });
    }
    let a = copy33(data, 0);
    let b = copy33(data, 33);
    match (PublicKey::from_slice(&a), PublicKey::from_slice(&b)) {
        (Ok(p), Ok(q)) => Ok([p, q]),
        _ => Err(ParseError::MalformedArg),
    }
}

/// A signer's public nonce: two points, to be sent to the other signers.
#[derive(Debug, Clone, Copy, PartialEq, Eq)]
pub struct MusigPubNonce([PublicKey; 2]);

impl View for MusigPubNonce {
    type V = (Seq<u8>, Seq<u8>);

    closed spec fn view(&self) -> (Seq<u8>, Seq<u8>) {
        point_pair(self.0)
    }
}

impl MusigPubNonce {
    /// The 132-byte wire form: both points compressed, then zero padding.
    pub fn serialize(&self) -> (r: [u8; 132])
        ensures
            r@ == nonce_bytes(self@),
    {
        write_nonce(&self.0)
    }

    /// Reads the 132-byte wire form.
    pub fn from_slice(data: &[u8]) -> (r: Result<MusigPubNonce, ParseError>)
        ensures
            match r {
                Ok(n) => nonce_parse(data@) == Ok::<(Seq<u8>, Seq<u8>), ParseError>(n@),
                Err(e) => nonce_parse(data@) == Err::<(Seq<u8>, Seq<u8>), ParseError>(e),
            },
    {
        match read_nonce(data) {
            Ok(p) => Ok(MusigPubNonce(p)),
            Err(e) => Err(e),
        }
    }

    /// The two points.
    pub fn as_ptr(&self) -> (r: &[PublicKey; 2])
        ensures
            point_pair(*r) == self@,
    {
        &self.0
    }

    /// The two points, to be changed in place.
    pub fn as_mut_ptr(&mut self) -> (r: &mut [PublicKey; 2])
        ensures
            point_pair(*r) == old(self)@,
            final(self)@ == point_pair(*final(r)),
    {
        &mut self.0
    }
}

/// Whether `r` is what nonce generation owes for these inputs: `ZeroSession`
/// exactly when the session identifier is all zeros, otherwise the two
/// derived scalars and their multiples of the generator.
pub open spec fn nonce_gen_result(
    r: Result<(MusigSecNonce, MusigPubNonce), MusigNonceGenError>,
    session_id: Seq<u8>,
    input: Seq<u8>,
) -> bool {
    if all_zero(session_id) {
        r == Err::<(MusigSecNonce, MusigPubNonce), MusigNonceGenError>(
            MusigNonceGenError::ZeroSession,
        )
    } else {
        r matches Ok((s, p)) && s@ == (nonce_scalar(input, 0), nonce_scalar(input, 1)) && p@ == (
            gen_point(s@.0),
            gen_point(s@.1),
        )
    }
}

/// Appends an optional input: its length byte, then its bytes.
fn append_field(buf: &mut Vec<u8>, o: &Option<[u8; 32]>)
    ensures
        final(buf)@ == old(buf)@ + opt_field(
            match *o {
                Some(x) => Some(x@),
                None => None,
            },
        ),
{
    match o {
        Some(x) => {
            buf.push(32);
            append(buf, x);
            proof {
                assert(final(buf)@ =~= old(buf)@ + (seq![32u8] + x@));
            }
        },
        None => {
            buf.push(0);
            proof {
                assert(final(buf)@ =~= old(buf)@ + seq![0u8]);
            }
        },
    }
}

/// The `i`-th secret nonce.
fn derive_nonce(input: &Vec<u8>, i: u8) -> (r: [u8; 32])
    ensures
        be(r@) == nonce_scalar(input@, i),
        0 < be(r@) < order(),
{
    let mut msg = input.clone();
    msg.push(i);
    let tag = tag_nonce_bytes();
    let h = tagged_hash(&tag, msg.as_slice());
    reduce_nonzero(&h)
}

/// Generates a secret nonce and its public nonce from a session identifier,
/// which must be uniformly random and never reused, and optionally the
/// aggregation cache, the signer's secret key, the message and extra
/// randomness. Fails with `ZeroSession` exactly when the session identifier
/// is all zeros. Equal inputs give equal nonces.
pub fn new_musig_nonce_pair(
    session_id: [u8; 32],
    key_agg_cache: Option<&MusigKeyAggCache>,
    sec_key: Option<SecretKey>,
    msg: Option<[u8; 32]>,
    extra_rand: Option<[u8; 32]>,
) -> (r: Result<(MusigSecNonce, MusigPubNonce), MusigNonceGenError>)
    ensures
        nonce_gen_result(
            r,
            session_id@,
            nonce_input(
                session_id@,
                match sec_key {
                    Some(k) => Some(k@),
                    None => None,
                },
                match msg {
                    Some(m) => Some(m@),
                    None => None,
                },
                match key_agg_cache {
                    Some(c) => Some(x_of(c@.pk)),
                    None => None,
                },
                match extra_rand {
                    Some(e) => Some(e@),
                    None => None,
                },
            ),
        ),
{
    proof {
        lemma_be_zero(session_id@);
    }
    if is_zero(&session_id) {
        return Err(MusigNonceGenError::ZeroSession);
    }
    let sk_hash: Option<[u8; 32]> = match sec_key {
        Some(k) => {
            let b = k.to_bytes();
            Some(sha256(&b))
        },
        None => None,
    };
    let agg: Option<[u8; 32]> = match key_agg_cache {
        Some(c) => Some(c.pubkey().x_only_public_key().serialize()),
        None => None,
    };
    let mut input: Vec<u8> = Vec::new();
    append(&mut input, &session_id);
    append_field(&mut input, &sk_hash);
    append_field(&mut input, &msg);
    append_field(&mut input, &agg);
    append_field(&mut input, &extra_rand);
    let k1 = derive_nonce(&input, 0);
    let k2 = derive_nonce(&input, 1);
    let r1 = PublicKey::from_scalar(&k1);
    let r2 = PublicKey::from_scalar(&k2);
    let sec = MusigSecNonce([Tweak::from_reduced(k1), Tweak::from_reduced(k2)]);
    let pubn = MusigPubNonce([r1, r2]);
    proof {
        assert(input@ =~= nonce_input(
            session_id@,
            match sec_key {
                Some(k) => Some(k@),
                None => None,
            },
            match msg {
                Some(m) => Some(m@),
                None => None,
            },
            match key_agg_cache {
                Some(c) => Some(x_of(c@.pk)),
                None => None,
            },
            match extra_rand {
                Some(e) => Some(e@),
                None => None,
            },
        ));
    }
    Ok((sec, pubn))
}

impl MusigKeyAggCache {
    /// Generates a nonce pair bound to this cache's aggregate key, the
    /// signer's secret key and the message; see `new_musig_nonce_pair`.
    pub fn nonce_gen(
        &self,
        session_id: [u8; 32],
        sec_key: SecretKey,
        msg: [u8; 32],
        extra_rand: Option<[u8; 32]>,
    ) -> (r: Result<(MusigSecNonce, MusigPubNonce), MusigNonceGenError>)
        ensures
            nonce_gen_result(
                r,
                session_id@,
                nonce_input(
                    session_id@,
                    Some(sec_key@),
                    Some(msg@),
                    Some(x_of(self@.pk)),
                    match extra_rand {
                        Some(e) => Some(e@),
                        None => None,
                    },
                ),
            ),
    {
        new_musig_nonce_pair(session_id, Some(self), Some(sec_key), Some(msg), extra_rand)
    }
}

/// The public nonces of a list, viewed.
pub open spec fn nonces_view(nonces: Seq<MusigPubNonce>) -> Seq<(Seq<u8>, Seq<u8>)> {
    nonces.map_values(|n: MusigPubNonce| n@)
}

/// The sum of component `j` of the first `n` nonces; `None` for the point at infinity.
pub open spec fn nonce_sum(nonces: Seq<(Seq<u8>, Seq<u8>)>, j: int, n: int) -> Option<Seq<u8>>
    decreases n,
{
    if n <= 0 {
        None
    } else {
        opt_add(
            nonce_sum(nonces, j, n - 1),
            Some(
                if j == 0 {
                    nonces[n - 1].0
                } else {
                    nonces[n - 1].1
                },
            ),
        )
    }
}

/// A sum of points, with the generator standing in for the point at infinity.
pub open spec fn or_generator(p: Option<Seq<u8>>) -> Seq<u8> {
    match p {
        Some(x) => x,
        None => gen_point(1),
    }
}

/// The aggregate of a list of public nonces.
pub open spec fn agg_nonce_of(nonces: Seq<(Seq<u8>, Seq<u8>)>) -> (Seq<u8>, Seq<u8>) {
    (
        or_generator(nonce_sum(nonces, 0, nonces.len() as int)),
        or_generator(nonce_sum(nonces, 1, nonces.len() as int)),
    )
}

/// The sum of all signers' public nonces, component by component.
#[derive(Debug, Clone, Copy, PartialEq, Eq)]
pub struct MusigAggNonce([PublicKey; 2]);

impl View for MusigAggNonce {
    type V = (Seq<u8>, Seq<u8>);

    closed spec fn view(&self) -> (Seq<u8>, Seq<u8>) {
        point_pair(self.0)
    }
}

/// The sum of one component of all nonces, the generator if that is the
/// point at infinity.
fn sum_component(nonces: &[MusigPubNonce], j: usize) -> (r: PublicKey)
    requires
        j < 2,
    ensures
        r@ == or_generator(nonce_sum(nonces_view(nonces@), j as int, nonces@.len() as int)),
{
    let ghost ns = nonces_view(nonces@);
    let mut acc: Option<PublicKey> = None;
    let mut i: usize = 0;
    while i < nonces.len()
        invariant
            j < 2,
            ns == nonces_view(nonces@),
            0 <= i <= nonces@.len(),
            opt_view(acc) == nonce_sum(ns, j as int, i as int),
        decreases nonces@.len() - i,
    {
        let p = nonces[i].as_ptr()[j];
        acc = add_points(acc, Some(p));
        i = i + 1;
    }
    match acc {
        Some(p) => p,
        None => {
            let one = one_bytes();
            PublicKey::from_scalar(&one)
        },
    }
}

impl MusigAggNonce {
    /// Sums the public nonces of all signers, component by component. A sum
    /// that is the point at infinity is replaced by the generator.
    pub fn new(nonces: &[MusigPubNonce]) -> (r: MusigAggNonce)
        ensures
            r@ == agg_nonce_of(nonces_view(nonces@)),
    {
        let a = sum_component(nonces, 0);
        let b = sum_component(nonces, 1);
        MusigAggNonce([a, b])
    }

    /// The 132-byte wire form: both points compressed, then zero padding.
    pub fn serialize(&self) -> (r: [u8; 132])
        ensures
            r@ == nonce_bytes(self@),
    {
        write_nonce(&self.0)
    }

    /// Reads the 132-byte wire form.
    pub fn from_slice(data: &[u8]) -> (r: Result<MusigAggNonce, ParseError>)
        ensures
            match r {
                Ok(n) => nonce_parse(data@) == Ok::<(Seq<u8>, Seq<u8>), ParseError>(n@),
                Err(e) => nonce_parse(data@) == Err::<(Seq<u8>, Seq<u8>), ParseError>(e),
            },
    {
        match read_nonce(data) {
            Ok(p) => Ok(MusigAggNonce(p)),
            Err(e) => Err(e),
        }
    }

    /// The two points.
    pub fn as_ptr(&self) -> (r: &[PublicKey; 2])
        ensures
            point_pair(*r) == self@,
    {
        &self.0
    }

    /// The two points, to be changed in place.
    pub fn as_mut_ptr(&mut self) -> (r: &mut [PublicKey; 2])
        ensures
            point_pair(*r) == old(self)@,
            final(self)@ == point_pair(*final(r)),
    {
        &mut self.0
    }
}

/// Reading back the 132 bytes written for a nonce of two valid points gives
/// the same nonce; this holds for public and aggregate nonces alike.
pub proof fn lemma_nonce_round_trip(v: (Seq<u8>, Seq<u8>))
    requires
        v.0.len() == 33,
        v.1.len() == 33,
        is_point(v.0),
        is_point(v.1),
    ensures
        nonce_parse(nonce_bytes(v)) == Ok::<(Seq<u8>, Seq<u8>), ParseError>(v),
{
    let b = nonce_bytes(v);
    assert(b.subrange(0, 33) =~= v.0);
    assert(b.subrange(33, 66) =~= v.1);
}

} // verus!
