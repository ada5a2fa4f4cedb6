//! Signing sessions: the session derived from the aggregate nonce, partial
//! signatures, their aggregation, and adaptor signatures.
use crate::errors::{MusigSignError, ParseError};
use crate::hash::{
    append, hash_scalar, tag_challenge, tag_challenge_bytes, tag_noncecoef, tag_noncecoef_bytes,
    tagged_scalar,
};
use crate::keyagg::{key_coef, key_coefficient, KeyAggView, MusigKeyAggCache};
use crate::nonce::{or_generator, MusigAggNonce, MusigPubNonce, MusigSecNonce};
use crate::point::{
    add_points, copy32, gen_point, same_point, has_odd_y, lift_x, opt_add, opt_scale, opt_view, scale_point,
    x_of, PublicKey, XOnlyPublicKey,
};
use crate::scalar::{
    add_mod, be, is_zero, mul_mod, neg_mod, one_bytes, order, order_minus_one_bytes,
    scalar_add, scalar_mul, scalar_neg, SecretKey, Tweak,
};
use vstd::prelude::*;

verus! {

/// The abstract content of a session.
pub struct SessionView {
    /// The binding coefficient.
    pub b: nat,
    /// The x-coordinate of the final nonce.
    pub r_x: Seq<u8>,
    /// Whether the final nonce has an odd y-coordinate.
    pub r_odd: bool,
    /// The challenge.
    pub e: nat,
    /// The share of the signature that the key tweaks contribute.
    pub s_part: nat,
}

/// The binding coefficient: a tagged hash of the aggregate nonce, the
/// aggregate key and the message.
pub open spec fn binding_coef(cache: KeyAggView, agg: (Seq<u8>, Seq<u8>), msg: Seq<u8>) -> nat {
    hash_scalar(tag_noncecoef(), agg.0 + agg.1 + x_of(cache.pk) + msg)
}

/// The final nonce `R1 + b·R2`, plus the adaptor point where there is one;
/// the generator where that sum is the point at infinity.
pub open spec fn final_nonce(agg: (Seq<u8>, Seq<u8>), b: nat, adaptor: Option<Seq<u8>>) -> Seq<u8> {
    or_generator(opt_add(opt_add(Some(agg.0), opt_scale(Some(agg.1), b)), adaptor))
}

/// The session that the aggregate nonce, the message, the cache and the
/// optional adaptor point determine.
pub open spec fn session_of(
    cache: KeyAggView,
    agg: (Seq<u8>, Seq<u8>),
    msg: Seq<u8>,
    adaptor: Option<Seq<u8>>,
) -> SessionView {
    let b = binding_coef(cache, agg, msg);
    let r = final_nonce(agg, b, adaptor);
    let e = hash_scalar(tag_challenge(), x_of(r) + x_of(cache.pk) + msg);
    SessionView {
        b,
        r_x: x_of(r),
        r_odd: has_odd_y(r),
        e,
        s_part: mul_mod(
            e,
            if has_odd_y(cache.pk) {
                neg_mod(cache.tweak)
            } else {
                cache.tweak
            },
        ),
    }
}

/// The partial signature that secret key `sk` and secret nonce `k` give in a
/// session: `k1 + b·k2 + e·a·d`, where the nonces are negated when the final
/// nonce has odd y, and the key is negated once for each of: its own point
/// has odd y, the aggregate key has odd y, the tweaks negated the aggregate.
pub open spec fn partial_sig_value(sess: SessionView, cache: KeyAggView, sk: nat, k: (nat, nat)) -> nat {
    let k1 = if sess.r_odd {
        neg_mod(k.0)
    } else {
        k.0
    };
    let k2 = if sess.r_odd {
        neg_mod(k.1)
    } else {
        k.1
    };
    let p = gen_point(sk);
    let a = key_coef(cache.pk_hash, cache.second_pk, x_of(p));
    let negate = (has_odd_y(cache.pk) != cache.parity_acc) != has_odd_y(p);
    let d = if negate {
        neg_mod(sk)
    } else {
        sk
    };
    add_mod(add_mod(k1, mul_mod(sess.b, k2)), mul_mod(sess.e, mul_mod(a, d)))
}

/// What signing with a secret nonce gives: `NonceReuse` for a used nonce,
/// otherwise the partial signature.
pub open spec fn sign_outcome(sess: SessionView, cache: KeyAggView, sk: nat, k: (nat, nat)) -> Result<
    nat,
    MusigSignError,
> {
    if k.0 == 0 && k.1 == 0 {
        Err(MusigSignError::NonceReuse)
    } else {
        Ok(partial_sig_value(sess, cache, sk, k))
    }
}

/// The point that `s·G` must equal for a valid partial signature of the
/// signer with public nonce `nonce` and x-only key `pk`.
pub open spec fn expected_point(
    sess: SessionView,
    cache: KeyAggView,
    nonce: (Seq<u8>, Seq<u8>),
    pk: Seq<u8>,
) -> Option<Seq<u8>> {
    let re = opt_add(Some(nonce.0), opt_scale(Some(nonce.1), sess.b));
    let re2 = if sess.r_odd {
        opt_scale(re, (order() - 1) as nat)
    } else {
        re
    };
    let ea = mul_mod(sess.e, key_coef(cache.pk_hash, cache.second_pk, pk));
    let c = if has_odd_y(cache.pk) != cache.parity_acc {
        neg_mod(ea)
    } else {
        ea
    };
    opt_add(re2, opt_scale(Some(lift_x(pk)), c))
}

/// `s·G`, or `None` for `s = 0`.
pub open spec fn gen_opt(s: nat) -> Option<Seq<u8>> {
    if s == 0 {
        None
    } else {
        Some(gen_point(s))
    }
}

/// A signer's share of the signature: one scalar.
#[derive(Debug, Clone, Copy, PartialEq, Eq)]
pub struct MusigPartialSignature(Tweak);

impl View for MusigPartialSignature {
    type V = Seq<u8>;

    closed spec fn view(&self) -> Seq<u8> {
        self.0@
    }
}

/// Reading a scalar of 32 bytes: its length is checked first, then that it
/// is below the group order.
pub open spec fn scalar_parse(data: Seq<u8>) -> Result<Seq<u8>, ParseError> {
    if data.len() != 32 {
        Err(ParseError::ArgLenMismatch { expected: 32, got: data.len() as usize })
    } else if be(data) >= order() {
        Err(ParseError::MalformedArg)
    } else {
        Ok(data)
    }
}

impl MusigPartialSignature {
    /// The scalar's value.
    pub open spec fn value(&self) -> nat {
        be(self@)
    }

    /// The 32-byte big-endian wire form.
    pub fn serialize(&self) -> (r: [u8; 32])
        ensures
            r@ == self@,
            be(r@) < order(),
    {
        self.0.to_bytes()
    }

    /// Reads the 32-byte wire form.
    pub fn from_slice(data: &[u8]) -> (r: Result<MusigPartialSignature, ParseError>)
        ensures
            match r {
                Ok(s) => scalar_parse(data@) == Ok::<Seq<u8>, ParseError>(s@),
                Err(e) => scalar_parse(data@) == Err::<Seq<u8>, ParseError>(e),
            },
    {
        if data.len() != 32 {
            return Err(ParseError::ArgLenMismatch { expected: 32, got: data.len() });
        }
        let b = copy32(data, 0);
        proof {
            assert(data@.subrange(0, 32) =~= data@);
        }
        match Tweak::from_bytes(b) {
            Some(t) => Ok(MusigPartialSignature(t)),
            None => Err(ParseError::MalformedArg),
        }
    }

    /// The scalar.
    pub fn as_ptr(&self) -> (r: &Tweak)
        ensures
            r@ == self@,
    {
        &self.0
    }

    /// The scalar, to be changed in place.
    pub fn as_mut_ptr(&mut self) -> (r: &mut Tweak)
        ensures
            r@ == old(self)@,
            final(self)@ == final(r)@,
    {
        &mut self.0
    }
}

/// Reading back the 32 bytes written for a partial signature gives the same
/// partial signature.
pub proof fn lemma_partial_sig_round_trip(bytes: Seq<u8>)
    requires
        bytes.len() == 32,
        be(bytes) < order(),
    ensures
        scalar_parse(bytes) == Ok::<Seq<u8>, ParseError>(bytes),
{
}

/// Signing with a nonce that a signing call has used fails with
/// `NonceReuse`, whatever the session, cache and key: signing leaves the
/// nonce zeroed, so a second signature with it is never produced.
pub proof fn lemma_nonce_single_use(sess: SessionView, cache: KeyAggView, sk: nat)
    ensures
        sign_outcome(sess, cache, sk, (0nat, 0nat)) == Err::<nat, MusigSignError>(
            MusigSignError::NonceReuse,
        ),
{
}

/// Parity of a point's y-coordinate.
#[derive(Debug, Clone, Copy, PartialEq, Eq, Hash, Structural)]
pub enum Parity {
    Even,
    Odd,
}

/// The context that every signer derives alike from the aggregate nonce, the
/// message, the cache and the optional adaptor point.
#[derive(Debug, Clone, Copy, PartialEq, Eq)]
pub struct MusigSession {
    noncecoef: Tweak,
    fin_nonce_x: [u8; 32],
    fin_nonce_odd: bool,
    challenge: Tweak,
    s_part: Tweak,
}

impl View for MusigSession {
    type V = SessionView;

    closed spec fn view(&self) -> SessionView {
        SessionView {
            b: self.noncecoef.value(),
            r_x: self.fin_nonce_x@,
            r_odd: self.fin_nonce_odd,
            e: self.challenge.value(),
            s_part: self.s_part.value(),
        }
    }
}

/// `k` negated modulo the group order where `negate` holds.
fn cond_neg(k: &[u8; 32], negate: bool) -> (r: [u8; 32])
    requires
        be(k@) < order(),
    ensures
        be(r@) == (if negate {
            neg_mod(be(k@))
        } else {
            be(k@)
        }),
        be(r@) < order(),
{
    if negate {
        proof {
            vstd::arithmetic::div_mod::lemma_mod_bound((order() - be(k@)) as int, order() as int);
        }
        scalar_neg(k)
    } else {
        *k
    }
}

proof fn lemma_mod_lt(x: nat)
    ensures
        x % order() < order(),
{
    vstd::arithmetic::div_mod::lemma_mod_bound(x as int, order() as int);
}

/// The signature `x || s`.
fn signature_bytes(x: &[u8; 32], s: &[u8; 32]) -> (r: [u8; 64])
    ensures
        r@ == x@ + s@,
{
    let mut r: [u8; 64] = [0u8; 64];
    let mut i: usize = 0;
    while i < 64
        invariant
            0 <= i <= 64,
            r@.len() == 64,
            forall|j: int|
                0 <= j < i ==> r@[j] == (if j < 32 {
                    x@[j]
                } else {
                    s@[j - 32]
                }),
        decreases 64 - i,
    {
        if i < 32 {
            r[i] = x[i];
        } else {
            r[i] = s[i - 32];
        }
        i = i + 1;
    }
    proof {
        assert(r@ =~= x@ + s@);
    }
    r
}

/// The sum of the partial signatures, starting from the session's share.
pub open spec fn sig_total(s_part: nat, sigs: Seq<nat>, n: int) -> nat
    decreases n,
{
    if n <= 0 {
        s_part
    } else {
        add_mod(sig_total(s_part, sigs, n - 1), sigs[n - 1])
    }
}

pub open spec fn sig_values(sigs: Seq<MusigPartialSignature>) -> Seq<nat> {
    sigs.map_values(|s: MusigPartialSignature| s.value())
}

impl MusigSession {
    /// Derives the session: the binding coefficient, the final nonce and its
    /// parity, the challenge, and the share of the key tweaks.
    pub fn new(
        key_agg_cache: &MusigKeyAggCache,
        agg_nonce: MusigAggNonce,
        msg: [u8; 32],
        adaptor: Option<PublicKey>,
    ) -> (r: MusigSession)
        ensures
            r@ == session_of(key_agg_cache@, agg_nonce@, msg@, opt_view(adaptor)),
    {
        let q = key_agg_cache.pubkey();
        let qx = q.x_only_public_key().serialize();
        let pts = agg_nonce.as_ptr();
        let r1 = pts[0];
        let r2 = pts[1];
        let mut buf: Vec<u8> = Vec::new();
        append(&mut buf, &r1.serialize());
        append(&mut buf, &r2.serialize());
        append(&mut buf, &qx);
        append(&mut buf, &msg);
        let coef_tag = tag_noncecoef_bytes();
        let b = tagged_scalar(&coef_tag, buf.as_slice());
        let sum = add_points(Some(r1), scale_point(Some(r2), &b));
        let fin = match add_points(sum, adaptor) {
            Some(p) => p,
            None => {
                let one = one_bytes();
                PublicKey::from_scalar(&one)
            },
        };
        let rx = fin.x_only_public_key().serialize();
        let r_odd = fin.has_odd_y();
        let mut cbuf: Vec<u8> = Vec::new();
        append(&mut cbuf, &rx);
        append(&mut cbuf, &qx);
        append(&mut cbuf, &msg);
        let challenge_tag = tag_challenge_bytes();
        let e = tagged_scalar(&challenge_tag, cbuf.as_slice());
        let tacc = key_agg_cache.tweak_acc().to_bytes();
        let gt = cond_neg(&tacc, q.has_odd_y());
        let s_part = scalar_mul(&e, &gt);
        proof {
            lemma_mod_lt(be(e@) * be(gt@));
            assert(buf@ =~= agg_nonce@.0 + agg_nonce@.1 + x_of(key_agg_cache@.pk) + msg@);
            assert(cbuf@ =~= x_of(fin@) + x_of(key_agg_cache@.pk) + msg@);
        }
        MusigSession {
            noncecoef: Tweak::from_reduced(b),
            fin_nonce_x: rx,
            fin_nonce_odd: r_odd,
            challenge: Tweak::from_reduced(e),
            s_part: Tweak::from_reduced(s_part),
        }
    }

    /// The parity of the final nonce, which the adaptor operations need.
    pub fn nonce_parity(&self) -> (r: Parity)
        ensures
            r == (if self@.r_odd {
                Parity::Odd
            } else {
                Parity::Even
            }),
    {
        if self.fin_nonce_odd {
            Parity::Odd
        } else {
            Parity::Even
        }
    }

    /// Signs with a secret nonce, which this call zeroes whatever it returns.
    /// Fails with `NonceReuse` for a nonce that is already zeroed.
    pub fn partial_sign(
        &self,
        secnonce: &mut MusigSecNonce,
        sec_key: &SecretKey,
        key_agg_cache: &MusigKeyAggCache,
    ) -> (r: Result<MusigPartialSignature, MusigSignError>)
        ensures
            final(secnonce).is_used(),
            match r {
                Ok(s) => sign_outcome(self@, key_agg_cache@, sec_key.value(), old(secnonce)@)
                    == Ok::<nat, MusigSignError>(s.value()),
                Err(e) => sign_outcome(self@, key_agg_cache@, sec_key.value(), old(secnonce)@)
                    == Err::<nat, MusigSignError>(e),
            },
    {
        let k = secnonce.take();
        let k1 = k[0].to_bytes();
        let k2 = k[1].to_bytes();
        if is_zero(&k1) && is_zero(&k2) {
            return Err(MusigSignError::NonceReuse);
        }
        let k1n = cond_neg(&k1, self.fin_nonce_odd);
        let k2n = cond_neg(&k2, self.fin_nonce_odd);
        let skb = sec_key.to_bytes();
        let p = PublicKey::from_secret_key(sec_key);
        let x = p.x_only_public_key().serialize();
        let a = key_coefficient(&key_agg_cache.pk_hash(), &key_agg_cache.second_pk(), &x);
        let negate = (key_agg_cache.pubkey().has_odd_y() != key_agg_cache.parity_acc())
            != p.has_odd_y();
        let d = cond_neg(&skb, negate);
        let b = self.noncecoef.to_bytes();
        let e = self.challenge.to_bytes();
        let bk2 = scalar_mul(&b, &k2n);
        proof {
            lemma_mod_lt(be(b@) * be(k2n@));
        }
        let first = scalar_add(&k1n, &bk2);
        proof {
            lemma_mod_lt(be(k1n@) + be(bk2@));
        }
        let ad = scalar_mul(&a, &d);
        proof {
            lemma_mod_lt(be(a@) * be(d@));
        }
        let ead = scalar_mul(&e, &ad);
        proof {
            lemma_mod_lt(be(e@) * be(ad@));
        }
        let s = scalar_add(&first, &ead);
        proof {
            lemma_mod_lt(be(first@) + be(ead@));
        }
        Ok(MusigPartialSignature(Tweak::from_reduced(s)))
    }

    /// Checks one signer's partial signature against their public nonce and
    /// x-only key: whether `s·G` equals the point that the session expects.
    pub fn partial_verify(
        &self,
        key_agg_cache: &MusigKeyAggCache,
        partial_sig: MusigPartialSignature,
        pub_nonce: MusigPubNonce,
        pub_key: XOnlyPublicKey,
    ) -> (r: bool)
        ensures
            r == (gen_opt(partial_sig.value()) == expected_point(
                self@,
                key_agg_cache@,
                pub_nonce@,
                pub_key@,
            )),
    {
        let pts = pub_nonce.as_ptr();
        let b = self.noncecoef.to_bytes();
        let re = add_points(Some(pts[0]), scale_point(Some(pts[1]), &b));
        let minus_one = order_minus_one_bytes();
        let re2 = if self.fin_nonce_odd {
            scale_point(re, &minus_one)
        } else {
            re
        };
        let x = pub_key.serialize();
        let a = key_coefficient(&key_agg_cache.pk_hash(), &key_agg_cache.second_pk(), &x);
        let e = self.challenge.to_bytes();
        let ea = scalar_mul(&e, &a);
        proof {
            lemma_mod_lt(be(e@) * be(a@));
        }
        let c = cond_neg(&ea, key_agg_cache.pubkey().has_odd_y() != key_agg_cache.parity_acc());
        let expected = add_points(re2, scale_point(Some(pub_key.to_public_key()), &c));
        let s = partial_sig.serialize();
        let lhs = if is_zero(&s) {
            None
        } else {
            Some(PublicKey::from_scalar(&s))
        };
        same_point(lhs, expected)
    }

    /// Sums the partial signatures and the session's share into the 64-byte
    /// signature `R.x || s`. It verifies under the aggregate key only where
    /// every partial signature is valid and the session has no adaptor.
    pub fn partial_sig_agg(&self, partial_sigs: &[MusigPartialSignature]) -> (r: [u8; 64])
        ensures
            r@.subrange(0, 32) == self@.r_x,
            be(r@.subrange(32, 64)) == sig_total(
                self@.s_part,
                sig_values(partial_sigs@),
                partial_sigs@.len() as int,
            ),
    {
        let ghost vals = sig_values(partial_sigs@);
        let mut acc = self.s_part.to_bytes();
        let mut i: usize = 0;
        while i < partial_sigs.len()
            invariant
                vals == sig_values(partial_sigs@),
                0 <= i <= partial_sigs@.len(),
                be(acc@) < order(),
                be(acc@) == sig_total(self@.s_part, vals, i as int),
            decreases partial_sigs@.len() - i,
        {
            let si = partial_sigs[i].serialize();
            acc = scalar_add(&acc, &si);
            proof {
                lemma_mod_lt(be(acc@));
                vstd::arithmetic::div_mod::lemma_mod_bound(
                    (sig_total(self@.s_part, vals, i as int) + be(si@)) as int,
                    order() as int,
                );
            }
            i = i + 1;
        }
        let r = signature_bytes(&self.fin_nonce_x, &acc);
        proof {
            assert(r@.subrange(0, 32) =~= self.fin_nonce_x@);
            assert(r@.subrange(32, 64) =~= acc@);
        }
        r
    }
}

/// The scalar half of a signature after adapting with `t`.
pub open spec fn adapt_value(s: nat, t: nat, odd: bool) -> nat {
    add_mod(
        s,
        if odd {
            neg_mod(t)
        } else {
            t
        },
    )
}

/// The adaptor secret that explains the difference of two scalar halves.
pub open spec fn extract_value(s_sig: nat, s_pre: nat, odd: bool) -> nat {
    let d = add_mod(s_sig, neg_mod(s_pre));
    if odd {
        neg_mod(d)
    } else {
        d
    }
}

/// Turns a pre-signature into a signature by adding the adaptor secret to its
/// scalar half, negated where the session's nonce parity is odd.
pub fn adapt(pre_sig: [u8; 64], sec_adaptor: Tweak, nonce_parity: Parity) -> (r: [u8; 64])
    requires
        be(pre_sig@.subrange(32, 64)) < order(),
    ensures
        r@.subrange(0, 32) == pre_sig@.subrange(0, 32),
        be(r@.subrange(32, 64)) == adapt_value(
            be(pre_sig@.subrange(32, 64)),
            sec_adaptor.value(),
            nonce_parity == Parity::Odd,
        ),
{
    let rx = copy32(&pre_sig, 0);
    let s = copy32(&pre_sig, 32);
    let t = sec_adaptor.to_bytes();
    let odd = match nonce_parity {
        Parity::Odd => true,
        Parity::Even => false,
    };
    let tn = cond_neg(&t, odd);
    let s2 = scalar_add(&s, &tn);
    let r = signature_bytes(&rx, &s2);
    proof {
        assert(r@.subrange(0, 32) =~= rx@);
        assert(r@.subrange(32, 64) =~= s2@);
    }
    r
}

/// Recovers the adaptor secret from a signature and the pre-signature it was
/// adapted from. On unrelated inputs the result is a meaningless scalar.
pub fn extract_adaptor(sig: [u8; 64], pre_sig: [u8; 64], nonce_parity: Parity) -> (r: Tweak)
    requires
        be(sig@.subrange(32, 64)) < order(),
        be(pre_sig@.subrange(32, 64)) < order(),
    ensures
        r.value() == extract_value(
            be(sig@.subrange(32, 64)),
            be(pre_sig@.subrange(32, 64)),
            nonce_parity == Parity::Odd,
        ),
{
    let s = copy32(&sig, 32);
    let p = copy32(&pre_sig, 32);
    let pn = scalar_neg(&p);
    proof {
        vstd::arithmetic::div_mod::lemma_mod_bound((order() - be(p@)) as int, order() as int);
    }
    let d = scalar_add(&s, &pn);
    proof {
        lemma_mod_lt(be(s@) + be(pn@));
    }
    let odd = match nonce_parity {
        Parity::Odd => true,
        Parity::Even => false,
    };
    let t = cond_neg(&d, odd);
    Tweak::from_reduced(t)
}

/// Extracting from the adapted signature and its pre-signature gives back
/// the adaptor secret, for every scalar half, secret and nonce parity.
pub proof fn lemma_adaptor_round_trip(s: nat, t: nat, odd: bool)
    requires
        s < order(),
        t < order(),
    ensures
        extract_value(adapt_value(s, t, odd), s, odd) == t,
{
    let n = order();
    let tt = if odd {
        neg_mod(t)
    } else {
        t
    };
    lemma_mod_lt((n - t) as nat);
    vstd::arithmetic::div_mod::lemma_small_mod(t, n);
    vstd::arithmetic::div_mod::lemma_small_mod(s, n);
    let a = adapt_value(s, t, odd);
    assert(a == (s + tt) % n);
    let d = add_mod(a, neg_mod(s));
    // d == tt
    vstd::arithmetic::div_mod::lemma_add_mod_noop((s + tt) as int, (n - s) as int, n as int);
    vstd::arithmetic::div_mod::lemma_mod_twice((n - s) as int, n as int);
    assert((s + tt + (n - s)) as int == tt + n);
    vstd::arithmetic::div_mod::lemma_mod_add_multiples_vanish(tt as int, n as int);
    vstd::arithmetic::div_mod::lemma_small_mod(tt, n);
    assert(d == tt);
    if odd {
        // neg_mod(neg_mod(t)) == t
        if t == 0 {
            vstd::arithmetic::div_mod::lemma_mod_self_0(n as int);
        } else {
            vstd::arithmetic::div_mod::lemma_small_mod((n - t) as nat, n);
            vstd::arithmetic::div_mod::lemma_small_mod(t, n);
        }
    }
}

} // verus!
