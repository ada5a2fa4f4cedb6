//! Key aggregation and tweaking of the aggregate key.
use crate::errors::MusigTweakErr;
use crate::hash::{
    append, hash_scalar, tag_keyagg_coef, tag_keyagg_coef_bytes, tag_keyagg_list,
    tag_keyagg_list_bytes, tagged, tagged_hash, tagged_scalar,
};
use crate::point::{
    add_points, eq32, gen_point, has_odd_y, lift_x, opt_add, opt_scale, opt_view, scale_point, x_of,
    PublicKey, XOnlyPublicKey,
};
use crate::scalar::{
    add_mod, be, is_zero, neg_mod, one_bytes, order, order_minus_one_bytes, scalar_add, scalar_neg,
    Tweak,
};
use vstd::prelude::*;

verus! {

/// The x-coordinates of a list of keys.
pub open spec fn keys_view(keys: Seq<XOnlyPublicKey>) -> Seq<Seq<u8>> {
    keys.map_values(|k: XOnlyPublicKey| k@)
}

/// The keys written one after the other.
pub open spec fn concat_keys(keys: Seq<Seq<u8>>) -> Seq<u8>
    decreases keys.len(),
{
    if keys.len() == 0 {
        Seq::empty()
    } else {
        concat_keys(keys.drop_last()) + keys.last()
    }
}

/// The hash that commits to the ordered list of keys.
pub open spec fn list_hash(keys: Seq<Seq<u8>>) -> Seq<u8> {
    tagged(tag_keyagg_list(), concat_keys(keys))
}

/// The first key from position `i` on that differs from the first key.
pub open spec fn second_from(keys: Seq<Seq<u8>>, i: int) -> Option<Seq<u8>>
    decreases keys.len() - i,
{
    if i < 1 || i >= keys.len() {
        None
    } else if keys[i] != keys[0] {
        Some(keys[i])
    } else {
        second_from(keys, i + 1)
    }
}

/// The first key of the list that differs from the first key: its
/// coefficient is one.
pub open spec fn second_key(keys: Seq<Seq<u8>>) -> Option<Seq<u8>> {
    second_from(keys, 1)
}

/// The aggregation coefficient of key `x`.
pub open spec fn key_coef(pk_hash: Seq<u8>, second: Option<Seq<u8>>, x: Seq<u8>) -> nat {
    if second == Some(x) {
        1
    } else {
        hash_scalar(tag_keyagg_coef(), pk_hash + x)
    }
}

/// The sum of the first `n` keys, each multiplied by its coefficient.
pub open spec fn agg_sum(
    keys: Seq<Seq<u8>>,
    pk_hash: Seq<u8>,
    second: Option<Seq<u8>>,
    n: int,
) -> Option<Seq<u8>>
    decreases n,
{
    if n <= 0 {
        None
    } else {
        opt_add(
            agg_sum(keys, pk_hash, second, n - 1),
            opt_scale(Some(lift_x(keys[n - 1])), key_coef(pk_hash, second, keys[n - 1])),
        )
    }
}

/// The aggregate point of a list of x-only keys; `None` when it is the point
/// at infinity (also for an empty list).
pub open spec fn key_agg_point(keys: Seq<Seq<u8>>) -> Option<Seq<u8>> {
    agg_sum(keys, list_hash(keys), second_key(keys), keys.len() as int)
}

pub open spec fn opt32(o: Option<[u8; 32]>) -> Option<Seq<u8>> {
    match o {
        Some(x) => Some(x@),
        None => None,
    }
}

/// The abstract content of a key-aggregation cache.
pub struct KeyAggView {
    /// Commitment to the ordered list of keys.
    pub pk_hash: Seq<u8>,
    /// The key whose coefficient is one, if any key differs from the first.
    pub second_pk: Option<Seq<u8>>,
    /// The current aggregate point, tweaks included.
    pub pk: Seq<u8>,
    /// Whether the tweaks so far negated the aggregate an odd number of times.
    pub parity_acc: bool,
    /// The accumulated tweak.
    pub tweak: nat,
    /// The x-only aggregate key, before any tweak.
    pub agg_pk: Seq<u8>,
}

/// What key aggregation produces and signing needs: the commitment to the
/// keys, the designated second key, the aggregate point and the accumulated
/// tweak state.
#[derive(Debug, Clone, Copy, PartialEq, Eq)]
pub struct MusigKeyAggCache {
    pk_hash: [u8; 32],
    second_pk: Option<[u8; 32]>,
    pk: PublicKey,
    parity_acc: bool,
    tweak: Tweak,
    agg_pk: XOnlyPublicKey,
}

impl View for MusigKeyAggCache {
    type V = KeyAggView;

    closed spec fn view(&self) -> KeyAggView {
        KeyAggView {
            pk_hash: self.pk_hash@,
            second_pk: opt32(self.second_pk),
            pk: self.pk@,
            parity_acc: self.parity_acc,
            tweak: self.tweak.value(),
            agg_pk: self.agg_pk@,
        }
    }
}

/// Computes the commitment to the keys, the second key and the aggregate point.
fn key_agg_parts(pubkeys: &[XOnlyPublicKey]) -> (r: ([u8; 32], Option<[u8; 32]>, Option<PublicKey>))
    ensures
        r.0@ == list_hash(keys_view(pubkeys@)),
        opt32(r.1) == second_key(keys_view(pubkeys@)),
        opt_view(r.2) == key_agg_point(keys_view(pubkeys@)),
{
    let ghost keys = keys_view(pubkeys@);
    let n = pubkeys.len();
    // the commitment to the list
    let mut buf: Vec<u8> = Vec::new();
    let mut i: usize = 0;
    while i < n
        invariant
            n == pubkeys@.len(),
            keys == keys_view(pubkeys@),
            0 <= i <= n,
            buf@ == concat_keys(keys.subrange(0, i as int)),
        decreases n - i,
    {
        let x = pubkeys[i].serialize();
        append(&mut buf, &x);
        proof {
            assert(keys.subrange(0, i as int + 1).drop_last() =~= keys.subrange(0, i as int));
        }
        i = i + 1;
    }
    proof {
        assert(keys.subrange(0, n as int) =~= keys);
    }
    let list_tag = tag_keyagg_list_bytes();
    let pk_hash = tagged_hash(&list_tag, buf.as_slice());
    // the second key
    let mut second: Option<[u8; 32]> = None;
    if n > 0 {
        let first = pubkeys[0].serialize();
        let mut j: usize = 1;
        while j < n
            invariant_except_break
                second is None,
            invariant
                n == pubkeys@.len(),
                keys == keys_view(pubkeys@),
                n > 0,
                first@ == keys[0],
                1 <= j <= n,
                second_from(keys, 1) == second_from(keys, j as int),
            ensures
                opt32(second) == second_key(keys),
            decreases n - j,
        {
            let x = pubkeys[j].serialize();
            assert(keys[j as int] == x@);
            if !eq32(&x, &first) {
                second = Some(x);
                break;
            }
            j = j + 1;
        }
    }
    // the weighted sum
    let coef_tag = tag_keyagg_coef_bytes();
    let mut acc: Option<PublicKey> = None;
    let mut k: usize = 0;
    while k < n
        invariant
            n == pubkeys@.len(),
            keys == keys_view(pubkeys@),
            0 <= k <= n,
            pk_hash@ == list_hash(keys),
            opt32(second) == second_key(keys),
            coef_tag@ == tag_keyagg_coef(),
            opt_view(acc) == agg_sum(keys, pk_hash@, opt32(second), k as int),
        decreases n - k,
    {
        let key = pubkeys[k];
        let x = key.serialize();
        let c = key_coefficient(&pk_hash, &second, &x);
        let term = scale_point(Some(key.to_public_key()), &c);
        acc = add_points(acc, term);
        k = k + 1;
    }
    (pk_hash, second, acc)
}

/// The aggregation coefficient of key `x`.
pub fn key_coefficient(pk_hash: &[u8; 32], second: &Option<[u8; 32]>, x: &[u8; 32]) -> (r: [u8; 32])
    ensures
        be(r@) == key_coef(pk_hash@, opt32(*second), x@),
        be(r@) < order(),
{
    let is_second = match second {
        Some(s) => eq32(s, x),
        None => false,
    };
    if is_second {
        proof {
            assert(opt32(*second) == Some(x@));
        }
        one_bytes()
    } else {
        proof {
            if opt32(*second) == Some(x@) {
                assert(second.unwrap()@ =~= x@);
            }
        }
        let coef_tag = tag_keyagg_coef_bytes();
        let mut msg: Vec<u8> = Vec::new();
        append(&mut msg, pk_hash);
        append(&mut msg, x);
        tagged_scalar(&coef_tag, msg.as_slice())
    }
}

/// The aggregate point after one more tweak by `t`: for an x-only tweak the
/// point is first negated where its y-coordinate is odd; then `t·G` is added.
pub open spec fn tweaked_point(pk: Seq<u8>, t: nat, xonly: bool) -> Option<Seq<u8>> {
    opt_add(
        if xonly && has_odd_y(pk) {
            opt_scale(Some(pk), (order() - 1) as nat)
        } else {
            Some(pk)
        },
        if t == 0 {
            None
        } else {
            Some(gen_point(t))
        },
    )
}

/// The cache after a successful tweak by `t` that gave the point `new_pk`.
pub open spec fn tweaked_cache(c: KeyAggView, t: nat, xonly: bool, new_pk: Seq<u8>) -> KeyAggView {
    let negate = xonly && has_odd_y(c.pk);
    KeyAggView {
        pk_hash: c.pk_hash,
        second_pk: c.second_pk,
        pk: new_pk,
        parity_acc: c.parity_acc != negate,
        tweak: add_mod(
            if negate {
                neg_mod(c.tweak)
            } else {
                c.tweak
            },
            t,
        ),
        agg_pk: c.agg_pk,
    }
}

impl MusigKeyAggCache {
    /// Aggregates an ordered list of x-only keys. A different order gives a
    /// different aggregate key.
    pub fn new(pubkeys: &[XOnlyPublicKey]) -> (r: MusigKeyAggCache)
        requires
            key_agg_point(keys_view(pubkeys@)) is Some,
        ensures
            r@.pk_hash == list_hash(keys_view(pubkeys@)),
            r@.second_pk == second_key(keys_view(pubkeys@)),
            Some(r@.pk) == key_agg_point(keys_view(pubkeys@)),
            r@.agg_pk == x_of(r@.pk),
            !r@.parity_acc,
            r@.tweak == 0,
    {
        let (pk_hash, second_pk, q) = key_agg_parts(pubkeys);
        let pk = q.unwrap();
        let agg_pk = pk.x_only_public_key();
        MusigKeyAggCache { pk_hash, second_pk, pk, parity_acc: false, tweak: Tweak::zero(), agg_pk }
    }

    /// Aggregates an ordered list of x-only keys, or gives `None` where the
    /// list is empty or the aggregate is the point at infinity.
    pub fn try_new(pubkeys: &[XOnlyPublicKey]) -> (r: Option<MusigKeyAggCache>)
        ensures
            r is Some <==> key_agg_point(keys_view(pubkeys@)) is Some,
            r matches Some(c) ==> {
                &&& c@.pk_hash == list_hash(keys_view(pubkeys@))
                &&& c@.second_pk == second_key(keys_view(pubkeys@))
                &&& Some(c@.pk) == key_agg_point(keys_view(pubkeys@))
                &&& c@.agg_pk == x_of(c@.pk)
                &&& !c@.parity_acc
                &&& c@.tweak == 0
            },
    {
        let (_, _, q) = key_agg_parts(pubkeys);
        match q {
            Some(_) => Some(MusigKeyAggCache::new(pubkeys)),
            None => None,
        }
    }

    /// The aggregate x-only key, as key aggregation gave it.
    pub fn agg_pk(&self) -> (r: XOnlyPublicKey)
        ensures
            r@ == self@.agg_pk,
    {
        self.agg_pk
    }

    /// The current aggregate point, tweaks included.
    pub fn pubkey(&self) -> (r: PublicKey)
        ensures
            r@ == self@.pk,
    {
        self.pk
    }

    /// The commitment to the ordered list of keys.
    pub fn pk_hash(&self) -> (r: [u8; 32])
        ensures
            r@ == self@.pk_hash,
    {
        self.pk_hash
    }

    /// The key whose coefficient is one.
    pub fn second_pk(&self) -> (r: Option<[u8; 32]>)
        ensures
            opt32(r) == self@.second_pk,
    {
        self.second_pk
    }

    /// Whether the tweaks negated the aggregate an odd number of times.
    pub fn parity_acc(&self) -> (r: bool)
        ensures
            r == self@.parity_acc,
    {
        self.parity_acc
    }

    /// The accumulated tweak.
    pub fn tweak_acc(&self) -> (r: Tweak)
        ensures
            r.value() == self@.tweak,
    {
        self.tweak
    }

    fn apply_tweak(&mut self, tweak: Tweak, xonly: bool) -> (r: Result<PublicKey, MusigTweakErr>)
        ensures
            match tweaked_point(old(self)@.pk, tweak.value(), xonly) {
                None => r == Err::<PublicKey, MusigTweakErr>(MusigTweakErr::InvalidTweak)
                    && final(self)@ == old(self)@,
                Some(p) => r matches Ok(q) && q@ == p && final(self)@ == tweaked_cache(
                    old(self)@,
                    tweak.value(),
                    xonly,
                    p,
                ),
            },
    {
        let t = tweak.to_bytes();
        let negate = xonly && self.pk.has_odd_y();
        let minus_one = order_minus_one_bytes();
        let base = if negate {
            scale_point(Some(self.pk), &minus_one)
        } else {
            Some(self.pk)
        };
        let tg = if is_zero(&t) {
            None
        } else {
            Some(PublicKey::from_scalar(&t))
        };
        match add_points(base, tg) {
            None => Err(MusigTweakErr::InvalidTweak),
            Some(p) => {
                let acc = self.tweak.to_bytes();
                let signed = if negate {
                    scalar_neg(&acc)
                } else {
                    acc
                };
                proof {
                    vstd::arithmetic::div_mod::lemma_mod_bound(
                        (order() - be(acc@)) as int,
                        order() as int,
                    );
                }
                let sum = scalar_add(&signed, &t);
                proof {
                    vstd::arithmetic::div_mod::lemma_mod_bound(
                        (be(signed@) + be(t@)) as int,
                        order() as int,
                    );
                }
                self.pk = p;
                self.parity_acc = self.parity_acc != negate;
                self.tweak = Tweak::from_reduced(sum);
                Ok(p)
            },
        }
    }

    /// Adds `tweak·G` to the aggregate key, as in BIP32 derivation, and
    /// returns the tweaked key. Fails with `InvalidTweak`, leaving the cache
    /// as it was, when the result is the point at infinity.
    pub fn pubkey_ec_tweak_add(&mut self, tweak: Tweak) -> (r: Result<PublicKey, MusigTweakErr>)
        ensures
            match tweaked_point(old(self)@.pk, tweak.value(), false) {
                None => r == Err::<PublicKey, MusigTweakErr>(MusigTweakErr::InvalidTweak)
                    && final(self)@ == old(self)@,
                Some(p) => r matches Ok(q) && q@ == p && final(self)@ == tweaked_cache(
                    old(self)@,
                    tweak.value(),
                    false,
                    p,
                ),
            },
    {
        self.apply_tweak(tweak, false)
    }

    /// Negates the aggregate key where its y-coordinate is odd, adds
    /// `tweak·G`, as in taproot outputs, and returns the x-only tweaked key.
    /// Fails with `InvalidTweak`, leaving the cache as it was, when the result
    /// is the point at infinity.
    pub fn pubkey_xonly_tweak_add(&mut self, tweak: Tweak) -> (r: Result<
        XOnlyPublicKey,
        MusigTweakErr,
    >)
        ensures
            match tweaked_point(old(self)@.pk, tweak.value(), true) {
                None => r == Err::<XOnlyPublicKey, MusigTweakErr>(MusigTweakErr::InvalidTweak)
                    && final(self)@ == old(self)@,
                Some(p) => r matches Ok(q) && q@ == x_of(p) && final(self)@ == tweaked_cache(
                    old(self)@,
                    tweak.value(),
                    true,
                    p,
                ),
            },
    {
        match self.apply_tweak(tweak, true) {
            Ok(p) => Ok(p.x_only_public_key()),
            Err(e) => Err(e),
        }
    }
}

/// Key aggregation is deterministic: equal ordered lists of keys give equal
/// commitments, equal designated second keys and equal aggregate points.
pub proof fn lemma_key_agg_deterministic(a: Seq<XOnlyPublicKey>, b: Seq<XOnlyPublicKey>)
    requires
        keys_view(a) == keys_view(b),
    ensures
        list_hash(keys_view(a)) == list_hash(keys_view(b)),
        second_key(keys_view(a)) == second_key(keys_view(b)),
        key_agg_point(keys_view(a)) == key_agg_point(keys_view(b)),
{
}

} // verus!
