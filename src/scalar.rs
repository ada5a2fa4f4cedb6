//! Scalars modulo the secp256k1 group order, held as 32 big-endian bytes.
use vstd::prelude::*;

verus! {

/// The order of the secp256k1 group.
pub open spec fn order() -> nat {
    ((0xffff_ffff_ffff_ffff * 0x1_0000_0000_0000_0000 + 0xffff_ffff_ffff_fffe) * 0x1_0000_0000_0000_0000
        + 0xbaae_dce6_af48_a03b) * 0x1_0000_0000_0000_0000 + 0xbfd2_5e8c_d036_4141
}

/// `256^n`.
pub open spec fn pow256(n: nat) -> nat
    decreases n,
{
    if n == 0 {
        1
    } else {
        256 * pow256((n - 1) as nat)
    }
}

/// The number that a byte string denotes, most significant byte first.
pub open spec fn be(s: Seq<u8>) -> nat
    decreases s.len(),
{
    if s.len() == 0 {
        0
    } else {
        s[0] as nat * pow256((s.len() - 1) as nat) + be(s.drop_first())
    }
}

pub proof fn lemma_pow256_pos(n: nat)
    ensures
        pow256(n) > 0,
    decreases n,
{
    if n > 0 {
        lemma_pow256_pos((n - 1) as nat);
    }
}

/// A string of `n` bytes denotes a number below `256^n`.
pub proof fn lemma_be_bound(s: Seq<u8>)
    ensures
        be(s) < pow256(s.len()),
    decreases s.len(),
{
    if s.len() > 0 {
        let p = pow256((s.len() - 1) as nat);
        lemma_be_bound(s.drop_first());
        assert(s[0] as nat * p <= 255 * p) by (nonlinear_arith)
            requires
                s[0] <= 255,
        ;
    }
}

/// Subtracts `b` from `a`, byte by byte from the least significant end.
/// The second result is the final borrow: it is set exactly when `a < b`.
pub fn sub_with_borrow(a: &[u8; 32], b: &[u8; 32]) -> (r: ([u8; 32], bool))
    ensures
        be(r.0@) + be(b@) == be(a@) + (if r.1 { pow256(32) } else { 0 }),
        r.1 == (be(a@) < be(b@)),
{
    let mut out: [u8; 32] = [0u8; 32];
    let mut borrow: bool = false;
    let mut i: usize = 32;
    while i > 0
        invariant
            0 <= i <= 32,
            be(out@.subrange(i as int, 32)) + be(b@.subrange(i as int, 32)) == be(
                a@.subrange(i as int, 32),
            ) + (if borrow { pow256((32 - i) as nat) } else { 0 }),
        decreases i,
    {
        let j: usize = i - 1;
        let bin: i16 = if borrow { 1 } else { 0 };
        let x: i16 = a[j] as i16 - b[j] as i16 - bin;
        let d: u8;
        if x < 0 {
            d = (x + 256) as u8;
            borrow = true;
        } else {
            d = x as u8;
            borrow = false;
        }
        let ghost prev = out@;
        out[j] = d;
        proof {
            let p = pow256((32 - i) as nat);
            let nb: int = if borrow { 1 } else { 0 };
            let aj = a[j as int] as int;
            let bj = b[j as int] as int;
            assert(d as int + bj + bin as int == aj + 256 * nb);
            assert(out@.subrange(j as int, 32).drop_first() =~= out@.subrange(i as int, 32));
            assert(out@.subrange(i as int, 32) =~= prev.subrange(i as int, 32));
            assert(a@.subrange(j as int, 32).drop_first() =~= a@.subrange(i as int, 32));
            assert(b@.subrange(j as int, 32).drop_first() =~= b@.subrange(i as int, 32));
            assert(pow256((32 - j) as nat) == 256 * p);
            assert((d as int) * p + bj * p + (bin as int) * p == aj * p + nb * (256 * p))
                by (nonlinear_arith)
                requires
                    d as int + bj + bin as int == aj + 256 * nb,
            ;
        }
        i = j;
    }
    proof {
        assert(out@.subrange(0, 32) =~= out@);
        assert(a@.subrange(0, 32) =~= a@);
        assert(b@.subrange(0, 32) =~= b@);
        lemma_be_bound(out@);
        lemma_be_bound(a@);
        lemma_be_bound(b@);
    }
    (out, borrow)
}

/// Appending a byte shifts the number one byte up.
pub proof fn lemma_be_push(s: Seq<u8>, x: u8)
    ensures
        be(s.push(x)) == 256 * be(s) + x,
    decreases s.len(),
{
    if s.len() > 0 {
        lemma_be_push(s.drop_first(), x);
        assert(s.push(x).drop_first() =~= s.drop_first().push(x));
        let p = pow256((s.len() - 1) as nat);
        assert(pow256(s.len()) == 256 * p);
        assert(s.push(x)[0] == s[0]);
        assert(s[0] as nat * (256 * p) == 256 * (s[0] as nat * p)) by (nonlinear_arith);
        assert(be(s.push(x)) == s[0] as nat * pow256(s.len()) + be(s.drop_first().push(x)));
        assert(be(s) == s[0] as nat * p + be(s.drop_first()));
    } else {
        assert(s.push(x).drop_first() =~= Seq::<u8>::empty());
        assert(pow256(0) == 1);
        assert(be(Seq::<u8>::empty()) == 0);
        assert(be(s) == 0);
    }
}

/// The group order as 32 big-endian bytes.
pub fn order_bytes() -> (r: [u8; 32])
    ensures
        be(r@) == order(),
{
    let r: [u8; 32] = [
        0xff, 0xff, 0xff, 0xff, 0xff, 0xff, 0xff, 0xff, 0xff, 0xff, 0xff, 0xff, 0xff, 0xff, 0xff,
        0xfe, 0xba, 0xae, 0xdc, 0xe6, 0xaf, 0x48, 0xa0, 0x3b, 0xbf, 0xd2, 0x5e, 0x8c, 0xd0, 0x36,
        0x41, 0x41,
    ];
    proof {
let s0 = Seq::<u8>::empty();
        let s1 = s0.push(0xff);
        lemma_be_push(s0, 0xff);
        let s2 = s1.push(0xff);
        lemma_be_push(s1, 0xff);
        let s3 = s2.push(0xff);
        lemma_be_push(s2, 0xff);
        let s4 = s3.push(0xff);
        lemma_be_push(s3, 0xff);
        let s5 = s4.push(0xff);
        lemma_be_push(s4, 0xff);
        let s6 = s5.push(0xff);
        lemma_be_push(s5, 0xff);
        let s7 = s6.push(0xff);
        lemma_be_push(s6, 0xff);
        let s8 = s7.push(0xff);
        lemma_be_push(s7, 0xff);
        let s9 = s8.push(0xff);
        lemma_be_push(s8, 0xff);
        let s10 = s9.push(0xff);
        lemma_be_push(s9, 0xff);
        let s11 = s10.push(0xff);
        lemma_be_push(s10, 0xff);
        let s12 = s11.push(0xff);
        lemma_be_push(s11, 0xff);
        let s13 = s12.push(0xff);
        lemma_be_push(s12, 0xff);
        let s14 = s13.push(0xff);
        lemma_be_push(s13, 0xff);
        let s15 = s14.push(0xff);
        lemma_be_push(s14, 0xff);
        let s16 = s15.push(0xfe);
        lemma_be_push(s15, 0xfe);
        let s17 = s16.push(0xba);
        lemma_be_push(s16, 0xba);
        let s18 = s17.push(0xae);
        lemma_be_push(s17, 0xae);
        let s19 = s18.push(0xdc);
        lemma_be_push(s18, 0xdc);
        let s20 = s19.push(0xe6);
        lemma_be_push(s19, 0xe6);
        let s21 = s20.push(0xaf);
        lemma_be_push(s20, 0xaf);
        let s22 = s21.push(0x48);
        lemma_be_push(s21, 0x48);
        let s23 = s22.push(0xa0);
        lemma_be_push(s22, 0xa0);
        let s24 = s23.push(0x3b);
        lemma_be_push(s23, 0x3b);
        let s25 = s24.push(0xbf);
        lemma_be_push(s24, 0xbf);
        let s26 = s25.push(0xd2);
        lemma_be_push(s25, 0xd2);
        let s27 = s26.push(0x5e);
        lemma_be_push(s26, 0x5e);
        let s28 = s27.push(0x8c);
        lemma_be_push(s27, 0x8c);
        let s29 = s28.push(0xd0);
        lemma_be_push(s28, 0xd0);
        let s30 = s29.push(0x36);
        lemma_be_push(s29, 0x36);
        let s31 = s30.push(0x41);
        lemma_be_push(s30, 0x41);
        let s32 = s31.push(0x41);
        lemma_be_push(s31, 0x41);
        assert(r@ =~= s32);
    }
    r
}


/// The group order minus one, as 32 big-endian bytes.
pub fn order_minus_one_bytes() -> (r: [u8; 32])
    ensures
        be(r@) == order() - 1,
{
    let r: [u8; 32] = [
        0xff, 0xff, 0xff, 0xff, 0xff, 0xff, 0xff, 0xff, 0xff, 0xff, 0xff, 0xff, 0xff, 0xff, 0xff,
        0xfe, 0xba, 0xae, 0xdc, 0xe6, 0xaf, 0x48, 0xa0, 0x3b, 0xbf, 0xd2, 0x5e, 0x8c, 0xd0, 0x36,
        0x41, 0x40,
    ];
    proof {
        let s0 = Seq::<u8>::empty();
        let s1 = s0.push(0xff);
        lemma_be_push(s0, 0xff);
        let s2 = s1.push(0xff);
        lemma_be_push(s1, 0xff);
        let s3 = s2.push(0xff);
        lemma_be_push(s2, 0xff);
        let s4 = s3.push(0xff);
        lemma_be_push(s3, 0xff);
        let s5 = s4.push(0xff);
        lemma_be_push(s4, 0xff);
        let s6 = s5.push(0xff);
        lemma_be_push(s5, 0xff);
        let s7 = s6.push(0xff);
        lemma_be_push(s6, 0xff);
        let s8 = s7.push(0xff);
        lemma_be_push(s7, 0xff);
        let s9 = s8.push(0xff);
        lemma_be_push(s8, 0xff);
        let s10 = s9.push(0xff);
        lemma_be_push(s9, 0xff);
        let s11 = s10.push(0xff);
        lemma_be_push(s10, 0xff);
        let s12 = s11.push(0xff);
        lemma_be_push(s11, 0xff);
        let s13 = s12.push(0xff);
        lemma_be_push(s12, 0xff);
        let s14 = s13.push(0xff);
        lemma_be_push(s13, 0xff);
        let s15 = s14.push(0xff);
        lemma_be_push(s14, 0xff);
        let s16 = s15.push(0xfe);
        lemma_be_push(s15, 0xfe);
        let s17 = s16.push(0xba);
        lemma_be_push(s16, 0xba);
        let s18 = s17.push(0xae);
        lemma_be_push(s17, 0xae);
        let s19 = s18.push(0xdc);
        lemma_be_push(s18, 0xdc);
        let s20 = s19.push(0xe6);
        lemma_be_push(s19, 0xe6);
        let s21 = s20.push(0xaf);
        lemma_be_push(s20, 0xaf);
        let s22 = s21.push(0x48);
        lemma_be_push(s21, 0x48);
        let s23 = s22.push(0xa0);
        lemma_be_push(s22, 0xa0);
        let s24 = s23.push(0x3b);
        lemma_be_push(s23, 0x3b);
        let s25 = s24.push(0xbf);
        lemma_be_push(s24, 0xbf);
        let s26 = s25.push(0xd2);
        lemma_be_push(s25, 0xd2);
        let s27 = s26.push(0x5e);
        lemma_be_push(s26, 0x5e);
        let s28 = s27.push(0x8c);
        lemma_be_push(s27, 0x8c);
        let s29 = s28.push(0xd0);
        lemma_be_push(s28, 0xd0);
        let s30 = s29.push(0x36);
        lemma_be_push(s29, 0x36);
        let s31 = s30.push(0x41);
        lemma_be_push(s30, 0x41);
        let s32 = s31.push(0x40);
        lemma_be_push(s31, 0x40);
        assert(r@ =~= s32);
    }
    r
}

pub proof fn lemma_pow256_32()
    ensures
        pow256(32) == 0x1_0000_0000_0000_0000 * 0x1_0000_0000_0000_0000 * 0x1_0000_0000_0000_0000
            * 0x1_0000_0000_0000_0000,
        pow256(32) < 2 * order(),
{
    reveal_with_fuel(pow256, 33);
}

/// A byte string denotes zero exactly when every byte is zero.
pub proof fn lemma_be_zero(s: Seq<u8>)
    ensures
        (be(s) == 0) <==> (forall|i: int| 0 <= i < s.len() ==> s[i] == 0),
    decreases s.len(),
{
    if s.len() > 0 {
        lemma_be_zero(s.drop_first());
        lemma_pow256_pos((s.len() - 1) as nat);
        let p = pow256((s.len() - 1) as nat);
        if s[0] != 0 {
            assert(s[0] as nat * p >= p) by (nonlinear_arith)
                requires
                    s[0] >= 1,
            ;
        }
        if forall|i: int| 0 <= i < s.len() ==> s[i] == 0 {
            assert(forall|i: int| 0 <= i < s.len() - 1 ==> s.drop_first()[i] == s[i + 1]);
        }
        if be(s) == 0 {
            assert forall|i: int| 0 <= i < s.len() implies s[i] == 0 by {
                if i > 0 {
                    assert(s.drop_first()[i - 1] == s[i]);
                }
            }
        }
    }
}

/// Tests whether the number that `a` denotes is zero.
pub fn is_zero(a: &[u8; 32]) -> (r: bool)
    ensures
        r == (be(a@) == 0),
{
    proof {
        lemma_be_zero(a@);
    }
    let mut i: usize = 0;
    while i < 32
        invariant
            0 <= i <= 32,
            forall|j: int| 0 <= j < i ==> a@[j] == 0,
        decreases 32 - i,
    {
        if a[i] != 0 {
            proof {
                lemma_be_zero(a@);
                assert(a@[i as int] != 0);
                assert(!(forall|j: int| 0 <= j < a@.len() ==> a@[j] == 0));
            }
            return false;
        }
        i = i + 1;
    }
    true
}

/// Tests whether `a` denotes a number below the group order.
pub fn below_order(a: &[u8; 32]) -> (r: bool)
    ensures
        r == (be(a@) < order()),
{
    let n = order_bytes();
    let (_, borrow) = sub_with_borrow(a, &n);
    borrow
}

/// Reduces a 32-byte string modulo the group order.
pub fn reduce(h: &[u8; 32]) -> (r: [u8; 32])
    ensures
        be(r@) == be(h@) % order(),
{
    let n = order_bytes();
    let (d, borrow) = sub_with_borrow(h, &n);
    proof {
        lemma_pow256_32();
        lemma_be_bound(h@);
        if !borrow {
            vstd::arithmetic::div_mod::lemma_fundamental_div_mod_converse(
                be(h@) as int,
                order() as int,
                1,
                be(d@) as int,
            );
        } else {
            vstd::arithmetic::div_mod::lemma_small_mod(be(h@), order());
        }
    }
    if borrow {
        *h
    } else {
        d
    }
}

/// `(a + b) mod n`.
pub open spec fn add_mod(a: nat, b: nat) -> nat {
    (a + b) % order()
}

/// `(a * b) mod n`.
pub open spec fn mul_mod(a: nat, b: nat) -> nat {
    (a * b) % order()
}

/// `-a mod n`.
pub open spec fn neg_mod(a: nat) -> nat {
    ((order() - a) as nat) % order()
}

/// Relies on secp256k1's `SecretKey::add_tweak`: the sum modulo the group
/// order, refused exactly when that sum is zero.
#[verifier::external_body]
fn seckey_add_tweak(a: &[u8; 32], b: &[u8; 32]) -> (r: Option<[u8; 32]>)
    requires
        0 < be(a@) < order(),
        be(b@) < order(),
    ensures
        r is Some <==> add_mod(be(a@), be(b@)) != 0,
        r matches Some(x) ==> be(x@) == add_mod(be(a@), be(b@)),
{
    let k = secp256k1::SecretKey::from_slice(a).unwrap();
    let t = secp256k1::Scalar::from_be_bytes(*b).unwrap();
    k.add_tweak(&t).ok().map(|s| s.secret_bytes())
}

/// Relies on secp256k1's `SecretKey::mul_tweak`: the product modulo the group
/// order, which it refuses only for a zero factor.
#[verifier::external_body]
fn seckey_mul_tweak(a: &[u8; 32], b: &[u8; 32]) -> (r: Option<[u8; 32]>)
    requires
        0 < be(a@) < order(),
        0 < be(b@) < order(),
    ensures
        r is Some,
        r matches Some(x) ==> be(x@) == mul_mod(be(a@), be(b@)),
{
    let k = secp256k1::SecretKey::from_slice(a).unwrap();
    let t = secp256k1::Scalar::from_be_bytes(*b).unwrap();
    k.mul_tweak(&t).ok().map(|s| s.secret_bytes())
}

/// Relies on secp256k1's `SecretKey::negate`: the group order minus the key.
#[verifier::external_body]
fn seckey_negate(a: &[u8; 32]) -> (r: [u8; 32])
    requires
        0 < be(a@) < order(),
    ensures
        be(r@) == order() - be(a@),
{
    secp256k1::SecretKey::from_slice(a).unwrap().negate().secret_bytes()
}

/// The scalar zero.
pub fn zero_bytes() -> (r: [u8; 32])
    ensures
        be(r@) == 0,
        forall|i: int| 0 <= i < 32 ==> r@[i] == 0,
{
    let r: [u8; 32] = [
        0, 0, 0, 0, 0, 0, 0, 0, 0, 0, 0, 0, 0, 0, 0, 0, 0, 0, 0, 0, 0, 0, 0, 0, 0, 0, 0, 0, 0, 0,
        0, 0,
    ];
    proof {
        lemma_be_zero(r@);
    }
    r
}

/// Addition modulo the group order.
pub fn scalar_add(a: &[u8; 32], b: &[u8; 32]) -> (r: [u8; 32])
    requires
        be(a@) < order(),
        be(b@) < order(),
    ensures
        be(r@) == add_mod(be(a@), be(b@)),
{
    proof {
        vstd::arithmetic::div_mod::lemma_small_mod(be(a@), order());
        vstd::arithmetic::div_mod::lemma_small_mod(be(b@), order());
    }
    if is_zero(a) {
        return *b;
    }
    match seckey_add_tweak(a, b) {
        Some(x) => x,
        None => {
            zero_bytes()
        },
    }
}

/// Multiplication modulo the group order.
pub fn scalar_mul(a: &[u8; 32], b: &[u8; 32]) -> (r: [u8; 32])
    requires
        be(a@) < order(),
        be(b@) < order(),
    ensures
        be(r@) == mul_mod(be(a@), be(b@)),
{
    if is_zero(a) || is_zero(b) {
        proof {
            assert(be(a@) * be(b@) == 0) by (nonlinear_arith)
                requires
                    be(a@) == 0 || be(b@) == 0,
            ;
        }
        return zero_bytes();
    }
    seckey_mul_tweak(a, b).unwrap()
}

/// Negation modulo the group order.
pub fn scalar_neg(a: &[u8; 32]) -> (r: [u8; 32])
    requires
        be(a@) < order(),
    ensures
        be(r@) == neg_mod(be(a@)),
{
    if is_zero(a) {
        proof {
            vstd::arithmetic::div_mod::lemma_mod_self_0(order() as int);
        }
        return *a;
    }
    proof {
        vstd::arithmetic::div_mod::lemma_small_mod((order() - be(a@)) as nat, order());
    }
    seckey_negate(a)
}

/// The scalar one.
pub fn one_bytes() -> (r: [u8; 32])
    ensures
        be(r@) == 1,
{
    let one: [u8; 32] = [
        0, 0, 0, 0, 0, 0, 0, 0, 0, 0, 0, 0, 0, 0, 0, 0, 0, 0, 0, 0, 0, 0, 0, 0, 0, 0, 0, 0, 0, 0,
        0, 1,
    ];
    proof {
        lemma_be_zero(one@.drop_last());
        assert(one@.drop_last().push(1) =~= one@);
        lemma_be_push(one@.drop_last(), 1);
    }
    one
}

/// Reduces a 32-byte string into the nonzero scalars: `(h mod (n - 1)) + 1`.
pub fn reduce_nonzero(h: &[u8; 32]) -> (r: [u8; 32])
    ensures
        be(r@) == be(h@) % ((order() - 1) as nat) + 1,
        0 < be(r@) < order(),
{
    let m = order_minus_one_bytes();
    let (d, borrow) = sub_with_borrow(h, &m);
    let ghost m1 = (order() - 1) as nat;
    proof {
        lemma_pow256_32();
        lemma_be_bound(h@);
        if !borrow {
            vstd::arithmetic::div_mod::lemma_fundamental_div_mod_converse(
                be(h@) as int,
                m1 as int,
                1,
                be(d@) as int,
            );
        } else {
            vstd::arithmetic::div_mod::lemma_small_mod(be(h@), m1);
        }
    }
    let k = if borrow {
        *h
    } else {
        d
    };
    let one = one_bytes();
    proof {
        vstd::arithmetic::div_mod::lemma_small_mod(be(k@) + 1, order());
    }
    scalar_add(&k, &one)
}


/// A scalar modulo the group order; zero is allowed.
#[derive(Clone, Copy, Debug, PartialEq, Eq, Hash)]
pub struct Tweak {
    bytes: [u8; 32],
}

impl View for Tweak {
    type V = Seq<u8>;

    closed spec fn view(&self) -> Seq<u8> {
        self.bytes@
    }
}

impl Tweak {
    #[verifier::type_invariant]
    spec fn inv(&self) -> bool {
        be(self.bytes@) < order()
    }

    /// The scalar's numeric value.
    pub open spec fn value(&self) -> nat {
        be(self@)
    }

    /// Wraps 32 big-endian bytes already known to be below the group order.
    pub fn from_reduced(bytes: [u8; 32]) -> (r: Tweak)
        requires
            be(bytes@) < order(),
        ensures
            r@ == bytes@,
    {
        Tweak { bytes }
    }

    /// Reads 32 big-endian bytes; refused when they are not below the group order.
    pub fn from_bytes(bytes: [u8; 32]) -> (r: Option<Tweak>)
        ensures
            r is Some <==> be(bytes@) < order(),
            r matches Some(t) ==> t@ == bytes@,
    {
        if below_order(&bytes) {
            Some(Tweak { bytes })
        } else {
            None
        }
    }

    /// The scalar zero.
    pub fn zero() -> (r: Tweak)
        ensures
            r.value() == 0,
    {
        Tweak { bytes: zero_bytes() }
    }

    /// The scalar as 32 big-endian bytes.
    pub fn to_bytes(&self) -> (r: [u8; 32])
        ensures
            r@ == self@,
            be(r@) < order(),
    {
        proof {
            use_type_invariant(self);
        }
        self.bytes
    }
}

/// A nonzero scalar modulo the group order, used as a private key.
#[derive(Clone, Copy, Debug, PartialEq, Eq, Hash)]
pub struct SecretKey {
    bytes: [u8; 32],
}

impl View for SecretKey {
    type V = Seq<u8>;

    closed spec fn view(&self) -> Seq<u8> {
        self.bytes@
    }
}

impl SecretKey {
    #[verifier::type_invariant]
    spec fn inv(&self) -> bool {
        0 < be(self.bytes@) < order()
    }

    /// The key's numeric value.
    pub open spec fn value(&self) -> nat {
        be(self@)
    }

    /// Reads 32 big-endian bytes; refused for zero and for values not below the group order.
    pub fn from_bytes(bytes: [u8; 32]) -> (r: Option<SecretKey>)
        ensures
            r is Some <==> 0 < be(bytes@) < order(),
            r matches Some(k) ==> k@ == bytes@,
    {
        if below_order(&bytes) && !is_zero(&bytes) {
            Some(SecretKey { bytes })
        } else {
            None
        }
    }

    /// The key as 32 big-endian bytes.
    pub fn to_bytes(&self) -> (r: [u8; 32])
        ensures
            r@ == self@,
            0 < be(r@) < order(),
    {
        proof {
            use_type_invariant(self);
        }
        self.bytes
    }
}

} // verus!
