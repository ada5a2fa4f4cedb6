//! Points of the secp256k1 group, held in their 33-byte compressed encoding.
use crate::errors::ParseError;
use crate::scalar::{be, is_zero, order, SecretKey};
use vstd::prelude::*;

verus! {

/// Whether the bytes are the encoding of a point of the curve.
pub uninterp spec fn is_point(b: Seq<u8>) -> bool;

/// The compressed encoding of `k·G`, for `G` the group's generator.
pub uninterp spec fn gen_point(k: nat) -> Seq<u8>;

/// The compressed encoding of the sum of two points; `None` for the point at infinity.
pub uninterp spec fn point_sum(a: Seq<u8>, b: Seq<u8>) -> Option<Seq<u8>>;

/// The compressed encoding of a point multiplied by a scalar.
pub uninterp spec fn point_scaled(p: Seq<u8>, k: nat) -> Option<Seq<u8>>;

/// The point with even y whose x-coordinate is `x`, compressed.
pub open spec fn lift_x(x: Seq<u8>) -> Seq<u8> {
    seq![2u8] + x
}

/// Whether a compressed point has an odd y-coordinate.
pub open spec fn has_odd_y(p: Seq<u8>) -> bool {
    p[0] == 3
}

/// The x-coordinate of a compressed point.
pub open spec fn x_of(p: Seq<u8>) -> Seq<u8> {
    p.subrange(1, 33)
}

pub open spec fn opt_bytes(o: Option<[u8; 33]>) -> Option<Seq<u8>> {
    match o {
        Some(x) => Some(x@),
        None => None,
    }
}

/// Relies on secp256k1's `PublicKey::from_slice`: whether the bytes parse as a point.
#[verifier::external_body]
fn parse_point(b: &[u8; 33]) -> (r: bool)
    ensures
        r == is_point(b@),
{
    secp256k1::PublicKey::from_slice(b).is_ok()
}

/// Relies on secp256k1's `PublicKey::from_secret_key`: `k·G`, serialized compressed.
#[verifier::external_body]
fn mul_generator(k: &[u8; 32]) -> (r: [u8; 33])
    requires
        0 < be(k@) < order(),
    ensures
        r@ == gen_point(be(k@)),
        is_point(r@),
{
    let sk = secp256k1::SecretKey::from_slice(k).unwrap();
    secp256k1::PublicKey::from_secret_key(secp256k1::SECP256K1, &sk).serialize()
}

/// Relies on secp256k1's `PublicKey::combine`: the sum of two points, refused
/// for the point at infinity.
#[verifier::external_body]
fn combine(a: &[u8; 33], b: &[u8; 33]) -> (r: Option<[u8; 33]>)
    requires
        is_point(a@),
        is_point(b@),
    ensures
        opt_bytes(r) == point_sum(a@, b@),
        r matches Some(x) ==> is_point(x@),
{
    let p = secp256k1::PublicKey::from_slice(a).unwrap();
    let q = secp256k1::PublicKey::from_slice(b).unwrap();
    p.combine(&q).ok().map(|s| s.serialize())
}

/// Relies on secp256k1's `PublicKey::mul_tweak`: the point multiplied by a
/// nonzero scalar.
#[verifier::external_body]
fn mul_point(p: &[u8; 33], k: &[u8; 32]) -> (r: Option<[u8; 33]>)
    requires
        is_point(p@),
        0 < be(k@) < order(),
    ensures
        opt_bytes(r) == point_scaled(p@, be(k@)),
        r matches Some(x) ==> is_point(x@),
{
    let q = secp256k1::PublicKey::from_slice(p).unwrap();
    let t = secp256k1::Scalar::from_be_bytes(*k).unwrap();
    q.mul_tweak(secp256k1::SECP256K1, &t).ok().map(|s| s.serialize())
}

/// Relies on secp256k1's `PublicKey::x_only_public_key`: the x-coordinate of
/// a compressed point, which is also the x-coordinate of a point with even y.
#[verifier::external_body]
fn x_only_of(p: &[u8; 33]) -> (r: [u8; 32])
    requires
        is_point(p@),
    ensures
        r@ == x_of(p@),
        is_point(lift_x(r@)),
{
    secp256k1::PublicKey::from_slice(p).unwrap().x_only_public_key().0.serialize()
}

/// Compares two 32-byte strings.
pub fn eq32(a: &[u8; 32], b: &[u8; 32]) -> (r: bool)
    ensures
        r == (a@ == b@),
{
    let mut i: usize = 0;
    while i < 32
        invariant
            0 <= i <= 32,
            forall|j: int| 0 <= j < i ==> a@[j] == b@[j],
        decreases 32 - i,
    {
        if a[i] != b[i] {
            return false;
        }
        i = i + 1;
    }
    proof {
        assert(a@ =~= b@);
    }
    true
}

/// Compares two 33-byte strings.
pub fn eq33(a: &[u8; 33], b: &[u8; 33]) -> (r: bool)
    ensures
        r == (a@ == b@),
{
    let mut i: usize = 0;
    while i < 33
        invariant
            0 <= i <= 33,
            forall|j: int| 0 <= j < i ==> a@[j] == b@[j],
        decreases 33 - i,
    {
        if a[i] != b[i] {
            return false;
        }
        i = i + 1;
    }
    proof {
        assert(a@ =~= b@);
    }
    true
}

/// Compares two points, `None` standing for the point at infinity.
pub fn same_point(a: Option<PublicKey>, b: Option<PublicKey>) -> (r: bool)
    ensures
        r == (opt_view(a) == opt_view(b)),
{
    match (a, b) {
        (None, None) => true,
        (Some(x), Some(y)) => {
            let xb = x.serialize();
            let yb = y.serialize();
            eq33(&xb, &yb)
        },
        _ => false,
    }
}

/// Copies 33 bytes of a slice, from `start` on.
pub fn copy33(s: &[u8], start: usize) -> (r: [u8; 33])
    requires
        start + 33 <= s.len(),
    ensures
        r@ == s@.subrange(start as int, start + 33),
{
    let mut r: [u8; 33] = [0u8; 33];
    let mut i: usize = 0;
    while i < 33
        invariant
            0 <= i <= 33,
            start + 33 <= s.len(),
            r@.len() == 33,
            forall|j: int| 0 <= j < i ==> r@[j] == s@[start + j],
        decreases 33 - i,
    {
        r[i] = s[start + i];
        i = i + 1;
    }
    proof {
        assert(r@ =~= s@.subrange(start as int, start + 33));
    }
    r
}

/// Copies 32 bytes of a slice, from `start` on.
pub fn copy32(s: &[u8], start: usize) -> (r: [u8; 32])
    requires
        start + 32 <= s.len(),
    ensures
        r@ == s@.subrange(start as int, start + 32),
{
    let mut r: [u8; 32] = [0u8; 32];
    let mut i: usize = 0;
    while i < 32
        invariant
            0 <= i <= 32,
            start + 32 <= s.len(),
            r@.len() == 32,
            forall|j: int| 0 <= j < i ==> r@[j] == s@[start + j],
        decreases 32 - i,
    {
        r[i] = s[start + i];
        i = i + 1;
    }
    proof {
        assert(r@ =~= s@.subrange(start as int, start + 32));
    }
    r
}

/// A point of the curve other than the point at infinity.
#[derive(Clone, Copy, Debug, PartialEq, Eq, Hash)]
pub struct PublicKey {
    bytes: [u8; 33],
}

impl View for PublicKey {
    type V = Seq<u8>;

    closed spec fn view(&self) -> Seq<u8> {
        self.bytes@
    }
}

/// The encoding of a point, or `None` for the point at infinity.
pub open spec fn opt_view(o: Option<PublicKey>) -> Option<Seq<u8>> {
    match o {
        Some(p) => Some(p@),
        None => None,
    }
}

/// The sum of two points, either of which may be the point at infinity.
pub open spec fn opt_add(a: Option<Seq<u8>>, b: Option<Seq<u8>>) -> Option<Seq<u8>> {
    match a {
        None => b,
        Some(x) => match b {
            None => a,
            Some(y) => point_sum(x, y),
        },
    }
}

/// A point, which may be the point at infinity, multiplied by a scalar.
pub open spec fn opt_scale(p: Option<Seq<u8>>, k: nat) -> Option<Seq<u8>> {
    match p {
        None => None,
        Some(x) => if k == 0 {
            None
        } else {
            point_scaled(x, k)
        },
    }
}

impl PublicKey {
    #[verifier::type_invariant]
    spec fn inv(&self) -> bool {
        is_point(self.bytes@)
    }

    /// Reads a compressed point of 33 bytes.
    pub fn from_slice(data: &[u8]) -> (r: Result<PublicKey, ParseError>)
        ensures
            result_view(r) == point_parse(data@),
    {
        if data.len() != 33 {
            return Err(ParseError::ArgLenMismatch { expected: 33, got: data.len() });
        }
        let b = copy33(data, 0);
        proof {
            assert(data@.subrange(0, 33) =~= data@);
        }
        if parse_point(&b) {
            Ok(PublicKey { bytes: b })
        } else {
            Err(ParseError::MalformedArg)
        }
    }

    /// The compressed encoding, 33 bytes.
    pub fn serialize(&self) -> (r: [u8; 33])
        ensures
            r@ == self@,
            is_point(r@),
    {
        proof {
            use_type_invariant(self);
        }
        self.bytes
    }

    /// `k·G` for the secret key `k`.
    pub fn from_secret_key(sk: &SecretKey) -> (r: PublicKey)
        ensures
            r@ == gen_point(sk.value()),
    {
        let k = sk.to_bytes();
        PublicKey { bytes: mul_generator(&k) }
    }

    /// `k·G` for a nonzero scalar `k`.
    pub fn from_scalar(k: &[u8; 32]) -> (r: PublicKey)
        requires
            0 < be(k@) < order(),
        ensures
            r@ == gen_point(be(k@)),
    {
        PublicKey { bytes: mul_generator(k) }
    }

    /// Whether the point's y-coordinate is odd.
    pub fn has_odd_y(&self) -> (r: bool)
        ensures
            r == has_odd_y(self@),
    {
        self.bytes[0] == 3
    }

    /// The point's x-only form.
    pub fn x_only_public_key(&self) -> (r: XOnlyPublicKey)
        ensures
            r@ == x_of(self@),
    {
        proof {
            use_type_invariant(self);
        }
        XOnlyPublicKey { bytes: x_only_of(&self.bytes) }
    }
}

/// The sum of two points, where `None` stands for the point at infinity.
pub fn add_points(a: Option<PublicKey>, b: Option<PublicKey>) -> (r: Option<PublicKey>)
    ensures
        opt_view(r) == opt_add(opt_view(a), opt_view(b)),
{
    match a {
        None => b,
        Some(x) => match b {
            None => a,
            Some(y) => {
                let xb = x.serialize();
                let yb = y.serialize();
                match combine(&xb, &yb) {
                    Some(s) => Some(PublicKey { bytes: s }),
                    None => None,
                }
            },
        },
    }
}

/// A point multiplied by a scalar below the group order, where `None` stands
/// for the point at infinity.
pub fn scale_point(p: Option<PublicKey>, k: &[u8; 32]) -> (r: Option<PublicKey>)
    requires
        be(k@) < order(),
    ensures
        opt_view(r) == opt_scale(opt_view(p), be(k@)),
{
    match p {
        None => None,
        Some(x) => {
            if is_zero(k) {
                None
            } else {
                let xb = x.serialize();
                match mul_point(&xb, k) {
                    Some(s) => Some(PublicKey { bytes: s }),
                    None => None,
                }
            }
        },
    }
}

/// An x-coordinate of a point of the curve: the public key of a point with even y.
#[derive(Clone, Copy, Debug, PartialEq, Eq, Hash)]
pub struct XOnlyPublicKey {
    bytes: [u8; 32],
}

impl View for XOnlyPublicKey {
    type V = Seq<u8>;

    closed spec fn view(&self) -> Seq<u8> {
        self.bytes@
    }
}

impl XOnlyPublicKey {
    #[verifier::type_invariant]
    spec fn inv(&self) -> bool {
        is_point(lift_x(self.bytes@))
    }

    /// Reads a 32-byte x-coordinate; refused when no point has it.
    pub fn from_slice(data: &[u8]) -> (r: Result<XOnlyPublicKey, ParseError>)
        ensures
            x_result_view(r) == x_only_parse(data@),
    {
        if data.len() != 32 {
            return Err(ParseError::ArgLenMismatch { expected: 32, got: data.len() });
        }
        let x = copy32(data, 0);
        let lifted = lift(&x);
        proof {
            assert(data@.subrange(0, 32) =~= data@);
        }
        if parse_point(&lifted) {
            Ok(XOnlyPublicKey { bytes: x })
        } else {
            Err(ParseError::MalformedArg)
        }
    }

    /// The 32-byte x-coordinate.
    pub fn serialize(&self) -> (r: [u8; 32])
        ensures
            r@ == self@,
            is_point(lift_x(r@)),
    {
        proof {
            use_type_invariant(self);
        }
        self.bytes
    }

    /// The point with even y that has this x-coordinate.
    pub fn to_public_key(&self) -> (r: PublicKey)
        ensures
            r@ == lift_x(self@),
    {
        proof {
            use_type_invariant(self);
        }
        PublicKey { bytes: lift(&self.bytes) }
    }
}

/// The compressed encoding `0x02 || x`.
fn lift(x: &[u8; 32]) -> (r: [u8; 33])
    ensures
        r@ == lift_x(x@),
{
    let mut r: [u8; 33] = [2u8; 33];
    let mut i: usize = 0;
    while i < 32
        invariant
            0 <= i <= 32,
            r@.len() == 33,
            r@[0] == 2,
            forall|j: int| 0 <= j < i ==> r@[j + 1] == x@[j],
        decreases 32 - i,
    {
        r[i + 1] = x[i];
        i = i + 1;
    }
    proof {
        assert(r@ =~= lift_x(x@));
    }
    r
}

/// Reading a compressed point: its length is checked first, then that it is on the curve.
pub open spec fn point_parse(data: Seq<u8>) -> Result<Seq<u8>, ParseError> {
    if data.len() != 33 {
        Err(ParseError::ArgLenMismatch { expected: 33, got: data.len() as usize })
    } else if !is_point(data) {
        Err(ParseError::MalformedArg)
    } else {
        Ok(data)
    }
}

/// Reading an x-only key: its length is checked first, then that a point has it.
pub open spec fn x_only_parse(data: Seq<u8>) -> Result<Seq<u8>, ParseError> {
    if data.len() != 32 {
        Err(ParseError::ArgLenMismatch { expected: 32, got: data.len() as usize })
    } else if !is_point(lift_x(data)) {
        Err(ParseError::MalformedArg)
    } else {
        Ok(data)
    }
}

pub open spec fn result_view(r: Result<PublicKey, ParseError>) -> Result<Seq<u8>, ParseError> {
    match r {
        Ok(p) => Ok(p@),
        Err(e) => Err(e),
    }
}

pub open spec fn x_result_view(r: Result<XOnlyPublicKey, ParseError>) -> Result<
    Seq<u8>,
    ParseError,
> {
    match r {
        Ok(p) => Ok(p@),
        Err(e) => Err(e),
    }
}

/// Reading back the 32 bytes that `XOnlyPublicKey::serialize` writes for a
/// valid key gives that key again.
pub proof fn lemma_x_only_round_trip(bytes: Seq<u8>)
    requires
        bytes.len() == 32,
        is_point(lift_x(bytes)),
    ensures
        x_only_parse(bytes) == Ok::<Seq<u8>, ParseError>(bytes),
{
}

} // verus!
