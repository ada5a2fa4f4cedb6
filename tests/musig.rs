use musig::{
    adapt, extract_adaptor, new_musig_nonce_pair, MusigAggNonce, MusigKeyAggCache,
    MusigNonceGenError, MusigPartialSignature, MusigPubNonce, MusigSecNonce, MusigSession,
    MusigSignError, MusigTweakErr, ParseError, Parity, PublicKey, SecretKey, Tweak,
    XOnlyPublicKey,
};
use rand::{thread_rng, RngCore};
use secp256k1::hashes::sha256;

fn sec_key(b: u8) -> SecretKey {
    SecretKey::from_bytes([b; 32]).unwrap()
}

fn x_only(sk: &SecretKey) -> XOnlyPublicKey {
    PublicKey::from_secret_key(sk).x_only_public_key()
}

/// Checks a 64-byte signature with secp256k1's own BIP340 verifier.
fn schnorr_ok(sig: &[u8; 64], msg: &[u8; 32], pk: &XOnlyPublicKey) -> bool {
    let secp = secp256k1::Secp256k1::verification_only();
    let sig = secp256k1::schnorr::Signature::from_slice(sig).unwrap();
    let msg = secp256k1::Message::from_slice(msg).unwrap();
    let pk = secp256k1::XOnlyPublicKey::from_slice(&pk.serialize()).unwrap();
    secp.verify_schnorr(&sig, &msg, &pk).is_ok()
}

/// Runs the whole protocol for the given signers; returns the signature,
/// the session and the cache.
fn run(
    keys: &[SecretKey],
    msg: [u8; 32],
    adaptor: Option<PublicKey>,
    tweak: Option<(Tweak, bool)>,
) -> ([u8; 64], MusigSession, MusigKeyAggCache, XOnlyPublicKey) {
    let pks: Vec<XOnlyPublicKey> = keys.iter().map(x_only).collect();
    let mut cache = MusigKeyAggCache::new(&pks);
    let mut signing_key = cache.agg_pk();
    if let Some((t, xonly)) = tweak {
        signing_key = if xonly {
            cache.pubkey_xonly_tweak_add(t).unwrap()
        } else {
            cache.pubkey_ec_tweak_add(t).unwrap().x_only_public_key()
        };
    }
    let mut sec_nonces: Vec<MusigSecNonce> = Vec::new();
    let mut pub_nonces: Vec<MusigPubNonce> = Vec::new();
    for (i, k) in keys.iter().enumerate() {
        let (s, p) = cache
            .nonce_gen([2 + i as u8; 32], *k, msg, None)
            .expect("non zero session id");
        sec_nonces.push(s);
        pub_nonces.push(p);
    }
    let agg = MusigAggNonce::new(&pub_nonces);
    let session = MusigSession::new(&cache, agg, msg, adaptor);
    let mut partials = Vec::new();
    for (i, k) in keys.iter().enumerate() {
        let s = session.partial_sign(&mut sec_nonces[i], k, &cache).unwrap();
        assert!(session.partial_verify(&cache, s, pub_nonces[i], pks[i]));
        partials.push(s);
    }
    (session.partial_sig_agg(&partials), session, cache, signing_key)
}

#[test]
fn test_key_agg_cache() {
    let mut sec_bytes = [0; 32];
    thread_rng().fill_bytes(&mut sec_bytes);
    let sec_key = SecretKey::from_bytes(sec_bytes).unwrap();
    let pub_key = x_only(&sec_key);

    let _key_agg_cache = MusigKeyAggCache::new(&[pub_key, pub_key]);
}

#[test]
fn test_nonce_parsing() {
    let sec_bytes = [1; 32];
    let sec_key = SecretKey::from_bytes(sec_bytes).unwrap();
    let pub_key = x_only(&sec_key);

    let key_agg_cache = MusigKeyAggCache::new(&[pub_key, pub_key]);
    let msg = [3; 32];
    let session_id = [2; 32];
    let sec_key = SecretKey::from_bytes([4; 32]).unwrap();
    let (_secnonce, pubnonce) = key_agg_cache
        .nonce_gen(session_id, sec_key, msg, None)
        .expect("non zero session id");
    let pubnonce_ser = pubnonce.serialize();
    let parsed_pubnonce = MusigPubNonce::from_slice(&pubnonce_ser).unwrap();

    assert_eq!(parsed_pubnonce, pubnonce);
}

#[test]
fn two_signers_sign_and_verify() {
    let keys = [sec_key(1), sec_key(4)];
    let msg = [3; 32];
    let (sig, _, _, agg_pk) = run(&keys, msg, None, None);
    assert!(schnorr_ok(&sig, &msg, &agg_pk));
}

#[test]
fn two_signers_adaptor_scenario() {
    let keys = [sec_key(1), sec_key(4)];
    let msg = [3; 32];
    let adaptor_sk = sec_key(7);
    let adaptor_pk = PublicKey::from_secret_key(&adaptor_sk);
    let secret = Tweak::from_bytes([7; 32]).unwrap();
    let (pre_sig, session, _, agg_pk) = run(&keys, msg, Some(adaptor_pk), None);
    assert!(!schnorr_ok(&pre_sig, &msg, &agg_pk));
    let parity = session.nonce_parity();
    let sig = adapt(pre_sig, secret, parity);
    assert!(schnorr_ok(&sig, &msg, &agg_pk));
    assert_eq!(extract_adaptor(sig, pre_sig, parity), secret);
}

#[test]
fn one_signer_signature_verifies() {
    let keys = [sec_key(9)];
    let msg = [0x55; 32];
    let (sig, _, _, agg_pk) = run(&keys, msg, None, None);
    assert!(schnorr_ok(&sig, &msg, &agg_pk));
}

#[test]
fn three_signers_signature_verifies() {
    let keys = [sec_key(1), sec_key(2), sec_key(3)];
    let msg = [0xa7; 32];
    let (sig, _, _, agg_pk) = run(&keys, msg, None, None);
    assert!(schnorr_ok(&sig, &msg, &agg_pk));
}

#[test]
fn repeated_key_signature_verifies() {
    let keys = [sec_key(5), sec_key(5), sec_key(6)];
    let msg = [0x11; 32];
    let (sig, _, _, agg_pk) = run(&keys, msg, None, None);
    assert!(schnorr_ok(&sig, &msg, &agg_pk));
}

#[test]
fn xonly_tweaked_signature_verifies() {
    let keys = [sec_key(1), sec_key(4)];
    let msg = [3; 32];
    let t = Tweak::from_bytes([2; 32]).unwrap();
    let (sig, _, _, tweaked) = run(&keys, msg, None, Some((t, true)));
    assert!(schnorr_ok(&sig, &msg, &tweaked));
}

#[test]
fn ec_tweaked_signature_verifies() {
    let keys = [sec_key(1), sec_key(4), sec_key(8)];
    let msg = [3; 32];
    let t = Tweak::from_bytes([2; 32]).unwrap();
    let (sig, _, _, tweaked) = run(&keys, msg, None, Some((t, false)));
    assert!(schnorr_ok(&sig, &msg, &tweaked));
}

#[test]
fn zero_tweak_keeps_the_key() {
    let pks = [x_only(&sec_key(1)), x_only(&sec_key(4))];
    let mut cache = MusigKeyAggCache::new(&pks);
    let before = cache.pubkey();
    let after = cache.pubkey_ec_tweak_add(Tweak::zero()).unwrap();
    assert_eq!(before, after);
}

#[test]
fn tweak_to_infinity_is_refused() {
    let sk = sec_key(1);
    let pk = x_only(&sk);
    let mut cache = MusigKeyAggCache::new(&[pk]);
    // the aggregate secret key is a·d, with d negated where d·G has odd y
    let a = musig::keyagg::key_coefficient(&cache.pk_hash(), &None, &pk.serialize());
    let mut d = sk.to_bytes();
    if PublicKey::from_secret_key(&sk).has_odd_y() {
        d = musig::scalar::scalar_neg(&d);
    }
    let agg_sk = musig::scalar::scalar_mul(&a, &d);
    let t = Tweak::from_bytes(musig::scalar::scalar_neg(&agg_sk)).unwrap();
    let before = cache;
    assert_eq!(cache.pubkey_ec_tweak_add(t), Err(MusigTweakErr::InvalidTweak));
    assert_eq!(cache, before);
}

#[test]
fn key_order_matters() {
    let a = x_only(&sec_key(1));
    let b = x_only(&sec_key(4));
    let ab = MusigKeyAggCache::new(&[a, b]).agg_pk();
    let ba = MusigKeyAggCache::new(&[b, a]).agg_pk();
    let ab2 = MusigKeyAggCache::new(&[a, b]).agg_pk();
    assert_ne!(ab, ba);
    assert_eq!(ab, ab2);
}

#[test]
fn empty_key_list_has_no_aggregate() {
    assert!(MusigKeyAggCache::try_new(&[]).is_none());
    let a = x_only(&sec_key(1));
    assert!(MusigKeyAggCache::try_new(&[a]).is_some());
}

#[test]
fn zero_session_id_is_refused() {
    let pk = x_only(&sec_key(1));
    let cache = MusigKeyAggCache::new(&[pk]);
    let r = cache.nonce_gen([0; 32], sec_key(1), [3; 32], Some([9; 32]));
    assert_eq!(r.err(), Some(MusigNonceGenError::ZeroSession));
    let r = new_musig_nonce_pair([0; 32], None, None, None, None);
    assert_eq!(r.err(), Some(MusigNonceGenError::ZeroSession));
    let r = new_musig_nonce_pair([0; 32], Some(&cache), Some(sec_key(2)), Some([1; 32]), None);
    assert_eq!(r.err(), Some(MusigNonceGenError::ZeroSession));
    let mut id = [0; 32];
    id[31] = 1;
    assert!(new_musig_nonce_pair(id, None, None, None, None).is_ok());
}

#[test]
fn nonce_generation_is_deterministic() {
    let (_, p1) = new_musig_nonce_pair([5; 32], None, Some(sec_key(3)), None, None).unwrap();
    let (_, p2) = new_musig_nonce_pair([5; 32], None, Some(sec_key(3)), None, None).unwrap();
    let (_, p3) = new_musig_nonce_pair([5; 32], None, Some(sec_key(4)), None, None).unwrap();
    assert_eq!(p1, p2);
    assert_ne!(p1, p3);
}

#[test]
fn secret_nonce_is_single_use() {
    let sk = sec_key(1);
    let pk = x_only(&sk);
    let cache = MusigKeyAggCache::new(&[pk]);
    let msg = [3; 32];
    let (mut sec, pubn) = cache.nonce_gen([2; 32], sk, msg, None).unwrap();
    let session = MusigSession::new(&cache, MusigAggNonce::new(&[pubn]), msg, None);
    assert!(session.partial_sign(&mut sec, &sk, &cache).is_ok());
    assert_eq!(sec.as_ptr()[0], Tweak::zero());
    assert_eq!(
        session.partial_sign(&mut sec, &sk, &cache),
        Err(MusigSignError::NonceReuse)
    );
}

#[test]
fn partial_verify_rejects_a_wrong_share() {
    let keys = [sec_key(1), sec_key(4)];
    let pks = [x_only(&keys[0]), x_only(&keys[1])];
    let cache = MusigKeyAggCache::new(&pks);
    let msg = [3; 32];
    let (mut s1, p1) = cache.nonce_gen([2; 32], keys[0], msg, None).unwrap();
    let (_, p2) = cache.nonce_gen([3; 32], keys[1], msg, None).unwrap();
    let session = MusigSession::new(&cache, MusigAggNonce::new(&[p1, p2]), msg, None);
    let sig1 = session.partial_sign(&mut s1, &keys[0], &cache).unwrap();
    assert!(session.partial_verify(&cache, sig1, p1, pks[0]));
    assert!(!session.partial_verify(&cache, sig1, p2, pks[1]));
    assert!(!session.partial_verify(&cache, sig1, p1, pks[1]));
}

#[test]
fn pub_nonce_round_trip_and_errors() {
    let (_, p) = new_musig_nonce_pair([8; 32], None, None, None, None).unwrap();
    let bytes = p.serialize();
    assert_eq!(bytes.len(), 132);
    assert!(bytes[66..].iter().all(|b| *b == 0));
    assert_eq!(MusigPubNonce::from_slice(&bytes), Ok(p));
    assert_eq!(
        MusigPubNonce::from_slice(&bytes[..66]),
        Err(ParseError::ArgLenMismatch { expected: 132, got: 66 })
    );
    assert_eq!(
        MusigPubNonce::from_slice(&[0xff; 132]),
        Err(ParseError::MalformedArg)
    );
}

#[test]
fn agg_nonce_round_trip() {
    let (_, p1) = new_musig_nonce_pair([8; 32], None, None, None, None).unwrap();
    let (_, p2) = new_musig_nonce_pair([9; 32], None, None, None, None).unwrap();
    let agg = MusigAggNonce::new(&[p1, p2]);
    assert_eq!(MusigAggNonce::from_slice(&agg.serialize()), Ok(agg));
    assert_eq!(
        MusigAggNonce::from_slice(&[2; 10]),
        Err(ParseError::ArgLenMismatch { expected: 132, got: 10 })
    );
}

#[test]
fn agg_nonce_of_opposite_nonces_is_generator() {
    let (_, p) = new_musig_nonce_pair([8; 32], None, None, None, None).unwrap();
    let mut neg = p;
    for q in neg.as_mut_ptr().iter_mut() {
        let mut b = q.serialize();
        b[0] ^= 1;
        *q = PublicKey::from_slice(&b).unwrap();
    }
    let agg = MusigAggNonce::new(&[p, neg]);
    let g = PublicKey::from_secret_key(&SecretKey::from_bytes({
        let mut one = [0; 32];
        one[31] = 1;
        one
    })
    .unwrap());
    assert_eq!(agg.as_ptr(), &[g, g]);
    assert_eq!(MusigAggNonce::new(&[]).as_ptr(), &[g, g]);
}

#[test]
fn partial_signature_round_trip_and_errors() {
    let s = MusigPartialSignature::from_slice(&[7; 32]).unwrap();
    assert_eq!(s.serialize(), [7; 32]);
    assert_eq!(MusigPartialSignature::from_slice(&s.serialize()), Ok(s));
    assert_eq!(
        MusigPartialSignature::from_slice(&[0xff; 32]),
        Err(ParseError::MalformedArg)
    );
    assert_eq!(
        MusigPartialSignature::from_slice(&[1; 33]),
        Err(ParseError::ArgLenMismatch { expected: 32, got: 33 })
    );
}

#[test]
fn x_only_key_round_trip_and_errors() {
    let pk = x_only(&sec_key(1));
    assert_eq!(XOnlyPublicKey::from_slice(&pk.serialize()), Ok(pk));
    assert_eq!(
        XOnlyPublicKey::from_slice(&[1; 31]),
        Err(ParseError::ArgLenMismatch { expected: 32, got: 31 })
    );
    // x = 0 is not the x-coordinate of any point of the curve
    assert_eq!(XOnlyPublicKey::from_slice(&[0; 32]), Err(ParseError::MalformedArg));
}

#[test]
fn adaptor_round_trip_both_parities() {
    let mut pre = [0u8; 64];
    pre[..32].copy_from_slice(&[9; 32]);
    pre[32..].copy_from_slice(&[0x42; 32]);
    let t = Tweak::from_bytes([0x99; 32]).unwrap();
    for parity in [Parity::Even, Parity::Odd] {
        let sig = adapt(pre, t, parity);
        assert_eq!(sig[..32], pre[..32]);
        assert_ne!(sig[32..], pre[32..]);
        assert_eq!(extract_adaptor(sig, pre, parity), t);
    }
}

#[test]
fn adapt_adds_or_subtracts_exactly() {
    let mut pre = [0u8; 64];
    pre[63] = 10;
    let mut tb = [0u8; 32];
    tb[31] = 3;
    let t = Tweak::from_bytes(tb).unwrap();
    let even = adapt(pre, t, Parity::Even);
    assert_eq!(even[63], 13);
    assert!(even[32..63].iter().all(|b| *b == 0));
    let odd = adapt(pre, t, Parity::Odd);
    assert_eq!(odd[63], 7);
}

#[test]
fn scalar_arithmetic_exact_values() {
    let mut a = [0u8; 32];
    a[31] = 2;
    let mut b = [0u8; 32];
    b[31] = 3;
    let sum = musig::scalar::scalar_add(&a, &b);
    assert_eq!(sum[31], 5);
    let prod = musig::scalar::scalar_mul(&a, &b);
    assert_eq!(prod[31], 6);
    let n = musig::scalar::order_bytes();
    let neg = musig::scalar::scalar_neg(&a);
    let mut expect = n;
    expect[31] -= 2;
    assert_eq!(neg, expect);
    // n - 2 + 3 wraps to 1
    let wrap = musig::scalar::scalar_add(&neg, &b);
    let mut one = [0u8; 32];
    one[31] = 1;
    assert_eq!(wrap, one);
    // 2^256 - 1 reduces to 2^256 - 1 - n
    let r = musig::scalar::reduce(&[0xff; 32]);
    let (expect, borrow) = musig::scalar::sub_with_borrow(&[0xff; 32], &n);
    assert!(!borrow);
    assert_eq!(r, expect);
    assert_eq!(r[..15], [0u8; 15]);
    assert!(musig::scalar::below_order(&r));
    assert!(!musig::scalar::below_order(&n));
}

#[test]
fn point_operations_match_secp256k1() {
    let secp = secp256k1::Secp256k1::new();
    let a = sec_key(3);
    let b = sec_key(5);
    let pa = PublicKey::from_secret_key(&a);
    let pb = PublicKey::from_secret_key(&b);
    let sa = secp256k1::SecretKey::from_slice(&[3; 32]).unwrap();
    let sb = secp256k1::SecretKey::from_slice(&[5; 32]).unwrap();
    let qa = secp256k1::PublicKey::from_secret_key(&secp, &sa);
    let qb = secp256k1::PublicKey::from_secret_key(&secp, &sb);
    assert_eq!(pa.serialize(), qa.serialize());
    let sum = musig::point::add_points(Some(pa), Some(pb)).unwrap();
    assert_eq!(sum.serialize(), qa.combine(&qb).unwrap().serialize());
    let scaled = musig::point::scale_point(Some(pa), &[5; 32]).unwrap();
    let expect = qa
        .mul_tweak(&secp, &secp256k1::Scalar::from_be_bytes([5; 32]).unwrap())
        .unwrap();
    assert_eq!(scaled.serialize(), expect.serialize());
    assert_eq!(
        pa.x_only_public_key().serialize(),
        qa.x_only_public_key().0.serialize()
    );
    assert!(musig::point::scale_point(Some(pa), &[0; 32]).is_none());
}

#[test]
fn tagged_hash_matches_definition() {
    let tag = b"BIP0340/challenge";
    let msg = [1u8, 2, 3];
    let th = <sha256::Hash as secp256k1::hashes::Hash>::to_byte_array(<sha256::Hash as secp256k1::hashes::Hash>::hash(tag));
    let mut buf = Vec::new();
    buf.extend_from_slice(&th);
    buf.extend_from_slice(&th);
    buf.extend_from_slice(&msg);
    let expect = <sha256::Hash as secp256k1::hashes::Hash>::to_byte_array(<sha256::Hash as secp256k1::hashes::Hash>::hash(&buf));
    assert_eq!(musig::hash::tagged_hash(tag, &msg), expect);
    assert_eq!(musig::hash::tag_challenge_bytes(), *tag);
}
