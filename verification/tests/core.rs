use bls_sigs::curve::CurvePoint;
use bls_sigs::g1::G1Point;
use bls_sigs::g2::G2Point;
use bls_sigs::signature::messages_distinct;
use bls_sigs::signature::BLSSigCore;
use std::fmt::Debug;

fn ikm_0_to_31() -> Vec<u8> {
    (0u8..32).collect()
}

fn ikm_of(signer: u8) -> Vec<u8> {
    let mut ikm = vec![signer; 32];
    ikm[0] = 0xa5;
    ikm
}

fn hello_scenario<T: BLSSigCore + PartialEq + Debug>() {
    let (sk, pk) = T::keygen(&ikm_0_to_31());
    let sig = T::core_sign(sk, b"hello", 0x01);
    assert!(T::core_verify(pk, sig, b"hello", 0x01));
    let mut changed = b"hello".to_vec();
    changed[0] ^= 0x01;
    assert!(!T::core_verify(pk, sig, &changed, 0x01));
}

#[test]
fn hello_verifies_with_signatures_in_g1() {
    hello_scenario::<G1Point>();
}

#[test]
fn hello_verifies_with_signatures_in_g2() {
    hello_scenario::<G2Point>();
}

fn signing_is_the_hash_raised_to_the_exponent<T: BLSSigCore + PartialEq + Debug>() {
    let (sk, _) = T::keygen(&ikm_of(1));
    let mut expected = T::hash_to_curve(b"a message", 9);
    expected.mul_assign(sk);
    assert_eq!(T::core_sign(sk, b"a message", 9), expected);
    assert_ne!(T::core_sign(sk, b"a message", 9), T::hash_to_curve(b"a message", 9));
}

#[test]
fn core_sign_multiplies_the_hash_in_g1() {
    signing_is_the_hash_raised_to_the_exponent::<G1Point>();
}

#[test]
fn core_sign_multiplies_the_hash_in_g2() {
    signing_is_the_hash_raised_to_the_exponent::<G2Point>();
}

fn tampering_is_detected<T: BLSSigCore + PartialEq + Debug>() {
    let (sk, pk) = T::keygen(&ikm_of(2));
    let (_, other_pk) = T::keygen(&ikm_of(3));
    let msg = b"pay 10 to bob".to_vec();
    let sig = T::core_sign(sk, &msg, 4);
    assert!(T::core_verify(pk, sig, &msg, 4));
    for byte in [0usize, 5, 12] {
        for bit in [0u8, 3, 7] {
            let mut changed = msg.clone();
            changed[byte] ^= 1 << bit;
            assert!(!T::core_verify(pk, sig, &changed, 4));
        }
    }
    for bit in 0u8..8 {
        assert!(!T::core_verify(pk, sig, &msg, 4 ^ (1 << bit)));
    }
    assert!(!T::core_verify(other_pk, sig, &msg, 4));
    let mut negated = sig;
    negated.negate();
    assert!(!T::core_verify(pk, negated, &msg, 4));
    let mut doubled = sig;
    doubled.add_assign(&sig);
    assert!(!T::core_verify(pk, doubled, &msg, 4));
    assert!(!T::core_verify(pk, T::zero(), &msg, 4));
    let mut longer = msg.clone();
    longer.push(0);
    assert!(!T::core_verify(pk, sig, &longer, 4));
    assert!(!T::core_verify(pk, sig, &msg[1..], 4));
}

#[test]
fn tampering_is_detected_with_signatures_in_g1() {
    tampering_is_detected::<G1Point>();
}

#[test]
fn tampering_is_detected_with_signatures_in_g2() {
    tampering_is_detected::<G2Point>();
}

#[test]
fn flipped_signature_bits_are_rejected_in_g1() {
    let (sk, pk) = G1Point::keygen(&ikm_of(4));
    let sig = G1Point::core_sign(sk, b"msg", 1);
    for byte in [0usize, 1, 20, 47] {
        for bit in [0u8, 5, 7] {
            let mut bytes = sig.to_bytes();
            bytes[byte] ^= 1 << bit;
            match G1Point::from_bytes(bytes) {
                None => {}
                Some(changed) => assert!(!G1Point::core_verify(pk, changed, b"msg", 1)),
            }
        }
    }
}

#[test]
fn flipped_signature_bits_are_rejected_in_g2() {
    let (sk, pk) = G2Point::keygen(&ikm_of(4));
    let sig = G2Point::core_sign(sk, b"msg", 1);
    for byte in [0usize, 48, 95] {
        for bit in [0u8, 5] {
            let mut bytes = sig.to_bytes();
            bytes[byte] ^= 1 << bit;
            match G2Point::from_bytes(bytes) {
                None => {}
                Some(changed) => assert!(!G2Point::core_verify(pk, changed, b"msg", 1)),
            }
        }
    }
}

#[test]
fn flipped_key_bits_are_rejected() {
    let (sk, pk) = G2Point::keygen(&ikm_of(5));
    let sig = G2Point::core_sign(sk, b"msg", 1);
    for byte in [0usize, 1, 20, 47] {
        for bit in [0u8, 5, 7] {
            let mut bytes = pk.to_bytes();
            bytes[byte] ^= 1 << bit;
            match G1Point::from_bytes(bytes) {
                None => {}
                Some(changed) => assert!(!G2Point::core_verify(changed, sig, b"msg", 1)),
            }
        }
    }
}

fn empty_message_signs<T: BLSSigCore + PartialEq + Debug>() {
    let (sk, pk) = T::keygen(&ikm_of(6));
    let sig = T::core_sign(sk, b"", 0);
    assert!(T::core_verify(pk, sig, b"", 0));
    assert!(!T::core_verify(pk, sig, b"\0", 0));
}

#[test]
fn empty_message_signs_in_g1() {
    empty_message_signs::<G1Point>();
}

#[test]
fn empty_message_signs_in_g2() {
    empty_message_signs::<G2Point>();
}

fn aggregate_scenario<T: BLSSigCore + PartialEq + Debug>() {
    let msgs: Vec<Vec<u8>> = vec![b"one".to_vec(), b"two".to_vec(), b"three".to_vec()];
    let mut pks = Vec::new();
    let mut sigs = Vec::new();
    for (i, msg) in msgs.iter().enumerate() {
        let (sk, pk) = T::keygen(&ikm_of(10 + i as u8));
        pks.push(pk);
        sigs.push(T::core_sign(sk, msg, 2));
    }
    let agg = T::aggregate(&sigs);
    assert!(T::core_aggregate_verify(&pks, &msgs, agg, 2));
    assert!(!T::core_aggregate_verify(&pks, &msgs, agg, 3));
    assert!(!T::core_aggregate_verify(&pks, &msgs, sigs[0], 2));
    let mut swapped = msgs.clone();
    swapped.swap(0, 1);
    assert!(!T::core_aggregate_verify(&pks, &swapped, agg, 2));
    let partial = T::aggregate(&sigs[..2]);
    assert!(!T::core_aggregate_verify(&pks, &msgs, partial, 2));
    assert!(T::core_aggregate_verify(&pks[..2], &msgs[..2], partial, 2));
}

#[test]
fn aggregate_verifies_with_signatures_in_g1() {
    aggregate_scenario::<G1Point>();
}

#[test]
fn aggregate_verifies_with_signatures_in_g2() {
    aggregate_scenario::<G2Point>();
}

fn aggregate_of_one_is_that_signature<T: BLSSigCore + PartialEq + Debug>() {
    let (sk, pk) = T::keygen(&ikm_of(20));
    let sig = T::core_sign(sk, b"alone", 1);
    assert_eq!(T::aggregate(&[sig]), sig);
    assert!(T::core_aggregate_verify(&[pk], &[b"alone".to_vec()], sig, 1));
}

#[test]
fn aggregate_of_one_in_g1() {
    aggregate_of_one_is_that_signature::<G1Point>();
}

#[test]
fn aggregate_of_one_in_g2() {
    aggregate_of_one_is_that_signature::<G2Point>();
}

fn aggregate_ignores_order<T: BLSSigCore + PartialEq + Debug>() {
    let a = T::hash_to_curve(b"a", 0);
    let b = T::hash_to_curve(b"b", 0);
    let c = T::hash_to_curve(b"c", 0);
    let agg = T::aggregate(&[a, b, c]);
    assert_eq!(T::aggregate(&[a, c, b]), agg);
    assert_eq!(T::aggregate(&[b, a, c]), agg);
    assert_eq!(T::aggregate(&[b, c, a]), agg);
    assert_eq!(T::aggregate(&[c, a, b]), agg);
    assert_eq!(T::aggregate(&[c, b, a]), agg);
    assert_eq!(T::aggregate(&[T::aggregate(&[a, b]), c]), agg);
    assert_eq!(T::aggregate(&[a, T::aggregate(&[b, c])]), agg);
    assert_ne!(T::aggregate(&[a, b]), agg);
}

#[test]
fn aggregate_ignores_order_in_g1() {
    aggregate_ignores_order::<G1Point>();
}

#[test]
fn aggregate_ignores_order_in_g2() {
    aggregate_ignores_order::<G2Point>();
}

fn empty_aggregate_scenario<T: BLSSigCore + PartialEq + Debug>() {
    let none: Vec<T> = Vec::new();
    let identity = T::aggregate(&none);
    assert_eq!(identity, T::zero());
    let no_keys: Vec<T::PKType> = Vec::new();
    let no_msgs: Vec<Vec<u8>> = Vec::new();
    assert!(T::core_aggregate_verify(&no_keys, &no_msgs, identity, 1));
    assert!(!T::core_aggregate_verify(&no_keys, &no_msgs, T::one(), 1));
    assert!(!T::core_aggregate_verify(&no_keys, &no_msgs, T::hash_to_curve(b"x", 1), 1));
}

#[test]
fn empty_aggregate_is_the_identity_in_g1() {
    empty_aggregate_scenario::<G1Point>();
}

#[test]
fn empty_aggregate_is_the_identity_in_g2() {
    empty_aggregate_scenario::<G2Point>();
}

fn shared_message_aggregate<T: BLSSigCore + PartialEq + Debug>() {
    let (sk_a, pk_a) = T::keygen(&ikm_of(30));
    let (sk_b, pk_b) = T::keygen(&ikm_of(31));
    let msgs = vec![b"same".to_vec(), b"same".to_vec()];
    let agg = T::aggregate(&[T::core_sign(sk_a, b"same", 1), T::core_sign(sk_b, b"same", 1)]);
    assert!(T::core_aggregate_verify(&[pk_a, pk_b], &msgs, agg, 1));
    assert!(T::core_aggregate_verify(&[pk_b, pk_a], &msgs, agg, 1));
}

#[test]
fn core_aggregate_accepts_a_shared_message_in_g1() {
    shared_message_aggregate::<G1Point>();
}

#[test]
fn core_aggregate_accepts_a_shared_message_in_g2() {
    shared_message_aggregate::<G2Point>();
}

fn unequal_lengths_pair_in_order<T: BLSSigCore + PartialEq + Debug>() {
    let (sk, pk) = T::keygen(&ikm_of(40));
    let (_, extra) = T::keygen(&ikm_of(41));
    let sig = T::core_sign(sk, b"m", 1);
    // one key more than messages: the signature is paired with the second key
    assert!(!T::core_aggregate_verify(&[pk, extra], &[b"m".to_vec()], sig, 1));
    // one message more than keys: the second message is paired with the
    // negated generator
    assert!(!T::core_aggregate_verify(&[pk], &[b"m".to_vec(), b"n".to_vec()], sig, 1));
    // no key at all: the one message is paired with the negated generator
    assert!(!T::core_aggregate_verify(&[], &[b"m".to_vec()], sig, 1));
}

#[test]
fn unequal_lengths_are_rejected_in_g1() {
    unequal_lengths_pair_in_order::<G1Point>();
}

#[test]
fn unequal_lengths_are_rejected_in_g2() {
    unequal_lengths_pair_in_order::<G2Point>();
}

#[test]
fn distinct_messages_are_told_from_repeated_ones() {
    assert!(messages_distinct(&[]));
    assert!(messages_distinct(&[b"a".to_vec()]));
    assert!(messages_distinct(&[b"a".to_vec(), b"b".to_vec(), b"".to_vec()]));
    assert!(messages_distinct(&[b"ab".to_vec(), b"a".to_vec(), b"b".to_vec()]));
    assert!(!messages_distinct(&[b"a".to_vec(), b"a".to_vec()]));
    assert!(!messages_distinct(&[b"a".to_vec(), b"b".to_vec(), b"a".to_vec()]));
    assert!(!messages_distinct(&[b"".to_vec(), b"b".to_vec(), b"".to_vec()]));
    assert!(!messages_distinct(&[b"c".to_vec(), b"b".to_vec(), b"b".to_vec()]));
}
