use bls_sigs::curve::sum_points;
use bls_sigs::curve::CurvePoint;
use bls_sigs::g1::G1Point;
use bls_sigs::g2::G2Point;
use bls_sigs::scalar::Scalar;

fn unhex(text: &str) -> Vec<u8> {
    let digits: Vec<u8> = text.bytes().map(|c| (c as char).to_digit(16).unwrap() as u8).collect();
    digits.chunks(2).map(|pair| pair[0] * 16 + pair[1]).collect()
}

fn small(k: u8) -> Scalar {
    let mut bytes = [0u8; 32];
    bytes[31] = k;
    Scalar::from_bytes(bytes).unwrap()
}

fn g1_generator_bytes() -> [u8; 48] {
    let bytes = unhex(
        "97f1d3a73197d7942695638c4fa9ac0fc3688c4f9774b905a14e3a3f171bac58\
         6c55e83ff97a1aeffb3af00adb22c6bb",
    );
    let mut out = [0u8; 48];
    out.copy_from_slice(&bytes);
    out
}

fn g2_generator_bytes() -> [u8; 96] {
    let bytes = unhex(
        "93e02b6052719f607dacd3a088274f65596bd0d09920b61ab5da61bbdc7f5049\
         334cf11213945d57e5ac7d055d042b7e024aa2b2f08f0a91260805272dc51051\
         c6e47ad4fa403b02b4510b647ae3d1770bac0326a805bbefd48056c8c121bdb8",
    );
    let mut out = [0u8; 96];
    out.copy_from_slice(&bytes);
    out
}

#[test]
fn generators_have_the_standard_encodings() {
    assert_eq!(G1Point::one().to_bytes(), g1_generator_bytes());
    assert_eq!(G2Point::one().to_bytes(), g2_generator_bytes());
}

#[test]
fn identities_have_the_infinity_encodings() {
    let mut g1 = [0u8; 48];
    g1[0] = 0xc0;
    assert_eq!(G1Point::zero().to_bytes(), g1);
    let mut g2 = [0u8; 96];
    g2[0] = 0xc0;
    assert_eq!(G2Point::zero().to_bytes(), g2);
}

#[test]
fn from_bytes_round_trips() {
    let p = G1Point::from_bytes(g1_generator_bytes()).unwrap();
    assert_eq!(p, G1Point::one());
    assert_eq!(p.to_bytes(), g1_generator_bytes());
    let q = G2Point::from_bytes(g2_generator_bytes()).unwrap();
    assert_eq!(q, G2Point::one());
    assert_eq!(q.to_bytes(), g2_generator_bytes());
}

#[test]
fn from_bytes_rejects_what_is_no_encoding() {
    assert!(G1Point::from_bytes([0u8; 48]).is_none());
    assert!(G2Point::from_bytes([0u8; 96]).is_none());
    assert!(G1Point::from_bytes([0xffu8; 48]).is_none());
    assert!(G2Point::from_bytes([0xffu8; 96]).is_none());
    let mut infinity_with_bits = [0u8; 48];
    infinity_with_bits[0] = 0xc0;
    infinity_with_bits[47] = 1;
    assert!(G1Point::from_bytes(infinity_with_bits).is_none());
    let mut uncompressed_flag = g1_generator_bytes();
    uncompressed_flag[0] &= 0x7f;
    assert!(G1Point::from_bytes(uncompressed_flag).is_none());
}

#[test]
fn from_bytes_accepts_the_other_root() {
    let mut flipped = g1_generator_bytes();
    flipped[0] ^= 0x20;
    let mut negated = G1Point::one();
    negated.negate();
    assert_eq!(G1Point::from_bytes(flipped), Some(negated));
    let mut flipped = g2_generator_bytes();
    flipped[0] ^= 0x20;
    let mut negated = G2Point::one();
    negated.negate();
    assert_eq!(G2Point::from_bytes(flipped), Some(negated));
}

#[test]
fn compress_gives_the_encoding() {
    assert_eq!(G1Point::one().compress(), g1_generator_bytes().to_vec());
    assert_eq!(G2Point::one().compress(), g2_generator_bytes().to_vec());
}

#[test]
fn adding_the_inverse_gives_the_identity() {
    let mut p = G1Point::one();
    p.negate();
    assert_ne!(p, G1Point::one());
    p.add_assign(&G1Point::one());
    assert_eq!(p, G1Point::zero());
    let mut q = G2Point::one();
    q.negate();
    assert_ne!(q, G2Point::one());
    q.add_assign(&G2Point::one());
    assert_eq!(q, G2Point::zero());
}

#[test]
fn negating_the_identity_gives_the_identity() {
    let mut p = G1Point::zero();
    p.negate();
    assert_eq!(p, G1Point::zero());
    let mut q = G2Point::zero();
    q.negate();
    assert_eq!(q, G2Point::zero());
}

#[test]
fn adding_a_point_to_itself_doubles_it() {
    let mut sum = G1Point::one();
    sum.add_assign(&G1Point::one());
    let mut twice = G1Point::one();
    twice.mul_assign(small(2));
    assert_eq!(sum, twice);
    assert_ne!(sum, G1Point::one());
    let mut sum = G2Point::one();
    sum.add_assign(&G2Point::one());
    let mut twice = G2Point::one();
    twice.mul_assign(small(2));
    assert_eq!(sum, twice);
    assert_ne!(sum, G2Point::one());
}

#[test]
fn adding_the_identity_changes_nothing() {
    let mut p = G1Point::one();
    p.add_assign(&G1Point::zero());
    assert_eq!(p, G1Point::one());
    let mut q = G2Point::zero();
    q.add_assign(&G2Point::one());
    assert_eq!(q, G2Point::one());
}

#[test]
fn multiplying_by_one_changes_nothing() {
    let mut p = G1Point::hash_to_curve(b"a point", 3);
    let before = p;
    p.mul_assign(small(1));
    assert_eq!(p, before);
}

#[test]
fn multiplying_by_the_order_less_one_negates() {
    let mut k = bls_sigs::scalar::GROUP_ORDER_BYTES;
    k[31] = 0x00;
    let k = Scalar::from_bytes(k).unwrap();
    let mut p = G1Point::one();
    p.mul_assign(k);
    let mut negated = G1Point::one();
    negated.negate();
    assert_eq!(p, negated);
}

#[test]
fn hashing_depends_on_message_and_ciphersuite() {
    let p = G1Point::hash_to_curve(b"hello", 1);
    assert_eq!(p, G1Point::hash_to_curve(b"hello", 1));
    assert_ne!(p, G1Point::hash_to_curve(b"hellp", 1));
    assert_ne!(p, G1Point::hash_to_curve(b"hello", 2));
    assert_ne!(p, G1Point::zero());
    let q = G2Point::hash_to_curve(b"hello", 1);
    assert_eq!(q, G2Point::hash_to_curve(b"hello", 1));
    assert_ne!(q, G2Point::hash_to_curve(b"hellp", 1));
    assert_ne!(q, G2Point::hash_to_curve(b"hello", 2));
    assert_ne!(q, G2Point::zero());
}

#[test]
fn hashed_points_decode() {
    let p = G1Point::hash_to_curve(b"", 0);
    assert_eq!(G1Point::from_bytes(p.to_bytes()), Some(p));
    let q = G2Point::hash_to_curve(b"", 0);
    assert_eq!(G2Point::from_bytes(q.to_bytes()), Some(q));
}

#[test]
fn sum_of_no_points_is_the_identity() {
    let none: [G1Point; 0] = [];
    assert_eq!(sum_points(&none), G1Point::zero());
    let none: [G2Point; 0] = [];
    assert_eq!(sum_points(&none), G2Point::zero());
}

#[test]
fn sum_of_points_adds_them_all() {
    let a = G1Point::hash_to_curve(b"a", 0);
    let b = G1Point::hash_to_curve(b"b", 0);
    let c = G1Point::hash_to_curve(b"c", 0);
    let mut expected = a;
    expected.add_assign(&b);
    expected.add_assign(&c);
    assert_eq!(sum_points(&[a, b, c]), expected);
    assert_eq!(sum_points(&[a]), a);
}
