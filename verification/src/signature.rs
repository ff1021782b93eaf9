//! BLS signatures: the core scheme and its three ciphersuite variants, for
//! signatures in G1 with public keys in G2 and the other way round.

use crate::curve::canonical;
use crate::curve::exponents;
use crate::curve::group_sum;
use crate::curve::point_mul;
use crate::curve::point_neg;
use crate::curve::sum_points;
use crate::curve::CurvePoint;
use crate::g1::G1Point;
use crate::g2::G2Point;
use crate::pairing::lemma_pairing_product_symmetric;
use crate::pairing::pairing_check;
use crate::pairing::pairing_product_is_one;
use crate::scalar::spec_xprime;
pub use crate::scalar::xprime_from_sk;
use crate::scalar::Scalar;
use vstd::prelude::*;

verus! {

/// The exponent of the public key that belongs to the secret exponent `x`.
pub open spec fn spec_public_key(x: nat) -> nat {
    point_mul(1, x)
}

/// The exponent of the signature that the secret exponent `x` makes of a
/// message that hashes to the point with exponent `h`.
pub open spec fn spec_core_sign(x: nat, h: nat) -> nat {
    point_mul(h, x)
}

/// The verification equation `e(H(m), pk) * e(sig, -g) = 1`, over the
/// exponents of the public key, of the signature and of the hashed message.
pub open spec fn spec_core_verify(pk: nat, sig: nat, h: nat) -> bool {
    pairing_product_is_one(seq![h, sig], seq![pk, point_neg(1)])
}

/// The aggregate verification equation: the product of the `e(H(m_i), pk_i)`
/// and of `e(sig, -g)` is 1. Hashed messages and public keys are paired in
/// order, the signature following the messages and the negated generator the
/// keys; where one list is longer, it is cut to the length of the other.
pub open spec fn spec_core_aggregate_verify(pks: Seq<nat>, hs: Seq<nat>, sig: nat) -> bool {
    pairing_product_is_one(hs.push(sig), pks.push(point_neg(1)))
}

/// The byte strings that a list of messages holds.
pub open spec fn messages(msgs: Seq<Vec<u8>>) -> Seq<Seq<u8>> {
    msgs.map_values(|m: Vec<u8>| m@)
}

/// The exponents of the points that the messages hash to in the group `T`.
pub open spec fn hash_exponents<T: CurvePoint>(msgs: Seq<Seq<u8>>, ciphersuite: u8) -> Seq<nat> {
    msgs.map_values(|m: Seq<u8>| T::hash_exponent(m, ciphersuite))
}

/// The core of the scheme, for signatures in the group `Self` and public keys
/// in the group `PKType`.
pub trait BLSSigCore: CurvePoint {
    /// The type of the public key.
    type PKType: CurvePoint;

    /// Derives the secret exponent from the key material `sk`, and the public
    /// key: the generator of the key group raised to that exponent.
    fn keygen(sk: &[u8]) -> (keys: (Scalar, Self::PKType))
        ensures
            keys.0@ == spec_xprime(sk@),
            keys.1.exponent() == spec_public_key(keys.0@),
            canonical(keys.1),
    ;

    /// Signs `msg`: the point that it hashes to, raised to the secret exponent.
    fn core_sign(x_prime: Scalar, msg: &[u8], ciphersuite: u8) -> (sig: Self)
        ensures
            sig.exponent() == spec_core_sign(x_prime@, Self::hash_exponent(msg@, ciphersuite)),
            canonical(sig),
    ;

    /// Whether `sig` is the signature of `msg` under the public key `pk`.
    fn core_verify(pk: Self::PKType, sig: Self, msg: &[u8], ciphersuite: u8) -> (ok: bool)
        ensures
            ok == spec_core_verify(
                pk.exponent(),
                sig.exponent(),
                Self::hash_exponent(msg@, ciphersuite),
            ),
    ;

    /// The sum of the signatures; the neutral element where there is none.
    fn aggregate(sigs: &[Self]) -> (sig: Self)
        ensures
            sig.exponent() == group_sum(exponents(sigs@)),
            canonical(sig),
    {
        sum_points(sigs)
    }

    /// Whether `sig` is the aggregate of signatures of `msgs[i]` under
    /// `pks[i]`.
    fn core_aggregate_verify(
        pks: &[Self::PKType],
        msgs: &[Vec<u8>],
        sig: Self,
        ciphersuite: u8,
    ) -> (ok: bool)
        ensures
            ok == spec_core_aggregate_verify(
                exponents(pks@),
                hash_exponents::<Self>(messages(msgs@), ciphersuite),
                sig.exponent(),
            ),
    ;
}

impl BLSSigCore for G1Point {
    type PKType = G2Point;

    fn keygen(sk: &[u8]) -> (keys: (Scalar, G2Point)) {
        let x_prime = xprime_from_sk(sk);
        let mut pk = G2Point::one();
        pk.mul_assign(x_prime);
        (x_prime, pk)
    }

    fn core_sign(x_prime: Scalar, msg: &[u8], ciphersuite: u8) -> (sig: G1Point) {
        let mut p = G1Point::hash_to_curve(msg, ciphersuite);
        p.mul_assign(x_prime);
        p
    }

    fn core_verify(pk: G2Point, sig: G1Point, msg: &[u8], ciphersuite: u8) -> (ok: bool) {
        let p = G1Point::hash_to_curve(msg, ciphersuite);
        let mut g2gen = G2Point::one();
        g2gen.negate();
        let ps = [p, sig];
        let qs = [pk, g2gen];
        proof {
            assert(exponents(ps@) =~= seq![p.exponent(), sig.exponent()]);
            assert(exponents(qs@) =~= seq![pk.exponent(), point_neg(1)]);
        }
        pairing_check(ps.as_slice(), qs.as_slice())
    }

    fn core_aggregate_verify(
        pks: &[G2Point],
        msgs: &[Vec<u8>],
        sig: G1Point,
        ciphersuite: u8,
    ) -> (ok: bool) {
        let mut pvec: Vec<G1Point> = Vec::new();
        let mut i: usize = 0;
        while i < msgs.len()
            invariant
                i <= msgs.len(),
                exponents(pvec@) == hash_exponents::<G1Point>(
                    messages(msgs@).take(i as int),
                    ciphersuite,
                ),
            decreases msgs.len() - i,
        {
            pvec.push(G1Point::hash_to_curve(msgs[i].as_slice(), ciphersuite));
            proof {
                let done = hash_exponents::<G1Point>(
                    messages(msgs@).take(i as int),
                    ciphersuite,
                );
                let next = hash_exponents::<G1Point>(messages(msgs@).take(i + 1), ciphersuite);
                assert(next =~= done.push(G1Point::hash_exponent(msgs@[i as int]@, ciphersuite)));
                assert(exponents(pvec@) =~= next);
            }
            i = i + 1;
        }
        pvec.push(sig);
        let mut qvec: Vec<G2Point> = Vec::new();
        let mut j: usize = 0;
        while j < pks.len()
            invariant
                j <= pks.len(),
                exponents(qvec@) == exponents(pks@.take(j as int)),
            decreases pks.len() - j,
        {
            qvec.push(pks[j]);
            proof {
                let done = exponents(pks@.take(j as int));
                let next = exponents(pks@.take(j + 1));
                assert(next =~= done.push(pks@[j as int].exponent()));
                assert(exponents(qvec@) =~= next);
            }
            j = j + 1;
        }
        let mut tmp = G2Point::one();
        tmp.negate();
        qvec.push(tmp);
        proof {
            assert(messages(msgs@).take(msgs.len() as int) =~= messages(msgs@));
            assert(pks@.take(pks.len() as int) =~= pks@);
            assert(exponents(pvec@) =~= hash_exponents::<G1Point>(
                messages(msgs@),
                ciphersuite,
            ).push(sig.exponent()));
            assert(exponents(qvec@) =~= exponents(pks@).push(point_neg(1)));
        }
        pairing_check(pvec.as_slice(), qvec.as_slice())
    }
}

impl BLSSigCore for G2Point {
    type PKType = G1Point;

    fn keygen(sk: &[u8]) -> (keys: (Scalar, G1Point)) {
        let x_prime = xprime_from_sk(sk);
        let mut pk = G1Point::one();
        pk.mul_assign(x_prime);
        (x_prime, pk)
    }

    fn core_sign(x_prime: Scalar, msg: &[u8], ciphersuite: u8) -> (sig: G2Point) {
        let mut p = G2Point::hash_to_curve(msg, ciphersuite);
        p.mul_assign(x_prime);
        p
    }

    fn core_verify(pk: G1Point, sig: G2Point, msg: &[u8], ciphersuite: u8) -> (ok: bool) {
        let p = G2Point::hash_to_curve(msg, ciphersuite);
        let mut g1gen = G1Point::one();
        g1gen.negate();
        let ps = [pk, g1gen];
        let qs = [p, sig];
        proof {
            assert(exponents(ps@) =~= seq![pk.exponent(), point_neg(1)]);
            assert(exponents(qs@) =~= seq![p.exponent(), sig.exponent()]);
            lemma_pairing_product_symmetric(exponents(ps@), exponents(qs@));
        }
        pairing_check(ps.as_slice(), qs.as_slice())
    }

    fn core_aggregate_verify(
        pks: &[G1Point],
        msgs: &[Vec<u8>],
        sig: G2Point,
        ciphersuite: u8,
    ) -> (ok: bool) {
        let mut pvec: Vec<G1Point> = Vec::new();
        let mut j: usize = 0;
        while j < pks.len()
            invariant
                j <= pks.len(),
                exponents(pvec@) == exponents(pks@.take(j as int)),
            decreases pks.len() - j,
        {
            pvec.push(pks[j]);
            proof {
                let done = exponents(pks@.take(j as int));
                let next = exponents(pks@.take(j + 1));
                assert(next =~= done.push(pks@[j as int].exponent()));
                assert(exponents(pvec@) =~= next);
            }
            j = j + 1;
        }
        let mut tmp = G1Point::one();
        tmp.negate();
        pvec.push(tmp);
        let mut qvec: Vec<G2Point> = Vec::new();
        let mut i: usize = 0;
        while i < msgs.len()
            invariant
                i <= msgs.len(),
                exponents(qvec@) == hash_exponents::<G2Point>(
                    messages(msgs@).take(i as int),
                    ciphersuite,
                ),
            decreases msgs.len() - i,
        {
            qvec.push(G2Point::hash_to_curve(msgs[i].as_slice(), ciphersuite));
            proof {
                let done = hash_exponents::<G2Point>(
                    messages(msgs@).take(i as int),
                    ciphersuite,
                );
                let next = hash_exponents::<G2Point>(messages(msgs@).take(i + 1), ciphersuite);
                assert(next =~= done.push(G2Point::hash_exponent(msgs@[i as int]@, ciphersuite)));
                assert(exponents(qvec@) =~= next);
            }
            i = i + 1;
        }
        qvec.push(sig);
        proof {
            assert(messages(msgs@).take(msgs.len() as int) =~= messages(msgs@));
            assert(pks@.take(pks.len() as int) =~= pks@);
            assert(exponents(qvec@) =~= hash_exponents::<G2Point>(
                messages(msgs@),
                ciphersuite,
            ).push(sig.exponent()));
            assert(exponents(pvec@) =~= exponents(pks@).push(point_neg(1)));
            lemma_pairing_product_symmetric(exponents(pvec@), exponents(qvec@));
        }
        pairing_check(pvec.as_slice(), qvec.as_slice())
    }
}

/// Appends the bytes of `tail` to `bytes`.
fn append_bytes(bytes: &mut Vec<u8>, tail: &[u8])
    ensures
        final(bytes)@ == old(bytes)@ + tail@,
{
    bytes.extend_from_slice(tail);
    assert(bytes@ =~= old(bytes)@ + tail@);
}

/// Whether two byte strings are equal.
fn bytes_equal(a: &[u8], b: &[u8]) -> (same: bool)
    ensures
        same == (a@ == b@),
{
    if a.len() != b.len() {
        return false;
    }
    let mut i: usize = 0;
    while i < a.len()
        invariant
            a.len() == b.len(),
            i <= a.len(),
            a@.take(i as int) == b@.take(i as int),
        decreases a.len() - i,
    {
        if a[i] != b[i] {
            return false;
        }
        proof {
            assert(a@.take(i + 1) =~= a@.take(i as int).push(a@[i as int]));
            assert(b@.take(i + 1) =~= b@.take(i as int).push(b@[i as int]));
        }
        i = i + 1;
    }
    proof {
        assert(a@.take(a.len() as int) =~= a@);
        assert(b@.take(b.len() as int) =~= b@);
    }
    true
}

/// Whether no message occurs twice in `msgs`.
pub fn messages_distinct(msgs: &[Vec<u8>]) -> (ok: bool)
    ensures
        ok == messages(msgs@).no_duplicates(),
{
    let mut i: usize = 0;
    while i < msgs.len()
        invariant
            i <= msgs.len(),
            forall|a: int, b: int| 0 <= a < b < i ==> messages(msgs@)[a] != messages(msgs@)[b],
        decreases msgs.len() - i,
    {
        let mut j: usize = 0;
        while j < i
            invariant
                j <= i < msgs.len(),
                forall|a: int| 0 <= a < j ==> messages(msgs@)[a] != messages(msgs@)[i as int],
            decreases i - j,
        {
            if bytes_equal(msgs[j].as_slice(), msgs[i].as_slice()) {
                proof {
                    assert(messages(msgs@)[j as int] == messages(msgs@)[i as int]);
                }
                return false;
            }
            j = j + 1;
        }
        i = i + 1;
    }
    true
}

/// The basic ciphersuite: the core scheme, with aggregates accepted only over
/// pairwise distinct messages.
pub trait BLSSignatureBasic: BLSSigCore {
    /// Signs `msg` as the core scheme does.
    fn sign(x_prime: Scalar, msg: &[u8], ciphersuite: u8) -> (sig: Self)
        ensures
            sig.exponent() == spec_core_sign(x_prime@, Self::hash_exponent(msg@, ciphersuite)),
            canonical(sig),
    {
        Self::core_sign(x_prime, msg, ciphersuite)
    }

    /// Verifies `sig` as the core scheme does.
    fn verify(pk: Self::PKType, sig: Self, msg: &[u8], ciphersuite: u8) -> (ok: bool)
        ensures
            ok == spec_core_verify(
                pk.exponent(),
                sig.exponent(),
                Self::hash_exponent(msg@, ciphersuite),
            ),
    {
        Self::core_verify(pk, sig, msg, ciphersuite)
    }

    /// Rejects where a message occurs twice; otherwise verifies the aggregate
    /// as the core scheme does.
    fn aggregate_verify(
        pks: &[Self::PKType],
        msgs: &[Vec<u8>],
        sig: Self,
        ciphersuite: u8,
    ) -> (ok: bool)
        ensures
            ok == (messages(msgs@).no_duplicates() && spec_core_aggregate_verify(
                exponents(pks@),
                hash_exponents::<Self>(messages(msgs@), ciphersuite),
                sig.exponent(),
            )),
    {
        if !messages_distinct(msgs) {
            return false;
        }
        Self::core_aggregate_verify(pks, msgs, sig, ciphersuite)
    }
}

impl BLSSignatureBasic for G1Point {}

impl BLSSignatureBasic for G2Point {}

/// The compressed encodings of a sequence of points.
pub open spec fn encodings<T: CurvePoint>(points: Seq<T>) -> Seq<Seq<u8>> {
    points.map_values(|p: T| p.encoding())
}

/// Each message with the encoding of its signer's public key before it; a
/// longer list is cut to the length of the shorter.
pub open spec fn augmented(pks: Seq<Seq<u8>>, msgs: Seq<Seq<u8>>) -> Seq<Seq<u8>> {
    Seq::new(
        if msgs.len() <= pks.len() {
            msgs.len()
        } else {
            pks.len()
        },
        |i: int| pks[i] + msgs[i],
    )
}

/// The message-augmentation ciphersuite: every message is signed and verified
/// with the encoding of the signer's public key before it.
pub trait BLSSignatureAug: BLSSigCore {
    /// The compressed encoding of the public key, in a vector with room for
    /// `size_hint` more bytes where the allocator grants it.
    fn pk_bytes(pk: &Self::PKType, size_hint: usize) -> (bytes: Vec<u8>)
        ensures
            bytes@ == pk.encoding(),
            bytes@.len() == <Self::PKType as CurvePoint>::encoding_len(),
            canonical(*pk),
    ;

    /// Signs the encoding of the signer's public key followed by `msg`.
    fn sign(x_prime: Scalar, msg: &[u8], ciphersuite: u8) -> (sig: Self)
        ensures
            sig.exponent() == spec_core_sign(
                x_prime@,
                Self::hash_exponent(
                    <Self::PKType as CurvePoint>::encoding_of(spec_public_key(x_prime@)) + msg@,
                    ciphersuite,
                ),
            ),
            canonical(sig),
    {
        let mut pk = <Self::PKType as CurvePoint>::one();
        pk.mul_assign(x_prime);
        let mut pk_msg_vec = Self::pk_bytes(&pk, msg.len());
        append_bytes(&mut pk_msg_vec, msg);
        Self::core_sign(x_prime, pk_msg_vec.as_slice(), ciphersuite)
    }

    /// Verifies `sig` against the encoding of `pk` followed by `msg`.
    fn verify(pk: Self::PKType, sig: Self, msg: &[u8], ciphersuite: u8) -> (ok: bool)
        ensures
            ok == spec_core_verify(
                pk.exponent(),
                sig.exponent(),
                Self::hash_exponent(pk.encoding() + msg@, ciphersuite),
            ),
    {
        let mut pk_msg_vec = Self::pk_bytes(&pk, msg.len());
        append_bytes(&mut pk_msg_vec, msg);
        Self::core_verify(pk, sig, pk_msg_vec.as_slice(), ciphersuite)
    }

    /// Verifies the aggregate `sig` against the messages `msgs[i]`, each with
    /// the encoding of `pks[i]` before it.
    fn aggregate_verify(
        pks: &[Self::PKType],
        msgs: &[Vec<u8>],
        sig: Self,
        ciphersuite: u8,
    ) -> (ok: bool)
        ensures
            ok == spec_core_aggregate_verify(
                exponents(pks@),
                hash_exponents::<Self>(
                    augmented(encodings(pks@), messages(msgs@)),
                    ciphersuite,
                ),
                sig.exponent(),
            ),
    {
        let mut pks_msgs_vec: Vec<Vec<u8>> = Vec::new();
        let mut i: usize = 0;
        while i < msgs.len() && i < pks.len()
            invariant
                i <= msgs.len(),
                i <= pks.len(),
                messages(pks_msgs_vec@) == augmented(
                    encodings(pks@),
                    messages(msgs@),
                ).take(i as int),
            decreases msgs.len() - i,
        {
            let mut pk_msg_vec = Self::pk_bytes(&pks[i], msgs[i].len());
            append_bytes(&mut pk_msg_vec, msgs[i].as_slice());
            pks_msgs_vec.push(pk_msg_vec);
            proof {
                let all = augmented(encodings(pks@), messages(msgs@));
                assert(all.take(i + 1) =~= all.take(i as int).push(all[i as int]));
                assert(messages(pks_msgs_vec@) =~= all.take(i + 1));
            }
            i = i + 1;
        }
        proof {
            let all = augmented(encodings(pks@), messages(msgs@));
            assert(all.take(i as int) =~= all);
        }
        Self::core_aggregate_verify(pks, pks_msgs_vec.as_slice(), sig, ciphersuite)
    }
}

impl<T: BLSSigCore> BLSSignatureAug for T {
    fn pk_bytes(pk: &Self::PKType, size_hint: usize) -> (bytes: Vec<u8>) {
        let mut bytes = pk.compress();
        let _ = bytes.try_reserve(size_hint);
        bytes
    }
}

/// The proof-of-possession ciphersuite: the core scheme, with every public
/// key vouched for by a signature of its own encoding, made under a
/// ciphersuite byte of its own.
pub trait BLSSignaturePop: BLSSigCore {
    /// Signs `msg` as the core scheme does.
    fn sign(x_prime: Scalar, msg: &[u8], ciphersuite: u8) -> (sig: Self)
        ensures
            sig.exponent() == spec_core_sign(x_prime@, Self::hash_exponent(msg@, ciphersuite)),
            canonical(sig),
    {
        Self::core_sign(x_prime, msg, ciphersuite)
    }

    /// Verifies `sig` as the core scheme does.
    fn verify(pk: Self::PKType, sig: Self, msg: &[u8], ciphersuite: u8) -> (ok: bool)
        ensures
            ok == spec_core_verify(
                pk.exponent(),
                sig.exponent(),
                Self::hash_exponent(msg@, ciphersuite),
            ),
    {
        Self::core_verify(pk, sig, msg, ciphersuite)
    }

    /// Verifies the aggregate `sig` as the core scheme does; the messages
    /// need not differ.
    fn aggregate_verify(
        pks: &[Self::PKType],
        msgs: &[Vec<u8>],
        sig: Self,
        ciphersuite: u8,
    ) -> (ok: bool)
        ensures
            ok == spec_core_aggregate_verify(
                exponents(pks@),
                hash_exponents::<Self>(messages(msgs@), ciphersuite),
                sig.exponent(),
            ),
    {
        Self::core_aggregate_verify(pks, msgs, sig, ciphersuite)
    }

    /// Verifies `sig` as the signature of the one message `msg` under the sum
    /// of the public keys.
    fn multisig_verify(pks: &[Self::PKType], sig: Self, msg: &[u8], ciphersuite: u8) -> (ok: bool)
        ensures
            ok == spec_core_verify(
                group_sum(exponents(pks@)),
                sig.exponent(),
                Self::hash_exponent(msg@, ciphersuite),
            ),
    {
        let apk = sum_points(pks);
        Self::core_verify(apk, sig, msg, ciphersuite)
    }

    /// Proves possession of the secret exponent that the key material `sk`
    /// stands for: signs the encoding of its public key.
    fn pop_prove(sk: &[u8], ciphersuite: u8) -> (sig: Self)
        ensures
            sig.exponent() == spec_core_sign(
                spec_xprime(sk@),
                Self::hash_exponent(
                    <Self::PKType as CurvePoint>::encoding_of(spec_public_key(spec_xprime(sk@))),
                    ciphersuite,
                ),
            ),
            canonical(sig),
    ;

    /// Proves possession where both keys are at hand: signs the encoding of
    /// `pk` with `sk`.
    fn pop_prove_with_both_keys(sk: &Scalar, pk: &Self::PKType, ciphersuite: u8) -> (sig: Self)
        ensures
            sig.exponent() == spec_core_sign(sk@, Self::hash_exponent(pk.encoding(), ciphersuite)),
            canonical(sig),
    ;

    /// Whether `sig` proves possession of the secret exponent of `pk`.
    fn pop_verify(pk: Self::PKType, sig: Self, ciphersuite: u8) -> (ok: bool)
        ensures
            ok == spec_core_verify(
                pk.exponent(),
                sig.exponent(),
                Self::hash_exponent(pk.encoding(), ciphersuite),
            ),
    ;
}

impl BLSSignaturePop for G1Point {
    fn pop_prove(sk: &[u8], ciphersuite: u8) -> (sig: G1Point) {
        let (x_prime, pk) = G1Point::keygen(sk);
        let pk_bytes = pk.to_bytes();
        G1Point::core_sign(x_prime, pk_bytes.as_slice(), ciphersuite)
    }

    fn pop_prove_with_both_keys(sk: &Scalar, pk: &G2Point, ciphersuite: u8) -> (sig: G1Point) {
        let pk_bytes = pk.to_bytes();
        G1Point::core_sign(*sk, pk_bytes.as_slice(), ciphersuite)
    }

    fn pop_verify(pk: G2Point, sig: G1Point, ciphersuite: u8) -> (ok: bool) {
        let pk_bytes = pk.to_bytes();
        G1Point::core_verify(pk, sig, pk_bytes.as_slice(), ciphersuite)
    }
}

impl BLSSignaturePop for G2Point {
    fn pop_prove(sk: &[u8], ciphersuite: u8) -> (sig: G2Point) {
        let (x_prime, pk) = G2Point::keygen(sk);
        let pk_bytes = pk.to_bytes();
        G2Point::core_sign(x_prime, pk_bytes.as_slice(), ciphersuite)
    }

    fn pop_prove_with_both_keys(sk: &Scalar, pk: &G1Point, ciphersuite: u8) -> (sig: G2Point) {
        let pk_bytes = pk.to_bytes();
        G2Point::core_sign(*sk, pk_bytes.as_slice(), ciphersuite)
    }

    fn pop_verify(pk: G1Point, sig: G2Point, ciphersuite: u8) -> (ok: bool) {
        let pk_bytes = pk.to_bytes();
        G2Point::core_verify(pk, sig, pk_bytes.as_slice(), ciphersuite)
    }
}

} // verus!
