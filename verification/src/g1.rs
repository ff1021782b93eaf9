//! The group G1 of BLS12-381.

use crate::curve::canonical;
use crate::curve::point_add;
use crate::curve::point_mul;
use crate::curve::point_neg;
use crate::curve::CurvePoint;
use crate::scalar::be_nat;
use crate::scalar::group_order;
use crate::scalar::Scalar;
use pairing_plus::bls12_381::Fr;
use pairing_plus::bls12_381::G1;
use pairing_plus::hash_to_curve::HashToCurve;
use pairing_plus::hash_to_field::ExpandMsgXmd;
use pairing_plus::serdes::SerDes;
use pairing_plus::CurveProjective;
use sha2::Sha256;
use vstd::prelude::*;

verus! {

/// The 48 bytes that `serialize` writes in compressed form for the element
/// of G1 with exponent `e`: the generator `G1::one` multiplied by `e`.
pub uninterp spec fn g1_point(e: nat) -> Seq<u8>;

/// The exponent, below the group order, of the element of G1 that
/// `deserialize` reads from `bytes` in compressed form; the group order where
/// it reads none.
pub uninterp spec fn g1_log(bytes: Seq<u8>) -> nat;

/// The compressed encoding of the element of G1 that `hash_to_curve` makes of
/// `msg` under the domain separation tag `dst`.
pub uninterp spec fn hash_to_g1(msg: Seq<u8>, dst: Seq<u8>) -> Seq<u8>;

/// `bytes` is the compressed encoding of the element of G1 with exponent `e`.
pub open spec fn g1_encodes(bytes: Seq<u8>, e: nat) -> bool {
    &&& e < group_order()
    &&& bytes == g1_point(e)
    &&& g1_log(bytes) == e
}

/// `bytes` is the compressed encoding of an element of G1.
pub open spec fn g1_valid(bytes: Seq<u8>) -> bool {
    g1_encodes(bytes, g1_log(bytes))
}

/// An element of G1, held as its 48-byte compressed encoding.
#[derive(Clone, Copy, Debug, PartialEq, Eq)]
pub struct G1Point {
    pub(crate) bytes: [u8; 48],
}

impl View for G1Point {
    type V = nat;

    closed spec fn view(&self) -> nat {
        g1_log(self.bytes@)
    }
}

impl G1Point {
    #[verifier::type_invariant]
    pub closed spec fn well_formed(self) -> bool {
        g1_valid(self.bytes@)
    }

    /// The point that `bytes` encode, where they encode one.
    pub fn from_bytes(bytes: [u8; 48]) -> (p: Option<Self>)
        ensures
            p is Some <==> g1_valid(bytes@),
            p matches Some(q) ==> q.encoding() == bytes@ && q@ == g1_log(bytes@) && canonical(q),
    {
        if g1_decodes(&bytes) {
            Some(G1Point { bytes })
        } else {
            None
        }
    }

    /// The compressed encoding of the point.
    pub fn to_bytes(&self) -> (bytes: [u8; 48])
        ensures
            bytes@ == self.encoding(),
            g1_valid(bytes@),
            canonical(*self),
    {
        proof {
            use_type_invariant(self);
        }
        self.bytes
    }
}

/// `G1::deserialize` in compressed form. Trusted: it succeeds on the
/// encodings that `serialize` writes for the elements of G1, and on nothing
/// else.
#[verifier::external_body]
fn g1_decodes(bytes: &[u8; 48]) -> (ok: bool)
    ensures
        ok == (g1_log(bytes@) < group_order() && bytes@ == g1_point(g1_log(bytes@))),
{
    G1::deserialize(&mut &bytes[..], true).is_ok()
}

/// `G1::zero`, written by `serialize`. Trusted: it is the neutral element,
/// the generator multiplied by 0.
#[verifier::external_body]
fn g1_zero() -> (out: [u8; 48])
    ensures
        g1_encodes(out@, 0),
{
    let mut out = [0u8; 48];
    G1::zero().serialize(&mut &mut out[..], true).unwrap();
    out
}

/// `G1::one`, written by `serialize`. Trusted: it is the generator that the
/// exponents are counted from.
#[verifier::external_body]
fn g1_one() -> (out: [u8; 48])
    ensures
        g1_encodes(out@, 1),
{
    let mut out = [0u8; 48];
    G1::one().serialize(&mut &mut out[..], true).unwrap();
    out
}

/// `add_assign` on G1, between `deserialize` and `serialize`. Trusted: it is
/// the group operation, so the exponents add modulo the group order.
#[verifier::external_body]
fn g1_add(a: &[u8; 48], b: &[u8; 48]) -> (out: [u8; 48])
    requires
        g1_valid(a@),
        g1_valid(b@),
    ensures
        g1_encodes(out@, point_add(g1_log(a@), g1_log(b@))),
{
    let mut p = G1::deserialize(&mut &a[..], true).unwrap();
    p.add_assign(&G1::deserialize(&mut &b[..], true).unwrap());
    let mut out = [0u8; 48];
    p.serialize(&mut &mut out[..], true).unwrap();
    out
}

/// `negate` on G1, between `deserialize` and `serialize`. Trusted: it is the
/// inverse in the group, whose exponent is the group order less the exponent
/// of the point, and 0 for the neutral element.
#[verifier::external_body]
fn g1_negate(a: &[u8; 48]) -> (out: [u8; 48])
    requires
        g1_valid(a@),
    ensures
        g1_encodes(out@, point_neg(g1_log(a@))),
{
    let mut p = G1::deserialize(&mut &a[..], true).unwrap();
    p.negate();
    let mut out = [0u8; 48];
    p.serialize(&mut &mut out[..], true).unwrap();
    out
}

/// `mul_assign` on G1 by the scalar that `Fr::deserialize` reads from `k`,
/// between `deserialize` and `serialize`. Trusted: the point is added to
/// itself that many times, so its exponent is multiplied by the scalar modulo
/// the group order.
#[verifier::external_body]
fn g1_mul(a: &[u8; 48], k: &[u8; 32]) -> (out: [u8; 48])
    requires
        g1_valid(a@),
        be_nat(k@) < group_order(),
    ensures
        g1_encodes(out@, point_mul(g1_log(a@), be_nat(k@))),
{
    let mut p = G1::deserialize(&mut &a[..], true).unwrap();
    p.mul_assign(Fr::deserialize(&mut &k[..], true).unwrap());
    let mut out = [0u8; 48];
    p.serialize(&mut &mut out[..], true).unwrap();
    out
}

/// `hash_to_curve` into G1 with SHA-256 message expansion and the one-byte
/// tag `ciphersuite`, written by `serialize`. Trusted: the result is an
/// element of G1 and a function of the two arguments alone.
#[verifier::external_body]
fn g1_hash(msg: &[u8], ciphersuite: u8) -> (out: [u8; 48])
    ensures
        out@ == hash_to_g1(msg@, seq![ciphersuite]),
        g1_valid(out@),
{
    let p = <G1 as HashToCurve<ExpandMsgXmd<Sha256>>>::hash_to_curve(msg, [ciphersuite]);
    let mut out = [0u8; 48];
    p.serialize(&mut &mut out[..], true).unwrap();
    out
}

impl CurvePoint for G1Point {
    open spec fn exponent(&self) -> nat {
        self@
    }

    closed spec fn encoding(&self) -> Seq<u8> {
        self.bytes@
    }

    open spec fn encoding_of(e: nat) -> Seq<u8> {
        g1_point(e)
    }

    open spec fn encoding_len() -> nat {
        48
    }

    open spec fn hash_exponent(msg: Seq<u8>, ciphersuite: u8) -> nat {
        g1_log(hash_to_g1(msg, seq![ciphersuite]))
    }

    fn zero() -> (p: Self) {
        G1Point { bytes: g1_zero() }
    }

    fn one() -> (p: Self) {
        G1Point { bytes: g1_one() }
    }

    fn add_assign(&mut self, other: &Self) {
        proof {
            use_type_invariant(&*self);
            use_type_invariant(other);
        }
        self.bytes = g1_add(&self.bytes, &other.bytes);
    }

    fn negate(&mut self) {
        proof {
            use_type_invariant(&*self);
        }
        self.bytes = g1_negate(&self.bytes);
    }

    fn mul_assign(&mut self, k: Scalar) {
        proof {
            use_type_invariant(&*self);
        }
        let factor = k.to_bytes();
        self.bytes = g1_mul(&self.bytes, &factor);
    }

    fn hash_to_curve(msg: &[u8], ciphersuite: u8) -> (p: Self) {
        G1Point { bytes: g1_hash(msg, ciphersuite) }
    }

    fn compress(&self) -> (bytes: Vec<u8>) {
        proof {
            use_type_invariant(self);
        }
        vstd::slice::slice_to_vec(self.bytes.as_slice())
    }
}

} // verus!
