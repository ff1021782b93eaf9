//! The group G2 of BLS12-381.

use crate::curve::canonical;
use crate::curve::point_add;
use crate::curve::point_mul;
use crate::curve::point_neg;
use crate::curve::CurvePoint;
use crate::scalar::be_nat;
use crate::scalar::group_order;
use crate::scalar::Scalar;
use pairing_plus::bls12_381::Fr;
use pairing_plus::bls12_381::G2;
use pairing_plus::hash_to_curve::HashToCurve;
use pairing_plus::hash_to_field::ExpandMsgXmd;
use pairing_plus::serdes::SerDes;
use pairing_plus::CurveProjective;
use sha2::Sha256;
use vstd::prelude::*;

verus! {

/// The 96 bytes that `serialize` writes in compressed form for the element
/// of G2 with exponent `e`: the generator `G2::one` multiplied by `e`.
pub uninterp spec fn g2_point(e: nat) -> Seq<u8>;

/// The exponent, below the group order, of the element of G2 that
/// `deserialize` reads from `bytes` in compressed form; the group order where
/// it reads none.
pub uninterp spec fn g2_log(bytes: Seq<u8>) -> nat;

/// The compressed encoding of the element of G2 that `hash_to_curve` makes of
/// `msg` under the domain separation tag `dst`.
pub uninterp spec fn hash_to_g2(msg: Seq<u8>, dst: Seq<u8>) -> Seq<u8>;

/// `bytes` is the compressed encoding of the element of G2 with exponent `e`.
pub open spec fn g2_encodes(bytes: Seq<u8>, e: nat) -> bool {
    &&& e < group_order()
    &&& bytes == g2_point(e)
    &&& g2_log(bytes) == e
}

/// `bytes` is the compressed encoding of an element of G2.
pub open spec fn g2_valid(bytes: Seq<u8>) -> bool {
    g2_encodes(bytes, g2_log(bytes))
}

/// An element of G2, held as its 96-byte compressed encoding.
#[derive(Clone, Copy, Debug, PartialEq, Eq)]
pub struct G2Point {
    pub(crate) bytes: [u8; 96],
}

impl View for G2Point {
    type V = nat;

    closed spec fn view(&self) -> nat {
        g2_log(self.bytes@)
    }
}

impl G2Point {
    #[verifier::type_invariant]
    pub closed spec fn well_formed(self) -> bool {
        g2_valid(self.bytes@)
    }

    /// The point that `bytes` encode, where they encode one.
    pub fn from_bytes(bytes: [u8; 96]) -> (p: Option<Self>)
        ensures
            p is Some <==> g2_valid(bytes@),
            p matches Some(q) ==> q.encoding() == bytes@ && q@ == g2_log(bytes@) && canonical(q),
    {
        if g2_decodes(&bytes) {
            Some(G2Point { bytes })
        } else {
            None
        }
    }

    /// The compressed encoding of the point.
    pub fn to_bytes(&self) -> (bytes: [u8; 96])
        ensures
            bytes@ == self.encoding(),
            g2_valid(bytes@),
            canonical(*self),
    {
        proof {
            use_type_invariant(self);
        }
        self.bytes
    }
}

/// `G2::deserialize` in compressed form. Trusted: it succeeds on the
/// encodings that `serialize` writes for the elements of G2, and on nothing
/// else.
#[verifier::external_body]
fn g2_decodes(bytes: &[u8; 96]) -> (ok: bool)
    ensures
        ok == (g2_log(bytes@) < group_order() && bytes@ == g2_point(g2_log(bytes@))),
{
    G2::deserialize(&mut &bytes[..], true).is_ok()
}

/// `G2::zero`, written by `serialize`. Trusted: it is the neutral element,
/// the generator multiplied by 0.
#[verifier::external_body]
fn g2_zero() -> (out: [u8; 96])
    ensures
        g2_encodes(out@, 0),
{
    let mut out = [0u8; 96];
    G2::zero().serialize(&mut &mut out[..], true).unwrap();
    out
}

/// `G2::one`, written by `serialize`. Trusted: it is the generator that the
/// exponents are counted from.
#[verifier::external_body]
fn g2_one() -> (out: [u8; 96])
    ensures
        g2_encodes(out@, 1),
{
    let mut out = [0u8; 96];
    G2::one().serialize(&mut &mut out[..], true).unwrap();
    out
}

/// `add_assign` on G2, between `deserialize` and `serialize`. Trusted: it is
/// the group operation, so the exponents add modulo the group order.
#[verifier::external_body]
fn g2_add(a: &[u8; 96], b: &[u8; 96]) -> (out: [u8; 96])
    requires
        g2_valid(a@),
        g2_valid(b@),
    ensures
        g2_encodes(out@, point_add(g2_log(a@), g2_log(b@))),
{
    let mut p = G2::deserialize(&mut &a[..], true).unwrap();
    p.add_assign(&G2::deserialize(&mut &b[..], true).unwrap());
    let mut out = [0u8; 96];
    p.serialize(&mut &mut out[..], true).unwrap();
    out
}

/// `negate` on G2, between `deserialize` and `serialize`. Trusted: it is the
/// inverse in the group, whose exponent is the group order less the exponent
/// of the point, and 0 for the neutral element.
#[verifier::external_body]
fn g2_negate(a: &[u8; 96]) -> (out: [u8; 96])
    requires
        g2_valid(a@),
    ensures
        g2_encodes(out@, point_neg(g2_log(a@))),
{
    let mut p = G2::deserialize(&mut &a[..], true).unwrap();
    p.negate();
    let mut out = [0u8; 96];
    p.serialize(&mut &mut out[..], true).unwrap();
    out
}

/// `mul_assign` on G2 by the scalar that `Fr::deserialize` reads from `k`,
/// between `deserialize` and `serialize`. Trusted: the point is added to
/// itself that many times, so its exponent is multiplied by the scalar modulo
/// the group order.
#[verifier::external_body]
fn g2_mul(a: &[u8; 96], k: &[u8; 32]) -> (out: [u8; 96])
    requires
        g2_valid(a@),
        be_nat(k@) < group_order(),
    ensures
        g2_encodes(out@, point_mul(g2_log(a@), be_nat(k@))),
{
    let mut p = G2::deserialize(&mut &a[..], true).unwrap();
    p.mul_assign(Fr::deserialize(&mut &k[..], true).unwrap());
    let mut out = [0u8; 96];
    p.serialize(&mut &mut out[..], true).unwrap();
    out
}

/// `hash_to_curve` into G2 with SHA-256 message expansion and the one-byte
/// tag `ciphersuite`, written by `serialize`. Trusted: the result is an
/// element of G2 and a function of the two arguments alone.
#[verifier::external_body]
fn g2_hash(msg: &[u8], ciphersuite: u8) -> (out: [u8; 96])
    ensures
        out@ == hash_to_g2(msg@, seq![ciphersuite]),
        g2_valid(out@),
{
    let p = <G2 as HashToCurve<ExpandMsgXmd<Sha256>>>::hash_to_curve(msg, [ciphersuite]);
    let mut out = [0u8; 96];
    p.serialize(&mut &mut out[..], true).unwrap();
    out
}

impl CurvePoint for G2Point {
    open spec fn exponent(&self) -> nat {
        self@
    }

    closed spec fn encoding(&self) -> Seq<u8> {
        self.bytes@
    }

    open spec fn encoding_of(e: nat) -> Seq<u8> {
        g2_point(e)
    }

    open spec fn encoding_len() -> nat {
        96
    }

    open spec fn hash_exponent(msg: Seq<u8>, ciphersuite: u8) -> nat {
        g2_log(hash_to_g2(msg, seq![ciphersuite]))
    }

    fn zero() -> (p: Self) {
        G2Point { bytes: g2_zero() }
    }

    fn one() -> (p: Self) {
        G2Point { bytes: g2_one() }
    }

    fn add_assign(&mut self, other: &Self) {
        proof {
            use_type_invariant(&*self);
            use_type_invariant(other);
        }
        self.bytes = g2_add(&self.bytes, &other.bytes);
    }

    fn negate(&mut self) {
        proof {
            use_type_invariant(&*self);
        }
        self.bytes = g2_negate(&self.bytes);
    }

    fn mul_assign(&mut self, k: Scalar) {
        proof {
            use_type_invariant(&*self);
        }
        let factor = k.to_bytes();
        self.bytes = g2_mul(&self.bytes, &factor);
    }

    fn hash_to_curve(msg: &[u8], ciphersuite: u8) -> (p: Self) {
        G2Point { bytes: g2_hash(msg, ciphersuite) }
    }

    fn compress(&self) -> (bytes: Vec<u8>) {
        proof {
            use_type_invariant(self);
        }
        vstd::slice::slice_to_vec(self.bytes.as_slice())
    }
}

} // verus!
