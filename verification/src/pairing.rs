//! The pairing of G1 and G2 into the target group, as far as verification
//! needs it: whether a product of pairings is the neutral element.

use crate::curve::exponents;
use crate::g1::G1Point;
use crate::g2::G2Point;
use crate::scalar::be_nat;
use crate::scalar::group_order;
use ff_zeroize::Field;
use pairing_plus::bls12_381::Bls12;
use pairing_plus::bls12_381::Fq12;
use pairing_plus::bls12_381::G1Prepared;
use pairing_plus::bls12_381::G2Prepared;
use pairing_plus::bls12_381::G1;
use pairing_plus::bls12_381::G2;
use pairing_plus::serdes::SerDes;
use pairing_plus::CurveAffine;
use pairing_plus::CurveProjective;
use pairing_plus::Engine;
use vstd::prelude::*;

verus! {

/// The order of the base field of the curve.
pub open spec fn field_modulus() -> nat {
    0x1a0111ea397fe69a4b1ba7b6434bacd764774b84f38512bf6730d2a0f6b0f6241eabfffeb153ffffb9feffffffffaaabnat
}

/// The `i`-th of the twelve base-field coefficients that `bytes` hold, each
/// in 48 bytes, most significant byte first.
pub open spec fn coefficient(bytes: Seq<u8>, i: int) -> nat {
    be_nat(bytes.subrange(48 * i, 48 * i + 48))
}

/// `bytes` is the encoding of an element of the degree-12 extension field:
/// twelve reduced coefficients.
pub open spec fn fq12_canonical(bytes: Seq<u8>) -> bool {
    &&& bytes.len() == 576
    &&& forall|i: int| 0 <= i < 12 ==> #[trigger] coefficient(bytes, i) < field_modulus()
}

/// The encoding of the neutral element of the target group: the first
/// coefficient is 1, the others are 0.
pub open spec fn fq12_one() -> Seq<u8> {
    Seq::new(576, |i: int| if i == 47 { 1u8 } else { 0u8 })
}

/// What the final exponentiation makes of the field element that `f`
/// encodes; `None` where it has no result.
pub uninterp spec fn final_exponentiation_of(f: Seq<u8>) -> Option<Seq<u8>>;

/// The sum of the products of the first `n` exponents of `ps` with those of
/// `qs`.
pub open spec fn sum_of_products(ps: Seq<nat>, qs: Seq<nat>, n: nat) -> nat
    decreases n,
{
    if n == 0 {
        0
    } else {
        sum_of_products(ps, qs, (n - 1) as nat) + ps[n - 1] * qs[n - 1]
    }
}

/// The number of pairs that two sequences of points make, the longer one cut
/// to the length of the shorter.
pub open spec fn pair_count(ps: Seq<nat>, qs: Seq<nat>) -> nat {
    if ps.len() <= qs.len() {
        ps.len()
    } else {
        qs.len()
    }
}

/// The product of the pairings of the points with exponents `ps[i]` in G1 and
/// `qs[i]` in G2 is the neutral element of the target group: the exponents'
/// products sum to a multiple of the group order.
pub open spec fn pairing_product_is_one(ps: Seq<nat>, qs: Seq<nat>) -> bool {
    sum_of_products(ps, qs, pair_count(ps, qs)) % group_order() == 0
}

/// The sum of products is the same with the two sequences exchanged.
pub proof fn lemma_sum_of_products_symmetric(ps: Seq<nat>, qs: Seq<nat>, n: nat)
    ensures
        sum_of_products(ps, qs, n) == sum_of_products(qs, ps, n),
    decreases n,
{
    if n > 0 {
        lemma_sum_of_products_symmetric(ps, qs, (n - 1) as nat);
        assert(ps[n - 1] * qs[n - 1] == qs[n - 1] * ps[n - 1]) by (nonlinear_arith);
    }
}

/// Whether a product of pairings is the neutral element does not depend on
/// which of the two lists of exponents is taken for which group.
pub proof fn lemma_pairing_product_symmetric(ps: Seq<nat>, qs: Seq<nat>)
    ensures
        pairing_product_is_one(ps, qs) == pairing_product_is_one(qs, ps),
{
    lemma_sum_of_products_symmetric(ps, qs, pair_count(ps, qs));
}

/// `Bls12::miller_loop` over the pairs that `ps` and `qs` make in order, each
/// point read by `deserialize` and prepared in affine form, the result
/// written by `Fq12::serialize`. Trusted: the pairing is bilinear and not
/// degenerate, and the loop's value is never zero on points of the two
/// groups. So the final exponentiation of the result has a value, and that
/// value is the neutral element exactly when the products of the exponents
/// sum to a multiple of the group order.
#[verifier::external_body]
fn miller_loop(ps: &[G1Point], qs: &[G2Point]) -> (f: [u8; 576])
    ensures
        fq12_canonical(f@),
        final_exponentiation_of(f@) is Some,
        final_exponentiation_of(f@) == Some(fq12_one()) <==> pairing_product_is_one(
            exponents(ps@),
            exponents(qs@),
        ),
{
    let pv: Vec<G1Prepared> = ps
        .iter()
        .map(|p| G1::deserialize(&mut &p.bytes[..], true).unwrap().into_affine().prepare())
        .collect();
    let qv: Vec<G2Prepared> = qs
        .iter()
        .map(|q| G2::deserialize(&mut &q.bytes[..], true).unwrap().into_affine().prepare())
        .collect();
    let pairs: Vec<(&G1Prepared, &G2Prepared)> = pv.iter().zip(qv.iter()).collect();
    let mut f = [0u8; 576];
    Bls12::miller_loop(&pairs).serialize(&mut &mut f[..], true).unwrap();
    f
}

/// `Bls12::final_exponentiation`, between `Fq12::deserialize` and
/// `Fq12::serialize`. Trusted: whether it has a result, and which, depends
/// on the field element alone.
#[verifier::external_body]
fn final_exponentiation(f: &[u8; 576]) -> (g: Option<[u8; 576]>)
    requires
        fq12_canonical(f@),
    ensures
        g is Some <==> final_exponentiation_of(f@) is Some,
        g matches Some(v) ==> final_exponentiation_of(f@) == Some(v@) && fq12_canonical(v@),
{
    match Bls12::final_exponentiation(&Fq12::deserialize(&mut &f[..], true).unwrap()) {
        Some(y) => {
            let mut g = [0u8; 576];
            y.serialize(&mut &mut g[..], true).unwrap();
            Some(g)
        },
        None => None,
    }
}

/// The comparison `==` of the field element that `Fq12::deserialize` reads
/// with `Fq12::one`. Trusted: field elements are equal exactly when their
/// encodings are, and the encoding of `Fq12::one` is a first coefficient of 1
/// before eleven of 0.
#[verifier::external_body]
fn fq12_is_one(g: &[u8; 576]) -> (ok: bool)
    requires
        fq12_canonical(g@),
    ensures
        ok == (g@ == fq12_one()),
{
    Fq12::deserialize(&mut &g[..], true).unwrap() == Fq12::one()
}

/// Whether the product of the pairings of `ps[i]` with `qs[i]` is the neutral
/// element of the target group, by one Miller loop and one final
/// exponentiation. A longer slice is cut to the length of the shorter.
pub fn pairing_check(ps: &[G1Point], qs: &[G2Point]) -> (ok: bool)
    ensures
        ok == pairing_product_is_one(exponents(ps@), exponents(qs@)),
{
    let f = miller_loop(ps, qs);
    match final_exponentiation(&f) {
        None => false,
        Some(pairingproduct) => fq12_is_one(&pairingproduct),
    }
}

} // verus!
