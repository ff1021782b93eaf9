//! The capabilities that the signature scheme asks of a group, and the model
//! in which its contracts are stated: a point is the exponent to which the
//! fixed generator of its group is raised, a number below the group order.

use crate::scalar::group_order;
use crate::scalar::Scalar;
use vstd::prelude::*;

verus! {

/// The exponent of the sum of two points.
pub open spec fn point_add(a: nat, b: nat) -> nat {
    (a + b) % group_order()
}

/// The exponent of the inverse of a point.
pub open spec fn point_neg(a: nat) -> nat {
    ((group_order() - a % group_order()) % (group_order() as int)) as nat
}

/// The exponent of a point multiplied by the scalar `k`.
pub open spec fn point_mul(a: nat, k: nat) -> nat {
    (a * k) % group_order()
}

/// The point is an element of its group: its exponent is below the group
/// order and its encoding is the one that belongs to that exponent.
pub open spec fn canonical<T: CurvePoint>(p: T) -> bool {
    &&& p.exponent() < group_order()
    &&& p.encoding() == T::encoding_of(p.exponent())
}

/// A group of prime order with a fixed generator, a hash into it and a
/// compressed encoding of its elements.
pub trait CurvePoint: Sized + Copy {
    /// The exponent `e` for which the point is the generator raised to `e`.
    spec fn exponent(&self) -> nat;

    /// The compressed encoding of the point.
    spec fn encoding(&self) -> Seq<u8>;

    /// The compressed encoding of the generator raised to `e`.
    spec fn encoding_of(e: nat) -> Seq<u8>;

    /// The number of bytes of a compressed encoding.
    spec fn encoding_len() -> nat;

    /// The exponent of the point that `msg` hashes to under the one-byte
    /// domain separator `ciphersuite`.
    spec fn hash_exponent(msg: Seq<u8>, ciphersuite: u8) -> nat;

    /// The neutral element.
    fn zero() -> (p: Self)
        ensures
            p.exponent() == 0,
            p.exponent() < group_order(),
            p.encoding() == Self::encoding_of(p.exponent()),
    ;

    /// The fixed generator.
    fn one() -> (p: Self)
        ensures
            p.exponent() == 1,
            p.exponent() < group_order(),
            p.encoding() == Self::encoding_of(p.exponent()),
    ;

    /// Adds `other` to this point.
    fn add_assign(&mut self, other: &Self)
        ensures
            final(self).exponent() == point_add(old(self).exponent(), other.exponent()),
            final(self).exponent() < group_order(),
            final(self).encoding() == Self::encoding_of(final(self).exponent()),
    ;

    /// Replaces this point by its inverse.
    fn negate(&mut self)
        ensures
            final(self).exponent() == point_neg(old(self).exponent()),
            final(self).exponent() < group_order(),
            final(self).encoding() == Self::encoding_of(final(self).exponent()),
    ;

    /// Multiplies this point by the scalar `k`.
    fn mul_assign(&mut self, k: Scalar)
        ensures
            final(self).exponent() == point_mul(old(self).exponent(), k@),
            final(self).exponent() < group_order(),
            final(self).encoding() == Self::encoding_of(final(self).exponent()),
    ;

    /// Hashes `msg` to a point under the one-byte domain separator
    /// `ciphersuite`.
    fn hash_to_curve(msg: &[u8], ciphersuite: u8) -> (p: Self)
        ensures
            p.exponent() == Self::hash_exponent(msg@, ciphersuite),
            p.exponent() < group_order(),
            p.encoding() == Self::encoding_of(p.exponent()),
    ;

    /// The compressed encoding of the point.
    fn compress(&self) -> (bytes: Vec<u8>)
        ensures
            bytes@ == self.encoding(),
            bytes@.len() == Self::encoding_len(),
            self.exponent() < group_order(),
            self.encoding() == Self::encoding_of(self.exponent()),
    ;
}

/// The exponents of a sequence of points.
pub open spec fn exponents<T: CurvePoint>(points: Seq<T>) -> Seq<nat> {
    points.map_values(|p: T| p.exponent())
}

/// The exponent of the sum of points with the given exponents.
pub open spec fn group_sum(exps: Seq<nat>) -> nat {
    exps.fold_left(0nat, |acc: nat, e: nat| point_add(acc, e))
}

/// The sum of the points `ins`; the neutral element where there is none.
pub fn sum_points<T: CurvePoint>(ins: &[T]) -> (ret: T)
    ensures
        ret.exponent() == group_sum(exponents(ins@)),
        canonical(ret),
{
    let mut ret = T::zero();
    let mut i: usize = 0;
    while i < ins.len()
        invariant
            i <= ins.len(),
            ret.exponent() == group_sum(exponents(ins@.take(i as int))),
            canonical(ret),
        decreases ins.len() - i,
    {
        ret.add_assign(&ins[i]);
        proof {
            let next = exponents(ins@.take(i + 1));
            assert(next.drop_last() =~= exponents(ins@.take(i as int)));
            assert(next.last() == ins@[i as int].exponent());
        }
        i = i + 1;
    }
    proof {
        assert(ins@.take(ins.len() as int) =~= ins@);
    }
    ret
}

} // verus!
