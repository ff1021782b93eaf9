//! What holds of the scheme for every key, message and ciphersuite, in either
//! configuration. Each law is proved first over the exponents by which the
//! contracts of the signing and verifying functions describe their results,
//! and then stated of whatever those functions return.

use crate::curve::exponents;
use crate::curve::group_sum;
use crate::curve::point_add;
use crate::curve::point_neg;
use crate::curve::CurvePoint;
use crate::pairing::sum_of_products;
use crate::scalar::group_order;
use crate::scalar::Scalar;
use crate::signature::hash_exponents;
use crate::signature::messages;
use crate::signature::spec_core_aggregate_verify;
use crate::signature::spec_core_sign;
use crate::signature::spec_core_verify;
use crate::signature::spec_public_key;
use crate::signature::BLSSigCore;
use crate::signature::BLSSignatureAug;
use crate::signature::BLSSignatureBasic;
use crate::signature::BLSSignaturePop;
use vstd::arithmetic::div_mod::lemma_add_mod_noop;
use vstd::arithmetic::div_mod::lemma_add_mod_noop_right;
use vstd::arithmetic::div_mod::lemma_mod_equivalence;
use vstd::arithmetic::div_mod::lemma_mod_multiples_vanish;
use vstd::arithmetic::div_mod::lemma_mod_twice;
use vstd::arithmetic::div_mod::lemma_mul_mod_noop_right;
use vstd::prelude::*;
use vstd::seq_lib::lemma_fold_left_permutation;

verus! {

/// The sum of the products of the first `n` exponents is the same for
/// sequences that agree on their first `n` entries.
proof fn lemma_sum_of_products_prefix(
    ps: Seq<nat>,
    qs: Seq<nat>,
    ps2: Seq<nat>,
    qs2: Seq<nat>,
    n: nat,
)
    requires
        n <= ps.len(),
        n <= qs.len(),
        n <= ps2.len(),
        n <= qs2.len(),
        forall|i: int| 0 <= i < n ==> ps[i] == ps2[i] && qs[i] == qs2[i],
    ensures
        sum_of_products(ps, qs, n) == sum_of_products(ps2, qs2, n),
    decreases n,
{
    if n > 0 {
        lemma_sum_of_products_prefix(ps, qs, ps2, qs2, (n - 1) as nat);
    }
}

/// A sum `a + sig * (r - 1)` is a multiple of the group order `r` exactly
/// when `a` and `sig` leave the same remainder.
proof fn lemma_negated_generator(a: nat, sig: nat)
    ensures
        (a + sig * point_neg(1)) % group_order() == 0 <==> a % group_order() == sig % group_order(),
{
    let r: int = group_order() as int;
    assert(point_neg(1) == r - 1);
    assert(a + sig * (r - 1) == r * sig + (a - sig)) by (nonlinear_arith);
    lemma_mod_multiples_vanish(sig as int, a - sig, r);
    lemma_mod_equivalence(a as int, sig as int, r);
}

/// The verification equation holds exactly when the signature is the hashed
/// message raised to the exponent of the public key: `e(H(m), pk) = e(sig, g)`
/// says that `h * pk` and `sig` are the same exponent.
pub proof fn lemma_verification_equation(pk: nat, sig: nat, h: nat)
    ensures
        spec_core_verify(pk, sig, h) <==> (h * pk) % group_order() == sig % group_order(),
{
    let ps = seq![h, sig];
    let qs = seq![pk, point_neg(1)];
    reveal_with_fuel(sum_of_products, 3);
    assert(sum_of_products(ps, qs, 2) == h * pk + sig * point_neg(1));
    lemma_negated_generator(h * pk, sig);
}

/// The aggregate verification equation over as many public keys as messages
/// holds exactly when the products of the hashed messages with their keys sum
/// to the exponent of the signature.
pub proof fn lemma_aggregate_equation(pks: Seq<nat>, hs: Seq<nat>, sig: nat)
    requires
        pks.len() == hs.len(),
    ensures
        spec_core_aggregate_verify(pks, hs, sig) <==> sum_of_products(hs, pks, hs.len())
            % group_order() == sig % group_order(),
{
    let n: nat = hs.len();
    let ps = hs.push(sig);
    let qs = pks.push(point_neg(1));
    lemma_sum_of_products_prefix(ps, qs, hs, pks, n);
    assert(sum_of_products(ps, qs, n + 1) == sum_of_products(hs, pks, n) + sig * point_neg(1));
    lemma_negated_generator(sum_of_products(hs, pks, n), sig);
}

/// Sign/verify correctness: the signature that a secret exponent `x` makes of
/// a message that hashes to `h` verifies under the public key of `x`.
pub proof fn lemma_sign_verify(x: nat, h: nat)
    ensures
        spec_core_verify(spec_public_key(x), spec_core_sign(x, h), h),
{
    let r: int = group_order() as int;
    lemma_verification_equation(spec_public_key(x), spec_core_sign(x, h), h);
    assert(1 * x == x);
    lemma_mul_mod_noop_right(h as int, x as int, r);
    lemma_mod_twice((h * x) as int, r);
}

/// The public keys of a sequence of secret exponents.
pub open spec fn public_keys(xs: Seq<nat>) -> Seq<nat> {
    xs.map_values(|x: nat| spec_public_key(x))
}

/// The signatures that the secret exponents `xs[i]` make of messages that
/// hash to `hs[i]`.
pub open spec fn signatures(xs: Seq<nat>, hs: Seq<nat>) -> Seq<nat>
    recommends
        xs.len() == hs.len(),
{
    Seq::new(xs.len(), |i: int| spec_core_sign(xs[i], hs[i]))
}

/// The sum of the first `n` signatures is the sum of the products of the
/// first `n` hashed messages with their public keys.
proof fn lemma_signatures_sum(xs: Seq<nat>, hs: Seq<nat>, n: nat)
    requires
        xs.len() == hs.len(),
        n <= xs.len(),
    ensures
        sum_of_products(hs, public_keys(xs), n) % group_order() == group_sum(
            signatures(xs, hs).take(n as int),
        ),
    decreases n,
{
    let r: int = group_order() as int;
    let sigs = signatures(xs, hs);
    if n == 0 {
        assert(sigs.take(0) =~= Seq::<nat>::empty());
    } else {
        let m: nat = (n - 1) as nat;
        lemma_signatures_sum(xs, hs, m);
        let before: nat = sum_of_products(hs, public_keys(xs), m);
        let h: nat = hs[m as int];
        let x: nat = xs[m as int];
        assert(sigs.take(n as int).drop_last() =~= sigs.take(m as int));
        assert(sigs.take(n as int).last() == spec_core_sign(x, h));
        assert(group_sum(sigs.take(n as int)) == point_add(
            group_sum(sigs.take(m as int)),
            spec_core_sign(x, h),
        ));
        assert(1 * x == x);
        lemma_mul_mod_noop_right(h as int, x as int, r);
        lemma_add_mod_noop(before as int, (h * spec_public_key(x)) as int, r);
        lemma_add_mod_noop((before as int) % r, ((h * x) as int) % r, r);
        lemma_mod_twice(before as int, r);
        lemma_mod_twice((h * x) as int, r);
    }
}

/// Aggregate correctness: the sum of the signatures that the secret exponents
/// `xs[i]` make of messages hashing to `hs[i]` verifies against those
/// messages under the public keys of the `xs[i]`.
pub proof fn lemma_aggregate_verify(xs: Seq<nat>, hs: Seq<nat>)
    requires
        xs.len() == hs.len(),
    ensures
        spec_core_aggregate_verify(public_keys(xs), hs, group_sum(signatures(xs, hs))),
{
    let sigs = signatures(xs, hs);
    lemma_aggregate_equation(public_keys(xs), hs, group_sum(sigs));
    lemma_signatures_sum(xs, hs, xs.len());
    assert(sigs.take(xs.len() as int) =~= sigs);
    lemma_mod_twice(sum_of_products(hs, public_keys(xs), hs.len()) as int, group_order() as int);
}

/// Multi-signature correctness: the sum of the signatures that the secret
/// exponents `xs[i]` make of one message, which hashes to `h`, verifies
/// against that message under the sum of the public keys of the `xs[i]`.
pub proof fn lemma_multisig_verify(xs: Seq<nat>, h: nat)
    ensures
        spec_core_verify(
            group_sum(public_keys(xs)),
            group_sum(signatures(xs, Seq::new(xs.len(), |i: int| h))),
            h,
        ),
{
    let hs = Seq::new(xs.len(), |i: int| h);
    lemma_verification_equation(group_sum(public_keys(xs)), group_sum(signatures(xs, hs)), h);
    lemma_summed_keys(xs, h, xs.len());
    assert(public_keys(xs).take(xs.len() as int) =~= public_keys(xs));
    assert(signatures(xs, hs).take(xs.len() as int) =~= signatures(xs, hs));
    lemma_mod_twice((h * group_sum(public_keys(xs))) as int, group_order() as int);
}

/// The hash `h` raised to the sum of the first `n` public keys is the sum of
/// the first `n` signatures of the message that hashes to `h`.
proof fn lemma_summed_keys(xs: Seq<nat>, h: nat, n: nat)
    requires
        n <= xs.len(),
    ensures
        (h * group_sum(public_keys(xs).take(n as int))) % group_order() == group_sum(
            signatures(xs, Seq::new(xs.len(), |i: int| h)).take(n as int),
        ),
    decreases n,
{
    let r: int = group_order() as int;
    let pks = public_keys(xs);
    let sigs = signatures(xs, Seq::new(xs.len(), |i: int| h));
    if n == 0 {
        assert(pks.take(0) =~= Seq::<nat>::empty());
        assert(sigs.take(0) =~= Seq::<nat>::empty());
        assert(h * 0 == 0);
    } else {
        let m: nat = (n - 1) as nat;
        lemma_summed_keys(xs, h, m);
        let x: nat = xs[m as int];
        let keys_before: nat = group_sum(pks.take(m as int));
        let sigs_before: nat = group_sum(sigs.take(m as int));
        assert(pks.take(n as int).drop_last() =~= pks.take(m as int));
        assert(sigs.take(n as int).drop_last() =~= sigs.take(m as int));
        assert(pks.take(n as int).last() == spec_public_key(x));
        assert(sigs.take(n as int).last() == spec_core_sign(x, h));
        assert(group_sum(pks.take(n as int)) == point_add(keys_before, spec_public_key(x)));
        assert(group_sum(sigs.take(n as int)) == point_add(sigs_before, spec_core_sign(x, h)));
        assert(1 * x == x);
        // h * ((keys_before + x % r) % r) = h * keys_before + h * x  (mod r)
        lemma_add_mod_noop_right(keys_before as int, x as int, r);
        lemma_mul_mod_noop_right(h as int, (keys_before + x) as int, r);
        assert(h * (keys_before + x) == h * keys_before + h * x) by (nonlinear_arith);
        lemma_add_mod_noop((h * keys_before) as int, (h * x) as int, r);
        lemma_add_mod_noop(sigs_before as int, ((h * x) as int) % r, r);
        lemma_mod_twice((h * keys_before) as int, r);
        lemma_mod_twice((h * x) as int, r);
    }
}

/// The sum of the exponents of a sequence of points, as a fold over the
/// points themselves.
proof fn lemma_group_sum_as_fold<T: CurvePoint>(points: Seq<T>)
    ensures
        group_sum(exponents(points)) == points.fold_left(
            0nat,
            |acc: nat, p: T| point_add(acc, p.exponent()),
        ),
    decreases points.len(),
{
    if points.len() > 0 {
        lemma_group_sum_as_fold(points.drop_last());
        assert(exponents(points).drop_last() =~= exponents(points.drop_last()));
    }
}

/// Aggregation does not depend on the order of the signatures: two sequences
/// that hold the same points equally often have the same sum.
pub proof fn lemma_aggregate_permutation<T: CurvePoint>(a: Seq<T>, b: Seq<T>)
    requires
        a.to_multiset() == b.to_multiset(),
    ensures
        group_sum(exponents(a)) == group_sum(exponents(b)),
{
    let r: int = group_order() as int;
    let f = |acc: nat, p: T| point_add(acc, p.exponent());
    assert forall|x: T, y: T, v: nat| #[trigger] f(f(v, x), y) == f(f(v, y), x) by {
        let vx: int = (v + x.exponent()) as int;
        let vy: int = (v + y.exponent()) as int;
        lemma_add_mod_noop(vx, y.exponent() as int, r);
        lemma_add_mod_noop(vy, x.exponent() as int, r);
        lemma_mod_twice(vx, r);
        lemma_mod_twice(vy, r);
        lemma_add_mod_noop(vx % r, y.exponent() as int, r);
        lemma_add_mod_noop(vy % r, x.exponent() as int, r);
    }
    lemma_fold_left_permutation(a, b, f, 0nat);
    lemma_group_sum_as_fold(a);
    lemma_group_sum_as_fold(b);
}

/// The empty aggregate: with no keys and no messages the aggregate equation
/// holds exactly of the neutral element.
pub proof fn lemma_empty_aggregate(sig: nat)
    requires
        sig < group_order(),
    ensures
        spec_core_aggregate_verify(Seq::<nat>::empty(), Seq::<nat>::empty(), sig) <==> sig == 0,
{
    lemma_aggregate_equation(Seq::<nat>::empty(), Seq::<nat>::empty(), sig);
}

/// Uniqueness: under one public key a message has at most one signature
/// that verifies. So a signature changed into another point of its group is
/// rejected.
pub proof fn lemma_signature_unique(pk: nat, h: nat, sig: nat, other: nat)
    requires
        sig < group_order(),
        other < group_order(),
        spec_core_verify(pk, sig, h),
        spec_core_verify(pk, other, h),
    ensures
        sig == other,
{
    lemma_verification_equation(pk, sig, h);
    lemma_verification_equation(pk, other, h);
}

/// Keygen determinism: whatever two runs of key generation return for the
/// same key material, the secret exponents agree, and so do the public keys,
/// in their exponent and in every byte of their encoding.
pub proof fn lemma_keygen_deterministic<T: BLSSigCore>(
    ikm: &[u8],
    first: (Scalar, T::PKType),
    second: (Scalar, T::PKType),
)
    requires
        call_ensures(T::keygen, (ikm,), first),
        call_ensures(T::keygen, (ikm,), second),
    ensures
        first.0@ == second.0@,
        first.1.exponent() == second.1.exponent(),
        first.1.encoding() == second.1.encoding(),
{
}

/// Sign/verify correctness: a signature made with the secret exponent of a
/// generated key pair verifies under the public key of that pair, for the
/// same message and ciphersuite.
pub proof fn lemma_core_sign_verifies<T: BLSSigCore>(
    ikm: &[u8],
    msg: &[u8],
    ciphersuite: u8,
    keys: (Scalar, T::PKType),
    sig: T,
    ok: bool,
)
    requires
        call_ensures(T::keygen, (ikm,), keys),
        call_ensures(T::core_sign, (keys.0, msg, ciphersuite), sig),
        call_ensures(T::core_verify, (keys.1, sig, msg, ciphersuite), ok),
    ensures
        ok,
{
    lemma_sign_verify(keys.0@, T::hash_exponent(msg@, ciphersuite));
}

/// Aggregate correctness: where every `sigs[i]` is the signature of `msgs[i]`
/// made with the secret exponent of the generated key pair `keys[i]`, the
/// aggregate of the signatures verifies against the messages under the public
/// keys of the pairs. `msg_bytes` holds the messages as the byte slices that
/// were signed.
pub proof fn lemma_aggregate_verifies<T: BLSSigCore>(
    ikms: Seq<&[u8]>,
    keys: Seq<(Scalar, T::PKType)>,
    pks: &[T::PKType],
    msgs: &[Vec<u8>],
    msg_bytes: Seq<&[u8]>,
    sigs: &[T],
    ciphersuite: u8,
    agg: T,
    ok: bool,
)
    requires
        ikms.len() == msgs@.len(),
        keys.len() == msgs@.len(),
        msg_bytes.len() == msgs@.len(),
        forall|i: int| 0 <= i < msgs@.len() ==> (#[trigger] msg_bytes[i])@ == msgs@[i]@,
        pks@.len() == msgs@.len(),
        sigs@.len() == msgs@.len(),
        forall|i: int|
            0 <= i < msgs@.len() ==> call_ensures(
                T::keygen,
                (ikms[i],),
                #[trigger] keys[i],
            ),
        forall|i: int| 0 <= i < msgs@.len() ==> #[trigger] pks@[i] == keys[i].1,
        forall|i: int|
            0 <= i < msgs@.len() ==> call_ensures(
                T::core_sign,
                (keys[i].0, msg_bytes[i], ciphersuite),
                #[trigger] sigs@[i],
            ),
        call_ensures(T::aggregate, (sigs,), agg),
        call_ensures(T::core_aggregate_verify, (pks, msgs, agg, ciphersuite), ok),
    ensures
        ok,
{
    let xs = keys.map_values(|k: (Scalar, T::PKType)| k.0@);
    let hs = hash_exponents::<T>(messages(msgs@), ciphersuite);
    assert(exponents(pks@) =~= public_keys(xs));
    assert(exponents(sigs@) =~= signatures(xs, hs));
    lemma_aggregate_verify(xs, hs);
}

/// Aggregate commutativity: the aggregates of two lists that hold the same
/// signatures equally often, in whatever order, are the same point.
pub proof fn lemma_aggregate_order_independent<T: BLSSigCore>(
    sigs: &[T],
    permuted: &[T],
    agg: T,
    other: T,
)
    requires
        sigs@.to_multiset() == permuted@.to_multiset(),
        call_ensures(T::aggregate, (sigs,), agg),
        call_ensures(T::aggregate, (permuted,), other),
    ensures
        agg.exponent() == other.exponent(),
        agg.encoding() == other.encoding(),
{
    lemma_aggregate_permutation(sigs@, permuted@);
}

/// Basic duplicate rejection: where a message occurs twice, the basic
/// ciphersuite rejects the aggregate, whatever the signature.
pub proof fn lemma_basic_rejects_duplicates<T: BLSSignatureBasic>(
    pks: &[T::PKType],
    msgs: &[Vec<u8>],
    sig: T,
    ciphersuite: u8,
    i: int,
    j: int,
    ok: bool,
)
    requires
        0 <= i < j < msgs@.len(),
        msgs@[i]@ == msgs@[j]@,
        call_ensures(
            <T as BLSSignatureBasic>::aggregate_verify,
            (pks, msgs, sig, ciphersuite),
            ok,
        ),
    ensures
        !ok,
{
    assert(messages(msgs@)[i] == messages(msgs@)[j]);
}

/// Augmentation framing: the augmented verification of `msg` is the core
/// verification of the encoding of the public key followed by `msg`.
pub proof fn lemma_augmentation_framing<T: BLSSignatureAug>(
    pk: T::PKType,
    sig: T,
    msg: &[u8],
    framed: &[u8],
    ciphersuite: u8,
    augmented: bool,
    core: bool,
)
    requires
        framed@ == pk.encoding() + msg@,
        call_ensures(<T as BLSSignatureAug>::verify, (pk, sig, msg, ciphersuite), augmented),
        call_ensures(T::core_verify, (pk, sig, framed, ciphersuite), core),
    ensures
        augmented == core,
{
}

/// Proof-of-possession round trip: the proof made from key material verifies
/// under the public key generated from the same key material, for the same
/// ciphersuite.
pub proof fn lemma_pop_round_trip<T: BLSSignaturePop>(
    ikm: &[u8],
    ciphersuite: u8,
    keys: (Scalar, T::PKType),
    proof_of_possession: T,
    ok: bool,
)
    requires
        call_ensures(T::keygen, (ikm,), keys),
        call_ensures(T::pop_prove, (ikm, ciphersuite), proof_of_possession),
        call_ensures(T::pop_verify, (keys.1, proof_of_possession, ciphersuite), ok),
    ensures
        ok,
{
    lemma_sign_verify(keys.0@, T::hash_exponent(keys.1.encoding(), ciphersuite));
}

/// Multisig is core on the sum: verifying a multi-signature under a list of
/// public keys is the core verification under the sum of the keys.
pub proof fn lemma_multisig_is_core_on_sum<T: BLSSignaturePop>(
    pks: &[T::PKType],
    apk: T::PKType,
    sig: T,
    msg: &[u8],
    ciphersuite: u8,
    multi: bool,
    core: bool,
)
    requires
        apk.exponent() == group_sum(exponents(pks@)),
        call_ensures(T::multisig_verify, (pks, sig, msg, ciphersuite), multi),
        call_ensures(T::core_verify, (apk, sig, msg, ciphersuite), core),
    ensures
        multi == core,
{
}

/// Multi-signature correctness: where every `sigs[i]` is the signature of
/// the one message `msg` made with the secret exponent of the generated key
/// pair `keys[i]`, the aggregate of the signatures verifies as a
/// multi-signature of `msg` under the public keys of the pairs.
pub proof fn lemma_multisig_verifies<T: BLSSignaturePop>(
    ikms: Seq<&[u8]>,
    keys: Seq<(Scalar, T::PKType)>,
    pks: &[T::PKType],
    msg: &[u8],
    sigs: &[T],
    ciphersuite: u8,
    agg: T,
    ok: bool,
)
    requires
        ikms.len() == keys.len(),
        pks@.len() == keys.len(),
        sigs@.len() == keys.len(),
        forall|i: int|
            0 <= i < keys.len() ==> call_ensures(T::keygen, (ikms[i],), #[trigger] keys[i]),
        forall|i: int| 0 <= i < keys.len() ==> #[trigger] pks@[i] == keys[i].1,
        forall|i: int|
            0 <= i < keys.len() ==> call_ensures(
                <T as BLSSignaturePop>::sign,
                (keys[i].0, msg, ciphersuite),
                #[trigger] sigs@[i],
            ),
        call_ensures(T::aggregate, (sigs,), agg),
        call_ensures(T::multisig_verify, (pks, agg, msg, ciphersuite), ok),
    ensures
        ok,
{
    let xs = keys.map_values(|k: (Scalar, T::PKType)| k.0@);
    let h: nat = T::hash_exponent(msg@, ciphersuite);
    assert(exponents(pks@) =~= public_keys(xs));
    assert(exponents(sigs@) =~= signatures(xs, Seq::new(xs.len(), |i: int| h)));
    lemma_multisig_verify(xs, h);
}

/// Augmented sign/verify correctness: a signature made by the augmentation
/// ciphersuite with the secret exponent of a generated key pair verifies
/// under the public key of that pair.
pub proof fn lemma_augmented_sign_verifies<T: BLSSignatureAug>(
    ikm: &[u8],
    msg: &[u8],
    ciphersuite: u8,
    keys: (Scalar, T::PKType),
    sig: T,
    ok: bool,
)
    requires
        call_ensures(T::keygen, (ikm,), keys),
        call_ensures(<T as BLSSignatureAug>::sign, (keys.0, msg, ciphersuite), sig),
        call_ensures(<T as BLSSignatureAug>::verify, (keys.1, sig, msg, ciphersuite), ok),
    ensures
        ok,
{
    lemma_sign_verify(keys.0@, T::hash_exponent(keys.1.encoding() + msg@, ciphersuite));
}

} // verus!
