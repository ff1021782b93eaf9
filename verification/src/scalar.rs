//! The scalar field of BLS12-381 and the derivation of secret exponents.

use hkdf::Hkdf;
use pairing_plus::bls12_381::Fr;
use pairing_plus::hash_to_field::BaseFromRO;
use pairing_plus::serdes::SerDes;
use sha2::digest::generic_array::GenericArray;
use sha2::Sha256;
use vstd::arithmetic::div_mod::lemma_mod_bound;
use vstd::prelude::*;

verus! {

/// The order `r` of the groups G1, G2 and of the scalar field.
pub open spec fn group_order() -> nat {
    0x73eda753299d7d483339d80809a1d80553bda402fffe5bfeffffffff00000001nat
}

/// The natural number that a byte string denotes, most significant byte first.
pub open spec fn be_nat(bytes: Seq<u8>) -> nat
    decreases bytes.len(),
{
    if bytes.len() == 0 {
        0
    } else {
        be_nat(bytes.drop_last()) * 256 + bytes.last() as nat
    }
}

/// The group order, most significant byte first.
pub const GROUP_ORDER_BYTES: [u8; 32] = [
    0x73, 0xed, 0xa7, 0x53, 0x29, 0x9d, 0x7d, 0x48, 0x33, 0x39, 0xd8, 0x08, 0x09, 0xa1, 0xd8, 0x05,
    0x53, 0xbd, 0xa4, 0x02, 0xff, 0xfe, 0x5b, 0xfe, 0xff, 0xff, 0xff, 0xff, 0x00, 0x00, 0x00, 0x01,
];

/// The first `k` bytes of two strings of one length, equal in their first `i`
/// bytes and ordered in the next, denote numbers in that order.
proof fn lemma_be_nat_ordered(a: Seq<u8>, b: Seq<u8>, i: int, k: int)
    requires
        a.len() == b.len(),
        0 <= i < k <= a.len(),
        a.take(i) == b.take(i),
        a[i] < b[i],
    ensures
        be_nat(a.take(k)) < be_nat(b.take(k)),
    decreases k,
{
    assert(a.take(k).drop_last() =~= a.take(k - 1));
    assert(b.take(k).drop_last() =~= b.take(k - 1));
    if k > i + 1 {
        lemma_be_nat_ordered(a, b, i, k - 1);
    }
}

/// The bytes of the group order denote the group order.
proof fn lemma_group_order_bytes()
    ensures
        be_nat(GROUP_ORDER_BYTES@) == group_order(),
{
    reveal_with_fuel(be_nat, 33);
}

/// The 48 bytes of output key material that HKDF with SHA-256 derives from
/// the input key material `ikm`, with no salt and empty info.
pub uninterp spec fn hkdf_sha256_okm(ikm: Seq<u8>) -> Seq<u8>;

/// The secret exponent that input key material `ikm` stands for.
pub open spec fn spec_xprime(ikm: Seq<u8>) -> nat {
    be_nat(hkdf_sha256_okm(ikm)) % group_order()
}

/// An element of the scalar field, held as its 32-byte big-endian encoding.
#[derive(Clone, Copy, Debug, PartialEq, Eq)]
pub struct Scalar {
    bytes: [u8; 32],
}

impl Scalar {
    #[verifier::type_invariant]
    spec fn reduced(self) -> bool {
        be_nat(self.bytes@) < group_order()
    }

    /// The scalar that 48 bytes of output key material stand for: the bytes
    /// read as a big-endian integer, reduced modulo the group order.
    pub fn from_okm(okm: &[u8; 48]) -> (x: Self)
        ensures
            x@ == be_nat(okm@) % group_order(),
            x@ < group_order(),
    {
        let bytes = fr_from_okm(okm);
        proof {
            lemma_mod_bound(be_nat(okm@) as int, group_order() as int);
        }
        Scalar { bytes }
    }

    /// The scalar that `bytes` denote, most significant byte first, where
    /// that number is below the group order.
    pub fn from_bytes(bytes: [u8; 32]) -> (x: Option<Self>)
        ensures
            x is Some <==> be_nat(bytes@) < group_order(),
            x matches Some(s) ==> s@ == be_nat(bytes@),
    {
        proof {
            lemma_group_order_bytes();
        }
        let mut i: usize = 0;
        while i < 32
            invariant
                i <= 32,
                bytes@.take(i as int) == GROUP_ORDER_BYTES@.take(i as int),
                be_nat(GROUP_ORDER_BYTES@) == group_order(),
            decreases 32 - i,
        {
            if bytes[i] < GROUP_ORDER_BYTES[i] {
                proof {
                    lemma_be_nat_ordered(bytes@, GROUP_ORDER_BYTES@, i as int, 32);
                    assert(bytes@.take(32) =~= bytes@);
                    assert(GROUP_ORDER_BYTES@.take(32) =~= GROUP_ORDER_BYTES@);
                }
                return Some(Scalar { bytes });
            }
            if bytes[i] > GROUP_ORDER_BYTES[i] {
                proof {
                    lemma_be_nat_ordered(GROUP_ORDER_BYTES@, bytes@, i as int, 32);
                    assert(bytes@.take(32) =~= bytes@);
                    assert(GROUP_ORDER_BYTES@.take(32) =~= GROUP_ORDER_BYTES@);
                }
                return None;
            }
            proof {
                assert(bytes@.take(i + 1) =~= bytes@.take(i as int).push(bytes@[i as int]));
                assert(GROUP_ORDER_BYTES@.take(i + 1) =~= GROUP_ORDER_BYTES@.take(i as int).push(
                    GROUP_ORDER_BYTES@[i as int],
                ));
            }
            i = i + 1;
        }
        proof {
            assert(bytes@.take(32) =~= bytes@);
            assert(GROUP_ORDER_BYTES@.take(32) =~= GROUP_ORDER_BYTES@);
        }
        None
    }

    /// The canonical big-endian encoding of the scalar.
    pub fn to_bytes(&self) -> (bytes: [u8; 32])
        ensures
            be_nat(bytes@) == self@,
            self@ < group_order(),
    {
        proof {
            use_type_invariant(self);
        }
        self.bytes
    }
}

impl View for Scalar {
    type V = nat;

    closed spec fn view(&self) -> nat {
        be_nat(self.bytes@)
    }
}

/// `Hkdf::<Sha256>::new` with no salt, then `expand` with empty info into 48
/// bytes. Trusted: the output is a function of `ikm` alone. `expand` fails
/// only for outputs longer than 255 hash blocks, so not here.
#[verifier::external_body]
fn hkdf_expand_48(ikm: &[u8]) -> (okm: [u8; 48])
    ensures
        okm@ == hkdf_sha256_okm(ikm@),
{
    let mut okm = [0u8; 48];
    Hkdf::<Sha256>::new(None, ikm).expand(&[], &mut okm).unwrap();
    okm
}

/// `Fr::from_okm`, its result written by `Fr::serialize`. Trusted: the scalar
/// is the 48 bytes read as a big-endian integer and reduced modulo the group
/// order, and it is written as its least residue in 32 bytes, most
/// significant byte first.
#[verifier::external_body]
fn fr_from_okm(okm: &[u8; 48]) -> (out: [u8; 32])
    ensures
        be_nat(out@) == be_nat(okm@) % group_order(),
{
    let x = Fr::from_okm(GenericArray::from_slice(&okm[..]));
    let mut out = [0u8; 32];
    x.serialize(&mut &mut out[..], true).unwrap();
    out
}

/// Derives the secret exponent from input key material: 48 bytes of
/// HKDF-SHA256 output, read as a big-endian integer modulo the group order.
pub fn xprime_from_sk(ikm: &[u8]) -> (x: Scalar)
    ensures
        x@ == spec_xprime(ikm@),
        x@ < group_order(),
{
    let okm = hkdf_expand_48(ikm);
    Scalar::from_okm(&okm)
}

} // verus!
