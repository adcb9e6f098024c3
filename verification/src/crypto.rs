//! Trusted wrappers around the outside cryptographic primitives.
//!
//! Hashing, scalar arithmetic modulo the group order, and base-point
//! multiplication are delegated to audited libraries. Each wrapper makes one
//! outside call; its result is named by an uninterpreted spec function, so
//! that everything built on top of these primitives can be stated and
//! verified exactly, without restating the primitives' mathematics.

use vstd::prelude::*;
use sha2::Digest;
use zeroize::Zeroize;

verus! {

/// The 64-byte SHA-512 digest of a byte string.
pub uninterp spec fn sha512_of(data: Seq<u8>) -> Seq<u8>;

/// The canonical 32-byte encoding of a 512-bit little-endian integer
/// reduced modulo the Ed25519 group order.
pub uninterp spec fn scalar_reduce_wide_of(wide: Seq<u8>) -> Seq<u8>;

/// The canonical 32-byte encoding of the product, modulo the group order,
/// of two 256-bit little-endian integers.
pub uninterp spec fn scalar_mul_of(a: Seq<u8>, b: Seq<u8>) -> Seq<u8>;

/// The canonical 32-byte encoding of the sum, modulo the group order,
/// of two 256-bit little-endian integers.
pub uninterp spec fn scalar_add_of(a: Seq<u8>, b: Seq<u8>) -> Seq<u8>;

/// The compressed encoding of the curve point `[s]B`, where `B` is the
/// Ed25519 base point and `s` a 256-bit little-endian integer.
pub uninterp spec fn base_mul_compressed_of(s: Seq<u8>) -> Seq<u8>;

/// The compressed encoding of the negation of `[s]B`.
pub uninterp spec fn base_mul_neg_compressed_of(s: Seq<u8>) -> Seq<u8>;

/// Relies on `sha2::Sha512::digest`: the digest is a function of the input
/// bytes alone and is always 64 bytes long.
#[verifier::external_body]
pub(crate) fn sha512(data: &[u8]) -> (r: Vec<u8>)
    ensures
        r@ == sha512_of(data@),
        r@.len() == 64,
{
    sha2::Sha512::digest(data).as_slice().to_vec()
}

/// Relies on `curve25519_dalek::scalar::Scalar::from_bytes_mod_order_wide`
/// and `Scalar::to_bytes`: reduction of a 512-bit little-endian integer
/// modulo the group order, returned in its canonical 32-byte encoding.
#[verifier::external_body]
pub(crate) fn scalar_reduce_wide(wide: &[u8]) -> (r: Vec<u8>)
    requires
        wide@.len() == 64,
    ensures
        r@ == scalar_reduce_wide_of(wide@),
        r@.len() == 32,
{
    let arr: [u8; 64] = wide.try_into().unwrap();
    curve25519_dalek::scalar::Scalar::from_bytes_mod_order_wide(&arr)
        .to_bytes()
        .to_vec()
}

/// Relies on `curve25519_dalek::scalar::Scalar`'s `Mul`: the product of the
/// two operands modulo the group order, in its canonical 32-byte encoding.
/// Each operand is first reduced by `Scalar::from_bytes_mod_order`, which
/// does not change it modulo the group order.
#[verifier::external_body]
pub(crate) fn scalar_mul(a: &[u8], b: &[u8]) -> (r: Vec<u8>)
    requires
        a@.len() == 32,
        b@.len() == 32,
    ensures
        r@ == scalar_mul_of(a@, b@),
        r@.len() == 32,
{
    let aa: [u8; 32] = a.try_into().unwrap();
    let bb: [u8; 32] = b.try_into().unwrap();
    let sa = curve25519_dalek::scalar::Scalar::from_bytes_mod_order(aa);
    let sb = curve25519_dalek::scalar::Scalar::from_bytes_mod_order(bb);
    (sa * sb).to_bytes().to_vec()
}

/// Relies on `curve25519_dalek::scalar::Scalar`'s `Add`: the sum of the two
/// operands modulo the group order, in its canonical 32-byte encoding.
/// Each operand is first reduced by `Scalar::from_bytes_mod_order`, which
/// does not change it modulo the group order.
#[verifier::external_body]
pub(crate) fn scalar_add(a: &[u8], b: &[u8]) -> (r: Vec<u8>)
    requires
        a@.len() == 32,
        b@.len() == 32,
    ensures
        r@ == scalar_add_of(a@, b@),
        r@.len() == 32,
{
    let aa: [u8; 32] = a.try_into().unwrap();
    let bb: [u8; 32] = b.try_into().unwrap();
    let sa = curve25519_dalek::scalar::Scalar::from_bytes_mod_order(aa);
    let sb = curve25519_dalek::scalar::Scalar::from_bytes_mod_order(bb);
    (sa + sb).to_bytes().to_vec()
}

/// Relies on `curve25519_dalek::edwards::EdwardsPoint::mul_base` and
/// `EdwardsPoint::compress`: constant-time multiplication of the Ed25519
/// base point by a scalar, compressed to 32 bytes. The scalar is first
/// reduced modulo the group order, which does not change the point, since
/// the base point's order is the group order.
#[verifier::external_body]
pub(crate) fn base_mul_compressed(s: &[u8]) -> (r: Vec<u8>)
    requires
        s@.len() == 32,
    ensures
        r@ == base_mul_compressed_of(s@),
        r@.len() == 32,
{
    let ss: [u8; 32] = s.try_into().unwrap();
    let sc = curve25519_dalek::scalar::Scalar::from_bytes_mod_order(ss);
    curve25519_dalek::edwards::EdwardsPoint::mul_base(&sc)
        .compress()
        .to_bytes()
        .to_vec()
}

/// Relies on `curve25519_dalek::edwards::EdwardsPoint`'s `Neg` besides
/// `mul_base` and `compress`: the compressed negation of `[s]B`.
#[verifier::external_body]
pub(crate) fn base_mul_neg_compressed(s: &[u8]) -> (r: Vec<u8>)
    requires
        s@.len() == 32,
    ensures
        r@ == base_mul_neg_compressed_of(s@),
        r@.len() == 32,
{
    let ss: [u8; 32] = s.try_into().unwrap();
    let sc = curve25519_dalek::scalar::Scalar::from_bytes_mod_order(ss);
    (-curve25519_dalek::edwards::EdwardsPoint::mul_base(&sc))
        .compress()
        .to_bytes()
        .to_vec()
}

/// The character for a hexadecimal digit value below 16: `'0'..'9'` for
/// values below ten, `'a'..'f'` for the rest.
pub open spec fn spec_hex_digit(n: u8) -> char
    recommends
        n < 16,
{
    if n < 10 {
        ((n + 48) as u8) as char
    } else {
        ((n + 87) as u8) as char
    }
}

/// The lowercase hexadecimal rendering of a byte string: two digits per
/// byte, most significant nibble first.
pub open spec fn spec_hex(s: Seq<u8>) -> Seq<char>
    decreases s.len(),
{
    if s.len() == 0 {
        Seq::empty()
    } else {
        seq![spec_hex_digit(s[0] / 16), spec_hex_digit(s[0] % 16)] + spec_hex(s.skip(1))
    }
}

/// Relies on `hex::encode`: each byte becomes two lowercase hexadecimal
/// digits, most significant nibble first.
#[verifier::external_body]
pub(crate) fn hex_encode(b: &[u8]) -> (r: String)
    ensures
        r@ == spec_hex(b@),
{
    hex::encode(b)
}

/// Relies on `zeroize::Zeroize` for `[u8]`: every byte of the buffer is
/// overwritten with zero, through a write the compiler will not elide.
#[verifier::external_body]
pub(crate) fn zeroize_bytes(b: &mut Vec<u8>)
    ensures
        final(b)@.len() == old(b)@.len(),
        forall|i: int| 0 <= i < final(b)@.len() ==> final(b)@[i] == 0u8,
{
    b.as_mut_slice().zeroize();
}

/// Relies on `rand_core::Rng::fill_bytes`: fills the buffer from the
/// caller's randomness source. Nothing can be promised of the values drawn;
/// only the length of the result is stated.
#[verifier::external_body]
pub(crate) fn random_seed<R: rand_core::CryptoRng>(rng: &mut R) -> (r: Vec<u8>)
    ensures
        r@.len() == 32,
{
    let mut b = [0u8; 32];
    rng.fill_bytes(&mut b);
    b.to_vec()
}

} // verus!
