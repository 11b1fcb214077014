//! The two signature schemes, as the `rsa` and `p256` crates check them.
use vstd::arithmetic::power2::pow2;
use vstd::prelude::*;

verus! {

/// The number that bytes stand for, most significant byte first.
pub open spec fn number(bytes: Seq<u8>) -> nat
    decreases bytes.len(),
{
    if bytes.len() == 0 {
        0
    } else {
        number(bytes.drop_last()) * 256 + bytes.last() as nat
    }
}

/// A modulus and an exponent that make an RSA public key: both are odd, the
/// exponent is at least two, below the modulus and within thirty-three bits,
/// and the modulus is within 4096 bits.
pub open spec fn is_rsa_key(n: Seq<u8>, e: Seq<u8>) -> bool {
    &&& number(n) < pow2(4096)
    &&& number(n) % 2 == 1
    &&& number(e) % 2 == 1
    &&& 2 <= number(e) < pow2(33)
    &&& number(e) < number(n)
}

/// The prime of the field that P-256 is over.
pub open spec fn p256_prime() -> int {
    0xffffffff00000001000000000000000000000000ffffffffffffffffffffffffint
}

/// The constant of the P-256 equation.
pub open spec fn p256_constant() -> int {
    0x5ac635d8aa3a93e7b3ebbd55769886bc651d06b0cc53b0f63bce3c3e27d2604bint
}

/// The affine coordinates of a point of P-256: both are in the field, and
/// they meet the curve's equation.
pub open spec fn is_p256_point(x: Seq<u8>, y: Seq<u8>) -> bool {
    let (x, y) = (number(x) as int, number(y) as int);
    &&& x < p256_prime()
    &&& y < p256_prime()
    &&& (y * y) % p256_prime() == (x * x * x - 3 * x + p256_constant()) % p256_prime()
}

/// Whether a signature over an input is RSASSA-PKCS1-v1_5 with SHA-256 under
/// the key of modulus `n` and exponent `e`, as the `rsa` crate decides it.
pub uninterp spec fn rsa_sha256_holds(
    n: Seq<u8>,
    e: Seq<u8>,
    input: Seq<u8>,
    signature: Seq<u8>,
) -> bool;

/// Whether a signature over an input is ECDSA with SHA-256 under the P-256
/// point of coordinates `x` and `y`, as the `p256` crate decides it.
pub uninterp spec fn p256_sha256_holds(
    x: Seq<u8>,
    y: Seq<u8>,
    input: Seq<u8>,
    signature: Seq<u8>,
) -> bool;

/// Calls `rsa::RsaPublicKey::new`, which takes a modulus and an exponent just
/// where they make a key in the sense of `is_rsa_key`.
#[verifier::external_body]
pub(crate) fn rsa_key_is_usable(n: &[u8], e: &[u8]) -> (usable: bool)
    ensures
        usable == is_rsa_key(n@, e@),
{
    rsa::RsaPublicKey::new(
        rsa::BigUint::from_bytes_be(n),
        rsa::BigUint::from_bytes_be(e),
    ).is_ok()
}

/// Calls `verify` of `rsa::pkcs1v15::VerifyingKey` over SHA-256 with the key
/// of that modulus and exponent. The answer rests on the four arguments alone,
/// and `rsa_sha256_holds` names it.
#[verifier::external_body]
pub(crate) fn rsa_verify(n: &[u8], e: &[u8], input: &[u8], signature: &[u8]) -> (holds: bool)
    requires
        is_rsa_key(n@, e@),
    ensures
        holds == rsa_sha256_holds(n@, e@, input@, signature@),
{
    let (n, e) = (rsa::BigUint::from_bytes_be(n), rsa::BigUint::from_bytes_be(e));
    let key = match rsa::RsaPublicKey::new(n, e) {
        Ok(key) => rsa::pkcs1v15::VerifyingKey::<rsa::sha2::Sha256>::new(key),
        Err(_) => return false,
    };
    match rsa::pkcs1v15::Signature::try_from(signature) {
        Ok(signature) => rsa::signature::Verifier::verify(&key, input, &signature).is_ok(),
        Err(_) => false,
    }
}

/// Calls `p256::ecdsa::VerifyingKey::from_encoded_point` with the uncompressed
/// point of two coordinates. It takes the point just where it is on the curve,
/// in the sense of `is_p256_point`.
#[verifier::external_body]
pub(crate) fn p256_point_is_on_curve(x: &[u8], y: &[u8]) -> (on_curve: bool)
    requires
        x@.len() == 32,
        y@.len() == 32,
    ensures
        on_curve == is_p256_point(x@, y@),
{
    let point = p256::EncodedPoint::from_affine_coordinates(x.into(), y.into(), false);
    p256::ecdsa::VerifyingKey::from_encoded_point(&point).is_ok()
}

/// Calls `verify` of `p256::ecdsa::VerifyingKey` with the key of that point.
/// The answer rests on the four arguments alone, and `p256_sha256_holds` names
/// it.
#[verifier::external_body]
pub(crate) fn p256_verify(x: &[u8], y: &[u8], input: &[u8], signature: &[u8]) -> (holds: bool)
    requires
        x@.len() == 32,
        y@.len() == 32,
        is_p256_point(x@, y@),
    ensures
        holds == p256_sha256_holds(x@, y@, input@, signature@),
{
    let point = p256::EncodedPoint::from_affine_coordinates(x.into(), y.into(), false);
    let key = match p256::ecdsa::VerifyingKey::from_encoded_point(&point) {
        Ok(key) => key,
        Err(_) => return false,
    };
    match p256::ecdsa::Signature::from_slice(signature) {
        Ok(signature) => rsa::signature::Verifier::verify(&key, input, &signature).is_ok(),
        Err(_) => false,
    }
}

} // verus!
