//! Ciphertext-level operations: the public API of the crate.  Each operation
//! selects the right sub-range of a ciphertext's storage (the whole storage,
//! or only the trailing body coordinate) and applies a slice kernel to it.
//!
//! Any operation that must preserve the decryption relation
//! `body - <mask, key> = value (+ noise)` under a linear transform of the
//! encrypted value applies that transform to both mask and body (addition,
//! subtraction, negation, cleartext multiplication).  An operation that only
//! shifts the encrypted value by a publicly known constant touches the body
//! alone (plaintext addition).

use vstd::prelude::*;
use crate::entities::Cleartext;
use crate::entities::LweCiphertext;
use crate::entities::Plaintext;
use crate::modular::lemma_seq_add_mod_commutative;
use crate::modular::lemma_seq_add_mod_opposite_is_zero;
use crate::modular::lemma_seq_scale_mod_by_one_is_identity;
use crate::modular::lemma_seq_scale_mod_by_zero_is_zero;
use crate::modular::seq_add_mod;
use crate::modular::seq_neg_mod;
use crate::modular::seq_scale_mod;
use crate::modular::seq_shift_body_mod;
use crate::modular::seq_sub_mod;
use crate::modular::seq_zero;
use crate::numeric::UnsignedInteger;
use crate::slice_algorithms::slice_copy_from;
use crate::slice_algorithms::slice_wrapping_add;
use crate::slice_algorithms::update_slice_with_wrapping_add;
use crate::slice_algorithms::update_slice_with_wrapping_opposite;
use crate::slice_algorithms::update_slice_with_wrapping_scalar_mul;
use crate::slice_algorithms::update_slice_with_wrapping_sub;

verus! {

/// Homomorphic addition, in place: `lhs <- lhs + rhs`, coordinate by
/// coordinate modulo `2^bitwidth`, over mask and body alike.
pub fn lwe_ciphertext_in_place_addition<S: UnsignedInteger>(
    lhs: &mut LweCiphertext<S>,
    rhs: &LweCiphertext<S>,
)
    requires
        old(lhs).lwe_size() == rhs.lwe_size(),
    ensures
        final(lhs).lwe_size() == old(lhs).lwe_size(),
        final(lhs).values() == seq_add_mod(old(lhs).values(), rhs.values(), S::modulus()),
{
    update_slice_with_wrapping_add(&mut lhs.data, &rhs.data);
}

/// Homomorphic addition, out of place: `output <- lhs + rhs`, coordinate by
/// coordinate modulo `2^bitwidth`; `output` is fully overwritten.
pub fn lwe_ciphertext_addition<S: UnsignedInteger>(
    output: &mut LweCiphertext<S>,
    lhs: &LweCiphertext<S>,
    rhs: &LweCiphertext<S>,
)
    requires
        old(output).lwe_size() == lhs.lwe_size(),
        lhs.lwe_size() == rhs.lwe_size(),
    ensures
        final(output).lwe_size() == old(output).lwe_size(),
        final(output).values() == seq_add_mod(lhs.values(), rhs.values(), S::modulus()),
{
    slice_wrapping_add(&mut output.data, &lhs.data, &rhs.data);
}

/// Adds a publicly known plaintext to the encrypted value:
/// `lhs.body <- lhs.body + plaintext` modulo `2^bitwidth`.  Exactly the last
/// coordinate changes; every mask coordinate is left untouched, since a
/// public shift needs no rerandomization and must not alter the secret-key
/// relationship encoded in the mask.
pub fn lwe_ciphertext_in_place_plaintext_addition<S: UnsignedInteger>(
    lhs: &mut LweCiphertext<S>,
    rhs: Plaintext<S>,
)
    requires
        old(lhs).wf(),
    ensures
        final(lhs).lwe_size() == old(lhs).lwe_size(),
        forall|i: int| 0 <= i < old(lhs).lwe_size() - 1
            ==> final(lhs).coeffs()[i] == old(lhs).coeffs()[i],
        final(lhs).values() == seq_shift_body_mod(old(lhs).values(), rhs.0.value(), S::modulus()),
{
    let n = lhs.data.len();
    let body = lhs.data[n - 1];
    lhs.data[n - 1] = body.wrapping_add(rhs.0);
    proof {
        assert(final(lhs).values() =~= seq_shift_body_mod(
            old(lhs).values(),
            rhs.0.value(),
            S::modulus(),
        ));
    }
}

/// Homomorphic negation, in place: every coordinate, mask and body together,
/// is replaced by its additive inverse modulo `2^bitwidth`.  Negating both
/// keeps the decryption relation `body - <mask, key>` equal to the negated
/// original value.
pub fn lwe_ciphertext_in_place_opposite<S: UnsignedInteger>(ct: &mut LweCiphertext<S>)
    ensures
        final(ct).lwe_size() == old(ct).lwe_size(),
        final(ct).values() == seq_neg_mod(old(ct).values(), S::modulus()),
{
    update_slice_with_wrapping_opposite(&mut ct.data);
}

/// Homomorphic multiplication by a publicly known cleartext, in place: every
/// coordinate, mask and body together, is scaled by the same factor modulo
/// `2^bitwidth`, which preserves the decryption relation by linearity.
pub fn lwe_ciphertext_in_place_cleartext_multiplication<S: UnsignedInteger>(
    lhs: &mut LweCiphertext<S>,
    rhs: Cleartext<S>,
)
    ensures
        final(lhs).lwe_size() == old(lhs).lwe_size(),
        final(lhs).values() == seq_scale_mod(old(lhs).values(), rhs.0.value(), S::modulus()),
{
    update_slice_with_wrapping_scalar_mul(&mut lhs.data, rhs.0);
}

/// Homomorphic subtraction, in place: `lhs <- lhs - rhs`, coordinate by
/// coordinate modulo `2^bitwidth`, over mask and body alike.
pub fn lwe_ciphertext_in_place_subtraction<S: UnsignedInteger>(
    lhs: &mut LweCiphertext<S>,
    rhs: &LweCiphertext<S>,
)
    requires
        old(lhs).lwe_size() == rhs.lwe_size(),
    ensures
        final(lhs).lwe_size() == old(lhs).lwe_size(),
        final(lhs).values() == seq_sub_mod(old(lhs).values(), rhs.values(), S::modulus()),
{
    update_slice_with_wrapping_sub(&mut lhs.data, &rhs.data);
}

/// Homomorphic multiplication by a publicly known cleartext, out of place:
/// `output <- lhs`, then every coordinate of `output` is scaled by the
/// factor modulo `2^bitwidth`.
pub fn lwe_ciphertext_cleartext_multiplication<S: UnsignedInteger>(
    output: &mut LweCiphertext<S>,
    lhs: &LweCiphertext<S>,
    rhs: Cleartext<S>,
)
    requires
        old(output).lwe_size() == lhs.lwe_size(),
    ensures
        final(output).lwe_size() == old(output).lwe_size(),
        final(output).values() == seq_scale_mod(lhs.values(), rhs.0.value(), S::modulus()),
{
    slice_copy_from(&mut output.data, &lhs.data);
    lwe_ciphertext_in_place_cleartext_multiplication(output, rhs);
}

/// Ciphertext addition is commutative: for equal-length ciphertexts `a` and
/// `b`, adding `b` to `a` and adding `a` to `b` transform to the same model,
/// which is also the model both `lwe_ciphertext_addition` and
/// `lwe_ciphertext_in_place_addition` ensure of their result.
pub proof fn lemma_addition_commutative<S: UnsignedInteger>(
    a: LweCiphertext<S>,
    b: LweCiphertext<S>,
)
    requires
        a.lwe_size() == b.lwe_size(),
    ensures
        seq_add_mod(a.values(), b.values(), S::modulus())
            == seq_add_mod(b.values(), a.values(), S::modulus()),
{
    lemma_seq_add_mod_commutative(a.values(), b.values(), S::modulus());
}

/// In-place and out-of-place addition perform the same transform: when `a2`
/// is a copy of `a1` (it holds the same coordinate values), the model that
/// `lwe_ciphertext_in_place_addition` ensures of `a2` after adding `b` is the
/// model that `lwe_ciphertext_addition` ensures of its output for `a1` and
/// `b`.  Both contracts name one spec function, so the proof is immediate.
pub proof fn lemma_in_place_addition_matches_addition<S: UnsignedInteger>(
    a1: LweCiphertext<S>,
    a2: LweCiphertext<S>,
    b: LweCiphertext<S>,
)
    requires
        a1.values() == a2.values(),
    ensures
        seq_add_mod(a2.values(), b.values(), S::modulus())
            == seq_add_mod(a1.values(), b.values(), S::modulus()),
{
}

/// Additive inverse law: adding to a ciphertext its opposite (the result of
/// `lwe_ciphertext_in_place_opposite`) yields the all-zero ciphertext model,
/// modulo `2^bitwidth`.
pub proof fn lemma_addition_with_opposite_is_zero<S: UnsignedInteger>(ct: LweCiphertext<S>)
    ensures
        seq_add_mod(ct.values(), seq_neg_mod(ct.values(), S::modulus()), S::modulus())
            == seq_zero(ct.lwe_size()),
{
    if ct.lwe_size() == 0 {
        assert(seq_add_mod(ct.values(), seq_neg_mod(ct.values(), S::modulus()), S::modulus())
            =~= seq_zero(ct.lwe_size()));
    } else {
        ct.coeffs()[0].lemma_value_in_range();
        ct.lemma_values_below_modulus();
        lemma_seq_add_mod_opposite_is_zero(ct.values(), S::modulus());
    }
}

/// Multiplying a ciphertext by the cleartext one is the identity transform:
/// the model `lwe_ciphertext_cleartext_multiplication` ensures of its result
/// is the model of the input.
pub proof fn lemma_cleartext_multiplication_by_one_is_identity<S: UnsignedInteger>(
    ct: LweCiphertext<S>,
)
    ensures
        seq_scale_mod(ct.values(), 1, S::modulus()) == ct.values(),
{
    if ct.lwe_size() == 0 {
        assert(seq_scale_mod(ct.values(), 1, S::modulus()) =~= ct.values());
    } else {
        ct.coeffs()[0].lemma_value_in_range();
        ct.lemma_values_below_modulus();
        lemma_seq_scale_mod_by_one_is_identity(ct.values(), S::modulus());
    }
}

/// Multiplying a ciphertext by the cleartext zero yields the all-zero
/// ciphertext model.
pub proof fn lemma_cleartext_multiplication_by_zero_is_zero<S: UnsignedInteger>(
    ct: LweCiphertext<S>,
)
    ensures
        seq_scale_mod(ct.values(), 0, S::modulus()) == seq_zero(ct.lwe_size()),
{
    if ct.lwe_size() == 0 {
        assert(seq_scale_mod(ct.values(), 0, S::modulus()) =~= seq_zero(ct.lwe_size()));
    } else {
        ct.coeffs()[0].lemma_value_in_range();
        lemma_seq_scale_mod_by_zero_is_zero(ct.values(), S::modulus());
    }
}

} // verus!
