//! Slice-level kernels: element-wise wrapping operations over contiguous
//! sequences of scalars, each a single linear pass.  Operand lengths are a
//! caller obligation stated in `requires`, never re-checked per element.

use vstd::prelude::*;
use crate::modular::seq_add_mod;
use crate::modular::seq_neg_mod;
use crate::modular::seq_scale_mod;
use crate::modular::seq_sub_mod;
use crate::numeric::UnsignedInteger;
use crate::numeric::values_of;

verus! {

/// `output[i] = lhs[i] + rhs[i]` modulo `2^bitwidth`, for every `i`;
/// `output` is fully overwritten.
pub fn slice_wrapping_add<S: UnsignedInteger>(output: &mut Vec<S>, lhs: &Vec<S>, rhs: &Vec<S>)
    requires
        old(output)@.len() == lhs@.len(),
        lhs@.len() == rhs@.len(),
    ensures
        final(output)@.len() == old(output)@.len(),
        values_of(final(output)@) == seq_add_mod(values_of(lhs@), values_of(rhs@), S::modulus()),
{
    let n = lhs.len();
    let mut i: usize = 0;
    while i < n
        invariant
            n == lhs@.len(),
            lhs@.len() == rhs@.len(),
            output@.len() == lhs@.len(),
            i <= n,
            forall|j: int| 0 <= j < i ==> (#[trigger] output@[j]).value()
                == (lhs@[j].value() + rhs@[j].value()) % S::modulus(),
        decreases n - i,
    {
        output[i] = lhs[i].wrapping_add(rhs[i]);
        i += 1;
    }
    assert(values_of(output@) =~= seq_add_mod(values_of(lhs@), values_of(rhs@), S::modulus()));
}

/// `lhs[i] = lhs[i] + rhs[i]` modulo `2^bitwidth`, for every `i`.
pub fn update_slice_with_wrapping_add<S: UnsignedInteger>(lhs: &mut Vec<S>, rhs: &Vec<S>)
    requires
        old(lhs)@.len() == rhs@.len(),
    ensures
        final(lhs)@.len() == old(lhs)@.len(),
        values_of(final(lhs)@) == seq_add_mod(values_of(old(lhs)@), values_of(rhs@), S::modulus()),
{
    let n = lhs.len();
    let mut i: usize = 0;
    while i < n
        invariant
            n == old(lhs)@.len(),
            old(lhs)@.len() == rhs@.len(),
            lhs@.len() == old(lhs)@.len(),
            i <= n,
            forall|j: int| i <= j < n ==> lhs@[j] == old(lhs)@[j],
            forall|j: int| 0 <= j < i ==> (#[trigger] lhs@[j]).value()
                == (old(lhs)@[j].value() + rhs@[j].value()) % S::modulus(),
        decreases n - i,
    {
        let a = lhs[i];
        lhs[i] = a.wrapping_add(rhs[i]);
        i += 1;
    }
    assert(values_of(lhs@) =~= seq_add_mod(values_of(old(lhs)@), values_of(rhs@), S::modulus()));
}

/// `lhs[i] = lhs[i] - rhs[i]` modulo `2^bitwidth`, for every `i`.
pub fn update_slice_with_wrapping_sub<S: UnsignedInteger>(lhs: &mut Vec<S>, rhs: &Vec<S>)
    requires
        old(lhs)@.len() == rhs@.len(),
    ensures
        final(lhs)@.len() == old(lhs)@.len(),
        values_of(final(lhs)@) == seq_sub_mod(values_of(old(lhs)@), values_of(rhs@), S::modulus()),
{
    let n = lhs.len();
    let mut i: usize = 0;
    while i < n
        invariant
            n == old(lhs)@.len(),
            old(lhs)@.len() == rhs@.len(),
            lhs@.len() == old(lhs)@.len(),
            i <= n,
            forall|j: int| i <= j < n ==> lhs@[j] == old(lhs)@[j],
            forall|j: int| 0 <= j < i ==> (#[trigger] lhs@[j]).value()
                == (old(lhs)@[j].value() - rhs@[j].value()) % S::modulus(),
        decreases n - i,
    {
        let a = lhs[i];
        lhs[i] = a.wrapping_sub(rhs[i]);
        i += 1;
    }
    assert(values_of(lhs@) =~= seq_sub_mod(values_of(old(lhs)@), values_of(rhs@), S::modulus()));
}

/// `s[i] = -s[i]` modulo `2^bitwidth`, for every `i`.
pub fn update_slice_with_wrapping_opposite<S: UnsignedInteger>(s: &mut Vec<S>)
    ensures
        final(s)@.len() == old(s)@.len(),
        values_of(final(s)@) == seq_neg_mod(values_of(old(s)@), S::modulus()),
{
    let n = s.len();
    let mut i: usize = 0;
    while i < n
        invariant
            n == old(s)@.len(),
            s@.len() == old(s)@.len(),
            i <= n,
            forall|j: int| i <= j < n ==> s@[j] == old(s)@[j],
            forall|j: int| 0 <= j < i ==> (#[trigger] s@[j]).value()
                == (0 - old(s)@[j].value()) % S::modulus(),
        decreases n - i,
    {
        let a = s[i];
        s[i] = a.wrapping_neg();
        i += 1;
    }
    assert(values_of(s@) =~= seq_neg_mod(values_of(old(s)@), S::modulus()));
}

/// `s[i] = s[i] * k` modulo `2^bitwidth`, for every `i`.
pub fn update_slice_with_wrapping_scalar_mul<S: UnsignedInteger>(s: &mut Vec<S>, k: S)
    ensures
        final(s)@.len() == old(s)@.len(),
        values_of(final(s)@) == seq_scale_mod(values_of(old(s)@), k.value(), S::modulus()),
{
    let n = s.len();
    let mut i: usize = 0;
    while i < n
        invariant
            n == old(s)@.len(),
            s@.len() == old(s)@.len(),
            i <= n,
            forall|j: int| i <= j < n ==> s@[j] == old(s)@[j],
            forall|j: int| 0 <= j < i ==> (#[trigger] s@[j]).value()
                == (old(s)@[j].value() * k.value()) % S::modulus(),
        decreases n - i,
    {
        let a = s[i];
        s[i] = a.wrapping_mul(k);
        i += 1;
    }
    assert(values_of(s@) =~= seq_scale_mod(values_of(old(s)@), k.value(), S::modulus()));
}

/// Overwrites `output` with the scalars of `src`, element by element.
pub fn slice_copy_from<S: UnsignedInteger>(output: &mut Vec<S>, src: &Vec<S>)
    requires
        old(output)@.len() == src@.len(),
    ensures
        final(output)@ == src@,
{
    let n = src.len();
    let mut i: usize = 0;
    while i < n
        invariant
            n == src@.len(),
            output@.len() == src@.len(),
            i <= n,
            forall|j: int| 0 <= j < i ==> output@[j] == src@[j],
        decreases n - i,
    {
        output[i] = src[i];
        i += 1;
    }
    assert(output@ =~= src@);
}

} // verus!
