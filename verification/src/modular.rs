//! The mathematical model of element-wise wrapping arithmetic: sequences of
//! integer values transformed modulo the scalar modulus `m`.  Every contract
//! of the slice kernels and ciphertext operations is stated with these
//! functions, and the algebraic laws of the scheme are proved about them.

use vstd::prelude::*;
use vstd::arithmetic::div_mod::lemma_mod_add_multiples_vanish;
use vstd::arithmetic::div_mod::lemma_mod_self_0;
use vstd::arithmetic::div_mod::lemma_small_mod;

verus! {

/// Every entry of `s` lies in `[0, m)`.
pub open spec fn all_below(s: Seq<int>, m: int) -> bool {
    forall|i: int| 0 <= i < s.len() ==> 0 <= #[trigger] s[i] < m
}

/// The element-wise sum of `a` and `b`, modulo `m`.
pub open spec fn seq_add_mod(a: Seq<int>, b: Seq<int>, m: int) -> Seq<int>
    recommends
        a.len() == b.len(),
{
    Seq::new(a.len(), |i: int| (a[i] + b[i]) % m)
}

/// The element-wise difference of `a` and `b`, modulo `m`.
pub open spec fn seq_sub_mod(a: Seq<int>, b: Seq<int>, m: int) -> Seq<int>
    recommends
        a.len() == b.len(),
{
    Seq::new(a.len(), |i: int| (a[i] - b[i]) % m)
}

/// The element-wise additive inverse of `a`, modulo `m`.
pub open spec fn seq_neg_mod(a: Seq<int>, m: int) -> Seq<int> {
    Seq::new(a.len(), |i: int| (0 - a[i]) % m)
}

/// Every element of `a` scaled by `k`, modulo `m`.
pub open spec fn seq_scale_mod(a: Seq<int>, k: int, m: int) -> Seq<int> {
    Seq::new(a.len(), |i: int| (a[i] * k) % m)
}

/// The all-zero sequence of length `n`.
pub open spec fn seq_zero(n: nat) -> Seq<int> {
    Seq::new(n, |i: int| 0)
}

/// `a` with its last entry shifted by `p` modulo `m` and every other entry
/// kept as it is.
pub open spec fn seq_shift_body_mod(a: Seq<int>, p: int, m: int) -> Seq<int>
    recommends
        a.len() >= 1,
{
    a.update(a.len() - 1, (a[a.len() - 1] + p) % m)
}

/// Addition of ciphertext models is commutative: summing `a` with `b` and
/// summing `b` with `a` give the same sequence.
pub proof fn lemma_seq_add_mod_commutative(a: Seq<int>, b: Seq<int>, m: int)
    requires
        a.len() == b.len(),
    ensures
        seq_add_mod(a, b, m) == seq_add_mod(b, a, m),
{
    assert(seq_add_mod(a, b, m) =~= seq_add_mod(b, a, m));
}

/// Additive inverse law: adding to `a` its element-wise opposite yields the
/// all-zero sequence, modulo `m`.
pub proof fn lemma_seq_add_mod_opposite_is_zero(a: Seq<int>, m: int)
    requires
        m > 0,
        all_below(a, m),
    ensures
        seq_add_mod(a, seq_neg_mod(a, m), m) == seq_zero(a.len()),
{
    assert forall|i: int| 0 <= i < a.len() implies seq_add_mod(a, seq_neg_mod(a, m), m)[i]
        == 0 by {
        let x = a[i];
        if x == 0 {
            lemma_small_mod(0, m as nat);
        } else {
            lemma_mod_add_multiples_vanish(0 - x, m);
            lemma_small_mod((m - x) as nat, m as nat);
            lemma_mod_self_0(m);
        }
    }
    assert(seq_add_mod(a, seq_neg_mod(a, m), m) =~= seq_zero(a.len()));
}

/// Scaling by one is the identity transform on sequences whose entries lie
/// below the modulus.
pub proof fn lemma_seq_scale_mod_by_one_is_identity(a: Seq<int>, m: int)
    requires
        m > 0,
        all_below(a, m),
    ensures
        seq_scale_mod(a, 1, m) == a,
{
    assert forall|i: int| 0 <= i < a.len() implies seq_scale_mod(a, 1, m)[i] == a[i] by {
        lemma_small_mod(a[i] as nat, m as nat);
    }
    assert(seq_scale_mod(a, 1, m) =~= a);
}

/// Scaling by zero yields the all-zero sequence.
pub proof fn lemma_seq_scale_mod_by_zero_is_zero(a: Seq<int>, m: int)
    requires
        m > 0,
    ensures
        seq_scale_mod(a, 0, m) == seq_zero(a.len()),
{
    assert forall|i: int| 0 <= i < a.len() implies seq_scale_mod(a, 0, m)[i] == 0 by {
        lemma_small_mod(0, m as nat);
    }
    assert(seq_scale_mod(a, 0, m) =~= seq_zero(a.len()));
}

} // verus!
