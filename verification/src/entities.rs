//! The entities of the scheme: `LweCiphertext`, `Plaintext` and `Cleartext`.

use vstd::prelude::*;
use crate::modular::all_below;
use crate::numeric::UnsignedInteger;
use crate::numeric::values_of;

verus! {

/// An LWE ciphertext: an ordered sequence of `n + 1` scalars of a fixed
/// unsigned width, where the first `n` entries are the mask and the last
/// entry is the body.  Decryption (performed elsewhere) computes
/// `body - <mask, secret_key>`.  The length is fixed at construction and
/// never changes.
pub struct LweCiphertext<S: UnsignedInteger> {
    pub(crate) data: Vec<S>,
}

impl<S: UnsignedInteger> LweCiphertext<S> {
    /// The scalars backing the ciphertext: the mask coordinates, then the
    /// body coordinate.
    pub open(crate) spec fn coeffs(self) -> Seq<S> {
        self.data@
    }

    /// The mathematical value of each coordinate, in `[0, modulus)`.
    pub open spec fn values(self) -> Seq<int> {
        values_of(self.coeffs())
    }

    /// The number of coordinates: the LWE dimension `n`, plus one for the
    /// body.
    pub open spec fn lwe_size(self) -> nat {
        self.coeffs().len()
    }

    /// A well-formed ciphertext holds at least its body coordinate.
    pub open spec fn wf(self) -> bool {
        self.lwe_size() >= 1
    }

    /// Wraps backing storage as a ciphertext.  The container holds the `n`
    /// mask scalars followed by the body scalar.
    pub fn from_container(data: Vec<S>) -> (r: Self)
        requires
            data@.len() >= 1,
        ensures
            r.coeffs() == data@,
            r.wf(),
    {
        LweCiphertext { data }
    }

    /// The number of coordinates, mask and body together.
    pub fn lwe_size_exec(&self) -> (r: usize)
        ensures
            r == self.lwe_size(),
    {
        self.data.len()
    }

    /// Reads the coordinate at `i` (mask for `i < n`, body for `i == n`).
    pub fn get(&self, i: usize) -> (r: S)
        requires
            i < self.lwe_size(),
        ensures
            r == self.coeffs()[i as int],
    {
        self.data[i]
    }

    /// Consumes the ciphertext and returns its backing storage.
    pub fn into_container(self) -> (r: Vec<S>)
        ensures
            r@ == self.coeffs(),
    {
        self.data
    }

    /// Every coordinate value of a ciphertext lies below the scalar modulus.
    pub proof fn lemma_values_below_modulus(self)
        ensures
            all_below(self.values(), S::modulus()),
    {
        assert forall|i: int| 0 <= i < self.values().len() implies 0 <= #[trigger] self.values()[i]
            < S::modulus() by {
            self.coeffs()[i].lemma_value_in_range();
        }
    }
}

/// A plaintext: a single publicly known scalar, encoded in the same numeric
/// domain as the ciphertext body.  Adding it to a ciphertext shifts the
/// encrypted value by a known constant, which touches the body alone.
pub struct Plaintext<S: UnsignedInteger>(pub S);

/// A cleartext: a single raw scalar used as a publicly known multiplicative
/// factor for a whole ciphertext.
pub struct Cleartext<S: UnsignedInteger>(pub S);

} // verus!
