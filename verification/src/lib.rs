//! Element-wise linear algebra over LWE ciphertexts.
//!
//! An LWE ciphertext is an ordered sequence of `n + 1` fixed-width unsigned
//! scalars: `n` mask coordinates followed by one body coordinate.  The
//! operations here are the arithmetic primitives of the homomorphic scheme:
//! addition, subtraction, negation, scaling by a public cleartext, and
//! addition of a public plaintext to the body.  Every scalar operation is
//! wrapping, i.e. taken modulo `2^bitwidth` of the scalar type: wraparound is
//! the intended ciphertext-modulus semantics, never an error.

pub mod entities;
pub mod lwe_linear_algebra;
pub mod modular;
pub mod numeric;
pub mod slice_algorithms;

pub use entities::Cleartext;
pub use entities::LweCiphertext;
pub use entities::Plaintext;
pub use lwe_linear_algebra::lwe_ciphertext_addition;
pub use lwe_linear_algebra::lwe_ciphertext_cleartext_multiplication;
pub use lwe_linear_algebra::lwe_ciphertext_in_place_addition;
pub use lwe_linear_algebra::lwe_ciphertext_in_place_cleartext_multiplication;
pub use lwe_linear_algebra::lwe_ciphertext_in_place_opposite;
pub use lwe_linear_algebra::lwe_ciphertext_in_place_plaintext_addition;
pub use lwe_linear_algebra::lwe_ciphertext_in_place_subtraction;
pub use numeric::UnsignedInteger;
