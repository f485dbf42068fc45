//! The scalar numeric capability: fixed-width unsigned integers with
//! wrapping (modulo `2^bitwidth`) arithmetic.

use vstd::prelude::*;
use vstd::arithmetic::div_mod::lemma_mod_add_multiples_vanish;
use vstd::arithmetic::div_mod::lemma_mod_sub_multiples_vanish;
use vstd::arithmetic::div_mod::lemma_small_mod;

verus! {

/// A ciphertext coordinate type: an unsigned integer of a fixed width whose
/// arithmetic wraps around modulo `2^bitwidth`.  Wraparound is the defined
/// ciphertext-modulus semantics of the scheme, so every operation is total
/// and overflow is never an error.
///
/// `value` is the mathematical value of a scalar and `modulus` the scalar
/// modulus `2^bitwidth`; every contract of this crate is stated in terms of
/// them.
pub trait UnsignedInteger: Copy {
    /// The scalar modulus `2^bitwidth`.
    spec fn modulus() -> int;

    /// The mathematical value of this scalar, in `[0, modulus)`.
    spec fn value(self) -> int;

    /// The value of every scalar lies in `[0, modulus)`, and the modulus is
    /// at least 2.
    proof fn lemma_value_in_range(self)
        ensures
            0 <= self.value() < Self::modulus(),
            Self::modulus() >= 2,
    ;

    /// Wrapping addition: the sum modulo `2^bitwidth`.
    fn wrapping_add(self, rhs: Self) -> (r: Self)
        ensures
            r.value() == (self.value() + rhs.value()) % Self::modulus(),
    ;

    /// Wrapping subtraction: the difference modulo `2^bitwidth`.
    fn wrapping_sub(self, rhs: Self) -> (r: Self)
        ensures
            r.value() == (self.value() - rhs.value()) % Self::modulus(),
    ;

    /// Wrapping negation: the additive inverse modulo `2^bitwidth`.
    fn wrapping_neg(self) -> (r: Self)
        ensures
            r.value() == (0 - self.value()) % Self::modulus(),
    ;

    /// Wrapping multiplication: the product modulo `2^bitwidth`.
    fn wrapping_mul(self, rhs: Self) -> (r: Self)
        ensures
            r.value() == (self.value() * rhs.value()) % Self::modulus(),
    ;
}

/// The mathematical values of a sequence of scalars, element by element.
pub open spec fn values_of<S: UnsignedInteger>(s: Seq<S>) -> Seq<int> {
    s.map(|i: int, x: S| x.value())
}

impl UnsignedInteger for u8 {
    open spec fn modulus() -> int {
        0x100
    }

    open spec fn value(self) -> int {
        self as int
    }

    proof fn lemma_value_in_range(self) {
    }

    fn wrapping_add(self, rhs: Self) -> (r: Self) {
        proof {
            let s: int = self as int + rhs as int;
            if s < 0x100 {
                lemma_small_mod(s as nat, 0x100);
            } else {
                lemma_mod_sub_multiples_vanish(s, 0x100);
                lemma_small_mod((s - 0x100) as nat, 0x100);
            }
        }
        u8::wrapping_add(self, rhs)
    }

    fn wrapping_sub(self, rhs: Self) -> (r: Self) {
        proof {
            let d: int = self as int - rhs as int;
            if d >= 0 {
                lemma_small_mod(d as nat, 0x100);
            } else {
                lemma_mod_add_multiples_vanish(d, 0x100);
                lemma_small_mod((d + 0x100) as nat, 0x100);
            }
        }
        u8::wrapping_sub(self, rhs)
    }

    fn wrapping_neg(self) -> (r: Self) {
        proof {
            let d: int = 0 - self as int;
            if d >= 0 {
                lemma_small_mod(d as nat, 0x100);
            } else {
                lemma_mod_add_multiples_vanish(d, 0x100);
                lemma_small_mod((d + 0x100) as nat, 0x100);
            }
        }
        u8::wrapping_sub(0, self)
    }

    fn wrapping_mul(self, rhs: Self) -> (r: Self) {
        proof {
            let p: nat = self as nat * rhs as nat;
            assert(p == self as int * rhs as int);
            assert((p % 0x100) as int == (p as int) % 0x100);
        }
        u8::wrapping_mul(self, rhs)
    }
}

impl UnsignedInteger for u16 {
    open spec fn modulus() -> int {
        0x1_0000
    }

    open spec fn value(self) -> int {
        self as int
    }

    proof fn lemma_value_in_range(self) {
    }

    fn wrapping_add(self, rhs: Self) -> (r: Self) {
        proof {
            let s: int = self as int + rhs as int;
            if s < 0x1_0000 {
                lemma_small_mod(s as nat, 0x1_0000);
            } else {
                lemma_mod_sub_multiples_vanish(s, 0x1_0000);
                lemma_small_mod((s - 0x1_0000) as nat, 0x1_0000);
            }
        }
        u16::wrapping_add(self, rhs)
    }

    fn wrapping_sub(self, rhs: Self) -> (r: Self) {
        proof {
            let d: int = self as int - rhs as int;
            if d >= 0 {
                lemma_small_mod(d as nat, 0x1_0000);
            } else {
                lemma_mod_add_multiples_vanish(d, 0x1_0000);
                lemma_small_mod((d + 0x1_0000) as nat, 0x1_0000);
            }
        }
        u16::wrapping_sub(self, rhs)
    }

    fn wrapping_neg(self) -> (r: Self) {
        proof {
            let d: int = 0 - self as int;
            if d >= 0 {
                lemma_small_mod(d as nat, 0x1_0000);
            } else {
                lemma_mod_add_multiples_vanish(d, 0x1_0000);
                lemma_small_mod((d + 0x1_0000) as nat, 0x1_0000);
            }
        }
        u16::wrapping_sub(0, self)
    }

    fn wrapping_mul(self, rhs: Self) -> (r: Self) {
        proof {
            let p: nat = self as nat * rhs as nat;
            assert(p == self as int * rhs as int);
            assert((p % 0x1_0000) as int == (p as int) % 0x1_0000);
        }
        u16::wrapping_mul(self, rhs)
    }
}

impl UnsignedInteger for u32 {
    open spec fn modulus() -> int {
        0x1_0000_0000
    }

    open spec fn value(self) -> int {
        self as int
    }

    proof fn lemma_value_in_range(self) {
    }

    fn wrapping_add(self, rhs: Self) -> (r: Self) {
        proof {
            let s: int = self as int + rhs as int;
            if s < 0x1_0000_0000 {
                lemma_small_mod(s as nat, 0x1_0000_0000);
            } else {
                lemma_mod_sub_multiples_vanish(s, 0x1_0000_0000);
                lemma_small_mod((s - 0x1_0000_0000) as nat, 0x1_0000_0000);
            }
        }
        u32::wrapping_add(self, rhs)
    }

    fn wrapping_sub(self, rhs: Self) -> (r: Self) {
        proof {
            let d: int = self as int - rhs as int;
            if d >= 0 {
                lemma_small_mod(d as nat, 0x1_0000_0000);
            } else {
                lemma_mod_add_multiples_vanish(d, 0x1_0000_0000);
                lemma_small_mod((d + 0x1_0000_0000) as nat, 0x1_0000_0000);
            }
        }
        u32::wrapping_sub(self, rhs)
    }

    fn wrapping_neg(self) -> (r: Self) {
        proof {
            let d: int = 0 - self as int;
            if d >= 0 {
                lemma_small_mod(d as nat, 0x1_0000_0000);
            } else {
                lemma_mod_add_multiples_vanish(d, 0x1_0000_0000);
                lemma_small_mod((d + 0x1_0000_0000) as nat, 0x1_0000_0000);
            }
        }
        u32::wrapping_sub(0, self)
    }

    fn wrapping_mul(self, rhs: Self) -> (r: Self) {
        proof {
            let p: nat = self as nat * rhs as nat;
            assert(p == self as int * rhs as int);
            assert((p % 0x1_0000_0000) as int == (p as int) % 0x1_0000_0000);
        }
        u32::wrapping_mul(self, rhs)
    }
}

impl UnsignedInteger for u64 {
    open spec fn modulus() -> int {
        0x1_0000_0000_0000_0000
    }

    open spec fn value(self) -> int {
        self as int
    }

    proof fn lemma_value_in_range(self) {
    }

    fn wrapping_add(self, rhs: Self) -> (r: Self) {
        proof {
            let s: int = self as int + rhs as int;
            if s < 0x1_0000_0000_0000_0000 {
                lemma_small_mod(s as nat, 0x1_0000_0000_0000_0000);
            } else {
                lemma_mod_sub_multiples_vanish(s, 0x1_0000_0000_0000_0000);
                lemma_small_mod((s - 0x1_0000_0000_0000_0000) as nat, 0x1_0000_0000_0000_0000);
            }
        }
        u64::wrapping_add(self, rhs)
    }

    fn wrapping_sub(self, rhs: Self) -> (r: Self) {
        proof {
            let d: int = self as int - rhs as int;
            if d >= 0 {
                lemma_small_mod(d as nat, 0x1_0000_0000_0000_0000);
            } else {
                lemma_mod_add_multiples_vanish(d, 0x1_0000_0000_0000_0000);
                lemma_small_mod((d + 0x1_0000_0000_0000_0000) as nat, 0x1_0000_0000_0000_0000);
            }
        }
        u64::wrapping_sub(self, rhs)
    }

    fn wrapping_neg(self) -> (r: Self) {
        proof {
            let d: int = 0 - self as int;
            if d >= 0 {
                lemma_small_mod(d as nat, 0x1_0000_0000_0000_0000);
            } else {
                lemma_mod_add_multiples_vanish(d, 0x1_0000_0000_0000_0000);
                lemma_small_mod((d + 0x1_0000_0000_0000_0000) as nat, 0x1_0000_0000_0000_0000);
            }
        }
        u64::wrapping_sub(0, self)
    }

    fn wrapping_mul(self, rhs: Self) -> (r: Self) {
        proof {
            let p: nat = self as nat * rhs as nat;
            assert(p == self as int * rhs as int);
            assert((p % 0x1_0000_0000_0000_0000) as int == (p as int) % 0x1_0000_0000_0000_0000);
        }
        u64::wrapping_mul(self, rhs)
    }
}

impl UnsignedInteger for u128 {
    open spec fn modulus() -> int {
        0x1_0000_0000_0000_0000_0000_0000_0000_0000int
    }

    open spec fn value(self) -> int {
        self as int
    }

    proof fn lemma_value_in_range(self) {
    }

    fn wrapping_add(self, rhs: Self) -> (r: Self) {
        proof {
            let s: int = self as int + rhs as int;
            if s < 0x1_0000_0000_0000_0000_0000_0000_0000_0000int {
                lemma_small_mod(s as nat, 0x1_0000_0000_0000_0000_0000_0000_0000_0000nat);
            } else {
                lemma_mod_sub_multiples_vanish(s, 0x1_0000_0000_0000_0000_0000_0000_0000_0000int);
                lemma_small_mod(
                    (s - 0x1_0000_0000_0000_0000_0000_0000_0000_0000int) as nat,
                    0x1_0000_0000_0000_0000_0000_0000_0000_0000nat,
                );
            }
        }
        u128::wrapping_add(self, rhs)
    }

    fn wrapping_sub(self, rhs: Self) -> (r: Self) {
        proof {
            let d: int = self as int - rhs as int;
            if d >= 0 {
                lemma_small_mod(d as nat, 0x1_0000_0000_0000_0000_0000_0000_0000_0000nat);
            } else {
                lemma_mod_add_multiples_vanish(d, 0x1_0000_0000_0000_0000_0000_0000_0000_0000int);
                lemma_small_mod(
                    (d + 0x1_0000_0000_0000_0000_0000_0000_0000_0000int) as nat,
                    0x1_0000_0000_0000_0000_0000_0000_0000_0000nat,
                );
            }
        }
        u128::wrapping_sub(self, rhs)
    }

    fn wrapping_neg(self) -> (r: Self) {
        proof {
            let d: int = 0 - self as int;
            if d >= 0 {
                lemma_small_mod(d as nat, 0x1_0000_0000_0000_0000_0000_0000_0000_0000nat);
            } else {
                lemma_mod_add_multiples_vanish(d, 0x1_0000_0000_0000_0000_0000_0000_0000_0000int);
                lemma_small_mod(
                    (d + 0x1_0000_0000_0000_0000_0000_0000_0000_0000int) as nat,
                    0x1_0000_0000_0000_0000_0000_0000_0000_0000nat,
                );
            }
        }
        u128::wrapping_sub(0, self)
    }

    fn wrapping_mul(self, rhs: Self) -> (r: Self) {
        proof {
            let p: nat = self as nat * rhs as nat;
            assert(p == self as int * rhs as int);
            assert((p % 0x1_0000_0000_0000_0000_0000_0000_0000_0000nat) as int == (p as int)
                % 0x1_0000_0000_0000_0000_0000_0000_0000_0000int);
        }
        u128::wrapping_mul(self, rhs)
    }
}

} // verus!
