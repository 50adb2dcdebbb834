//! The guest module's pure logic: two's-complement wraparound addition,
//! exposed both as a directly callable function (`add_pure`) and as the
//! ABI entry point's behaviour (`add`).

use vstd::prelude::*;

verus! {

/// The number of distinct `i32` values; wraparound arithmetic is modular
/// with respect to this quantity.
pub open spec fn i32_modulus() -> int {
    0x1_0000_0000
}

/// Two's-complement wraparound addition on `i32`: the exact sum, brought
/// back into the `i32` range by adding or subtracting one modulus.
pub open spec fn wrap_add(a: i32, b: i32) -> i32 {
    if a + b > i32::MAX {
        (a + b - 0x1_0000_0000) as i32
    } else if a + b < i32::MIN {
        (a + b + 0x1_0000_0000) as i32
    } else {
        (a + b) as i32
    }
}

/// The guest's pure computation, defined on the full `i32` domain with no
/// failure mode: overflow wraps instead of trapping.
pub fn add_pure(a: i32, b: i32) -> (r: i32)
    ensures
        r == wrap_add(a, b),
{
    a.wrapping_add(b)
}

/// The behaviour of the ABI-exported entry point: it returns exactly what
/// `add_pure` returns, on every input (its contract is the same
/// `wrap_add` the contract of `add_pure` states).
pub fn add(a: i32, b: i32) -> (r: i32)
    ensures
        r == wrap_add(a, b),
{
    add_pure(a, b)
}

/// Wraparound addition agrees with exact integer addition up to a multiple
/// of the modulus, stays in range, and coincides with the exact sum
/// whenever that sum is representable.
pub proof fn lemma_wrap_add_congruent(a: i32, b: i32)
    ensures
        i32::MIN <= wrap_add(a, b) <= i32::MAX,
        (a + b - wrap_add(a, b)) % i32_modulus() == 0,
        i32::MIN <= a + b <= i32::MAX ==> wrap_add(a, b) == a + b,
{
}

/// `wrap_add` is the only `i32`-range value congruent to the exact sum
/// modulo the modulus: together with `lemma_wrap_add_congruent` this pins
/// wraparound addition down completely.
pub proof fn lemma_wrap_add_unique(a: i32, b: i32, r: int)
    requires
        i32::MIN <= r <= i32::MAX,
        (a + b - r) % i32_modulus() == 0,
    ensures
        r == wrap_add(a, b),
{
    let m = i32_modulus();
    let w = wrap_add(a, b) as int;
    lemma_wrap_add_congruent(a, b);
    vstd::arithmetic::div_mod::lemma_mod_equivalence(a + b, r, m);
    vstd::arithmetic::div_mod::lemma_mod_equivalence(a + b, w, m);
    vstd::arithmetic::div_mod::lemma_mod_equivalence(r, w, m);
    vstd::arithmetic::div_mod::lemma_mod_equivalence(w, r, m);
    if r >= w {
        vstd::arithmetic::div_mod::lemma_small_mod((r - w) as nat, m as nat);
    } else {
        vstd::arithmetic::div_mod::lemma_small_mod((w - r) as nat, m as nat);
    }
}

} // verus!
