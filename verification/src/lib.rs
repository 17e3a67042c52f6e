//! Attach to a running process, scan a snapshot of its main module for byte
//! patterns with wildcards, and resolve multi-level pointer chains to live
//! addresses that can be read from and written to.

pub mod helpers;
pub mod memory;
pub mod pattern;
pub mod pointer;
pub mod process;
pub mod process_module;
pub mod simulation;

use vstd::prelude::*;

verus! {

/// One more than the largest address: the modulus of wrapping address
/// arithmetic.
pub open spec fn word_size() -> nat {
    (usize::MAX + 1) as nat
}

/// Addition that wraps around at the machine word boundary, as address
/// arithmetic on pointers does.
pub open spec fn wrap_add(a: nat, b: nat) -> nat {
    (a + b) % word_size()
}

/// Wrapping addition is exact addition whenever the sum is an address.
pub proof fn lemma_wrap_add_exact(a: nat, b: nat)
    requires
        a + b <= usize::MAX,
    ensures
        wrap_add(a, b) == a + b,
{
    vstd::arithmetic::div_mod::lemma_small_mod((a + b) as nat, word_size());
}

/// Wrapping additions compose: adding `b` and then `c` lands where adding
/// `b + c` at once does.
pub proof fn lemma_wrap_add_assoc(a: nat, b: nat, c: nat)
    ensures
        wrap_add(wrap_add(a, b), c) == wrap_add(a, b + c),
{
    let w = word_size() as int;
    let s = (a + b) as int;
    vstd::arithmetic::div_mod::lemma_add_mod_noop_right(c as int, s, w);
}

/// Wrapping address addition; the result is exact whenever the sum fits in a
/// machine word.
pub fn address_add(a: usize, b: usize) -> (r: usize)
    ensures
        r == wrap_add(a as nat, b as nat),
        a + b <= usize::MAX ==> r == a + b,
{
    proof {
        if a + b <= usize::MAX {
            lemma_wrap_add_exact(a as nat, b as nat);
        } else {
            vstd::arithmetic::div_mod::lemma_small_mod(
                (a + b - (usize::MAX + 1)) as nat,
                word_size(),
            );
            vstd::arithmetic::div_mod::lemma_mod_sub_multiples_vanish(
                (a + b) as int,
                word_size() as int,
            );
        }
    }
    a.wrapping_add(b)
}

/// Wrapping addition of a signed displacement to an address; the result is
/// the exact sum whenever that sum is an address.
pub fn address_add_signed(a: usize, d: isize) -> (r: usize)
    ensures
        r == vstd::wrapping::usize_specs::wrapping_add_signed(a, d),
        0 <= a + d <= usize::MAX ==> r == a + d,
{
    a.wrapping_add_signed(d)
}

} // verus!
