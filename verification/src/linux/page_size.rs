//! Page arithmetic.
//!
//! The kernel reports the page size through `AT_PAGE_SIZE`; it is always a
//! power of two. The runtime keeps it in a process-wide cell set once
//! during bootstrap; a cell of global state cannot carry a proof, so here
//! every function takes the page size as an argument and the unverified
//! shell owns the cell.

use vstd::prelude::*;
use vstd::arithmetic::div_mod::{lemma_fundamental_div_mod, lemma_mod_multiples_basic};
use vstd::arithmetic::mul::lemma_mul_is_commutative;
use vstd::arithmetic::power2::{pow2, lemma_pow2_unfold, lemma_pow2_strictly_increases, lemma2_to64, lemma2_to64_rest};
use vstd::bits::{low_bits_mask, lemma_u64_low_bits_mask_is_mod};

verus! {

/// A power of two: non-zero with a single bit set.
pub open spec fn spec_is_power_of_two(x: u64) -> bool {
    x != 0 && (x & ((x - 1) as u64)) == 0
}

/// `x` rounded up to the next multiple of `boundary`.
pub open spec fn spec_round_up(x: int, boundary: int) -> int {
    ((x + boundary - 1) / boundary) * boundary
}

/// Decides whether `x` is a power of two.
pub fn is_power_of_two(x: u64) -> (r: bool)
    ensures
        r == spec_is_power_of_two(x),
{
    x != 0 && (x & (x - 1)) == 0
}

/// A 64-bit power of two has an exponent below 64.
pub proof fn lemma_power_of_two_exponent(x: u64)
    requires
        spec_is_power_of_two(x),
    ensures
        exists|n: nat| n < 64 && x == pow2(n),
    decreases x,
{
    if x == 1 {
        lemma2_to64();
        assert(x == pow2(0));
    } else {
        let h = x >> 1;
        assert(x != 0 && x != 1 && (x & ((x - 1) as u64)) == 0 ==> (x >> 1) != 0 && ((x >> 1) & ((
        (x >> 1) - 1) as u64)) == 0 && (x >> 1) < x && x == 2 * (x >> 1)) by (bit_vector);
        lemma_power_of_two_exponent(h);
        let n = choose|n: nat| n < 64 && h == pow2(n);
        lemma_pow2_unfold(n + 1);
        assert(x == pow2(n + 1));
        if n + 1 >= 64 {
            lemma2_to64_rest();
            if n + 1 > 64 {
                lemma_pow2_strictly_increases(64, n + 1);
            }
            assert(pow2(n + 1) >= 0x1_0000_0000_0000_0000);
            assert(false);
        }
    }
}

/// Masking with (page size − 1) takes the address modulo the page size.
proof fn lemma_mask_is_mod(address: u64, page_size: u64)
    requires
        spec_is_power_of_two(page_size),
    ensures
        (address & ((page_size - 1) as u64)) == address % page_size,
{
    lemma_power_of_two_exponent(page_size);
    let n = choose|n: nat| n < 64 && page_size == pow2(n);
    lemma_u64_low_bits_mask_is_mod(address, n);
    assert((page_size - 1) as u64 == low_bits_mask(n) as u64);
}

/// Rounds `address` down to the start of its page.
pub fn get_page_start(address: u64, page_size: u64) -> (r: u64)
    requires
        spec_is_power_of_two(page_size),
    ensures
        r == address - address % page_size,
        r % page_size == 0,
        r <= address < r + page_size,
{
    proof {
        let p = page_size;
        let a = address;
        lemma_mask_is_mod(a, p);
        assert((a & !((p - 1) as u64)) + (a & ((p - 1) as u64)) == a) by (bit_vector);
        lemma_fundamental_div_mod(a as int, p as int);
        lemma_mod_multiples_basic(a as int / p as int, p as int);
        lemma_mul_is_commutative(p as int, a as int / p as int);
    }
    address & !(page_size - 1)
}

/// The address's offset inside its page.
pub fn get_page_offset(address: u64, page_size: u64) -> (r: u64)
    requires
        spec_is_power_of_two(page_size),
    ensures
        r == address % page_size,
{
    proof {
        lemma_mask_is_mod(address, page_size);
    }
    address & (page_size - 1)
}

/// Rounds `address` up to the end of its page (the address itself on a
/// page boundary, else the start of the next page).
pub fn get_page_end(address: u64, page_size: u64) -> (r: u64)
    requires
        spec_is_power_of_two(page_size),
        address + page_size - 1 <= u64::MAX,
    ensures
        r == spec_round_up(address as int, page_size as int),
        r % page_size == 0,
        address <= r,
        r < address + page_size,
{
    let r = get_page_start(address + (page_size - 1), page_size);
    proof {
        let a = address as int;
        let p = page_size as int;
        lemma_fundamental_div_mod(a + p - 1, p);
        lemma_mul_is_commutative(p, (a + p - 1) / p);
    }
    r
}

} // verus!
