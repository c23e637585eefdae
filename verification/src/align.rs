//! Rounding addresses to an alignment.

use vstd::arithmetic::power::*;
use vstd::arithmetic::power2::*;
use vstd::bits::*;
use vstd::prelude::*;

verus! {

/// The size of a page of user memory.
pub const PAGE_SIZE_4K: usize = 4096;

/// `usize::is_power_of_two` tells whether its argument is some `2^k`.
pub assume_specification[ usize::is_power_of_two ](x: usize) -> (r: bool)
    ensures
        r == is_pow2(x as int),
;

/// `pos` with the bits of `align - 1` cleared. For a power of two, this is the
/// greatest multiple of `align` that is at most `pos`.
pub open spec fn down(pos: int, align: int) -> int {
    if is_pow2(align) {
        pos - pos % align
    } else {
        (pos as usize & !((align - 1) as usize)) as int
    }
}

/// `pos` raised by `align - 1` and then rounded down. For a power of two, this
/// is the least multiple of `align` that is at least `pos`.
pub open spec fn up(pos: int, align: int) -> int {
    down(pos + align - 1, align)
}

proof fn lemma_exponent(n: int) -> (k: nat)
    requires
        is_pow2(n),
    ensures
        n > 0,
        pow2(k) == n,
{
    is_pow2_equiv(n);
    let k = choose|k: nat| pow(2, k) == n;
    lemma_pow2(k);
    lemma_pow2_pos(k);
    k
}

/// A power of two is positive.
pub proof fn lemma_pow2_positive(n: int)
    requires
        is_pow2(n),
    ensures
        n > 0,
{
    reveal(is_pow2);
}

/// Clearing the bits of `align - 1` rounds down.
pub proof fn lemma_down(pos: usize, align: usize)
    requires
        align > 0,
    ensures
        pos & !((align - 1) as usize) == down(pos as int, align as int),
        0 <= down(pos as int, align as int) <= pos,
{
    let m = (align - 1) as usize;
    assert(pos & !m == pos - (pos & m) && pos & m <= pos) by (bit_vector);
    if is_pow2(align as int) {
        let k = lemma_exponent(align as int);
        if k >= usize::BITS {
            if k > usize::BITS {
                lemma_pow2_strictly_increases(usize::BITS as nat, k);
            }
            lemma2_to64();
            lemma2_to64_rest();
            assert(false);
        }
        lemma_usize_low_bits_mask_is_mod(pos, k);
        assert(low_bits_mask(k) == m);
    }
}

/// Rounding down never goes up, nor below zero.
pub proof fn lemma_down_bounds(pos: int, align: int)
    requires
        0 <= pos <= usize::MAX,
        align > 0,
        is_pow2(align) || align <= usize::MAX,
    ensures
        0 <= down(pos, align) <= pos,
{
    if is_pow2(align) {
        vstd::arithmetic::div_mod::lemma_fundamental_div_mod(pos, align);
        vstd::arithmetic::div_mod::lemma_mod_decreases(pos as nat, align as nat);
    } else {
        lemma_down(pos as usize, align as usize);
    }
}

/// Rounding to a power of two lands on a multiple of it, less than one step
/// away from the position.
pub proof fn lemma_round_multiple(pos: int, align: int)
    requires
        0 <= pos,
        is_pow2(align),
    ensures
        align > 0,
        down(pos, align) % align == 0,
        down(pos, align) <= pos < down(pos, align) + align,
        up(pos, align) % align == 0,
        up(pos, align) - align < pos <= up(pos, align),
        pos % align == 0 ==> down(pos, align) == pos && up(pos, align) == pos,
{
    let k = lemma_exponent(align);
    lemma_multiple(pos, align);
    lemma_multiple(pos + align - 1, align);
    if pos % align == 0 {
        vstd::arithmetic::div_mod::lemma_fundamental_div_mod(pos, align);
        vstd::arithmetic::div_mod::lemma_mod_multiples_vanish(pos / align, align - 1, align);
        vstd::arithmetic::div_mod::lemma_small_mod((align - 1) as nat, align as nat);
        vstd::arithmetic::mul::lemma_mul_is_commutative(pos / align, align);
        assert((pos + align - 1) % align == align - 1);
    }
}

proof fn lemma_multiple(x: int, align: int)
    requires
        align > 0,
    ensures
        (x - x % align) % align == 0,
        0 <= x % align < align,
{
    vstd::arithmetic::div_mod::lemma_fundamental_div_mod(x, align);
    vstd::arithmetic::div_mod::lemma_mod_multiples_basic(x / align, align);
    vstd::arithmetic::mul::lemma_mul_is_commutative(x / align, align);
}

/// The lesser of two powers of two divides the greater.
pub proof fn lemma_pow2_divides(a: int, b: int)
    requires
        is_pow2(a),
        is_pow2(b),
        a <= b,
    ensures
        a > 0,
        b % a == 0,
{
    let i = lemma_exponent(a);
    let j = lemma_exponent(b);
    if j < i {
        lemma_pow2_strictly_increases(j, i);
    }
    lemma_pow2_adds(i, (j - i) as nat);
    vstd::arithmetic::div_mod::lemma_mod_multiples_basic(pow2((j - i) as nat) as int, a);
    vstd::arithmetic::mul::lemma_mul_is_commutative(pow2((j - i) as nat) as int, a);
}

/// A multiple of a multiple is a multiple.
pub proof fn lemma_multiple_of_multiple(x: int, b: int, a: int)
    requires
        a > 0,
        b > 0,
        b % a == 0,
        x % b == 0,
    ensures
        x % a == 0,
{
    vstd::arithmetic::div_mod::lemma_fundamental_div_mod(x, b);
    vstd::arithmetic::div_mod::lemma_fundamental_div_mod(b, a);
    let q = x / b;
    let p = b / a;
    assert(x == (q * p) * a) by (nonlinear_arith)
        requires
            x == b * q,
            b == a * p,
    ;
    vstd::arithmetic::div_mod::lemma_mod_multiples_basic(q * p, a);
}

/// The page size is a power of two.
pub proof fn lemma_page_size_pow2()
    ensures
        is_pow2(PAGE_SIZE_4K as int),
{
    lemma2_to64();
    is_pow2_equiv(PAGE_SIZE_4K as int);
    lemma_pow2(12);
    assert(pow(2, 12) == PAGE_SIZE_4K);
}

/// Rounds an address up to a page boundary.
pub fn page_align_up(addr: usize) -> (r: usize)
    requires
        addr + PAGE_SIZE_4K <= usize::MAX,
    ensures
        r == up(addr as int, PAGE_SIZE_4K as int),
        addr <= r < addr + PAGE_SIZE_4K,
        r % PAGE_SIZE_4K == 0,
{
    proof {
        lemma_page_size_pow2();
        lemma_down((addr + PAGE_SIZE_4K - 1) as usize, PAGE_SIZE_4K);
        lemma_round_multiple(addr as int, PAGE_SIZE_4K as int);
    }
    (addr + PAGE_SIZE_4K - 1) & !(PAGE_SIZE_4K - 1)
}

/// Rounds an address down to a page boundary.
pub fn page_align_down(addr: usize) -> (r: usize)
    ensures
        r == down(addr as int, PAGE_SIZE_4K as int),
        r <= addr < r + PAGE_SIZE_4K,
        r % PAGE_SIZE_4K == 0,
{
    proof {
        lemma_page_size_pow2();
        lemma_down(addr, PAGE_SIZE_4K);
        lemma_round_multiple(addr as int, PAGE_SIZE_4K as int);
    }
    addr & !(PAGE_SIZE_4K - 1)
}

/// Rounding down takes away exactly the bits of `align - 1`, and rounding up is
/// rounding down from `align - 1` further on.
pub proof fn law_rounding(pos: usize, align: usize)
    requires
        align > 0,
    ensures
        down(pos as int, align as int) == pos - (pos & ((align - 1) as usize)),
        pos >= align - 1 ==> up(pos - (align - 1), align as int) == pos - (pos & ((align
            - 1) as usize)),
{
    lemma_down(pos, align);
    let m = (align - 1) as usize;
    assert(pos & !m == pos - (pos & m) && pos & m <= pos) by (bit_vector);
}

/// Of two multiples of a number, the greater is at least one step further on.
pub proof fn lemma_multiples_apart(x: int, y: int, m: int)
    requires
        m > 0,
        x % m == 0,
        y % m == 0,
        x < y,
    ensures
        x + m <= y,
{
    vstd::arithmetic::div_mod::lemma_fundamental_div_mod(x, m);
    vstd::arithmetic::div_mod::lemma_fundamental_div_mod(y, m);
    let p = x / m;
    let q = y / m;
    assert(m * p + m <= m * q) by (nonlinear_arith)
        requires
            m > 0,
            m * p < m * q,
    ;
}

} // verus!
