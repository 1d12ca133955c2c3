//! Words that hold an address and a tag: what the masks are and how the
//! bitwise operations read as arithmetic.

use vstd::prelude::*;
use vstd::arithmetic::power2::{is_pow2, is_pow2_equiv, pow2, lemma_pow2_strictly_increases, lemma_pow2_pos};
use vstd::bits::{low_bits_mask, lemma_low_bits_mask_unfold, lemma_usize_low_bits_mask_is_mod};

verus! {

/// The number of one bits in the binary representation of `n`.
pub open spec fn popcount(n: nat) -> nat
    decreases n,
{
    if n == 0 {
        0
    } else {
        (n % 2) + popcount(n / 2)
    }
}

/// `usize::count_ones` returns the number of ones in the binary
/// representation of its argument.
pub assume_specification[ usize::count_ones ](x: usize) -> (r: u32)
    ensures
        r == popcount(x as nat),
;

/// The word that holds `tag` in the low bits of `addr`.
pub open spec fn pack(addr: usize, tag: usize) -> usize {
    addr | tag
}

/// The address in `word`: the word with the bits of `mask` cleared.
pub open spec fn address_of_word(word: usize, mask: usize) -> usize {
    word & !mask
}

/// The tag in `word`: the bits of `word` that `mask` selects.
pub open spec fn tag_of_word(word: usize, mask: usize) -> usize {
    word & mask
}

/// The exponent of a power of two.
pub open spec fn log2_exact(align: nat) -> nat {
    choose|k: nat| pow2(k) == align
}

/// A power of two that fits in a word is `pow2(k)` for a `k` below the
/// word's width.
pub proof fn lemma_log2_exact(align: usize)
    requires
        is_pow2(align as int),
    ensures
        pow2(log2_exact(align as nat)) == align,
        log2_exact(align as nat) < usize::BITS,
        low_bits_mask(log2_exact(align as nat)) == align - 1,
{
    is_pow2_equiv(align as int);
    let i = choose|i: nat| vstd::arithmetic::power::pow(2, i) == align as int;
    assert(pow2(i) == align as nat);
    let k = log2_exact(align as nat);
    assert(pow2(k) == align);
    lemma_pow2_pos(k);
    vstd::layout::unsigned_int_max_values();
    if k >= usize::BITS {
        if k > usize::BITS {
            lemma_pow2_strictly_increases(usize::BITS as nat, k);
        }
    }
}

/// The popcount of the mask with the low `k` bits set is `k`.
pub proof fn lemma_popcount_low_mask(k: nat)
    ensures
        popcount(low_bits_mask(k)) == k,
    decreases k,
{
    if k == 0 {
        assert(low_bits_mask(0) == 0) by {
            vstd::bits::lemma_low_bits_mask_values();
        }
    } else {
        lemma_low_bits_mask_unfold(k);
        lemma_popcount_low_mask((k - 1) as nat);
        let m = low_bits_mask(k);
        let h = low_bits_mask((k - 1) as nat);
        assert(m == 2 * h + 1);
        assert(m % 2 == 1 && m / 2 == h);
    }
}

/// Under a power-of-two alignment the mask `align - 1` selects the
/// remainder modulo `align`, and clearing it rounds down to a multiple.
pub proof fn lemma_mask_is_mod(word: usize, align: usize)
    requires
        is_pow2(align as int),
    ensures
        align >= 1,
        tag_of_word(word, (align - 1) as usize) == word % align,
        address_of_word(word, (align - 1) as usize) == word - word % align,
        tag_of_word(word, (align - 1) as usize) <= align - 1,
{
    lemma_log2_exact(align);
    let k = log2_exact(align as nat);
    lemma_pow2_pos(k);
    lemma_usize_low_bits_mask_is_mod(word, k);
    let m = (align - 1) as usize;
    assert(low_bits_mask(k) as usize == m);
    assert(pow2(k) as usize == align);
    assert(word & !m == word - (word & m)) by (bit_vector);
}

/// Packing a tag below the alignment into a multiple of the alignment adds
/// the two, and both come back out unchanged.
pub proof fn lemma_pack_round_trip(addr: usize, tag: usize, align: usize)
    requires
        is_pow2(align as int),
        addr % align == 0,
        tag < align,
    ensures
        pack(addr, tag) == addr + tag,
        address_of_word(pack(addr, tag), (align - 1) as usize) == addr,
        tag_of_word(pack(addr, tag), (align - 1) as usize) == tag,
{
    lemma_mask_is_mod(addr, align);
    lemma_mask_is_mod(tag, align);
    let m = (align - 1) as usize;
    assert(tag % align == tag) by {
        vstd::arithmetic::div_mod::lemma_small_mod(tag as nat, align as nat);
    }
    assert(addr & m == 0);
    assert(tag & m == tag);
    assert((addr | tag) & m == tag && (addr | tag) & !m == addr && (addr | tag) == addr + tag)
        by (bit_vector)
        requires
            addr & m == 0,
            tag & m == tag,
    ;
}

} // verus!
