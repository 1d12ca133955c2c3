//! A pair of an address and a small integer, packed into the size of a
//! pointer: the integer lives in the low bits of the address that the
//! pointee's alignment keeps at zero.

use vstd::prelude::*;
use vstd::arithmetic::power2::{is_pow2, pow2};
use vstd::layout::{align_of, layout_for_type_is_valid};
use core::marker::PhantomData;
use crate::error::ValueTooLarge;
use crate::bits::{
    address_of_word, lemma_log2_exact, lemma_mask_is_mod, lemma_pack_round_trip,
    lemma_popcount_low_mask, log2_exact, pack, popcount, tag_of_word,
};

verus! {

/// The address of a run of elements: where it starts and how many elements
/// it holds.
#[derive(Clone, Copy, Debug, PartialEq, Eq, Structural)]
pub struct SliceAddress {
    pub addr: usize,
    pub len: usize,
}

/// How a pointer to a `Self` is laid out: what its address is written as,
/// and what a packed pair keeps beside the one word that carries the tag.
pub trait Pointee {
    /// The address of a `Self` as a plain value.
    type Address;

    /// What is stored next to the tagged word: nothing for a sized pointee,
    /// the element count for a slice.
    type Extra;
}

impl<T> Pointee for T {
    type Address = usize;

    type Extra = ();
}

impl<T> Pointee for [T] {
    type Address = SliceAddress;

    type Extra = usize;
}

/// A pair of an address of a `T` and an integer value, packed so that it
/// takes the size of a pointer to `T`.
///
/// The value is stored in the low bits of the address that are zero in every
/// aligned address of a `T`, so the largest value that fits is the alignment
/// of `T` minus one. A pointee of alignment one leaves no room: the only
/// value that fits is zero.
pub struct PointerValuePair<T: ?Sized + Pointee> {
    pv: usize,
    extra: <T as Pointee>::Extra,
    _pointee: PhantomData<T>,
}

/// The bits of an address of a `T` that its alignment keeps at zero, which
/// is also the largest value that can be stored beside such an address.
pub open spec fn align_mask<T>() -> usize {
    (align_of::<T>() - 1) as usize
}

/// Whether `value` can be stored beside an address of a `T`.
pub open spec fn fits<T>(value: usize) -> bool {
    value <= align_mask::<T>()
}

/// The number of low bits of an address of a `T` that can hold a value.
pub open spec fn tag_bits<T>() -> nat {
    popcount(align_mask::<T>() as nat)
}

/// Whether `addr` is a multiple of the alignment of `T`, as the address of
/// every `T` is.
pub open spec fn is_aligned<T>(addr: usize) -> bool {
    addr as nat % align_of::<T>() == 0
}

/// Whether the alignment of `T` fits in a word, as it does for every type
/// that a compiled program holds.
pub open spec fn layout_fits<T>() -> bool {
    align_of::<T>() <= usize::MAX
}

/// Returns a bitmask of the zero low bits of the addresses of `T`.
fn align_bits<T>() -> (m: usize)
    ensures
        m == align_mask::<T>(),
        m == align_of::<T>() - 1,
        is_pow2(align_of::<T>() as int),
        layout_fits::<T>(),
{
    layout_for_type_is_valid::<T>();
    core::mem::align_of::<T>() - 1
}

/// The value bits of a pointee are the binary logarithm of its alignment:
/// an alignment of `2^k` leaves room for exactly the values below `2^k`.
pub proof fn lemma_tag_bits_of_alignment<T>()
    requires
        layout_fits::<T>(),
    ensures
        align_mask::<T>() + 1 == align_of::<T>(),
        pow2(tag_bits::<T>()) == align_of::<T>(),
{
    broadcast use vstd::layout::align_properties;

    let align = align_of::<T>() as usize;
    lemma_log2_exact(align);
    lemma_popcount_low_mask(log2_exact(align as nat));
}

/// A pointee of alignment one has no bit to spare: the only value that
/// fits beside its address is zero.
pub proof fn lemma_alignment_one_holds_only_zero<T>()
    requires
        align_of::<T>() == 1,
    ensures
        align_mask::<T>() == 0,
        tag_bits::<T>() == 0,
        forall|value: usize| #[trigger] fits::<T>(value) <==> value == 0,
{
    assert(popcount(0) == 0);
}

/// Packing a value that fits into an aligned address and unpacking the word
/// gives back both, unchanged.
pub proof fn lemma_round_trip<T>(ptr: usize, value: usize)
    requires
        layout_fits::<T>(),
        is_aligned::<T>(ptr),
        fits::<T>(value),
    ensures
        address_of_word(pack(ptr, value), align_mask::<T>()) == ptr,
        tag_of_word(pack(ptr, value), align_mask::<T>()) == value,
        pack(ptr, value) == ptr + value,
{
    broadcast use vstd::layout::align_properties;

    lemma_pack_round_trip(ptr, value, align_of::<T>() as usize);
}

/// Whatever a word holds, the value read from it is its remainder modulo
/// the alignment, and the address read from it is the word rounded down to
/// a multiple of the alignment.
pub proof fn lemma_unpack_is_division<T>(word: usize)
    requires
        layout_fits::<T>(),
    ensures
        tag_of_word(word, align_mask::<T>()) == word as nat % align_of::<T>(),
        address_of_word(word, align_mask::<T>()) == word - word as nat % align_of::<T>(),
        is_aligned::<T>(address_of_word(word, align_mask::<T>())),
        tag_of_word(word, align_mask::<T>()) <= align_mask::<T>(),
{
    broadcast use vstd::layout::align_properties;

    let align = align_of::<T>() as usize;
    lemma_mask_is_mod(word, align);
    let r = word as int % align as int;
    vstd::arithmetic::div_mod::lemma_fundamental_div_mod(word as int, align as int);
    vstd::arithmetic::div_mod::lemma_mod_multiples_basic(word as int / align as int, align as int);
    assert(word - r == align * (word as int / align as int));
    assert((word as int / align as int) * align == align * (word as int / align as int))
        by (nonlinear_arith);
}

impl<T> PointerValuePair<T> {
    /// The word that the pair is stored as.
    pub closed spec fn word(self) -> usize {
        self.pv
    }

    /// The address that `ptr` returns: the word without its low bits.
    pub open spec fn spec_ptr(self) -> usize {
        address_of_word(self.word(), align_mask::<T>())
    }

    /// The value that `value` returns: the low bits of the word.
    pub open spec fn spec_value(self) -> usize {
        tag_of_word(self.word(), align_mask::<T>())
    }

    /// Creates a new `PointerValuePair` from the given address and extra
    /// bits. The value must fit in the alignment bits of `T`.
    pub fn new(ptr: usize, value: usize) -> (r: PointerValuePair<T>)
        requires
            fits::<T>(value),
        ensures
            r.word() == pack(ptr, value),
            is_aligned::<T>(ptr) ==> r.ptr() == ptr && r.value() == value,
    {
        layout_for_type_is_valid::<T>();
        proof {
            if is_aligned::<T>(ptr) {
                lemma_round_trip::<T>(ptr, value);
            }
        }
        let repr: usize = ptr | value;
        PointerValuePair { pv: repr, extra: (), _pointee: PhantomData }
    }

    /// Creates a new `PointerValuePair` if the value fits in the alignment
    /// bits of `T`, and otherwise reports the bits that are available and
    /// the value that does not fit in them.
    pub fn try_new(ptr: usize, value: usize) -> (r: Result<PointerValuePair<T>, ValueTooLarge>)
        ensures
            r is Ok <==> fits::<T>(value),
            r matches Ok(p) ==> p.word() == pack(ptr, value) && (is_aligned::<T>(ptr) ==> p.ptr()
                == ptr && p.value() == value),
            r matches Err(e) ==> e.available_bits == tag_bits::<T>() && e.value == value,
    {
        if value <= align_bits::<T>() {
            Ok(Self::new(ptr, value))
        } else {
            Err(ValueTooLarge { available_bits: Self::available_bits(), value })
        }
    }

    /// Returns the address: the word with the bits of the value cleared,
    /// which is the word rounded down to a multiple of the alignment.
    #[verifier::when_used_as_spec(spec_ptr)]
    pub fn ptr(self) -> (p: usize)
        ensures
            p == self.spec_ptr(),
            is_aligned::<T>(p),
            p + self.value() == self.word(),
    {
        let m = align_bits::<T>();
        proof {
            lemma_unpack_is_division::<T>(self.pv);
        }
        self.pv & !m
    }

    /// Returns the value stored alongside the address: the low bits of the
    /// word, which are its remainder modulo the alignment.
    #[verifier::when_used_as_spec(spec_value)]
    pub fn value(self) -> (v: usize)
        ensures
            v == self.spec_value(),
            fits::<T>(v),
            v == self.word() as nat % align_of::<T>(),
    {
        let m = align_bits::<T>();
        proof {
            lemma_unpack_is_division::<T>(self.pv);
        }
        self.pv & m
    }

    /// Returns the number of bits available to store the value.
    pub fn available_bits() -> (n: u32)
        ensures
            n == tag_bits::<T>(),
    {
        align_bits::<T>().count_ones()
    }

    /// Returns the maximum (inclusive) integer value that can be stored
    /// beside the address.
    pub fn max_value() -> (m: usize)
        ensures
            m == align_mask::<T>(),
            m == align_of::<T>() - 1,
    {
        align_bits::<T>()
    }
}

impl<T> Clone for PointerValuePair<T> {
    fn clone(&self) -> (r: Self)
        ensures
            r == *self,
    {
        *self
    }
}

impl<T> Copy for PointerValuePair<T> {

}

impl<T> PointerValuePair<[T]> {
    /// The word that carries the address of the first element and the value.
    pub closed spec fn word(self) -> usize {
        self.pv
    }

    /// The element count, which is stored beside the word and never packed.
    pub closed spec fn len(self) -> usize {
        self.extra
    }

    /// The address that `ptr` returns: the word without its low bits, and
    /// the element count as it was given.
    pub open spec fn spec_ptr(self) -> SliceAddress {
        SliceAddress { addr: address_of_word(self.word(), align_mask::<T>()), len: self.len() }
    }

    /// The value that `value` returns: the low bits of the word.
    pub open spec fn spec_value(self) -> usize {
        tag_of_word(self.word(), align_mask::<T>())
    }

    /// Creates a new `PointerValuePair` from the given slice address and
    /// extra bits. The value must fit in the alignment bits of `T`.
    pub fn new_slice(ptr: SliceAddress, value: usize) -> (r: PointerValuePair<[T]>)
        requires
            fits::<T>(value),
        ensures
            r.word() == pack(ptr.addr, value),
            r.len() == ptr.len,
            is_aligned::<T>(ptr.addr) ==> r.ptr() == ptr && r.value() == value,
    {
        layout_for_type_is_valid::<T>();
        proof {
            if is_aligned::<T>(ptr.addr) {
                lemma_round_trip::<T>(ptr.addr, value);
            }
        }
        let len: usize = ptr.len;
        let repr: usize = ptr.addr | value;
        PointerValuePair { pv: repr, extra: len, _pointee: PhantomData }
    }

    /// Creates a new `PointerValuePair` if the value fits in the alignment
    /// bits of `T`, and otherwise reports the bits that are available and
    /// the value that does not fit in them.
    pub fn try_new_slice(ptr: SliceAddress, value: usize) -> (r: Result<
        PointerValuePair<[T]>,
        ValueTooLarge,
    >)
        ensures
            r is Ok <==> fits::<T>(value),
            r matches Ok(p) ==> p.word() == pack(ptr.addr, value) && p.len() == ptr.len && (
            is_aligned::<T>(ptr.addr) ==> p.ptr() == ptr && p.value() == value),
            r matches Err(e) ==> e.available_bits == tag_bits::<T>() && e.value == value,
    {
        if value <= align_bits::<T>() {
            Ok(Self::new_slice(ptr, value))
        } else {
            Err(ValueTooLarge { available_bits: Self::available_bits(), value })
        }
    }

    /// Returns the address of the first element, which is the word with
    /// the bits of the value cleared, and the element count.
    #[verifier::when_used_as_spec(spec_ptr)]
    pub fn ptr(self) -> (p: SliceAddress)
        ensures
            p == self.spec_ptr(),
            is_aligned::<T>(p.addr),
            p.addr + self.value() == self.word(),
            p.len == self.len(),
    {
        let m = align_bits::<T>();
        proof {
            lemma_unpack_is_division::<T>(self.pv);
        }
        let len: usize = self.extra;
        SliceAddress { addr: self.pv & !m, len }
    }

    /// Returns the value stored alongside the address: the low bits of the
    /// word, which are its remainder modulo the alignment.
    #[verifier::when_used_as_spec(spec_value)]
    pub fn value(self) -> (v: usize)
        ensures
            v == self.spec_value(),
            fits::<T>(v),
            v == self.word() as nat % align_of::<T>(),
    {
        let m = align_bits::<T>();
        proof {
            lemma_unpack_is_division::<T>(self.pv);
        }
        self.pv & m
    }

    /// Returns the number of bits available to store the value.
    pub fn available_bits() -> (n: u32)
        ensures
            n == tag_bits::<T>(),
    {
        align_bits::<T>().count_ones()
    }

    /// Returns the maximum (inclusive) integer value that can be stored
    /// beside the address.
    pub fn max_value() -> (m: usize)
        ensures
            m == align_mask::<T>(),
            m == align_of::<T>() - 1,
    {
        align_bits::<T>()
    }
}

impl<T> Clone for PointerValuePair<[T]> {
    fn clone(&self) -> (r: Self)
        ensures
            r == *self,
    {
        *self
    }
}

impl<T> Copy for PointerValuePair<[T]> {

}

/// A uniform way to read a pointer-value pair, whether it points to a single
/// element or to a slice.
pub trait PointerValuePairAccess: Copy {
    type Target: ?Sized + Pointee;

    /// The address that the pair holds.
    spec fn access_ptr(self) -> <Self::Target as Pointee>::Address;

    /// The value that the pair holds.
    spec fn access_value(self) -> usize;

    /// The largest value that a pair of this type can hold.
    spec fn access_max_value() -> usize;

    /// The number of bits that a pair of this type has for its value.
    spec fn access_bits() -> nat;

    /// Returns the stored address.
    fn ptr(self) -> (p: <Self::Target as Pointee>::Address)
        ensures
            p == self.access_ptr(),
    ;

    /// Returns the stored address, for a pointee that is to be written.
    fn mut_ptr(self) -> (p: <Self::Target as Pointee>::Address)
        ensures
            p == self.access_ptr(),
    ;

    /// Returns the value stored alongside the address.
    fn value(self) -> (v: usize)
        ensures
            v == self.access_value(),
            v <= Self::access_max_value(),
    ;

    /// Returns the number of bits available to store the value.
    fn available_bits() -> (n: u32)
        ensures
            n == Self::access_bits(),
    ;

    /// Returns the maximum (inclusive) integer value that can be stored
    /// beside the address.
    fn max_value() -> (m: usize)
        ensures
            m == Self::access_max_value(),
    ;
}

impl<T> PointerValuePairAccess for PointerValuePair<T> {
    type Target = T;

    open spec fn access_ptr(self) -> usize {
        self.spec_ptr()
    }

    open spec fn access_value(self) -> usize {
        self.spec_value()
    }

    open spec fn access_max_value() -> usize {
        align_mask::<T>()
    }

    open spec fn access_bits() -> nat {
        tag_bits::<T>()
    }

    fn ptr(self) -> (p: usize) {
        self.ptr()
    }

    fn mut_ptr(self) -> (p: usize) {
        self.ptr()
    }

    fn value(self) -> (v: usize) {
        self.value()
    }

    fn available_bits() -> (n: u32) {
        Self::available_bits()
    }

    fn max_value() -> (m: usize) {
        Self::max_value()
    }
}

impl<T> PointerValuePairAccess for PointerValuePair<[T]> {
    type Target = [T];

    open spec fn access_ptr(self) -> SliceAddress {
        self.spec_ptr()
    }

    open spec fn access_value(self) -> usize {
        self.spec_value()
    }

    open spec fn access_max_value() -> usize {
        align_mask::<T>()
    }

    open spec fn access_bits() -> nat {
        tag_bits::<T>()
    }

    fn ptr(self) -> (p: SliceAddress) {
        self.ptr()
    }

    fn mut_ptr(self) -> (p: SliceAddress) {
        self.ptr()
    }

    fn value(self) -> (v: usize) {
        self.value()
    }

    fn available_bits() -> (n: u32) {
        Self::available_bits()
    }

    fn max_value() -> (m: usize) {
        Self::max_value()
    }
}

} // verus!
