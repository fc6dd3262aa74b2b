//! The bit-flag algebra that every generated bit-flag type offers.
//!
//! A generated bit-flag type wraps one raw word and knows the mask of all the
//! bits it declares.  [`Bitflags`] is that type with the mask carried in the
//! value, so that one definition serves every declared mask; its contracts are
//! stated over [`FlagsView`].

use vstd::prelude::*;
use vstd::std_specs::ops::{BitAndSpecImpl, BitOrSpecImpl, BitXorSpecImpl, NotSpecImpl, SubSpecImpl};

verus! {

/// What a bit-flag value is: the mask of its type and the bits that are set.
pub ghost struct FlagsView {
    pub all: u64,
    pub flags: u64,
}

impl FlagsView {
    /// No bit of the value lies outside the mask of its type.
    pub open spec fn within_mask(self) -> bool {
        self.flags & !self.all == 0
    }

    /// The bits of either value.
    pub open spec fn union(self, rhs: FlagsView) -> FlagsView {
        FlagsView { all: self.all, flags: self.flags | rhs.flags }
    }

    /// The bits of both values.
    pub open spec fn intersection(self, rhs: FlagsView) -> FlagsView {
        FlagsView { all: self.all, flags: self.flags & rhs.flags }
    }

    /// The bits of exactly one of the two values.
    pub open spec fn symmetric_difference(self, rhs: FlagsView) -> FlagsView {
        FlagsView { all: self.all, flags: self.flags ^ rhs.flags }
    }

    /// The bits of the type's mask that the value does not have, together with
    /// the value's bits outside the mask: `all ^ flags`.
    pub open spec fn complement(self) -> FlagsView {
        FlagsView { all: self.all, flags: self.flags ^ self.all }
    }

    /// The bits of `self` that are in the complement of `rhs`.
    pub open spec fn difference(self, rhs: FlagsView) -> FlagsView {
        self.intersection(rhs.complement())
    }
}

/// A value of a bit-flag type whose declared bits are `all`.
#[derive(Clone, Copy, PartialEq, Eq, PartialOrd, Ord, Hash, Debug, Structural)]
pub struct Bitflags {
    all: u64,
    flags: u64,
}

impl View for Bitflags {
    type V = FlagsView;

    closed spec fn view(&self) -> FlagsView {
        FlagsView { all: self.all, flags: self.flags }
    }
}

impl Bitflags {
    /// The value with exactly the bits `flags`, unchecked: this is how a declared
    /// constant of the type is built.
    pub fn new(all: u64, flags: u64) -> (r: Bitflags)
        ensures
            r@ == (FlagsView { all, flags }),
    {
        Bitflags { all, flags }
    }

    /// The value without any bit.
    pub fn empty(all: u64) -> (r: Bitflags)
        ensures
            r@ == (FlagsView { all, flags: 0 }),
    {
        Bitflags { all, flags: 0 }
    }

    /// The value with every bit of the mask.
    pub fn all(all: u64) -> (r: Bitflags)
        ensures
            r@ == (FlagsView { all, flags: all }),
    {
        Bitflags { all, flags: all }
    }

    /// The raw word.
    pub fn flags(self) -> (r: u64)
        ensures
            r == self@.flags,
    {
        self.flags
    }

    /// The mask of the value's type.
    pub fn mask(self) -> (r: u64)
        ensures
            r == self@.all,
    {
        self.all
    }

    /// Validated construction: fails exactly when a bit of `flags` lies outside
    /// `all`.
    pub fn from_flags(all: u64, flags: u64) -> (r: Option<Bitflags>)
        ensures
            flags & !all == 0 ==> r is Some && r->0@ == (FlagsView { all, flags }),
            flags & !all != 0 ==> r is None,
    {
        if flags & !all == 0 {
            Some(Bitflags { all, flags })
        } else {
            None
        }
    }

    /// Truncating construction: the bits of `flags` outside `all` are dropped.
    pub fn from_flags_truncate(all: u64, flags: u64) -> (r: Bitflags)
        ensures
            r@ == (FlagsView { all, flags: flags & all }),
            r@.within_mask(),
    {
        assert((flags & all) & !all == 0) by (bit_vector);
        Bitflags { all, flags: flags & all }
    }

    /// Whether no bit is set.
    pub fn is_empty(self) -> (r: bool)
        ensures
            r == (self@.flags == 0),
    {
        self.flags == 0
    }

    /// Whether every bit of the mask is set.
    pub fn is_all(self) -> (r: bool)
        ensures
            r == (self@.flags & self@.all == self@.all),
    {
        self.flags & self.all == self.all
    }

    /// Whether the two values have a bit in common.
    pub fn intersects(self, other: Bitflags) -> (r: bool)
        ensures
            r == (self@.flags & other@.flags != 0),
    {
        self.flags & other.flags != 0
    }

    /// Whether `other` is a subset of `self`.
    pub fn subset(self, other: Bitflags) -> (r: bool)
        ensures
            r == (self@.flags & other@.flags == other@.flags),
    {
        self.flags & other.flags == other.flags
    }

    /// Adds the bits of `rhs`.
    pub fn bitor_assign(&mut self, rhs: Bitflags)
        ensures
            final(self)@ == old(self)@.union(rhs@),
    {
        self.flags = self.flags | rhs.flags;
    }

    /// Keeps only the bits that `rhs` has too.
    pub fn bitand_assign(&mut self, rhs: Bitflags)
        ensures
            final(self)@ == old(self)@.intersection(rhs@),
    {
        self.flags = self.flags & rhs.flags;
    }

    /// Toggles the bits of `rhs`.
    pub fn bitxor_assign(&mut self, rhs: Bitflags)
        ensures
            final(self)@ == old(self)@.symmetric_difference(rhs@),
    {
        self.flags = self.flags ^ rhs.flags;
    }

    /// Keeps only the bits of the complement of `rhs`.
    pub fn sub_assign(&mut self, rhs: Bitflags)
        ensures
            final(self)@ == old(self)@.difference(rhs@),
    {
        self.flags = self.flags & (rhs.flags ^ rhs.all);
    }

    /// Two values with the same view are the same value.
    pub proof fn lemma_view_injective(a: Bitflags, b: Bitflags)
        requires
            a@ == b@,
        ensures
            a == b,
    {
    }
}

impl core::ops::BitOr for Bitflags {
    type Output = Bitflags;

    fn bitor(self, rhs: Bitflags) -> (r: Bitflags)
        ensures
            r@ == self@.union(rhs@),
    {
        Bitflags { all: self.all, flags: self.flags | rhs.flags }
    }
}

impl BitOrSpecImpl for Bitflags {
    open spec fn obeys_bitor_spec() -> bool {
        true
    }

    open spec fn bitor_req(self, rhs: Bitflags) -> bool {
        true
    }

    closed spec fn bitor_spec(self, rhs: Bitflags) -> Bitflags {
        Bitflags { all: self.all, flags: self.flags | rhs.flags }
    }
}

impl core::ops::BitAnd for Bitflags {
    type Output = Bitflags;

    fn bitand(self, rhs: Bitflags) -> (r: Bitflags)
        ensures
            r@ == self@.intersection(rhs@),
    {
        Bitflags { all: self.all, flags: self.flags & rhs.flags }
    }
}

impl BitAndSpecImpl for Bitflags {
    open spec fn obeys_bitand_spec() -> bool {
        true
    }

    open spec fn bitand_req(self, rhs: Bitflags) -> bool {
        true
    }

    closed spec fn bitand_spec(self, rhs: Bitflags) -> Bitflags {
        Bitflags { all: self.all, flags: self.flags & rhs.flags }
    }
}

impl core::ops::BitXor for Bitflags {
    type Output = Bitflags;

    fn bitxor(self, rhs: Bitflags) -> (r: Bitflags)
        ensures
            r@ == self@.symmetric_difference(rhs@),
    {
        Bitflags { all: self.all, flags: self.flags ^ rhs.flags }
    }
}

impl BitXorSpecImpl for Bitflags {
    open spec fn obeys_bitxor_spec() -> bool {
        true
    }

    open spec fn bitxor_req(self, rhs: Bitflags) -> bool {
        true
    }

    closed spec fn bitxor_spec(self, rhs: Bitflags) -> Bitflags {
        Bitflags { all: self.all, flags: self.flags ^ rhs.flags }
    }
}

impl core::ops::Not for Bitflags {
    type Output = Bitflags;

    fn not(self) -> (r: Bitflags)
        ensures
            r@ == self@.complement(),
    {
        Bitflags { all: self.all, flags: self.flags ^ self.all }
    }
}

impl NotSpecImpl for Bitflags {
    open spec fn obeys_not_spec() -> bool {
        true
    }

    open spec fn not_req(self) -> bool {
        true
    }

    closed spec fn not_spec(self) -> Bitflags {
        Bitflags { all: self.all, flags: self.flags ^ self.all }
    }
}

impl core::ops::Sub for Bitflags {
    type Output = Bitflags;

    fn sub(self, rhs: Bitflags) -> (r: Bitflags)
        ensures
            r@ == self@.difference(rhs@),
    {
        Bitflags { all: self.all, flags: self.flags & (rhs.flags ^ rhs.all) }
    }
}

impl SubSpecImpl for Bitflags {
    open spec fn obeys_sub_spec() -> bool {
        true
    }

    open spec fn sub_req(self, rhs: Bitflags) -> bool {
        true
    }

    closed spec fn sub_spec(self, rhs: Bitflags) -> Bitflags {
        Bitflags { all: self.all, flags: self.flags & (rhs.flags ^ rhs.all) }
    }
}

/// Taking the complement twice gives the value back, whatever its bits.
pub proof fn lemma_complement_involution(x: FlagsView)
    ensures
        x.complement().complement() == x,
{
    let f = x.flags;
    let a = x.all;
    assert((f ^ a) ^ a == f) by (bit_vector);
}

/// The complement of a value within the mask is within the mask, and holds
/// exactly the bits of the mask that the value lacks.
pub proof fn lemma_complement_within_mask(x: FlagsView)
    requires
        x.within_mask(),
    ensures
        x.complement().within_mask(),
        x.complement().flags == x.all & !x.flags,
        x.complement().flags & x.flags == 0,
        x.complement().flags | x.flags == x.all,
{
    let f = x.flags;
    let a = x.all;
    assert(f & !a == 0 ==> (f ^ a) & !a == 0 && (f ^ a) == a & !f && (f ^ a) & f == 0 && (f ^ a) | f
        == a) by (bit_vector);
}

/// Union, intersection, symmetric difference and difference of values within
/// the mask stay within the mask.
pub proof fn lemma_algebra_closed(x: FlagsView, y: FlagsView)
    requires
        x.all == y.all,
        x.within_mask(),
        y.within_mask(),
    ensures
        x.union(y).within_mask(),
        x.intersection(y).within_mask(),
        x.symmetric_difference(y).within_mask(),
        x.difference(y).within_mask(),
        x.difference(y).flags == x.flags & !y.flags,
{
    let f = x.flags;
    let g = y.flags;
    let a = x.all;
    assert(f & !a == 0 && g & !a == 0 ==> (f | g) & !a == 0 && (f & g) & !a == 0 && (f ^ g) & !a
        == 0 && (f & (g ^ a)) & !a == 0 && f & (g ^ a) == f & !g) by (bit_vector);
}

/// A raw word passes validated construction exactly when truncation leaves it
/// unchanged.
pub proof fn lemma_valid_iff_truncation_fixes(all: u64, flags: u64)
    ensures
        (flags & !all == 0) <==> (flags & all == flags),
{
    assert((flags & !all == 0) <==> (flags & all == flags)) by (bit_vector);
}

} // verus!
