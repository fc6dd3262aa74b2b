//! The two kinds of opaque handle that the bindings declare.

use crate::text::{concat_strings, hex_string, hex_text};
use core::cmp::Ordering;
use vstd::prelude::*;
use vstd::std_specs::cmp::{PartialOrdSpec, PartialOrdSpecImpl};

verus! {

/// A dispatchable handle: pointer-sized and opaque.  It can be made only as
/// the null handle; every other value comes from the API.
#[derive(Clone, Copy, Debug)]
pub struct DispatchableHandle {
    ptr: usize,
}

impl DispatchableHandle {
    /// The address that the handle holds.
    pub closed spec fn address(self) -> usize {
        self.ptr
    }

    /// The null handle.
    pub fn null() -> (r: Self)
        ensures
            r.address() == 0,
    {
        DispatchableHandle { ptr: 0 }
    }
}

/// A non-dispatchable handle: an opaque 64-bit number.  Two handles are equal
/// when their numbers are, and are ordered as their numbers are.
#[derive(Eq, PartialEq, Ord, Clone, Copy, Hash, Debug, Structural)]
pub struct NonDispatchableHandle(pub u64);

impl PartialOrd for NonDispatchableHandle {
    fn partial_cmp(&self, other: &Self) -> (r: Option<Ordering>) {
        if self.0 < other.0 {
            Some(Ordering::Less)
        } else if self.0 == other.0 {
            Some(Ordering::Equal)
        } else {
            Some(Ordering::Greater)
        }
    }
}

impl PartialOrdSpecImpl for NonDispatchableHandle {
    open spec fn obeys_partial_cmp_spec() -> bool {
        true
    }

    open spec fn partial_cmp_spec(&self, other: &Self) -> Option<Ordering> {
        if self.0 < other.0 {
            Some(Ordering::Less)
        } else if self.0 == other.0 {
            Some(Ordering::Equal)
        } else {
            Some(Ordering::Greater)
        }
    }
}

impl NonDispatchableHandle {
    /// The null handle.
    pub fn null() -> (r: Self)
        ensures
            r.0 == 0,
    {
        NonDispatchableHandle(0)
    }

    /// The handle written as a pointer: `0x` and its number in hexadecimal.
    pub fn pointer_text(&self) -> (r: String)
        ensures
            r@ == seq!['0', 'x'] + hex_text(self.0 as nat),
    {
        let mut out = String::new();
        out.push('0');
        out.push('x');
        assert(out@ == seq!['0', 'x']);
        concat_strings(out, &hex_string(self.0))
    }
}

/// The order of non-dispatchable handles is total: of two handles exactly one
/// of less, equal and greater holds, and it is the order of their numbers.
pub proof fn lemma_handle_order_is_total(a: NonDispatchableHandle, b: NonDispatchableHandle)
    ensures
        PartialOrdSpec::partial_cmp_spec(&a, &b) is Some,
        PartialOrdSpec::partial_cmp_spec(&a, &b) == Some(Ordering::Equal) <==> a == b,
        PartialOrdSpec::partial_cmp_spec(&a, &b) == Some(Ordering::Less)
            <==> PartialOrdSpec::partial_cmp_spec(&b, &a) == Some(Ordering::Greater),
        PartialOrdSpec::partial_cmp_spec(&a, &b) == Some(Ordering::Less) <==> a.0 < b.0,
{
}

} // verus!
