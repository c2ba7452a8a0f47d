//! The signature region: the address range whose final contents a
//! compliance run records.

use vstd::prelude::*;

verus! {

/// A half-open address range `[begin, end)` with `begin < end`.
#[derive(Clone, Copy, Debug, PartialEq, Eq)]
pub struct SignatureRegion {
    begin: u32,
    end: u32,
}

impl SignatureRegion {
    /// The invariant of the type: the range is neither empty nor inverted.
    #[verifier::type_invariant]
    pub closed spec fn ordered(&self) -> bool {
        self.begin < self.end
    }

    /// The first address of the region.
    pub closed spec fn spec_begin(&self) -> u32 {
        self.begin
    }

    /// The address one past the last byte of the region.
    pub closed spec fn spec_end(&self) -> u32 {
        self.end
    }

    /// The number of bytes in the region.
    pub open spec fn spec_len(&self) -> int {
        self.spec_end() - self.spec_begin()
    }

    /// Builds the region `[begin, end)`, or nothing when `begin >= end`.
    pub fn new(begin: u32, end: u32) -> (region: Option<SignatureRegion>)
        ensures
            region.is_some() <==> begin < end,
            region matches Some(r) ==> r.spec_begin() == begin && r.spec_end() == end,
    {
        if begin < end {
            Some(SignatureRegion { begin, end })
        } else {
            None
        }
    }

    /// The first address of the region.
    #[verifier::when_used_as_spec(spec_begin)]
    pub fn begin(&self) -> (address: u32)
        ensures
            address == self.spec_begin(),
            address < self.spec_end(),
    {
        proof {
            use_type_invariant(self);
        }
        self.begin
    }

    /// The address one past the last byte of the region.
    #[verifier::when_used_as_spec(spec_end)]
    pub fn end(&self) -> (address: u32)
        ensures
            address == self.spec_end(),
            self.spec_begin() < address,
    {
        proof {
            use_type_invariant(self);
        }
        self.end
    }

    /// The number of bytes in the region, which is never zero.
    pub fn len(&self) -> (bytes: u32)
        ensures
            bytes == self.spec_len(),
            bytes > 0,
    {
        proof {
            use_type_invariant(self);
        }
        self.end - self.begin
    }
}

} // verus!
