//! The packed semantic version the host's module ABI exchanges.

use vstd::prelude::*;

verus! {

/// A semantic version packed into one word: the major part in the top
/// byte, the minor part in the next, the patch part in the low byte.
#[derive(Debug, Clone, Copy, PartialEq, Eq, Structural)]
pub struct SemanticVersion(u32);

impl SemanticVersion {
    pub closed spec fn spec_packed(&self) -> u32 {
        self.0
    }

    pub open spec fn spec_major(&self) -> u8 {
        (self.spec_packed() >> 24) as u8
    }

    pub open spec fn spec_minor(&self) -> u8 {
        (self.spec_packed() >> 16) as u8
    }

    pub open spec fn spec_patch(&self) -> u8 {
        self.spec_packed() as u8
    }

    /// Packs the three parts; each accessor recovers its part exactly.
    pub fn new(major: u8, minor: u8, patch: u8) -> (r: SemanticVersion)
        ensures
            r.spec_packed() == ((major as u32) << 24u32) | ((minor as u32) << 16u32) | (
            patch as u32),
            r.spec_major() == major,
            r.spec_minor() == minor,
            r.spec_patch() == patch,
    {
        let v = ((major as u32) << 24) | ((minor as u32) << 16) | (patch as u32);
        proof {
            let m = major as u32;
            let n = minor as u32;
            let p = patch as u32;
            assert(m < 256 && n < 256 && p < 256 ==> (((m << 24u32) | (n << 16u32) | p) >> 24u32)
                as u8 == m as u8 && (((m << 24u32) | (n << 16u32) | p) >> 16u32) as u8 == n as u8
                && ((m << 24u32) | (n << 16u32) | p) as u8 == p as u8) by (bit_vector);
        }
        SemanticVersion(v)
    }

    pub fn major(&self) -> (r: u8)
        ensures
            r == self.spec_major(),
    {
        (self.0 >> 24) as u8
    }

    pub fn minor(&self) -> (r: u8)
        ensures
            r == self.spec_minor(),
    {
        (self.0 >> 16) as u8
    }

    pub fn patch(&self) -> (r: u8)
        ensures
            r == self.spec_patch(),
    {
        self.0 as u8
    }

    /// The packed word itself, as the module ABI reports it.
    pub fn packed(&self) -> (r: u32)
        ensures
            r == self.spec_packed(),
    {
        self.0
    }
}

} // verus!
