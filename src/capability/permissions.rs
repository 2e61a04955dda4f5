//! The permission vocabulary: named bits of a 32-bit word, combined by union
//! and intersection.
use vstd::prelude::*;

verus! {

/// A set of permission bits, each named flag occupying exactly one bit.
#[derive(Debug, Clone, Copy, PartialEq, Eq, Structural)]
pub struct Permission {
    pub bits: u32,
}

/// Name of a permission word: the flag's name when the word is exactly one
/// known flag, `UNKNOWN` otherwise.
pub open spec fn permission_name(bits: u32) -> Seq<char> {
    if bits == Permission::READ {
        "READ"@
    } else if bits == Permission::WRITE {
        "WRITE"@
    } else if bits == Permission::EXECUTE {
        "EXECUTE"@
    } else if bits == Permission::ADMIN {
        "ADMIN"@
    } else if bits == Permission::CAPTURE {
        "CAPTURE"@
    } else if bits == Permission::PLAYBACK {
        "PLAYBACK"@
    } else if bits == Permission::MIXER {
        "MIXER"@
    } else if bits == Permission::REALTIME {
        "REALTIME"@
    } else if bits == Permission::PASSTHROUGH {
        "PASSTHROUGH"@
    } else {
        "UNKNOWN"@
    }
}

impl Permission {
    pub const READ: u32 = 0x01;
    pub const WRITE: u32 = 0x02;
    pub const EXECUTE: u32 = 0x04;
    pub const ADMIN: u32 = 0x08;
    pub const CAPTURE: u32 = 0x10;
    pub const PLAYBACK: u32 = 0x20;
    pub const MIXER: u32 = 0x40;
    pub const REALTIME: u32 = 0x80;
    pub const PASSTHROUGH: u32 = 0x100;

    /// The permission set with exactly the given bits, unknown ones included.
    pub fn from_bits_retain(bits: u32) -> (r: Permission)
        ensures
            r.bits == bits,
    {
        Permission { bits }
    }

    /// The raw permission word.
    pub fn bits(&self) -> (r: u32)
        ensures
            r == self.bits,
    {
        self.bits
    }

    /// The bits granted by either set.
    pub fn union(self, other: Permission) -> (r: Permission)
        ensures
            r.bits == self.bits | other.bits,
    {
        Permission { bits: self.bits | other.bits }
    }

    /// The bits granted by both sets.
    pub fn intersection(self, other: Permission) -> (r: Permission)
        ensures
            r.bits == self.bits & other.bits,
    {
        Permission { bits: self.bits & other.bits }
    }

    /// Whether every bit of `other` is in this set.
    pub fn contains(&self, other: Permission) -> (r: bool)
        ensures
            r == (self.bits & other.bits == other.bits),
    {
        self.bits & other.bits == other.bits
    }

    /// The name of this permission.
    pub fn name(&self) -> (r: &'static str)
        ensures
            r@ == permission_name(self.bits),
    {
        let b = self.bits;
        if b == Permission::READ {
            "READ"
        } else if b == Permission::WRITE {
            "WRITE"
        } else if b == Permission::EXECUTE {
            "EXECUTE"
        } else if b == Permission::ADMIN {
            "ADMIN"
        } else if b == Permission::CAPTURE {
            "CAPTURE"
        } else if b == Permission::PLAYBACK {
            "PLAYBACK"
        } else if b == Permission::MIXER {
            "MIXER"
        } else if b == Permission::REALTIME {
            "REALTIME"
        } else if b == Permission::PASSTHROUGH {
            "PASSTHROUGH"
        } else {
            "UNKNOWN"
        }
    }
}

} // verus!
