//! Capability tokens: an identity bound to a permission word, a lifetime and
//! a set of state flags.
use vstd::prelude::*;

verus! {

/// State flags of a token, each occupying one bit.
#[derive(Debug, Clone, Copy, PartialEq, Eq, Structural)]
pub struct TokenFlags {
    pub bits: u32,
}

/// Whether every bit of `flag` is set in `bits`.
pub open spec fn has_flag(bits: u32, flag: u32) -> bool {
    bits & flag == flag
}

impl TokenFlags {
    pub const SIGNED: u32 = 0x01;
    pub const REVOKED: u32 = 0x02;
    pub const EXPIRED: u32 = 0x04;
    pub const RESTRICTED: u32 = 0x08;

    /// No flag set.
    pub fn empty() -> (r: TokenFlags)
        ensures
            r.bits == 0,
    {
        TokenFlags { bits: 0 }
    }

    /// The raw flag word.
    pub fn bits(&self) -> (r: u32)
        ensures
            r == self.bits,
    {
        self.bits
    }

    /// Whether every bit of `flag` is set.
    pub fn contains(&self, flag: u32) -> (r: bool)
        ensures
            r == has_flag(self.bits, flag),
    {
        self.bits & flag == flag
    }

    /// Sets the bits of `flag`, leaving the others as they were.
    pub fn insert(&mut self, flag: u32)
        ensures
            final(self).bits == old(self).bits | flag,
    {
        self.bits = self.bits | flag;
    }
}

/// A grant of permissions to one requester, as issued by the manager.
#[derive(Debug, Clone, Copy)]
pub struct CapabilityToken {
    pub token_id: u32,
    pub container_id: u32,
    pub app_id: u32,
    pub permissions: u32,
    pub flags: TokenFlags,
    pub created_time: u64,
    pub expiry_time: u64,
    /// Reserved for a future proof of authenticity; never checked.
    pub signature: [u8; 64],
}

impl CapabilityToken {
    /// Whether the expired flag is set.
    pub open spec fn expired(&self) -> bool {
        has_flag(self.flags.bits, TokenFlags::EXPIRED)
    }

    /// Whether the revoked flag is set.
    pub open spec fn revoked(&self) -> bool {
        has_flag(self.flags.bits, TokenFlags::REVOKED)
    }

    /// A token is valid while neither revoked nor expired: validity depends
    /// on the flags alone.
    pub open spec fn valid(&self) -> bool {
        !self.expired() && !self.revoked()
    }

    /// A fresh token issued at instant zero: no flag set, the expiry
    /// `lifetime_secs` after creation, the signature zeroed.
    pub fn new(
        token_id: u32,
        container_id: u32,
        app_id: u32,
        permissions: u32,
        lifetime_secs: u64,
    ) -> (r: CapabilityToken)
        ensures
            r.token_id == token_id,
            r.container_id == container_id,
            r.app_id == app_id,
            r.permissions == permissions,
            r.flags.bits == 0,
            r.created_time == 0,
            r.expiry_time == r.created_time + lifetime_secs,
            forall|i: int| 0 <= i < 64 ==> #[trigger] r.signature[i] == 0u8,
    {
        let now: u64 = 0;
        CapabilityToken {
            token_id,
            container_id,
            app_id,
            permissions,
            flags: TokenFlags::empty(),
            created_time: now,
            expiry_time: now + lifetime_secs,
            signature: [0u8; 64],
        }
    }

    pub fn is_expired(&self) -> (r: bool)
        ensures
            r == self.expired(),
    {
        self.flags.contains(TokenFlags::EXPIRED)
    }

    pub fn is_revoked(&self) -> (r: bool)
        ensures
            r == self.revoked(),
    {
        self.flags.contains(TokenFlags::REVOKED)
    }

    pub fn is_valid(&self) -> (r: bool)
        ensures
            r == self.valid(),
    {
        !self.is_expired() && !self.is_revoked()
    }
}

} // verus!
