//! The bounded pool of issued tokens, the authority on their validity.
use vstd::prelude::*;

use crate::capability::permissions::Permission;
use crate::capability::token::{CapabilityToken, TokenFlags};
use crate::error::{HalError, HalResult};

verus! {

/// Capacity of a manager made by `new`.
pub const MAX_TOKENS: usize = 4096;

/// Lifetime given to every issued token.
pub const DEFAULT_LIFETIME: u64 = 3600;

/// Whether some resident token carries `id`.
pub open spec fn holds_id(tokens: Seq<CapabilityToken>, id: u32) -> bool {
    exists|i: int| 0 <= i < tokens.len() && #[trigger] tokens[i].token_id == id
}

/// Whether a resident token carrying `id` is valid.
pub open spec fn resident_valid(tokens: Seq<CapabilityToken>, id: u32) -> bool {
    exists|i: int| 0 <= i < tokens.len() && #[trigger] tokens[i].token_id == id && tokens[i].valid()
}

/// Outcome of verifying a presented token against the resident tokens:
/// its own flags first, then whether it was issued here, then the flags of
/// the resident record, so that a revocation reaches every copy.
pub open spec fn verify_outcome(tokens: Seq<CapabilityToken>, t: CapabilityToken) -> HalResult<()> {
    if !t.valid() {
        Err(HalError::PermissionDenied)
    } else if !holds_id(tokens, t.token_id) {
        Err(HalError::InvalidArg)
    } else if !resident_valid(tokens, t.token_id) {
        Err(HalError::PermissionDenied)
    } else {
        Ok(())
    }
}

/// Whether a presented token grants a bit of `bits`: its own flags must
/// mark it valid, the resident record under its id, if there is one, must
/// not be revoked or expired, and its permission word must share a bit with
/// `bits`.
pub open spec fn permitted(tokens: Seq<CapabilityToken>, t: CapabilityToken, bits: u32) -> bool {
    &&& t.valid()
    &&& !(holds_id(tokens, t.token_id) && !resident_valid(tokens, t.token_id))
    &&& t.permissions & bits != 0
}

/// A token with the revoked flag added.
pub open spec fn with_revoked(t: CapabilityToken) -> CapabilityToken {
    CapabilityToken { flags: TokenFlags { bits: t.flags.bits | TokenFlags::REVOKED }, ..t }
}

/// The resident tokens after revoking `id`.
pub open spec fn revoke_all(tokens: Seq<CapabilityToken>, id: u32) -> Seq<CapabilityToken> {
    tokens.map_values(|t: CapabilityToken| if t.token_id == id { with_revoked(t) } else { t })
}

/// Whether `t` is the token issued for the given requester and grant under
/// `id`: no flag set, created at instant zero, living the default lifetime,
/// the signature zeroed.
pub open spec fn freshly_issued(
    t: CapabilityToken,
    id: u32,
    container_id: u32,
    app_id: u32,
    permissions: u32,
) -> bool {
    &&& t.token_id == id
    &&& t.container_id == container_id
    &&& t.app_id == app_id
    &&& t.permissions == permissions
    &&& t.flags.bits == 0
    &&& t.created_time == 0
    &&& t.expiry_time == DEFAULT_LIFETIME
    &&& forall|i: int| 0 <= i < 64 ==> #[trigger] t.signature[i] == 0u8
}

/// The pool of issued tokens. Slot `i` holds the token issued `i`-th, with
/// id `i + 1`; revoked tokens stay resident so that revocation stays
/// auditable.
pub struct CapabilityManager {
    tokens: Vec<CapabilityToken>,
    capacity: usize,
    next_token_id: u32,
}

impl View for CapabilityManager {
    type V = Seq<CapabilityToken>;

    /// The resident tokens, in order of issuance.
    closed spec fn view(&self) -> Seq<CapabilityToken> {
        self.tokens@
    }
}

impl CapabilityManager {
    /// The most tokens the pool holds.
    pub closed spec fn capacity(&self) -> nat {
        self.capacity as nat
    }

    /// The id that the next issued token receives.
    pub closed spec fn next_id(&self) -> nat {
        self.next_token_id as nat
    }

    /// Within capacity, and the token of slot `i` carries id `i + 1`.
    pub open spec fn wf(&self) -> bool {
        &&& self@.len() <= self.capacity()
        &&& self.capacity() < u32::MAX
        &&& self.next_id() == self@.len() + 1
        &&& forall|i: int| 0 <= i < self@.len() ==> #[trigger] self@[i].token_id == i + 1
    }

    /// A manager with the default capacity.
    pub fn new() -> (r: CapabilityManager)
        ensures
            r.wf(),
            r@.len() == 0,
            r.capacity() == MAX_TOKENS,
            r.next_id() == 1,
    {
        CapabilityManager::with_capacity(MAX_TOKENS)
    }

    /// An empty manager that holds at most `capacity` tokens.
    pub fn with_capacity(capacity: usize) -> (r: CapabilityManager)
        requires
            capacity < u32::MAX,
        ensures
            r.wf(),
            r@.len() == 0,
            r.capacity() == capacity,
            r.next_id() == 1,
    {
        CapabilityManager { tokens: Vec::new(), capacity, next_token_id: 1 }
    }

    /// Issues a token for the requester with the given permission word; fails
    /// with `NoMemory` exactly when the pool is full.
    pub fn create_token(&mut self, container_id: u32, app_id: u32, permissions: u32) -> (r:
        HalResult<CapabilityToken>)
        requires
            old(self).wf(),
        ensures
            final(self).wf(),
            final(self).capacity() == old(self).capacity(),
            old(self)@.len() >= old(self).capacity() ==> {
                &&& r == Err::<CapabilityToken, HalError>(HalError::NoMemory)
                &&& final(self)@ == old(self)@
                &&& final(self).next_id() == old(self).next_id()
            },
            old(self)@.len() < old(self).capacity() ==> {
                &&& r is Ok
                &&& freshly_issued(r->Ok_0, old(self).next_id() as u32, container_id, app_id, permissions)
                &&& final(self)@ == old(self)@.push(r->Ok_0)
                &&& final(self).next_id() == old(self).next_id() + 1
            },
            r matches Ok(t) ==> forall|i: int|
                0 <= i < old(self)@.len() ==> #[trigger] old(self)@[i].token_id < t.token_id,
    {
        if self.tokens.len() >= self.capacity {
            return Err(HalError::NoMemory);
        }
        let token_id = self.next_token_id;
        self.next_token_id = self.next_token_id + 1;
        let token = CapabilityToken::new(token_id, container_id, app_id, permissions, DEFAULT_LIFETIME);
        self.tokens.push(token);
        proof {
            assert forall|i: int| 0 <= i < self.tokens@.len() implies #[trigger] self.tokens@[i].token_id == i + 1 by {
                if i < self.tokens@.len() - 1 {
                    assert(self.tokens@[i] == old(self).tokens@[i]);
                }
            }
        }
        Ok(token)
    }

    /// Slot of the resident token carrying `token_id`.
    fn position_of(&self, token_id: u32) -> (r: Option<usize>)
        requires
            self.wf(),
        ensures
            r matches Some(i) ==> i < self@.len() && self@[i as int].token_id == token_id,
            r is None ==> !holds_id(self@, token_id),
    {
        let mut i: usize = 0;
        while i < self.tokens.len()
            invariant
                i <= self.tokens@.len(),
                forall|k: int| 0 <= k < i ==> #[trigger] self.tokens@[k].token_id != token_id,
            decreases self.tokens@.len() - i,
        {
            if self.tokens[i].token_id == token_id {
                return Some(i);
            }
            i = i + 1;
        }
        None
    }

    /// Checks a presented token: `PermissionDenied` when its own flags or
    /// those of its resident record mark it invalid, `InvalidArg` when no
    /// resident token carries its id.
    pub fn verify(&self, token: &CapabilityToken) -> (r: HalResult<()>)
        requires
            self.wf(),
        ensures
            r == verify_outcome(self@, *token),
    {
        if !token.is_valid() {
            return Err(HalError::PermissionDenied);
        }
        match self.position_of(token.token_id) {
            None => Err(HalError::InvalidArg),
            Some(i) => {
                let resident = &self.tokens[i];
                proof {
                    assert forall|k: int| 0 <= k < self@.len() && #[trigger] self@[k].token_id == token.token_id implies k == i by {}
                }
                if resident.is_valid() {
                    Ok(())
                } else {
                    Err(HalError::PermissionDenied)
                }
            },
        }
    }

    /// Marks the resident token carrying `token_id` revoked; `InvalidArg`
    /// when there is none. Revoking twice succeeds.
    pub fn revoke(&mut self, token_id: u32) -> (r: HalResult<()>)
        requires
            old(self).wf(),
        ensures
            final(self).wf(),
            final(self).capacity() == old(self).capacity(),
            final(self).next_id() == old(self).next_id(),
            r is Ok <==> holds_id(old(self)@, token_id),
            r is Ok ==> final(self)@ == revoke_all(old(self)@, token_id),
            final(self)@.len() == old(self)@.len(),
            forall|i: int| 0 <= i < old(self)@.len() ==> #[trigger] final(self)@[i].token_id == old(self)@[i].token_id,
            r is Err ==> r == Err::<(), HalError>(HalError::InvalidArg) && final(self)@ == old(self)@,
    {
        match self.position_of(token_id) {
            None => Err(HalError::InvalidArg),
            Some(i) => {
                let mut t = self.tokens[i];
                t.flags.insert(TokenFlags::REVOKED);
                self.tokens.set(i, t);
                proof {
                    assert forall|k: int| 0 <= k < self@.len() implies #[trigger] self@[k]
                        == (if old(self)@[k].token_id == token_id { with_revoked(old(self)@[k]) } else { old(self)@[k] }) by {
                        if k != i {
                            assert(old(self)@[k].token_id == k + 1);
                        }
                    }
                    assert(self@ =~= revoke_all(old(self)@, token_id));
                }
                Ok(())
            },
        }
    }

    /// Whether the presented token grants a bit of `permission`: false when
    /// its own flags, or those of the resident record under its id, mark it
    /// invalid.
    pub fn check_permission(&self, token: &CapabilityToken, permission: Permission) -> (r: bool)
        requires
            self.wf(),
        ensures
            r == permitted(self@, *token, permission.bits),
    {
        if !token.is_valid() {
            return false;
        }
        match self.position_of(token.token_id) {
            Some(i) => {
                proof {
                    assert forall|k: int| 0 <= k < self@.len() && #[trigger] self@[k].token_id == token.token_id implies k == i by {}
                }
                if !self.tokens[i].is_valid() {
                    return false;
                }
            },
            None => {},
        }
        token.permissions & permission.bits() != 0
    }
}

/// Ids only grow: resident tokens carry strictly increasing ids in slot
/// order, all below the id that the next issuance receives. As `create_token`
/// hands out `next_id()` and raises it, and no operation removes a resident
/// token or changes its id, no id is ever issued twice.
pub proof fn lemma_ids_increasing(m: CapabilityManager)
    requires
        m.wf(),
    ensures
        forall|i: int, j: int| 0 <= i < j < m@.len() ==> m@[i].token_id < m@[j].token_id,
        forall|i: int| 0 <= i < m@.len() ==> #[trigger] m@[i].token_id < m.next_id(),
        !holds_id(m@, m.next_id() as u32),
{
    assert forall|i: int, j: int| 0 <= i < j < m@.len() implies m@[i].token_id < m@[j].token_id by {
        assert(m@[i].token_id == i + 1);
        assert(m@[j].token_id == j + 1);
    }
}

/// A token just issued verifies against the pool that now holds it.
pub proof fn lemma_fresh_token_verifies(
    before: CapabilityManager,
    after: CapabilityManager,
    t: CapabilityToken,
    container_id: u32,
    app_id: u32,
    permissions: u32,
)
    requires
        before.wf(),
        after.wf(),
        freshly_issued(t, before.next_id() as u32, container_id, app_id, permissions),
        after@ == before@.push(t),
    ensures
        verify_outcome(after@, t) == Ok::<(), HalError>(()),
{
    let i = before@.len() as int;
    assert(after@[i] == t);
    assert(t.flags.bits == 0);
    assert(0u32 & TokenFlags::EXPIRED == 0 && 0u32 & TokenFlags::REVOKED == 0) by (bit_vector);
}

/// Once `id` is revoked, every token presented under that id is refused
/// with `PermissionDenied` and grants no permission bit.
pub proof fn lemma_revoked_is_denied(before: CapabilityManager, id: u32, t: CapabilityToken, bits: u32)
    requires
        before.wf(),
        holds_id(before@, id),
        t.token_id == id,
    ensures
        verify_outcome(revoke_all(before@, id), t) == Err::<(), HalError>(HalError::PermissionDenied),
        !permitted(revoke_all(before@, id), t, bits),
{
    let after = revoke_all(before@, id);
    let i = choose|i: int| 0 <= i < before@.len() && #[trigger] before@[i].token_id == id;
    assert(after[i].token_id == id);
    assert forall|k: int| 0 <= k < after.len() && #[trigger] after[k].token_id == id implies !after[k].valid() by {
        let b = before@[k].flags.bits;
        assert((b | TokenFlags::REVOKED) & TokenFlags::REVOKED == TokenFlags::REVOKED) by (bit_vector);
    }
}

/// Revocation is idempotent: revoking an id a second time leaves the pool as
/// the first revocation left it, and the id stays resident, so the second
/// call succeeds too.
pub proof fn lemma_revoke_idempotent(tokens: Seq<CapabilityToken>, id: u32)
    ensures
        holds_id(revoke_all(tokens, id), id) == holds_id(tokens, id),
        revoke_all(revoke_all(tokens, id), id) == revoke_all(tokens, id),
{
    let once = revoke_all(tokens, id);
    if holds_id(tokens, id) {
        let i = choose|i: int| 0 <= i < tokens.len() && #[trigger] tokens[i].token_id == id;
        assert(once[i].token_id == id);
    }
    if holds_id(once, id) {
        let i = choose|i: int| 0 <= i < once.len() && #[trigger] once[i].token_id == id;
        assert(tokens[i].token_id == id);
    }
    assert forall|k: int| 0 <= k < once.len() implies #[trigger] revoke_all(once, id)[k] == once[k] by {
        if tokens[k].token_id == id {
            let b = tokens[k].flags.bits;
            assert((b | TokenFlags::REVOKED) | TokenFlags::REVOKED == b | TokenFlags::REVOKED) by (bit_vector);
        }
    }
    assert(revoke_all(once, id) =~= once);
}

} // verus!
