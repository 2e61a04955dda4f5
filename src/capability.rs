//! Capability tokens: issuance, verification and revocation of scoped grants.
pub mod manager;
pub mod permissions;
pub mod token;

use vstd::prelude::*;

use crate::capability::manager::{permitted, verify_outcome, CapabilityManager};
use crate::capability::permissions::Permission;
use crate::capability::token::CapabilityToken;
use crate::error::{HalError, HalResult};

verus! {

/// The entry point that other subsystems call to obtain and check tokens; it
/// keeps no state of its own beside the manager.
pub struct CapabilitySystem {
    manager: CapabilityManager,
}

impl CapabilitySystem {
    /// The manager behind the facade.
    pub closed spec fn manager(&self) -> CapabilityManager {
        self.manager
    }

    /// A system over a manager of the default capacity.
    pub fn new() -> (r: CapabilitySystem)
        ensures
            r.manager().wf(),
            r.manager()@.len() == 0,
            r.manager().capacity() == manager::MAX_TOKENS,
            r.manager().next_id() == 1,
    {
        CapabilitySystem { manager: CapabilityManager::new() }
    }

    /// Issues a token; see `CapabilityManager::create_token`.
    pub fn request_token(&mut self, container_id: u32, app_id: u32, permissions: u32) -> (r:
        HalResult<CapabilityToken>)
        requires
            old(self).manager().wf(),
        ensures
            final(self).manager().wf(),
            final(self).manager().capacity() == old(self).manager().capacity(),
            old(self).manager()@.len() >= old(self).manager().capacity() ==> {
                &&& r == Err::<CapabilityToken, HalError>(HalError::NoMemory)
                &&& final(self).manager()@ == old(self).manager()@
                &&& final(self).manager().next_id() == old(self).manager().next_id()
            },
            old(self).manager()@.len() < old(self).manager().capacity() ==> {
                &&& r is Ok
                &&& manager::freshly_issued(
                    r->Ok_0,
                    old(self).manager().next_id() as u32,
                    container_id,
                    app_id,
                    permissions,
                )
                &&& final(self).manager()@ == old(self).manager()@.push(r->Ok_0)
                &&& final(self).manager().next_id() == old(self).manager().next_id() + 1
            },
            r matches Ok(t) ==> forall|i: int|
                0 <= i < old(self).manager()@.len() ==> #[trigger] old(self).manager()@[i].token_id
                    < t.token_id,
    {
        self.manager.create_token(container_id, app_id, permissions)
    }

    /// Checks a presented token; see `CapabilityManager::verify`.
    pub fn verify_token(&self, token: &CapabilityToken) -> (r: HalResult<()>)
        requires
            self.manager().wf(),
        ensures
            r == verify_outcome(self.manager()@, *token),
    {
        self.manager.verify(token)
    }

    /// Revokes a resident token; see `CapabilityManager::revoke`.
    pub fn revoke_token(&mut self, token_id: u32) -> (r: HalResult<()>)
        requires
            old(self).manager().wf(),
        ensures
            final(self).manager().wf(),
            final(self).manager().capacity() == old(self).manager().capacity(),
            final(self).manager().next_id() == old(self).manager().next_id(),
            r is Ok <==> manager::holds_id(old(self).manager()@, token_id),
            r is Ok ==> final(self).manager()@ == manager::revoke_all(old(self).manager()@, token_id),
            final(self).manager()@.len() == old(self).manager()@.len(),
            forall|i: int|
                0 <= i < old(self).manager()@.len() ==> #[trigger] final(self).manager()@[i].token_id
                    == old(self).manager()@[i].token_id,
            r is Err ==> r == Err::<(), HalError>(HalError::InvalidArg) && final(self).manager()@
                == old(self).manager()@,
    {
        self.manager.revoke(token_id)
    }

    /// Whether the presented token grants a bit of `permission`; see
    /// `CapabilityManager::check_permission`.
    pub fn has_permission(&self, token: &CapabilityToken, permission: Permission) -> (r: bool)
        requires
            self.manager().wf(),
        ensures
            r == permitted(self.manager()@, *token, permission.bits),
    {
        self.manager.check_permission(token, permission)
    }
}

} // verus!
