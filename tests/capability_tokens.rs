use kernel_hal::capability::manager::{CapabilityManager, DEFAULT_LIFETIME};
use kernel_hal::capability::permissions::Permission;
use kernel_hal::capability::token::{CapabilityToken, TokenFlags};
use kernel_hal::capability::CapabilitySystem;
use kernel_hal::error::HalError;

const ALL_BITS: [u32; 9] = [
    Permission::READ,
    Permission::WRITE,
    Permission::EXECUTE,
    Permission::ADMIN,
    Permission::CAPTURE,
    Permission::PLAYBACK,
    Permission::MIXER,
    Permission::REALTIME,
    Permission::PASSTHROUGH,
];

#[test]
fn capacity_two_scenario() {
    let mut m = CapabilityManager::with_capacity(2);
    let t1 = m.create_token(1, 1, Permission::READ).unwrap();
    let t2 = m.create_token(1, 2, Permission::WRITE).unwrap();
    assert_eq!(t1.token_id, 1);
    assert_eq!(t2.token_id, 2);
    assert_eq!(m.create_token(1, 3, Permission::READ).unwrap_err(), HalError::NoMemory);
    assert_eq!(m.revoke(1), Ok(()));
    assert_eq!(m.verify(&t1), Err(HalError::PermissionDenied));
    assert_eq!(m.verify(&t2), Ok(()));
}

#[test]
fn issued_ids_strictly_increase() {
    let mut m = CapabilityManager::new();
    let mut last = 0u32;
    for i in 0..50u32 {
        let t = m.create_token(i, i + 1, Permission::READ).unwrap();
        assert!(t.token_id > last);
        last = t.token_id;
        if i % 3 == 0 {
            assert_eq!(m.revoke(t.token_id), Ok(()));
        }
    }
    assert_eq!(last, 50);
}

#[test]
fn no_memory_exactly_at_capacity() {
    let mut empty = CapabilityManager::with_capacity(0);
    assert_eq!(empty.create_token(1, 1, 1).unwrap_err(), HalError::NoMemory);

    let mut m = CapabilityManager::with_capacity(3);
    for _ in 0..3 {
        assert!(m.create_token(4, 5, Permission::ADMIN).is_ok());
    }
    assert_eq!(m.create_token(4, 5, Permission::ADMIN).unwrap_err(), HalError::NoMemory);
    assert_eq!(m.revoke(2), Ok(()));
    assert_eq!(m.create_token(4, 5, Permission::ADMIN).unwrap_err(), HalError::NoMemory);
}

#[test]
fn fresh_token_fields() {
    let mut m = CapabilityManager::new();
    let t = m.create_token(11, 22, Permission::READ | Permission::MIXER).unwrap();
    assert_eq!(t.token_id, 1);
    assert_eq!(t.container_id, 11);
    assert_eq!(t.app_id, 22);
    assert_eq!(t.permissions, 0x41);
    assert_eq!(t.flags.bits(), 0);
    assert_eq!(t.created_time, 0);
    assert_eq!(t.expiry_time, DEFAULT_LIFETIME);
    assert_eq!(t.expiry_time, 3600);
    assert!(t.signature.iter().all(|b| *b == 0));
    assert!(t.is_valid());
}

#[test]
fn revoked_token_is_denied_everything() {
    let mut sys = CapabilitySystem::new();
    let every = ALL_BITS.iter().fold(0, |a, b| a | b);
    let t = sys.request_token(3, 4, every).unwrap();
    assert_eq!(sys.verify_token(&t), Ok(()));
    for bit in ALL_BITS {
        assert!(sys.has_permission(&t, Permission::from_bits_retain(bit)));
    }
    assert_eq!(sys.revoke_token(t.token_id), Ok(()));
    assert_eq!(sys.verify_token(&t), Err(HalError::PermissionDenied));
    for bit in ALL_BITS {
        assert!(!sys.has_permission(&t, Permission::from_bits_retain(bit)));
    }
}

#[test]
fn revoke_is_idempotent_and_rejects_unknown_ids() {
    let mut m = CapabilityManager::new();
    let t = m.create_token(1, 1, Permission::READ).unwrap();
    assert_eq!(m.revoke(t.token_id), Ok(()));
    assert_eq!(m.revoke(t.token_id), Ok(()));
    assert_eq!(m.revoke(99), Err(HalError::InvalidArg));
    assert_eq!(m.revoke(0), Err(HalError::InvalidArg));
}

#[test]
fn verify_checks_flags_then_residency() {
    let mut m = CapabilityManager::new();
    let t = m.create_token(1, 1, Permission::READ).unwrap();
    let forged = CapabilityToken::new(77, 1, 1, Permission::READ, 10);
    assert_eq!(m.verify(&forged), Err(HalError::InvalidArg));

    let mut expired = forged;
    expired.flags.insert(TokenFlags::EXPIRED);
    assert!(expired.is_expired());
    assert_eq!(m.verify(&expired), Err(HalError::PermissionDenied));

    let mut revoked_copy = t;
    revoked_copy.flags.insert(TokenFlags::REVOKED);
    assert!(revoked_copy.is_revoked());
    assert!(!revoked_copy.is_valid());
    assert_eq!(m.verify(&revoked_copy), Err(HalError::PermissionDenied));
    assert_eq!(m.verify(&t), Ok(()));
}

#[test]
fn permission_checks_the_requested_bit() {
    let mut m = CapabilityManager::new();
    let t = m.create_token(1, 1, Permission::READ | Permission::CAPTURE).unwrap();
    assert!(m.check_permission(&t, Permission::from_bits_retain(Permission::READ)));
    assert!(m.check_permission(&t, Permission::from_bits_retain(Permission::CAPTURE)));
    assert!(!m.check_permission(&t, Permission::from_bits_retain(Permission::WRITE)));
    assert!(!m.check_permission(&t, Permission::from_bits_retain(0)));
    // validity comes from the flags, and from the resident record when there is one
    let unissued = CapabilityToken::new(500, 1, 1, Permission::READ, 10);
    assert!(m.check_permission(&unissued, Permission::from_bits_retain(Permission::READ)));
    assert!(!m.check_permission(&unissued, Permission::from_bits_retain(Permission::WRITE)));
    let mut expired = unissued;
    expired.flags.insert(TokenFlags::EXPIRED);
    assert!(!m.check_permission(&expired, Permission::from_bits_retain(Permission::READ)));
    m.revoke(t.token_id).unwrap();
    assert!(!m.check_permission(&t, Permission::from_bits_retain(Permission::READ)));
}

#[test]
fn token_new_sets_expiry_from_lifetime() {
    let t = CapabilityToken::new(9, 8, 7, 6, 120);
    assert_eq!(t.token_id, 9);
    assert_eq!(t.container_id, 8);
    assert_eq!(t.app_id, 7);
    assert_eq!(t.permissions, 6);
    assert_eq!(t.created_time, 0);
    assert_eq!(t.expiry_time, 120);
    assert!(!t.is_expired());
    assert!(!t.is_revoked());
}

#[test]
fn token_flags_insert_and_contains() {
    let mut f = TokenFlags::empty();
    assert!(!f.contains(TokenFlags::SIGNED));
    f.insert(TokenFlags::SIGNED);
    f.insert(TokenFlags::RESTRICTED);
    assert_eq!(f.bits(), 0x09);
    assert!(f.contains(TokenFlags::SIGNED | TokenFlags::RESTRICTED));
    assert!(!f.contains(TokenFlags::REVOKED));
}

#[test]
fn permission_names() {
    let names = [
        "READ", "WRITE", "EXECUTE", "ADMIN", "CAPTURE", "PLAYBACK", "MIXER", "REALTIME",
        "PASSTHROUGH",
    ];
    for (bit, name) in ALL_BITS.iter().zip(names.iter()) {
        assert_eq!(Permission::from_bits_retain(*bit).name(), *name);
    }
    assert_eq!(Permission::from_bits_retain(0).name(), "UNKNOWN");
    assert_eq!(Permission::from_bits_retain(0x03).name(), "UNKNOWN");
    assert_eq!(Permission::from_bits_retain(0x200).name(), "UNKNOWN");
}

#[test]
fn permission_set_operations() {
    let rw = Permission::from_bits_retain(Permission::READ).union(Permission::from_bits_retain(Permission::WRITE));
    assert_eq!(rw.bits(), 0x03);
    let w = rw.intersection(Permission::from_bits_retain(Permission::WRITE | Permission::ADMIN));
    assert_eq!(w.bits(), Permission::WRITE);
    assert!(rw.contains(w));
    assert!(!w.contains(rw));
}
