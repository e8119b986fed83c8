use parkat::addressing::{derive_tenant_address, derive_user_entry_address, derive_vault_address};

#[test]
fn test_derivation_is_deterministic() {
    let program_id = [1u8; 32];
    let admin = [7u8; 32];
    let first = derive_tenant_address(&program_id, &admin).expect("a viable bump exists");
    let second = derive_tenant_address(&program_id, &admin).expect("a viable bump exists");
    assert_eq!(first.0, second.0);
    assert_eq!(first.1, second.1);
    assert_eq!(first.0.len(), 32);
}

#[test]
fn test_derivation_does_work() {
    // The derived address is a digest of the seeds, not any seed echoed back.
    let program_id = [1u8; 32];
    let admin = [7u8; 32];
    let (addr, _) = derive_tenant_address(&program_id, &admin).expect("a viable bump exists");
    assert_ne!(addr.as_slice(), admin.as_slice());
    assert_ne!(addr.as_slice(), program_id.as_slice());
}

#[test]
fn test_derivation_separates_domains() {
    // The entry and its vault are derived from the same owner keys but
    // different domain tags, so their addresses differ.
    let program_id = [1u8; 32];
    let tenant = [5u8; 32];
    let user = [3u8; 32];
    let entry = derive_user_entry_address(&program_id, &tenant, &user).expect("a viable bump");
    let vault = derive_vault_address(&program_id, &tenant, &user).expect("a viable bump");
    assert_ne!(entry.0, vault.0);
}

#[test]
fn test_derivation_separates_owners() {
    let program_id = [1u8; 32];
    let admin_a = [7u8; 32];
    let admin_b = [8u8; 32];
    let a = derive_tenant_address(&program_id, &admin_a).expect("a viable bump");
    let b = derive_tenant_address(&program_id, &admin_b).expect("a viable bump");
    assert_ne!(a.0, b.0);
}

#[test]
fn test_derivation_separates_programs() {
    let admin = [7u8; 32];
    let pid_a = [1u8; 32];
    let pid_b = [2u8; 32];
    let a = derive_tenant_address(&pid_a, &admin).expect("a viable bump");
    let b = derive_tenant_address(&pid_b, &admin).expect("a viable bump");
    assert_ne!(a.0, b.0);
}
