use parkat::errors::LedgerError;
use parkat::ledger::Ledger;

fn setup_entry(ledger: &mut Ledger, admin: &[u8; 32], user: &[u8; 32]) {
    let name = b"downtown garage".to_vec();
    ledger.init_tenant(admin, &name, 254, 1_700_000_000).unwrap();
    let plate = b"ABC123".to_vec();
    ledger
        .init_user(user, admin, &plate, 253, 252, 1_700_000_000)
        .unwrap();
}

#[test]
fn test_init_tenant() {
    let mut ledger = Ledger::new(100);
    let admin = [7u8; 32];

    // An empty name is rejected up front.
    let empty: Vec<u8> = Vec::new();
    assert_eq!(
        ledger.init_tenant(&admin, &empty, 254, 5),
        Err(LedgerError::EmptyName)
    );

    let name = b"downtown garage".to_vec();
    assert_eq!(ledger.init_tenant(&admin, &name, 254, 5), Ok(()));

    let t = match ledger.lookup_tenant(&admin) {
        Ok(t) => t,
        Err(_) => panic!("tenant should exist"),
    };
    assert_eq!(t.admin, admin);
    assert_eq!(t.created_at, 5);
    assert_eq!(t.bump, 254);
    // Name is truncated/zero-padded into the fixed 32-byte field.
    assert_eq!(&t.name[..name.len()], &name[..]);
    assert!(t.name[name.len()..].iter().all(|&b| b == 0));

    // Create-once per admin: the second attempt fails and the first record
    // is left unchanged.
    let other_name = b"other".to_vec();
    assert_eq!(
        ledger.init_tenant(&admin, &other_name, 200, 99),
        Err(LedgerError::AlreadyExists)
    );
    let t2 = match ledger.lookup_tenant(&admin) {
        Ok(t) => t,
        Err(_) => panic!("tenant should still exist"),
    };
    assert_eq!(t2.created_at, 5);
    assert_eq!(&t2.name[..name.len()], &name[..]);

    // A different admin is a different tenant.
    let unknown = [9u8; 32];
    assert!(matches!(
        ledger.lookup_tenant(&unknown),
        Err(LedgerError::NotFound)
    ));
}

#[test]
fn test_init_user() {
    let mut ledger = Ledger::new(100);
    let admin = [7u8; 32];
    let user = [3u8; 32];
    let plate = b"ABC123".to_vec();

    // The tenant must already exist.
    assert_eq!(
        ledger.init_user(&user, &admin, &plate, 253, 252, 10),
        Err(LedgerError::NotFound)
    );

    let name = b"downtown garage".to_vec();
    ledger.init_tenant(&admin, &name, 254, 5).unwrap();

    let empty: Vec<u8> = Vec::new();
    assert_eq!(
        ledger.init_user(&user, &admin, &empty, 253, 252, 10),
        Err(LedgerError::EmptyPlate)
    );

    assert_eq!(ledger.init_user(&user, &admin, &plate, 253, 252, 10), Ok(()));

    let e = match ledger.lookup_entry(&admin, &user) {
        Ok(e) => e,
        Err(_) => panic!("entry should exist"),
    };
    assert_eq!(e.user, user);
    assert_eq!(e.tenant, admin);
    assert_eq!(e.amount, 0);
    assert!(!e.is_parked);
    assert_eq!(e.vault_bump, 253);
    assert_eq!(e.state_bump, 252);
    assert_eq!(&e.number_plate[..plate.len()], &plate[..]);
    assert!(e.number_plate[plate.len()..].iter().all(|&b| b == 0));

    // The paired vault is reserved empty.
    assert_eq!(ledger.vault_value(&admin, &user), Ok(0));

    // One entry per (tenant, user) pair.
    assert_eq!(
        ledger.init_user(&user, &admin, &plate, 1, 2, 11),
        Err(LedgerError::AlreadyExists)
    );
}

#[test]
fn test_deposit_by_user() {
    let mut ledger = Ledger::new(100);
    let admin = [7u8; 32];
    let user = [3u8; 32];
    setup_entry(&mut ledger, &admin, &user);

    // A zero deposit is rejected.
    assert_eq!(
        ledger.deposit(&admin, &user, 0),
        Err(LedgerError::InvalidDepositAmount)
    );

    // Depositing into a missing entry is rejected.
    let unknown = [9u8; 32];
    assert_eq!(
        ledger.deposit(&admin, &unknown, 5),
        Err(LedgerError::NotFound)
    );

    // Scenario: from a zero balance, a deposit of 1_000_000_000 leaves both
    // the tracked balance and the vault at exactly 1_000_000_000.
    assert_eq!(ledger.deposit(&admin, &user, 1_000_000_000), Ok(()));
    let e = ledger.lookup_entry(&admin, &user).ok().unwrap();
    assert_eq!(e.amount, 1_000_000_000);
    assert_eq!(ledger.vault_value(&admin, &user), Ok(1_000_000_000));
}

#[test]
fn test_deposit_overflow_guard() {
    let mut ledger = Ledger::new(100);
    let admin = [7u8; 32];
    let user = [3u8; 32];
    setup_entry(&mut ledger, &admin, &user);

    assert_eq!(ledger.deposit(&admin, &user, u64::MAX), Ok(()));

    // A deposit that would push the balance past the 64-bit range fails and
    // leaves both the balance and the vault unchanged.
    assert_eq!(
        ledger.deposit(&admin, &user, 1),
        Err(LedgerError::ArithmeticOverflow)
    );
    let e = ledger.lookup_entry(&admin, &user).ok().unwrap();
    assert_eq!(e.amount, u64::MAX);
    assert_eq!(ledger.vault_value(&admin, &user), Ok(u64::MAX));
}

#[test]
fn test_record_parking_start() {
    let mut ledger = Ledger::new(100);
    let admin = [7u8; 32];
    let user = [3u8; 32];
    setup_entry(&mut ledger, &admin, &user);

    assert_eq!(ledger.record_parking_start(&admin, &user, 42), Ok(()));
    let e = ledger.lookup_entry(&admin, &user).ok().unwrap();
    assert!(e.is_parked);
    assert_eq!(e.time_stamp, 42);

    // Session exclusivity: starting again while parked fails and changes
    // nothing.
    assert_eq!(
        ledger.record_parking_start(&admin, &user, 99),
        Err(LedgerError::AlreadyParked)
    );
    let e2 = ledger.lookup_entry(&admin, &user).ok().unwrap();
    assert!(e2.is_parked);
    assert_eq!(e2.time_stamp, 42);

    let unknown = [9u8; 32];
    assert_eq!(
        ledger.record_parking_start(&admin, &unknown, 42),
        Err(LedgerError::NotFound)
    );
}

#[test]
fn test_process_exit() {
    let mut ledger = Ledger::new(100);
    let admin = [7u8; 32];
    let user = [3u8; 32];
    setup_entry(&mut ledger, &admin, &user);

    // Session exclusivity: exiting while idle fails.
    assert_eq!(
        ledger.process_exit(&admin, &user, 600),
        Err(LedgerError::NotCurrentlyParked)
    );

    ledger.deposit(&admin, &user, 5000).unwrap();
    ledger.record_parking_start(&admin, &user, 0).unwrap();

    // Scenario: parked at 0, exiting at 600 seconds (10 minutes) at a rate of
    // 100 per minute settles a fee of exactly 1000.
    assert_eq!(ledger.process_exit(&admin, &user, 600), Ok(1000));
    let e = ledger.lookup_entry(&admin, &user).ok().unwrap();
    assert!(!e.is_parked);
    assert_eq!(e.amount, 4000);
    assert_eq!(ledger.vault_value(&admin, &user), Ok(4000));
}

#[test]
fn test_process_exit_insufficient_vault() {
    let mut ledger = Ledger::new(100);
    let admin = [7u8; 32];
    let user = [3u8; 32];
    setup_entry(&mut ledger, &admin, &user);

    ledger.deposit(&admin, &user, 10).unwrap();
    ledger.record_parking_start(&admin, &user, 0).unwrap();

    // Scenario: the ten-minute fee (1000) exceeds the vault's 10; the exit
    // fails and the balance, the vault, and the session flag are all
    // unchanged.
    assert_eq!(
        ledger.process_exit(&admin, &user, 600),
        Err(LedgerError::InsufficientVaultBalance)
    );
    let e = ledger.lookup_entry(&admin, &user).ok().unwrap();
    assert!(e.is_parked);
    assert_eq!(e.amount, 10);
    assert_eq!(ledger.vault_value(&admin, &user), Ok(10));
}

#[test]
fn test_process_exit_short_stay_is_free() {
    let mut ledger = Ledger::new(100);
    let admin = [7u8; 32];
    let user = [3u8; 32];
    setup_entry(&mut ledger, &admin, &user);

    ledger.deposit(&admin, &user, 50).unwrap();
    ledger.record_parking_start(&admin, &user, 0).unwrap();

    // Under whole-minute billing a 59-second stay costs nothing, and the
    // session still closes.
    assert_eq!(ledger.process_exit(&admin, &user, 59), Ok(0));
    let e = ledger.lookup_entry(&admin, &user).ok().unwrap();
    assert!(!e.is_parked);
    assert_eq!(e.amount, 50);
    assert_eq!(ledger.vault_value(&admin, &user), Ok(50));
}

#[test]
fn test_process_exit_clock_regression() {
    let mut ledger = Ledger::new(100);
    let admin = [7u8; 32];
    let user = [3u8; 32];
    setup_entry(&mut ledger, &admin, &user);

    ledger.deposit(&admin, &user, 50).unwrap();
    ledger.record_parking_start(&admin, &user, 100).unwrap();

    assert_eq!(
        ledger.process_exit(&admin, &user, 50),
        Err(LedgerError::InvalidParkingDuration)
    );
    let e = ledger.lookup_entry(&admin, &user).ok().unwrap();
    assert!(e.is_parked);
    assert_eq!(e.amount, 50);
}

#[test]
fn test_sessions_are_reusable() {
    // The session state machine is cyclic: idle -> parked -> idle, repeatedly.
    let mut ledger = Ledger::new(100);
    let admin = [7u8; 32];
    let user = [3u8; 32];
    setup_entry(&mut ledger, &admin, &user);
    ledger.deposit(&admin, &user, 1000).unwrap();

    ledger.record_parking_start(&admin, &user, 0).unwrap();
    assert_eq!(ledger.process_exit(&admin, &user, 60), Ok(100));
    ledger.record_parking_start(&admin, &user, 60).unwrap();
    assert_eq!(ledger.process_exit(&admin, &user, 180), Ok(200));

    let e = ledger.lookup_entry(&admin, &user).ok().unwrap();
    assert_eq!(e.amount, 700);
    assert_eq!(ledger.vault_value(&admin, &user), Ok(700));
    assert!(!e.is_parked);
}
