use admin_authority::{Account, AccountId, AccountWithMetadata, AdminCandidate, AdminConfig, AdminError};

fn acct(id_byte: u8, signed: bool) -> AccountWithMetadata {
    AccountWithMetadata {
        account: Account::default(),
        is_authorized: signed,
        account_id: AccountId::new([id_byte; 32]),
    }
}

// An account whose data is `len` bytes of 0xAA sentinel.
fn sentinel_acct(len: usize) -> AccountWithMetadata {
    AccountWithMetadata {
        account: Account {
            data: vec![0xAA; len],
            ..Account::default()
        },
        is_authorized: false,
        account_id: AccountId::new([9; 32]),
    }
}

// The address LEZ derives for program [7; 8] and seed [9; 32], as the
// framework boundary supplies it with a `Pda` candidate.
fn derived_pda() -> AccountId {
    AccountId::new([0x5D; 32])
}

#[test]
fn perform_transfer_at_preserves_neighbors_and_installs_new_admin() {
    let mut config_account = sentinel_acct(72);
    let old_admin = acct(1, true);
    let new_admin = acct(2, true);
    AdminConfig::bootstrap_at(&mut config_account, 8, AdminCandidate::Signer, &old_admin)
        .expect("bootstrap must succeed");

    AdminConfig::perform_transfer_at(
        &mut config_account,
        8,
        &old_admin,
        AdminCandidate::Signer,
        &new_admin,
    )
    .expect("transfer at offset 8 must succeed");

    let data = &config_account.account.data;
    assert!(data[..8].iter().all(|b| *b == 0xAA), "prefix trampled");
    assert!(data[40..].iter().all(|b| *b == 0xAA), "suffix trampled");
    let cfg = AdminConfig::from_account_at(&config_account, 8).unwrap();
    assert!(cfg.assert_admin(&new_admin).is_ok());
    assert_eq!(cfg.assert_admin(&old_admin), Err(AdminError::NotAdmin));
}

#[test]
fn perform_renounce_at_preserves_neighbors_and_is_terminal() {
    let mut config_account = sentinel_acct(72);
    let admin = acct(1, true);
    AdminConfig::bootstrap_at(&mut config_account, 8, AdminCandidate::Signer, &admin)
        .expect("bootstrap must succeed");

    AdminConfig::perform_renounce_at(&mut config_account, 8, &admin)
        .expect("renounce at offset 8 must succeed");

    let data = &config_account.account.data;
    assert!(data[..8].iter().all(|b| *b == 0xAA), "prefix trampled");
    assert!(data[40..].iter().all(|b| *b == 0xAA), "suffix trampled");
    let cfg = AdminConfig::from_account_at(&config_account, 8).unwrap();
    assert_eq!(cfg.assert_admin(&admin), Err(AdminError::Renounced));
}

#[test]
fn dedicated_perform_transfer_delegates_to_offset_zero() {
    let mut config_account = acct(9, false);
    let old_admin = acct(1, true);
    let new_admin = acct(2, true);
    AdminConfig::bootstrap(&mut config_account, AdminCandidate::Signer, &old_admin)
        .expect("dedicated bootstrap must succeed");
    AdminConfig::perform_transfer(
        &mut config_account,
        &old_admin,
        AdminCandidate::Signer,
        &new_admin,
    )
    .expect("dedicated transfer must succeed");
    let cfg = AdminConfig::from_account(&config_account).unwrap();
    assert!(cfg.assert_admin(&new_admin).is_ok());
}

#[test]
fn bootstrap_at_splices_at_offset_preserving_neighbors() {
    let mut config_account = sentinel_acct(72);
    let signer = acct(1, true);
    AdminConfig::bootstrap_at(&mut config_account, 8, AdminCandidate::Signer, &signer)
        .expect("bootstrap at offset 8 must succeed");
    let data = &config_account.account.data;
    assert!(data[..8].iter().all(|b| *b == 0xAA), "prefix trampled");
    assert!(data[40..].iter().all(|b| *b == 0xAA), "suffix trampled");
    let cfg = AdminConfig::from_account_at(&config_account, 8).unwrap();
    assert!(cfg.assert_admin(&signer).is_ok());
}

#[test]
fn decode_at_empty_data_is_not_initialized() {
    assert_eq!(
        AdminConfig::decode_at(&[], 8),
        Err(AdminError::NotInitialized)
    );
}

#[test]
fn decode_at_short_data_is_slot_out_of_bounds() {
    let data = [0u8; 20];
    assert_eq!(
        AdminConfig::decode_at(&data, 0),
        Err(AdminError::SlotOutOfBounds)
    );
}

#[test]
fn bootstrap_at_on_empty_account_is_slot_out_of_bounds() {
    // The consumer forgot to write their struct before bootstrapping:
    // empty data cannot cover the window, loud error instead of a
    // silent resize.
    let mut config_account = acct(7, false);
    let signer = acct(1, true);
    assert_eq!(
        AdminConfig::bootstrap_at(&mut config_account, 32, AdminCandidate::Signer, &signer),
        Err(AdminError::SlotOutOfBounds)
    );
}

#[test]
fn initialize_sets_admin() {
    let cfg = AdminConfig::initialize(AccountId::new([1; 32])).unwrap();
    assert_eq!(cfg.slot().holder(), AccountId::new([1; 32]));
}

#[test]
fn initialize_rejects_default_account_id() {
    assert_eq!(
        AdminConfig::initialize(AccountId::default()),
        Err(AdminError::InvalidCandidate)
    );
}

#[test]
fn assert_admin_accepts_admin() {
    let cfg = AdminConfig::initialize(AccountId::new([1; 32])).unwrap();
    let signer = acct(1, true);
    assert_eq!(cfg.assert_admin(&signer), Ok(()));
}

#[test]
fn assert_admin_rejects_wrong_signer() {
    let cfg = AdminConfig::initialize(AccountId::new([1; 32])).unwrap();
    let signer = acct(2, true);
    assert_eq!(cfg.assert_admin(&signer), Err(AdminError::NotAdmin))
}

#[test]
fn assert_admin_rejects_unsigned() {
    let cfg = AdminConfig::initialize(AccountId::new([1; 32])).unwrap();
    let signer = acct(1, false);
    assert_eq!(cfg.assert_admin(&signer), Err(AdminError::MissingSignature))
}

#[test]
fn assert_admin_rejects_renounced() {
    let mut cfg = AdminConfig::initialize(AccountId::new([1; 32])).unwrap();
    let signer = acct(1, true);
    cfg.renounce(&signer).unwrap();
    assert_eq!(cfg.assert_admin(&signer), Err(AdminError::Renounced))
}

#[test]
fn transfer_updates_admin() {
    let mut cfg = AdminConfig::initialize(AccountId::new([1; 32])).unwrap();
    let signer = acct(1, true);
    let new_admin = acct(2, true);
    cfg.transfer(&signer, AdminCandidate::Signer, &new_admin)
        .unwrap();
    assert_eq!(cfg.assert_admin(&new_admin), Ok(()));
}

#[test]
fn transfer_rejects_non_admin_caller() {
    let mut cfg = AdminConfig::initialize(AccountId::new([1; 32])).unwrap();
    let signer = acct(2, true);
    let new_admin = acct(3, true);
    assert_eq!(
        cfg.transfer(&signer, AdminCandidate::Signer, &new_admin),
        Err(AdminError::NotAdmin)
    )
}

#[test]
fn transfer_rejects_unsigned_candidate() {
    let mut cfg = AdminConfig::initialize(AccountId::new([1; 32])).unwrap();
    let signer = acct(1, true);
    let new_admin = acct(2, false);
    assert_eq!(
        cfg.transfer(&signer, AdminCandidate::Signer, &new_admin),
        Err(AdminError::InvalidCandidate)
    );
}

#[test]
fn transfer_to_pda_validates_deployed() {
    let signer = acct(1, true);
    let mut cfg = AdminConfig::initialize(signer.account_id).unwrap();
    let (program_id, seed) = ([7; 8], [9; 32]);
    let pda_account = AccountWithMetadata {
        account: Account {
            program_owner: program_id,
            balance: 1,
            ..Account::default()
        }, // deployed: program-owned
        is_authorized: false,
        account_id: derived_pda(), // the derived address
    };
    let candidate = AdminCandidate::Pda { program_id, seed, address: derived_pda() };
    assert_eq!(cfg.transfer(&signer, candidate, &pda_account), Ok(()));
    assert_eq!(cfg.slot().holder(), pda_account.account_id);
}

#[test]
fn transfer_rejects_pda_candidate_mismatch() {
    let mut cfg = AdminConfig::initialize(AccountId::new([1; 32])).unwrap();
    let signer = acct(1, true);
    let candidate = AdminCandidate::Pda {
        program_id: [7; 8],
        seed: [9; 32],
        address: derived_pda(),
    };
    assert_eq!(
        cfg.transfer(&signer, candidate, &acct(3, false)),
        Err(AdminError::CandidateMismatch)
    );
}

#[test]
fn transfer_rejects_undeployed_pda() {
    let mut cfg = AdminConfig::initialize(AccountId::new([1; 32])).unwrap();
    let signer = acct(1, true);
    let (program_id, seed) = ([7; 8], [9; 32]);
    let pda_account = AccountWithMetadata {
        account: Account::default(),
        is_authorized: false,
        account_id: derived_pda(),
    };
    assert_eq!(
        cfg.transfer(
            &signer,
            AdminCandidate::Pda { program_id, seed, address: derived_pda() },
            &pda_account
        ),
        Err(AdminError::UndeployedPda)
    );
}

#[test]
fn transfer_rejects_funded_but_unclaimed_pda() {
    // Anyone can send balance to the derived address. Without a program
    // claim, program_owner stays default and the candidate must be
    // rejected: a funded address is not a deployed PDA.
    let mut cfg = AdminConfig::initialize(AccountId::new([1; 32])).unwrap();
    let signer = acct(1, true);
    let (program_id, seed) = ([7; 8], [9; 32]);
    let pda_account = AccountWithMetadata {
        account: Account {
            balance: 1,
            ..Account::default()
        }, // funded, but no program owns it
        is_authorized: false,
        account_id: derived_pda(),
    };
    assert_eq!(
        cfg.transfer(
            &signer,
            AdminCandidate::Pda { program_id, seed, address: derived_pda() },
            &pda_account
        ),
        Err(AdminError::UndeployedPda)
    );
    assert_eq!(cfg.slot().holder(), AccountId::new([1; 32]));
}

#[test]
fn transfer_rejects_default_id_candidate() {
    // The default AccountId is the renounced sentinel. Installing it via
    // transfer would be a silent renounce, so validation rejects it.
    let mut cfg = AdminConfig::initialize(AccountId::new([1; 32])).unwrap();
    let current = acct(1, true);
    let candidate_account = acct(0, true); // default AccountId, co-signed
    assert_eq!(
        cfg.transfer(&current, AdminCandidate::Signer, &candidate_account),
        Err(AdminError::InvalidCandidate)
    );
    assert_eq!(cfg.slot().holder(), AccountId::new([1; 32]));
}

#[test]
fn renounce_zeros_admin() {
    let mut cfg = AdminConfig::initialize(AccountId::new([1; 32])).unwrap();
    let signer = acct(1, true);
    cfg.renounce(&signer).unwrap();
    assert_eq!(cfg.slot().holder(), AccountId::default());
}

#[test]
fn renounce_reject_non_admin() {
    let mut cfg = AdminConfig::initialize(AccountId::new([1; 32])).unwrap();
    let signer = acct(2, true);
    assert_eq!(cfg.renounce(&signer), Err(AdminError::NotAdmin));
}

#[test]
fn renounce_is_permanent() {
    let mut cfg = AdminConfig::initialize(AccountId::new([1; 32])).unwrap();
    let signer = acct(1, true);
    cfg.renounce(&signer).unwrap();
    assert_eq!(
        cfg.transfer(&signer, AdminCandidate::Signer, &signer),
        Err(AdminError::Renounced)
    )
}

#[test]
fn encode_decode_roundtrip() {
    let cfg = AdminConfig::initialize(AccountId::new([1; 32])).unwrap();
    let encoded = cfg.encode().unwrap();
    let decoded = AdminConfig::decode(&encoded).unwrap();
    assert_eq!(cfg, decoded);
}

#[test]
fn from_account_on_empty_data_returns_not_initialized() {
    let account = acct(1, true);
    assert_eq!(
        AdminConfig::from_account(&account),
        Err(AdminError::NotInitialized)
    )
}
