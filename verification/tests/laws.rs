use admin_authority::{Account, AccountId, AccountWithMetadata, AdminCandidate, AdminConfig, AdminError};

fn acct(id_byte: u8, signed: bool) -> AccountWithMetadata {
    AccountWithMetadata {
        account: Account::default(),
        is_authorized: signed,
        account_id: AccountId::new([id_byte; 32]),
    }
}

#[test]
fn default_config_is_born_renounced() {
    let cfg = AdminConfig::default();
    assert_eq!(cfg.assert_admin(&acct(3, true)), Err(AdminError::Renounced));
    assert_eq!(cfg.encode().unwrap(), vec![0u8; 32]);
}

#[test]
fn renounce_twice_stays_renounced() {
    let mut cfg = AdminConfig::initialize(AccountId::new([1; 32])).unwrap();
    let admin = acct(1, true);
    cfg.renounce(&admin).unwrap();
    assert_eq!(cfg.renounce(&admin), Err(AdminError::Renounced));
    assert_eq!(cfg.holder(), AccountId::default());
}

#[test]
fn failed_transfer_leaves_data_untouched() {
    let mut account = acct(9, false);
    account.account.data = vec![0xAA; 72];
    let admin = acct(1, true);
    AdminConfig::bootstrap_at(&mut account, 8, AdminCandidate::Signer, &admin).unwrap();
    let before = account.account.data.clone();
    assert_eq!(
        AdminConfig::perform_transfer_at(&mut account, 8, &acct(2, true), AdminCandidate::Signer, &acct(3, true)),
        Err(AdminError::NotAdmin)
    );
    assert_eq!(account.account.data, before);
}

#[test]
fn decode_requires_exactly_32_bytes() {
    assert_eq!(AdminConfig::decode(&[1u8; 31]), Err(AdminError::DecodingFailed));
    assert_eq!(AdminConfig::decode(&[1u8; 33]), Err(AdminError::DecodingFailed));
    assert_eq!(AdminConfig::decode(&[]), Err(AdminError::NotInitialized));
    let cfg = AdminConfig::decode(&[5u8; 32]).unwrap();
    assert_eq!(cfg.holder(), AccountId::new([5; 32]));
}

#[test]
fn write_to_replaces_whole_data() {
    let mut account = acct(9, false);
    account.account.data = vec![0xAA; 72];
    let cfg = AdminConfig::initialize(AccountId::new([4; 32])).unwrap();
    cfg.write_to(&mut account).unwrap();
    assert_eq!(account.account.data, vec![4u8; 32]);
}

#[test]
fn write_to_at_out_of_bounds_is_refused() {
    let mut account = acct(9, false);
    account.account.data = vec![0xAA; 39];
    let cfg = AdminConfig::initialize(AccountId::new([4; 32])).unwrap();
    assert_eq!(cfg.write_to_at(&mut account, 8), Err(AdminError::SlotOutOfBounds));
    assert_eq!(account.account.data, vec![0xAA; 39]);
    assert_eq!(cfg.write_to_at(&mut account, usize::MAX), Err(AdminError::SlotOutOfBounds));
}

#[test]
fn perform_renounce_dedicated_zeros_whole_config() {
    let mut account = acct(9, false);
    let admin = acct(1, true);
    AdminConfig::bootstrap(&mut account, AdminCandidate::Signer, &admin).unwrap();
    AdminConfig::perform_renounce(&mut account, &admin).unwrap();
    assert_eq!(account.account.data, vec![0u8; 32]);
    assert_eq!(AdminConfig::perform_renounce(&mut account, &admin), Err(AdminError::Renounced));
}

#[test]
fn pda_candidate_with_default_address_is_invalid() {
    let mut cfg = AdminConfig::initialize(AccountId::new([1; 32])).unwrap();
    let pda = AccountWithMetadata {
        account: Account { program_owner: [7; 8], ..Account::default() },
        is_authorized: false,
        account_id: AccountId::default(),
    };
    let candidate = AdminCandidate::Pda { program_id: [7; 8], seed: [9; 32], address: AccountId::default() };
    assert_eq!(cfg.transfer(&acct(1, true), candidate, &pda), Err(AdminError::InvalidCandidate));
}
