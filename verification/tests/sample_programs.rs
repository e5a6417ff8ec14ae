use admin_authority::sample_dedicated::{self, ProgramConfig};
use admin_authority::sample_manual;
use admin_authority::{Account, AccountId, AccountWithMetadata, AdminCandidate, AdminConfig, ProgramError};

fn acct(id_byte: u8, signed: bool) -> AccountWithMetadata {
    AccountWithMetadata {
        account: Account::default(),
        is_authorized: signed,
        account_id: AccountId::new([id_byte; 32]),
    }
}

#[test]
fn update_value_succeeds_for_admin() {
    let caller = acct(1, true);
    let mut admin_config = acct(9, false);
    AdminConfig::bootstrap(&mut admin_config, AdminCandidate::Signer, &caller).unwrap();
    let config = acct(5, false);

    let output = sample_dedicated::update_value(admin_config, caller, config, 42)
        .expect("admin call must succeed");

    let post = &output[2];
    let state = ProgramConfig::decode(post.account.data.as_ref()).unwrap();
    assert_eq!(state.value, 42);
}

#[test]
fn update_value_rejects_non_admin() {
    let admin = acct(1, true);
    let caller = acct(2, true);
    let mut admin_config = acct(9, false);
    AdminConfig::bootstrap(&mut admin_config, AdminCandidate::Signer, &admin).unwrap();
    let config = acct(5, false);

    let err = sample_dedicated::update_value(admin_config, caller, config, 42)
        .expect_err("signer is not the current admin");
    assert!(matches!(err, ProgramError::Unauthorized { .. }));
}

#[test]
fn update_value_rejects_uninitialized_config() {
    let caller = acct(1, true);
    let admin_config = acct(9, false);

    let config = acct(5, false);

    let err = sample_dedicated::update_value(admin_config, caller, config, 42)
        .expect_err("admin authority not initialized");
    assert!(matches!(err, ProgramError::Unauthorized { .. }));
}

#[test]
fn update_value_rejects_after_renounce_() {
    let caller = acct(1, true);
    let mut admin_config = acct(9, false);
    AdminConfig::bootstrap(&mut admin_config, AdminCandidate::Signer, &caller).unwrap();
    AdminConfig::perform_renounce(&mut admin_config, &caller).unwrap();

    let config = acct(5, false);

    let err = sample_dedicated::update_value(admin_config, caller, config, 42)
        .expect_err("admin authority renounced");
    assert!(matches!(err, ProgramError::Unauthorized { .. }));
}

#[test]
fn main_update_value_succeeds_for_admin() {
    let caller = acct(1, true);
    let mut admin_config = acct(9, false);
    AdminConfig::bootstrap(&mut admin_config, AdminCandidate::Signer, &caller).unwrap();
    let config = acct(5, false);

    let output = sample_manual::update_value(admin_config, caller, config, 42)
        .expect("admin call must succeed");

    let post = &output[1];
    let state = ProgramConfig::decode(post.account.data.as_ref()).unwrap();
    assert_eq!(state.value, 42);
}

#[test]
fn main_update_value_rejects_non_admin() {
    let admin = acct(1, true);
    let caller = acct(2, true);
    let mut admin_config = acct(9, false);
    AdminConfig::bootstrap(&mut admin_config, AdminCandidate::Signer, &admin).unwrap();
    let config = acct(5, false);

    let err = sample_manual::update_value(admin_config, caller, config, 42)
        .expect_err("signer is not the current admin");
    match err {
        ProgramError::Unauthorized { message } => {
            assert_eq!(message, "signer is not the current admin")
        }
        other => panic!("expected Unauthorized, got {other:?}"),
    }
}

#[test]
fn main_update_value_rejects_uninitialized_config() {
    let caller = acct(1, true);
    let admin_config = acct(9, false);

    let config = acct(5, false);

    let err = sample_manual::update_value(admin_config, caller, config, 42)
        .expect_err("admin authority not initialized");
    match err {
        ProgramError::Unauthorized { message } => {
            assert_eq!(message, "admin authority not initialized")
        }
        other => panic!("expected Unauthorized, got {other:?}"),
    }
}

#[test]
fn main_update_value_rejects_after_renounce_() {
    let caller = acct(1, true);
    let mut admin_config = acct(9, false);
    AdminConfig::bootstrap(&mut admin_config, AdminCandidate::Signer, &caller).unwrap();
    AdminConfig::perform_renounce(&mut admin_config, &caller).unwrap();

    let config = acct(5, false);

    let err = sample_manual::update_value(admin_config, caller, config, 42)
        .expect_err("admin authority renounced");
    match err {
        ProgramError::Unauthorized { message } => {
            assert_eq!(message, "admin authority renounced")
        }
        other => panic!("expected Unauthorized, got {other:?}"),
    }
}

#[test]
fn admin_transfer_updates_admin() {
    let caller = acct(1, true);
    let mut admin_config = acct(9, false);
    AdminConfig::bootstrap(&mut admin_config, AdminCandidate::Signer, &caller).unwrap();

    let new_admin = acct(2, true);

    let _ = sample_manual::admin_transfer(
        admin_config,
        caller,
        new_admin,
        AdminCandidate::Signer,
    )
    .expect("transfer call must succeed");
}

#[test]
fn admin_transfer_rejects_non_admin() {
    let caller = acct(1, true);
    let non_admin = acct(4, true);
    let mut admin_config = acct(9, false);
    AdminConfig::bootstrap(&mut admin_config, AdminCandidate::Signer, &caller).unwrap();

    let new_admin = acct(2, true);

    let err = sample_manual::admin_transfer(
        admin_config,
        non_admin,
        new_admin,
        AdminCandidate::Signer,
    )
    .expect_err("signer is not the current admin");
    assert!(matches!(err, ProgramError::Unauthorized { .. }));
}

#[test]
fn admin_renounce_then_transfer_fails() {
    let caller = acct(1, true);
    let mut admin_config = acct(9, false);
    AdminConfig::bootstrap(&mut admin_config, AdminCandidate::Signer, &caller).unwrap();

    let new_admin = acct(2, true);
    let output =
        sample_manual::admin_renounce(admin_config.clone(), caller.clone())
            .expect("renounce must succeed");

    let mut renounced = admin_config;
    renounced.account = output[0].account.clone();

    let err = sample_manual::admin_transfer(
        renounced,
        caller,
        new_admin,
        AdminCandidate::Signer,
    )
    .expect_err("admin authority renounced");
    assert!(matches!(err, ProgramError::Unauthorized { .. }));
}

#[test]
fn manual_initialize_self_elects() {
    let caller = acct(1, true);
    let posts = sample_manual::initialize(acct(9, false), caller, acct(5, false)).unwrap();
    assert_eq!(posts.len(), 3);
    assert_eq!(posts[0].account.data, vec![1u8; 32]);
}
