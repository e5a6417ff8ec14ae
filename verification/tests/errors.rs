use admin_authority::{AdminError, AuthorityError};

#[test]
fn admin_error_display_strings() {
    assert_eq!(
        AdminError::NotInitialized.to_string(),
        "admin authority not initialized"
    );
    assert_eq!(
        AdminError::Renounced.to_string(),
        "admin authority renounced"
    );
    assert_eq!(
        AdminError::NotAdmin.to_string(),
        "signer is not the current admin"
    );
    assert_eq!(
        AdminError::MissingSignature.to_string(),
        "admin signature missing"
    );
    assert_eq!(
        AdminError::InvalidCandidate.to_string(),
        "invalid admin candidate"
    );
    assert_eq!(
        AdminError::UndeployedPda.to_string(),
        "candidate PDA is not deployed"
    );
    assert_eq!(
        AdminError::CandidateMismatch.to_string(),
        "candidate address mismatch"
    );
    assert_eq!(
        AdminError::EncodingFailed.to_string(),
        "AdminConfig encoding failed"
    );
    assert_eq!(
        AdminError::DecodingFailed.to_string(),
        "AdminConfig decoding failed"
    );
    assert_eq!(
        AdminError::AccountDataTooLarge.to_string(),
        "AdminConfig too large for account data"
    );
}

#[test]
fn slot_out_of_bounds_message() {
    assert_eq!(
        AdminError::SlotOutOfBounds.to_string(),
        "embedded slot window out of bounds"
    );
}

#[test]
fn authority_errors_map_to_admin_errors() {
    let pairs = [
        (AuthorityError::InvalidCandidate, AdminError::InvalidCandidate),
        (AuthorityError::UndeployedPda, AdminError::UndeployedPda),
        (AuthorityError::CandidateMismatch, AdminError::CandidateMismatch),
        (AuthorityError::NotHolder, AdminError::NotAdmin),
        (AuthorityError::Renounced, AdminError::Renounced),
        (AuthorityError::MissingSignature, AdminError::MissingSignature),
        (AuthorityError::SlotOutOfBounds, AdminError::SlotOutOfBounds),
    ];
    for (from, to) in pairs {
        assert_eq!(AdminError::from(from), to);
    }
}

#[test]
fn admin_error_maps_to_unauthorized() {
    let spel = admin_authority::ProgramError::unauthorized(AdminError::NotAdmin);
    match spel {
        admin_authority::ProgramError::Unauthorized { message } => {
            assert_eq!(message, "signer is not the current admin");
        }
        other => panic!("expected Unauthorized, got {other:?}"),
    }
}

#[test]
fn admin_error_renounced_maps_to_unauthorized_with_message() {
    let spel = admin_authority::ProgramError::unauthorized(AdminError::Renounced);
    match spel {
        admin_authority::ProgramError::Unauthorized { message } => {
            assert_eq!(message, "admin authority renounced");
        }
        other => panic!("expected Unauthorized, got {other:?}"),
    }
}
