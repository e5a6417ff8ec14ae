//! The library's error types and the mapping between them.

use vstd::prelude::*;

verus! {

/// Errors of the slot and candidate primitives.
#[derive(Clone, Copy, Debug, PartialEq, Eq, Structural)]
pub enum AuthorityError {
    /// The candidate did not co-sign, or resolves to the default id.
    InvalidCandidate,
    /// The PDA candidate's account is owned by no program.
    UndeployedPda,
    /// The PDA candidate's derived address is not the evidence account's id.
    CandidateMismatch,
    /// The signer is not the slot's holder.
    NotHolder,
    /// The slot holds the default id: it is renounced.
    Renounced,
    /// The signer did not sign the transaction.
    MissingSignature,
    /// The 32-byte window does not fit inside the data.
    SlotOutOfBounds,
}

/// Errors returned by the admin-authority library. Mapped to an
/// `Unauthorized` error carrying [`AdminError::to_string`] at the
/// framework boundary.
#[derive(Clone, Copy, Debug, PartialEq, Eq, Structural)]
pub enum AdminError {
    /// Config data is empty; the admin has not been initialized.
    NotInitialized,
    /// The stored admin is the default id; the admin is renounced.
    Renounced,
    /// The signer's id is not the stored admin.
    NotAdmin,
    /// The signer did not sign the transaction.
    MissingSignature,
    /// The candidate failed validation: a `Signer` that did not co-sign,
    /// or a candidate resolving to the default id.
    InvalidCandidate,
    /// A `Pda` candidate's account is owned by no program.
    UndeployedPda,
    /// The candidate's address is not the evidence account's id.
    CandidateMismatch,
    /// Encoding of the config failed.
    EncodingFailed,
    /// Decoding of the config failed.
    DecodingFailed,
    /// The encoded config does not fit the account data.
    AccountDataTooLarge,
    /// An embedded window `[offset, offset + 32)` does not fit the data.
    SlotOutOfBounds,
}

/// The admin error that a slot or candidate error becomes.
pub open spec fn spec_from_authority(e: AuthorityError) -> AdminError {
    match e {
        AuthorityError::InvalidCandidate => AdminError::InvalidCandidate,
        AuthorityError::UndeployedPda => AdminError::UndeployedPda,
        AuthorityError::CandidateMismatch => AdminError::CandidateMismatch,
        AuthorityError::NotHolder => AdminError::NotAdmin,
        AuthorityError::Renounced => AdminError::Renounced,
        AuthorityError::MissingSignature => AdminError::MissingSignature,
        AuthorityError::SlotOutOfBounds => AdminError::SlotOutOfBounds,
    }
}

impl From<AuthorityError> for AdminError {
    fn from(e: AuthorityError) -> (r: AdminError) {
        match e {
            AuthorityError::InvalidCandidate => AdminError::InvalidCandidate,
            AuthorityError::UndeployedPda => AdminError::UndeployedPda,
            AuthorityError::CandidateMismatch => AdminError::CandidateMismatch,
            AuthorityError::NotHolder => AdminError::NotAdmin,
            AuthorityError::Renounced => AdminError::Renounced,
            AuthorityError::MissingSignature => AdminError::MissingSignature,
            AuthorityError::SlotOutOfBounds => AdminError::SlotOutOfBounds,
        }
    }
}

impl vstd::std_specs::convert::FromSpecImpl<AuthorityError> for AdminError {
    open spec fn obeys_from_spec() -> bool {
        true
    }

    open spec fn from_spec(e: AuthorityError) -> AdminError {
        spec_from_authority(e)
    }
}

impl AdminError {
    /// The human-readable message of each error.
    pub open spec fn spec_message(self) -> Seq<char> {
        match self {
            AdminError::NotInitialized => "admin authority not initialized"@,
            AdminError::Renounced => "admin authority renounced"@,
            AdminError::NotAdmin => "signer is not the current admin"@,
            AdminError::MissingSignature => "admin signature missing"@,
            AdminError::InvalidCandidate => "invalid admin candidate"@,
            AdminError::UndeployedPda => "candidate PDA is not deployed"@,
            AdminError::CandidateMismatch => "candidate address mismatch"@,
            AdminError::EncodingFailed => "AdminConfig encoding failed"@,
            AdminError::DecodingFailed => "AdminConfig decoding failed"@,
            AdminError::AccountDataTooLarge => "AdminConfig too large for account data"@,
            AdminError::SlotOutOfBounds => "embedded slot window out of bounds"@,
        }
    }

    /// The human-readable message of this error, the text that the
    /// framework's `Unauthorized` error carries.
    pub fn to_string(&self) -> (s: String)
        ensures
            s@ == self.spec_message(),
    {
        let text = match self {
            AdminError::NotInitialized => "admin authority not initialized",
            AdminError::Renounced => "admin authority renounced",
            AdminError::NotAdmin => "signer is not the current admin",
            AdminError::MissingSignature => "admin signature missing",
            AdminError::InvalidCandidate => "invalid admin candidate",
            AdminError::UndeployedPda => "candidate PDA is not deployed",
            AdminError::CandidateMismatch => "candidate address mismatch",
            AdminError::EncodingFailed => "AdminConfig encoding failed",
            AdminError::DecodingFailed => "AdminConfig decoding failed",
            AdminError::AccountDataTooLarge => "AdminConfig too large for account data",
            AdminError::SlotOutOfBounds => "embedded slot window out of bounds",
        };
        String::from_str(text)
    }
}

} // verus!
