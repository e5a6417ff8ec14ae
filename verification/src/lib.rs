//! Single-admin authority for LEZ programs, verified.
//!
//! The admin slot is one 32-byte account id, stored either as the whole
//! data of a dedicated Config PDA or as a window at a byte offset inside a
//! consumer's own account. The library decodes and encodes that slot,
//! checks that a signer is the current admin, validates a transfer
//! candidate, and writes transfers and renounces back without touching the
//! bytes around the window.

mod account;
mod codec;
mod config;
mod errors;
mod gate;
pub mod gate_laws;
mod instructions;
pub mod laws;
mod program;
pub mod sample_dedicated;
pub mod sample_embedded;
pub mod sample_manual;
mod slot;

pub use account::{zero_id, zero_program, Account, AccountId, AccountWithMetadata, ProgramId};
pub use config::{
    applied, keeps_all_but_data, same_but_data, spec_assert_admin, spec_bootstrap_data,
    spec_bootstrap_data_at, spec_decode, spec_decode_at, spec_renounce, spec_renounce_data,
    spec_renounce_data_at, spec_resolve, spec_transfer, spec_transfer_data_at, AdminCandidate,
    AdminConfig, ENCODED_LEN,
};
pub use errors::{spec_from_authority, AdminError, AuthorityError};
pub use gate::{
    gate_step, gate_targets_upto, init_step, init_targets_upto, insert_before_tail,
    keeps_param_attr, misplaced_above_lez_program, resolve_gate_args, resolve_initializer_args,
    spec_init_targets, spec_misplaced_message, ArgValue, GateTargets, InitTexts, MacroArg,
    MacroArgError, TargetTexts,
};
pub use instructions::{
    admin_initialize, admin_renounce, admin_transfer, require_admin, spec_require_admin,
    ClaimRequest, PostState,
};
pub use program::{is_serialization_error, is_unauthorized, ProgramError};
pub use slot::{
    spec_check_holder, spec_validate, splice, window, window_fits, AuthorityCandidate,
    AuthoritySlot, SLOT_LEN,
};
