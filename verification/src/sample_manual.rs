//! Reference program, manual path: no injected management instructions.
//! The program's own `initialize` self-elects its caller, and it writes
//! its own gated transfer and renounce on the library's operations.

use vstd::prelude::*;
use vstd::bytes::spec_u64_to_le_bytes;

use crate::account::AccountWithMetadata;
use crate::config::{
    keeps_all_but_data, spec_bootstrap_data, spec_renounce_data, spec_transfer_data_at,
    AdminCandidate, AdminConfig,
};
use crate::instructions::{require_admin, spec_require_admin, ClaimRequest, PostState};
use crate::program::{is_unauthorized, ProgramError};
use crate::sample_dedicated::ProgramConfig;

verus! {

/// Creates the admin config with the caller as admin, alongside the
/// program config. Returns the admin config, the program config and the
/// caller.
pub fn initialize(
    admin_config: AccountWithMetadata,
    caller: AccountWithMetadata,
    prog_config: AccountWithMetadata,
) -> (r: Result<Vec<PostState>, ProgramError>)
    ensures
        match spec_bootstrap_data(AdminCandidate::Signer, caller) {
            Err(e) => r is Err && is_unauthorized(r->Err_0, e),
            Ok(data) => r is Ok && r->Ok_0@.len() == 3 && r->Ok_0@[0].account.data@ == data
                && keeps_all_but_data(admin_config.account, r->Ok_0@[0].account) && r->Ok_0@[1].account
                == prog_config.account && r->Ok_0@[2].account == caller.account && forall|i: int|
                0 <= i < 3 ==> #[trigger] r->Ok_0@[i].claim == ClaimRequest::Unclaimed,
        },
{
    let mut admin_config = admin_config;
    if let Err(e) = AdminConfig::bootstrap(&mut admin_config, AdminCandidate::Signer, &caller) {
        return Err(ProgramError::unauthorized(e));
    }
    let mut posts: Vec<PostState> = Vec::new();
    posts.push(PostState { account: admin_config.account, claim: ClaimRequest::Unclaimed });
    posts.push(PostState { account: prog_config.account, claim: ClaimRequest::Unclaimed });
    posts.push(PostState { account: caller.account, claim: ClaimRequest::Unclaimed });
    Ok(posts)
}

/// Sets the program's value, gated on the admin held by `admin_config`.
/// Returns the admin config, the updated program config and the caller.
pub fn update_value(
    admin_config: AccountWithMetadata,
    caller: AccountWithMetadata,
    config: AccountWithMetadata,
    new_value: u64,
) -> (r: Result<Vec<PostState>, ProgramError>)
    ensures
        match spec_require_admin(admin_config, caller, 0) {
            Err(e) => r is Err && is_unauthorized(r->Err_0, e),
            Ok(_) => r is Ok && r->Ok_0@.len() == 3 && r->Ok_0@[0].account == admin_config.account
                && r->Ok_0@[1].account.data@ == spec_u64_to_le_bytes(new_value)
                && keeps_all_but_data(config.account, r->Ok_0@[1].account) && r->Ok_0@[2].account
                == caller.account && forall|i: int|
                0 <= i < 3 ==> #[trigger] r->Ok_0@[i].claim == ClaimRequest::Unclaimed,
        },
{
    if let Err(e) = require_admin(&admin_config, &caller, 0) {
        return Err(ProgramError::unauthorized(e));
    }
    let state = ProgramConfig { value: new_value };
    let mut config = config;
    config.account.data = state.encode();
    let mut posts: Vec<PostState> = Vec::new();
    posts.push(PostState { account: admin_config.account, claim: ClaimRequest::Unclaimed });
    posts.push(PostState { account: config.account, claim: ClaimRequest::Unclaimed });
    posts.push(PostState { account: caller.account, claim: ClaimRequest::Unclaimed });
    Ok(posts)
}

/// Gated transfer of the admin held by `config`. Returns the config, the
/// caller and the new admin's account.
pub fn admin_transfer(
    config: AccountWithMetadata,
    caller: AccountWithMetadata,
    new_admin_account: AccountWithMetadata,
    new_admin: AdminCandidate,
) -> (r: Result<Vec<PostState>, ProgramError>)
    ensures
        match spec_require_admin(config, caller, 0) {
            Err(e) => r is Err && is_unauthorized(r->Err_0, e),
            Ok(_) => match spec_transfer_data_at(
                config.account.data@,
                0,
                caller,
                new_admin,
                new_admin_account,
            ) {
                Err(e) => r is Err && is_unauthorized(r->Err_0, e),
                Ok(data) => r is Ok && r->Ok_0@.len() == 3 && r->Ok_0@[0].account.data@ == data
                    && keeps_all_but_data(config.account, r->Ok_0@[0].account) && r->Ok_0@[1].account
                    == caller.account && r->Ok_0@[2].account == new_admin_account.account
                    && forall|i: int|
                    0 <= i < 3 ==> #[trigger] r->Ok_0@[i].claim == ClaimRequest::Unclaimed,
            },
        },
{
    if let Err(e) = require_admin(&config, &caller, 0) {
        return Err(ProgramError::unauthorized(e));
    }
    let mut config = config;
    if let Err(e) = AdminConfig::perform_transfer(&mut config, &caller, new_admin, &new_admin_account) {
        return Err(ProgramError::unauthorized(e));
    }
    let mut posts: Vec<PostState> = Vec::new();
    posts.push(PostState { account: config.account, claim: ClaimRequest::Unclaimed });
    posts.push(PostState { account: caller.account, claim: ClaimRequest::Unclaimed });
    posts.push(PostState { account: new_admin_account.account, claim: ClaimRequest::Unclaimed });
    Ok(posts)
}

/// Gated renounce of the admin held by `config`. Returns the config and
/// the caller.
pub fn admin_renounce(config: AccountWithMetadata, caller: AccountWithMetadata) -> (r: Result<
    Vec<PostState>,
    ProgramError,
>)
    ensures
        match spec_require_admin(config, caller, 0) {
            Err(e) => r is Err && is_unauthorized(r->Err_0, e),
            Ok(_) => match spec_renounce_data(config.account.data@, caller) {
                Err(e) => r is Err && is_unauthorized(r->Err_0, e),
                Ok(data) => r is Ok && r->Ok_0@.len() == 2 && r->Ok_0@[0].account.data@ == data
                    && keeps_all_but_data(config.account, r->Ok_0@[0].account) && r->Ok_0@[1].account
                    == caller.account && forall|i: int|
                    0 <= i < 2 ==> #[trigger] r->Ok_0@[i].claim == ClaimRequest::Unclaimed,
            },
        },
{
    if let Err(e) = require_admin(&config, &caller, 0) {
        return Err(ProgramError::unauthorized(e));
    }
    let mut config = config;
    if let Err(e) = AdminConfig::perform_renounce(&mut config, &caller) {
        return Err(ProgramError::unauthorized(e));
    }
    let mut posts: Vec<PostState> = Vec::new();
    posts.push(PostState { account: config.account, claim: ClaimRequest::Unclaimed });
    posts.push(PostState { account: caller.account, claim: ClaimRequest::Unclaimed });
    Ok(posts)
}

} // verus!
