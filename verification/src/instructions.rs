//! The three management instructions that the library adds to a program:
//! initialize, transfer and renounce. Each returns the accounts' post
//! states in the order the instruction declares them; the framework
//! boundary turns an `AdminError` into its `Unauthorized` error.

use vstd::prelude::*;

use crate::account::{Account, AccountWithMetadata};
use crate::config::{
    applied, keeps_all_but_data, spec_assert_admin, spec_bootstrap_data, spec_decode_at,
    spec_renounce_data_at, spec_transfer_data_at, AdminCandidate, AdminConfig,
};
use crate::errors::AdminError;

verus! {

/// How the framework should claim an account in a post state.
#[derive(Clone, Copy, Debug, PartialEq, Eq, Structural)]
pub enum ClaimRequest {
    /// No claim.
    Unclaimed,
    /// Claim the account as this program's PDA under the `admin_config`
    /// seed.
    AdminConfigPda,
}

/// An account's state after an instruction, with its claim request.
#[derive(Clone, Debug, PartialEq, Eq)]
pub struct PostState {
    /// The account's new state.
    pub account: Account,
    /// Whether the framework should claim it.
    pub claim: ClaimRequest,
}

/// The outcome of the admin gate for `caller`, reading the config at `offset` of `admin_config`.
pub open spec fn spec_require_admin(
    admin_config: AccountWithMetadata,
    caller: AccountWithMetadata,
    offset: int,
) -> Result<(), AdminError> {
    match spec_decode_at(admin_config.account.data@, offset) {
        Err(e) => Err(e),
        Ok(admin) => spec_assert_admin(admin, caller),
    }
}

/// The check that the `#[require_admin]` gate puts before a gated
/// instruction's body: the config is read from the window at `offset` of
/// `admin_config` (0 in dedicated mode) and `caller` must be its admin.
pub fn require_admin(admin_config: &AccountWithMetadata, caller: &AccountWithMetadata, offset: usize) -> (r: Result<
    (),
    AdminError,
>)
    ensures
        r == spec_require_admin(*admin_config, *caller, offset as int),
{
    let config = match AdminConfig::from_account_at(admin_config, offset) {
        Ok(c) => c,
        Err(e) => {
            return Err(e);
        },
    };
    config.assert_admin(caller)
}

/// Creates the admin config and installs the signing caller as admin
/// (self-election). The config account is returned claimed as the
/// `admin_config` PDA, then the caller, unclaimed. Re-initialization is
/// refused by the framework's `init` constraint before this runs.
pub fn admin_initialize(config: AccountWithMetadata, caller: AccountWithMetadata) -> (r: Result<
    Vec<PostState>,
    AdminError,
>)
    ensures
        match spec_bootstrap_data(AdminCandidate::Signer, caller) {
            Ok(data) => r is Ok && r->Ok_0@.len() == 2 && r->Ok_0@[0].account.data@ == data
                && keeps_all_but_data(config.account, r->Ok_0@[0].account) && r->Ok_0@[0].claim
                == ClaimRequest::AdminConfigPda && r->Ok_0@[1].account == caller.account
                && r->Ok_0@[1].claim == ClaimRequest::Unclaimed,
            Err(e) => r == Err::<Vec<PostState>, AdminError>(e),
        },
{
    let mut config = config;
    let ghost before = config;
    let res = AdminConfig::bootstrap(&mut config, AdminCandidate::Signer, &caller);
    proof {
        assert(applied(before, config, res, spec_bootstrap_data(AdminCandidate::Signer, caller)));
    }
    if let Err(e) = res {
        return Err(e);
    }
    let mut posts: Vec<PostState> = Vec::new();
    posts.push(PostState { account: config.account, claim: ClaimRequest::AdminConfigPda });
    posts.push(PostState { account: caller.account, claim: ClaimRequest::Unclaimed });
    Ok(posts)
}

/// Replaces the current admin with the validated candidate, in the window
/// at `offset` of the config account (0 in dedicated mode). Only the
/// current admin can call. Returns the config, caller and new-admin
/// accounts, unclaimed.
pub fn admin_transfer(
    admin_config: AccountWithMetadata,
    caller: AccountWithMetadata,
    new_account: AccountWithMetadata,
    candidate: AdminCandidate,
    offset: usize,
) -> (r: Result<Vec<PostState>, AdminError>)
    ensures
        match spec_transfer_data_at(
            admin_config.account.data@,
            offset as int,
            caller,
            candidate,
            new_account,
        ) {
            Ok(data) => r is Ok && r->Ok_0@.len() == 3 && r->Ok_0@[0].account.data@ == data
                && keeps_all_but_data(admin_config.account, r->Ok_0@[0].account) && r->Ok_0@[0].claim
                == ClaimRequest::Unclaimed && r->Ok_0@[1].account == caller.account
                && r->Ok_0@[1].claim == ClaimRequest::Unclaimed && r->Ok_0@[2].account
                == new_account.account && r->Ok_0@[2].claim == ClaimRequest::Unclaimed,
            Err(e) => r == Err::<Vec<PostState>, AdminError>(e),
        },
{
    let mut admin_config = admin_config;
    let ghost before = admin_config;
    let res = AdminConfig::perform_transfer_at(
        &mut admin_config,
        offset,
        &caller,
        candidate,
        &new_account,
    );
    proof {
        assert(applied(
            before,
            admin_config,
            res,
            spec_transfer_data_at(
                before.account.data@,
                offset as int,
                caller,
                candidate,
                new_account,
            ),
        ));
    }
    if let Err(e) = res {
        return Err(e);
    }
    let mut posts: Vec<PostState> = Vec::new();
    posts.push(PostState { account: admin_config.account, claim: ClaimRequest::Unclaimed });
    posts.push(PostState { account: caller.account, claim: ClaimRequest::Unclaimed });
    posts.push(PostState { account: new_account.account, claim: ClaimRequest::Unclaimed });
    Ok(posts)
}

/// Permanently sets the admin to the default id in the window at `offset`
/// of the config account. Only the current admin can call; afterwards
/// every gated instruction is refused. Returns the config and caller
/// accounts, unclaimed.
pub fn admin_renounce(admin_config: AccountWithMetadata, caller: AccountWithMetadata, offset: usize) -> (r: Result<
    Vec<PostState>,
    AdminError,
>)
    ensures
        match spec_renounce_data_at(admin_config.account.data@, offset as int, caller) {
            Ok(data) => r is Ok && r->Ok_0@.len() == 2 && r->Ok_0@[0].account.data@ == data
                && keeps_all_but_data(admin_config.account, r->Ok_0@[0].account) && r->Ok_0@[0].claim
                == ClaimRequest::Unclaimed && r->Ok_0@[1].account == caller.account
                && r->Ok_0@[1].claim == ClaimRequest::Unclaimed,
            Err(e) => r == Err::<Vec<PostState>, AdminError>(e),
        },
{
    let mut admin_config = admin_config;
    let ghost before = admin_config;
    let res = AdminConfig::perform_renounce_at(&mut admin_config, offset, &caller);
    proof {
        assert(applied(
            before,
            admin_config,
            res,
            spec_renounce_data_at(before.account.data@, offset as int, caller),
        ));
    }
    if let Err(e) = res {
        return Err(e);
    }
    let mut posts: Vec<PostState> = Vec::new();
    posts.push(PostState { account: admin_config.account, claim: ClaimRequest::Unclaimed });
    posts.push(PostState { account: caller.account, claim: ClaimRequest::Unclaimed });
    Ok(posts)
}

} // verus!
