//! Reference program, embedded mode: the admin slot lives inside the
//! program's own config account at byte offset 32, bootstrapped by the
//! program's own `initialize`, so no separate admin initializer exists.

use vstd::prelude::*;
use vstd::bytes::{spec_u64_to_le_bytes, u64_from_le_bytes, u64_to_le_bytes};

use crate::account::{zero_id, AccountWithMetadata};
use crate::codec::{borsh_decode_array, borsh_encode_array};
use crate::config::{
    applied, keeps_all_but_data, same_but_data, spec_bootstrap_data_at, AdminCandidate,
    AdminConfig,
};
use crate::instructions::{require_admin, spec_require_admin, ClaimRequest, PostState};
use crate::program::{is_serialization_error, is_unauthorized, ProgramError};

verus! {

broadcast use AdminConfig::lemma_len;

/// Byte offset of the admin slot inside [`ProgConfig`].
pub const ADMIN_OFFSET: usize = 32;

/// Borsh-encoded size of [`ProgConfig`].
pub const PROG_CONFIG_LEN: usize = 64;

/// The program's config account, with the admin slot embedded: value at
/// bytes 0..8, padding at 8..32, the admin at 32..64.
#[derive(Clone, Copy, Debug, PartialEq, Eq)]
pub struct ProgConfig {
    /// The value that the gated instruction sets.
    pub value: u64,
    /// Padding up to the admin slot.
    pub padding: [u8; 24],
    /// The embedded admin slot.
    pub admin: AdminConfig,
}

/// The borsh encoding of a [`ProgConfig`]: its fields in order.
pub open spec fn spec_prog_bytes(value: u64, padding: Seq<u8>, admin: Seq<u8>) -> Seq<u8> {
    spec_u64_to_le_bytes(value) + padding + admin
}

/// The zero padding.
pub open spec fn zero_padding() -> Seq<u8> {
    Seq::new(24, |i: int| 0u8)
}

impl ProgConfig {
    /// Decodes the config from the account's data: exactly 64 bytes.
    pub fn from_account(account: &AccountWithMetadata) -> (r: Result<ProgConfig, ProgramError>)
        ensures
            r is Ok <==> account.account.data@.len() == 64,
            r is Ok ==> spec_prog_bytes(r->Ok_0.value, r->Ok_0.padding@, r->Ok_0.admin@)
                == account.account.data@,
            r is Err ==> is_serialization_error(r->Err_0, "decoding failed"@),
    {
        let data = account.account.data.as_slice();
        if data.len() != PROG_CONFIG_LEN {
            return Err(ProgramError::SerializationError { message: String::from_str("decoding failed") });
        }
        let value = u64_from_le_bytes(&data[0..8]);
        proof {
            vstd::bytes::lemma_auto_spec_u64_to_from_le_bytes();
        }
        let padding = borsh_decode_array::<24>(&data[8..32]);
        let admin = AdminConfig::decode(&data[32..64]);
        match (padding, admin) {
            (Ok(padding), Ok(admin)) => {
                let pc = ProgConfig { value, padding, admin };
                assert(spec_prog_bytes(value, padding@, admin@) =~= data@);
                Ok(pc)
            },
            _ => Err(ProgramError::SerializationError { message: String::from_str("decoding failed") }),
        }
    }

    /// Encodes the config and makes it the whole of the account's data.
    pub fn write_to(&self, account: &mut AccountWithMetadata) -> (r: Result<(), ProgramError>)
        ensures
            r is Ok,
            same_but_data(*old(account), *final(account)),
            final(account).account.data@ == spec_prog_bytes(self.value, self.padding@, self.admin@),
    {
        let mut bytes = u64_to_le_bytes(self.value);
        let mut padding = match borsh_encode_array(&self.padding) {
            Ok(b) => b,
            Err(_) => {
                return Err(ProgramError::SerializationError { message: String::from_str("encoding failed") });
            },
        };
        let mut admin = match self.admin.encode() {
            Ok(b) => b,
            Err(_) => {
                return Err(ProgramError::SerializationError { message: String::from_str("encoding failed") });
            },
        };
        bytes.append(&mut padding);
        bytes.append(&mut admin);
        account.account.data = bytes;
        Ok(())
    }
}

/// Creates the program config and bootstraps the embedded admin slot with
/// the signer: the slot is born initialized. Returns the config and the
/// signer.
pub fn initialize(config: AccountWithMetadata, signer: AccountWithMetadata) -> (r: Result<
    Vec<PostState>,
    ProgramError,
>)
    ensures
        match spec_bootstrap_data_at(
            spec_prog_bytes(0, zero_padding(), zero_id()),
            32,
            AdminCandidate::Signer,
            signer,
        ) {
            Err(e) => r is Err && is_unauthorized(r->Err_0, e),
            Ok(data) => r is Ok && r->Ok_0@.len() == 2 && r->Ok_0@[0].account.data@ == data
                && keeps_all_but_data(config.account, r->Ok_0@[0].account) && r->Ok_0@[1].account
                == signer.account && forall|i: int|
                0 <= i < 2 ==> #[trigger] r->Ok_0@[i].claim == ClaimRequest::Unclaimed,
        },
{
    let mut config = config;
    let fresh = ProgConfig { value: 0, padding: [0u8; 24], admin: AdminConfig::default() };
    assert(fresh.padding@ =~= zero_padding());
    if let Err(e) = fresh.write_to(&mut config) {
        return Err(e);
    }
    let ghost written = config;
    let res = AdminConfig::bootstrap_at(&mut config, ADMIN_OFFSET, AdminCandidate::Signer, &signer);
    proof {
        assert(applied(
            written,
            config,
            res,
            spec_bootstrap_data_at(written.account.data@, 32, AdminCandidate::Signer, signer),
        ));
    }
    if let Err(e) = res {
        return Err(ProgramError::unauthorized(e));
    }
    let mut posts: Vec<PostState> = Vec::new();
    posts.push(PostState { account: config.account, claim: ClaimRequest::Unclaimed });
    posts.push(PostState { account: signer.account, claim: ClaimRequest::Unclaimed });
    Ok(posts)
}

/// Sets the program's value, gated on the admin embedded at offset 32 of
/// the same account; the padding and the admin slot are kept. Returns the
/// config.
pub fn update_value(config: AccountWithMetadata, caller: AccountWithMetadata, new_value: u64) -> (r: Result<
    Vec<PostState>,
    ProgramError,
>)
    ensures
        match spec_require_admin(config, caller, 32) {
            Err(e) => r is Err && is_unauthorized(r->Err_0, e),
            Ok(_) => if config.account.data@.len() != 64 {
                r is Err && is_serialization_error(r->Err_0, "decoding failed"@)
            } else {
                r is Ok && r->Ok_0@.len() == 1 && r->Ok_0@[0].account.data@ == spec_u64_to_le_bytes(
                    new_value,
                ) + config.account.data@.subrange(8, 64) && keeps_all_but_data(config.account, r->Ok_0@[0].account) && r->Ok_0@[0].claim == ClaimRequest::Unclaimed
            },
        },
{
    if let Err(e) = require_admin(&config, &caller, ADMIN_OFFSET) {
        return Err(ProgramError::unauthorized(e));
    }
    let mut state = match ProgConfig::from_account(&config) {
        Ok(s) => s,
        Err(e) => {
            return Err(e);
        },
    };
    let ghost old_data = config.account.data@;
    proof {
        assert(old_data.subrange(8, 64) =~= state.padding@ + state.admin@);
    }
    state.value = new_value;
    let mut config = config;
    if let Err(e) = state.write_to(&mut config) {
        return Err(e);
    }
    let mut posts: Vec<PostState> = Vec::new();
    posts.push(PostState { account: config.account, claim: ClaimRequest::Unclaimed });
    Ok(posts)
}

/// Gated on the admin and otherwise does nothing: an instruction that
/// does not touch the program's state still reads the embedding account
/// for its gate. Returns no post states.
pub fn poke(config: AccountWithMetadata, caller: AccountWithMetadata) -> (r: Result<
    Vec<PostState>,
    ProgramError,
>)
    ensures
        match spec_require_admin(config, caller, 32) {
            Err(e) => r is Err && is_unauthorized(r->Err_0, e),
            Ok(_) => r is Ok && r->Ok_0@.len() == 0,
        },
{
    if let Err(e) = require_admin(&config, &caller, ADMIN_OFFSET) {
        return Err(ProgramError::unauthorized(e));
    }
    Ok(Vec::new())
}

} // verus!
