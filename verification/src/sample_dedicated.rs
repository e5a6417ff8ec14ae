//! Reference program, dedicated mode: the admin lives in its own Config
//! PDA, the library's three management instructions are added to the
//! program, and one instruction of its own is gated on the admin.

use vstd::prelude::*;
use vstd::bytes::{spec_u64_to_le_bytes, u64_from_le_bytes, u64_to_le_bytes};

use crate::account::AccountWithMetadata;
use crate::config::keeps_all_but_data;
use crate::instructions::{require_admin, spec_require_admin, ClaimRequest, PostState};
use crate::program::{is_serialization_error, is_unauthorized, ProgramError};

verus! {

/// The program's own state: one value, stored in borsh's layout for a
/// `u64`, its 8 little-endian bytes.
#[derive(Clone, Copy, Debug, PartialEq, Eq)]
pub struct ProgramConfig {
    /// The value that the gated instruction sets.
    pub value: u64,
}

impl ProgramConfig {
    /// Encodes the state: the value's 8 little-endian bytes.
    pub fn encode(&self) -> (bytes: Vec<u8>)
        ensures
            bytes@ == spec_u64_to_le_bytes(self.value),
    {
        u64_to_le_bytes(self.value)
    }

    /// Decodes the state: exactly 8 bytes, read as a little-endian value.
    pub fn decode(data: &[u8]) -> (r: Result<ProgramConfig, ProgramError>)
        ensures
            r is Ok <==> data@.len() == 8,
            r is Ok ==> spec_u64_to_le_bytes(r->Ok_0.value) == data@,
            r is Err ==> is_serialization_error(r->Err_0, "decoding failed"@),
    {
        if data.len() != 8 {
            return Err(ProgramError::SerializationError { message: String::from_str("decoding failed") });
        }
        let value = u64_from_le_bytes(data);
        proof {
            vstd::bytes::lemma_auto_spec_u64_to_from_le_bytes();
        }
        Ok(ProgramConfig { value })
    }
}

/// Sets the program's value, gated on the admin: the admin config is read
/// from `admin_config` (offset 0) and `caller` must be its admin, else the
/// instruction is `Unauthorized` with the library error's message. Returns
/// the admin config, the caller and the updated program config.
pub fn update_value(
    admin_config: AccountWithMetadata,
    caller: AccountWithMetadata,
    config: AccountWithMetadata,
    new_value: u64,
) -> (r: Result<Vec<PostState>, ProgramError>)
    ensures
        match spec_require_admin(admin_config, caller, 0) {
            Err(e) => r is Err && is_unauthorized(r->Err_0, e),
            Ok(_) => r is Ok && r->Ok_0@.len() == 3 && r->Ok_0@[0].account == admin_config.account
                && r->Ok_0@[1].account == caller.account && r->Ok_0@[2].account.data@
                == spec_u64_to_le_bytes(new_value) && keeps_all_but_data(config.account, r->Ok_0@[2].account)
                && forall|i: int| 0 <= i < 3 ==> #[trigger] r->Ok_0@[i].claim == ClaimRequest::Unclaimed,
        },
{
    if let Err(e) = require_admin(&admin_config, &caller, 0) {
        return Err(ProgramError::unauthorized(e));
    }
    let state = ProgramConfig { value: new_value };
    let mut config = config;
    config.account.data = state.encode();
    let mut posts: Vec<PostState> = Vec::new();
    posts.push(PostState { account: admin_config.account, claim: ClaimRequest::Unclaimed });
    posts.push(PostState { account: caller.account, claim: ClaimRequest::Unclaimed });
    posts.push(PostState { account: config.account, claim: ClaimRequest::Unclaimed });
    Ok(posts)
}

} // verus!
