//! `AdminConfig`: the admin authority state of one program, and the
//! operations that read, check, change and write it.

use vstd::prelude::*;

use crate::account::{zero_id, Account, AccountId, AccountWithMetadata};
use crate::codec::{borsh_decode_array, borsh_encode_array};
use crate::errors::{spec_from_authority, AdminError};
use crate::slot::{
    spec_check_holder, spec_validate, splice, window, window_fits, AuthorityCandidate,
    AuthoritySlot,
};

verus! {

broadcast use AuthoritySlot::lemma_len;

/// Transfer-time claim describing the intended new admin.
pub type AdminCandidate = AuthorityCandidate;

/// Borsh-encoded size of the config, the embedded window width.
pub const ENCODED_LEN: usize = 32;

/// What decoding a whole account's data gives: empty data has not been
/// initialized, anything but exactly 32 bytes is malformed, and 32 bytes
/// are the admin's id.
pub open spec fn spec_decode(data: Seq<u8>) -> Result<Seq<u8>, AdminError> {
    if data.len() == 0 {
        Err(AdminError::NotInitialized)
    } else if data.len() != 32 {
        Err(AdminError::DecodingFailed)
    } else {
        Ok(data)
    }
}

/// What decoding the window at `offset` gives: empty data has not been
/// initialized, non-empty data too short for the window is a layout error,
/// and otherwise the window holds the admin's id (zeros: renounced).
pub open spec fn spec_decode_at(data: Seq<u8>, offset: int) -> Result<Seq<u8>, AdminError> {
    if data.len() == 0 {
        Err(AdminError::NotInitialized)
    } else if !window_fits(data.len() as int, offset) {
        Err(AdminError::SlotOutOfBounds)
    } else {
        Ok(window(data, offset))
    }
}

/// What checking `signer` against the stored admin `admin` gives.
pub open spec fn spec_assert_admin(admin: Seq<u8>, signer: AccountWithMetadata) -> Result<
    (),
    AdminError,
> {
    match spec_check_holder(admin, signer) {
        Ok(_) => Ok(()),
        Err(e) => Err(spec_from_authority(e)),
    }
}

/// The id a candidate resolves to after validation, or the admin error.
pub open spec fn spec_resolve(candidate: AdminCandidate, evidence: AccountWithMetadata) -> Result<
    Seq<u8>,
    AdminError,
> {
    match spec_validate(candidate, evidence) {
        Ok(id) => if id == zero_id() {
            Err(AdminError::InvalidCandidate)
        } else {
            Ok(id)
        },
        Err(e) => Err(spec_from_authority(e)),
    }
}

/// The admin after a transfer from `admin`: the caller is checked first,
/// then the candidate.
pub open spec fn spec_transfer(
    admin: Seq<u8>,
    current: AccountWithMetadata,
    candidate: AdminCandidate,
    evidence: AccountWithMetadata,
) -> Result<Seq<u8>, AdminError> {
    match spec_assert_admin(admin, current) {
        Err(e) => Err(e),
        Ok(_) => spec_resolve(candidate, evidence),
    }
}

/// The admin after a renounce from `admin`: the default id, once the
/// caller is checked.
pub open spec fn spec_renounce(admin: Seq<u8>, current: AccountWithMetadata) -> Result<
    Seq<u8>,
    AdminError,
> {
    match spec_assert_admin(admin, current) {
        Err(e) => Err(e),
        Ok(_) => Ok(zero_id()),
    }
}

/// The data after a transfer on the window at `offset` of `data`.
pub open spec fn spec_transfer_data_at(
    data: Seq<u8>,
    offset: int,
    current: AccountWithMetadata,
    candidate: AdminCandidate,
    evidence: AccountWithMetadata,
) -> Result<Seq<u8>, AdminError> {
    match spec_decode_at(data, offset) {
        Err(e) => Err(e),
        Ok(admin) => match spec_transfer(admin, current, candidate, evidence) {
            Err(e) => Err(e),
            Ok(next) => Ok(splice(data, offset, next)),
        },
    }
}

/// The data after a renounce on a dedicated config holding `data`.
pub open spec fn spec_renounce_data(data: Seq<u8>, current: AccountWithMetadata) -> Result<
    Seq<u8>,
    AdminError,
> {
    match spec_decode(data) {
        Err(e) => Err(e),
        Ok(admin) => spec_renounce(admin, current),
    }
}

/// The data after a renounce on the window at `offset` of `data`.
pub open spec fn spec_renounce_data_at(
    data: Seq<u8>,
    offset: int,
    current: AccountWithMetadata,
) -> Result<Seq<u8>, AdminError> {
    match spec_decode_at(data, offset) {
        Err(e) => Err(e),
        Ok(admin) => match spec_renounce(admin, current) {
            Err(e) => Err(e),
            Ok(next) => Ok(splice(data, offset, next)),
        },
    }
}

/// The data after bootstrapping a dedicated config: the resolved
/// candidate's id is the whole of it.
pub open spec fn spec_bootstrap_data(candidate: AdminCandidate, evidence: AccountWithMetadata) -> Result<
    Seq<u8>,
    AdminError,
> {
    spec_resolve(candidate, evidence)
}

/// The data after bootstrapping the window at `offset` of `data`: the
/// candidate is validated first, then the window must fit.
pub open spec fn spec_bootstrap_data_at(
    data: Seq<u8>,
    offset: int,
    candidate: AdminCandidate,
    evidence: AccountWithMetadata,
) -> Result<Seq<u8>, AdminError> {
    match spec_resolve(candidate, evidence) {
        Err(e) => Err(e),
        Ok(admin) => if !window_fits(data.len() as int, offset) {
            Err(AdminError::SlotOutOfBounds)
        } else {
            Ok(splice(data, offset, admin))
        },
    }
}

/// `after` is `before` with, at most, other data bytes: the owner and the
/// balance are kept.
pub open spec fn keeps_all_but_data(before: Account, after: Account) -> bool {
    &&& after.program_owner == before.program_owner
    &&& after.balance == before.balance
}

/// `after` is `before` with, at most, other data bytes: the id, the
/// signature flag, the owner and the balance are kept.
pub open spec fn same_but_data(before: AccountWithMetadata, after: AccountWithMetadata) -> bool {
    &&& after.account_id == before.account_id
    &&& after.is_authorized == before.is_authorized
    &&& keeps_all_but_data(before.account, after.account)
}

/// An account operation that returned `r` took `before` to `after` as
/// `outcome` says: on success the data became the outcome's bytes, on
/// failure the error is the outcome's and the data is untouched; nothing
/// but the data ever changes.
pub open spec fn applied(
    before: AccountWithMetadata,
    after: AccountWithMetadata,
    r: Result<(), AdminError>,
    outcome: Result<Seq<u8>, AdminError>,
) -> bool {
    &&& same_but_data(before, after)
    &&& match outcome {
        Ok(data) => r is Ok && after.account.data@ == data,
        Err(e) => r == Err::<(), AdminError>(e) && after.account.data@ == before.account.data@,
    }
}

/// On-chain admin authority state of one program: a slot whose holder is
/// the current admin, the default id marking the renounced state. Its
/// borsh layout is the admin's 32-byte id.
#[derive(Clone, Copy, Debug, PartialEq, Eq)]
pub struct AdminConfig {
    slot: AuthoritySlot,
}

impl View for AdminConfig {
    type V = Seq<u8>;

    /// The stored admin's id bytes.
    closed spec fn view(&self) -> Seq<u8> {
        self.slot@
    }
}

impl Default for AdminConfig {
    /// The renounced config, as an account created without a bootstrap
    /// holds it.
    fn default() -> (c: AdminConfig)
        ensures
            c@ == zero_id(),
    {
        AdminConfig { slot: AuthoritySlot::renounced() }
    }
}

impl AdminConfig {
    /// Every config holds 32 bytes.
    pub broadcast proof fn lemma_len(c: AdminConfig)
        ensures
            (#[trigger] c@).len() == 32,
    {
    }

    /// The slot that holds the admin.
    pub fn slot(&self) -> (s: &AuthoritySlot)
        ensures
            s@ == self@,
    {
        &self.slot
    }

    /// The current admin's id (the default id when renounced).
    pub fn holder(&self) -> (id: AccountId)
        ensures
            id@ == self@,
    {
        self.slot.holder()
    }

    /// An initialised config with `admin` as admin. Refuses the default id,
    /// the reserved sentinel of the renounced state.
    pub fn initialize(admin: AccountId) -> (r: Result<AdminConfig, AdminError>)
        ensures
            r is Ok <==> admin@ != zero_id(),
            r is Ok ==> r->Ok_0@ == admin@,
            r is Err ==> r->Err_0 == AdminError::InvalidCandidate,
    {
        match AuthoritySlot::initialize(admin) {
            Ok(slot) => Ok(AdminConfig { slot }),
            Err(e) => Err(AdminError::from(e)),
        }
    }

    /// Checks that `signer` is the current admin: `Renounced` when the
    /// config has no admin, `MissingSignature` when the signer did not
    /// sign, `NotAdmin` when it signed but is not the admin.
    pub fn assert_admin(&self, signer: &AccountWithMetadata) -> (r: Result<(), AdminError>)
        ensures
            r == spec_assert_admin(self@, *signer),
    {
        match self.slot.check(signer) {
            Ok(()) => Ok(()),
            Err(e) => Err(AdminError::from(e)),
        }
    }

    /// Borsh-encodes the config: the admin's 32 id bytes.
    pub fn encode(&self) -> (r: Result<Vec<u8>, AdminError>)
        ensures
            r is Ok,
            r->Ok_0@ == self@,
    {
        let id = self.slot.holder();
        match borsh_encode_array(&id.value) {
            Ok(bytes) => Ok(bytes),
            Err(_) => Err(AdminError::EncodingFailed),
        }
    }

    /// Borsh-decodes a config from a whole account's data:
    /// `NotInitialized` on empty data, `DecodingFailed` on malformed data.
    pub fn decode(data: &[u8]) -> (r: Result<AdminConfig, AdminError>)
        ensures
            r is Ok <==> spec_decode(data@) is Ok,
            r is Ok ==> spec_decode(data@) == Ok::<Seq<u8>, AdminError>(r->Ok_0@),
            r is Err ==> spec_decode(data@) == Err::<Seq<u8>, AdminError>(r->Err_0),
    {
        if data.is_empty() {
            return Err(AdminError::NotInitialized);
        }
        match borsh_decode_array::<32>(data) {
            Ok(value) => Ok(AdminConfig { slot: AuthoritySlot::with_holder(AccountId::new(value)) }),
            Err(_) => Err(AdminError::DecodingFailed),
        }
    }

    /// Decodes the config's window at `offset`: `NotInitialized` on empty
    /// data, `SlotOutOfBounds` when the window does not fit.
    pub fn decode_at(data: &[u8], offset: usize) -> (r: Result<AdminConfig, AdminError>)
        ensures
            r is Ok <==> spec_decode_at(data@, offset as int) is Ok,
            r is Ok ==> spec_decode_at(data@, offset as int) == Ok::<Seq<u8>, AdminError>(
                r->Ok_0@,
            ),
            r is Err ==> spec_decode_at(data@, offset as int) == Err::<Seq<u8>, AdminError>(
                r->Err_0,
            ),
    {
        if data.is_empty() {
            return Err(AdminError::NotInitialized);
        }
        match AuthoritySlot::read_at(data, offset) {
            Ok(slot) => Ok(AdminConfig { slot }),
            Err(e) => Err(AdminError::from(e)),
        }
    }
    /// Loads the config from an account's whole data, as [`AdminConfig::decode`].
    pub fn from_account(account: &AccountWithMetadata) -> (r: Result<AdminConfig, AdminError>)
        ensures
            r is Ok <==> spec_decode(account.account.data@) is Ok,
            r is Ok ==> spec_decode(account.account.data@) == Ok::<Seq<u8>, AdminError>(
                r->Ok_0@,
            ),
            r is Err ==> spec_decode(account.account.data@) == Err::<Seq<u8>, AdminError>(
                r->Err_0,
            ),
    {
        Self::decode(account.account.data.as_slice())
    }

    /// Loads the config from an account's data at `offset`, as
    /// [`AdminConfig::decode_at`].
    pub fn from_account_at(account: &AccountWithMetadata, offset: usize) -> (r: Result<
        AdminConfig,
        AdminError,
    >)
        ensures
            r is Ok <==> spec_decode_at(account.account.data@, offset as int) is Ok,
            r is Ok ==> spec_decode_at(account.account.data@, offset as int) == Ok::<
                Seq<u8>,
                AdminError,
            >(r->Ok_0@),
            r is Err ==> spec_decode_at(account.account.data@, offset as int) == Err::<
                Seq<u8>,
                AdminError,
            >(r->Err_0),
    {
        Self::decode_at(account.account.data.as_slice(), offset)
    }

    /// Replaces the admin after checking that `current` is the admin and
    /// validating the candidate against `new_account`. On any error the
    /// config is unchanged.
    pub fn transfer(
        &mut self,
        current: &AccountWithMetadata,
        candidate: AdminCandidate,
        new_account: &AccountWithMetadata,
    ) -> (r: Result<(), AdminError>)
        ensures
            match spec_transfer(old(self)@, *current, candidate, *new_account) {
                Ok(next) => r is Ok && final(self)@ == next,
                Err(e) => r == Err::<(), AdminError>(e) && final(self)@ == old(self)@,
            },
    {
        if let Err(e) = self.slot.check(current) {
            return Err(AdminError::from(e));
        }
        let next = match candidate.validate(new_account) {
            Ok(id) => id,
            Err(e) => {
                return Err(AdminError::from(e));
            },
        };
        match self.slot.transfer_to(next) {
            Ok(()) => Ok(()),
            Err(e) => Err(AdminError::from(e)),
        }
    }

    /// Sets the admin to the default id, the renounced sentinel, after
    /// checking that `current` is the admin. Terminal: a renounced config
    /// refuses every later check, transfer and renounce.
    pub fn renounce(&mut self, current: &AccountWithMetadata) -> (r: Result<(), AdminError>)
        ensures
            match spec_renounce(old(self)@, *current) {
                Ok(next) => r is Ok && final(self)@ == next,
                Err(e) => r == Err::<(), AdminError>(e) && final(self)@ == old(self)@,
            },
    {
        if let Err(e) = self.slot.check(current) {
            return Err(AdminError::from(e));
        }
        self.slot.renounce();
        Ok(())
    }

    /// Encodes the config and makes it the whole of the account's data.
    pub fn write_to(&self, account: &mut AccountWithMetadata) -> (r: Result<(), AdminError>)
        ensures
            applied(*old(account), *final(account), r, Ok::<Seq<u8>, AdminError>(self@)),
    {
        let bytes = match self.encode() {
            Ok(b) => b,
            Err(e) => {
                return Err(e);
            },
        };
        account.account.data = bytes;
        Ok(())
    }

    /// Splices the config into the window at `offset` of the account's
    /// data, leaving every byte around the window untouched;
    /// `SlotOutOfBounds` when the window does not fit.
    pub fn write_to_at(&self, account: &mut AccountWithMetadata, offset: usize) -> (r: Result<
        (),
        AdminError,
    >)
        ensures
            applied(
                *old(account),
                *final(account),
                r,
                if window_fits(old(account).account.data@.len() as int, offset as int) {
                    Ok::<Seq<u8>, AdminError>(
                        splice(old(account).account.data@, offset as int, self@),
                    )
                } else {
                    Err::<Seq<u8>, AdminError>(AdminError::SlotOutOfBounds)
                },
            ),
    {
        match self.slot.write_at(&mut account.account.data, offset) {
            Ok(()) => Ok(()),
            Err(e) => Err(AdminError::from(e)),
        }
    }

    /// Validates a candidate, builds a fresh config from it and makes it
    /// the whole of the account's data.
    pub fn bootstrap(
        config_account: &mut AccountWithMetadata,
        candidate: AdminCandidate,
        new_account: &AccountWithMetadata,
    ) -> (r: Result<(), AdminError>)
        ensures
            applied(
                *old(config_account),
                *final(config_account),
                r,
                spec_bootstrap_data(candidate, *new_account),
            ),
    {
        let resolved = match candidate.validate(new_account) {
            Ok(id) => id,
            Err(e) => {
                return Err(AdminError::from(e));
            },
        };
        let state = match Self::initialize(resolved) {
            Ok(c) => c,
            Err(e) => {
                return Err(e);
            },
        };
        state.write_to(config_account)
    }

    /// Validates a candidate, builds a fresh config from it and splices it
    /// into the window at `offset`: candidate errors first, then
    /// `SlotOutOfBounds` when the data does not cover the window.
    pub fn bootstrap_at(
        config_account: &mut AccountWithMetadata,
        offset: usize,
        candidate: AdminCandidate,
        new_account: &AccountWithMetadata,
    ) -> (r: Result<(), AdminError>)
        ensures
            applied(
                *old(config_account),
                *final(config_account),
                r,
                spec_bootstrap_data_at(
                    old(config_account).account.data@,
                    offset as int,
                    candidate,
                    *new_account,
                ),
            ),
    {
        let resolved = match candidate.validate(new_account) {
            Ok(id) => id,
            Err(e) => {
                return Err(AdminError::from(e));
            },
        };
        let state = match Self::initialize(resolved) {
            Ok(c) => c,
            Err(e) => {
                return Err(e);
            },
        };
        state.write_to_at(config_account, offset)
    }

    /// Loads the config from the whole account data, transfers the admin
    /// and writes back: the dedicated case, offset 0.
    pub fn perform_transfer(
        config_account: &mut AccountWithMetadata,
        current: &AccountWithMetadata,
        candidate: AdminCandidate,
        new_account: &AccountWithMetadata,
    ) -> (r: Result<(), AdminError>)
        ensures
            applied(
                *old(config_account),
                *final(config_account),
                r,
                spec_transfer_data_at(
                    old(config_account).account.data@,
                    0,
                    *current,
                    candidate,
                    *new_account,
                ),
            ),
    {
        Self::perform_transfer_at(config_account, 0, current, candidate, new_account)
    }

    /// Loads the config from the window at `offset`, transfers the admin
    /// and splices the result back.
    pub fn perform_transfer_at(
        config_account: &mut AccountWithMetadata,
        offset: usize,
        current: &AccountWithMetadata,
        candidate: AdminCandidate,
        new_account: &AccountWithMetadata,
    ) -> (r: Result<(), AdminError>)
        ensures
            applied(
                *old(config_account),
                *final(config_account),
                r,
                spec_transfer_data_at(
                    old(config_account).account.data@,
                    offset as int,
                    *current,
                    candidate,
                    *new_account,
                ),
            ),
    {
        let mut state = match Self::from_account_at(config_account, offset) {
            Ok(c) => c,
            Err(e) => {
                return Err(e);
            },
        };
        if let Err(e) = state.transfer(current, candidate, new_account) {
            return Err(e);
        }
        state.write_to_at(config_account, offset)
    }

    /// Loads the config from the whole account data, renounces the admin
    /// and writes back.
    pub fn perform_renounce(
        config_account: &mut AccountWithMetadata,
        current: &AccountWithMetadata,
    ) -> (r: Result<(), AdminError>)
        ensures
            applied(
                *old(config_account),
                *final(config_account),
                r,
                spec_renounce_data(old(config_account).account.data@, *current),
            ),
    {
        let mut state = match Self::from_account(config_account) {
            Ok(c) => c,
            Err(e) => {
                return Err(e);
            },
        };
        if let Err(e) = state.renounce(current) {
            return Err(e);
        }
        state.write_to(config_account)
    }

    /// Loads the config from the window at `offset`, renounces the admin
    /// and splices the result back.
    pub fn perform_renounce_at(
        config_account: &mut AccountWithMetadata,
        offset: usize,
        current: &AccountWithMetadata,
    ) -> (r: Result<(), AdminError>)
        ensures
            applied(
                *old(config_account),
                *final(config_account),
                r,
                spec_renounce_data_at(old(config_account).account.data@, offset as int, *current),
            ),
    {
        let mut state = match Self::from_account_at(config_account, offset) {
            Ok(c) => c,
            Err(e) => {
                return Err(e);
            },
        };
        if let Err(e) = state.renounce(current) {
            return Err(e);
        }
        state.write_to_at(config_account, offset)
    }
}

} // verus!
