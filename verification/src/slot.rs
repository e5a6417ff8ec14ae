//! The single-holder authority slot and the transfer-time candidate.
//!
//! A slot holds one account id; the default (all-zero) id is the renounced
//! sentinel. The slot is stored as a 32-byte window, either as the whole of
//! an account's data or at a byte offset inside it.

use vstd::prelude::*;

use crate::account::{zero_id, AccountId, AccountWithMetadata, ProgramId};
use crate::codec::{borsh_decode_array, borsh_encode_array};
use crate::errors::AuthorityError;

verus! {

/// Width in bytes of the slot's window.
pub const SLOT_LEN: usize = 32;

/// Whether the window `[offset, offset + 32)` lies inside data of `len` bytes.
pub open spec fn window_fits(len: int, offset: int) -> bool {
    0 <= offset && offset + 32 <= len
}

/// The 32 bytes of `data` at `offset`.
pub open spec fn window(data: Seq<u8>, offset: int) -> Seq<u8> {
    data.subrange(offset, offset + 32)
}

/// `data` with its window at `offset` replaced by `bytes`.
pub open spec fn splice(data: Seq<u8>, offset: int, bytes: Seq<u8>) -> Seq<u8> {
    data.subrange(0, offset) + bytes + data.subrange(offset + 32, data.len() as int)
}

/// What checking `signer` against a slot holding `holder` gives: the
/// renounced slot rejects everyone, then the signature is required, then
/// the id must be the holder's.
pub open spec fn spec_check_holder(holder: Seq<u8>, signer: AccountWithMetadata) -> Result<
    (),
    AuthorityError,
> {
    if holder == zero_id() {
        Err(AuthorityError::Renounced)
    } else if !signer.is_authorized {
        Err(AuthorityError::MissingSignature)
    } else if signer.account_id@ != holder {
        Err(AuthorityError::NotHolder)
    } else {
        Ok(())
    }
}

/// The one holder of an authority.
#[derive(Clone, Copy, Debug, PartialEq, Eq)]
pub struct AuthoritySlot {
    holder: AccountId,
}

impl View for AuthoritySlot {
    type V = Seq<u8>;

    closed spec fn view(&self) -> Seq<u8> {
        self.holder@
    }
}

impl AuthoritySlot {
    /// Every slot holds exactly 32 bytes.
    pub broadcast proof fn lemma_len(slot: AuthoritySlot)
        ensures
            (#[trigger] slot@).len() == 32,
    {
    }

    /// A slot holding `holder`; the default id is refused, since it would
    /// be born renounced.
    pub fn initialize(holder: AccountId) -> (r: Result<AuthoritySlot, AuthorityError>)
        ensures
            r is Ok <==> holder@ != zero_id(),
            r is Ok ==> r->Ok_0@ == holder@,
            r is Err ==> r->Err_0 == AuthorityError::InvalidCandidate,
    {
        if holder.is_default() {
            Err(AuthorityError::InvalidCandidate)
        } else {
            Ok(AuthoritySlot { holder })
        }
    }

    /// The slot holding `holder` as stored, the default id included: the
    /// form a decoded slot takes.
    pub fn with_holder(holder: AccountId) -> (s: AuthoritySlot)
        ensures
            s@ == holder@,
    {
        AuthoritySlot { holder }
    }

    /// The renounced slot.
    pub fn renounced() -> (s: AuthoritySlot)
        ensures
            s@ == zero_id(),
    {
        AuthoritySlot { holder: AccountId::default() }
    }

    /// The current holder.
    pub fn holder(&self) -> (id: AccountId)
        ensures
            id@ == self@,
    {
        self.holder
    }

    /// Whether the slot is renounced.
    pub fn is_renounced(&self) -> (b: bool)
        ensures
            b == (self@ == zero_id()),
    {
        self.holder.is_default()
    }

    /// Checks that `signer` is the current holder and signed.
    pub fn check(&self, signer: &AccountWithMetadata) -> (r: Result<(), AuthorityError>)
        ensures
            r == spec_check_holder(self@, *signer),
    {
        if self.holder.is_default() {
            Err(AuthorityError::Renounced)
        } else if !signer.is_authorized {
            Err(AuthorityError::MissingSignature)
        } else if !signer.account_id.same_as(&self.holder) {
            Err(AuthorityError::NotHolder)
        } else {
            Ok(())
        }
    }

    /// Installs `next` as holder; the default id is refused, since that
    /// would be a silent renounce.
    pub fn transfer_to(&mut self, next: AccountId) -> (r: Result<(), AuthorityError>)
        ensures
            r is Ok <==> next@ != zero_id(),
            r is Ok ==> final(self)@ == next@,
            r is Err ==> r->Err_0 == AuthorityError::InvalidCandidate && final(self)@ == old(
                self,
            )@,
    {
        if next.is_default() {
            Err(AuthorityError::InvalidCandidate)
        } else {
            self.holder = next;
            Ok(())
        }
    }

    /// Sets the holder to the default id: renounced, for good.
    pub fn renounce(&mut self)
        ensures
            final(self)@ == zero_id(),
    {
        self.holder = AccountId::default();
    }

    /// Reads the slot from the window at `offset`.
    pub fn read_at(data: &[u8], offset: usize) -> (r: Result<AuthoritySlot, AuthorityError>)
        ensures
            r is Ok <==> window_fits(data@.len() as int, offset as int),
            r is Ok ==> r->Ok_0@ == window(data@, offset as int),
            r is Err ==> r->Err_0 == AuthorityError::SlotOutOfBounds,
    {
        if offset > data.len() || data.len() - offset < SLOT_LEN {
            return Err(AuthorityError::SlotOutOfBounds);
        }
        let bytes = &data[offset..offset + SLOT_LEN];
        assert(bytes@ == window(data@, offset as int));
        match borsh_decode_array::<32>(bytes) {
            Ok(value) => Ok(AuthoritySlot { holder: AccountId::new(value) }),
            Err(_) => Err(AuthorityError::SlotOutOfBounds),
        }
    }

    /// Writes the slot into the window at `offset`, leaving every byte
    /// outside the window as it was.
    pub fn write_at(&self, data: &mut Vec<u8>, offset: usize) -> (r: Result<(), AuthorityError>)
        ensures
            r is Ok <==> window_fits(old(data)@.len() as int, offset as int),
            r is Ok ==> final(data)@ == splice(old(data)@, offset as int, self@),
            r is Err ==> r->Err_0 == AuthorityError::SlotOutOfBounds && final(data)@ == old(
                data,
            )@,
    {
        if offset > data.len() || data.len() - offset < SLOT_LEN {
            return Err(AuthorityError::SlotOutOfBounds);
        }
        let encoded = match borsh_encode_array(&self.holder.value) {
            Ok(v) => v,
            Err(_) => {
                return Err(AuthorityError::SlotOutOfBounds);
            },
        };
        let ghost before = data@;
        let mut i: usize = 0;
        while i < SLOT_LEN
            invariant
                0 <= i <= 32,
                encoded@ == self@,
                self@.len() == 32,
                offset + 32 <= before.len(),
                data@.len() == before.len(),
                data.len() == before.len(),
                forall|j: int| 0 <= j < offset ==> data@[j] == before[j],
                forall|j: int| offset + 32 <= j < before.len() ==> data@[j] == before[j],
                forall|j: int| offset + i <= j < offset + 32 ==> data@[j] == before[j],
                forall|j: int| 0 <= j < i ==> data@[offset + j] == self@[j],
            decreases 32 - i,
        {
            data.set(offset + i, encoded[i]);
            i = i + 1;
        }
        assert(data@ =~= splice(before, offset as int, self@));
        Ok(())
    }
}

/// Transfer-time claim describing the intended new holder, always paired
/// with an evidence account. `Signer` proves key control by co-signing.
/// `Pda` names a program-derived address: `address` is the address that
/// LEZ derives from `program_id` and `seed` (`AccountId::for_public_pda`),
/// filled in at the framework boundary where that derivation is available.
#[derive(Clone, Copy, Debug, PartialEq, Eq)]
pub enum AuthorityCandidate {
    /// The evidence account itself, which must have co-signed.
    Signer,
    /// A program-derived address, which a program must own.
    Pda {
        /// The deriving program.
        program_id: ProgramId,
        /// The derivation seed.
        seed: [u8; 32],
        /// The derived address.
        address: AccountId,
    },
}

/// What validating `candidate` against `evidence` gives: the id to install,
/// or why the candidate is refused.
pub open spec fn spec_validate(candidate: AuthorityCandidate, evidence: AccountWithMetadata) -> Result<
    Seq<u8>,
    AuthorityError,
> {
    match candidate {
        AuthorityCandidate::Signer => {
            if !evidence.is_authorized {
                Err(AuthorityError::InvalidCandidate)
            } else if evidence.account_id@ == zero_id() {
                Err(AuthorityError::InvalidCandidate)
            } else {
                Ok(evidence.account_id@)
            }
        },
        AuthorityCandidate::Pda { address, .. } => {
            if address@ != evidence.account_id@ {
                Err(AuthorityError::CandidateMismatch)
            } else if !evidence.account.spec_program_owned() {
                Err(AuthorityError::UndeployedPda)
            } else if address@ == zero_id() {
                Err(AuthorityError::InvalidCandidate)
            } else {
                Ok(address@)
            }
        },
    }
}

impl AuthorityCandidate {
    /// Validates the candidate against its evidence account and resolves
    /// the id to install.
    pub fn validate(&self, evidence: &AccountWithMetadata) -> (r: Result<AccountId, AuthorityError>)
        ensures
            r is Ok <==> spec_validate(*self, *evidence) is Ok,
            r is Ok ==> spec_validate(*self, *evidence) == Ok::<Seq<u8>, AuthorityError>(
                r->Ok_0@,
            ),
            r is Err ==> spec_validate(*self, *evidence) == Err::<Seq<u8>, AuthorityError>(
                r->Err_0,
            ),
    {
        match self {
            AuthorityCandidate::Signer => {
                if !evidence.is_authorized {
                    Err(AuthorityError::InvalidCandidate)
                } else if evidence.account_id.is_default() {
                    Err(AuthorityError::InvalidCandidate)
                } else {
                    Ok(evidence.account_id)
                }
            },
            AuthorityCandidate::Pda { address, .. } => {
                if !address.same_as(&evidence.account_id) {
                    Err(AuthorityError::CandidateMismatch)
                } else if !evidence.account.is_program_owned() {
                    Err(AuthorityError::UndeployedPda)
                } else if address.is_default() {
                    Err(AuthorityError::InvalidCandidate)
                } else {
                    Ok(*address)
                }
            },
        }
    }
}

} // verus!
