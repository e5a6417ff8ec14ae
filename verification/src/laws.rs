//! Laws of the admin authority: what holds of every state and across
//! calls, stated over the same spec functions that the operations'
//! contracts use.

use vstd::prelude::*;

use crate::account::{zero_id, AccountWithMetadata};
use crate::config::{
    spec_assert_admin, spec_bootstrap_data, spec_bootstrap_data_at, spec_decode, spec_decode_at,
    spec_renounce, spec_renounce_data, spec_renounce_data_at, spec_resolve, spec_transfer,
    spec_transfer_data_at, AdminCandidate, AdminConfig,
};
use crate::errors::AdminError;
use crate::instructions::spec_require_admin;
use crate::slot::{spec_validate, AuthorityCandidate};
use crate::sample_embedded::spec_prog_bytes;
use crate::slot::{splice, window, window_fits};
use vstd::bytes::{spec_u64_from_le_bytes, spec_u64_to_le_bytes};

verus! {

/// A renounced admin refuses every signer, with `Renounced`.
pub proof fn law_renounced_refuses_every_signer(signer: AccountWithMetadata)
    ensures
        spec_assert_admin(zero_id(), signer) == Err::<(), AdminError>(AdminError::Renounced),
{
}

/// Renounce is terminal: from the renounced state every transfer and
/// every renounce fails with `Renounced`, so the admin stays renounced.
pub proof fn law_renounce_is_terminal(
    current: AccountWithMetadata,
    candidate: AdminCandidate,
    evidence: AccountWithMetadata,
)
    ensures
        spec_transfer(zero_id(), current, candidate, evidence) == Err::<Seq<u8>, AdminError>(
            AdminError::Renounced,
        ),
        spec_renounce(zero_id(), current) == Err::<Seq<u8>, AdminError>(AdminError::Renounced),
{
}

/// Only the admin acts: a transfer or renounce that succeeds was asked by
/// a caller that signed and whose id is the admin's, and the admin was not
/// renounced.
pub proof fn law_only_admin_changes_the_admin(
    admin: Seq<u8>,
    current: AccountWithMetadata,
    candidate: AdminCandidate,
    evidence: AccountWithMetadata,
)
    ensures
        spec_transfer(admin, current, candidate, evidence) is Ok ==> current.is_authorized
            && current.account_id@ == admin && admin != zero_id(),
        spec_renounce(admin, current) is Ok ==> current.is_authorized && current.account_id@
            == admin && admin != zero_id(),
        spec_assert_admin(admin, current) is Ok <==> (current.is_authorized
            && current.account_id@ == admin && admin != zero_id()),
{
}

/// The renounced sentinel is never installed as an admin: bootstrap and
/// transfer only ever install a non-default id, and what they install is
/// the validated candidate, a co-signing signer or a program-owned PDA
/// whose derived address is the evidence account's id.
pub proof fn law_installed_admin_is_a_valid_candidate(
    candidate: AdminCandidate,
    evidence: AccountWithMetadata,
)
    ensures
        spec_resolve(candidate, evidence) is Ok ==> {
            let id = spec_resolve(candidate, evidence)->Ok_0;
            &&& id != zero_id()
            &&& id == evidence.account_id@
            &&& match candidate {
                AdminCandidate::Signer => evidence.is_authorized,
                AdminCandidate::Pda { address, .. } => address@ == id
                    && evidence.account.spec_program_owned(),
            }
        },
        spec_bootstrap_data(candidate, evidence) == spec_resolve(candidate, evidence),
{
}

/// One admin at a time: after a transfer, exactly the signers that signed
/// and carry the new admin's id pass the check; the previous admin no
/// longer does unless it is the new one.
pub proof fn law_transfer_moves_the_admin(
    admin: Seq<u8>,
    current: AccountWithMetadata,
    candidate: AdminCandidate,
    evidence: AccountWithMetadata,
    signer: AccountWithMetadata,
)
    requires
        spec_transfer(admin, current, candidate, evidence) is Ok,
    ensures
        ({
            let next = spec_transfer(admin, current, candidate, evidence)->Ok_0;
            &&& spec_assert_admin(next, signer) is Ok <==> (signer.is_authorized
                && signer.account_id@ == next)
            &&& next != current.account_id@ ==> spec_assert_admin(next, current)
                == Err::<(), AdminError>(AdminError::NotAdmin)
        }),
{
}

/// Encoding then decoding gives the config back.
pub proof fn law_encode_decode_roundtrip(config: AdminConfig)
    ensures
        spec_decode(config@) == Ok::<Seq<u8>, AdminError>(config@),
{
    AdminConfig::lemma_len(config);
}

/// Decoding then encoding gives the data back.
pub proof fn law_decode_encode_roundtrip(data: Seq<u8>)
    ensures
        spec_decode(data) is Ok ==> spec_decode(data)->Ok_0 == data,
{
}

/// Writing a 32-byte slot into a window that fits keeps the data's
/// length, keeps every byte outside the window, and reading the window
/// back gives what was written.
pub proof fn law_splice_reads_back_and_keeps_neighbors(
    data: Seq<u8>,
    offset: int,
    bytes: Seq<u8>,
)
    requires
        window_fits(data.len() as int, offset),
        bytes.len() == 32,
    ensures
        splice(data, offset, bytes).len() == data.len(),
        window(splice(data, offset, bytes), offset) == bytes,
        forall|j: int|
            0 <= j < data.len() && !(offset <= j < offset + 32) ==> #[trigger] splice(
                data,
                offset,
                bytes,
            )[j] == data[j],
        spec_decode_at(splice(data, offset, bytes), offset) == Ok::<Seq<u8>, AdminError>(bytes),
{
    let s = splice(data, offset, bytes);
    assert(window(s, offset) =~= bytes);
    assert forall|j: int| 0 <= j < data.len() && !(offset <= j < offset + 32) implies #[trigger] s[j]
        == data[j] by {
        if j < offset {
        } else {
        }
    }
}

/// What a bootstrap at an offset installs is read back from that offset,
/// and it is the resolved candidate.
pub proof fn law_bootstrap_at_reads_back(
    data: Seq<u8>,
    offset: int,
    candidate: AdminCandidate,
    evidence: AccountWithMetadata,
)
    requires
        spec_bootstrap_data_at(data, offset, candidate, evidence) is Ok,
    ensures
        spec_decode_at(spec_bootstrap_data_at(data, offset, candidate, evidence)->Ok_0, offset)
            == spec_resolve(candidate, evidence),
{
    let id = spec_resolve(candidate, evidence)->Ok_0;
    law_installed_admin_is_a_valid_candidate(candidate, evidence);
    law_splice_reads_back_and_keeps_neighbors(data, offset, id);
}

/// A transfer at an offset rewrites only its window, and the window then
/// holds the new admin: a later read at that offset sees exactly the
/// transfer's result.
pub proof fn law_transfer_at_reads_back(
    data: Seq<u8>,
    offset: int,
    current: AccountWithMetadata,
    candidate: AdminCandidate,
    evidence: AccountWithMetadata,
)
    requires
        spec_transfer_data_at(data, offset, current, candidate, evidence) is Ok,
    ensures
        ({
            let after = spec_transfer_data_at(data, offset, current, candidate, evidence)->Ok_0;
            &&& after.len() == data.len()
            &&& forall|j: int|
                0 <= j < data.len() && !(offset <= j < offset + 32) ==> #[trigger] after[j]
                    == data[j]
            &&& spec_decode_at(after, offset) == spec_transfer(
                window(data, offset),
                current,
                candidate,
                evidence,
            )
        }),
{
    let admin = window(data, offset);
    let next = spec_transfer(admin, current, candidate, evidence)->Ok_0;
    law_installed_admin_is_a_valid_candidate(candidate, evidence);
    law_splice_reads_back_and_keeps_neighbors(data, offset, next);
}

/// Renounce is terminal on stored data too: after a renounce at an
/// offset, the window reads back as renounced and every later transfer or
/// renounce there fails with `Renounced`, leaving the data as it is.
pub proof fn law_renounce_at_is_terminal(
    data: Seq<u8>,
    offset: int,
    current: AccountWithMetadata,
    later: AccountWithMetadata,
    candidate: AdminCandidate,
    evidence: AccountWithMetadata,
)
    requires
        spec_renounce_data_at(data, offset, current) is Ok,
    ensures
        ({
            let after = spec_renounce_data_at(data, offset, current)->Ok_0;
            &&& spec_decode_at(after, offset) == Ok::<Seq<u8>, AdminError>(zero_id())
            &&& spec_transfer_data_at(after, offset, later, candidate, evidence) == Err::<
                Seq<u8>,
                AdminError,
            >(AdminError::Renounced)
            &&& spec_renounce_data_at(after, offset, later) == Err::<Seq<u8>, AdminError>(
                AdminError::Renounced,
            )
        }),
{
    assert(zero_id().len() == 32);
    law_splice_reads_back_and_keeps_neighbors(data, offset, zero_id());
}

/// Renounce is terminal for a dedicated config: after a renounce the data
/// decodes as renounced and a later renounce fails with `Renounced`.
pub proof fn law_renounce_is_terminal_dedicated(
    data: Seq<u8>,
    current: AccountWithMetadata,
    later: AccountWithMetadata,
)
    requires
        spec_renounce_data(data, current) is Ok,
    ensures
        spec_renounce_data(data, current)->Ok_0 == zero_id(),
        spec_decode(zero_id()) == Ok::<Seq<u8>, AdminError>(zero_id()),
        spec_renounce_data(zero_id(), later) == Err::<Seq<u8>, AdminError>(
            AdminError::Renounced,
        ),
{
    assert(zero_id().len() == 32);
}

/// State detection: empty data is never initialized, non-empty data too
/// short for the window is a layout error, and a zero window is the
/// renounced state (an embedding account created without a bootstrap is
/// born renounced).
pub proof fn law_decode_at_discriminates(data: Seq<u8>, offset: int)
    requires
        offset >= 0,
    ensures
        data.len() == 0 ==> spec_decode_at(data, offset) == Err::<Seq<u8>, AdminError>(
            AdminError::NotInitialized,
        ),
        data.len() > 0 && data.len() < offset + 32 ==> spec_decode_at(data, offset) == Err::<
            Seq<u8>,
            AdminError,
        >(AdminError::SlotOutOfBounds),
        data.len() >= offset + 32 && window(data, offset) == zero_id() ==> spec_decode_at(
            data,
            offset,
        ) == Ok::<Seq<u8>, AdminError>(zero_id()),
{
}

/// The dedicated config is the degenerate embedded case: on exactly 32
/// bytes of data, reading the window at offset 0 and decoding the whole
/// data agree.
pub proof fn law_dedicated_is_offset_zero(data: Seq<u8>)
    requires
        data.len() == 32,
    ensures
        spec_decode_at(data, 0) == spec_decode(data),
{
    assert(window(data, 0) =~= data);
}

/// The embedded program config's layout is a faithful encoding: two
/// configs with the same bytes have the same value, padding and admin, so
/// decoding what was written gives back what was written.
pub proof fn law_prog_config_layout_is_injective(
    value1: u64,
    padding1: Seq<u8>,
    admin1: Seq<u8>,
    value2: u64,
    padding2: Seq<u8>,
    admin2: Seq<u8>,
)
    requires
        padding1.len() == 24,
        padding2.len() == 24,
        admin1.len() == 32,
        admin2.len() == 32,
        spec_prog_bytes(value1, padding1, admin1) == spec_prog_bytes(value2, padding2, admin2),
    ensures
        value1 == value2,
        padding1 == padding2,
        admin1 == admin2,
{
    vstd::bytes::lemma_auto_spec_u64_to_from_le_bytes();
    let b = spec_prog_bytes(value1, padding1, admin1);
    let l1 = spec_u64_to_le_bytes(value1);
    let l2 = spec_u64_to_le_bytes(value2);
    assert(b.subrange(0, 8) =~= l1);
    assert(b.subrange(0, 8) =~= l2);
    assert(spec_u64_from_le_bytes(l1) == value1);
    assert(spec_u64_from_le_bytes(l2) == value2);
    assert(b.subrange(8, 32) =~= padding1);
    assert(b.subrange(8, 32) =~= padding2);
    assert(b.subrange(32, 64) =~= admin1);
    assert(b.subrange(32, 64) =~= admin2);
}

/// A co-signing candidate with a non-default id is accepted, whatever else
/// its account holds, and resolves to its own id; a program-owned PDA
/// whose derived address is the evidence account's non-default id is
/// accepted and resolves to that address. A bootstrap therefore installs
/// exactly that id: a signing caller with a non-default id self-elects.
pub proof fn law_valid_candidates_are_accepted(
    candidate: AdminCandidate,
    evidence: AccountWithMetadata,
)
    ensures
        candidate is Signer && evidence.is_authorized && evidence.account_id@ != zero_id() ==> {
            &&& spec_validate(candidate, evidence) == Ok::<Seq<u8>, crate::errors::AuthorityError>(
                evidence.account_id@,
            )
            &&& spec_resolve(candidate, evidence) == Ok::<Seq<u8>, AdminError>(
                evidence.account_id@,
            )
            &&& spec_bootstrap_data(candidate, evidence) == Ok::<Seq<u8>, AdminError>(
                evidence.account_id@,
            )
        },
        (candidate matches AuthorityCandidate::Pda { address, .. } && address@
            == evidence.account_id@ && evidence.account.spec_program_owned()
            && evidence.account_id@ != zero_id()) ==> {
            &&& spec_resolve(candidate, evidence) == Ok::<Seq<u8>, AdminError>(
                evidence.account_id@,
            )
            &&& spec_bootstrap_data(candidate, evidence) == Ok::<Seq<u8>, AdminError>(
                evidence.account_id@,
            )
        },
{
}

/// A transfer installs exactly the evidence account's id, never anything
/// derived from it; it succeeds whenever the caller is the signing,
/// non-renounced admin and the candidate is valid; afterwards the evidence
/// account, when it signs, passes the admin check.
pub proof fn law_transfer_installs_exactly_the_evidence(
    admin: Seq<u8>,
    current: AccountWithMetadata,
    candidate: AdminCandidate,
    evidence: AccountWithMetadata,
)
    ensures
        spec_transfer(admin, current, candidate, evidence) is Ok ==> spec_transfer(
            admin,
            current,
            candidate,
            evidence,
        )->Ok_0 == evidence.account_id@,
        spec_transfer(admin, current, candidate, evidence) is Ok && evidence.is_authorized
            ==> spec_assert_admin(
            spec_transfer(admin, current, candidate, evidence)->Ok_0,
            evidence,
        ) is Ok,
        (current.is_authorized && current.account_id@ == admin && admin != zero_id()
            && candidate is Signer && evidence.is_authorized && evidence.account_id@
            != zero_id()) ==> spec_transfer(admin, current, candidate, evidence) == Ok::<
            Seq<u8>,
            AdminError,
        >(evidence.account_id@),
        (current.is_authorized && current.account_id@ == admin && admin != zero_id() && (
        candidate matches AuthorityCandidate::Pda { address, .. } && address@
            == evidence.account_id@ && evidence.account.spec_program_owned()
            && evidence.account_id@ != zero_id())) ==> spec_transfer(
            admin,
            current,
            candidate,
            evidence,
        ) == Ok::<Seq<u8>, AdminError>(evidence.account_id@),
{
}

/// A stored transfer at `offset` writes the evidence account's id into the
/// 32 bytes at `offset`, keeps every other byte and the length, and the
/// evidence account then passes the admin check on that data when it signs. It
/// succeeds whenever the window fits, the caller is the signing,
/// non-renounced admin stored there, and the candidate co-signs with a
/// non-default id.
pub proof fn law_transfer_at_writes_the_evidence(
    data: Seq<u8>,
    offset: int,
    current: AccountWithMetadata,
    candidate: AdminCandidate,
    evidence: AccountWithMetadata,
)
    requires
        0 <= offset,
    ensures
        spec_transfer_data_at(data, offset, current, candidate, evidence) is Ok ==> {
            let after = spec_transfer_data_at(data, offset, current, candidate, evidence)->Ok_0;
            &&& after.len() == data.len()
            &&& after.subrange(offset, offset + 32) == evidence.account_id@
            &&& forall|j: int|
                0 <= j < data.len() && !(offset <= j < offset + 32) ==> #[trigger] after[j]
                    == data[j]
        },
        (offset + 32 <= data.len() && current.is_authorized && current.account_id@
            == data.subrange(offset, offset + 32) && current.account_id@ != zero_id()
            && candidate is Signer && evidence.is_authorized && evidence.account_id@
            != zero_id()) ==> spec_transfer_data_at(data, offset, current, candidate, evidence)
            is Ok,
{
    law_transfer_installs_exactly_the_evidence(window(data, offset), current, candidate, evidence);
    if spec_transfer_data_at(data, offset, current, candidate, evidence) is Ok {
        law_splice_reads_back_and_keeps_neighbors(data, offset, evidence.account_id@);
    }
}

/// A renounce by the admin always succeeds when the window fits: the 32
/// bytes at `offset` become zero, every other byte and the length are
/// kept. In particular a slot that is the last field of its account can
/// be renounced.
pub proof fn law_renounce_at_succeeds_for_the_admin(
    data: Seq<u8>,
    offset: int,
    current: AccountWithMetadata,
)
    requires
        0 <= offset,
        offset + 32 <= data.len(),
        current.is_authorized,
        current.account_id@ == data.subrange(offset, offset + 32),
        current.account_id@ != zero_id(),
    ensures
        spec_renounce_data_at(data, offset, current) is Ok,
        ({
            let after = spec_renounce_data_at(data, offset, current)->Ok_0;
            &&& after.len() == data.len()
            &&& forall|j: int| offset <= j < offset + 32 ==> #[trigger] after[j] == 0u8
            &&& forall|j: int|
                0 <= j < data.len() && !(offset <= j < offset + 32) ==> #[trigger] after[j]
                    == data[j]
        }),
{
    assert(zero_id().len() == 32);
    law_splice_reads_back_and_keeps_neighbors(data, offset, zero_id());
    let after = spec_renounce_data_at(data, offset, current)->Ok_0;
    assert forall|j: int| offset <= j < offset + 32 implies #[trigger] after[j] == 0u8 by {
        assert(after.subrange(offset, offset + 32)[j - offset] == zero_id()[j - offset]);
    }
}

/// A renounce by the admin of a dedicated config always succeeds and
/// leaves 32 zero bytes.
pub proof fn law_renounce_succeeds_for_the_admin(data: Seq<u8>, current: AccountWithMetadata)
    requires
        data.len() == 32,
        current.is_authorized,
        current.account_id@ == data,
        data != zero_id(),
    ensures
        spec_renounce_data(data, current) == Ok::<Seq<u8>, AdminError>(Seq::new(32, |i: int| 0u8)),
{
    assert(zero_id() =~= Seq::new(32, |i: int| 0u8));
}

/// A bootstrap at an offset by a co-signing caller with a non-default id
/// succeeds whenever the window fits, writing that id at the offset and
/// keeping every other byte.
pub proof fn law_bootstrap_at_installs_the_signer(
    data: Seq<u8>,
    offset: int,
    caller: AccountWithMetadata,
)
    requires
        0 <= offset,
        offset + 32 <= data.len(),
        caller.is_authorized,
        caller.account_id@ != zero_id(),
    ensures
        spec_bootstrap_data_at(data, offset, AuthorityCandidate::Signer, caller) is Ok,
        ({
            let after = spec_bootstrap_data_at(data, offset, AuthorityCandidate::Signer, caller)->Ok_0;
            &&& after.len() == data.len()
            &&& after.subrange(offset, offset + 32) == caller.account_id@
            &&& forall|j: int|
                0 <= j < data.len() && !(offset <= j < offset + 32) ==> #[trigger] after[j]
                    == data[j]
        }),
{
    assert(caller.account_id@.len() == 32);
    law_splice_reads_back_and_keeps_neighbors(data, offset, caller.account_id@);
}

/// The admin check passes exactly for the signing account whose id is the
/// non-default id stored in the window at `offset`, and a window that does
/// not fit non-empty data is a layout error.
pub proof fn law_gate_passes_exactly_the_stored_admin(
    config: AccountWithMetadata,
    caller: AccountWithMetadata,
    offset: int,
)
    requires
        0 <= offset,
    ensures
        offset + 32 <= config.account.data@.len() ==> (spec_require_admin(config, caller, offset)
            is Ok <==> (caller.is_authorized && caller.account_id@
            == config.account.data@.subrange(offset, offset + 32) && caller.account_id@
            != zero_id())),
        config.account.data@.len() > 0 && offset + 32 > config.account.data@.len()
            ==> spec_require_admin(config, caller, offset) == Err::<(), AdminError>(
            AdminError::SlotOutOfBounds,
        ),
{
}

/// Decoding a dedicated config: empty data has not been initialized, 32
/// bytes are the admin's id as they stand, any other length is malformed.
pub proof fn law_decode_exact(data: Seq<u8>)
    ensures
        data.len() == 0 ==> spec_decode(data) == Err::<Seq<u8>, AdminError>(
            AdminError::NotInitialized,
        ),
        data.len() == 32 ==> spec_decode(data) == Ok::<Seq<u8>, AdminError>(data),
        data.len() != 0 && data.len() != 32 ==> spec_decode(data) == Err::<Seq<u8>, AdminError>(
            AdminError::DecodingFailed,
        ),
{
}

/// Which error the admin check gives: a renounced admin refuses with
/// `Renounced` first, then an unsigned caller is `MissingSignature`, then
/// a signing caller with another id is `NotAdmin`.
pub proof fn law_assert_admin_errors(admin: Seq<u8>, signer: AccountWithMetadata)
    ensures
        admin != zero_id() && !signer.is_authorized ==> spec_assert_admin(admin, signer) == Err::<
            (),
            AdminError,
        >(AdminError::MissingSignature),
        admin != zero_id() && signer.is_authorized && signer.account_id@ != admin
            ==> spec_assert_admin(admin, signer) == Err::<(), AdminError>(AdminError::NotAdmin),
{
}

/// Which error candidate validation gives: a `Signer` that did not
/// co-sign, or carries the default id, is `InvalidCandidate`; a `Pda`
/// whose address is not the evidence account's id is `CandidateMismatch`,
/// and one whose account no program owns is `UndeployedPda`.
pub proof fn law_candidate_errors(candidate: AdminCandidate, evidence: AccountWithMetadata)
    ensures
        candidate is Signer && (!evidence.is_authorized || evidence.account_id@ == zero_id())
            ==> spec_resolve(candidate, evidence) == Err::<Seq<u8>, AdminError>(
            AdminError::InvalidCandidate,
        ),
        (candidate matches AuthorityCandidate::Pda { address, .. } && address@
            != evidence.account_id@) ==> spec_resolve(candidate, evidence) == Err::<
            Seq<u8>,
            AdminError,
        >(AdminError::CandidateMismatch),
        (candidate matches AuthorityCandidate::Pda { address, .. } && address@
            == evidence.account_id@ && !evidence.account.spec_program_owned())
            ==> spec_resolve(candidate, evidence) == Err::<Seq<u8>, AdminError>(
            AdminError::UndeployedPda,
        ),
{
}

/// The caller is checked before the candidate: when the caller is not the
/// admin, a transfer fails with the admin check's error whatever the
/// candidate, and a renounce fails with it too. A bootstrap validates the
/// candidate before it looks at the window.
pub proof fn law_checks_come_in_order(
    admin: Seq<u8>,
    current: AccountWithMetadata,
    candidate: AdminCandidate,
    evidence: AccountWithMetadata,
    data: Seq<u8>,
    offset: int,
)
    ensures
        spec_assert_admin(admin, current) is Err ==> spec_transfer(
            admin,
            current,
            candidate,
            evidence,
        ) == Err::<Seq<u8>, AdminError>(spec_assert_admin(admin, current)->Err_0)
            && spec_renounce(admin, current) == Err::<Seq<u8>, AdminError>(
            spec_assert_admin(admin, current)->Err_0,
        ),
        spec_resolve(candidate, evidence) is Err ==> spec_bootstrap_data_at(
            data,
            offset,
            candidate,
            evidence,
        ) == Err::<Seq<u8>, AdminError>(spec_resolve(candidate, evidence)->Err_0),
        spec_resolve(candidate, evidence) is Ok && data.len() < offset + 32 ==> spec_bootstrap_data_at(
            data,
            offset,
            candidate,
            evidence,
        ) == Err::<Seq<u8>, AdminError>(AdminError::SlotOutOfBounds),
{
}

} // verus!
