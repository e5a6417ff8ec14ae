//! Plain-value models of the LEZ account types that the admin logic reads.

use vstd::prelude::*;

verus! {

/// The all-zero id: the default account id, used as the renounced sentinel.
pub open spec fn zero_id() -> Seq<u8> {
    Seq::new(32, |i: int| 0u8)
}

/// A 32-byte LEZ account id.
#[derive(Clone, Copy, Debug, PartialEq, Eq)]
pub struct AccountId {
    /// The raw id bytes.
    pub value: [u8; 32],
}

impl View for AccountId {
    type V = Seq<u8>;

    open spec fn view(&self) -> Seq<u8> {
        self.value@
    }
}

impl AccountId {
    /// Builds an id from its raw bytes.
    pub fn new(value: [u8; 32]) -> (id: AccountId)
        ensures
            id.value == value,
            id@ == value@,
    {
        AccountId { value }
    }

    /// The raw id bytes.
    pub fn value(&self) -> (v: [u8; 32])
        ensures
            v == self.value,
    {
        self.value
    }

    /// Whether this id is the default (all-zero) id.
    pub fn is_default(&self) -> (b: bool)
        ensures
            b == (self@ == zero_id()),
    {
        let mut i: usize = 0;
        while i < 32
            invariant
                0 <= i <= 32,
                self@.len() == 32,
                forall|j: int| 0 <= j < i ==> self@[j] == 0u8,
            decreases 32 - i,
        {
            if self.value[i] != 0 {
                assert(self@[i as int] != zero_id()[i as int]);
                return false;
            }
            i = i + 1;
        }
        assert(self@ =~= zero_id());
        true
    }

    /// Whether two ids hold the same bytes.
    pub fn same_as(&self, other: &AccountId) -> (b: bool)
        ensures
            b == (self@ == other@),
    {
        let mut i: usize = 0;
        while i < 32
            invariant
                0 <= i <= 32,
                self@.len() == 32,
                other@.len() == 32,
                forall|j: int| 0 <= j < i ==> self@[j] == other@[j],
            decreases 32 - i,
        {
            if self.value[i] != other.value[i] {
                return false;
            }
            i = i + 1;
        }
        assert(self@ =~= other@);
        true
    }
}

impl Default for AccountId {
    fn default() -> (id: AccountId)
        ensures
            id@ == zero_id(),
    {
        let id = AccountId { value: [0u8; 32] };
        assert(id@ =~= zero_id());
        id
    }
}


/// A LEZ program id: eight 32-bit words.
pub type ProgramId = [u32; 8];

/// The all-zero program id: no program owns the account.
pub open spec fn zero_program() -> Seq<u32> {
    Seq::new(8, |i: int| 0u32)
}

/// The on-chain state of one account.
#[derive(Clone, Debug, PartialEq, Eq)]
pub struct Account {
    /// The program that owns the account, all zeros when none does.
    pub program_owner: ProgramId,
    /// The account's balance.
    pub balance: u128,
    /// The account's data bytes.
    pub data: Vec<u8>,
}

impl Account {
    /// Whether a program owns this account (its owner is not the default id).
    pub open spec fn spec_program_owned(&self) -> bool {
        self.program_owner@ != zero_program()
    }

    /// Whether a program owns this account. Funding alone leaves the owner
    /// at the default id, so a funded but unclaimed account is not owned.
    pub fn is_program_owned(&self) -> (b: bool)
        ensures
            b == self.spec_program_owned(),
    {
        let mut i: usize = 0;
        while i < 8
            invariant
                0 <= i <= 8,
                self.program_owner@.len() == 8,
                forall|j: int| 0 <= j < i ==> self.program_owner@[j] == 0u32,
            decreases 8 - i,
        {
            if self.program_owner[i] != 0 {
                assert(self.program_owner@[i as int] != zero_program()[i as int]);
                return true;
            }
            i = i + 1;
        }
        assert(self.program_owner@ =~= zero_program());
        false
    }
}

impl Default for Account {
    fn default() -> (a: Account)
        ensures
            a.program_owner@ == zero_program(),
            a.balance == 0,
            a.data@ == Seq::<u8>::empty(),
    {
        let a = Account { program_owner: [0u32; 8], balance: 0, data: Vec::new() };
        assert(a.program_owner@ =~= zero_program());
        a
    }
}

/// An account as an instruction sees it: its state, whether it signed the
/// transaction, and its id.
#[derive(Clone, Debug, PartialEq, Eq)]
pub struct AccountWithMetadata {
    /// The account's state.
    pub account: Account,
    /// Whether the transaction carries a valid signature by this account.
    pub is_authorized: bool,
    /// The account's id.
    pub account_id: AccountId,
}

} // verus!
