use vstd::prelude::*;
use crate::address::Address;

verus! {

/// Fields of a vesting record: who owns the vesting, which asset it vests,
/// where its treasury lives, the label it was derived from, and the bumps
/// that re-derive the two addresses.
pub struct VestingAccount {
    pub owner: Address,
    pub mint: Address,
    pub treasury: Address,
    pub company_name: String,
    pub bump_for_treasury: u8,
    pub bump: u8,
}

/// The fields of a vesting record, with the label as characters.
pub struct RecordView {
    pub owner: Address,
    pub mint: Address,
    pub treasury: Address,
    pub company_name: Seq<char>,
    pub bump_for_treasury: u8,
    pub bump: u8,
}

impl View for VestingAccount {
    type V = RecordView;

    open spec fn view(&self) -> RecordView {
        RecordView {
            owner: self.owner,
            mint: self.mint,
            treasury: self.treasury,
            company_name: self.company_name@,
            bump_for_treasury: self.bump_for_treasury,
            bump: self.bump,
        }
    }
}

/// A custody account holding a balance of one asset, spendable only by its
/// authority.
#[derive(Clone, Copy, Debug)]
pub struct TreasuryAccount {
    pub mint: Address,
    pub authority: Address,
    pub amount: u64,
}

/// What an account on the ledger holds.
pub enum AccountData {
    /// A plain account holding only lamports; it can pay for new accounts.
    Wallet,
    /// An asset-type descriptor.
    Mint { decimals: u8 },
    Vesting(VestingAccount),
    Treasury(TreasuryAccount),
}

/// An allocated account: its lamport balance and its contents.
pub struct Account {
    pub lamports: u64,
    pub data: AccountData,
}

/// The contents of an account, with a record seen through its view.
pub enum DataView {
    Wallet,
    Mint { decimals: u8 },
    Vesting(RecordView),
    Treasury(TreasuryAccount),
}

/// An account seen through the view of its contents.
pub struct AccountView {
    pub lamports: u64,
    pub data: DataView,
}

impl View for AccountData {
    type V = DataView;

    open spec fn view(&self) -> DataView {
        match self {
            AccountData::Wallet => DataView::Wallet,
            AccountData::Mint { decimals } => DataView::Mint { decimals: *decimals },
            AccountData::Vesting(v) => DataView::Vesting(v@),
            AccountData::Treasury(t) => DataView::Treasury(*t),
        }
    }
}

impl View for Account {
    type V = AccountView;

    open spec fn view(&self) -> AccountView {
        AccountView { lamports: self.lamports, data: self.data@ }
    }
}

struct Entry {
    address: Address,
    account: Account,
}

/// The accounts that exist, by address.
pub struct Ledger {
    entries: Vec<Entry>,
}

/// The accounts written by a sequence of entries, later entries replacing
/// earlier ones at the same address.
spec fn entries_map(s: Seq<Entry>) -> Map<Address, AccountView>
    decreases s.len(),
{
    if s.len() == 0 {
        Map::empty()
    } else {
        entries_map(s.drop_last()).insert(s.last().address, s.last().account@)
    }
}

impl View for Ledger {
    type V = Map<Address, AccountView>;

    closed spec fn view(&self) -> Map<Address, AccountView> {
        entries_map(self.entries@)
    }
}

impl Ledger {
    /// A ledger with no accounts.
    pub fn new() -> (r: Ledger)
        ensures
            r@ == Map::<Address, AccountView>::empty(),
    {
        Ledger { entries: Vec::new() }
    }

    /// Writes `account` at `address`, replacing whatever was there.
    pub fn set(&mut self, address: Address, account: Account)
        ensures
            final(self)@ == old(self)@.insert(address, account@),
    {
        self.entries.push(Entry { address, account });
        assert(self.entries@.drop_last() =~= old(self).entries@);
    }

    /// The account at `address`, if one is allocated there.
    pub fn get(&self, address: &Address) -> (r: Option<&Account>)
        ensures
            r is Some <==> self@.contains_key(*address),
            r matches Some(a) ==> a@ == self@[*address],
    {
        let mut found: Option<&Account> = None;
        let mut i: usize = 0;
        while i < self.entries.len()
            invariant
                i <= self.entries.len(),
                found is Some <==> entries_map(self.entries@.take(i as int)).contains_key(*address),
                found matches Some(a) ==> a@ == entries_map(self.entries@.take(i as int))[*address],
            decreases self.entries.len() - i,
        {
            assert(self.entries@.take(i + 1).drop_last() =~= self.entries@.take(i as int));
            if self.entries[i].address.equals(address) {
                found = Some(&self.entries[i].account);
            }
            i = i + 1;
        }
        assert(self.entries@.take(i as int) =~= self.entries@);
        found
    }
}

} // verus!
