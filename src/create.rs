use vstd::prelude::*;
use crate::address::Address;
use crate::derive::{
    label_bytes, record_address, record_derivation, treasury_address, treasury_derivation,
    MAX_LABEL_LEN,
};
use crate::ledger::{
    Account, AccountData, AccountView, DataView, Ledger, RecordView, TreasuryAccount,
    VestingAccount,
};

verus! {

/// Bytes of storage of a vesting record: owner, mint and treasury addresses,
/// the two bumps, a four-byte label length and a label area of 32 bytes.
pub const RECORD_SPACE: usize = 134;

/// Bytes of storage of a token account.
pub const TREASURY_SPACE: usize = 165;

/// The accounts that a creation names.
#[derive(Clone, Copy, Debug)]
pub struct CreateVestingAccount {
    /// Signs the creation and pays for both new accounts.
    pub signer: Address,
    /// Where the caller expects the vesting record.
    pub vesting_account: Address,
    /// The asset type to vest.
    pub mint: Address,
    /// Where the caller expects the treasury.
    pub vesting_token_account: Address,
}

/// Why a creation was refused.
#[derive(Clone, Copy, Debug, PartialEq, Eq, Structural)]
pub enum VestingError {
    /// The label is empty or longer than 32 bytes.
    InvalidLabel,
    /// The mint does not name an asset-type descriptor on the ledger.
    InvalidAssetType,
    /// No bump gives a program-derived address for the label.
    DerivationExhausted,
    /// A named account differs from the derived one, or the beneficiary is
    /// the treasury's own authority.
    AddressMismatch,
    /// The record or the treasury address is already allocated.
    AlreadyExists,
    /// The signer cannot pay for both accounts.
    InsufficientFunding,
}

/// Lamports that make an account of `len` data bytes rent-exempt.
pub open spec fn rent_for(len: nat) -> nat {
    (128 + len) * 3480 * 2
}

/// Lamports that a creation takes from the signer.
pub open spec fn creation_cost() -> nat {
    rent_for(RECORD_SPACE as nat) + rent_for(TREASURY_SPACE as nat)
}

/// A label is 1 to 32 bytes long in UTF-8.
pub open spec fn label_valid(label: Seq<char>) -> bool {
    0 < label_bytes(label).len() <= MAX_LABEL_LEN
}

/// `a` holds an asset-type descriptor.
pub open spec fn is_mint(l: Map<Address, AccountView>, a: Address) -> bool {
    l.contains_key(a) && l[a].data is Mint
}

/// `a` holds a plain account with at least `amount` lamports.
pub open spec fn can_pay(l: Map<Address, AccountView>, a: Address, amount: nat) -> bool {
    l.contains_key(a) && l[a].data is Wallet && l[a].lamports >= amount
}

/// The first check of a creation that fails, in the order: label, asset type,
/// derivation, named addresses, occupancy, funding. `None` when all pass.
pub open spec fn create_error(
    l: Map<Address, AccountView>,
    accounts: CreateVestingAccount,
    label: Seq<char>,
    beneficiary: Address,
    record: Option<(Address, u8)>,
    treasury: Option<(Address, u8)>,
) -> Option<VestingError> {
    if !label_valid(label) {
        Some(VestingError::InvalidLabel)
    } else if !is_mint(l, accounts.mint) {
        Some(VestingError::InvalidAssetType)
    } else if record is None || treasury is None {
        Some(VestingError::DerivationExhausted)
    } else {
        let ra = record.unwrap().0;
        let ta = treasury.unwrap().0;
        if accounts.vesting_account != ra || accounts.vesting_token_account != ta
            || beneficiary == ta {
            Some(VestingError::AddressMismatch)
        } else if l.contains_key(ra) || l.contains_key(ta) || ra == ta {
            Some(VestingError::AlreadyExists)
        } else if !can_pay(l, accounts.signer, creation_cost()) {
            Some(VestingError::InsufficientFunding)
        } else {
            None
        }
    }
}

/// `v` holds the fields that a creation writes.
pub open spec fn record_populated(
    v: RecordView,
    accounts: CreateVestingAccount,
    label: Seq<char>,
    beneficiary: Address,
    record: (Address, u8),
    treasury: (Address, u8),
) -> bool {
    &&& v.owner == beneficiary
    &&& v.mint == accounts.mint
    &&& v.treasury == treasury.0
    &&& v.company_name == label
    &&& v.bump == record.1
    &&& v.bump_for_treasury == treasury.1
}

/// The new treasury: empty, of the given asset type, spendable only by its
/// own derived address.
pub open spec fn new_treasury(mint: Address, treasury: Address) -> TreasuryAccount {
    TreasuryAccount { mint, authority: treasury, amount: 0 }
}

/// The ledger after a creation commits: the signer is charged, the record and
/// the treasury are allocated with their rent-exempt balances.
pub open spec fn committed(
    l: Map<Address, AccountView>,
    accounts: CreateVestingAccount,
    v: RecordView,
    record: Address,
    treasury: Address,
) -> Map<Address, AccountView> {
    l.insert(
        accounts.signer,
        AccountView {
            lamports: (l[accounts.signer].lamports - creation_cost()) as u64,
            data: DataView::Wallet,
        },
    ).insert(
        record,
        AccountView { lamports: rent_for(RECORD_SPACE as nat) as u64, data: DataView::Vesting(v) },
    ).insert(
        treasury,
        AccountView {
            lamports: rent_for(TREASURY_SPACE as nat) as u64,
            data: DataView::Treasury(new_treasury(accounts.mint, treasury)),
        },
    )
}

/// What a creation does to a ledger `l` and returns, given the two
/// derivation results: on success both accounts are written and the record
/// returned; on failure the ledger is untouched.
pub open spec fn create_post(
    l: Map<Address, AccountView>,
    accounts: CreateVestingAccount,
    label: Seq<char>,
    beneficiary: Address,
    record: Option<(Address, u8)>,
    treasury: Option<(Address, u8)>,
    r: Result<VestingAccount, VestingError>,
    after: Map<Address, AccountView>,
) -> bool {
    match r {
        Ok(v) => {
            &&& create_error(l, accounts, label, beneficiary, record, treasury) is None
            &&& record_populated(v@, accounts, label, beneficiary, record.unwrap(), treasury.unwrap())
            &&& after == committed(l, accounts, v@, record.unwrap().0, treasury.unwrap().0)
        },
        Err(e) => {
            &&& create_error(l, accounts, label, beneficiary, record, treasury) == Some(e)
            &&& after == l
        },
    }
}

/// Relies on anchor_lang's `Rent::default().minimum_balance`: at the default
/// 3480 lamports per byte-year and a two-year exemption threshold, `len` data
/// bytes plus 128 bytes of overhead cost (128 + len) * 3480 * 2 lamports.
#[verifier::external_body]
fn rent_exempt_minimum(len: usize) -> (r: u64)
    requires
        len <= 1024,
    ensures
        r == rent_for(len as nat),
{
    anchor_lang::prelude::Rent::default().minimum_balance(len)
}

/// Relies on the `LEN` of anchor_spl's SPL token account: 165 bytes.
#[verifier::external_body]
fn token_account_len() -> (r: usize)
    ensures
        r == TREASURY_SPACE,
{
    <anchor_spl::token::spl_token::state::Account as anchor_lang::solana_program::program_pack::Pack>::LEN
}

fn holds_mint(ledger: &Ledger, a: &Address) -> (r: bool)
    ensures
        r == is_mint(ledger@, *a),
{
    match ledger.get(a) {
        Some(acct) => match &acct.data {
            AccountData::Mint { .. } => true,
            _ => false,
        },
        None => false,
    }
}

fn wallet_balance(ledger: &Ledger, a: &Address) -> (r: Option<u64>)
    ensures
        r is Some <==> ledger@.contains_key(*a) && ledger@[*a].data is Wallet,
        r matches Some(n) ==> n == ledger@[*a].lamports,
{
    match ledger.get(a) {
        Some(acct) => match &acct.data {
            AccountData::Wallet => Some(acct.lamports),
            _ => None,
        },
        None => None,
    }
}

fn build_record(
    accounts: &CreateVestingAccount,
    company_name: &String,
    beneficiary: Address,
    record: (Address, u8),
    treasury: (Address, u8),
) -> (v: VestingAccount)
    ensures
        record_populated(v@, *accounts, company_name@, beneficiary, record, treasury),
{
    VestingAccount {
        owner: beneficiary,
        mint: accounts.mint,
        treasury: treasury.0,
        company_name: company_name.clone(),
        bump_for_treasury: treasury.1,
        bump: record.1,
    }
}

/// Creates the vesting record and the treasury of `company_name` at the
/// addresses `record` and `treasury` that derivation gave, after checking, in
/// order, the label, the asset type, the derivation, the named addresses,
/// that both addresses are free, and that the signer can pay. `record` and
/// `treasury` are what `record_address` and `treasury_address` return for
/// the label; `create_vesting_account` derives and passes them.
pub fn create_from_derivations(
    ledger: &mut Ledger,
    accounts: &CreateVestingAccount,
    company_name: &String,
    beneficiary: Address,
    record: Option<(Address, u8)>,
    treasury: Option<(Address, u8)>,
) -> (r: Result<VestingAccount, VestingError>)
    ensures
        create_post(old(ledger)@, *accounts, company_name@, beneficiary, record, treasury, r, final(ledger)@),
{
    let name: &str = company_name.as_str();
    let name_len = name.as_bytes().len();
    if name_len == 0 || name_len > MAX_LABEL_LEN {
        return Err(VestingError::InvalidLabel);
    }
    if !holds_mint(ledger, &accounts.mint) {
        return Err(VestingError::InvalidAssetType);
    }
    let (ra, rb) = match record {
        Some(d) => d,
        None => return Err(VestingError::DerivationExhausted),
    };
    let (ta, tb) = match treasury {
        Some(d) => d,
        None => return Err(VestingError::DerivationExhausted),
    };
    if !accounts.vesting_account.equals(&ra) || !accounts.vesting_token_account.equals(&ta)
        || beneficiary.equals(&ta) {
        return Err(VestingError::AddressMismatch);
    }
    if ledger.get(&ra).is_some() || ledger.get(&ta).is_some() || ra.equals(&ta) {
        return Err(VestingError::AlreadyExists);
    }
    let record_rent = rent_exempt_minimum(RECORD_SPACE);
    let treasury_rent = rent_exempt_minimum(token_account_len());
    let funds = match wallet_balance(ledger, &accounts.signer) {
        Some(funds) => funds,
        None => return Err(VestingError::InsufficientFunding),
    };
    if funds < record_rent {
        return Err(VestingError::InsufficientFunding);
    }
    let rest = funds - record_rent;
    if rest < treasury_rent {
        return Err(VestingError::InsufficientFunding);
    }
    ledger.set(accounts.signer, Account { lamports: rest - treasury_rent, data: AccountData::Wallet });
    let stored = build_record(accounts, company_name, beneficiary, (ra, rb), (ta, tb));
    ledger.set(ra, Account { lamports: record_rent, data: AccountData::Vesting(stored) });
    let vault = TreasuryAccount { mint: accounts.mint, authority: ta, amount: 0 };
    ledger.set(ta, Account { lamports: treasury_rent, data: AccountData::Treasury(vault) });
    Ok(build_record(accounts, company_name, beneficiary, (ra, rb), (ta, tb)))
}

/// Creates, for `beneficiary`, the vesting record and the treasury of the
/// label `company_name` under the program `program_id`. Both addresses are
/// derived here from the label; the accounts that `accounts` names must be
/// those. Either both accounts are written and the record returned, or the
/// ledger is left untouched and the first failed check returned.
pub fn create_vesting_account(
    ledger: &mut Ledger,
    program_id: &Address,
    accounts: &CreateVestingAccount,
    company_name: String,
    beneficiary: Address,
) -> (r: Result<VestingAccount, VestingError>)
    ensures
        create_post(
            old(ledger)@,
            *accounts,
            company_name@,
            beneficiary,
            record_derivation(*program_id, company_name@),
            treasury_derivation(*program_id, company_name@),
            r,
            final(ledger)@,
        ),
{
    let record = record_address(program_id, company_name.as_str());
    let treasury = treasury_address(program_id, company_name.as_str());
    create_from_derivations(ledger, accounts, &company_name, beneficiary, record, treasury)
}

} // verus!
