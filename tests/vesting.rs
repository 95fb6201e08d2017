use std::collections::HashSet;
use std::str::FromStr;

use anchor_lang::prelude::Pubkey;
use vesting::create::{
    create_from_derivations, create_vesting_account, CreateVestingAccount, VestingError,
    RECORD_SPACE, TREASURY_SPACE,
};
use vesting::derive::{record_address, treasury_address};
use vesting::ledger::{Account, AccountData, Ledger, VestingAccount};
use vesting::Address;

const RECORD_RENT: u64 = (128 + 134) * 3480 * 2;
const TREASURY_RENT: u64 = (128 + 165) * 3480 * 2;
const START_FUNDS: u64 = 1_000_000_000;

fn key(s: &str) -> Address {
    Address::new(Pubkey::from_str(s).unwrap().to_bytes())
}

fn program() -> Address {
    key("FqzkXZdwYjurnUKetJCAvaUw5WAqbwzU6gZEwydeEfqS")
}

fn usdc() -> Address {
    key("EPjFWdd5AufqSSqeM2qN1xzybapC8G4wEGGkZwyTDt1v")
}

fn alice() -> Address {
    Address::new([0xA1; 32])
}

fn payer() -> Address {
    Address::new([0x05; 32])
}

fn ledger_with(funds: u64) -> Ledger {
    let mut ledger = Ledger::new();
    ledger.set(payer(), Account { lamports: funds, data: AccountData::Wallet });
    ledger.set(usdc(), Account { lamports: 1_461_600, data: AccountData::Mint { decimals: 6 } });
    ledger
}

fn accounts_for(label: &str) -> CreateVestingAccount {
    let record = record_address(&program(), label).map(|d| d.0).unwrap_or(Address::new([0; 32]));
    let treasury =
        treasury_address(&program(), label).map(|d| d.0).unwrap_or(Address::new([0; 32]));
    CreateVestingAccount {
        signer: payer(),
        vesting_account: record,
        mint: usdc(),
        vesting_token_account: treasury,
    }
}

fn lamports_at(ledger: &Ledger, a: &Address) -> Option<u64> {
    ledger.get(a).map(|acct| acct.lamports)
}

fn record_at(ledger: &Ledger, a: &Address) -> Option<(Address, Address, Address, String, u8, u8)> {
    match ledger.get(a) {
        Some(Account { data: AccountData::Vesting(v), .. }) => Some((
            v.owner,
            v.mint,
            v.treasury,
            v.company_name.clone(),
            v.bump_for_treasury,
            v.bump,
        )),
        _ => None,
    }
}

#[test]
fn acme_creation_populates_record_and_treasury() {
    let mut ledger = ledger_with(START_FUNDS);
    let accounts = accounts_for("Acme");
    let created =
        create_vesting_account(&mut ledger, &program(), &accounts, "Acme".to_string(), alice())
            .unwrap();
    let (record, record_bump) = record_address(&program(), "Acme").unwrap();
    let (treasury, treasury_bump) = treasury_address(&program(), "Acme").unwrap();
    assert_eq!(created.owner.bytes, alice().bytes);
    assert_eq!(created.mint.bytes, usdc().bytes);
    assert_eq!(created.treasury.bytes, treasury.bytes);
    assert_eq!(created.company_name, "Acme");
    assert_eq!(created.bump, record_bump);
    assert_eq!(created.bump_for_treasury, treasury_bump);
    let stored = record_at(&ledger, &record).unwrap();
    assert_eq!(stored.0.bytes, alice().bytes);
    assert_eq!(stored.2.bytes, treasury.bytes);
    assert_eq!(lamports_at(&ledger, &record), Some(RECORD_RENT));
    assert_eq!(lamports_at(&ledger, &treasury), Some(TREASURY_RENT));
    assert_eq!(lamports_at(&ledger, &payer()), Some(START_FUNDS - RECORD_RENT - TREASURY_RENT));
}

#[test]
fn repeated_acme_creation_already_exists() {
    let mut ledger = ledger_with(START_FUNDS);
    let accounts = accounts_for("Acme");
    create_vesting_account(&mut ledger, &program(), &accounts, "Acme".to_string(), alice())
        .unwrap();
    let (record, _) = record_address(&program(), "Acme").unwrap();
    let before = record_at(&ledger, &record).unwrap();
    let funds = lamports_at(&ledger, &payer());
    let again =
        create_vesting_account(&mut ledger, &program(), &accounts, "Acme".to_string(), alice());
    assert_eq!(again.err(), Some(VestingError::AlreadyExists));
    let other_owner = Address::new([0xB0; 32]);
    let other =
        create_vesting_account(&mut ledger, &program(), &accounts, "Acme".to_string(), other_owner);
    assert_eq!(other.err(), Some(VestingError::AlreadyExists));
    let after = record_at(&ledger, &record).unwrap();
    assert_eq!(before.0.bytes, after.0.bytes);
    assert_eq!(before.1.bytes, after.1.bytes);
    assert_eq!(before.2.bytes, after.2.bytes);
    assert_eq!(before.3, after.3);
    assert_eq!((before.4, before.5), (after.4, after.5));
    assert_eq!(lamports_at(&ledger, &payer()), funds);
}

#[test]
fn empty_label_is_rejected() {
    let mut ledger = ledger_with(START_FUNDS);
    let accounts = accounts_for("");
    let r = create_vesting_account(&mut ledger, &program(), &accounts, String::new(), alice());
    assert_eq!(r.err(), Some(VestingError::InvalidLabel));
    assert_eq!(lamports_at(&ledger, &accounts.vesting_account), None);
    assert_eq!(lamports_at(&ledger, &payer()), Some(START_FUNDS));
}

#[test]
fn label_of_33_bytes_is_rejected() {
    let mut ledger = ledger_with(START_FUNDS);
    let label = "A".repeat(33);
    let accounts = accounts_for("Acme");
    let r = create_vesting_account(&mut ledger, &program(), &accounts, label, alice());
    assert_eq!(r.err(), Some(VestingError::InvalidLabel));
    assert_eq!(lamports_at(&ledger, &payer()), Some(START_FUNDS));
}

#[test]
fn label_of_32_bytes_is_accepted() {
    let mut ledger = ledger_with(START_FUNDS);
    let label = "A".repeat(32);
    let accounts = accounts_for(&label);
    let r = create_vesting_account(&mut ledger, &program(), &accounts, label.clone(), alice());
    assert_eq!(r.unwrap().company_name, label);
}

#[test]
fn multibyte_label_counts_bytes() {
    let mut ledger = ledger_with(START_FUNDS);
    let label = "é".repeat(17);
    assert_eq!(label.len(), 34);
    let accounts = accounts_for("Acme");
    let r = create_vesting_account(&mut ledger, &program(), &accounts, label, alice());
    assert_eq!(r.err(), Some(VestingError::InvalidLabel));
}

#[test]
fn derivation_is_deterministic() {
    for label in ["Acme", "Globex", "x"] {
        assert_eq!(
            record_address(&program(), label).map(|d| (d.0.bytes, d.1)),
            record_address(&program(), label).map(|d| (d.0.bytes, d.1))
        );
        assert_eq!(
            treasury_address(&program(), label).map(|d| (d.0.bytes, d.1)),
            treasury_address(&program(), label).map(|d| (d.0.bytes, d.1))
        );
    }
}

#[test]
fn derived_addresses_do_not_collide() {
    let mut seen: HashSet<[u8; 32]> = HashSet::new();
    for i in 0..300u32 {
        let label = format!("entity-{}", i);
        let (record, _) = record_address(&program(), &label).unwrap();
        let (treasury, _) = treasury_address(&program(), &label).unwrap();
        assert!(seen.insert(record.bytes));
        assert!(seen.insert(treasury.bytes));
    }
}

#[test]
fn derivation_matches_program_address_search() {
    let program_key = Pubkey::new_from_array(program().bytes);
    let (expected, bump) =
        Pubkey::find_program_address(&[b"vesting-record".as_ref(), b"Acme".as_ref()], &program_key);
    let (record, record_bump) = record_address(&program(), "Acme").unwrap();
    assert_eq!(record.bytes, expected.to_bytes());
    assert_eq!(record_bump, bump);
    let (expected, bump) = Pubkey::find_program_address(
        &[b"vesting-treasury".as_ref(), b"Acme".as_ref()],
        &program_key,
    );
    let (treasury, treasury_bump) = treasury_address(&program(), "Acme").unwrap();
    assert_eq!(treasury.bytes, expected.to_bytes());
    assert_eq!(treasury_bump, bump);
    assert_ne!(record.bytes, program().bytes);
    assert!(!Pubkey::new_from_array(treasury.bytes).is_on_curve());
}

#[test]
fn treasury_authority_is_its_derived_address() {
    let mut ledger = ledger_with(START_FUNDS);
    let accounts = accounts_for("Acme");
    create_vesting_account(&mut ledger, &program(), &accounts, "Acme".to_string(), alice())
        .unwrap();
    let (treasury, _) = treasury_address(&program(), "Acme").unwrap();
    match ledger.get(&treasury) {
        Some(Account { data: AccountData::Treasury(t), .. }) => {
            assert_eq!(t.authority.bytes, treasury.bytes);
            assert_eq!(t.mint.bytes, usdc().bytes);
            assert_eq!(t.amount, 0);
            assert_ne!(t.authority.bytes, payer().bytes);
            assert_ne!(t.authority.bytes, alice().bytes);
        }
        _ => panic!("no treasury at the derived address"),
    }
}

#[test]
fn beneficiary_equal_to_treasury_is_refused() {
    let mut ledger = ledger_with(START_FUNDS);
    let accounts = accounts_for("Acme");
    let (treasury, _) = treasury_address(&program(), "Acme").unwrap();
    let r = create_vesting_account(&mut ledger, &program(), &accounts, "Acme".to_string(), treasury);
    assert_eq!(r.err(), Some(VestingError::AddressMismatch));
}

#[test]
fn failed_second_allocation_leaves_nothing() {
    let mut ledger = ledger_with(RECORD_RENT + TREASURY_RENT - 1);
    let accounts = accounts_for("Acme");
    let r = create_vesting_account(&mut ledger, &program(), &accounts, "Acme".to_string(), alice());
    assert_eq!(r.err(), Some(VestingError::InsufficientFunding));
    assert_eq!(lamports_at(&ledger, &accounts.vesting_account), None);
    assert_eq!(lamports_at(&ledger, &accounts.vesting_token_account), None);
    assert_eq!(lamports_at(&ledger, &payer()), Some(RECORD_RENT + TREASURY_RENT - 1));
}

#[test]
fn failed_first_allocation_leaves_nothing() {
    let mut ledger = ledger_with(RECORD_RENT - 1);
    let accounts = accounts_for("Acme");
    let r = create_vesting_account(&mut ledger, &program(), &accounts, "Acme".to_string(), alice());
    assert_eq!(r.err(), Some(VestingError::InsufficientFunding));
    assert_eq!(lamports_at(&ledger, &accounts.vesting_account), None);
    assert_eq!(lamports_at(&ledger, &accounts.vesting_token_account), None);
}

#[test]
fn exact_funding_is_enough() {
    let mut ledger = ledger_with(RECORD_RENT + TREASURY_RENT);
    let accounts = accounts_for("Acme");
    let r = create_vesting_account(&mut ledger, &program(), &accounts, "Acme".to_string(), alice());
    assert!(r.is_ok());
    assert_eq!(lamports_at(&ledger, &payer()), Some(0));
}

#[test]
fn missing_signer_cannot_pay() {
    let mut ledger = Ledger::new();
    ledger.set(usdc(), Account { lamports: 1, data: AccountData::Mint { decimals: 6 } });
    let accounts = accounts_for("Acme");
    let r = create_vesting_account(&mut ledger, &program(), &accounts, "Acme".to_string(), alice());
    assert_eq!(r.err(), Some(VestingError::InsufficientFunding));
}

#[test]
fn unknown_mint_is_invalid_asset_type() {
    let mut ledger = ledger_with(START_FUNDS);
    let mut accounts = accounts_for("Acme");
    accounts.mint = Address::new([0x33; 32]);
    let r = create_vesting_account(&mut ledger, &program(), &accounts, "Acme".to_string(), alice());
    assert_eq!(r.err(), Some(VestingError::InvalidAssetType));
    accounts.mint = payer();
    let r = create_vesting_account(&mut ledger, &program(), &accounts, "Acme".to_string(), alice());
    assert_eq!(r.err(), Some(VestingError::InvalidAssetType));
}

#[test]
fn named_record_address_must_match() {
    let mut ledger = ledger_with(START_FUNDS);
    let mut accounts = accounts_for("Acme");
    accounts.vesting_account = accounts_for("Globex").vesting_account;
    let r = create_vesting_account(&mut ledger, &program(), &accounts, "Acme".to_string(), alice());
    assert_eq!(r.err(), Some(VestingError::AddressMismatch));
    let mut accounts = accounts_for("Acme");
    accounts.vesting_token_account = accounts.vesting_account;
    let r = create_vesting_account(&mut ledger, &program(), &accounts, "Acme".to_string(), alice());
    assert_eq!(r.err(), Some(VestingError::AddressMismatch));
}

#[test]
fn missing_derivation_is_exhausted() {
    let mut ledger = ledger_with(START_FUNDS);
    let accounts = accounts_for("Acme");
    let treasury = treasury_address(&program(), "Acme");
    let r = create_from_derivations(
        &mut ledger,
        &accounts,
        &"Acme".to_string(),
        alice(),
        None,
        treasury,
    );
    assert_eq!(r.err(), Some(VestingError::DerivationExhausted));
    assert_eq!(lamports_at(&ledger, &payer()), Some(START_FUNDS));
}

#[test]
fn occupied_treasury_address_already_exists() {
    let mut ledger = ledger_with(START_FUNDS);
    let accounts = accounts_for("Acme");
    ledger.set(accounts.vesting_token_account, Account { lamports: 5, data: AccountData::Wallet });
    let r = create_vesting_account(&mut ledger, &program(), &accounts, "Acme".to_string(), alice());
    assert_eq!(r.err(), Some(VestingError::AlreadyExists));
    assert_eq!(lamports_at(&ledger, &accounts.vesting_account), None);
}

#[test]
fn record_bytes_follow_the_layout() {
    let v = VestingAccount {
        owner: Address::new([1; 32]),
        mint: Address::new([2; 32]),
        treasury: Address::new([3; 32]),
        company_name: "Acme".to_string(),
        bump_for_treasury: 254,
        bump: 253,
    };
    let bytes = v.to_bytes();
    assert_eq!(bytes.len(), RECORD_SPACE);
    assert_eq!(&bytes[0..32], &[1u8; 32]);
    assert_eq!(&bytes[32..64], &[2u8; 32]);
    assert_eq!(&bytes[64..96], &[3u8; 32]);
    assert_eq!(&bytes[96..98], &[254u8, 253]);
    assert_eq!(&bytes[98..102], &[4u8, 0, 0, 0]);
    assert_eq!(&bytes[102..106], b"Acme");
    assert_eq!(&bytes[106..134], &[0u8; 28]);
    assert_eq!(TREASURY_SPACE, 165);
}
