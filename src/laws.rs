use vstd::prelude::*;
use crate::address::Address;
use crate::create::{create_post, CreateVestingAccount, VestingError};
use crate::derive::{record_derivation, treasury_derivation};
use crate::ledger::{AccountView, DataView};

verus! {

/// Once a creation for a label has succeeded, every later creation for that
/// label under the same program fails and leaves the ledger, and so the first
/// record, as it was. Repeating the very same request fails with
/// `AlreadyExists`.
pub proof fn lemma_single_creation(
    l0: Map<Address, AccountView>,
    l1: Map<Address, AccountView>,
    l2: Map<Address, AccountView>,
    program_id: Address,
    label: Seq<char>,
    first: CreateVestingAccount,
    first_beneficiary: Address,
    r1: Result<crate::ledger::VestingAccount, VestingError>,
    second: CreateVestingAccount,
    second_beneficiary: Address,
    r2: Result<crate::ledger::VestingAccount, VestingError>,
)
    requires
        create_post(
            l0,
            first,
            label,
            first_beneficiary,
            record_derivation(program_id, label),
            treasury_derivation(program_id, label),
            r1,
            l1,
        ),
        r1 is Ok,
        create_post(
            l1,
            second,
            label,
            second_beneficiary,
            record_derivation(program_id, label),
            treasury_derivation(program_id, label),
            r2,
            l2,
        ),
    ensures
        r2 is Err,
        l2 == l1,
        second == first && second_beneficiary == first_beneficiary ==> r2 == Err::<
            crate::ledger::VestingAccount,
            VestingError,
        >(VestingError::AlreadyExists),
{
}

/// A successful creation leaves at the treasury address an empty token
/// account of the vested mint whose spending authority is the derived
/// treasury address itself, which is neither the signer nor the beneficiary.
pub proof fn lemma_treasury_authority(
    l0: Map<Address, AccountView>,
    l1: Map<Address, AccountView>,
    program_id: Address,
    label: Seq<char>,
    accounts: CreateVestingAccount,
    beneficiary: Address,
    r: Result<crate::ledger::VestingAccount, VestingError>,
)
    requires
        create_post(
            l0,
            accounts,
            label,
            beneficiary,
            record_derivation(program_id, label),
            treasury_derivation(program_id, label),
            r,
            l1,
        ),
        r is Ok,
    ensures
        ({
            let treasury = treasury_derivation(program_id, label).unwrap().0;
            &&& l1.contains_key(treasury)
            &&& l1[treasury].data matches DataView::Treasury(t) && {
                &&& t.authority == treasury
                &&& t.mint == accounts.mint
                &&& t.amount == 0
                &&& t.authority != accounts.signer
                &&& t.authority != beneficiary
            }
        }),
{
}

/// A creation that fails changes nothing: in particular, when the signer
/// cannot pay for the record or for the treasury, no account exists
/// afterwards at either derived address.
pub proof fn lemma_failed_creation_allocates_nothing(
    l0: Map<Address, AccountView>,
    l1: Map<Address, AccountView>,
    program_id: Address,
    label: Seq<char>,
    accounts: CreateVestingAccount,
    beneficiary: Address,
    r: Result<crate::ledger::VestingAccount, VestingError>,
)
    requires
        create_post(
            l0,
            accounts,
            label,
            beneficiary,
            record_derivation(program_id, label),
            treasury_derivation(program_id, label),
            r,
            l1,
        ),
        r is Err,
    ensures
        l1 == l0,
        r == Err::<crate::ledger::VestingAccount, VestingError>(VestingError::InsufficientFunding)
            ==> !l1.contains_key(record_derivation(program_id, label).unwrap().0) && !l1.contains_key(
            treasury_derivation(program_id, label).unwrap().0,
        ),
{
}

} // verus!
