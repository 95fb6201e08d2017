//! Vesting accounts: deterministic addresses for a vesting record and its
//! treasury, and their all-or-nothing creation on a ledger of accounts.

pub mod address;
pub mod create;
pub mod derive;
pub mod laws;
pub mod layout;
pub mod ledger;

pub use address::Address;
pub use create::{create_vesting_account, CreateVestingAccount, VestingError};
pub use ledger::{Ledger, VestingAccount};
