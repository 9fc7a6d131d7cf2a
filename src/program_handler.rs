//! What the decoders are handed for an account, and how a program is matched
//! to its decoder.

use crate::pubkey::Pubkey;
use vstd::prelude::*;

verus! {

/// A read-only view of one account snapshot.
pub struct AccountInfo {
    /// The account's address.
    pub pubkey: Pubkey,
    /// The program that owns the account.
    pub owner: Pubkey,
    /// The account's bytes, when the snapshot carries them.
    pub data: Option<Vec<u8>>,
    pub slot: u64,
}

} // verus!
