//! The candy guard program's accounts, told apart by an eight-byte
//! discriminator.

use crate::error::{layout_error, layout_failure, BlockbusterError, BlockbusterErrorView};
use crate::instruction::opt_view;
use crate::program_handler::AccountInfo;
use crate::pubkey::Pubkey;
use crate::wire::{read_u64, spec_u64};
use vstd::prelude::*;

verus! {

/// The candy guard account discriminator, read as a little-endian integer.
pub const CANDY_GUARD_DISCRIMINATOR: u64 = 0xb522_6770_b8c7_cf2c;

/// The mint counter account discriminator, read as a little-endian integer.
pub const MINT_COUNTER_DISCRIMINATOR: u64 = 0xade3_162e_450f_3b1d;

/// The length of a candy guard record: its base key, bump and authority.
pub const CANDY_GUARD_LEN: usize = 65;

/// The length of a mint counter record: its count.
pub const MINT_COUNTER_LEN: usize = 2;

/// A classified candy guard account, with the bytes that follow its
/// discriminator. The records' own fields, and a candy guard's guard set,
/// are not decoded here: their decoders belong to the candy guard program's
/// crate, which is not available to this library; the bytes are checked to
/// be at least as long as the record.
#[derive(Debug)]
pub enum CandyGuardAccountData {
    CandyGuard(Vec<u8>),
    MintCounter(Vec<u8>),
}

/// Which record a candy guard account holds, and its bytes.
pub enum CandyGuardAccountView {
    CandyGuard(Seq<u8>),
    MintCounter(Seq<u8>),
}

impl View for CandyGuardAccountData {
    type V = CandyGuardAccountView;

    open spec fn view(&self) -> CandyGuardAccountView {
        match self {
            CandyGuardAccountData::CandyGuard(b) => CandyGuardAccountView::CandyGuard(b@),
            CandyGuardAccountData::MintCounter(b) => CandyGuardAccountView::MintCounter(b@),
        }
    }
}

/// The classification of a candy guard account's bytes.
pub open spec fn candy_guard_account(d: Option<Seq<u8>>) -> Result<CandyGuardAccountView, BlockbusterErrorView> {
    match d {
        None => Err(BlockbusterErrorView::DeserializationError),
        Some(s) => match spec_u64(s, 0) {
            None => Err(layout_error()),
            Some((disc, _)) => if disc == CANDY_GUARD_DISCRIMINATOR {
                if s.len() < 8 + CANDY_GUARD_LEN {
                    Err(layout_error())
                } else {
                    Ok(CandyGuardAccountView::CandyGuard(s.subrange(8, s.len() as int)))
                }
            } else if disc == MINT_COUNTER_DISCRIMINATOR {
                if s.len() < 8 + MINT_COUNTER_LEN {
                    Err(layout_error())
                } else {
                    Ok(CandyGuardAccountView::MintCounter(s.subrange(8, s.len() as int)))
                }
            } else {
                Err(BlockbusterErrorView::UnknownAccountDiscriminator)
            },
        },
    }
}

/// The candy guard program's address,
/// Guard1JwRhJkVH6XZhzoYxeBVQe872VH6QggF4BWmS9g.
pub open spec fn candy_guard_program_bytes() -> Seq<u8> {
    seq![
        236u8, 87, 201, 90, 138, 187, 107, 252, 207, 95, 215, 54, 9, 33, 61, 51,
        95, 207, 223, 232, 224, 145, 169, 215, 218, 108, 101, 39, 151, 221, 35, 43,
    ]
}

/// The candy guard program's address.
pub fn candy_guard_id() -> (r: Pubkey)
    ensures
        r@ == candy_guard_program_bytes(),
{
    let r = Pubkey([
        236, 87, 201, 90, 138, 187, 107, 252, 207, 95, 215, 54, 9, 33, 61, 51,
        95, 207, 223, 232, 224, 145, 169, 215, 218, 108, 101, 39, 151, 221, 35, 43,
    ]);
    assert(r@ =~= candy_guard_program_bytes());
    r
}

/// The decoder of the candy guard program's accounts.
pub struct CandyGuardParser;

impl CandyGuardParser {
    /// The program this decoder reads.
    pub fn key(&self) -> (r: Pubkey)
        ensures
            r@ == candy_guard_program_bytes(),
    {
        candy_guard_id()
    }

    /// Whether `key` is the program this decoder reads.
    pub fn key_match(&self, key: &Pubkey) -> (r: bool)
        ensures
            r == (key@ == candy_guard_program_bytes()),
    {
        let id = candy_guard_id();
        let r = key.same_as(&id);
        proof {
            if key@ == candy_guard_program_bytes() {
                assert(key.0 =~= id.0);
            }
        }
        r
    }

    /// This decoder reads account snapshots.
    pub fn handles_account_updates(&self) -> (r: bool)
        ensures
            r,
    {
        true
    }

    /// This decoder reads no instructions.
    pub fn handles_instructions(&self) -> (r: bool)
        ensures
            !r,
    {
        false
    }

    /// Classifies a candy guard account by its discriminator; a record shorter
    /// than its layout fails.
    pub fn handle_account(&self, account_info: &AccountInfo) -> (r: Result<
        CandyGuardAccountData,
        BlockbusterError,
    >)
        ensures
            crate::error::result_view(r) == candy_guard_account(opt_view(account_info.data)),
    {
        let data = match &account_info.data {
            Some(d) => d,
            None => {
                return Err(BlockbusterError::DeserializationError);
            },
        };
        let disc = match read_u64(data.as_slice(), 0) {
            Some((v, _)) => v,
            None => {
                return Err(layout_failure());
            },
        };
        if disc == CANDY_GUARD_DISCRIMINATOR {
            if data.len() < 8 + CANDY_GUARD_LEN {
                return Err(layout_failure());
            }
            Ok(CandyGuardAccountData::CandyGuard(crate::wire::copy_range(data.as_slice(), 8, data.len())))
        } else if disc == MINT_COUNTER_DISCRIMINATOR {
            if data.len() < 8 + MINT_COUNTER_LEN {
                return Err(layout_failure());
            }
            Ok(CandyGuardAccountData::MintCounter(crate::wire::copy_range(data.as_slice(), 8, data.len())))
        } else {
            Err(BlockbusterError::UnknownAccountDiscriminator)
        }
    }
}

/// An account with an unknown discriminator fails as such; a known record
/// cut below its layout fails with the byte-stream error.
pub proof fn lemma_candy_guard_account_errors(s: Seq<u8>)
    requires
        s.len() >= 8,
    ensures
        ({
            let disc = spec_u64(s, 0)->Some_0.0;
            &&& (disc != CANDY_GUARD_DISCRIMINATOR && disc != MINT_COUNTER_DISCRIMINATOR)
                ==> candy_guard_account(Some(s)) == Err::<CandyGuardAccountView, BlockbusterErrorView>(
                BlockbusterErrorView::UnknownAccountDiscriminator,
            )
            &&& (disc == CANDY_GUARD_DISCRIMINATOR && s.len() < 8 + CANDY_GUARD_LEN)
                ==> candy_guard_account(Some(s)) == Err::<CandyGuardAccountView, BlockbusterErrorView>(
                layout_error(),
            )
            &&& (disc == MINT_COUNTER_DISCRIMINATOR && s.len() < 8 + MINT_COUNTER_LEN)
                ==> candy_guard_account(Some(s)) == Err::<CandyGuardAccountView, BlockbusterErrorView>(
                layout_error(),
            )
        }),
{
}

} // verus!
