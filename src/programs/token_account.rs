//! The token program's accounts, told apart by their length.

use crate::error::{BlockbusterError, BlockbusterErrorView};
use crate::instruction::opt_view;
use crate::program_handler::AccountInfo;
use crate::pubkey::Pubkey;
use crate::wire::{opt_v, spec_u64};
use spl_token::solana_program::program_pack::Pack;
use spl_token::solana_program::pubkey::Pubkey as SolanaPubkey;
use vstd::prelude::*;

verus! {

/// The length of a token account.
pub const TOKEN_ACCOUNT_LEN: usize = 165;

/// The length of a mint.
pub const MINT_LEN: usize = 82;

/// A four-byte optional-value tag at `p`: 0 or 1, then three zero bytes.
pub open spec fn coption_tag_ok(s: Seq<u8>, p: int) -> bool {
    s[p] <= 1 && s[p + 1] == 0 && s[p + 2] == 0 && s[p + 3] == 0
}

/// The bytes hold an initialized token account: the delegate, native amount
/// and close authority tags are well formed and the state byte says
/// initialized or frozen.
pub open spec fn token_account_unpacks(s: Seq<u8>) -> bool {
    &&& s.len() == TOKEN_ACCOUNT_LEN
    &&& coption_tag_ok(s, 72)
    &&& (s[108] == 1 || s[108] == 2)
    &&& coption_tag_ok(s, 109)
    &&& coption_tag_ok(s, 129)
}

/// The bytes hold an initialized mint: both authority tags are well formed
/// and the initialized flag is set.
pub open spec fn mint_unpacks(s: Seq<u8>) -> bool {
    &&& s.len() == MINT_LEN
    &&& coption_tag_ok(s, 0)
    &&& s[45] == 1
    &&& coption_tag_ok(s, 46)
}

/// A token account.
#[derive(Debug)]
pub struct TokenAccount {
    pub mint: Pubkey,
    pub owner: Pubkey,
    pub amount: u64,
    pub delegate: Option<Pubkey>,
    /// 1 when initialized, 2 when frozen.
    pub state: u8,
    /// The rent-exempt reserve of a native account.
    pub is_native: Option<u64>,
    pub delegated_amount: u64,
    pub close_authority: Option<Pubkey>,
}

pub struct TokenAccountView {
    pub mint: Seq<u8>,
    pub owner: Seq<u8>,
    pub amount: u64,
    pub delegate: Option<Seq<u8>>,
    pub state: u8,
    pub is_native: Option<u64>,
    pub delegated_amount: u64,
    pub close_authority: Option<Seq<u8>>,
}

impl View for TokenAccount {
    type V = TokenAccountView;

    open spec fn view(&self) -> TokenAccountView {
        TokenAccountView {
            mint: self.mint@,
            owner: self.owner@,
            amount: self.amount,
            delegate: opt_v(self.delegate),
            state: self.state,
            is_native: self.is_native,
            delegated_amount: self.delegated_amount,
            close_authority: opt_v(self.close_authority),
        }
    }
}

/// A mint.
#[derive(Debug)]
pub struct Mint {
    pub mint_authority: Option<Pubkey>,
    pub supply: u64,
    pub decimals: u8,
    pub is_initialized: bool,
    pub freeze_authority: Option<Pubkey>,
}

pub struct MintView {
    pub mint_authority: Option<Seq<u8>>,
    pub supply: u64,
    pub decimals: u8,
    pub is_initialized: bool,
    pub freeze_authority: Option<Seq<u8>>,
}

impl View for Mint {
    type V = MintView;

    open spec fn view(&self) -> MintView {
        MintView {
            mint_authority: opt_v(self.mint_authority),
            supply: self.supply,
            decimals: self.decimals,
            is_initialized: self.is_initialized,
            freeze_authority: opt_v(self.freeze_authority),
        }
    }
}

/// The optional key whose tag stands at `p`, the key following the tag.
pub open spec fn coption_key(s: Seq<u8>, p: int) -> Option<Seq<u8>> {
    if s[p] == 1 {
        Some(s.subrange(p + 4, p + 36))
    } else {
        None
    }
}

/// The fields of a token account: mint, owner, amount, delegate, state,
/// native reserve, delegated amount and close authority, at their fixed
/// places.
pub open spec fn token_account_fields(s: Seq<u8>) -> TokenAccountView {
    TokenAccountView {
        mint: s.subrange(0, 32),
        owner: s.subrange(32, 64),
        amount: spec_u64(s, 64)->Some_0.0,
        delegate: coption_key(s, 72),
        state: s[108],
        is_native: if s[109] == 1 {
            Some(spec_u64(s, 113)->Some_0.0)
        } else {
            None
        },
        delegated_amount: spec_u64(s, 121)->Some_0.0,
        close_authority: coption_key(s, 129),
    }
}

/// The fields of a mint: mint authority, supply, decimals, initialized flag
/// and freeze authority, at their fixed places.
pub open spec fn mint_fields(s: Seq<u8>) -> MintView {
    MintView {
        mint_authority: coption_key(s, 0),
        supply: spec_u64(s, 36)->Some_0.0,
        decimals: s[44],
        is_initialized: s[45] == 1,
        freeze_authority: coption_key(s, 46),
    }
}

/// Relies on `Pack::unpack` for spl_token's `Account`: it accepts exactly
/// 165 bytes whose optional-value tags are well formed and whose state is
/// initialized or frozen, and reads each field from its fixed place.
#[verifier::external_body]
fn unpack_token_account(data: &[u8]) -> (r: Option<TokenAccount>)
    ensures
        match r {
            Some(a) => token_account_unpacks(data@) && a@ == token_account_fields(data@),
            None => !token_account_unpacks(data@),
        },
{
    spl_token::state::Account::unpack(data).ok().map(|a| TokenAccount {
        mint: Pubkey(a.mint.to_bytes()),
        owner: Pubkey(a.owner.to_bytes()),
        amount: a.amount,
        delegate: Option::from(a.delegate).map(|k: SolanaPubkey| Pubkey(k.to_bytes())),
        state: a.state as u8,
        is_native: Option::from(a.is_native),
        delegated_amount: a.delegated_amount,
        close_authority: Option::from(a.close_authority).map(|k: SolanaPubkey| Pubkey(k.to_bytes())),
    })
}

/// Relies on `Pack::unpack` for spl_token's `Mint`: it accepts exactly 82
/// bytes whose authority tags are well formed and whose initialized flag is
/// 1, and reads each field from its fixed place.
#[verifier::external_body]
fn unpack_mint(data: &[u8]) -> (r: Option<Mint>)
    ensures
        match r {
            Some(m) => mint_unpacks(data@) && m@ == mint_fields(data@),
            None => !mint_unpacks(data@),
        },
{
    spl_token::state::Mint::unpack(data).ok().map(|m| Mint {
        mint_authority: Option::from(m.mint_authority).map(|k: SolanaPubkey| Pubkey(k.to_bytes())),
        supply: m.supply,
        decimals: m.decimals,
        is_initialized: m.is_initialized,
        freeze_authority: Option::from(m.freeze_authority).map(|k: SolanaPubkey| Pubkey(k.to_bytes())),
    })
}

/// A decoded token program account.
#[derive(Debug)]
pub enum TokenProgramAccount {
    Mint(Mint),
    TokenAccount(TokenAccount),
}

pub enum TokenProgramAccountView {
    Mint(MintView),
    TokenAccount(TokenAccountView),
}

impl View for TokenProgramAccount {
    type V = TokenProgramAccountView;

    open spec fn view(&self) -> TokenProgramAccountView {
        match self {
            TokenProgramAccount::Mint(m) => TokenProgramAccountView::Mint(m@),
            TokenProgramAccount::TokenAccount(a) => TokenProgramAccountView::TokenAccount(a@),
        }
    }
}

/// The decoding of a token program account: its length picks the record,
/// which must then unpack; a snapshot without data fails to deserialize.
pub open spec fn token_program_account(d: Option<Seq<u8>>) -> Result<TokenProgramAccountView, BlockbusterErrorView> {
    match d {
        None => Err(BlockbusterErrorView::DeserializationError),
        Some(s) => if s.len() == TOKEN_ACCOUNT_LEN {
            if token_account_unpacks(s) {
                Ok(TokenProgramAccountView::TokenAccount(token_account_fields(s)))
            } else {
                Err(BlockbusterErrorView::DeserializationError)
            }
        } else if s.len() == MINT_LEN {
            if mint_unpacks(s) {
                Ok(TokenProgramAccountView::Mint(mint_fields(s)))
            } else {
                Err(BlockbusterErrorView::DeserializationError)
            }
        } else {
            Err(BlockbusterErrorView::InvalidDataLength)
        },
    }
}

/// The token program's address,
/// TokenkegQfeZyiNwAJbNbGKPFXCWuBvf9Ss623VQ5DA.
pub open spec fn token_program_bytes() -> Seq<u8> {
    seq![
        6u8, 221, 246, 225, 215, 101, 161, 147, 217, 203, 225, 70, 206, 235, 121, 172,
        28, 180, 133, 237, 95, 91, 55, 145, 58, 140, 245, 133, 126, 255, 0, 169,
    ]
}

/// The token program's address.
pub fn token_program_id() -> (r: Pubkey)
    ensures
        r@ == token_program_bytes(),
{
    let r = Pubkey([
        6, 221, 246, 225, 215, 101, 161, 147, 217, 203, 225, 70, 206, 235, 121, 172,
        28, 180, 133, 237, 95, 91, 55, 145, 58, 140, 245, 133, 126, 255, 0, 169,
    ]);
    assert(r@ =~= token_program_bytes());
    r
}

/// The decoder of the token program's accounts.
pub struct TokenAccountParser;

impl TokenAccountParser {
    /// The program this decoder reads.
    pub fn key(&self) -> (r: Pubkey)
        ensures
            r@ == token_program_bytes(),
    {
        token_program_id()
    }

    /// Whether `key` is the program this decoder reads.
    pub fn key_match(&self, key: &Pubkey) -> (r: bool)
        ensures
            r == (key@ == token_program_bytes()),
    {
        let id = token_program_id();
        let r = key.same_as(&id);
        proof {
            if key@ == token_program_bytes() {
                assert(key.0 =~= id.0);
            }
        }
        r
    }

    /// This decoder reads account snapshots.
    pub fn handles_account_updates(&self) -> (r: bool)
        ensures
            r,
    {
        true
    }

    /// This decoder reads no instructions.
    pub fn handles_instructions(&self) -> (r: bool)
        ensures
            !r,
    {
        false
    }

    /// Decodes a token account or a mint, chosen by the snapshot's length.
    pub fn handle_account(&self, account_info: &AccountInfo) -> (r: Result<
        TokenProgramAccount,
        BlockbusterError,
    >)
        ensures
            crate::error::result_view(r) == token_program_account(opt_view(account_info.data)),
    {
        let data = match &account_info.data {
            Some(d) => d,
            None => {
                return Err(BlockbusterError::DeserializationError);
            },
        };
        if data.len() == TOKEN_ACCOUNT_LEN {
            match unpack_token_account(data.as_slice()) {
                Some(a) => Ok(TokenProgramAccount::TokenAccount(a)),
                None => Err(BlockbusterError::DeserializationError),
            }
        } else if data.len() == MINT_LEN {
            match unpack_mint(data.as_slice()) {
                Some(m) => Ok(TokenProgramAccount::Mint(m)),
                None => Err(BlockbusterError::DeserializationError),
            }
        } else {
            Err(BlockbusterError::InvalidDataLength)
        }
    }
}

} // verus!
