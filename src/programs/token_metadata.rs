//! The token metadata program's accounts, told apart by their first byte.

use crate::error::{layout_error, layout_failure, BlockbusterError, BlockbusterErrorView};
use crate::instruction::opt_view;
use crate::program_handler::AccountInfo;
use crate::pubkey::Pubkey;
use vstd::prelude::*;

verus! {

/// The kind of a token metadata account, as its first byte gives it.
#[derive(PartialEq, Eq, Structural, Clone, Copy, Debug)]
pub enum Key {
    Uninitialized,
    EditionV1,
    MasterEditionV1,
    ReservationListV1,
    MetadataV1,
    ReservationListV2,
    MasterEditionV2,
    EditionMarker,
    UseAuthorityRecord,
    CollectionAuthorityRecord,
    TokenOwnedEscrow,
    TokenRecord,
    MetadataDelegate,
}

/// The number of account kinds.
pub const KEY_COUNT: u8 = 13;

/// The kind that a first byte below the number of kinds names.
pub open spec fn key_of(b: u8) -> Key {
    if b == 0 {
        Key::Uninitialized
    } else if b == 1 {
        Key::EditionV1
    } else if b == 2 {
        Key::MasterEditionV1
    } else if b == 3 {
        Key::ReservationListV1
    } else if b == 4 {
        Key::MetadataV1
    } else if b == 5 {
        Key::ReservationListV2
    } else if b == 6 {
        Key::MasterEditionV2
    } else if b == 7 {
        Key::EditionMarker
    } else if b == 8 {
        Key::UseAuthorityRecord
    } else if b == 9 {
        Key::CollectionAuthorityRecord
    } else if b == 10 {
        Key::TokenOwnedEscrow
    } else if b == 11 {
        Key::TokenRecord
    } else {
        Key::MetadataDelegate
    }
}

fn key_from_byte(b: u8) -> (r: Key)
    requires
        b < KEY_COUNT,
    ensures
        r == key_of(b),
{
    match b {
        0 => Key::Uninitialized,
        1 => Key::EditionV1,
        2 => Key::MasterEditionV1,
        3 => Key::ReservationListV1,
        4 => Key::MetadataV1,
        5 => Key::ReservationListV2,
        6 => Key::MasterEditionV2,
        7 => Key::EditionMarker,
        8 => Key::UseAuthorityRecord,
        9 => Key::CollectionAuthorityRecord,
        10 => Key::TokenOwnedEscrow,
        11 => Key::TokenRecord,
        _ => Key::MetadataDelegate,
    }
}

/// The record an account holds: none for an empty account, else its bytes,
/// laid out as the record type its kind names. The records' own fields are
/// not decoded here: their decoders belong to the token metadata program's
/// crate, which could not be built with this library's other dependencies;
/// the bytes are checked to be at least as long as the shortest record of
/// their kind.
#[derive(Debug)]
pub enum TokenMetadataAccountData {
    EmptyAccount,
    Record(Vec<u8>),
}

/// A classified token metadata account.
#[derive(Debug)]
pub struct TokenMetadataAccountState {
    pub key: Key,
    pub data: TokenMetadataAccountData,
}

/// Whether the account kind has a record decoder.
pub open spec fn is_readable(k: Key) -> bool {
    !(k == Key::Uninitialized || k == Key::TokenOwnedEscrow || k == Key::TokenRecord || k
        == Key::MetadataDelegate)
}

/// The length of the shortest record of each kind: a metadata record with
/// empty strings, no creators and no edition nonce; a master edition of the
/// first version with its two mints, of the second without them; reservation
/// lists with no reservations; a collection authority record without an
/// update authority.
pub open spec fn min_record_len(k: Key) -> nat {
    match k {
        Key::EditionV1 => 41,
        Key::MasterEditionV1 => 74,
        Key::ReservationListV1 => 38,
        Key::MetadataV1 => 83,
        Key::ReservationListV2 => 54,
        Key::MasterEditionV2 => 10,
        Key::EditionMarker => 32,
        Key::UseAuthorityRecord => 10,
        Key::CollectionAuthorityRecord => 3,
        _ => 1,
    }
}

fn min_record_len_of(k: Key) -> (r: usize)
    ensures
        r == min_record_len(k),
{
    match k {
        Key::EditionV1 => 41,
        Key::MasterEditionV1 => 74,
        Key::ReservationListV1 => 38,
        Key::MetadataV1 => 83,
        Key::ReservationListV2 => 54,
        Key::MasterEditionV2 => 10,
        Key::EditionMarker => 32,
        Key::UseAuthorityRecord => 10,
        Key::CollectionAuthorityRecord => 3,
        _ => 1,
    }
}

/// The classification of a token metadata account's bytes. A first byte
/// that names no kind, or a record shorter than the shortest of its kind,
/// gives the byte-stream error.
pub open spec fn token_metadata_account(d: Option<Seq<u8>>) -> Result<(Key, Option<Seq<u8>>), BlockbusterErrorView> {
    match d {
        None => Ok((Key::Uninitialized, None)),
        Some(s) => if s.len() == 0 {
            Ok((Key::Uninitialized, None))
        } else if s[0] >= KEY_COUNT {
            Err(layout_error())
        } else if key_of(s[0]) == Key::Uninitialized {
            Err(BlockbusterErrorView::UninitializedAccount)
        } else if !is_readable(key_of(s[0])) {
            Err(BlockbusterErrorView::AccountTypeNotImplemented)
        } else if s.len() < min_record_len(key_of(s[0])) {
            Err(layout_error())
        } else {
            Ok((key_of(s[0]), Some(s)))
        },
    }
}

/// The token metadata program's address,
/// metaqbxxUerdq28cj1RbAWkYQm3ybzjb6a8bt518x1s.
pub open spec fn token_metadata_program_bytes() -> Seq<u8> {
    seq![
        11u8, 112, 101, 177, 227, 209, 124, 69, 56, 157, 82, 127, 107, 4, 195, 205,
        88, 184, 108, 115, 26, 160, 253, 181, 73, 182, 209, 188, 3, 248, 41, 70,
    ]
}

/// The token metadata program's address.
pub fn token_metadata_id() -> (r: Pubkey)
    ensures
        r@ == token_metadata_program_bytes(),
{
    let r = Pubkey([
        11, 112, 101, 177, 227, 209, 124, 69, 56, 157, 82, 127, 107, 4, 195, 205,
        88, 184, 108, 115, 26, 160, 253, 181, 73, 182, 209, 188, 3, 248, 41, 70,
    ]);
    assert(r@ =~= token_metadata_program_bytes());
    r
}

/// The decoder of the token metadata program's accounts.
pub struct TokenMetadataParser;

impl TokenMetadataParser {
    /// The program this decoder reads.
    pub fn key(&self) -> (r: Pubkey)
        ensures
            r@ == token_metadata_program_bytes(),
    {
        token_metadata_id()
    }

    /// Whether `key` is the program this decoder reads.
    pub fn key_match(&self, key: &Pubkey) -> (r: bool)
        ensures
            r == (key@ == token_metadata_program_bytes()),
    {
        let id = token_metadata_id();
        let r = key.same_as(&id);
        proof {
            if key@ == token_metadata_program_bytes() {
                assert(key.0 =~= id.0);
            }
        }
        r
    }

    /// This decoder reads account snapshots.
    pub fn handles_account_updates(&self) -> (r: bool)
        ensures
            r,
    {
        true
    }

    /// This decoder reads no instructions.
    pub fn handles_instructions(&self) -> (r: bool)
        ensures
            !r,
    {
        false
    }

    /// Classifies a token metadata account by its first byte. An account
    /// without bytes is empty; one marked uninitialized, of a kind with no
    /// record decoder, or shorter than the shortest record of its kind,
    /// fails.
    pub fn handle_account(&self, account_info: &AccountInfo) -> (r: Result<
        TokenMetadataAccountState,
        BlockbusterError,
    >)
        ensures
            match r {
                Ok(st) => token_metadata_account(opt_view(account_info.data)) == Ok::<
                    (Key, Option<Seq<u8>>),
                    BlockbusterErrorView,
                >((
                    st.key,
                    match st.data {
                        TokenMetadataAccountData::EmptyAccount => None,
                        TokenMetadataAccountData::Record(b) => Some(b@),
                    },
                )),
                Err(e) => token_metadata_account(opt_view(account_info.data)) == Err::<
                    (Key, Option<Seq<u8>>),
                    BlockbusterErrorView,
                >(e@),
            },
    {
        let data = match &account_info.data {
            Some(d) => d,
            None => {
                return Ok(
                    TokenMetadataAccountState {
                        key: Key::Uninitialized,
                        data: TokenMetadataAccountData::EmptyAccount,
                    },
                );
            },
        };
        if data.len() == 0 {
            return Ok(
                TokenMetadataAccountState {
                    key: Key::Uninitialized,
                    data: TokenMetadataAccountData::EmptyAccount,
                },
            );
        }
        if data[0] >= KEY_COUNT {
            return Err(layout_failure());
        }
        let key = key_from_byte(data[0]);
        match key {
            Key::Uninitialized => Err(BlockbusterError::UninitializedAccount),
            Key::TokenOwnedEscrow | Key::TokenRecord | Key::MetadataDelegate => Err(
                BlockbusterError::AccountTypeNotImplemented,
            ),
            _ => {
                if data.len() < min_record_len_of(key) {
                    return Err(layout_failure());
                }
                let bytes = crate::wire::copy_range(data.as_slice(), 0, data.len());
                proof {
                    assert(bytes@ =~= data@);
                }
                Ok(TokenMetadataAccountState { key, data: TokenMetadataAccountData::Record(bytes) })
            },
        }
    }
}

/// A record shorter than the shortest record of its kind fails with the
/// byte-stream error, and so does a first byte that names no kind.
pub proof fn lemma_token_metadata_truncated(s: Seq<u8>)
    requires
        s.len() > 0,
        s[0] >= KEY_COUNT || (is_readable(key_of(s[0])) && s.len() < min_record_len(key_of(s[0]))),
    ensures
        token_metadata_account(Some(s)) == Err::<(Key, Option<Seq<u8>>), BlockbusterErrorView>(
            layout_error(),
        ),
{
}

} // verus!
