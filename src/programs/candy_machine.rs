//! The candy machine program's accounts: a candy machine, a collection record
//! and a freeze record, each told apart by an eight-byte discriminator.

use crate::error::{layout_error, layout_failure, BlockbusterError, BlockbusterErrorView};
use crate::program_handler::AccountInfo;
use crate::programs::bubblegum_state::{
    lift_view, read_creator_list, spec_creator_list, spec_creators, CreatorView,
};
use crate::pubkey::Pubkey;
use crate::wire::{
    has, opt_v, read_bool, read_bytes32, read_pubkey, read_string, read_u16, read_u64, read_u8,
    read_i64, spec_bool, spec_i64, spec_string, spec_u16, spec_u32, spec_u64,
};
use vstd::prelude::*;

pub use crate::programs::bubblegum_state::Creator;

verus! {

/// The candy machine account discriminator, read as a little-endian integer.
pub const CANDY_MACHINE_DISCRIMINATOR: u64 = 0xbd6d_f119_71b1_ad33;

/// The collection record discriminator, read as a little-endian integer.
pub const COLLECTION_PDA_DISCRIMINATOR: u64 = 0x9de8_59ea_7d77_80cb;

/// The freeze record discriminator, read as a little-endian integer.
pub const FREEZE_PDA_DISCRIMINATOR: u64 = 0x7ff3_c865_1894_3a9a;

/// The length of an account discriminator.
pub const DISCRIMINATOR_LEN: usize = 8;

/// The length of an encoded collection record.
pub const COLLECTION_PDA_LEN: usize = 64;

#[derive(PartialEq, Eq, Structural, Clone, Copy, Debug)]
pub enum EndSettingType {
    Date,
    Amount,
}

#[derive(PartialEq, Eq, Structural, Clone, Copy, Debug)]
pub struct EndSettings {
    pub end_setting_type: EndSettingType,
    pub number: u64,
}

#[derive(Debug)]
pub struct HiddenSettings {
    pub name: String,
    pub uri: String,
    pub hash: [u8; 32],
}

pub struct HiddenSettingsView {
    pub name: Seq<char>,
    pub uri: Seq<char>,
    pub hash: Seq<u8>,
}

impl View for HiddenSettings {
    type V = HiddenSettingsView;

    open spec fn view(&self) -> HiddenSettingsView {
        HiddenSettingsView { name: self.name@, uri: self.uri@, hash: self.hash@ }
    }
}

#[derive(PartialEq, Eq, Structural, Clone, Copy, Debug)]
pub enum WhitelistMintMode {
    BurnEveryTime,
    NeverBurn,
}

#[derive(Clone, Copy, Debug)]
pub struct WhitelistMintSettings {
    pub mode: WhitelistMintMode,
    pub mint: Pubkey,
    pub presale: bool,
    pub discount_price: Option<u64>,
}

pub struct WhitelistMintSettingsView {
    pub mode: WhitelistMintMode,
    pub mint: Seq<u8>,
    pub presale: bool,
    pub discount_price: Option<u64>,
}

impl View for WhitelistMintSettings {
    type V = WhitelistMintSettingsView;

    open spec fn view(&self) -> WhitelistMintSettingsView {
        WhitelistMintSettingsView {
            mode: self.mode,
            mint: self.mint@,
            presale: self.presale,
            discount_price: self.discount_price,
        }
    }
}

#[derive(Clone, Copy, Debug)]
pub struct GatekeeperConfig {
    pub gatekeeper_network: Pubkey,
    pub expire_on_use: bool,
}

pub struct GatekeeperConfigView {
    pub gatekeeper_network: Seq<u8>,
    pub expire_on_use: bool,
}

impl View for GatekeeperConfig {
    type V = GatekeeperConfigView;

    open spec fn view(&self) -> GatekeeperConfigView {
        GatekeeperConfigView {
            gatekeeper_network: self.gatekeeper_network@,
            expire_on_use: self.expire_on_use,
        }
    }
}

#[derive(Debug)]
pub struct CandyMachineData {
    pub uuid: String,
    pub price: u64,
    pub symbol: String,
    pub seller_fee_basis_points: u16,
    pub max_supply: u64,
    pub is_mutable: bool,
    pub retain_authority: bool,
    pub go_live_date: Option<i64>,
    pub end_settings: Option<EndSettings>,
    pub creators: Vec<Creator>,
    pub hidden_settings: Option<HiddenSettings>,
    pub whitelist_mint_settings: Option<WhitelistMintSettings>,
    pub items_available: u64,
    pub gatekeeper: Option<GatekeeperConfig>,
}

pub struct CandyMachineDataView {
    pub uuid: Seq<char>,
    pub price: u64,
    pub symbol: Seq<char>,
    pub seller_fee_basis_points: u16,
    pub max_supply: u64,
    pub is_mutable: bool,
    pub retain_authority: bool,
    pub go_live_date: Option<i64>,
    pub end_settings: Option<EndSettings>,
    pub creators: Seq<CreatorView>,
    pub hidden_settings: Option<HiddenSettingsView>,
    pub whitelist_mint_settings: Option<WhitelistMintSettingsView>,
    pub items_available: u64,
    pub gatekeeper: Option<GatekeeperConfigView>,
}

impl View for CandyMachineData {
    type V = CandyMachineDataView;

    open spec fn view(&self) -> CandyMachineDataView {
        CandyMachineDataView {
            uuid: self.uuid@,
            price: self.price,
            symbol: self.symbol@,
            seller_fee_basis_points: self.seller_fee_basis_points,
            max_supply: self.max_supply,
            is_mutable: self.is_mutable,
            retain_authority: self.retain_authority,
            go_live_date: self.go_live_date,
            end_settings: self.end_settings,
            creators: self.creators@.map_values(|c: Creator| c@),
            hidden_settings: opt_v(self.hidden_settings),
            whitelist_mint_settings: opt_v(self.whitelist_mint_settings),
            items_available: self.items_available,
            gatekeeper: opt_v(self.gatekeeper),
        }
    }
}

#[derive(Debug)]
pub struct CandyMachine {
    pub authority: Pubkey,
    pub wallet: Pubkey,
    pub token_mint: Option<Pubkey>,
    pub items_redeemed: u64,
    pub data: CandyMachineData,
}

pub struct CandyMachineView {
    pub authority: Seq<u8>,
    pub wallet: Seq<u8>,
    pub token_mint: Option<Seq<u8>>,
    pub items_redeemed: u64,
    pub data: CandyMachineDataView,
}

impl View for CandyMachine {
    type V = CandyMachineView;

    open spec fn view(&self) -> CandyMachineView {
        CandyMachineView {
            authority: self.authority@,
            wallet: self.wallet@,
            token_mint: opt_v(self.token_mint),
            items_redeemed: self.items_redeemed,
            data: self.data@,
        }
    }
}

#[derive(Clone, Copy, Debug)]
pub struct CollectionPDA {
    pub mint: Pubkey,
    pub candy_machine: Pubkey,
}

pub struct CollectionPDAView {
    pub mint: Seq<u8>,
    pub candy_machine: Seq<u8>,
}

impl View for CollectionPDA {
    type V = CollectionPDAView;

    open spec fn view(&self) -> CollectionPDAView {
        CollectionPDAView { mint: self.mint@, candy_machine: self.candy_machine@ }
    }
}

#[derive(Clone, Copy, Debug)]
pub struct FreezePDA {
    pub candy_machine: Pubkey,
    pub allow_thaw: bool,
    pub frozen_count: u64,
    pub mint_start: Option<i64>,
    pub freeze_time: i64,
    pub freeze_fee: u64,
}

pub struct FreezePDAView {
    pub candy_machine: Seq<u8>,
    pub allow_thaw: bool,
    pub frozen_count: u64,
    pub mint_start: Option<i64>,
    pub freeze_time: i64,
    pub freeze_fee: u64,
}

impl View for FreezePDA {
    type V = FreezePDAView;

    open spec fn view(&self) -> FreezePDAView {
        FreezePDAView {
            candy_machine: self.candy_machine@,
            allow_thaw: self.allow_thaw,
            frozen_count: self.frozen_count,
            mint_start: self.mint_start,
            freeze_time: self.freeze_time,
            freeze_fee: self.freeze_fee,
        }
    }
}

/// A decoded candy machine account.
#[derive(Debug)]
pub enum CandyMachineAccountData {
    CandyMachine(CandyMachine),
    CollectionPDA(CollectionPDA),
    FreezePDA(FreezePDA),
}

pub enum CandyMachineAccountDataView {
    CandyMachine(CandyMachineView),
    CollectionPDA(CollectionPDAView),
    FreezePDA(FreezePDAView),
}

impl View for CandyMachineAccountData {
    type V = CandyMachineAccountDataView;

    open spec fn view(&self) -> CandyMachineAccountDataView {
        match self {
            CandyMachineAccountData::CandyMachine(c) => CandyMachineAccountDataView::CandyMachine(c@),
            CandyMachineAccountData::CollectionPDA(c) => CandyMachineAccountDataView::CollectionPDA(c@),
            CandyMachineAccountData::FreezePDA(f) => CandyMachineAccountDataView::FreezePDA(f@),
        }
    }
}

// Layouts, as for the compressed-state records: tags are one byte, optional
// values carry a presence byte, lists a four-byte count.
pub open spec fn spec_opt_i64(s: Seq<u8>, p: int) -> Option<(Option<i64>, int)> {
    match spec_bool(s, p) {
        Some((false, q)) => Some((None, q)),
        Some((true, q)) => match spec_i64(s, q) {
            Some((v, e)) => Some((Some(v), e)),
            None => None,
        },
        None => None,
    }
}

pub open spec fn spec_opt_u64(s: Seq<u8>, p: int) -> Option<(Option<u64>, int)> {
    match spec_bool(s, p) {
        Some((false, q)) => Some((None, q)),
        Some((true, q)) => match spec_u64(s, q) {
            Some((v, e)) => Some((Some(v), e)),
            None => None,
        },
        None => None,
    }
}

pub open spec fn spec_opt_pubkey(s: Seq<u8>, p: int) -> Option<(Option<Seq<u8>>, int)> {
    match spec_bool(s, p) {
        Some((false, q)) => Some((None, q)),
        Some((true, q)) => if has(s, q, 32) {
            Some((Some(s.subrange(q, q + 32)), q + 32))
        } else {
            None
        },
        None => None,
    }
}

/// End settings: the type's tag, then a number.
pub open spec fn spec_opt_end_settings(s: Seq<u8>, p: int) -> Option<(Option<EndSettings>, int)> {
    match spec_bool(s, p) {
        Some((false, q)) => Some((None, q)),
        Some((true, q)) => if has(s, q, 9) && s[q] < 2 {
            Some((
                Some(EndSettings {
                    end_setting_type: if s[q] == 0 {
                        EndSettingType::Date
                    } else {
                        EndSettingType::Amount
                    },
                    number: spec_u64(s, q + 1)->Some_0.0,
                }),
                q + 9,
            ))
        } else {
            None
        },
        None => None,
    }
}

/// Hidden settings: name, uri, then a 32-byte hash.
pub open spec fn spec_opt_hidden_settings(s: Seq<u8>, p: int) -> Option<(Option<HiddenSettingsView>, int)> {
    match spec_bool(s, p) {
        Some((false, q)) => Some((None, q)),
        Some((true, q)) => {
            let name = spec_string(s, q);
            let uri = spec_string(s, name->Some_0.1);
            let e = uri->Some_0.1;
            if name is Some && uri is Some && has(s, e, 32) {
                Some((
                    Some(HiddenSettingsView {
                        name: name->Some_0.0,
                        uri: uri->Some_0.0,
                        hash: s.subrange(e, e + 32),
                    }),
                    e + 32,
                ))
            } else {
                None
            }
        },
        None => None,
    }
}

/// Whitelist settings: the mode's tag, the mint, the presale flag and an
/// optional discount price.
pub open spec fn spec_opt_whitelist(s: Seq<u8>, p: int) -> Option<(Option<WhitelistMintSettingsView>, int)> {
    match spec_bool(s, p) {
        Some((false, q)) => Some((None, q)),
        Some((true, q)) => if has(s, q, 34) && s[q] < 2 && s[q + 33] <= 1 {
            match spec_opt_u64(s, q + 34) {
                Some((price, e)) => Some((
                    Some(WhitelistMintSettingsView {
                        mode: if s[q] == 0 {
                            WhitelistMintMode::BurnEveryTime
                        } else {
                            WhitelistMintMode::NeverBurn
                        },
                        mint: s.subrange(q + 1, q + 33),
                        presale: s[q + 33] == 1,
                        discount_price: price,
                    }),
                    e,
                )),
                None => None,
            }
        } else {
            None
        },
        None => None,
    }
}

/// Gatekeeper settings: the network, then the expire-on-use flag.
pub open spec fn spec_opt_gatekeeper(s: Seq<u8>, p: int) -> Option<(Option<GatekeeperConfigView>, int)> {
    match spec_bool(s, p) {
        Some((false, q)) => Some((None, q)),
        Some((true, q)) => if has(s, q, 33) && s[q + 32] <= 1 {
            Some((
                Some(GatekeeperConfigView {
                    gatekeeper_network: s.subrange(q, q + 32),
                    expire_on_use: s[q + 32] == 1,
                }),
                q + 33,
            ))
        } else {
            None
        },
        None => None,
    }
}

/// A candy machine's settings, field by field in declaration order.
pub open spec fn spec_candy_machine_data(s: Seq<u8>, p: int) -> Option<(CandyMachineDataView, int)> {
    let uuid = spec_string(s, p);
    let price = spec_u64(s, uuid->Some_0.1);
    let symbol = spec_string(s, price->Some_0.1);
    let fee = spec_u16(s, symbol->Some_0.1);
    let max_supply = spec_u64(s, fee->Some_0.1);
    let mutable = spec_bool(s, max_supply->Some_0.1);
    let retain = spec_bool(s, mutable->Some_0.1);
    let live = spec_opt_i64(s, retain->Some_0.1);
    let end = spec_opt_end_settings(s, live->Some_0.1);
    let creators = spec_creator_list(s, end->Some_0.1);
    let hidden = spec_opt_hidden_settings(s, creators->Some_0.1);
    let whitelist = spec_opt_whitelist(s, hidden->Some_0.1);
    let available = spec_u64(s, whitelist->Some_0.1);
    let gatekeeper = spec_opt_gatekeeper(s, available->Some_0.1);
    if uuid is Some && price is Some && symbol is Some && fee is Some && max_supply is Some
        && mutable is Some && retain is Some && live is Some && end is Some && creators is Some
        && hidden is Some && whitelist is Some && available is Some && gatekeeper is Some {
        Some((
            CandyMachineDataView {
                uuid: uuid->Some_0.0,
                price: price->Some_0.0,
                symbol: symbol->Some_0.0,
                seller_fee_basis_points: fee->Some_0.0,
                max_supply: max_supply->Some_0.0,
                is_mutable: mutable->Some_0.0,
                retain_authority: retain->Some_0.0,
                go_live_date: live->Some_0.0,
                end_settings: end->Some_0.0,
                creators: creators->Some_0.0,
                hidden_settings: hidden->Some_0.0,
                whitelist_mint_settings: whitelist->Some_0.0,
                items_available: available->Some_0.0,
                gatekeeper: gatekeeper->Some_0.0,
            },
            gatekeeper->Some_0.1,
        ))
    } else {
        None
    }
}

/// A candy machine: authority, wallet, optional token mint, items redeemed,
/// then its settings.
pub open spec fn spec_candy_machine(s: Seq<u8>, p: int) -> Option<(CandyMachineView, int)> {
    let mint = spec_opt_pubkey(s, p + 64);
    let redeemed = spec_u64(s, mint->Some_0.1);
    let data = spec_candy_machine_data(s, redeemed->Some_0.1);
    if has(s, p, 64) && mint is Some && redeemed is Some && data is Some {
        Some((
            CandyMachineView {
                authority: s.subrange(p, p + 32),
                wallet: s.subrange(p + 32, p + 64),
                token_mint: mint->Some_0.0,
                items_redeemed: redeemed->Some_0.0,
                data: data->Some_0.0,
            },
            data->Some_0.1,
        ))
    } else {
        None
    }
}

/// A collection record: the mint, then the candy machine.
pub open spec fn spec_collection_pda(s: Seq<u8>, p: int) -> Option<(CollectionPDAView, int)> {
    if has(s, p, 64) {
        Some((CollectionPDAView { mint: s.subrange(p, p + 32), candy_machine: s.subrange(p + 32, p + 64) }, p + 64))
    } else {
        None
    }
}

/// A freeze record: the candy machine, the thaw flag, the frozen count, an
/// optional mint start, the freeze time and the freeze fee.
pub open spec fn spec_freeze_pda(s: Seq<u8>, p: int) -> Option<(FreezePDAView, int)> {
    let start = spec_opt_i64(s, p + 41);
    let time = spec_i64(s, start->Some_0.1);
    let fee = spec_u64(s, time->Some_0.1);
    if has(s, p, 41) && s[p + 32] <= 1 && start is Some && time is Some && fee is Some {
        Some((
            FreezePDAView {
                candy_machine: s.subrange(p, p + 32),
                allow_thaw: s[p + 32] == 1,
                frozen_count: spec_u64(s, p + 33)->Some_0.0,
                mint_start: start->Some_0.0,
                freeze_time: time->Some_0.0,
                freeze_fee: fee->Some_0.0,
            },
            fee->Some_0.1,
        ))
    } else {
        None
    }
}

/// The decoding of a candy machine account's bytes: the discriminator picks
/// the record; a candy machine may leave bytes unread after it, the two other
/// records must fill the account exactly. Bytes that hold no discriminator or
/// not the record it names give the byte-stream error.
pub open spec fn candy_machine_account(d: Seq<u8>) -> Result<CandyMachineAccountDataView, BlockbusterErrorView> {
    match spec_u64(d, 0) {
        None => Err(layout_error()),
        Some((disc, _)) => if disc == CANDY_MACHINE_DISCRIMINATOR {
            match spec_candy_machine(d, 8) {
                Some((c, _)) => Ok(CandyMachineAccountDataView::CandyMachine(c)),
                None => Err(layout_error()),
            }
        } else if disc == COLLECTION_PDA_DISCRIMINATOR {
            match spec_collection_pda(d, 8) {
                Some((c, e)) => if e == d.len() {
                    Ok(CandyMachineAccountDataView::CollectionPDA(c))
                } else {
                    Err(layout_error())
                },
                None => Err(layout_error()),
            }
        } else if disc == FREEZE_PDA_DISCRIMINATOR {
            match spec_freeze_pda(d, 8) {
                Some((f, e)) => if e == d.len() {
                    Ok(CandyMachineAccountDataView::FreezePDA(f))
                } else {
                    Err(layout_error())
                },
                None => Err(layout_error()),
            }
        } else {
            Err(BlockbusterErrorView::UnknownAccountDiscriminator)
        },
    }
}

fn read_opt_i64(d: &[u8], p: usize) -> (r: Option<(Option<i64>, usize)>)
    ensures
        match r {
            Some((v, q)) => spec_opt_i64(d@, p as int) == Some((v, q as int)),
            None => spec_opt_i64(d@, p as int) is None,
        },
{
    match read_bool(d, p) {
        Some((false, q)) => Some((None, q)),
        Some((true, q)) => match read_i64(d, q) {
            Some((v, e)) => Some((Some(v), e)),
            None => None,
        },
        None => None,
    }
}

fn read_opt_u64(d: &[u8], p: usize) -> (r: Option<(Option<u64>, usize)>)
    ensures
        match r {
            Some((v, q)) => spec_opt_u64(d@, p as int) == Some((v, q as int)),
            None => spec_opt_u64(d@, p as int) is None,
        },
{
    match read_bool(d, p) {
        Some((false, q)) => Some((None, q)),
        Some((true, q)) => match read_u64(d, q) {
            Some((v, e)) => Some((Some(v), e)),
            None => None,
        },
        None => None,
    }
}

fn read_opt_pubkey(d: &[u8], p: usize) -> (r: Option<(Option<Pubkey>, usize)>)
    ensures
        match r {
            Some((v, q)) => spec_opt_pubkey(d@, p as int) == Some((opt_v(v), q as int)),
            None => spec_opt_pubkey(d@, p as int) is None,
        },
{
    match read_bool(d, p) {
        Some((false, q)) => Some((None, q)),
        Some((true, q)) => match read_pubkey(d, q) {
            Some((k, e)) => Some((Some(k), e)),
            None => None,
        },
        None => None,
    }
}

fn read_opt_end_settings(d: &[u8], p: usize) -> (r: Option<(Option<EndSettings>, usize)>)
    ensures
        match r {
            Some((v, q)) => spec_opt_end_settings(d@, p as int) == Some((v, q as int)),
            None => spec_opt_end_settings(d@, p as int) is None,
        },
{
    match read_bool(d, p) {
        Some((false, q)) => Some((None, q)),
        Some((true, q)) => {
            let (end_setting_type, q1) = match read_u8(d, q) {
                Some((0, e)) => (EndSettingType::Date, e),
                Some((1, e)) => (EndSettingType::Amount, e),
                _ => {
                    return None;
                },
            };
            match read_u64(d, q1) {
                Some((number, e)) => Some((Some(EndSettings { end_setting_type, number }), e)),
                None => None,
            }
        },
        None => None,
    }
}

fn read_opt_hidden_settings(d: &[u8], p: usize) -> (r: Option<(Option<HiddenSettings>, usize)>)
    ensures
        match r {
            Some((v, q)) => spec_opt_hidden_settings(d@, p as int) == Some((opt_v(v), q as int)),
            None => spec_opt_hidden_settings(d@, p as int) is None,
        },
{
    match read_bool(d, p) {
        Some((false, q)) => Some((None, q)),
        Some((true, q)) => {
            let (name, q1) = match read_string(d, q) {
                Some(x) => x,
                None => {
                    return None;
                },
            };
            let (uri, q2) = match read_string(d, q1) {
                Some(x) => x,
                None => {
                    return None;
                },
            };
            match read_bytes32(d, q2) {
                Some((hash, e)) => Some((Some(HiddenSettings { name, uri, hash }), e)),
                None => None,
            }
        },
        None => None,
    }
}

fn read_opt_whitelist(d: &[u8], p: usize) -> (r: Option<(Option<WhitelistMintSettings>, usize)>)
    ensures
        match r {
            Some((v, q)) => spec_opt_whitelist(d@, p as int) == Some((opt_v(v), q as int)),
            None => spec_opt_whitelist(d@, p as int) is None,
        },
{
    match read_bool(d, p) {
        Some((false, q)) => Some((None, q)),
        Some((true, q)) => {
            let (mode, q1) = match read_u8(d, q) {
                Some((0, e)) => (WhitelistMintMode::BurnEveryTime, e),
                Some((1, e)) => (WhitelistMintMode::NeverBurn, e),
                _ => {
                    return None;
                },
            };
            let (mint, q2) = match read_pubkey(d, q1) {
                Some(x) => x,
                None => {
                    return None;
                },
            };
            let (presale, q3) = match read_bool(d, q2) {
                Some(x) => x,
                None => {
                    return None;
                },
            };
            match read_opt_u64(d, q3) {
                Some((discount_price, e)) => Some((
                    Some(WhitelistMintSettings { mode, mint, presale, discount_price }),
                    e,
                )),
                None => None,
            }
        },
        None => None,
    }
}

fn read_opt_gatekeeper(d: &[u8], p: usize) -> (r: Option<(Option<GatekeeperConfig>, usize)>)
    ensures
        match r {
            Some((v, q)) => spec_opt_gatekeeper(d@, p as int) == Some((opt_v(v), q as int)),
            None => spec_opt_gatekeeper(d@, p as int) is None,
        },
{
    match read_bool(d, p) {
        Some((false, q)) => Some((None, q)),
        Some((true, q)) => {
            let (gatekeeper_network, q1) = match read_pubkey(d, q) {
                Some(x) => x,
                None => {
                    return None;
                },
            };
            match read_bool(d, q1) {
                Some((expire_on_use, e)) => Some((
                    Some(GatekeeperConfig { gatekeeper_network, expire_on_use }),
                    e,
                )),
                None => None,
            }
        },
        None => None,
    }
}

fn read_candy_machine_data(d: &[u8], p: usize) -> (r: Option<(CandyMachineData, usize)>)
    ensures
        lift_view(r) == spec_candy_machine_data(d@, p as int),
{
    let (uuid, at1) = match read_string(d, p) {
        Some(x) => x,
        None => {
            return None;
        },
    };
    let (price, at2) = match read_u64(d, at1) {
        Some(x) => x,
        None => {
            return None;
        },
    };
    let (symbol, at3) = match read_string(d, at2) {
        Some(x) => x,
        None => {
            return None;
        },
    };
    let (seller_fee_basis_points, at4) = match read_u16(d, at3) {
        Some(x) => x,
        None => {
            return None;
        },
    };
    let (max_supply, at5) = match read_u64(d, at4) {
        Some(x) => x,
        None => {
            return None;
        },
    };
    let (is_mutable, at6) = match read_bool(d, at5) {
        Some(x) => x,
        None => {
            return None;
        },
    };
    let (retain_authority, at7) = match read_bool(d, at6) {
        Some(x) => x,
        None => {
            return None;
        },
    };
    let (go_live_date, at8) = match read_opt_i64(d, at7) {
        Some(x) => x,
        None => {
            return None;
        },
    };
    let (end_settings, at9) = match read_opt_end_settings(d, at8) {
        Some(x) => x,
        None => {
            return None;
        },
    };
    let (creators, at10) = match read_creator_list(d, at9) {
        Some(x) => x,
        None => {
            return None;
        },
    };
    let (hidden_settings, at11) = match read_opt_hidden_settings(d, at10) {
        Some(x) => x,
        None => {
            return None;
        },
    };
    let (whitelist_mint_settings, at12) = match read_opt_whitelist(d, at11) {
        Some(x) => x,
        None => {
            return None;
        },
    };
    let (items_available, at13) = match read_u64(d, at12) {
        Some(x) => x,
        None => {
            return None;
        },
    };
    let (gatekeeper, at14) = match read_opt_gatekeeper(d, at13) {
        Some(x) => x,
        None => {
            return None;
        },
    };
    let data = CandyMachineData {
        uuid,
        price,
        symbol,
        seller_fee_basis_points,
        max_supply,
        is_mutable,
        retain_authority,
        go_live_date,
        end_settings,
        creators,
        hidden_settings,
        whitelist_mint_settings,
        items_available,
        gatekeeper,
    };
    Some((data, at14))
}

fn read_candy_machine(d: &[u8], p: usize) -> (r: Option<(CandyMachine, usize)>)
    ensures
        lift_view(r) == spec_candy_machine(d@, p as int),
{
    let (authority, at1) = match read_pubkey(d, p) {
        Some(x) => x,
        None => {
            return None;
        },
    };
    let (wallet, at2) = match read_pubkey(d, at1) {
        Some(x) => x,
        None => {
            return None;
        },
    };
    let (token_mint, at3) = match read_opt_pubkey(d, at2) {
        Some(x) => x,
        None => {
            return None;
        },
    };
    let (items_redeemed, at4) = match read_u64(d, at3) {
        Some(x) => x,
        None => {
            return None;
        },
    };
    match read_candy_machine_data(d, at4) {
        Some((data, e)) => Some((CandyMachine { authority, wallet, token_mint, items_redeemed, data }, e)),
        None => None,
    }
}

fn read_collection_pda(d: &[u8], p: usize) -> (r: Option<(CollectionPDA, usize)>)
    ensures
        lift_view(r) == spec_collection_pda(d@, p as int),
{
    let (mint, at1) = match read_pubkey(d, p) {
        Some(x) => x,
        None => {
            return None;
        },
    };
    match read_pubkey(d, at1) {
        Some((candy_machine, e)) => Some((CollectionPDA { mint, candy_machine }, e)),
        None => None,
    }
}

fn read_freeze_pda(d: &[u8], p: usize) -> (r: Option<(FreezePDA, usize)>)
    ensures
        lift_view(r) == spec_freeze_pda(d@, p as int),
{
    let (candy_machine, at1) = match read_pubkey(d, p) {
        Some(x) => x,
        None => {
            return None;
        },
    };
    let (allow_thaw, at2) = match read_bool(d, at1) {
        Some(x) => x,
        None => {
            return None;
        },
    };
    let (frozen_count, at3) = match read_u64(d, at2) {
        Some(x) => x,
        None => {
            return None;
        },
    };
    let (mint_start, at4) = match read_opt_i64(d, at3) {
        Some(x) => x,
        None => {
            return None;
        },
    };
    let (freeze_time, at5) = match read_i64(d, at4) {
        Some(x) => x,
        None => {
            return None;
        },
    };
    match read_u64(d, at5) {
        Some((freeze_fee, e)) => Some((
            FreezePDA { candy_machine, allow_thaw, frozen_count, mint_start, freeze_time, freeze_fee },
            e,
        )),
        None => None,
    }
}

/// The candy machine program's address,
/// cndy3Z4yapfJBmL3ShUp5exZKqR3z33thTzeNMm2gRZ.
pub open spec fn candy_machine_program_bytes() -> Seq<u8> {
    seq![
        9u8, 42, 238, 61, 252, 45, 14, 85, 120, 35, 19, 131, 121, 105, 234, 245,
        33, 81, 192, 150, 192, 107, 92, 42, 130, 240, 134, 165, 3, 232, 44, 52,
    ]
}

/// The candy machine program's address.
pub fn candy_machine_id() -> (r: Pubkey)
    ensures
        r@ == candy_machine_program_bytes(),
{
    let r = Pubkey([
        9, 42, 238, 61, 252, 45, 14, 85, 120, 35, 19, 131, 121, 105, 234, 245,
        33, 81, 192, 150, 192, 107, 92, 42, 130, 240, 134, 165, 3, 232, 44, 52,
    ]);
    assert(r@ =~= candy_machine_program_bytes());
    r
}

/// Decodes the bytes of a candy machine account.
pub fn decode_candy_machine_account(d: &[u8]) -> (r: Result<CandyMachineAccountData, BlockbusterError>)
    ensures
        crate::error::result_view(r) == candy_machine_account(d@),
{
    let disc = match read_u64(d, 0) {
        Some((v, _)) => v,
        None => {
            return Err(layout_failure());
        },
    };
    if disc == CANDY_MACHINE_DISCRIMINATOR {
        match read_candy_machine(d, DISCRIMINATOR_LEN) {
            Some((c, _)) => Ok(CandyMachineAccountData::CandyMachine(c)),
            None => Err(layout_failure()),
        }
    } else if disc == COLLECTION_PDA_DISCRIMINATOR {
        match read_collection_pda(d, DISCRIMINATOR_LEN) {
            Some((c, e)) => if e == d.len() {
                Ok(CandyMachineAccountData::CollectionPDA(c))
            } else {
                Err(layout_failure())
            },
            None => Err(layout_failure()),
        }
    } else if disc == FREEZE_PDA_DISCRIMINATOR {
        match read_freeze_pda(d, DISCRIMINATOR_LEN) {
            Some((f, e)) => if e == d.len() {
                Ok(CandyMachineAccountData::FreezePDA(f))
            } else {
                Err(layout_failure())
            },
            None => Err(layout_failure()),
        }
    } else {
        Err(BlockbusterError::UnknownAccountDiscriminator)
    }
}

/// The decoder of the candy machine program.
pub struct CandyMachineParser;

impl CandyMachineParser {
    /// The program this decoder reads.
    pub fn key(&self) -> (r: Pubkey)
        ensures
            r@ == candy_machine_program_bytes(),
    {
        candy_machine_id()
    }

    /// Whether `key` is the program this decoder reads.
    pub fn key_match(&self, key: &Pubkey) -> (r: bool)
        ensures
            r == (key@ == candy_machine_program_bytes()),
    {
        let id = candy_machine_id();
        let r = key.same_as(&id);
        proof {
            if key@ == candy_machine_program_bytes() {
                assert(key.0 =~= id.0);
            }
        }
        r
    }

    /// This decoder reads account snapshots.
    pub fn handles_account_updates(&self) -> (r: bool)
        ensures
            r,
    {
        true
    }

    /// This decoder reads no instructions.
    pub fn handles_instructions(&self) -> (r: bool)
        ensures
            !r,
    {
        false
    }

    /// Decodes a candy machine account snapshot; one without data fails.
    pub fn handle_account(&self, account_info: &AccountInfo) -> (r: Result<
        CandyMachineAccountData,
        BlockbusterError,
    >)
        ensures
            crate::error::result_view(r) == match account_info.data {
                Some(d) => candy_machine_account(d@),
                None => Err(BlockbusterErrorView::DeserializationError),
            },
    {
        match &account_info.data {
            Some(d) => decode_candy_machine_account(d.as_slice()),
            None => Err(BlockbusterError::DeserializationError),
        }
    }
}

/// An account whose eight-byte discriminator names no known record fails
/// with an unknown-discriminator error.
pub proof fn lemma_unknown_discriminator(d: Seq<u8>)
    requires
        d.len() >= DISCRIMINATOR_LEN,
        spec_u64(d, 0)->Some_0.0 != CANDY_MACHINE_DISCRIMINATOR,
        spec_u64(d, 0)->Some_0.0 != COLLECTION_PDA_DISCRIMINATOR,
        spec_u64(d, 0)->Some_0.0 != FREEZE_PDA_DISCRIMINATOR,
    ensures
        candy_machine_account(d) == Err::<CandyMachineAccountDataView, BlockbusterErrorView>(
            BlockbusterErrorView::UnknownAccountDiscriminator,
        ),
{
}

/// A collection record cut short of its full length, or followed by extra
/// bytes, fails with the byte-stream error.
pub proof fn lemma_collection_pda_length(d: Seq<u8>)
    requires
        d.len() >= DISCRIMINATOR_LEN,
        spec_u64(d, 0)->Some_0.0 == COLLECTION_PDA_DISCRIMINATOR,
        d.len() != DISCRIMINATOR_LEN + COLLECTION_PDA_LEN,
    ensures
        candy_machine_account(d) == Err::<CandyMachineAccountDataView, BlockbusterErrorView>(
            layout_error(),
        ),
{
}

/// The shortest freeze record: key, flag, count, an absent mint start, time
/// and fee.
pub const FREEZE_PDA_MIN_LEN: usize = 58;

/// A freeze record cut below its shortest length fails with the byte-stream error.
pub proof fn lemma_freeze_pda_truncated(d: Seq<u8>)
    requires
        d.len() >= DISCRIMINATOR_LEN,
        spec_u64(d, 0)->Some_0.0 == FREEZE_PDA_DISCRIMINATOR,
        d.len() < DISCRIMINATOR_LEN + FREEZE_PDA_MIN_LEN,
    ensures
        candy_machine_account(d) == Err::<CandyMachineAccountDataView, BlockbusterErrorView>(
            layout_error(),
        ),
{
}

proof fn lemma_string_bounds(s: Seq<u8>, p: int)
    ensures
        spec_string(s, p) matches Some((_, e)) ==> p + 4 <= e <= s.len(),
{
}

proof fn lemma_creators_bounds(s: Seq<u8>, p: int, n: nat)
    requires
        0 <= p <= s.len(),
    ensures
        spec_creators(s, p, n) matches Some((_, e)) ==> p <= e <= s.len(),
    decreases n,
{
    if n > 0 {
        lemma_creators_bounds(s, p, (n - 1) as nat);
    }
}

proof fn lemma_hidden_settings_bounds(s: Seq<u8>, p: int)
    ensures
        spec_opt_hidden_settings(s, p) matches Some((_, e)) ==> p + 1 <= e <= s.len(),
{
    lemma_string_bounds(s, p + 1);
    if let Some((_, q)) = spec_string(s, p + 1) {
        lemma_string_bounds(s, q);
    }
}

proof fn lemma_candy_machine_data_bounds(s: Seq<u8>, p: int)
    ensures
        spec_candy_machine_data(s, p) matches Some((_, e)) ==> p + 45 <= e <= s.len(),
{
    let uuid = spec_string(s, p);
    lemma_string_bounds(s, p);
    let price = spec_u64(s, uuid->Some_0.1);
    lemma_string_bounds(s, price->Some_0.1);
    let symbol = spec_string(s, price->Some_0.1);
    let fee = spec_u16(s, symbol->Some_0.1);
    let max_supply = spec_u64(s, fee->Some_0.1);
    let mutable = spec_bool(s, max_supply->Some_0.1);
    let retain = spec_bool(s, mutable->Some_0.1);
    let live = spec_opt_i64(s, retain->Some_0.1);
    let end = spec_opt_end_settings(s, live->Some_0.1);
    let creators = spec_creator_list(s, end->Some_0.1);
    if let Some((n, q)) = spec_u32(s, end->Some_0.1) {
        lemma_creators_bounds(s, q, n as nat);
    }
    lemma_hidden_settings_bounds(s, creators->Some_0.1);
}

/// The shortest candy machine: both keys, an absent token mint, the redeemed
/// count, and settings with empty strings, no creators and every optional
/// value absent.
pub const CANDY_MACHINE_MIN_LEN: usize = 118;

/// A candy machine account cut below the shortest candy machine fails to
/// deserialize.
pub proof fn lemma_candy_machine_truncated(d: Seq<u8>)
    requires
        d.len() >= DISCRIMINATOR_LEN,
        spec_u64(d, 0)->Some_0.0 == CANDY_MACHINE_DISCRIMINATOR,
        d.len() < DISCRIMINATOR_LEN + CANDY_MACHINE_MIN_LEN,
    ensures
        candy_machine_account(d) == Err::<CandyMachineAccountDataView, BlockbusterErrorView>(
            layout_error(),
        ),
{
    let mint = spec_opt_pubkey(d, 72int);
    let redeemed = spec_u64(d, mint->Some_0.1);
    lemma_candy_machine_data_bounds(d, redeemed->Some_0.1);
}

} // verus!
