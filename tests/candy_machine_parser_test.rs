use blockbuster::error::BlockbusterError;
use blockbuster::program_handler::AccountInfo;
use blockbuster::programs::candy_machine::{
    candy_machine_id, CandyMachineAccountData, CandyMachineParser, EndSettingType,
    WhitelistMintMode, CANDY_MACHINE_DISCRIMINATOR, COLLECTION_PDA_DISCRIMINATOR,
    FREEZE_PDA_DISCRIMINATOR,
};
use blockbuster::pubkey::Pubkey;
use std::str::FromStr;

fn key(seed: u8) -> [u8; 32] {
    let mut k = [0u8; 32];
    for (i, b) in k.iter_mut().enumerate() {
        *b = seed.wrapping_mul(31).wrapping_add(i as u8);
    }
    k
}

fn put_string(out: &mut Vec<u8>, s: &str) {
    out.extend_from_slice(&(s.len() as u32).to_le_bytes());
    out.extend_from_slice(s.as_bytes());
}

fn account(data: Vec<u8>) -> AccountInfo {
    AccountInfo {
        pubkey: Pubkey(key(200)),
        owner: candy_machine_id(),
        data: Some(data),
        slot: 7,
    }
}

fn candy_machine_bytes() -> Vec<u8> {
    let mut d = CANDY_MACHINE_DISCRIMINATOR.to_le_bytes().to_vec();
    d.extend_from_slice(&key(1)); // authority
    d.extend_from_slice(&key(2)); // wallet
    d.push(1);
    d.extend_from_slice(&key(3)); // token mint
    d.extend_from_slice(&33u64.to_le_bytes()); // items redeemed
    put_string(&mut d, "uri");
    d.extend_from_slice(&991177u64.to_le_bytes());
    put_string(&mut d, "ABC");
    d.extend_from_slice(&44u16.to_le_bytes());
    d.extend_from_slice(&100000u64.to_le_bytes());
    d.push(1); // is mutable
    d.push(0); // retain authority
    d.push(1);
    d.extend_from_slice(&1663833216i64.to_le_bytes()); // go live date
    d.push(1);
    d.push(1); // end setting: amount
    d.extend_from_slice(&5000u64.to_le_bytes());
    d.extend_from_slice(&4u32.to_le_bytes());
    for (seed, verified, share) in [(4u8, 1u8, 33u8), (5, 0, 33), (6, 0, 33), (7, 1, 1)] {
        d.extend_from_slice(&key(seed));
        d.push(verified);
        d.push(share);
    }
    d.push(1); // hidden settings
    put_string(&mut d, "name");
    put_string(&mut d, "uri");
    d.extend_from_slice(&key(8));
    d.push(1); // whitelist settings
    d.push(0);
    d.extend_from_slice(&key(9));
    d.push(1);
    d.push(1);
    d.extend_from_slice(&12345u64.to_le_bytes());
    d.extend_from_slice(&55u64.to_le_bytes()); // items available
    d.push(1); // gatekeeper
    d.extend_from_slice(&key(10));
    d.push(1);
    d
}

#[test]
fn candy_machine_parser_test_test_setup() {
    let subject = CandyMachineParser {};
    let expected = anchor_lang::prelude::Pubkey::from_str(
        "cndy3Z4yapfJBmL3ShUp5exZKqR3z33thTzeNMm2gRZ",
    )
    .unwrap();
    assert_eq!(subject.key().to_bytes(), candy_machine_id().to_bytes());
    assert_eq!(subject.key().to_bytes(), expected.to_bytes());
    assert!(subject.key_match(&candy_machine_id()));
    assert!(!subject.key_match(&Pubkey(key(1))));
}

#[test]
fn test_basic_success_parsing_candy_machine_account() {
    let subject = CandyMachineParser {};
    let result = subject.handle_account(&account(candy_machine_bytes()));
    assert!(result.is_ok());
    match result.unwrap() {
        CandyMachineAccountData::CandyMachine(c) => {
            assert_eq!(c.authority.to_bytes(), key(1));
            assert_eq!(c.wallet.to_bytes(), key(2));
            assert_eq!(c.token_mint.unwrap().to_bytes(), key(3));
            assert_eq!(c.items_redeemed, 33);
            assert_eq!(c.data.uuid, "uri");
            assert_eq!(c.data.price, 991177);
            assert_eq!(c.data.symbol, "ABC");
            assert_eq!(c.data.seller_fee_basis_points, 44);
            assert_eq!(c.data.max_supply, 100000);
            assert!(c.data.is_mutable);
            assert!(!c.data.retain_authority);
            assert_eq!(c.data.go_live_date, Some(1663833216));
            let end = c.data.end_settings.unwrap();
            assert_eq!(end.end_setting_type, EndSettingType::Amount);
            assert_eq!(end.number, 5000);
            assert_eq!(c.data.creators.len(), 4);
            assert_eq!(c.data.creators[3].address.to_bytes(), key(7));
            assert!(c.data.creators[3].verified);
            assert_eq!(c.data.creators[3].share, 1);
            let hidden = c.data.hidden_settings.unwrap();
            assert_eq!(hidden.name, "name");
            assert_eq!(hidden.hash, key(8));
            let wl = c.data.whitelist_mint_settings.unwrap();
            assert_eq!(wl.mode, WhitelistMintMode::BurnEveryTime);
            assert_eq!(wl.discount_price, Some(12345));
            assert_eq!(c.data.items_available, 55);
            assert!(c.data.gatekeeper.unwrap().expire_on_use);
        }
        _ => panic!("Unexpected CandyMachineAccountData variant"),
    }
}

#[test]
fn test_unknown_discriminator_fails() {
    let mut data = CANDY_MACHINE_DISCRIMINATOR.to_le_bytes().to_vec();
    data[0] = 0;
    let subject = CandyMachineParser {};
    let result = subject.handle_account(&account(data));
    assert!(result.is_err());
    match result {
        Err(BlockbusterError::UnknownAccountDiscriminator) => (),
        other => panic!("Unexpected result: {:?}", other),
    }
}

#[test]
fn test_wrong_size_candy_machine_account_fails() {
    let mut data = CANDY_MACHINE_DISCRIMINATOR.to_le_bytes().to_vec();
    data.extend_from_slice(&key(11));
    let subject = CandyMachineParser {};
    let result = subject.handle_account(&account(data));
    assert!(result.is_err());
    match result {
        Err(BlockbusterError::IOError(_)) => (),
        other => panic!("Unexpected result: {:?}", other),
    }
}

#[test]
fn test_basic_success_parsing_collection_pda_account() {
    let mut data = COLLECTION_PDA_DISCRIMINATOR.to_le_bytes().to_vec();
    data.extend_from_slice(&key(12));
    data.extend_from_slice(&key(13));
    let subject = CandyMachineParser {};
    let result = subject.handle_account(&account(data));
    assert!(result.is_ok());
    match result.unwrap() {
        CandyMachineAccountData::CollectionPDA(c) => {
            assert_eq!(c.mint.to_bytes(), key(12));
            assert_eq!(c.candy_machine.to_bytes(), key(13));
        }
        _ => panic!("Unexpected CandyMachineAccountData variant"),
    }
}

#[test]
fn test_basic_success_parsing_freeze_pda_account() {
    let mut data = FREEZE_PDA_DISCRIMINATOR.to_le_bytes().to_vec();
    data.extend_from_slice(&key(14));
    data.push(1);
    data.extend_from_slice(&3u64.to_le_bytes());
    data.push(1);
    data.extend_from_slice(&1663833216i64.to_le_bytes());
    data.extend_from_slice(&300i64.to_le_bytes());
    data.extend_from_slice(&1000000u64.to_le_bytes());
    let subject = CandyMachineParser {};
    let result = subject.handle_account(&account(data));
    assert!(result.is_ok());
    match result.unwrap() {
        CandyMachineAccountData::FreezePDA(f) => {
            assert_eq!(f.candy_machine.to_bytes(), key(14));
            assert!(f.allow_thaw);
            assert_eq!(f.frozen_count, 3);
            assert_eq!(f.mint_start, Some(1663833216));
            assert_eq!(f.freeze_time, 300);
            assert_eq!(f.freeze_fee, 1000000);
        }
        _ => panic!("Unexpected CandyMachineAccountData variant"),
    }
}

#[test]
fn candy_machine_truncated_blob_fails() {
    let full = candy_machine_bytes();
    let subject = CandyMachineParser {};
    for cut in [8usize, 40, 100, full.len() - 1] {
        let result = subject.handle_account(&account(full[..cut].to_vec()));
        assert!(matches!(result, Err(BlockbusterError::IOError(_))));
    }
    let mut with_trailer = full.clone();
    with_trailer.extend_from_slice(&[9, 9, 9]);
    assert!(subject.handle_account(&account(with_trailer)).is_ok());
}

#[test]
fn collection_pda_with_extra_bytes_fails() {
    let mut data = COLLECTION_PDA_DISCRIMINATOR.to_le_bytes().to_vec();
    data.extend_from_slice(&key(12));
    data.extend_from_slice(&key(13));
    data.push(0);
    let subject = CandyMachineParser {};
    assert!(matches!(
        subject.handle_account(&account(data)),
        Err(BlockbusterError::IOError(_))
    ));
}

#[test]
fn freeze_pda_truncated_fails() {
    let mut data = FREEZE_PDA_DISCRIMINATOR.to_le_bytes().to_vec();
    data.extend_from_slice(&key(14));
    data.push(1);
    let subject = CandyMachineParser {};
    assert!(matches!(
        subject.handle_account(&account(data)),
        Err(BlockbusterError::IOError(_))
    ));
}

#[test]
fn candy_machine_account_without_data_fails() {
    let info = AccountInfo { pubkey: Pubkey(key(1)), owner: candy_machine_id(), data: None, slot: 0 };
    assert!(matches!(
        CandyMachineParser.handle_account(&info),
        Err(BlockbusterError::DeserializationError)
    ));
    assert!(matches!(
        CandyMachineParser.handle_account(&account(vec![1, 2, 3])),
        Err(BlockbusterError::IOError(_))
    ));
}
