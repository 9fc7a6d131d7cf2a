use anchor_lang::AnchorSerialize;
use blockbuster::error::BlockbusterError;
use blockbuster::instruction::CompiledInstruction;
use spl_account_compression::events::{
    AccountCompressionEvent, ApplicationDataEvent, ApplicationDataEventV1, ChangeLogEvent,
};
use blockbuster::instruction::InstructionBundle;
use blockbuster::program_handler::AccountInfo;
use blockbuster::programs::bubblegum::program_id;
use blockbuster::programs::candy_guard::{
    candy_guard_id, CandyGuardAccountData, CandyGuardParser, CANDY_GUARD_DISCRIMINATOR,
    MINT_COUNTER_DISCRIMINATOR,
};
use blockbuster::programs::candy_machine::candy_machine_id;
use blockbuster::programs::gummyroll::{gummy_roll_program_id, GummyrollParser};
use blockbuster::programs::token_account::{token_program_id, TokenAccountParser, TokenProgramAccount};
use blockbuster::programs::token_metadata::{
    token_metadata_id, Key, TokenMetadataAccountData, TokenMetadataParser,
};
use blockbuster::programs::{
    handle_account, handle_instruction, program_for, ParsedProgram, ProgramParseResult,
};
use blockbuster::pubkey::Pubkey;
use spl_token::solana_program::program_option::COption;
use spl_token::solana_program::program_pack::Pack;
use spl_token::solana_program::pubkey::Pubkey as SolanaPubkey;
use spl_token::state::{Account, AccountState, Mint};
use std::str::FromStr;

fn account(owner: Pubkey, data: Option<Vec<u8>>) -> AccountInfo {
    AccountInfo { pubkey: Pubkey([3; 32]), owner, data, slot: 1 }
}

fn token_account_bytes(state: AccountState) -> Vec<u8> {
    let acct = Account {
        mint: SolanaPubkey::new_from_array([1; 32]),
        owner: SolanaPubkey::new_from_array([2; 32]),
        amount: 5,
        delegate: COption::None,
        state,
        is_native: COption::None,
        delegated_amount: 0,
        close_authority: COption::Some(SolanaPubkey::new_from_array([4; 32])),
    };
    let mut d = vec![0u8; Account::LEN];
    Account::pack(acct, &mut d).unwrap();
    d
}

fn mint_bytes(is_initialized: bool) -> Vec<u8> {
    let mint = Mint {
        mint_authority: COption::Some(SolanaPubkey::new_from_array([5; 32])),
        supply: 100,
        decimals: 6,
        is_initialized,
        freeze_authority: COption::None,
    };
    let mut d = vec![0u8; Mint::LEN];
    Mint::pack(mint, &mut d).unwrap();
    d
}

#[test]
fn token_account_and_mint_by_length() {
    let p = TokenAccountParser;
    let expected =
        SolanaPubkey::from_str("TokenkegQfeZyiNwAJbNbGKPFXCWuBvf9Ss623VQ5DA").unwrap();
    assert_eq!(p.key().to_bytes(), expected.to_bytes());
    assert_eq!(p.key().to_bytes(), spl_token::id().to_bytes());
    match p.handle_account(&account(token_program_id(), Some(token_account_bytes(AccountState::Frozen)))) {
        Ok(TokenProgramAccount::TokenAccount(a)) => {
            assert_eq!(a.mint.to_bytes(), [1; 32]);
            assert_eq!(a.owner.to_bytes(), [2; 32]);
            assert_eq!(a.amount, 5);
            assert!(a.delegate.is_none());
            assert_eq!(a.state, 2);
            assert!(a.is_native.is_none());
            assert_eq!(a.delegated_amount, 0);
            assert_eq!(a.close_authority.unwrap().to_bytes(), [4; 32]);
        }
        _ => panic!("expected a token account"),
    }
    match p.handle_account(&account(token_program_id(), Some(mint_bytes(true)))) {
        Ok(TokenProgramAccount::Mint(m)) => {
            assert_eq!(m.mint_authority.unwrap().to_bytes(), [5; 32]);
            assert_eq!(m.supply, 100);
            assert_eq!(m.decimals, 6);
            assert!(m.is_initialized);
            assert!(m.freeze_authority.is_none());
        }
        _ => panic!("expected a mint"),
    }
}

#[test]
fn token_account_failures() {
    let p = TokenAccountParser;
    assert!(matches!(
        p.handle_account(&account(token_program_id(), Some(vec![0; 100]))),
        Err(BlockbusterError::InvalidDataLength)
    ));
    assert!(matches!(
        p.handle_account(&account(token_program_id(), None)),
        Err(BlockbusterError::DeserializationError)
    ));
    assert!(matches!(
        p.handle_account(&account(token_program_id(), Some(token_account_bytes(AccountState::Uninitialized)))),
        Err(BlockbusterError::DeserializationError)
    ));
    assert!(matches!(
        p.handle_account(&account(token_program_id(), Some(mint_bytes(false)))),
        Err(BlockbusterError::DeserializationError)
    ));
    let mut bad_tag = token_account_bytes(AccountState::Initialized);
    bad_tag[72] = 2;
    assert!(matches!(
        p.handle_account(&account(token_program_id(), Some(bad_tag))),
        Err(BlockbusterError::DeserializationError)
    ));
}

#[test]
fn token_metadata_classification() {
    let p = TokenMetadataParser;
    let expected =
        SolanaPubkey::from_str("metaqbxxUerdq28cj1RbAWkYQm3ybzjb6a8bt518x1s").unwrap();
    assert_eq!(p.key().to_bytes(), expected.to_bytes());
    let st = p.handle_account(&account(token_metadata_id(), Some(vec![]))).unwrap();
    assert_eq!(st.key, Key::Uninitialized);
    assert!(matches!(st.data, TokenMetadataAccountData::EmptyAccount));
    let mut record = vec![4u8];
    record.extend_from_slice(&[9; 82]);
    let st = p.handle_account(&account(token_metadata_id(), Some(record.clone()))).unwrap();
    assert_eq!(st.key, Key::MetadataV1);
    match st.data {
        TokenMetadataAccountData::Record(b) => assert_eq!(b, record),
        _ => panic!("expected a record"),
    }
    assert!(matches!(
        p.handle_account(&account(token_metadata_id(), Some(vec![4]))),
        Err(BlockbusterError::IOError(_))
    ));
    assert!(matches!(
        p.handle_account(&account(token_metadata_id(), Some(record[..82].to_vec()))),
        Err(BlockbusterError::IOError(_))
    ));
    let st = p.handle_account(&account(token_metadata_id(), Some(vec![6; 10]))).unwrap();
    assert_eq!(st.key, Key::MasterEditionV2);
    assert!(matches!(
        p.handle_account(&account(token_metadata_id(), Some(vec![2; 10]))),
        Err(BlockbusterError::IOError(_))
    ));
    assert!(matches!(
        p.handle_account(&account(token_metadata_id(), Some(vec![0, 1]))),
        Err(BlockbusterError::UninitializedAccount)
    ));
    assert!(matches!(
        p.handle_account(&account(token_metadata_id(), Some(vec![11]))),
        Err(BlockbusterError::AccountTypeNotImplemented)
    ));
    assert!(matches!(
        p.handle_account(&account(token_metadata_id(), Some(vec![13]))),
        Err(BlockbusterError::IOError(_))
    ));
}

#[test]
fn candy_guard_classification() {
    let p = CandyGuardParser;
    let expected =
        SolanaPubkey::from_str("Guard1JwRhJkVH6XZhzoYxeBVQe872VH6QggF4BWmS9g").unwrap();
    assert_eq!(p.key().to_bytes(), expected.to_bytes());
    let mut d = CANDY_GUARD_DISCRIMINATOR.to_le_bytes().to_vec();
    d.extend_from_slice(&[7; 70]);
    match p.handle_account(&account(candy_guard_id(), Some(d.clone()))).unwrap() {
        CandyGuardAccountData::CandyGuard(b) => assert_eq!(b, vec![7; 70]),
        _ => panic!("expected a candy guard"),
    }
    assert!(matches!(
        p.handle_account(&account(candy_guard_id(), Some(d[..72].to_vec()))),
        Err(BlockbusterError::IOError(_))
    ));
    let mut d = MINT_COUNTER_DISCRIMINATOR.to_le_bytes().to_vec();
    assert!(matches!(
        p.handle_account(&account(candy_guard_id(), Some(d.clone()))),
        Err(BlockbusterError::IOError(_))
    ));
    d.extend_from_slice(&[3, 0]);
    assert!(matches!(
        p.handle_account(&account(candy_guard_id(), Some(d))),
        Ok(CandyGuardAccountData::MintCounter(_))
    ));
    assert!(matches!(
        p.handle_account(&account(candy_guard_id(), Some(vec![0; 8]))),
        Err(BlockbusterError::UnknownAccountDiscriminator)
    ));
}

#[test]
fn dispatch_by_program_id() {
    let expected =
        SolanaPubkey::from_str("GRoLLzvxpxxu2PGNJMMeZPyMxjAUH9pKqxGXV9DGiceU").unwrap();
    assert_eq!(GummyrollParser.key().to_bytes(), expected.to_bytes());
    assert_eq!(program_for(&program_id()), Some(ParsedProgram::Bubblegum));
    assert_eq!(program_for(&gummy_roll_program_id()), Some(ParsedProgram::Gummyroll));
    assert_eq!(program_for(&token_program_id()), Some(ParsedProgram::TokenAccount));
    assert_eq!(program_for(&token_metadata_id()), Some(ParsedProgram::TokenMetadata));
    assert_eq!(program_for(&candy_machine_id()), Some(ParsedProgram::CandyMachine));
    assert_eq!(program_for(&candy_guard_id()), Some(ParsedProgram::CandyGuard));
    assert_eq!(program_for(&Pubkey([0; 32])), None);
    assert!(ParsedProgram::Bubblegum.handles_instructions());
    assert!(!ParsedProgram::Bubblegum.handles_account_updates());
    assert!(ParsedProgram::TokenAccount.handles_account_updates());
}

#[test]
fn unsupported_capability_is_not_applicable() {
    let bundle = InstructionBundle::default();
    assert!(matches!(
        handle_instruction(ParsedProgram::TokenAccount, &bundle),
        Ok(ProgramParseResult::NotApplicable)
    ));
    let info = account(program_id(), Some(vec![1, 2, 3]));
    assert!(matches!(
        handle_account(ParsedProgram::Bubblegum, &info),
        Ok(ProgramParseResult::NotApplicable)
    ));
    assert!(matches!(
        handle_account(ParsedProgram::TokenAccount, &info),
        Err(BlockbusterError::InvalidDataLength)
    ));
    assert!(matches!(
        handle_instruction(ParsedProgram::Bubblegum, &bundle),
        Err(BlockbusterError::DeserializationError)
    ));
}

#[test]
fn tree_program_finds_first_change_log() {
    let ev = AccountCompressionEvent::ChangeLog(ChangeLogEvent::new(
        anchor_lang::prelude::Pubkey::new_from_array([8; 32]),
        vec![],
        9,
        2,
    ))
    .try_to_vec()
    .unwrap();
    let noop = Pubkey(spl_noop::id().to_bytes());
    let app = AccountCompressionEvent::ApplicationData(ApplicationDataEvent::V1(
        ApplicationDataEventV1 { application_data: vec![5] },
    ))
    .try_to_vec()
    .unwrap();
    let a = CompiledInstruction { program_id_index: 1, accounts: vec![], data: Some(app) };
    let b = CompiledInstruction { program_id_index: 1, accounts: vec![], data: Some(ev) };
    let mut bundle = InstructionBundle::default();
    bundle.inner_ix = Some(vec![(noop, &a), (noop, &b)]);
    let c = GummyrollParser.handle_instruction(&bundle).unwrap();
    let t = c.tree_update.unwrap();
    assert_eq!(t.seq, 9);
    assert_eq!(t.id.to_bytes(), [8; 32]);
    bundle.inner_ix = Some(vec![(noop, &a)]);
    assert!(matches!(
        GummyrollParser.handle_instruction(&bundle),
        Err(BlockbusterError::InstructionParsingError)
    ));
    let bad = CompiledInstruction { program_id_index: 1, accounts: vec![], data: Some(vec![1]) };
    bundle.inner_ix = Some(vec![(noop, &bad), (noop, &b)]);
    assert!(matches!(
        GummyrollParser.handle_instruction(&bundle),
        Err(BlockbusterError::IOError(_))
    ));
}
