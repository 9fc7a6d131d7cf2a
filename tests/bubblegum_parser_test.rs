use anchor_lang::{AnchorDeserialize, AnchorSerialize};
use blockbuster::error::BlockbusterError;
use blockbuster::instruction::{CompiledInstruction, InstructionBundle, IxPair};
use blockbuster::programs::bubblegum::{
    apply_logged_event, get_instruction_type, program_id, BubblegumEventType, BubblegumParser, InstructionName,
    LeafSchema, Payload, TokenProgramVersion, CANCEL_REDEEM_DISCRIMINATOR,
    DECOMPRESS_V1_DISCRIMINATOR, MINT_TO_COLLECTION_V1_DISCRIMINATOR, MINT_V1_DISCRIMINATOR,
    TRANSFER_DISCRIMINATOR, UNVERIFY_COLLECTION_DISCRIMINATOR, VERIFY_COLLECTION_DISCRIMINATOR,
    VERIFY_CREATOR_DISCRIMINATOR,
};
use blockbuster::pubkey::Pubkey;
use spl_account_compression::events::{
    AccountCompressionEvent, ApplicationDataEvent, ApplicationDataEventV1, ChangeLogEvent,
};
use spl_account_compression::state::PathNode;
use std::str::FromStr;

fn key(seed: u8) -> [u8; 32] {
    let mut k = [0u8; 32];
    for (i, b) in k.iter_mut().enumerate() {
        *b = seed.wrapping_mul(17).wrapping_add(i as u8);
    }
    k
}

fn noop_key() -> Pubkey {
    Pubkey(spl_noop::id().to_bytes())
}

fn put_string(out: &mut Vec<u8>, s: &str) {
    out.extend_from_slice(&(s.len() as u32).to_le_bytes());
    out.extend_from_slice(s.as_bytes());
}

/// Metadata arguments named "test", with one unverified creator and,
/// optionally, a collection with the given verified flag.
fn metadata_args_bytes(collection: Option<bool>) -> Vec<u8> {
    let mut d = Vec::new();
    put_string(&mut d, "test");
    put_string(&mut d, "test");
    put_string(&mut d, "www.solana.pos");
    d.extend_from_slice(&0u16.to_le_bytes());
    d.push(0); // primary sale happened
    d.push(0); // is mutable
    d.push(0); // edition nonce
    d.push(0); // token standard
    match collection {
        Some(verified) => {
            d.push(1);
            d.push(verified as u8);
            d.extend_from_slice(&key(40));
        }
        None => d.push(0),
    }
    d.push(0); // uses
    d.push(0); // token program version
    d.extend_from_slice(&1u32.to_le_bytes());
    d.extend_from_slice(&key(41));
    d.push(0);
    d.push(20);
    d
}

fn leaf_schema_event_bytes(nonce: u64) -> Vec<u8> {
    let mut d = vec![1u8, 0, 0];
    d.extend_from_slice(&key(50));
    d.extend_from_slice(&key(51));
    d.extend_from_slice(&key(52));
    d.extend_from_slice(&nonce.to_le_bytes());
    d.extend_from_slice(&[0; 32]);
    d.extend_from_slice(&[0; 32]);
    d.extend_from_slice(&[0; 32]);
    d
}

fn change_log_bytes(seq: u64) -> Vec<u8> {
    let cs = ChangeLogEvent::new(
        anchor_lang::prelude::Pubkey::new_from_array(key(60)),
        vec![PathNode::new([7; 32], 1)],
        seq,
        5,
    );
    AccountCompressionEvent::ChangeLog(cs).try_to_vec().unwrap()
}

fn application_data_bytes(app: Vec<u8>) -> Vec<u8> {
    let ev = AccountCompressionEvent::ApplicationData(ApplicationDataEvent::V1(
        ApplicationDataEventV1 { application_data: app },
    ));
    ev.try_to_vec().unwrap()
}

fn ix(program_id_index: u8, data: Option<Vec<u8>>) -> CompiledInstruction {
    CompiledInstruction { program_id_index, accounts: vec![0, 1, 2], data }
}

fn with_disc(disc: u64, rest: &[u8]) -> Vec<u8> {
    let mut d = disc.to_le_bytes().to_vec();
    d.extend_from_slice(rest);
    d
}

fn parse(
    data: Option<Vec<u8>>,
    inner: &[(Pubkey, Option<Vec<u8>>)],
    keys: &[Pubkey],
) -> Result<blockbuster::programs::bubblegum::BubblegumInstruction, BlockbusterError> {
    let outer = ix(0, data);
    let inner_ixs: Vec<CompiledInstruction> =
        inner.iter().map(|(_, d)| ix(1, d.clone())).collect();
    let pairs: Vec<IxPair> = inner
        .iter()
        .zip(inner_ixs.iter())
        .map(|((k, _), i)| (*k, i))
        .collect();
    let mut bundle = InstructionBundle::default();
    bundle.program = program_id();
    bundle.instruction = Some(&outer);
    bundle.inner_ix = Some(pairs);
    bundle.keys = keys;
    BubblegumParser.handle_instruction(&bundle)
}

fn standard_events() -> Vec<(Pubkey, Option<Vec<u8>>)> {
    vec![
        (Pubkey(key(70)), Some(vec![1, 2, 3])),
        (noop_key(), Some(application_data_bytes(leaf_schema_event_bytes(0)))),
        (Pubkey(key(71)), None),
        (noop_key(), Some(change_log_bytes(0))),
    ]
}

fn keys(n: u8) -> Vec<Pubkey> {
    (0..n).map(|i| Pubkey(key(100 + i))).collect()
}

#[test]
fn bubblegum_parser_test_test_setup() {
    let subject = BubblegumParser {};
    let expected =
        anchor_lang::prelude::Pubkey::from_str("BGUMAp9Gq7iTEuizy4pqaxsTyUCBK68MDfK752saRPUY")
            .unwrap();
    assert_eq!(subject.key().to_bytes(), program_id().to_bytes());
    assert_eq!(subject.key().to_bytes(), expected.to_bytes());
    assert!(subject.key_match(&program_id()));
}

#[test]
fn test_mint() {
    let data = with_disc(MINT_V1_DISCRIMINATOR, &metadata_args_bytes(None));
    let b = parse(Some(data), &standard_events(), &keys(8)).unwrap();
    assert_eq!(b.instruction, InstructionName::MintV1);
    assert!(b.payload.is_some());
    assert!(b.leaf_update.is_some());
    assert!(b.tree_update.is_some());
    match b.payload.unwrap() {
        Payload::MintV1 { args } => {
            assert_eq!(args.name, "test");
            assert_eq!(args.symbol, "test");
            assert_eq!(args.uri, "www.solana.pos");
            assert_eq!(args.seller_fee_basis_points, 0);
            assert!(args.collection.is_none());
            assert_eq!(args.token_program_version, TokenProgramVersion::Original);
            assert_eq!(args.creators.len(), 1);
            assert_eq!(args.creators[0].address.to_bytes(), key(41));
            assert!(!args.creators[0].verified);
            assert_eq!(args.creators[0].share, 20);
        }
        _ => panic!("Unexpected payload variant"),
    }
    let leaf = b.leaf_update.unwrap();
    assert_eq!(leaf.event_type, BubblegumEventType::LeafSchemaEvent);
    let LeafSchema::V1 { id, owner, delegate, nonce, .. } = leaf.schema;
    assert_eq!(id.to_bytes(), key(50));
    assert_eq!(owner.to_bytes(), key(51));
    assert_eq!(delegate.to_bytes(), key(52));
    assert_eq!(nonce, 0);
    let tree = b.tree_update.unwrap();
    assert_eq!(tree.id.to_bytes(), key(60));
    assert_eq!(tree.path.len(), 1);
    assert_eq!(tree.path[0].node, [7; 32]);
    assert_eq!(tree.path[0].index, 1);
    assert_eq!(tree.index, 5);
}

#[test]
fn test_basic_success_parsing() {
    let mut rest = vec![0u8; 32 * 3];
    rest.extend_from_slice(&0u64.to_le_bytes());
    rest.extend_from_slice(&0u32.to_le_bytes());
    let data = with_disc(TRANSFER_DISCRIMINATOR, &rest);
    let b = parse(Some(data), &standard_events(), &keys(8)).unwrap();
    assert!(b.payload.is_none());
    assert_eq!(b.instruction, InstructionName::Transfer);
    assert!(b.leaf_update.is_some());
    assert!(b.tree_update.is_some());
}

#[test]
fn mint_to_collection_forces_verified() {
    let data = with_disc(MINT_TO_COLLECTION_V1_DISCRIMINATOR, &metadata_args_bytes(Some(false)));
    let b = parse(Some(data), &standard_events(), &keys(8)).unwrap();
    assert_eq!(b.instruction, InstructionName::MintToCollectionV1);
    match b.payload.unwrap() {
        Payload::MintV1 { args } => {
            let c = args.collection.unwrap();
            assert!(c.verified);
            assert_eq!(c.key.to_bytes(), key(40));
        }
        _ => panic!("Unexpected payload variant"),
    }
    let data = with_disc(MINT_V1_DISCRIMINATOR, &metadata_args_bytes(Some(false)));
    match parse(Some(data), &[], &keys(8)).unwrap().payload.unwrap() {
        Payload::MintV1 { args } => assert!(!args.collection.unwrap().verified),
        _ => panic!("Unexpected payload variant"),
    }
}

#[test]
fn decompress_carries_metadata() {
    let data = with_disc(DECOMPRESS_V1_DISCRIMINATOR, &metadata_args_bytes(None));
    match parse(Some(data), &[], &keys(8)).unwrap().payload.unwrap() {
        Payload::Decompress { args } => assert_eq!(args.uri, "www.solana.pos"),
        _ => panic!("Unexpected payload variant"),
    }
}

#[test]
fn cancel_redeem_root_lengths() {
    for len in [31usize, 33] {
        let data = with_disc(CANCEL_REDEEM_DISCRIMINATOR, &vec![9u8; len]);
        assert!(matches!(
            parse(Some(data), &[], &keys(8)),
            Err(BlockbusterError::InstructionParsingError)
        ));
    }
    let root: Vec<u8> = (0..32u8).collect();
    let data = with_disc(CANCEL_REDEEM_DISCRIMINATOR, &root);
    match parse(Some(data), &[], &keys(8)).unwrap().payload.unwrap() {
        Payload::CancelRedeem { root: r } => assert_eq!(r.to_vec(), root),
        _ => panic!("Unexpected payload variant"),
    }
}

#[test]
fn malformed_metadata_fails() {
    let mut args = metadata_args_bytes(None);
    args.push(0);
    let data = with_disc(MINT_V1_DISCRIMINATOR, &args);
    assert!(matches!(parse(Some(data), &[], &keys(8)), Err(BlockbusterError::IOError(_))));
    let args = metadata_args_bytes(None);
    let data = with_disc(MINT_V1_DISCRIMINATOR, &args[..args.len() - 1]);
    assert!(matches!(parse(Some(data), &[], &keys(8)), Err(BlockbusterError::IOError(_))));
}

#[test]
fn creator_verification_payload() {
    let mut rest = vec![1u8; 32];
    rest.extend_from_slice(&[2u8; 32]);
    rest.extend_from_slice(&[3u8; 32]);
    rest.extend_from_slice(&[0u8; 12]);
    rest.extend_from_slice(&metadata_args_bytes(None));
    let data = with_disc(VERIFY_CREATOR_DISCRIMINATOR, &rest);
    let ks = keys(8);
    match parse(Some(data.clone()), &[], &ks).unwrap().payload.unwrap() {
        Payload::CreatorVerification { creator, data_hash, creator_hash, args, verify } => {
            assert_eq!(creator.to_bytes(), ks[5].to_bytes());
            assert_eq!(data_hash, [2u8; 32]);
            assert_eq!(creator_hash, [3u8; 32]);
            assert_eq!(args.name, "test");
            assert!(verify);
        }
        _ => panic!("Unexpected payload variant"),
    }
    assert!(matches!(
        parse(Some(data), &[], &keys(5)),
        Err(BlockbusterError::InstructionParsingError)
    ));
}

#[test]
fn collection_verification_payload() {
    let ks = keys(9);
    let data = with_disc(VERIFY_COLLECTION_DISCRIMINATOR, &[0u8; 4]);
    match parse(Some(data), &[], &ks).unwrap().payload.unwrap() {
        Payload::CollectionVerification { collection, verify } => {
            assert_eq!(collection.to_bytes(), ks[8].to_bytes());
            assert!(verify);
        }
        _ => panic!("Unexpected payload variant"),
    }
    let data = with_disc(UNVERIFY_COLLECTION_DISCRIMINATOR, &[0u8; 4]);
    match parse(Some(data.clone()), &[], &ks).unwrap().payload.unwrap() {
        Payload::CollectionVerification { verify, .. } => assert!(!verify),
        _ => panic!("Unexpected payload variant"),
    }
    assert!(matches!(
        parse(Some(data), &[], &keys(8)),
        Err(BlockbusterError::InstructionParsingError)
    ));
}

#[test]
fn missing_or_empty_data_fails() {
    assert!(matches!(parse(None, &[], &keys(8)), Err(BlockbusterError::DeserializationError)));
    assert!(matches!(
        parse(Some(vec![]), &[], &keys(8)),
        Err(BlockbusterError::DeserializationError)
    ));
    let bundle = InstructionBundle::default();
    assert!(matches!(
        BubblegumParser.handle_instruction(&bundle),
        Err(BlockbusterError::DeserializationError)
    ));
}

#[test]
fn unrecognized_discriminator_is_unknown() {
    let b = parse(Some(vec![1, 2, 3, 4, 5, 6, 7, 8, 9]), &[], &keys(8)).unwrap();
    assert_eq!(b.instruction, InstructionName::Unknown);
    assert!(b.payload.is_none());
    assert_eq!(get_instruction_type(&[1, 2, 3]), InstructionName::Unknown);
    assert_eq!(
        get_instruction_type(&MINT_V1_DISCRIMINATOR.to_le_bytes()),
        InstructionName::MintV1
    );
}

#[test]
fn uninitialized_event_fails() {
    let mut leaf = leaf_schema_event_bytes(0);
    leaf[0] = 0;
    let events = vec![(noop_key(), Some(application_data_bytes(leaf)))];
    let data = with_disc(TRANSFER_DISCRIMINATOR, &[]);
    assert!(matches!(
        parse(Some(data), &events, &keys(8)),
        Err(BlockbusterError::MissingBubblegumEventData)
    ));
}

#[test]
fn undecodable_logged_event_fails() {
    let data = with_disc(TRANSFER_DISCRIMINATOR, &[]);
    let events = vec![(noop_key(), Some(vec![7, 7, 7]))];
    assert!(matches!(parse(Some(data.clone()), &events, &keys(8)), Err(BlockbusterError::IOError(_))));
    let events = vec![(noop_key(), None)];
    assert!(matches!(
        parse(Some(data.clone()), &events, &keys(8)),
        Err(BlockbusterError::InstructionParsingError)
    ));
    let events = vec![(noop_key(), Some(application_data_bytes(vec![])))];
    assert!(matches!(
        parse(Some(data), &events, &keys(8)),
        Err(BlockbusterError::DeserializationError)
    ));
}

#[test]
fn unknown_event_tag_and_short_leaf_fail() {
    let data = with_disc(TRANSFER_DISCRIMINATOR, &[]);
    let mut leaf = leaf_schema_event_bytes(0);
    leaf[0] = 2;
    let events = vec![(noop_key(), Some(application_data_bytes(leaf)))];
    assert!(matches!(parse(Some(data.clone()), &events, &keys(8)), Err(BlockbusterError::IOError(_))));
    let leaf = leaf_schema_event_bytes(0);
    let events = vec![(noop_key(), Some(application_data_bytes(leaf[..100].to_vec())))];
    assert!(matches!(parse(Some(data.clone()), &events, &keys(8)), Err(BlockbusterError::IOError(_))));
    let mut cl = change_log_bytes(3);
    cl.push(0);
    let events = vec![(noop_key(), Some(cl))];
    assert!(matches!(parse(Some(data), &events, &keys(8)), Err(BlockbusterError::IOError(_))));
}

#[test]
fn apply_logged_event_replaces_updates() {
    let cl = AccountCompressionEvent::try_from_slice(&change_log_bytes(4)).unwrap();
    let cl = match cl {
        AccountCompressionEvent::ChangeLog(ChangeLogEvent::V1(e)) => e,
        _ => panic!("expected a change log"),
    };
    let ev = blockbuster::programs::bubblegum::CompressionEvent::ChangeLog(
        blockbuster::programs::bubblegum::ChangeLogEventV1 {
            id: Pubkey(cl.id.to_bytes()),
            path: vec![],
            seq: cl.seq,
            index: cl.index,
        },
    );
    let (t, l) = apply_logged_event(None, None, ev).unwrap();
    assert_eq!(t.unwrap().seq, 4);
    assert!(l.is_none());
    let ev = blockbuster::programs::bubblegum::CompressionEvent::ApplicationData(
        leaf_schema_event_bytes(9),
    );
    let (t, l) = apply_logged_event(None, None, ev).unwrap();
    assert!(t.is_none());
    let LeafSchema::V1 { nonce, .. } = l.unwrap().schema;
    assert_eq!(nonce, 9);
    let ev = blockbuster::programs::bubblegum::CompressionEvent::ApplicationData(vec![0; 203]);
    assert!(matches!(
        apply_logged_event(None, None, ev),
        Err(BlockbusterError::MissingBubblegumEventData)
    ));
}

#[test]
fn last_change_log_wins() {
    let data = with_disc(TRANSFER_DISCRIMINATOR, &[]);
    let events = vec![
        (noop_key(), Some(change_log_bytes(1))),
        (noop_key(), Some(vec![])),
        (noop_key(), Some(change_log_bytes(2))),
    ];
    let b = parse(Some(data), &events, &keys(8)).unwrap();
    assert_eq!(b.tree_update.unwrap().seq, 2);
    assert!(b.leaf_update.is_none());
}

#[test]
fn decoding_is_deterministic() {
    let data = with_disc(MINT_V1_DISCRIMINATOR, &metadata_args_bytes(Some(true)));
    let a = parse(Some(data.clone()), &standard_events(), &keys(8)).unwrap();
    let b = parse(Some(data.clone()), &standard_events(), &keys(8)).unwrap();
    assert_eq!(format!("{:?}", a), format!("{:?}", b));
    // The same bytes in instructions with other account lists.
    let outer = CompiledInstruction { program_id_index: 3, accounts: vec![9], data: Some(data) };
    let inner_ixs: Vec<CompiledInstruction> = standard_events()
        .into_iter()
        .map(|(_, d)| CompiledInstruction { program_id_index: 2, accounts: vec![], data: d })
        .collect();
    let pairs: Vec<IxPair> =
        standard_events().iter().zip(inner_ixs.iter()).map(|((k, _), i)| (*k, i)).collect();
    let ks = keys(8);
    let mut bundle = InstructionBundle::default();
    bundle.instruction = Some(&outer);
    bundle.inner_ix = Some(pairs);
    bundle.keys = &ks;
    let c = BubblegumParser.handle_instruction(&bundle).unwrap();
    assert_eq!(format!("{:?}", a), format!("{:?}", c));
}
