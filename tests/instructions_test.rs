use anchor_lang::{AnchorDeserialize, AnchorSerialize};
use blockbuster::instruction::{
    order_instructions, well_formed, CompiledInstruction, InnerInstructions, InstructionBundle,
    TransactionInfo,
};
use blockbuster::programs::bubblegum::{
    program_id, BubblegumParser, InstructionName, LeafSchema, Payload, MINT_V1_DISCRIMINATOR,
};
use blockbuster::pubkey::Pubkey;
use spl_account_compression::events::{
    AccountCompressionEvent, ApplicationDataEvent, ApplicationDataEventV1, ChangeLogEvent,
    ChangeLogEventV1,
};
use spl_account_compression::state::PathNode;

fn key(seed: u8) -> Pubkey {
    Pubkey([seed; 32])
}

fn ix(program_id_index: u8, tag: u8) -> CompiledInstruction {
    CompiledInstruction { program_id_index, accounts: vec![0, 1], data: Some(vec![tag]) }
}

fn tag_of(i: &CompiledInstruction) -> u8 {
    i.data.as_ref().unwrap()[0]
}

/// Keys 0..6 are programs 10..16. Outer instructions: tag 1 (program 10),
/// tag 2 (program 11), tag 3 (program 12). Outer 0 has inner tags 11 (program
/// 11) and 12 (program 13); outer 2 has inner tags 31 (program 11), 32
/// (program 14) and 33 (program 11).
fn transaction() -> TransactionInfo {
    TransactionInfo {
        outer_instructions: Some(vec![ix(0, 1), ix(1, 2), ix(2, 3)]),
        inner_instructions: Some(vec![
            InnerInstructions { index: 2, instructions: vec![ix(1, 31), ix(4, 32), ix(1, 33)] },
            InnerInstructions { index: 0, instructions: vec![ix(1, 11), ix(3, 12)] },
            InnerInstructions { index: 2, instructions: vec![ix(5, 99)] },
        ]),
        account_keys: Some((10..17).map(key).collect()),
        slot: 42,
    }
}

#[test]
fn test_filter() {
    let txn = transaction();
    let programs = vec![key(11), key(14), key(12)];
    let res = order_instructions(&programs, &txn);
    assert!(!res.is_empty());
    for ((program, _), _inner) in res.iter() {
        assert!(programs.iter().any(|p| p.to_bytes() == program.to_bytes()));
    }
    let res = order_instructions(&Vec::new(), &txn);
    assert_eq!(res.len(), 0);
}

#[test]
fn ordering_hoists_inner_before_outer() {
    let txn = transaction();
    let programs = vec![key(11), key(14)];
    let res = order_instructions(&programs, &txn);
    let tags: Vec<u8> = res.iter().map(|((_, i), _)| tag_of(i)).collect();
    // Outer 0 (program 10) does not match, but its inner tag 11 does; outer
    // 1 matches and has no group; outer 2 does not match, its first group
    // gives 31, 32 and 33.
    assert_eq!(tags, vec![11, 2, 31, 32, 33]);
    let ((p, _), inner) = &res[0];
    assert_eq!(p.to_bytes(), key(11).to_bytes());
    let inner = inner.as_ref().unwrap();
    assert_eq!(inner.len(), 2);
    assert_eq!(tag_of(inner[1].1), 12);
    assert_eq!(inner[1].0.to_bytes(), key(13).to_bytes());
    assert!(res[1].1.is_none());
    assert_eq!(res[3].1.as_ref().unwrap().len(), 3);
}

#[test]
fn outer_match_follows_its_hoisted_inner() {
    let txn = transaction();
    let programs = vec![key(10), key(11)];
    let res = order_instructions(&programs, &txn);
    let tags: Vec<u8> = res.iter().map(|((_, i), _)| tag_of(i)).collect();
    assert_eq!(tags, vec![11, 1, 2, 31, 33]);
    let (_, inner) = &res[1];
    assert_eq!(inner.as_ref().unwrap().len(), 2);
}

#[test]
fn missing_fields_give_empty_order() {
    let programs = vec![key(11)];
    let mut txn = transaction();
    txn.account_keys = None;
    assert!(!well_formed(&txn));
    assert_eq!(order_instructions(&programs, &txn).len(), 0);
    let mut txn = transaction();
    txn.outer_instructions = None;
    assert_eq!(order_instructions(&programs, &txn).len(), 0);
    let mut txn = transaction();
    txn.inner_instructions = None;
    let res = order_instructions(&programs, &txn);
    assert_eq!(res.len(), 1);
    assert!(res[0].1.is_none());
}

#[test]
fn unresolvable_index_gives_empty_order() {
    let programs = vec![key(11)];
    let mut txn = transaction();
    txn.outer_instructions.as_mut().unwrap().push(ix(40, 4));
    assert!(!well_formed(&txn));
    assert_eq!(order_instructions(&programs, &txn).len(), 0);
    let mut txn = transaction();
    txn.inner_instructions.as_mut().unwrap()[1].instructions.push(ix(7, 13));
    assert_eq!(order_instructions(&programs, &txn).len(), 0);
    assert!(well_formed(&transaction()));
}

fn put_string(out: &mut Vec<u8>, v: &str) {
    out.extend_from_slice(&(v.len() as u32).to_le_bytes());
    out.extend_from_slice(v.as_bytes());
}

fn mint_data() -> Vec<u8> {
    let mut d = MINT_V1_DISCRIMINATOR.to_le_bytes().to_vec();
    put_string(&mut d, "Hotspot");
    put_string(&mut d, "HOT");
    put_string(&mut d, "https://example.com/hotspot.json");
    d.extend_from_slice(&500u16.to_le_bytes());
    d.extend_from_slice(&[0, 1, 0, 0, 0, 0, 0]);
    d.extend_from_slice(&0u32.to_le_bytes());
    d
}

fn leaf_event(nonce: u64) -> Vec<u8> {
    let mut leaf = vec![1u8, 0, 0];
    leaf.extend_from_slice(&[21; 32]);
    leaf.extend_from_slice(&[22; 32]);
    leaf.extend_from_slice(&[23; 32]);
    leaf.extend_from_slice(&nonce.to_le_bytes());
    leaf.extend_from_slice(&[0; 96]);
    AccountCompressionEvent::ApplicationData(ApplicationDataEvent::V1(ApplicationDataEventV1 {
        application_data: leaf,
    }))
    .try_to_vec()
    .unwrap()
}

fn change_log(tree: u8, seq: u64) -> Vec<u8> {
    AccountCompressionEvent::ChangeLog(ChangeLogEvent::new(
        anchor_lang::prelude::Pubkey::new_from_array([tree; 32]),
        vec![PathNode::new([1; 32], 2)],
        seq,
        0,
    ))
    .try_to_vec()
    .unwrap()
}

fn with_data(program_id_index: u8, data: Vec<u8>) -> CompiledInstruction {
    CompiledInstruction { program_id_index, accounts: vec![0, 1, 2, 3], data: Some(data) }
}

/// Keys: 0 fee payer, 1 an outside program, 2 the compressed-state program,
/// 3 the logging program, 4 and 5 other programs.
fn nested_keys() -> Vec<Pubkey> {
    vec![key(90), key(91), program_id(), Pubkey(spl_noop::id().to_bytes()), key(94), key(95)]
}

fn decode_logged(i: &CompiledInstruction) -> AccountCompressionEvent {
    AccountCompressionEvent::try_from_slice(i.data.as_ref().unwrap()).unwrap()
}

#[test]
fn helium_nested() {
    // An outside program's instruction calls the compressed-state program,
    // which logs its leaf and its tree change.
    let txn = TransactionInfo {
        outer_instructions: Some(vec![with_data(1, vec![7, 7])]),
        inner_instructions: Some(vec![InnerInstructions {
            index: 0,
            instructions: vec![
                with_data(4, vec![1]),
                with_data(2, mint_data()),
                with_data(3, leaf_event(0)),
                with_data(3, change_log(30, 1)),
            ],
        }]),
        account_keys: Some(nested_keys()),
        slot: 5,
    };
    let keys = txn.account_keys.clone().unwrap();
    let res = order_instructions(&vec![program_id()], &txn);
    let contains = res.iter().any(|((p, _), _)| p.to_bytes() == program_id().to_bytes());
    assert!(contains, "Must containe bgum at hoisted root");
    for ((program, instruction), inner_ix) in res.into_iter() {
        let ix_keys: Vec<Pubkey> =
            instruction.accounts.iter().filter_map(|a| keys.get(*a as usize).copied()).collect();
        let mut bundle = InstructionBundle::default();
        bundle.program = program;
        bundle.instruction = Some(instruction);
        bundle.inner_ix = inner_ix;
        bundle.keys = &ix_keys;
        bundle.slot = txn.slot;
        let parsed = BubblegumParser.handle_instruction(&bundle).unwrap();
        assert_eq!(parsed.instruction, InstructionName::MintV1);
        match (&parsed.leaf_update, &parsed.tree_update, &parsed.payload) {
            (Some(_), Some(_), Some(Payload::MintV1 { .. })) => {}
            _ => panic!("Failed to parse instruction"),
        }
    }
}

#[test]
fn test_double_mint() {
    // Two minting instructions, each with four inner instructions: the leaf
    // event second and the tree change fourth.
    let group = |index: u8, nonce: u64| InnerInstructions {
        index,
        instructions: vec![
            with_data(4, vec![1]),
            with_data(3, leaf_event(nonce)),
            with_data(5, vec![2]),
            with_data(3, change_log(40, nonce + 1)),
        ],
    };
    let txn = TransactionInfo {
        outer_instructions: Some(vec![with_data(2, mint_data()), with_data(2, mint_data())]),
        inner_instructions: Some(vec![group(0, 0), group(1, 1)]),
        account_keys: Some(nested_keys()),
        slot: 6,
    };
    let ix = order_instructions(&vec![BubblegumParser.key()], &txn);
    let count = ix.iter().filter(|((p, _), _)| p.to_bytes() == program_id().to_bytes()).count();
    assert_eq!(count, 2);
    assert_eq!(ix.len(), 2);
    for (expected_nonce, (_, inner)) in ix.iter().enumerate() {
        let inner = inner.as_ref().unwrap();
        match decode_logged(inner[1].1) {
            AccountCompressionEvent::ApplicationData(ApplicationDataEvent::V1(
                ApplicationDataEventV1 { application_data },
            )) => {
                let mut id = [0u8; 32];
                id.copy_from_slice(&application_data[3..35]);
                assert_eq!(id, [21; 32]);
                let nonce = u64::from_le_bytes(application_data[99..107].try_into().unwrap());
                assert_eq!(nonce, expected_nonce as u64);
            }
            _ => panic!("Failed to parse instruction"),
        }
        match decode_logged(inner[3].1) {
            AccountCompressionEvent::ChangeLog(ChangeLogEvent::V1(ChangeLogEventV1 {
                id, ..
            })) => assert_eq!(id.to_bytes(), [40; 32]),
            _ => panic!("Failed to parse instruction"),
        }
        assert_eq!(inner.len(), 4);
    }
    for ((program, instruction), inner_ix) in ix.into_iter() {
        let mut bundle = InstructionBundle::default();
        bundle.program = program;
        bundle.instruction = Some(instruction);
        bundle.inner_ix = inner_ix;
        let parsed = BubblegumParser.handle_instruction(&bundle).unwrap();
        assert!(parsed.leaf_update.is_some());
        assert!(parsed.tree_update.is_some());
    }
}

#[test]
fn test_double_tree() {
    // One instruction whose inner instructions log changes to two trees, at
    // positions 8 and 16.
    let mut instructions: Vec<CompiledInstruction> = (0..17).map(|_| with_data(4, vec![0])).collect();
    instructions[8] = with_data(3, change_log(50, 1));
    instructions[16] = with_data(3, change_log(51, 1));
    let txn = TransactionInfo {
        outer_instructions: Some(vec![with_data(1, vec![3])]),
        inner_instructions: Some(vec![InnerInstructions { index: 0, instructions }]),
        account_keys: Some(nested_keys()),
        slot: 7,
    };
    let ix = order_instructions(&vec![BubblegumParser.key(), key(95)], &txn);
    assert!(ix.is_empty());
    let ix = order_instructions(&vec![key(94)], &txn);
    assert_eq!(ix.len(), 15);
    let inner = ix[0].1.as_ref().unwrap();
    assert_eq!(inner.len(), 17);
    let mut trees = vec![];
    for at in [8usize, 16] {
        match decode_logged(inner[at].1) {
            AccountCompressionEvent::ChangeLog(ChangeLogEvent::V1(ChangeLogEventV1 {
                id, ..
            })) => trees.push(id.to_bytes()),
            _ => panic!("Failed to parse instruction"),
        }
    }
    assert_eq!(trees, vec![[50; 32], [51; 32]]);
}
