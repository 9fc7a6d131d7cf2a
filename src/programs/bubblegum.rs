//! The compressed-state program: classifying its instructions, collecting the
//! events its logging calls carry, and decoding each instruction's arguments.

use crate::error::{layout_error, layout_failure, result_view, BlockbusterError, BlockbusterErrorView};
use crate::instruction::{opt_view, CompiledInstruction, InstructionBundle, IxPair};
use crate::pubkey::Pubkey;
use crate::wire::{has, opt_v, read_bytes32, read_u64, spec_u32, spec_u64};
use spl_account_compression::events::{
    AccountCompressionEvent as LoggedEvent, ApplicationDataEvent, ChangeLogEvent,
};
use anchor_lang::AnchorDeserialize;
use vstd::prelude::*;

pub use crate::programs::bubblegum_state::{
    BubblegumEventType, Collection, CollectionView, Creator, CreatorView, LeafSchema,
    LeafSchemaEvent, LeafSchemaEventView, LeafSchemaView, MetadataArgs, MetadataArgsView,
    TokenProgramVersion, TokenStandard, UseMethod, Uses, Version,
};
use crate::programs::bubblegum_state::{
    decode_leaf_schema_event, decode_metadata_args, spec_leaf_schema_event,
    spec_metadata_args_exact,
};

verus! {

/// The compressed-state program's instructions.
#[derive(PartialEq, Eq, Structural, Clone, Copy, Debug)]
pub enum InstructionName {
    Unknown,
    MintV1,
    Redeem,
    CancelRedeem,
    Transfer,
    Delegate,
    DecompressV1,
    Compress,
    Burn,
    CreateTree,
    VerifyCreator,
    UnverifyCreator,
    VerifyCollection,
    UnverifyCollection,
    SetAndVerifyCollection,
    MintToCollectionV1,
}

// The first eight bytes of each instruction's data, read as a little-endian
// integer.
pub const MINT_V1_DISCRIMINATOR: u64 = 0x6876_93b8_76c0_6291;
pub const MINT_TO_COLLECTION_V1_DISCRIMINATOR: u64 = 0x0f56_9ec5_2fb2_1299;
pub const CANCEL_REDEEM_DISCRIMINATOR: u64 = 0xf230_af27_32e8_4c6f;
pub const REDEEM_DISCRIMINATOR: u64 = 0xe161_c446_9556_0cb8;
pub const TRANSFER_DISCRIMINATOR: u64 = 0xba45_038c_e7c8_34a3;
pub const DELEGATE_DISCRIMINATOR: u64 = 0x8904_5855_b24b_935a;
pub const DECOMPRESS_V1_DISCRIMINATOR: u64 = 0x51a4_fae4_464c_5536;
pub const BURN_DISCRIMINATOR: u64 = 0x5d2a_db6b_381d_6e74;
pub const COMPRESS_DISCRIMINATOR: u64 = 0xfd73_15b0_75b0_c152;
pub const CREATE_TREE_DISCRIMINATOR: u64 = 0xdc2f_ca59_8e88_53a5;
pub const VERIFY_CREATOR_DISCRIMINATOR: u64 = 0xc255_0447_8460_1134;
pub const UNVERIFY_CREATOR_DISCRIMINATOR: u64 = 0x9870_7369_2739_b26b;
pub const VERIFY_COLLECTION_DISCRIMINATOR: u64 = 0xa97a_374f_fd65_7138;
pub const UNVERIFY_COLLECTION_DISCRIMINATOR: u64 = 0xa8ba_8929_6a2a_fbfa;
pub const SET_AND_VERIFY_COLLECTION_DISCRIMINATOR: u64 = 0xeab4_ea9e_d879_f2eb;

/// The account position of the creator in a creator (un)verification.
pub const CREATOR_ACCOUNT_POSITION: usize = 5;

/// The account position of the collection in a collection (un)verification.
pub const COLLECTION_ACCOUNT_POSITION: usize = 8;

/// The arguments of a creator (un)verification that precede its metadata:
/// root, data hash and creator hash, nonce and leaf index.
pub const CREATOR_VERIFICATION_PREFIX_LEN: usize = 108;

/// The length of a merkle root.
pub const ROOT_LEN: usize = 32;

/// The instruction a discriminator names.
pub open spec fn kind_of_discriminator(v: u64) -> InstructionName {
    if v == MINT_V1_DISCRIMINATOR {
        InstructionName::MintV1
    } else if v == MINT_TO_COLLECTION_V1_DISCRIMINATOR {
        InstructionName::MintToCollectionV1
    } else if v == CANCEL_REDEEM_DISCRIMINATOR {
        InstructionName::CancelRedeem
    } else if v == REDEEM_DISCRIMINATOR {
        InstructionName::Redeem
    } else if v == TRANSFER_DISCRIMINATOR {
        InstructionName::Transfer
    } else if v == DELEGATE_DISCRIMINATOR {
        InstructionName::Delegate
    } else if v == DECOMPRESS_V1_DISCRIMINATOR {
        InstructionName::DecompressV1
    } else if v == BURN_DISCRIMINATOR {
        InstructionName::Burn
    } else if v == COMPRESS_DISCRIMINATOR {
        InstructionName::Compress
    } else if v == CREATE_TREE_DISCRIMINATOR {
        InstructionName::CreateTree
    } else if v == VERIFY_CREATOR_DISCRIMINATOR {
        InstructionName::VerifyCreator
    } else if v == UNVERIFY_CREATOR_DISCRIMINATOR {
        InstructionName::UnverifyCreator
    } else if v == VERIFY_COLLECTION_DISCRIMINATOR {
        InstructionName::VerifyCollection
    } else if v == UNVERIFY_COLLECTION_DISCRIMINATOR {
        InstructionName::UnverifyCollection
    } else if v == SET_AND_VERIFY_COLLECTION_DISCRIMINATOR {
        InstructionName::SetAndVerifyCollection
    } else {
        InstructionName::Unknown
    }
}

/// The instruction that data begins with; data shorter than a discriminator
/// names none.
pub open spec fn instruction_kind(data: Seq<u8>) -> InstructionName {
    match spec_u64(data, 0) {
        Some((v, _)) => kind_of_discriminator(v),
        None => InstructionName::Unknown,
    }
}

/// Classifies instruction data by its discriminator.
pub fn get_instruction_type(full_bytes: &[u8]) -> (r: InstructionName)
    ensures
        r == instruction_kind(full_bytes@),
{
    let v = match read_u64(full_bytes, 0) {
        Some((v, _)) => v,
        None => {
            return InstructionName::Unknown;
        },
    };
    if v == MINT_V1_DISCRIMINATOR {
        InstructionName::MintV1
    } else if v == MINT_TO_COLLECTION_V1_DISCRIMINATOR {
        InstructionName::MintToCollectionV1
    } else if v == CANCEL_REDEEM_DISCRIMINATOR {
        InstructionName::CancelRedeem
    } else if v == REDEEM_DISCRIMINATOR {
        InstructionName::Redeem
    } else if v == TRANSFER_DISCRIMINATOR {
        InstructionName::Transfer
    } else if v == DELEGATE_DISCRIMINATOR {
        InstructionName::Delegate
    } else if v == DECOMPRESS_V1_DISCRIMINATOR {
        InstructionName::DecompressV1
    } else if v == BURN_DISCRIMINATOR {
        InstructionName::Burn
    } else if v == COMPRESS_DISCRIMINATOR {
        InstructionName::Compress
    } else if v == CREATE_TREE_DISCRIMINATOR {
        InstructionName::CreateTree
    } else if v == VERIFY_CREATOR_DISCRIMINATOR {
        InstructionName::VerifyCreator
    } else if v == UNVERIFY_CREATOR_DISCRIMINATOR {
        InstructionName::UnverifyCreator
    } else if v == VERIFY_COLLECTION_DISCRIMINATOR {
        InstructionName::VerifyCollection
    } else if v == UNVERIFY_COLLECTION_DISCRIMINATOR {
        InstructionName::UnverifyCollection
    } else if v == SET_AND_VERIFY_COLLECTION_DISCRIMINATOR {
        InstructionName::SetAndVerifyCollection
    } else {
        InstructionName::Unknown
    }
}

/// One node of a merkle path.
#[derive(Clone, Copy, Debug)]
pub struct PathNode {
    pub node: [u8; 32],
    pub index: u32,
}

pub struct PathNodeView {
    pub node: Seq<u8>,
    pub index: u32,
}

impl View for PathNode {
    type V = PathNodeView;

    open spec fn view(&self) -> PathNodeView {
        PathNodeView { node: self.node@, index: self.index }
    }
}

/// One update of a compressed tree.
#[derive(Debug)]
pub struct ChangeLogEventV1 {
    /// The tree's address.
    pub id: Pubkey,
    /// The new path, leaf first.
    pub path: Vec<PathNode>,
    /// The number of changes made to the tree so far.
    pub seq: u64,
    /// The changed leaf's position.
    pub index: u32,
}

pub struct ChangeLogEventV1View {
    pub id: Seq<u8>,
    pub path: Seq<PathNodeView>,
    pub seq: u64,
    pub index: u32,
}

impl View for ChangeLogEventV1 {
    type V = ChangeLogEventV1View;

    open spec fn view(&self) -> ChangeLogEventV1View {
        ChangeLogEventV1View {
            id: self.id@,
            path: self.path@.map_values(|n: PathNode| n@),
            seq: self.seq,
            index: self.index,
        }
    }
}

/// An event carried in the data of a logging instruction.
#[derive(Debug)]
pub enum CompressionEvent {
    ChangeLog(ChangeLogEventV1),
    ApplicationData(Vec<u8>),
}

pub enum CompressionEventView {
    ChangeLog(ChangeLogEventV1View),
    ApplicationData(Seq<u8>),
}

impl View for CompressionEvent {
    type V = CompressionEventView;

    open spec fn view(&self) -> CompressionEventView {
        match self {
            CompressionEvent::ChangeLog(c) => CompressionEventView::ChangeLog(c@),
            CompressionEvent::ApplicationData(d) => CompressionEventView::ApplicationData(d@),
        }
    }
}

/// `n` path nodes one after another, each a 32-byte node and a four-byte
/// index.
pub open spec fn spec_path_nodes(s: Seq<u8>, p: int, n: nat) -> Option<(Seq<PathNodeView>, int)>
    decreases n,
{
    if n == 0 {
        Some((Seq::empty(), p))
    } else {
        match spec_path_nodes(s, p, (n - 1) as nat) {
            Some((ns, q)) => if has(s, q, 36) {
                Some((
                    ns.push(
                        PathNodeView {
                            node: s.subrange(q, q + 32),
                            index: spec_u32(s, q + 32)->Some_0.0,
                        },
                    ),
                    q + 36,
                ))
            } else {
                None
            },
            None => None,
        }
    }
}

/// A logged event: the tag of its variant, then the tag of the variant's
/// only version. A change log is then the tree's address, a four-byte count
/// of path nodes and the nodes, the sequence number and the leaf index;
/// application data is a four-byte count and that many bytes. The event
/// fills the bytes exactly.
pub open spec fn spec_compression_event(s: Seq<u8>) -> Option<CompressionEventView> {
    if has(s, 0, 2) && s[0] == 0 && s[1] == 0 {
        let count = spec_u32(s, 34);
        let path = spec_path_nodes(s, 38, count->Some_0.0 as nat);
        let e = path->Some_0.1;
        if count is Some && path is Some && e + 12 == s.len() {
            Some(
                CompressionEventView::ChangeLog(
                    ChangeLogEventV1View {
                        id: s.subrange(2, 34),
                        path: path->Some_0.0,
                        seq: spec_u64(s, e)->Some_0.0,
                        index: spec_u32(s, e + 8)->Some_0.0,
                    },
                ),
            )
        } else {
            None
        }
    } else if has(s, 0, 2) && s[0] == 1 && s[1] == 0 {
        match spec_u32(s, 2) {
            Some((n, q)) => if q + n == s.len() {
                Some(CompressionEventView::ApplicationData(s.subrange(q, q + n)))
            } else {
                None
            },
            None => None,
        }
    } else {
        None
    }
}

/// Relies on the binary decoding that spl-account-compression derives for
/// `AccountCompressionEvent` (`try_from_slice`, borsh 0.9): it accepts exactly
/// the bytes laid out as `spec_compression_event` states, all of them read.
#[verifier::external_body]
pub(crate) fn decode_compression_event(data: &[u8]) -> (r: Option<CompressionEvent>)
    ensures
        match r {
            Some(e) => spec_compression_event(data@) == Some(e@),
            None => spec_compression_event(data@) is None,
        },
{
    match LoggedEvent::try_from_slice(data) {
        Ok(LoggedEvent::ChangeLog(ChangeLogEvent::V1(e))) => Some(CompressionEvent::ChangeLog(ChangeLogEventV1 {
            id: Pubkey(e.id.to_bytes()),
            path: e.path.iter().map(|n| PathNode { node: n.node, index: n.index }).collect(),
            seq: e.seq,
            index: e.index,
        })),
        Ok(LoggedEvent::ApplicationData(ApplicationDataEvent::V1(a))) => {
            Some(CompressionEvent::ApplicationData(a.application_data))
        },
        Err(_) => None,
    }
}

/// The address of the logging program, whose instructions carry events.
pub open spec fn noop_program_bytes() -> Seq<u8> {
    seq![
        11u8, 188, 15, 192, 187, 71, 202, 47, 116, 196, 17, 46, 148, 171, 19, 207,
        163, 198, 52, 229, 220, 23, 234, 203, 3, 205, 26, 35, 205, 126, 120, 124,
    ]
}

/// Relies on `spl_noop::id`: the address the logging program declares,
/// noopb9bkMVfRPU8AsbpTUg8AQkHtKwMYZiFUjNRtMmV.
#[verifier::external_body]
pub(crate) fn noop_program_id() -> (r: Pubkey)
    ensures
        r@ == noop_program_bytes(),
{
    Pubkey(spl_noop::id().to_bytes())
}

/// The address of the compressed-state program,
/// BGUMAp9Gq7iTEuizy4pqaxsTyUCBK68MDfK752saRPUY.
pub open spec fn bubblegum_program_bytes() -> Seq<u8> {
    seq![
        152u8, 139, 128, 235, 121, 53, 40, 105, 178, 36, 116, 95, 89, 221, 191, 138,
        38, 88, 202, 19, 220, 104, 129, 33, 38, 53, 28, 174, 7, 193, 165, 165,
    ]
}

/// The compressed-state program's address.
pub fn program_id() -> (r: Pubkey)
    ensures
        r@ == bubblegum_program_bytes(),
{
    let r = Pubkey([
        152, 139, 128, 235, 121, 53, 40, 105, 178, 36, 116, 95, 89, 221, 191, 138,
        38, 88, 202, 19, 220, 104, 129, 33, 38, 53, 28, 174, 7, 193, 165, 165,
    ]);
    assert(r@ =~= bubblegum_program_bytes());
    r
}

/// The arguments an instruction carries.
#[derive(Debug)]
pub enum Payload {
    Unknown,
    MintV1 { args: MetadataArgs },
    Decompress { args: MetadataArgs },
    CancelRedeem { root: [u8; 32] },
    CreatorVerification {
        creator: Pubkey,
        data_hash: [u8; 32],
        creator_hash: [u8; 32],
        args: MetadataArgs,
        verify: bool,
    },
    CollectionVerification { collection: Pubkey, verify: bool },
}

pub enum PayloadView {
    Unknown,
    MintV1 { args: MetadataArgsView },
    Decompress { args: MetadataArgsView },
    CancelRedeem { root: Seq<u8> },
    CreatorVerification {
        creator: Seq<u8>,
        data_hash: Seq<u8>,
        creator_hash: Seq<u8>,
        args: MetadataArgsView,
        verify: bool,
    },
    CollectionVerification { collection: Seq<u8>, verify: bool },
}

impl View for Payload {
    type V = PayloadView;

    open spec fn view(&self) -> PayloadView {
        match self {
            Payload::Unknown => PayloadView::Unknown,
            Payload::MintV1 { args } => PayloadView::MintV1 { args: args@ },
            Payload::Decompress { args } => PayloadView::Decompress { args: args@ },
            Payload::CancelRedeem { root } => PayloadView::CancelRedeem { root: root@ },
            Payload::CreatorVerification { creator, data_hash, creator_hash, args, verify } =>
                PayloadView::CreatorVerification {
                creator: creator@,
                data_hash: data_hash@,
                creator_hash: creator_hash@,
                args: args@,
                verify: *verify,
            },
            Payload::CollectionVerification { collection, verify } =>
                PayloadView::CollectionVerification { collection: collection@, verify: *verify },
        }
    }
}

/// A decoded compressed-state instruction.
#[derive(Debug)]
pub struct BubblegumInstruction {
    pub instruction: InstructionName,
    pub tree_update: Option<ChangeLogEventV1>,
    pub leaf_update: Option<LeafSchemaEvent>,
    pub payload: Option<Payload>,
}

pub struct BubblegumInstructionView {
    pub instruction: InstructionName,
    pub tree_update: Option<ChangeLogEventV1View>,
    pub leaf_update: Option<LeafSchemaEventView>,
    pub payload: Option<PayloadView>,
}

impl View for BubblegumInstruction {
    type V = BubblegumInstructionView;

    open spec fn view(&self) -> BubblegumInstructionView {
        BubblegumInstructionView {
            instruction: self.instruction,
            tree_update: opt_v(self.tree_update),
            leaf_update: opt_v(self.leaf_update),
            payload: opt_v(self.payload),
        }
    }
}

impl BubblegumInstruction {
    /// An instruction of kind `ix` with no events and no arguments yet.
    pub fn new(ix: InstructionName) -> (r: BubblegumInstruction)
        ensures
            r.instruction == ix,
            r.tree_update is None,
            r.leaf_update is None,
            r.payload is None,
    {
        BubblegumInstruction { instruction: ix, tree_update: None, leaf_update: None, payload: None }
    }
}

/// The events collected so far: the last tree update and the last leaf update.
pub type EventsView = (Option<ChangeLogEventV1View>, Option<LeafSchemaEventView>);

/// The effect of application data from the logging program: its first byte
/// tags the event; only leaf-schema events are recognized.
pub open spec fn application_event(st: EventsView, app: Seq<u8>) -> Result<
    EventsView,
    BlockbusterErrorView,
> {
    if app.len() == 0 {
        Err(BlockbusterErrorView::DeserializationError)
    } else if app[0] == 0 {
        Err(BlockbusterErrorView::MissingBubblegumEventData)
    } else if app[0] == 1 {
        match spec_leaf_schema_event(app) {
            Some(e) => Ok((st.0, Some(e))),
            None => Err(layout_error()),
        }
    } else {
        Err(layout_error())
    }
}

/// The effect of one logged event on the events collected: a change log
/// replaces the tree update, application data may replace the leaf update.
pub open spec fn logged_event_effect(st: EventsView, ev: CompressionEventView) -> Result<
    EventsView,
    BlockbusterErrorView,
> {
    match ev {
        CompressionEventView::ChangeLog(c) => Ok((Some(c), st.1)),
        CompressionEventView::ApplicationData(app) => application_event(st, app),
    }
}

/// The effect of one inner instruction on the events collected: only those of
/// the logging program count, and empty data carries nothing.
pub open spec fn event_step<'a>(st: EventsView, pair: IxPair<'a>) -> Result<
    EventsView,
    BlockbusterErrorView,
> {
    if pair.0@ != noop_program_bytes() {
        Ok(st)
    } else {
        match pair.1.data {
            None => Err(BlockbusterErrorView::InstructionParsingError),
            Some(d) => if d@.len() == 0 {
                Ok(st)
            } else {
                match spec_compression_event(d@) {
                    None => Err(layout_error()),
                    Some(ev) => logged_event_effect(st, ev),
                }
            },
        }
    }
}

/// The events collected from the first `n` inner instructions; the first
/// failure stops the collection.
pub open spec fn events_upto<'a>(inner: Seq<IxPair<'a>>, n: int) -> Result<
    EventsView,
    BlockbusterErrorView,
>
    decreases n,
{
    if n <= 0 {
        Ok((None, None))
    } else {
        match events_upto(inner, n - 1) {
            Ok(st) => event_step(st, inner[n - 1]),
            Err(e) => Err(e),
        }
    }
}

/// The events of a whole inner list, if there is one.
pub open spec fn events_of<'a>(inner: Option<Seq<IxPair<'a>>>) -> Result<
    EventsView,
    BlockbusterErrorView,
> {
    match inner {
        Some(l) => events_upto(l, l.len() as int),
        None => Ok((None, None)),
    }
}

/// Metadata arguments with the collection, if any, marked verified.
pub open spec fn with_verified_collection(a: MetadataArgsView) -> MetadataArgsView {
    MetadataArgsView {
        name: a.name,
        symbol: a.symbol,
        uri: a.uri,
        seller_fee_basis_points: a.seller_fee_basis_points,
        primary_sale_happened: a.primary_sale_happened,
        is_mutable: a.is_mutable,
        edition_nonce: a.edition_nonce,
        token_standard: a.token_standard,
        collection: match a.collection {
            Some(c) => Some(CollectionView { verified: true, key: c.key }),
            None => None,
        },
        uses: a.uses,
        token_program_version: a.token_program_version,
        creators: a.creators,
    }
}

/// A creator (un)verification: the creator is the account at its fixed
/// position; the arguments after the discriminator hold the data hash and
/// the creator hash at fixed places and the metadata after a fixed prefix.
pub open spec fn creator_payload(keys: Seq<Pubkey>, rest: Seq<u8>, verify: bool) -> Result<
    Option<PayloadView>,
    BlockbusterErrorView,
> {
    if keys.len() <= CREATOR_ACCOUNT_POSITION || rest.len() < CREATOR_VERIFICATION_PREFIX_LEN {
        Err(BlockbusterErrorView::InstructionParsingError)
    } else {
        match spec_metadata_args_exact(rest.subrange(CREATOR_VERIFICATION_PREFIX_LEN as int, rest.len() as int)) {
            Some(a) => Ok(
                Some(
                    PayloadView::CreatorVerification {
                        creator: keys[CREATOR_ACCOUNT_POSITION as int]@,
                        data_hash: rest.subrange(32, 64),
                        creator_hash: rest.subrange(64, 96),
                        args: a,
                        verify,
                    },
                ),
            ),
            None => Err(layout_error()),
        }
    }
}

/// A collection (un)verification: the collection is the account at its fixed
/// position.
pub open spec fn collection_payload(keys: Seq<Pubkey>, verify: bool) -> Result<
    Option<PayloadView>,
    BlockbusterErrorView,
> {
    if keys.len() <= COLLECTION_ACCOUNT_POSITION {
        Err(BlockbusterErrorView::InstructionParsingError)
    } else {
        Ok(
            Some(
                PayloadView::CollectionVerification {
                    collection: keys[COLLECTION_ACCOUNT_POSITION as int]@,
                    verify,
                },
            ),
        )
    }
}

/// The arguments of an instruction of kind `kind` with data `d`; none when
/// nothing follows the discriminator or the kind carries none.
pub open spec fn payload_of(kind: InstructionName, d: Seq<u8>, keys: Seq<Pubkey>) -> Result<
    Option<PayloadView>,
    BlockbusterErrorView,
> {
    if d.len() <= 8 {
        Ok(None)
    } else {
        let rest = d.subrange(8, d.len() as int);
        match kind {
            InstructionName::MintV1 => match spec_metadata_args_exact(rest) {
                Some(a) => Ok(Some(PayloadView::MintV1 { args: a })),
                None => Err(layout_error()),
            },
            InstructionName::MintToCollectionV1 => match spec_metadata_args_exact(rest) {
                Some(a) => Ok(Some(PayloadView::MintV1 { args: with_verified_collection(a) })),
                None => Err(layout_error()),
            },
            InstructionName::DecompressV1 => match spec_metadata_args_exact(rest) {
                Some(a) => Ok(Some(PayloadView::Decompress { args: a })),
                None => Err(layout_error()),
            },
            InstructionName::CancelRedeem => if rest.len() == ROOT_LEN {
                Ok(Some(PayloadView::CancelRedeem { root: rest }))
            } else {
                Err(BlockbusterErrorView::InstructionParsingError)
            },
            InstructionName::VerifyCreator => creator_payload(keys, rest, true),
            InstructionName::UnverifyCreator => creator_payload(keys, rest, false),
            InstructionName::VerifyCollection => collection_payload(keys, true),
            InstructionName::SetAndVerifyCollection => collection_payload(keys, true),
            InstructionName::UnverifyCollection => collection_payload(keys, false),
            _ => Ok(None),
        }
    }
}

/// The decoding of a compressed-state instruction: its data must be present
/// and non-empty; then its kind, the events of its inner instructions and its
/// arguments, the first failure winning.
pub open spec fn decoded<'a>(
    instruction: Option<&'a CompiledInstruction>,
    inner: Option<Seq<IxPair<'a>>>,
    keys: Seq<Pubkey>,
) -> Result<BubblegumInstructionView, BlockbusterErrorView> {
    match instruction {
        None => Err(BlockbusterErrorView::DeserializationError),
        Some(ix) => match ix.data {
            None => Err(BlockbusterErrorView::DeserializationError),
            Some(d) => if d@.len() == 0 {
                Err(BlockbusterErrorView::DeserializationError)
            } else {
                let kind = instruction_kind(d@);
                match events_of(inner) {
                    Err(e) => Err(e),
                    Ok((tree, leaf)) => match payload_of(kind, d@, keys) {
                        Err(e) => Err(e),
                        Ok(p) => Ok(
                            BubblegumInstructionView {
                                instruction: kind,
                                tree_update: tree,
                                leaf_update: leaf,
                                payload: p,
                            },
                        ),
                    },
                }
            },
        },
    }
}

proof fn lemma_events_fail_stays<'a>(inner: Seq<IxPair<'a>>, k: int, n: int)
    requires
        0 <= k <= n,
        events_upto(inner, k) is Err,
    ensures
        events_upto(inner, n) == events_upto(inner, k),
    decreases n - k,
{
    if k < n {
        lemma_events_fail_stays(inner, k, n - 1);
    }
}

/// A payload result seen through views.
pub open spec fn payload_result_view(r: Result<Option<Payload>, BlockbusterError>) -> Result<
    Option<PayloadView>,
    BlockbusterErrorView,
> {
    match r {
        Ok(p) => Ok(opt_v(p)),
        Err(e) => Err(e@),
    }
}

/// Decodes metadata arguments filling `d`, failing with the layout error.
fn metadata_args_or_fail(d: &[u8]) -> (r: Result<MetadataArgs, BlockbusterError>)
    ensures
        match spec_metadata_args_exact(d@) {
            Some(a) => r matches Ok(x) && x@ == a,
            None => r matches Err(e) && e@ == layout_error(),
        },
{
    match decode_metadata_args(d) {
        Some(a) => Ok(a),
        None => Err(layout_failure()),
    }
}

/// Applies one logged event to the events collected so far: a change log
/// replaces the tree update; application data must be a leaf-schema event,
/// which replaces the leaf update.
pub fn apply_logged_event(
    tree_update: Option<ChangeLogEventV1>,
    leaf_update: Option<LeafSchemaEvent>,
    event: CompressionEvent,
) -> (r: Result<(Option<ChangeLogEventV1>, Option<LeafSchemaEvent>), BlockbusterError>)
    ensures
        match r {
            Ok((t, l)) => logged_event_effect((opt_v(tree_update), opt_v(leaf_update)), event@)
                == Ok::<EventsView, BlockbusterErrorView>((opt_v(t), opt_v(l))),
            Err(e) => logged_event_effect((opt_v(tree_update), opt_v(leaf_update)), event@)
                == Err::<EventsView, BlockbusterErrorView>(e@),
        },
{
    match event {
        CompressionEvent::ChangeLog(c) => Ok((Some(c), leaf_update)),
        CompressionEvent::ApplicationData(app) => {
            if app.len() == 0 {
                return Err(BlockbusterError::DeserializationError);
            }
            if app[0] == 0 {
                return Err(BlockbusterError::MissingBubblegumEventData);
            }
            if app[0] != 1 {
                return Err(layout_failure());
            }
            match decode_leaf_schema_event(app.as_slice()) {
                Some(e) => Ok((tree_update, Some(e))),
                None => Err(layout_failure()),
            }
        },
    }
}

/// Builds the payload of a creator (un)verification.
pub fn build_creator_verification_payload(keys: &[Pubkey], rest: &[u8], verify: bool) -> (r:
    Result<Option<Payload>, BlockbusterError>)
    ensures
        payload_result_view(r) == creator_payload(keys@, rest@, verify),
{
    if keys.len() <= CREATOR_ACCOUNT_POSITION || rest.len() < CREATOR_VERIFICATION_PREFIX_LEN {
        return Err(BlockbusterError::InstructionParsingError);
    }
    let creator = keys[CREATOR_ACCOUNT_POSITION];
    let (data_hash, _) = read_bytes32(rest, 32).unwrap();
    let (creator_hash, _) = read_bytes32(rest, 64).unwrap();
    let tail = crate::wire::copy_range(rest, CREATOR_VERIFICATION_PREFIX_LEN, rest.len());
    let args = match metadata_args_or_fail(tail.as_slice()) {
        Ok(a) => a,
        Err(e) => {
            return Err(e);
        },
    };
    Ok(Some(Payload::CreatorVerification { creator, data_hash, creator_hash, args, verify }))
}

/// Builds the payload of a collection (un)verification.
pub fn build_collection_verification_payload(keys: &[Pubkey], verify: bool) -> (r: Result<
    Option<Payload>,
    BlockbusterError,
>)
    ensures
        payload_result_view(r) == collection_payload(keys@, verify),
{
    if keys.len() <= COLLECTION_ACCOUNT_POSITION {
        return Err(BlockbusterError::InstructionParsingError);
    }
    let collection = keys[COLLECTION_ACCOUNT_POSITION];
    Ok(Some(Payload::CollectionVerification { collection, verify }))
}

/// Builds the payload of an instruction of kind `kind` with data `data`.
pub fn build_payload(kind: InstructionName, data: &[u8], keys: &[Pubkey]) -> (r: Result<
    Option<Payload>,
    BlockbusterError,
>)
    ensures
        payload_result_view(r) == payload_of(kind, data@, keys@),
{
    if data.len() <= 8 {
        return Ok(None);
    }
    let rest_vec = crate::wire::copy_range(data, 8, data.len());
    let rest = rest_vec.as_slice();
    match kind {
        InstructionName::MintV1 => match metadata_args_or_fail(rest) {
            Ok(args) => Ok(Some(Payload::MintV1 { args })),
            Err(e) => Err(e),
        },
        InstructionName::MintToCollectionV1 => match metadata_args_or_fail(rest) {
            Ok(args) => {
                let mut args = args;
                args.collection = match args.collection {
                    Some(c) => Some(Collection { verified: true, key: c.key }),
                    None => None,
                };
                Ok(Some(Payload::MintV1 { args }))
            },
            Err(e) => Err(e),
        },
        InstructionName::DecompressV1 => match metadata_args_or_fail(rest) {
            Ok(args) => Ok(Some(Payload::Decompress { args })),
            Err(e) => Err(e),
        },
        InstructionName::CancelRedeem => {
            if rest.len() != ROOT_LEN {
                return Err(BlockbusterError::InstructionParsingError);
            }
            let (root, _) = read_bytes32(rest, 0).unwrap();
            proof {
                assert(rest@.subrange(0, 32) =~= rest@);
            }
            Ok(Some(Payload::CancelRedeem { root }))
        },
        InstructionName::VerifyCreator => build_creator_verification_payload(keys, rest, true),
        InstructionName::UnverifyCreator => build_creator_verification_payload(keys, rest, false),
        InstructionName::VerifyCollection => build_collection_verification_payload(keys, true),
        InstructionName::SetAndVerifyCollection => build_collection_verification_payload(
            keys,
            true,
        ),
        InstructionName::UnverifyCollection => build_collection_verification_payload(keys, false),
        _ => Ok(None),
    }
}

/// The decoder of the compressed-state program.
pub struct BubblegumParser;

impl BubblegumParser {
    /// The program this decoder reads.
    pub fn key(&self) -> (r: Pubkey)
        ensures
            r@ == bubblegum_program_bytes(),
    {
        program_id()
    }

    /// Whether `key` is the program this decoder reads.
    pub fn key_match(&self, key: &Pubkey) -> (r: bool)
        ensures
            r == (key@ == bubblegum_program_bytes()),
    {
        let id = program_id();
        let r = key.same_as(&id);
        proof {
            if key@ == bubblegum_program_bytes() {
                assert(key.0 =~= id.0);
            }
        }
        r
    }

    /// This decoder reads no account snapshots.
    pub fn handles_account_updates(&self) -> (r: bool)
        ensures
            !r,
    {
        false
    }

    /// This decoder reads instructions.
    pub fn handles_instructions(&self) -> (r: bool)
        ensures
            r,
    {
        true
    }

    /// Decodes one compressed-state instruction with the events its logging
    /// inner instructions carry.
    pub fn handle_instruction(&self, bundle: &InstructionBundle) -> (r: Result<
        BubblegumInstruction,
        BlockbusterError,
    >)
        ensures
            result_view(r) == decoded(bundle.instruction, opt_view(bundle.inner_ix), bundle.keys@),
    {
        let ix = match bundle.instruction {
            Some(ix) => ix,
            None => {
                return Err(BlockbusterError::DeserializationError);
            },
        };
        let data = match &ix.data {
            Some(d) => d,
            None => {
                return Err(BlockbusterError::DeserializationError);
            },
        };
        if data.len() == 0 {
            return Err(BlockbusterError::DeserializationError);
        }
        let kind = get_instruction_type(data.as_slice());
        let mut tree_update: Option<ChangeLogEventV1> = None;
        let mut leaf_update: Option<LeafSchemaEvent> = None;
        if let Some(ixs) = &bundle.inner_ix {
            let logger = noop_program_id();
            let mut k: usize = 0;
            while k < ixs.len()
                invariant
                    k <= ixs@.len(),
                    logger@ == noop_program_bytes(),
                    bundle.instruction == Some(ix),
                    ix.data == Some(*data),
                    data@.len() > 0,
                    bundle.inner_ix == Some(*ixs),
                    events_upto(ixs@, k as int) == Ok::<EventsView, BlockbusterErrorView>(
                        (opt_v(tree_update), opt_v(leaf_update)),
                    ),
                decreases ixs@.len() - k,
            {
                let pair = ixs[k];
                let ghost st = (opt_v(tree_update), opt_v(leaf_update));
                proof {
                    assert(events_upto(ixs@, k + 1) == event_step(st, pair));
                    if pair.0@ == noop_program_bytes() {
                        assert(pair.0.0 =~= logger.0);
                    }
                }
                if pair.0.same_as(&logger) {
                    match &pair.1.data {
                        None => {
                            proof {
                                assert(event_step(st, pair) is Err);
                                lemma_events_fail_stays(ixs@, k + 1, ixs@.len() as int);
                            }
                            return Err(BlockbusterError::InstructionParsingError);
                        },
                        Some(d) => {
                            if d.len() > 0 {
                                let event = match decode_compression_event(d.as_slice()) {
                                    Some(ev) => ev,
                                    None => {
                                        proof {
                                            lemma_events_fail_stays(ixs@, k + 1, ixs@.len() as int);
                                        }
                                        return Err(layout_failure());
                                    },
                                };
                                match apply_logged_event(tree_update, leaf_update, event) {
                                    Ok((t, l)) => {
                                        tree_update = t;
                                        leaf_update = l;
                                    },
                                    Err(e) => {
                                        proof {
                                            lemma_events_fail_stays(ixs@, k + 1, ixs@.len() as int);
                                        }
                                        return Err(e);
                                    },
                                }
                            }
                        },
                    }
                }
                k = k + 1;
            }
        }
        let payload = match build_payload(kind, data.as_slice(), bundle.keys) {
            Ok(p) => p,
            Err(e) => {
                return Err(e);
            },
        };
        Ok(BubblegumInstruction { instruction: kind, tree_update, leaf_update, payload })
    }
}

/// Minting into a collection marks the embedded collection verified: when an
/// instruction of that kind carries metadata naming a collection, its payload
/// is a mint whose collection has the same key and is verified, whatever flag
/// the instruction carried.
pub proof fn lemma_mint_to_collection_verifies(d: Seq<u8>, keys: Seq<Pubkey>)
    requires
        instruction_kind(d) == InstructionName::MintToCollectionV1,
        d.len() > 8,
        spec_metadata_args_exact(d.subrange(8, d.len() as int)) matches Some(a) && a.collection is Some,
    ensures
        ({
            let a = spec_metadata_args_exact(d.subrange(8, d.len() as int))->Some_0;
            &&& payload_of(InstructionName::MintToCollectionV1, d, keys) == Ok::<
                Option<PayloadView>,
                BlockbusterErrorView,
            >(Some(PayloadView::MintV1 { args: with_verified_collection(a) }))
            &&& with_verified_collection(a).collection->Some_0.verified
            &&& with_verified_collection(a).collection->Some_0.key == a.collection->Some_0.key
        }),
{
}

/// A cancel-redeem instruction carries exactly a 32-byte root: with any other
/// number of argument bytes it fails with a parsing error, and with 32 its
/// payload is those bytes unchanged.
pub proof fn lemma_cancel_redeem_root(d: Seq<u8>, keys: Seq<Pubkey>)
    requires
        instruction_kind(d) == InstructionName::CancelRedeem,
        d.len() > 8,
    ensures
        d.len() - 8 == ROOT_LEN ==> payload_of(InstructionName::CancelRedeem, d, keys) == Ok::<
            Option<PayloadView>,
            BlockbusterErrorView,
        >(Some(PayloadView::CancelRedeem { root: d.subrange(8, d.len() as int) })),
        d.len() - 8 != ROOT_LEN ==> payload_of(InstructionName::CancelRedeem, d, keys) == Err::<
            Option<PayloadView>,
            BlockbusterErrorView,
        >(BlockbusterErrorView::InstructionParsingError),
{
}

/// Two inner lists that carry the same bytes: pair by pair, the same program
/// and the same data (their account lists may differ).
pub open spec fn same_logged_bytes<'a, 'b>(l1: Seq<IxPair<'a>>, l2: Seq<IxPair<'b>>) -> bool {
    &&& l1.len() == l2.len()
    &&& forall|k: int|
        0 <= k < l1.len() ==> (#[trigger] l1[k]).0@ == l2[k].0@ && opt_view(l1[k].1.data)
            == opt_view(l2[k].1.data)
}

proof fn lemma_events_same_bytes<'a, 'b>(l1: Seq<IxPair<'a>>, l2: Seq<IxPair<'b>>, n: int)
    requires
        same_logged_bytes(l1, l2),
        n <= l1.len(),
    ensures
        events_upto(l1, n) == events_upto(l2, n),
    decreases n,
{
    if n > 0 {
        lemma_events_same_bytes(l1, l2, n - 1);
        let a = l1[n - 1];
        let b = l2[n - 1];
        assert(a.0@ == b.0@ && opt_view(a.1.data) == opt_view(b.1.data));
        match events_upto(l1, n - 1) {
            Ok(st) => {
                assert(event_step(st, a) == event_step(st, b));
            },
            Err(_) => {},
        }
    }
}

/// Decoding reads bytes only, and always the same way: two bundles whose
/// instructions carry the same data, whose inner instructions carry the same
/// programs and data in the same order, and whose keys are the same, decode
/// to equal results, whatever else differs between them.
pub proof fn lemma_decoding_deterministic<'a, 'b>(
    b1: &InstructionBundle<'a>,
    b2: &InstructionBundle<'b>,
)
    requires
        b1.instruction is Some == b2.instruction is Some,
        b1.instruction matches Some(i1) ==> opt_view(i1.data) == opt_view(
            b2.instruction->Some_0.data,
        ),
        b1.inner_ix is Some == b2.inner_ix is Some,
        b1.inner_ix matches Some(l1) ==> same_logged_bytes(l1@, b2.inner_ix->Some_0@),
        b1.keys@ == b2.keys@,
    ensures
        decoded(b1.instruction, opt_view(b1.inner_ix), b1.keys@) == decoded(
            b2.instruction,
            opt_view(b2.inner_ix),
            b2.keys@,
        ),
{
    if let Some(l1) = b1.inner_ix {
        let l2 = b2.inner_ix->Some_0;
        lemma_events_same_bytes(l1@, l2@, l1@.len() as int);
    }
    if let Some(i1) = b1.instruction {
        let i2 = b2.instruction->Some_0;
        if let Some(d1) = i1.data {
            assert(d1@ == i2.data->Some_0@);
        }
    }
}

} // verus!
