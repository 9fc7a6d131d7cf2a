//! The records that compressed-state instructions and their log events carry,
//! and their binary layouts.

use crate::pubkey::Pubkey;
use crate::wire::{
    has, read_bool, read_bytes32, read_pubkey, read_string, read_u16, read_u32, read_u64,
    read_u8, spec_bool, spec_string, spec_u16, spec_u32, spec_u64, spec_u8,
};
use vstd::prelude::*;

verus! {

#[derive(PartialEq, Eq, Structural, Clone, Copy, Debug)]
pub enum TokenProgramVersion {
    Original,
    Token2022,
}

#[derive(PartialEq, Eq, Structural, Clone, Copy, Debug)]
pub enum TokenStandard {
    NonFungible,
    FungibleAsset,
    Fungible,
    NonFungibleEdition,
}

#[derive(PartialEq, Eq, Structural, Clone, Copy, Debug)]
pub enum UseMethod {
    Burn,
    Multiple,
    Single,
}

#[derive(PartialEq, Eq, Structural, Clone, Copy, Debug)]
pub struct Uses {
    pub use_method: UseMethod,
    pub remaining: u64,
    pub total: u64,
}

#[derive(Clone, Copy, Debug)]
pub struct Creator {
    pub address: Pubkey,
    pub verified: bool,
    /// In percent, not basis points.
    pub share: u8,
}

pub struct CreatorView {
    pub address: Seq<u8>,
    pub verified: bool,
    pub share: u8,
}

impl View for Creator {
    type V = CreatorView;

    open spec fn view(&self) -> CreatorView {
        CreatorView { address: self.address@, verified: self.verified, share: self.share }
    }
}

#[derive(Clone, Copy, Debug)]
pub struct Collection {
    pub verified: bool,
    pub key: Pubkey,
}

pub struct CollectionView {
    pub verified: bool,
    pub key: Seq<u8>,
}

impl View for Collection {
    type V = CollectionView;

    open spec fn view(&self) -> CollectionView {
        CollectionView { verified: self.verified, key: self.key@ }
    }
}

/// The metadata of an asset as a mint or decompress instruction carries it.
#[derive(Debug)]
pub struct MetadataArgs {
    pub name: String,
    pub symbol: String,
    pub uri: String,
    /// Royalty in basis points.
    pub seller_fee_basis_points: u16,
    pub primary_sale_happened: bool,
    pub is_mutable: bool,
    pub edition_nonce: Option<u8>,
    pub token_standard: Option<TokenStandard>,
    pub collection: Option<Collection>,
    pub uses: Option<Uses>,
    pub token_program_version: TokenProgramVersion,
    pub creators: Vec<Creator>,
}

pub struct MetadataArgsView {
    pub name: Seq<char>,
    pub symbol: Seq<char>,
    pub uri: Seq<char>,
    pub seller_fee_basis_points: u16,
    pub primary_sale_happened: bool,
    pub is_mutable: bool,
    pub edition_nonce: Option<u8>,
    pub token_standard: Option<TokenStandard>,
    pub collection: Option<CollectionView>,
    pub uses: Option<Uses>,
    pub token_program_version: TokenProgramVersion,
    pub creators: Seq<CreatorView>,
}

pub open spec fn collection_view(c: Option<Collection>) -> Option<CollectionView> {
    match c {
        Some(c) => Some(c@),
        None => None,
    }
}

impl View for MetadataArgs {
    type V = MetadataArgsView;

    open spec fn view(&self) -> MetadataArgsView {
        MetadataArgsView {
            name: self.name@,
            symbol: self.symbol@,
            uri: self.uri@,
            seller_fee_basis_points: self.seller_fee_basis_points,
            primary_sale_happened: self.primary_sale_happened,
            is_mutable: self.is_mutable,
            edition_nonce: self.edition_nonce,
            token_standard: self.token_standard,
            collection: collection_view(self.collection),
            uses: self.uses,
            token_program_version: self.token_program_version,
            creators: self.creators@.map_values(|c: Creator| c@),
        }
    }
}

#[derive(PartialEq, Eq, Structural, Clone, Copy, Debug)]
pub enum BubblegumEventType {
    /// Marks data that was never written.
    Uninitialized,
    LeafSchemaEvent,
}

#[derive(PartialEq, Eq, Structural, Clone, Copy, Debug)]
pub enum Version {
    V1,
}

/// The logical content of one leaf of a compressed tree.
#[derive(Clone, Copy, Debug)]
pub enum LeafSchema {
    V1 {
        id: Pubkey,
        owner: Pubkey,
        delegate: Pubkey,
        nonce: u64,
        data_hash: [u8; 32],
        creator_hash: [u8; 32],
    },
}

pub enum LeafSchemaView {
    V1 {
        id: Seq<u8>,
        owner: Seq<u8>,
        delegate: Seq<u8>,
        nonce: u64,
        data_hash: Seq<u8>,
        creator_hash: Seq<u8>,
    },
}

impl View for LeafSchema {
    type V = LeafSchemaView;

    open spec fn view(&self) -> LeafSchemaView {
        match self {
            LeafSchema::V1 { id, owner, delegate, nonce, data_hash, creator_hash } => LeafSchemaView::V1 {
                id: id@,
                owner: owner@,
                delegate: delegate@,
                nonce: *nonce,
                data_hash: data_hash@,
                creator_hash: creator_hash@,
            },
        }
    }
}

/// A leaf's content at the moment an instruction changed it.
#[derive(Clone, Copy, Debug)]
pub struct LeafSchemaEvent {
    pub event_type: BubblegumEventType,
    pub version: Version,
    pub schema: LeafSchema,
    pub leaf_hash: [u8; 32],
}

pub struct LeafSchemaEventView {
    pub event_type: BubblegumEventType,
    pub version: Version,
    pub schema: LeafSchemaView,
    pub leaf_hash: Seq<u8>,
}

impl View for LeafSchemaEvent {
    type V = LeafSchemaEventView;

    open spec fn view(&self) -> LeafSchemaEventView {
        LeafSchemaEventView {
            event_type: self.event_type,
            version: self.version,
            schema: self.schema@,
            leaf_hash: self.leaf_hash@,
        }
    }
}

// Layouts. Each enum is a one-byte tag giving the position of its variant;
// an optional value is a presence byte (0 or 1) followed by the value; a list
// is a four-byte count followed by its elements.
pub open spec fn spec_token_program_version(s: Seq<u8>, p: int) -> Option<(TokenProgramVersion, int)> {
    if has(s, p, 1) && s[p] < 2 {
        Some((if s[p] == 0 { TokenProgramVersion::Original } else { TokenProgramVersion::Token2022 }, p + 1))
    } else {
        None
    }
}

pub open spec fn token_standard_of(b: u8) -> TokenStandard {
    if b == 0 {
        TokenStandard::NonFungible
    } else if b == 1 {
        TokenStandard::FungibleAsset
    } else if b == 2 {
        TokenStandard::Fungible
    } else {
        TokenStandard::NonFungibleEdition
    }
}

pub open spec fn use_method_of(b: u8) -> UseMethod {
    if b == 0 {
        UseMethod::Burn
    } else if b == 1 {
        UseMethod::Multiple
    } else {
        UseMethod::Single
    }
}

pub open spec fn spec_opt_u8(s: Seq<u8>, p: int) -> Option<(Option<u8>, int)> {
    match spec_bool(s, p) {
        Some((false, q)) => Some((None, q)),
        Some((true, q)) => match spec_u8(s, q) {
            Some((v, e)) => Some((Some(v), e)),
            None => None,
        },
        None => None,
    }
}

pub open spec fn spec_opt_token_standard(s: Seq<u8>, p: int) -> Option<(Option<TokenStandard>, int)> {
    match spec_bool(s, p) {
        Some((false, q)) => Some((None, q)),
        Some((true, q)) => if has(s, q, 1) && s[q] < 4 {
            Some((Some(token_standard_of(s[q])), q + 1))
        } else {
            None
        },
        None => None,
    }
}

/// A collection is its verified flag, then its key.
pub open spec fn spec_opt_collection(s: Seq<u8>, p: int) -> Option<(Option<CollectionView>, int)> {
    match spec_bool(s, p) {
        Some((false, q)) => Some((None, q)),
        Some((true, q)) => if has(s, q, 33) && s[q] <= 1 {
            Some((Some(CollectionView { verified: s[q] == 1, key: s.subrange(q + 1, q + 33) }), q + 33))
        } else {
            None
        },
        None => None,
    }
}

/// Uses are the method's tag, then the remaining and total counts.
pub open spec fn spec_opt_uses(s: Seq<u8>, p: int) -> Option<(Option<Uses>, int)> {
    match spec_bool(s, p) {
        Some((false, q)) => Some((None, q)),
        Some((true, q)) => if has(s, q, 17) && s[q] < 3 {
            Some((
                Some(Uses {
                    use_method: use_method_of(s[q]),
                    remaining: spec_u64(s, q + 1)->Some_0.0,
                    total: spec_u64(s, q + 9)->Some_0.0,
                }),
                q + 17,
            ))
        } else {
            None
        },
        None => None,
    }
}

/// A creator is its address, its verified flag and its share.
pub open spec fn spec_creator(s: Seq<u8>, p: int) -> Option<(CreatorView, int)> {
    if has(s, p, 34) && s[p + 32] <= 1 {
        Some((CreatorView { address: s.subrange(p, p + 32), verified: s[p + 32] == 1, share: s[p + 33] }, p + 34))
    } else {
        None
    }
}

/// `n` creators one after another.
pub open spec fn spec_creators(s: Seq<u8>, p: int, n: nat) -> Option<(Seq<CreatorView>, int)>
    decreases n,
{
    if n == 0 {
        Some((Seq::empty(), p))
    } else {
        match spec_creators(s, p, (n - 1) as nat) {
            Some((cs, q)) => match spec_creator(s, q) {
                Some((c, e)) => Some((cs.push(c), e)),
                None => None,
            },
            None => None,
        }
    }
}

proof fn lemma_creators_stay_none(s: Seq<u8>, p: int, i: nat, m: nat)
    requires
        spec_creators(s, p, i) is None,
        i <= m,
    ensures
        spec_creators(s, p, m) is None,
    decreases m - i,
{
    if i < m {
        lemma_creators_stay_none(s, p, i, (m - 1) as nat);
    }
}

pub open spec fn spec_creator_list(s: Seq<u8>, p: int) -> Option<(Seq<CreatorView>, int)> {
    match spec_u32(s, p) {
        Some((n, q)) => spec_creators(s, q, n as nat),
        None => None,
    }
}

/// Metadata arguments: name, symbol and uri strings, royalty, the two flags,
/// edition nonce, token standard, collection, uses, token program version and
/// creators, in this order.
pub open spec fn spec_metadata_args(s: Seq<u8>, p: int) -> Option<(MetadataArgsView, int)> {
    let name = spec_string(s, p);
    let symbol = spec_string(s, name->Some_0.1);
    let uri = spec_string(s, symbol->Some_0.1);
    let fee = spec_u16(s, uri->Some_0.1);
    let sold = spec_bool(s, fee->Some_0.1);
    let mutable = spec_bool(s, sold->Some_0.1);
    let nonce = spec_opt_u8(s, mutable->Some_0.1);
    let standard = spec_opt_token_standard(s, nonce->Some_0.1);
    let collection = spec_opt_collection(s, standard->Some_0.1);
    let uses = spec_opt_uses(s, collection->Some_0.1);
    let version = spec_token_program_version(s, uses->Some_0.1);
    let creators = spec_creator_list(s, version->Some_0.1);
    if name is Some && symbol is Some && uri is Some && fee is Some && sold is Some && mutable is Some
        && nonce is Some && standard is Some && collection is Some && uses is Some && version is Some
        && creators is Some {
        Some((
            MetadataArgsView {
                name: name->Some_0.0,
                symbol: symbol->Some_0.0,
                uri: uri->Some_0.0,
                seller_fee_basis_points: fee->Some_0.0,
                primary_sale_happened: sold->Some_0.0,
                is_mutable: mutable->Some_0.0,
                edition_nonce: nonce->Some_0.0,
                token_standard: standard->Some_0.0,
                collection: collection->Some_0.0,
                uses: uses->Some_0.0,
                token_program_version: version->Some_0.0,
                creators: creators->Some_0.0,
            },
            creators->Some_0.1,
        ))
    } else {
        None
    }
}

/// Metadata arguments that fill `s` exactly.
pub open spec fn spec_metadata_args_exact(s: Seq<u8>) -> Option<MetadataArgsView> {
    match spec_metadata_args(s, 0) {
        Some((a, q)) => if q == s.len() {
            Some(a)
        } else {
            None
        },
        None => None,
    }
}

/// The length of an encoded leaf-schema event.
pub const LEAF_SCHEMA_EVENT_LEN: usize = 203;

/// A leaf-schema event is the event type's tag, the version's tag (only the
/// first version exists), the schema's tag (likewise), then id, owner and
/// delegate keys, nonce, data hash, creator hash and leaf hash, filling the
/// bytes exactly.
pub open spec fn spec_leaf_schema_event(s: Seq<u8>) -> Option<LeafSchemaEventView> {
    if s.len() == LEAF_SCHEMA_EVENT_LEN && s[0] <= 1 && s[1] == 0 && s[2] == 0 {
        Some(LeafSchemaEventView {
            event_type: if s[0] == 0 {
                BubblegumEventType::Uninitialized
            } else {
                BubblegumEventType::LeafSchemaEvent
            },
            version: Version::V1,
            schema: LeafSchemaView::V1 {
                id: s.subrange(3, 35),
                owner: s.subrange(35, 67),
                delegate: s.subrange(67, 99),
                nonce: spec_u64(s, 99)->Some_0.0,
                data_hash: s.subrange(107, 139),
                creator_hash: s.subrange(139, 171),
            },
            leaf_hash: s.subrange(171, 203),
        })
    } else {
        None
    }
}

pub open spec fn lift_view<T: View>(r: Option<(T, usize)>) -> Option<(T::V, int)> {
    match r {
        Some((v, q)) => Some((v@, q as int)),
        None => None,
    }
}

fn read_token_program_version(d: &[u8], p: usize) -> (r: Option<(TokenProgramVersion, usize)>)
    ensures
        match r {
            Some((v, q)) => spec_token_program_version(d@, p as int) == Some((v, q as int)),
            None => spec_token_program_version(d@, p as int) is None,
        },
{
    match read_u8(d, p) {
        Some((0, q)) => Some((TokenProgramVersion::Original, q)),
        Some((1, q)) => Some((TokenProgramVersion::Token2022, q)),
        _ => None,
    }
}

fn read_opt_u8(d: &[u8], p: usize) -> (r: Option<(Option<u8>, usize)>)
    ensures
        match r {
            Some((v, q)) => spec_opt_u8(d@, p as int) == Some((v, q as int)),
            None => spec_opt_u8(d@, p as int) is None,
        },
{
    match read_bool(d, p) {
        Some((false, q)) => Some((None, q)),
        Some((true, q)) => match read_u8(d, q) {
            Some((v, e)) => Some((Some(v), e)),
            None => None,
        },
        None => None,
    }
}

fn read_opt_token_standard(d: &[u8], p: usize) -> (r: Option<(Option<TokenStandard>, usize)>)
    ensures
        match r {
            Some((v, q)) => spec_opt_token_standard(d@, p as int) == Some((v, q as int)),
            None => spec_opt_token_standard(d@, p as int) is None,
        },
{
    match read_bool(d, p) {
        Some((false, q)) => Some((None, q)),
        Some((true, q)) => match read_u8(d, q) {
            Some((0, e)) => Some((Some(TokenStandard::NonFungible), e)),
            Some((1, e)) => Some((Some(TokenStandard::FungibleAsset), e)),
            Some((2, e)) => Some((Some(TokenStandard::Fungible), e)),
            Some((3, e)) => Some((Some(TokenStandard::NonFungibleEdition), e)),
            _ => None,
        },
        None => None,
    }
}

fn read_opt_collection(d: &[u8], p: usize) -> (r: Option<(Option<Collection>, usize)>)
    ensures
        match r {
            Some((v, q)) => spec_opt_collection(d@, p as int) == Some((collection_view(v), q as int)),
            None => spec_opt_collection(d@, p as int) is None,
        },
{
    match read_bool(d, p) {
        Some((false, q)) => Some((None, q)),
        Some((true, q)) => {
            let (verified, q1) = match read_bool(d, q) {
                Some(x) => x,
                None => {
                    return None;
                },
            };
            match read_pubkey(d, q1) {
                Some((key, e)) => Some((Some(Collection { verified, key }), e)),
                None => None,
            }
        },
        None => None,
    }
}

fn read_opt_uses(d: &[u8], p: usize) -> (r: Option<(Option<Uses>, usize)>)
    ensures
        match r {
            Some((v, q)) => spec_opt_uses(d@, p as int) == Some((v, q as int)),
            None => spec_opt_uses(d@, p as int) is None,
        },
{
    match read_bool(d, p) {
        Some((false, q)) => Some((None, q)),
        Some((true, q)) => {
            let (use_method, q1) = match read_u8(d, q) {
                Some((0, e)) => (UseMethod::Burn, e),
                Some((1, e)) => (UseMethod::Multiple, e),
                Some((2, e)) => (UseMethod::Single, e),
                _ => {
                    return None;
                },
            };
            let (remaining, q2) = match read_u64(d, q1) {
                Some(x) => x,
                None => {
                    return None;
                },
            };
            match read_u64(d, q2) {
                Some((total, e)) => Some((Some(Uses { use_method, remaining, total }), e)),
                None => None,
            }
        },
        None => None,
    }
}

fn read_creator(d: &[u8], p: usize) -> (r: Option<(Creator, usize)>)
    ensures
        lift_view(r) == spec_creator(d@, p as int),
{
    let (address, q) = match read_pubkey(d, p) {
        Some(x) => x,
        None => {
            return None;
        },
    };
    let (verified, q1) = match read_bool(d, q) {
        Some(x) => x,
        None => {
            return None;
        },
    };
    match read_u8(d, q1) {
        Some((share, e)) => Some((Creator { address, verified, share }, e)),
        None => None,
    }
}

pub(crate) fn read_creator_list(d: &[u8], p: usize) -> (r: Option<(Vec<Creator>, usize)>)
    ensures
        match r {
            Some((v, q)) => spec_creator_list(d@, p as int) == Some((
                v@.map_values(|c: Creator| c@),
                q as int,
            )),
            None => spec_creator_list(d@, p as int) is None,
        },
{
    let (n, q) = match read_u32(d, p) {
        Some(x) => x,
        None => {
            return None;
        },
    };
    let mut out: Vec<Creator> = Vec::new();
    let mut pos = q;
    let mut i: u32 = 0;
    while i < n
        invariant
            i <= n,
            spec_u32(d@, p as int) == Some((n, q as int)),
            spec_creators(d@, q as int, i as nat) == Some((
                out@.map_values(|c: Creator| c@),
                pos as int,
            )),
        decreases n - i,
    {
        match read_creator(d, pos) {
            Some((c, e)) => {
                proof {
                    assert(out@.push(c).map_values(|c: Creator| c@) =~= out@.map_values(
                        |c: Creator| c@,
                    ).push(c@));
                }
                out.push(c);
                pos = e;
            },
            None => {
                proof {
                    assert(spec_creator(d@, pos as int) is None);
                    assert(spec_creators(d@, q as int, (i + 1) as nat) is None);
                    lemma_creators_stay_none(d@, q as int, (i + 1) as nat, n as nat);
                }
                return None;
            },
        }
        i = i + 1;
    }
    Some((out, pos))
}

/// Reads metadata arguments starting at `p`.
pub fn read_metadata_args(d: &[u8], p: usize) -> (r: Option<(MetadataArgs, usize)>)
    ensures
        lift_view(r) == spec_metadata_args(d@, p as int),
{
    let (name, at1) = match read_string(d, p) {
        Some(x) => x,
        None => {
            return None;
        },
    };
    let (symbol, at2) = match read_string(d, at1) {
        Some(x) => x,
        None => {
            return None;
        },
    };
    let (uri, at3) = match read_string(d, at2) {
        Some(x) => x,
        None => {
            return None;
        },
    };
    let (seller_fee_basis_points, at4) = match read_u16(d, at3) {
        Some(x) => x,
        None => {
            return None;
        },
    };
    let (primary_sale_happened, at5) = match read_bool(d, at4) {
        Some(x) => x,
        None => {
            return None;
        },
    };
    let (is_mutable, at6) = match read_bool(d, at5) {
        Some(x) => x,
        None => {
            return None;
        },
    };
    let (edition_nonce, at7) = match read_opt_u8(d, at6) {
        Some(x) => x,
        None => {
            return None;
        },
    };
    let (token_standard, at8) = match read_opt_token_standard(d, at7) {
        Some(x) => x,
        None => {
            return None;
        },
    };
    let (collection, at9) = match read_opt_collection(d, at8) {
        Some(x) => x,
        None => {
            return None;
        },
    };
    let (uses, at10) = match read_opt_uses(d, at9) {
        Some(x) => x,
        None => {
            return None;
        },
    };
    let (token_program_version, at11) = match read_token_program_version(d, at10) {
        Some(x) => x,
        None => {
            return None;
        },
    };
    let (creators, at12) = match read_creator_list(d, at11) {
        Some(x) => x,
        None => {
            return None;
        },
    };
    let args = MetadataArgs {
        name,
        symbol,
        uri,
        seller_fee_basis_points,
        primary_sale_happened,
        is_mutable,
        edition_nonce,
        token_standard,
        collection,
        uses,
        token_program_version,
        creators,
    };
    Some((args, at12))
}

/// Decodes metadata arguments that fill `d` exactly.
pub fn decode_metadata_args(d: &[u8]) -> (r: Option<MetadataArgs>)
    ensures
        match r {
            Some(a) => spec_metadata_args_exact(d@) == Some(a@),
            None => spec_metadata_args_exact(d@) is None,
        },
{
    match read_metadata_args(d, 0) {
        Some((a, q)) => if q == d.len() {
            Some(a)
        } else {
            None
        },
        None => None,
    }
}

/// Decodes a leaf-schema event that fills `d` exactly.
pub fn decode_leaf_schema_event(d: &[u8]) -> (r: Option<LeafSchemaEvent>)
    ensures
        match r {
            Some(e) => spec_leaf_schema_event(d@) == Some(e@),
            None => spec_leaf_schema_event(d@) is None,
        },
{
    if d.len() != LEAF_SCHEMA_EVENT_LEN || d[0] > 1 || d[1] != 0 || d[2] != 0 {
        return None;
    }
    let event_type = if d[0] == 0 {
        BubblegumEventType::Uninitialized
    } else {
        BubblegumEventType::LeafSchemaEvent
    };
    let (id, _) = read_pubkey(d, 3).unwrap();
    let (owner, _) = read_pubkey(d, 35).unwrap();
    let (delegate, _) = read_pubkey(d, 67).unwrap();
    let (nonce, _) = read_u64(d, 99).unwrap();
    let (data_hash, _) = read_bytes32(d, 107).unwrap();
    let (creator_hash, _) = read_bytes32(d, 139).unwrap();
    let (leaf_hash, _) = read_bytes32(d, 171).unwrap();
    let schema = LeafSchema::V1 { id, owner, delegate, nonce, data_hash, creator_hash };
    Some(LeafSchemaEvent { event_type, version: Version::V1, schema, leaf_hash })
}

} // verus!
