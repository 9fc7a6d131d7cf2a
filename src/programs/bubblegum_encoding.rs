//! The encodings of the compressed-state records, and the proof that the
//! decoders read back what was encoded.

use crate::error::BlockbusterErrorView;
use crate::instruction::{CompiledInstruction, IxPair};
use crate::programs::bubblegum::{
    application_event, decoded, event_step, events_upto, instruction_kind, logged_event_effect,
    noop_program_bytes, payload_of, spec_compression_event, spec_path_nodes, PathNodeView,
    BubblegumInstructionView, ChangeLogEventV1View, CompressionEventView, EventsView,
    InstructionName, PayloadView, MINT_V1_DISCRIMINATOR,
};
use crate::pubkey::Pubkey;
use crate::programs::bubblegum_state::{
    spec_leaf_schema_event, BubblegumEventType, LeafSchemaEventView, LeafSchemaView,
    spec_creator, spec_creator_list, spec_creators, spec_metadata_args, spec_metadata_args_exact,
    spec_opt_collection, spec_opt_token_standard, spec_opt_u8, spec_opt_uses,
    spec_token_program_version, token_standard_of, use_method_of, CollectionView, CreatorView,
    MetadataArgsView, TokenProgramVersion, TokenStandard, UseMethod, Uses,
};
use crate::wire::{le2, le4, le8, spec_bool, spec_string, spec_u16, spec_u32, spec_u64, spec_u8};
use vstd::arithmetic::div_mod::lemma_fundamental_div_mod;
use vstd::prelude::*;
use vstd::utf8::{encode_utf8, encode_utf8_decode_utf8, encode_utf8_valid_utf8};

verus! {

/// `n` bytes holding `v` least significant first.
pub open spec fn le_bytes(v: nat, n: nat) -> Seq<u8>
    decreases n,
{
    if n == 0 {
        Seq::empty()
    } else {
        seq![(v % 256) as u8] + le_bytes(v / 256, (n - 1) as nat)
    }
}

pub open spec fn pow256(n: nat) -> nat
    decreases n,
{
    if n == 0 {
        1
    } else {
        256 * pow256((n - 1) as nat)
    }
}

/// The value of `n` bytes of `s` from `p`, least significant first.
pub open spec fn le_value(s: Seq<u8>, p: int, n: nat) -> int
    decreases n,
{
    if n == 0 {
        0
    } else {
        s[p] + 256 * le_value(s, p + 1, (n - 1) as nat)
    }
}

proof fn lemma_pow256_values()
    ensures
        pow256(2) == 0x1_0000,
        pow256(4) == 0x1_0000_0000,
        pow256(8) == 0x1_0000_0000_0000_0000,
{
    assert(pow256(0) == 1);
    assert(pow256(1) == 0x100);
    assert(pow256(2) == 0x1_0000);
    assert(pow256(3) == 0x100_0000);
    assert(pow256(4) == 0x1_0000_0000);
    assert(pow256(5) == 0x100_0000_0000);
    assert(pow256(6) == 0x1_0000_0000_0000);
    assert(pow256(7) == 0x100_0000_0000_0000);
    assert(pow256(8) == 0x1_0000_0000_0000_0000);
}

proof fn lemma_le_bytes_len(v: nat, n: nat)
    ensures
        le_bytes(v, n).len() == n,
    decreases n,
{
    if n > 0 {
        lemma_le_bytes_len(v / 256, (n - 1) as nat);
    }
}

proof fn lemma_le_value_at(s: Seq<u8>, p: int, v: nat, n: nat)
    requires
        0 <= p,
        p + n <= s.len(),
        s.subrange(p, p + n) == le_bytes(v, n),
        v < pow256(n),
    ensures
        le_value(s, p, n) == v,
    decreases n,
{
    if n > 0 {
        lemma_le_bytes_len(v / 256, (n - 1) as nat);
        let w = v / 256;
        assert(w < pow256((n - 1) as nat)) by (nonlinear_arith)
            requires
                v < 256 * pow256((n - 1) as nat),
                w == v / 256,
        ;
        assert(s[p] == le_bytes(v, n)[0]);
        assert(s.subrange(p + 1, p + n) =~= le_bytes(v, n).subrange(1, n as int));
        assert(le_bytes(v, n).subrange(1, n as int) =~= le_bytes(w, (n - 1) as nat));
        lemma_le_value_at(s, p + 1, w, (n - 1) as nat);
        lemma_fundamental_div_mod(v as int, 256);
        assert((v % 256) as u8 == v % 256);
    }
}

pub open spec fn u16_bytes(v: u16) -> Seq<u8> {
    le_bytes(v as nat, 2)
}

pub open spec fn u32_bytes(v: u32) -> Seq<u8> {
    le_bytes(v as nat, 4)
}

pub open spec fn u64_bytes(v: u64) -> Seq<u8> {
    le_bytes(v as nat, 8)
}

proof fn lemma_u16_at(s: Seq<u8>, p: int, v: u16)
    requires
        0 <= p,
        p + 2 <= s.len(),
        s.subrange(p, p + 2) == u16_bytes(v),
    ensures
        spec_u16(s, p) == Some((v, p + 2)),
{
    lemma_pow256_values();
    lemma_le_value_at(s, p, v as nat, 2);
    reveal_with_fuel(le_value, 9);
    assert(le2(s, p) == le_value(s, p, 2));
}

proof fn lemma_u32_at(s: Seq<u8>, p: int, v: u32)
    requires
        0 <= p,
        p + 4 <= s.len(),
        s.subrange(p, p + 4) == u32_bytes(v),
    ensures
        spec_u32(s, p) == Some((v, p + 4)),
{
    lemma_pow256_values();
    lemma_le_value_at(s, p, v as nat, 4);
    reveal_with_fuel(le_value, 9);
    assert(le4(s, p) == le_value(s, p, 4));
}

proof fn lemma_u64_at(s: Seq<u8>, p: int, v: u64)
    requires
        0 <= p,
        p + 8 <= s.len(),
        s.subrange(p, p + 8) == u64_bytes(v),
    ensures
        spec_u64(s, p) == Some((v, p + 8)),
{
    lemma_pow256_values();
    lemma_le_value_at(s, p, v as nat, 8);
    reveal_with_fuel(le_value, 9);
    assert(le8(s, p) == le_value(s, p, 8));
}

pub open spec fn bool_byte(b: bool) -> u8 {
    if b {
        1
    } else {
        0
    }
}

/// A string: its UTF-8 length, then its UTF-8 bytes.
pub open spec fn string_bytes(cs: Seq<char>) -> Seq<u8> {
    u32_bytes(encode_utf8(cs).len() as u32) + encode_utf8(cs)
}

pub open spec fn opt_u8_bytes(o: Option<u8>) -> Seq<u8> {
    match o {
        Some(v) => seq![1u8, v],
        None => seq![0u8],
    }
}

pub open spec fn token_standard_tag(t: TokenStandard) -> u8 {
    match t {
        TokenStandard::NonFungible => 0,
        TokenStandard::FungibleAsset => 1,
        TokenStandard::Fungible => 2,
        TokenStandard::NonFungibleEdition => 3,
    }
}

pub open spec fn opt_token_standard_bytes(o: Option<TokenStandard>) -> Seq<u8> {
    match o {
        Some(t) => seq![1u8, token_standard_tag(t)],
        None => seq![0u8],
    }
}

pub open spec fn opt_collection_bytes(o: Option<CollectionView>) -> Seq<u8> {
    match o {
        Some(c) => seq![1u8, bool_byte(c.verified)] + c.key,
        None => seq![0u8],
    }
}

pub open spec fn use_method_tag(m: UseMethod) -> u8 {
    match m {
        UseMethod::Burn => 0,
        UseMethod::Multiple => 1,
        UseMethod::Single => 2,
    }
}

pub open spec fn opt_uses_bytes(o: Option<Uses>) -> Seq<u8> {
    match o {
        Some(u) => seq![1u8, use_method_tag(u.use_method)] + u64_bytes(u.remaining) + u64_bytes(
            u.total,
        ),
        None => seq![0u8],
    }
}

pub open spec fn token_program_version_tag(v: TokenProgramVersion) -> u8 {
    match v {
        TokenProgramVersion::Original => 0,
        TokenProgramVersion::Token2022 => 1,
    }
}

pub open spec fn creator_bytes(c: CreatorView) -> Seq<u8> {
    c.address + seq![bool_byte(c.verified), c.share]
}

/// The first `n` creators of `cs`, one after another.
pub open spec fn creators_bytes(cs: Seq<CreatorView>, n: nat) -> Seq<u8>
    decreases n,
{
    if n == 0 {
        Seq::empty()
    } else {
        creators_bytes(cs, (n - 1) as nat) + creator_bytes(cs[n - 1])
    }
}

pub open spec fn creator_list_bytes(cs: Seq<CreatorView>) -> Seq<u8> {
    u32_bytes(cs.len() as u32) + creators_bytes(cs, cs.len())
}

/// The encoding of metadata arguments, field by field.
pub open spec fn metadata_args_bytes(a: MetadataArgsView) -> Seq<u8> {
    string_bytes(a.name) + (string_bytes(a.symbol) + (string_bytes(a.uri) + (u16_bytes(
        a.seller_fee_basis_points,
    ) + flags_and_options_bytes(a))))
}

/// Metadata arguments that an encoding can hold: every string's UTF-8 and the
/// creator list are short enough for their four-byte counts, and every key is
/// 32 bytes.
pub open spec fn is_encodable(a: MetadataArgsView) -> bool {
    &&& encode_utf8(a.name).len() < 0x1_0000_0000
    &&& encode_utf8(a.symbol).len() < 0x1_0000_0000
    &&& encode_utf8(a.uri).len() < 0x1_0000_0000
    &&& a.creators.len() < 0x1_0000_0000
    &&& forall|i: int| 0 <= i < a.creators.len() ==> (#[trigger] a.creators[i]).address.len() == 32
    &&& a.collection matches Some(c) ==> c.key.len() == 32
}

/// `s` holds `a` then `b` from `p` on.
proof fn lemma_split(s: Seq<u8>, p: int, a: Seq<u8>, b: Seq<u8>)
    requires
        0 <= p,
        p + a.len() + b.len() <= s.len(),
        s.subrange(p, p + a.len() + b.len()) == a + b,
    ensures
        s.subrange(p, p + a.len()) == a,
        s.subrange(p + a.len(), p + a.len() + b.len()) == b,
{
    assert(s.subrange(p, p + a.len()) =~= (a + b).subrange(0, a.len() as int));
    assert(s.subrange(p, p + a.len()) =~= a);
    assert forall|i: int| 0 <= i < b.len() implies s.subrange(
        p + a.len(),
        p + a.len() + b.len(),
    )[i] == b[i] by {
        assert(s.subrange(p, p + a.len() + b.len())[a.len() + i] == (a + b)[a.len() + i]);
        assert(s.subrange(p, p + a.len() + b.len())[a.len() + i] == s[p + a.len() + i]);
        assert((a + b)[a.len() + i] == b[i]);
    }
    assert(s.subrange(p + a.len(), p + a.len() + b.len()) =~= b);
}

proof fn lemma_string_at(s: Seq<u8>, p: int, cs: Seq<char>)
    requires
        0 <= p,
        p + string_bytes(cs).len() <= s.len(),
        s.subrange(p, p + string_bytes(cs).len()) == string_bytes(cs),
        encode_utf8(cs).len() < 0x1_0000_0000,
    ensures
        spec_string(s, p) == Some((cs, p + string_bytes(cs).len())),
{
    let n = encode_utf8(cs).len() as u32;
    lemma_le_bytes_len(n as nat, 4);
    lemma_split(s, p, u32_bytes(n), encode_utf8(cs));
    lemma_u32_at(s, p, n);
    encode_utf8_valid_utf8(cs);
    encode_utf8_decode_utf8(cs);
}

proof fn lemma_creators_at(s: Seq<u8>, p: int, cs: Seq<CreatorView>, n: nat)
    requires
        0 <= p,
        n <= cs.len(),
        forall|i: int| 0 <= i < cs.len() ==> (#[trigger] cs[i]).address.len() == 32,
        p + creators_bytes(cs, n).len() <= s.len(),
        s.subrange(p, p + creators_bytes(cs, n).len()) == creators_bytes(cs, n),
    ensures
        creators_bytes(cs, n).len() == 34 * n,
        spec_creators(s, p, n) == Some((cs.subrange(0, n as int), p + 34 * n)),
    decreases n,
{
    if n == 0 {
        assert(cs.subrange(0, 0) =~= Seq::<CreatorView>::empty());
    } else {
        let m = (n - 1) as nat;
        let c = cs[m as int];
        lemma_split(s, p, creators_bytes(cs, m), creator_bytes(c));
        lemma_creators_at(s, p, cs, m);
        let q = p + 34 * m;
        assert(s.subrange(q, q + 34) == creator_bytes(c));
        assert(s[q + 32] == creator_bytes(c)[32]);
        assert(s[q + 33] == creator_bytes(c)[33]);
        assert(s.subrange(q, q + 32) =~= creator_bytes(c).subrange(0, 32));
        assert(creator_bytes(c).subrange(0, 32) =~= c.address);
        assert(spec_creator(s, q) == Some((c, q + 34)));
        assert(cs.subrange(0, m as int).push(c) =~= cs.subrange(0, n as int));
    }
}

proof fn lemma_opt_u8_at(s: Seq<u8>, p: int, o: Option<u8>)
    requires
        0 <= p,
        p + opt_u8_bytes(o).len() <= s.len(),
        s.subrange(p, p + opt_u8_bytes(o).len()) == opt_u8_bytes(o),
    ensures
        spec_opt_u8(s, p) == Some((o, p + opt_u8_bytes(o).len())),
{
    let b = opt_u8_bytes(o);
    assert(s[p] == s.subrange(p, p + b.len())[0]);
    if o is Some {
        assert(s[p + 1] == s.subrange(p, p + b.len())[1]);
    }
}

proof fn lemma_opt_token_standard_at(s: Seq<u8>, p: int, o: Option<TokenStandard>)
    requires
        0 <= p,
        p + opt_token_standard_bytes(o).len() <= s.len(),
        s.subrange(p, p + opt_token_standard_bytes(o).len()) == opt_token_standard_bytes(o),
    ensures
        spec_opt_token_standard(s, p) == Some((o, p + opt_token_standard_bytes(o).len())),
{
    let b = opt_token_standard_bytes(o);
    assert(s[p] == s.subrange(p, p + b.len())[0]);
    if let Some(t) = o {
        assert(s[p + 1] == s.subrange(p, p + b.len())[1]);
        assert(token_standard_of(token_standard_tag(t)) == t);
    }
}

proof fn lemma_opt_collection_at(s: Seq<u8>, p: int, o: Option<CollectionView>)
    requires
        0 <= p,
        o matches Some(c) ==> c.key.len() == 32,
        p + opt_collection_bytes(o).len() <= s.len(),
        s.subrange(p, p + opt_collection_bytes(o).len()) == opt_collection_bytes(o),
    ensures
        spec_opt_collection(s, p) == Some((o, p + opt_collection_bytes(o).len())),
{
    let b = opt_collection_bytes(o);
    assert(s[p] == s.subrange(p, p + b.len())[0]);
    if let Some(c) = o {
        assert(s[p + 1] == s.subrange(p, p + b.len())[1]);
        assert(s.subrange(p + 2, p + 34) =~= b.subrange(2, 34));
        assert(b.subrange(2, 34) =~= c.key);
    }
}

proof fn lemma_opt_uses_at(s: Seq<u8>, p: int, o: Option<Uses>)
    requires
        0 <= p,
        p + opt_uses_bytes(o).len() <= s.len(),
        s.subrange(p, p + opt_uses_bytes(o).len()) == opt_uses_bytes(o),
    ensures
        spec_opt_uses(s, p) == Some((o, p + opt_uses_bytes(o).len())),
{
    let b = opt_uses_bytes(o);
    assert(s[p] == s.subrange(p, p + b.len())[0]);
    if let Some(u) = o {
        lemma_le_bytes_len(u.remaining as nat, 8);
        lemma_le_bytes_len(u.total as nat, 8);
        assert(s[p + 1] == s.subrange(p, p + b.len())[1]);
        assert(use_method_of(use_method_tag(u.use_method)) == u.use_method);
        assert(s.subrange(p + 2, p + 10) =~= b.subrange(2, 10));
        assert(b.subrange(2, 10) =~= u64_bytes(u.remaining));
        assert(s.subrange(p + 10, p + 18) =~= b.subrange(10, 18));
        assert(b.subrange(10, 18) =~= u64_bytes(u.total));
        lemma_u64_at(s, p + 2, u.remaining);
        lemma_u64_at(s, p + 10, u.total);
    }
}

proof fn lemma_byte_at(s: Seq<u8>, p: int, v: u8)
    requires
        0 <= p,
        p + 1 <= s.len(),
        s.subrange(p, p + 1) == seq![v],
    ensures
        s[p] == v,
        spec_u8(s, p) == Some((v, p + 1)),
        v <= 1 ==> spec_bool(s, p) == Some((v == 1, p + 1)),
{
    assert(s[p] == s.subrange(p, p + 1)[0]);
}

proof fn lemma_creator_list_at(s: Seq<u8>, p: int, cs: Seq<CreatorView>)
    requires
        0 <= p,
        cs.len() < 0x1_0000_0000,
        forall|i: int| 0 <= i < cs.len() ==> (#[trigger] cs[i]).address.len() == 32,
        p + creator_list_bytes(cs).len() <= s.len(),
        s.subrange(p, p + creator_list_bytes(cs).len()) == creator_list_bytes(cs),
    ensures
        spec_creator_list(s, p) == Some((cs, p + creator_list_bytes(cs).len())),
{
    let n = cs.len() as u32;
    lemma_le_bytes_len(n as nat, 4);
    lemma_split(s, p, u32_bytes(n), creators_bytes(cs, cs.len()));
    lemma_u32_at(s, p, n);
    lemma_creators_at(s, p + 4, cs, cs.len());
    assert(cs.subrange(0, cs.len() as int) =~= cs);
}

/// The fields after the three strings and the royalty.
pub open spec fn flags_and_options_bytes(a: MetadataArgsView) -> Seq<u8> {
    seq![bool_byte(a.primary_sale_happened)] + (seq![bool_byte(a.is_mutable)] + (opt_u8_bytes(
        a.edition_nonce,
    ) + (opt_token_standard_bytes(a.token_standard) + (opt_collection_bytes(a.collection) + (
    opt_uses_bytes(a.uses) + (seq![token_program_version_tag(a.token_program_version)]
        + creator_list_bytes(a.creators)))))))
}

proof fn lemma_tail_at(s: Seq<u8>, p: int, a: MetadataArgsView)
    requires
        is_encodable(a),
        0 <= p,
        p + flags_and_options_bytes(a).len() == s.len(),
        s.subrange(p, s.len() as int) == flags_and_options_bytes(a),
    ensures
        ({
            let at1 = p + 1;
            let at2 = at1 + 1;
            let at3 = at2 + opt_u8_bytes(a.edition_nonce).len();
            let at4 = at3 + opt_token_standard_bytes(a.token_standard).len();
            let at5 = at4 + opt_collection_bytes(a.collection).len();
            let at6 = at5 + opt_uses_bytes(a.uses).len();
            &&& spec_bool(s, p) == Some((a.primary_sale_happened, at1))
            &&& spec_bool(s, at1) == Some((a.is_mutable, at2))
            &&& spec_opt_u8(s, at2) == Some((a.edition_nonce, at3))
            &&& spec_opt_token_standard(s, at3) == Some((a.token_standard, at4))
            &&& spec_opt_collection(s, at4) == Some((a.collection, at5))
            &&& spec_opt_uses(s, at5) == Some((a.uses, at6))
            &&& spec_token_program_version(s, at6) == Some((a.token_program_version, at6 + 1))
            &&& spec_creator_list(s, at6 + 1) == Some((a.creators, s.len() as int))
        }),
{
    let b6 = opt_u8_bytes(a.edition_nonce);
    let b7 = opt_token_standard_bytes(a.token_standard);
    let b8 = opt_collection_bytes(a.collection);
    let b9 = opt_uses_bytes(a.uses);
    let b10 = seq![token_program_version_tag(a.token_program_version)];
    let b11 = creator_list_bytes(a.creators);
    let r10 = b10 + b11;
    let r9 = b9 + r10;
    let r8 = b8 + r9;
    let r7 = b7 + r8;
    let r6 = b6 + r7;
    let r5 = seq![bool_byte(a.is_mutable)] + r6;
    lemma_split(s, p, seq![bool_byte(a.primary_sale_happened)], r5);
    lemma_byte_at(s, p, bool_byte(a.primary_sale_happened));
    let at1 = p + 1;
    lemma_split(s, at1, seq![bool_byte(a.is_mutable)], r6);
    lemma_byte_at(s, at1, bool_byte(a.is_mutable));
    let at2 = at1 + 1;
    lemma_split(s, at2, b6, r7);
    lemma_opt_u8_at(s, at2, a.edition_nonce);
    let at3 = at2 + b6.len();
    lemma_split(s, at3, b7, r8);
    lemma_opt_token_standard_at(s, at3, a.token_standard);
    let at4 = at3 + b7.len();
    lemma_split(s, at4, b8, r9);
    lemma_opt_collection_at(s, at4, a.collection);
    let at5 = at4 + b8.len();
    lemma_split(s, at5, b9, r10);
    lemma_opt_uses_at(s, at5, a.uses);
    let at6 = at5 + b9.len();
    lemma_split(s, at6, b10, b11);
    lemma_byte_at(s, at6, token_program_version_tag(a.token_program_version));
    lemma_creator_list_at(s, at6 + 1, a.creators);
}

proof fn lemma_metadata_args_at(s: Seq<u8>, a: MetadataArgsView)
    requires
        is_encodable(a),
        s == metadata_args_bytes(a),
    ensures
        spec_metadata_args(s, 0) == Some((a, s.len() as int)),
{
    let b0 = string_bytes(a.name);
    let b1 = string_bytes(a.symbol);
    let b2 = string_bytes(a.uri);
    let b3 = u16_bytes(a.seller_fee_basis_points);
    let t = flags_and_options_bytes(a);
    let r3 = b3 + t;
    let r2 = b2 + r3;
    let r1 = b1 + r2;
    assert(s.subrange(0, s.len() as int) =~= s);
    lemma_split(s, 0, b0, r1);
    lemma_string_at(s, 0, a.name);
    let at1 = b0.len() as int;
    lemma_split(s, at1, b1, r2);
    lemma_string_at(s, at1, a.symbol);
    let at2 = at1 + b1.len();
    lemma_split(s, at2, b2, r3);
    lemma_string_at(s, at2, a.uri);
    let at3 = at2 + b2.len();
    lemma_le_bytes_len(a.seller_fee_basis_points as nat, 2);
    lemma_split(s, at3, b3, t);
    lemma_u16_at(s, at3, a.seller_fee_basis_points);
    lemma_tail_at(s, at3 + 2, a);
}

/// Encoded metadata arguments decode to themselves.
pub proof fn lemma_metadata_args_round_trip(a: MetadataArgsView)
    requires
        is_encodable(a),
    ensures
        spec_metadata_args_exact(metadata_args_bytes(a)) == Some(a),
{
    lemma_metadata_args_at(metadata_args_bytes(a), a);
}

/// The encoding of a leaf-schema event.
pub open spec fn leaf_schema_event_bytes(e: LeafSchemaEventView) -> Seq<u8> {
    let LeafSchemaView::V1 { id, owner, delegate, nonce, data_hash, creator_hash } = e.schema;
    seq![
        if e.event_type == BubblegumEventType::Uninitialized {
            0u8
        } else {
            1u8
        },
        0u8,
        0u8,
    ] + id + owner + delegate + u64_bytes(nonce) + data_hash + creator_hash + e.leaf_hash
}

/// A leaf-schema event whose keys and hashes are all 32 bytes.
pub open spec fn is_leaf_event_encodable(e: LeafSchemaEventView) -> bool {
    let LeafSchemaView::V1 { id, owner, delegate, nonce, data_hash, creator_hash } = e.schema;
    &&& id.len() == 32
    &&& owner.len() == 32
    &&& delegate.len() == 32
    &&& data_hash.len() == 32
    &&& creator_hash.len() == 32
    &&& e.leaf_hash.len() == 32
}

/// Encoded leaf-schema events decode to themselves.
pub proof fn lemma_leaf_schema_event_round_trip(e: LeafSchemaEventView)
    requires
        is_leaf_event_encodable(e),
    ensures
        spec_leaf_schema_event(leaf_schema_event_bytes(e)) == Some(e),
{
    let LeafSchemaView::V1 { id, owner, delegate, nonce, data_hash, creator_hash } = e.schema;
    let s = leaf_schema_event_bytes(e);
    lemma_le_bytes_len(nonce as nat, 8);
    assert(s.len() == 203);
    assert(s.subrange(3, 35) =~= id);
    assert(s.subrange(35, 67) =~= owner);
    assert(s.subrange(67, 99) =~= delegate);
    assert(s.subrange(99, 107) =~= u64_bytes(nonce));
    lemma_u64_at(s, 99, nonce);
    assert(s.subrange(107, 139) =~= data_hash);
    assert(s.subrange(139, 171) =~= creator_hash);
    assert(s.subrange(171, 203) =~= e.leaf_hash);
}

/// Round trip through the whole decoder: a mint instruction whose data is the
/// mint discriminator followed by encoded metadata arguments, with an encoded
/// change-log event and an encoded leaf-schema event logged by its inner
/// instructions, decodes to a mint with those very arguments, that tree
/// update and that leaf update.
pub proof fn lemma_mint_round_trip<'a>(
    ix: &'a CompiledInstruction,
    inner: Seq<IxPair<'a>>,
    keys: Seq<Pubkey>,
    a: MetadataArgsView,
    c: ChangeLogEventV1View,
    e: LeafSchemaEventView,
)
    requires
        is_encodable(a),
        is_leaf_event_encodable(e),
        e.event_type == BubblegumEventType::LeafSchemaEvent,
        ix.data matches Some(d) && d@ == u64_bytes(MINT_V1_DISCRIMINATOR) + metadata_args_bytes(a),
        inner.len() == 2,
        inner[0].0@ == noop_program_bytes(),
        is_change_log_encodable(c),
        inner[0].1.data matches Some(x) && x@ == change_log_event_bytes(c),
        inner[1].0@ == noop_program_bytes(),
        inner[1].1.data matches Some(y) && y@ == application_data_bytes(leaf_schema_event_bytes(e)),
    ensures
        decoded(Some(ix), Some(inner), keys) == Ok::<BubblegumInstructionView, BlockbusterErrorView>(
            BubblegumInstructionView {
                instruction: InstructionName::MintV1,
                tree_update: Some(c),
                leaf_update: Some(e),
                payload: Some(PayloadView::MintV1 { args: a }),
            },
        ),
{
    let d = ix.data->Some_0@;
    lemma_mint_payload(d, keys, a);
    lemma_mint_events(inner, c, e);
}

proof fn lemma_mint_payload(d: Seq<u8>, keys: Seq<Pubkey>, a: MetadataArgsView)
    requires
        is_encodable(a),
        d == u64_bytes(MINT_V1_DISCRIMINATOR) + metadata_args_bytes(a),
    ensures
        d.len() > 8,
        instruction_kind(d) == InstructionName::MintV1,
        payload_of(InstructionName::MintV1, d, keys) == Ok::<Option<PayloadView>, BlockbusterErrorView>(
            Some(PayloadView::MintV1 { args: a }),
        ),
{
    let m = metadata_args_bytes(a);
    lemma_le_bytes_len(MINT_V1_DISCRIMINATOR as nat, 8);
    lemma_string_len_positive(a.name);
    assert(d.subrange(0, 8) =~= u64_bytes(MINT_V1_DISCRIMINATOR));
    lemma_u64_at(d, 0, MINT_V1_DISCRIMINATOR);
    assert(d.subrange(8, d.len() as int) =~= m);
    lemma_metadata_args_round_trip(a);
}

proof fn lemma_mint_events<'a>(inner: Seq<IxPair<'a>>, c: ChangeLogEventV1View, e: LeafSchemaEventView)
    requires
        is_leaf_event_encodable(e),
        e.event_type == BubblegumEventType::LeafSchemaEvent,
        inner.len() == 2,
        inner[0].0@ == noop_program_bytes(),
        is_change_log_encodable(c),
        inner[0].1.data matches Some(x) && x@ == change_log_event_bytes(c),
        inner[1].0@ == noop_program_bytes(),
        inner[1].1.data matches Some(y) && y@ == application_data_bytes(leaf_schema_event_bytes(e)),
    ensures
        events_upto(inner, 2) == Ok::<EventsView, BlockbusterErrorView>((Some(c), Some(e))),
{
    lemma_leaf_schema_event_round_trip(e);
    let app = leaf_schema_event_bytes(e);
    lemma_le_bytes_len(e.schema->V1_nonce as nat, 8);
    assert(app.len() == 203);
    lemma_change_log_round_trip(c);
    lemma_application_data_round_trip(app);
    assert(app[0] == 1);
    assert(events_upto(inner, 0) == Ok::<EventsView, BlockbusterErrorView>((None, None)));
    assert(event_step((None, None), inner[0]) == Ok::<EventsView, BlockbusterErrorView>((Some(c), None)));
    assert(events_upto(inner, 1) == Ok::<EventsView, BlockbusterErrorView>((Some(c), None)));
    assert(application_event((Some(c), None), app) == Ok::<EventsView, BlockbusterErrorView>((Some(c), Some(e))));
}

proof fn lemma_string_len_positive(cs: Seq<char>)
    ensures
        string_bytes(cs).len() >= 4,
{
    lemma_le_bytes_len(encode_utf8(cs).len() as nat, 4);
}

/// `n` path nodes, each its node's bytes then its index.
pub open spec fn path_nodes_bytes(ns: Seq<PathNodeView>, n: nat) -> Seq<u8>
    decreases n,
{
    if n == 0 {
        Seq::empty()
    } else {
        path_nodes_bytes(ns, (n - 1) as nat) + (ns[n - 1].node + u32_bytes(ns[n - 1].index))
    }
}

/// The encoding of a logged change-log event.
pub open spec fn change_log_event_bytes(c: ChangeLogEventV1View) -> Seq<u8> {
    seq![0u8, 0u8] + c.id + u32_bytes(c.path.len() as u32) + path_nodes_bytes(c.path, c.path.len())
        + u64_bytes(c.seq) + u32_bytes(c.index)
}

/// The encoding of logged application data.
pub open spec fn application_data_bytes(app: Seq<u8>) -> Seq<u8> {
    seq![1u8, 0u8] + u32_bytes(app.len() as u32) + app
}

/// A change log whose keys and nodes are 32 bytes and whose path fits its
/// four-byte count.
pub open spec fn is_change_log_encodable(c: ChangeLogEventV1View) -> bool {
    &&& c.id.len() == 32
    &&& c.path.len() < 0x1_0000_0000
    &&& forall|i: int| 0 <= i < c.path.len() ==> (#[trigger] c.path[i]).node.len() == 32
}

proof fn lemma_path_nodes_at(s: Seq<u8>, p: int, ns: Seq<PathNodeView>, n: nat)
    requires
        0 <= p,
        n <= ns.len(),
        forall|i: int| 0 <= i < ns.len() ==> (#[trigger] ns[i]).node.len() == 32,
        p + path_nodes_bytes(ns, n).len() <= s.len(),
        s.subrange(p, p + path_nodes_bytes(ns, n).len()) == path_nodes_bytes(ns, n),
    ensures
        path_nodes_bytes(ns, n).len() == 36 * n,
        spec_path_nodes(s, p, n) == Some((ns.subrange(0, n as int), p + 36 * n)),
    decreases n,
{
    if n == 0 {
        assert(ns.subrange(0, 0) =~= Seq::<PathNodeView>::empty());
    } else {
        let m = (n - 1) as nat;
        let node = ns[m as int];
        lemma_le_bytes_len(node.index as nat, 4);
        let b = node.node + u32_bytes(node.index);
        lemma_split(s, p, path_nodes_bytes(ns, m), b);
        lemma_path_nodes_at(s, p, ns, m);
        let q = p + 36 * m;
        lemma_split(s, q, node.node, u32_bytes(node.index));
        lemma_u32_at(s, q + 32, node.index);
        assert(ns.subrange(0, m as int).push(
            PathNodeView { node: s.subrange(q, q + 32), index: node.index },
        ) =~= ns.subrange(0, n as int));
    }
}

/// Encoded change-log events decode to themselves.
#[verifier::rlimit(60)]
pub proof fn lemma_change_log_round_trip(c: ChangeLogEventV1View)
    requires
        is_change_log_encodable(c),
    ensures
        spec_compression_event(change_log_event_bytes(c)) == Some(CompressionEventView::ChangeLog(c)),
{
    let s = change_log_event_bytes(c);
    let n = c.path.len() as u32;
    let nodes = path_nodes_bytes(c.path, c.path.len());
    lemma_le_bytes_len(n as nat, 4);
    lemma_le_bytes_len(c.seq as nat, 8);
    lemma_le_bytes_len(c.index as nat, 4);
    let head = seq![0u8, 0u8] + c.id + u32_bytes(n);
    let tail = u64_bytes(c.seq) + u32_bytes(c.index);
    assert(s =~= head + (nodes + tail));
    assert(s.subrange(0, s.len() as int) =~= s);
    lemma_split(s, 0, head, nodes + tail);
    lemma_split(s, 38, nodes, tail);
    assert(s.subrange(34, 38) =~= u32_bytes(n));
    lemma_u32_at(s, 34, n);
    lemma_path_nodes_at(s, 38, c.path, c.path.len());
    assert(c.path.subrange(0, c.path.len() as int) =~= c.path);
    let e = (38 + 36 * c.path.len()) as int;
    lemma_split(s, e, u64_bytes(c.seq), u32_bytes(c.index));
    lemma_u64_at(s, e, c.seq);
    lemma_u32_at(s, e + 8, c.index);
    assert(s.subrange(2, 34) =~= c.id);
}

/// Encoded application data decodes to itself.
pub proof fn lemma_application_data_round_trip(app: Seq<u8>)
    requires
        app.len() < 0x1_0000_0000,
    ensures
        spec_compression_event(application_data_bytes(app)) == Some(
            CompressionEventView::ApplicationData(app),
        ),
{
    let s = application_data_bytes(app);
    let n = app.len() as u32;
    lemma_le_bytes_len(n as nat, 4);
    assert(s.subrange(2, 6) =~= u32_bytes(n));
    lemma_u32_at(s, 2, n);
    assert(s.subrange(6, 6 + n) =~= app);
}

} // verus!
