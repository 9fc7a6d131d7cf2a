//! The older tree program, whose instructions are read only for the tree
//! update that its logging inner instructions carry.

use crate::error::{layout_error, layout_failure, BlockbusterError, BlockbusterErrorView};
use crate::instruction::{opt_view, InstructionBundle, IxPair};
use crate::programs::bubblegum::{
    spec_compression_event, decode_compression_event, noop_program_bytes, noop_program_id,
    ChangeLogEventV1, ChangeLogEventV1View, CompressionEvent, CompressionEventView,
};
use crate::pubkey::Pubkey;
use crate::wire::opt_v;
use vstd::prelude::*;

verus! {

/// A decoded tree-program instruction.
#[derive(Debug)]
pub struct CompressionInstruction {
    pub tree_update: Option<ChangeLogEventV1>,
}

/// The first tree update among the inner instructions from `k` on: the
/// logging program's data is decoded in turn; a change log is the answer,
/// application data is passed over, and data that decodes as no event fails
/// the instruction. Without a tree update the instruction cannot be read.
pub open spec fn first_change_log<'a>(inner: Seq<IxPair<'a>>, k: int) -> Result<
    ChangeLogEventV1View,
    BlockbusterErrorView,
>
    decreases inner.len() - k,
{
    if k < 0 || k >= inner.len() {
        Err(BlockbusterErrorView::InstructionParsingError)
    } else if inner[k].0@ == noop_program_bytes() && inner[k].1.data is Some {
        match spec_compression_event(inner[k].1.data->Some_0@) {
            None => Err(layout_error()),
            Some(CompressionEventView::ChangeLog(c)) => Ok(c),
            Some(CompressionEventView::ApplicationData(_)) => first_change_log(inner, k + 1),
        }
    } else {
        first_change_log(inner, k + 1)
    }
}

/// The decoding of a tree-program instruction: the first tree update among
/// its inner instructions.
pub open spec fn tree_instruction<'a>(inner: Option<Seq<IxPair<'a>>>) -> Result<
    Option<ChangeLogEventV1View>,
    BlockbusterErrorView,
> {
    match inner {
        Some(l) => match first_change_log(l, 0) {
            Ok(c) => Ok(Some(c)),
            Err(e) => Err(e),
        },
        None => Err(BlockbusterErrorView::InstructionParsingError),
    }
}

/// The tree program's address, GRoLLzvxpxxu2PGNJMMeZPyMxjAUH9pKqxGXV9DGiceU.
pub open spec fn gummyroll_program_bytes() -> Seq<u8> {
    seq![
        229u8, 57, 161, 255, 109, 188, 255, 232, 151, 176, 33, 237, 178, 26, 57, 40,
        164, 198, 206, 2, 28, 126, 204, 13, 216, 63, 117, 39, 32, 140, 164, 65,
    ]
}

/// The tree program's address.
pub fn gummy_roll_program_id() -> (r: Pubkey)
    ensures
        r@ == gummyroll_program_bytes(),
{
    let r = Pubkey([
        229, 57, 161, 255, 109, 188, 255, 232, 151, 176, 33, 237, 178, 26, 57, 40,
        164, 198, 206, 2, 28, 126, 204, 13, 216, 63, 117, 39, 32, 140, 164, 65,
    ]);
    assert(r@ =~= gummyroll_program_bytes());
    r
}

/// The decoder of the tree program.
pub struct GummyrollParser;

impl GummyrollParser {
    /// The program this decoder reads.
    pub fn key(&self) -> (r: Pubkey)
        ensures
            r@ == gummyroll_program_bytes(),
    {
        gummy_roll_program_id()
    }

    /// Whether `key` is the program this decoder reads.
    pub fn key_match(&self, key: &Pubkey) -> (r: bool)
        ensures
            r == (key@ == gummyroll_program_bytes()),
    {
        let id = gummy_roll_program_id();
        let r = key.same_as(&id);
        proof {
            if key@ == gummyroll_program_bytes() {
                assert(key.0 =~= id.0);
            }
        }
        r
    }

    /// This decoder reads no account snapshots.
    pub fn handles_account_updates(&self) -> (r: bool)
        ensures
            !r,
    {
        false
    }

    /// This decoder reads instructions.
    pub fn handles_instructions(&self) -> (r: bool)
        ensures
            r,
    {
        true
    }

    /// Finds the tree update that the instruction's logging inner
    /// instructions carry; logged data that decodes as no event fails.
    pub fn handle_instruction(&self, bundle: &InstructionBundle) -> (r: Result<
        CompressionInstruction,
        BlockbusterError,
    >)
        ensures
            match r {
                Ok(c) => tree_instruction(opt_view(bundle.inner_ix)) == Ok::<
                    Option<ChangeLogEventV1View>,
                    BlockbusterErrorView,
                >(opt_v(c.tree_update)),
                Err(e) => tree_instruction(opt_view(bundle.inner_ix)) == Err::<
                    Option<ChangeLogEventV1View>,
                    BlockbusterErrorView,
                >(e@),
            },
    {
        if let Some(ixs) = &bundle.inner_ix {
            let logger = noop_program_id();
            let mut k: usize = 0;
            while k < ixs.len()
                invariant
                    k <= ixs@.len(),
                    logger@ == noop_program_bytes(),
                    bundle.inner_ix == Some(*ixs),
                    first_change_log(ixs@, 0) == first_change_log(ixs@, k as int),
                decreases ixs@.len() - k,
            {
                let pair = ixs[k];
                proof {
                    if pair.0@ == noop_program_bytes() {
                        assert(pair.0.0 =~= logger.0);
                    }
                }
                if pair.0.same_as(&logger) {
                    if let Some(d) = &pair.1.data {
                        match decode_compression_event(d.as_slice()) {
                            Some(CompressionEvent::ChangeLog(c)) => {
                                return Ok(CompressionInstruction { tree_update: Some(c) });
                            },
                            Some(CompressionEvent::ApplicationData(_)) => {},
                            None => {
                                return Err(layout_failure());
                            },
                        }
                    }
                }
                k = k + 1;
            }
        }
        Err(BlockbusterError::InstructionParsingError)
    }
}

} // verus!
