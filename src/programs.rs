//! The program decoders, and the dispatch from a program's address to its
//! decoder.

pub mod bubblegum;
pub mod bubblegum_encoding;
pub mod bubblegum_state;
pub mod candy_guard;
pub mod candy_machine;
pub mod gummyroll;
pub mod token_account;
pub mod token_metadata;

use crate::error::{BlockbusterError, BlockbusterErrorView};
use crate::instruction::{opt_view, InstructionBundle};
use crate::program_handler::AccountInfo;
use crate::pubkey::Pubkey;
use crate::wire::opt_v;
use bubblegum::{bubblegum_program_bytes, decoded, BubblegumInstruction, BubblegumParser};
use candy_guard::{candy_guard_account, candy_guard_program_bytes, CandyGuardAccountData, CandyGuardParser};
use candy_machine::{
    candy_machine_account, candy_machine_program_bytes, CandyMachineAccountData, CandyMachineParser,
};
use gummyroll::{gummyroll_program_bytes, tree_instruction, CompressionInstruction, GummyrollParser};
use token_account::{
    token_program_account, token_program_bytes, TokenAccountParser, TokenProgramAccount,
};
use token_metadata::{
    token_metadata_account, token_metadata_program_bytes, TokenMetadataAccountData,
    TokenMetadataAccountState, TokenMetadataParser,
};
use vstd::prelude::*;

verus! {

/// The programs that have a decoder.
#[derive(PartialEq, Eq, Structural, Clone, Copy, Debug)]
pub enum ParsedProgram {
    Bubblegum,
    Gummyroll,
    TokenAccount,
    TokenMetadata,
    CandyMachine,
    CandyGuard,
}

/// What a decoder gives back.
#[derive(Debug)]
pub enum ProgramParseResult {
    Bubblegum(BubblegumInstruction),
    Gummyroll(CompressionInstruction),
    TokenMetadata(TokenMetadataAccountState),
    TokenProgramAccount(TokenProgramAccount),
    CandyMachine(CandyMachineAccountData),
    CandyGuard(CandyGuardAccountData),
    /// The input matched no known kind.
    Unknown,
    /// The decoder does not read this kind of input.
    NotApplicable,
}

/// The program with the given address, if it has a decoder.
pub open spec fn program_of(key: Seq<u8>) -> Option<ParsedProgram> {
    if key == bubblegum_program_bytes() {
        Some(ParsedProgram::Bubblegum)
    } else if key == gummyroll_program_bytes() {
        Some(ParsedProgram::Gummyroll)
    } else if key == token_program_bytes() {
        Some(ParsedProgram::TokenAccount)
    } else if key == token_metadata_program_bytes() {
        Some(ParsedProgram::TokenMetadata)
    } else if key == candy_machine_program_bytes() {
        Some(ParsedProgram::CandyMachine)
    } else if key == candy_guard_program_bytes() {
        Some(ParsedProgram::CandyGuard)
    } else {
        None
    }
}

impl ParsedProgram {
    /// Whether the program's decoder reads instructions.
    pub open spec fn reads_instructions(self) -> bool {
        self == ParsedProgram::Bubblegum || self == ParsedProgram::Gummyroll
    }

    /// Whether the program's decoder reads instructions.
    pub fn handles_instructions(&self) -> (r: bool)
        ensures
            r == self.reads_instructions(),
    {
        match self {
            ParsedProgram::Bubblegum | ParsedProgram::Gummyroll => true,
            _ => false,
        }
    }

    /// Whether the program's decoder reads account snapshots.
    pub fn handles_account_updates(&self) -> (r: bool)
        ensures
            r == !self.reads_instructions(),
    {
        match self {
            ParsedProgram::Bubblegum | ParsedProgram::Gummyroll => false,
            _ => true,
        }
    }
}

/// Finds the decoder of the program at `key`.
pub fn program_for(key: &Pubkey) -> (r: Option<ParsedProgram>)
    ensures
        r == program_of(key@),
{
    if BubblegumParser.key_match(key) {
        Some(ParsedProgram::Bubblegum)
    } else if GummyrollParser.key_match(key) {
        Some(ParsedProgram::Gummyroll)
    } else if TokenAccountParser.key_match(key) {
        Some(ParsedProgram::TokenAccount)
    } else if TokenMetadataParser.key_match(key) {
        Some(ParsedProgram::TokenMetadata)
    } else if CandyMachineParser.key_match(key) {
        Some(ParsedProgram::CandyMachine)
    } else if CandyGuardParser.key_match(key) {
        Some(ParsedProgram::CandyGuard)
    } else {
        None
    }
}

/// Decodes an instruction with the decoder of `program`; a decoder that
/// reads no instructions gives `NotApplicable`.
pub fn handle_instruction(program: ParsedProgram, bundle: &InstructionBundle) -> (r: Result<
    ProgramParseResult,
    BlockbusterError,
>)
    ensures
        !program.reads_instructions() ==> r matches Ok(ProgramParseResult::NotApplicable),
        program == ParsedProgram::Bubblegum ==> match r {
            Ok(ProgramParseResult::Bubblegum(b)) => decoded(
                bundle.instruction,
                opt_view(bundle.inner_ix),
                bundle.keys@,
            ) == Ok::<_, BlockbusterErrorView>(b@),
            Err(e) => decoded(bundle.instruction, opt_view(bundle.inner_ix), bundle.keys@) == Err::<
                bubblegum::BubblegumInstructionView,
                _,
            >(e@),
            _ => false,
        },
        program == ParsedProgram::Gummyroll ==> match r {
            Ok(ProgramParseResult::Gummyroll(c)) => tree_instruction(opt_view(bundle.inner_ix))
                == Ok::<_, BlockbusterErrorView>(opt_v(c.tree_update)),
            Err(e) => tree_instruction(opt_view(bundle.inner_ix)) == Err::<
                Option<bubblegum::ChangeLogEventV1View>,
                _,
            >(e@),
            _ => false,
        },
{
    match program {
        ParsedProgram::Bubblegum => match BubblegumParser.handle_instruction(bundle) {
            Ok(b) => Ok(ProgramParseResult::Bubblegum(b)),
            Err(e) => Err(e),
        },
        ParsedProgram::Gummyroll => match GummyrollParser.handle_instruction(bundle) {
            Ok(c) => Ok(ProgramParseResult::Gummyroll(c)),
            Err(e) => Err(e),
        },
        _ => Ok(ProgramParseResult::NotApplicable),
    }
}

/// Decodes an account snapshot with the decoder of `program`; a decoder that
/// reads no accounts gives `NotApplicable`.
pub fn handle_account(program: ParsedProgram, account_info: &AccountInfo) -> (r: Result<
    ProgramParseResult,
    BlockbusterError,
>)
    ensures
        program.reads_instructions() ==> r matches Ok(ProgramParseResult::NotApplicable),
        program == ParsedProgram::CandyMachine ==> match r {
            Ok(ProgramParseResult::CandyMachine(c)) => match account_info.data {
                Some(d) => candy_machine_account(d@) == Ok::<_, BlockbusterErrorView>(c@),
                None => false,
            },
            Err(e) => match account_info.data {
                Some(d) => candy_machine_account(d@) == Err::<candy_machine::CandyMachineAccountDataView, _>(e@),
                None => e@ == BlockbusterErrorView::DeserializationError,
            },
            _ => false,
        },
        program == ParsedProgram::CandyGuard ==> match r {
            Ok(ProgramParseResult::CandyGuard(c)) => candy_guard_account(opt_view(account_info.data))
                == Ok::<_, BlockbusterErrorView>(c@),
            Err(e) => candy_guard_account(opt_view(account_info.data)) == Err::<
                candy_guard::CandyGuardAccountView,
                _,
            >(e@),
            _ => false,
        },
        program == ParsedProgram::TokenAccount ==> match r {
            Ok(ProgramParseResult::TokenProgramAccount(a)) => token_program_account(
                opt_view(account_info.data),
            ) == Ok::<_, BlockbusterErrorView>(a@),
            Err(e) => token_program_account(opt_view(account_info.data)) == Err::<
                token_account::TokenProgramAccountView,
                _,
            >(e@),
            _ => false,
        },
        program == ParsedProgram::TokenMetadata ==> match r {
            Ok(ProgramParseResult::TokenMetadata(st)) => token_metadata_account(
                opt_view(account_info.data),
            ) == Ok::<_, BlockbusterErrorView>(
                (
                    st.key,
                    match st.data {
                        TokenMetadataAccountData::EmptyAccount => None,
                        TokenMetadataAccountData::Record(b) => Some(b@),
                    },
                ),
            ),
            Err(e) => token_metadata_account(opt_view(account_info.data)) == Err::<
                (token_metadata::Key, Option<Seq<u8>>),
                _,
            >(e@),
            _ => false,
        },
{
    match program {
        ParsedProgram::CandyMachine => match CandyMachineParser.handle_account(account_info) {
            Ok(c) => Ok(ProgramParseResult::CandyMachine(c)),
            Err(e) => Err(e),
        },
        ParsedProgram::CandyGuard => match CandyGuardParser.handle_account(account_info) {
            Ok(c) => Ok(ProgramParseResult::CandyGuard(c)),
            Err(e) => Err(e),
        },
        ParsedProgram::TokenAccount => match TokenAccountParser.handle_account(account_info) {
            Ok(a) => Ok(ProgramParseResult::TokenProgramAccount(a)),
            Err(e) => Err(e),
        },
        ParsedProgram::TokenMetadata => match TokenMetadataParser.handle_account(account_info) {
            Ok(st) => Ok(ProgramParseResult::TokenMetadata(st)),
            Err(e) => Err(e),
        },
        _ => Ok(ProgramParseResult::NotApplicable),
    }
}

} // verus!
