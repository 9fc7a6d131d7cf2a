use vstd::prelude::*;

verus! {

/// Failures of the decoders.
#[derive(Debug)]
pub enum BlockbusterError {
    /// A structural or positional expectation was violated.
    InstructionParsingError,
    /// A failure of a lower-level byte-stream decoder, with its message.
    IOError(String),
    /// A binary payload does not fit the expected shape.
    DeserializationError,
    /// An account snapshot's length matches no known layout.
    InvalidDataLength,
    /// An account snapshot's leading bytes match no known type.
    UnknownAccountDiscriminator,
    /// The account type is not valid here.
    InvalidAccountType,
    /// A master edition record could not be decoded.
    FailedToDeserializeToMasterEdition,
    /// The account is marked uninitialized.
    UninitializedAccount,
    /// A logging instruction carried the uninitialized event tag.
    MissingBubblegumEventData,
    /// A candy guard's guard set could not be decoded.
    CandyGuardDataCustomDeserError,
    /// A decoder failed with the given message.
    CustomDeserializationError(String),
    /// The account type is known but has no decoder.
    AccountTypeNotImplemented,
}

/// A decoder failure with its messages seen as character sequences.
pub enum BlockbusterErrorView {
    InstructionParsingError,
    IOError(Seq<char>),
    DeserializationError,
    InvalidDataLength,
    UnknownAccountDiscriminator,
    InvalidAccountType,
    FailedToDeserializeToMasterEdition,
    UninitializedAccount,
    MissingBubblegumEventData,
    CandyGuardDataCustomDeserError,
    CustomDeserializationError(Seq<char>),
    AccountTypeNotImplemented,
}

impl View for BlockbusterError {
    type V = BlockbusterErrorView;

    open spec fn view(&self) -> BlockbusterErrorView {
        match self {
            BlockbusterError::InstructionParsingError => BlockbusterErrorView::InstructionParsingError,
            BlockbusterError::IOError(m) => BlockbusterErrorView::IOError(m@),
            BlockbusterError::DeserializationError => BlockbusterErrorView::DeserializationError,
            BlockbusterError::InvalidDataLength => BlockbusterErrorView::InvalidDataLength,
            BlockbusterError::UnknownAccountDiscriminator => BlockbusterErrorView::UnknownAccountDiscriminator,
            BlockbusterError::InvalidAccountType => BlockbusterErrorView::InvalidAccountType,
            BlockbusterError::FailedToDeserializeToMasterEdition => BlockbusterErrorView::FailedToDeserializeToMasterEdition,
            BlockbusterError::UninitializedAccount => BlockbusterErrorView::UninitializedAccount,
            BlockbusterError::MissingBubblegumEventData => BlockbusterErrorView::MissingBubblegumEventData,
            BlockbusterError::CandyGuardDataCustomDeserError => BlockbusterErrorView::CandyGuardDataCustomDeserError,
            BlockbusterError::CustomDeserializationError(m) => BlockbusterErrorView::CustomDeserializationError(m@),
            BlockbusterError::AccountTypeNotImplemented => BlockbusterErrorView::AccountTypeNotImplemented,
        }
    }
}

/// The message of the byte-stream error that the library's own layout
/// decoders give when bytes do not hold the expected record: too few bytes,
/// a tag or flag out of range, invalid UTF-8, or bytes left over where a
/// record must fill its input.
pub open spec fn layout_error_message() -> Seq<char> {
    "Bytes do not match the expected layout"@
}

/// The byte-stream error for bytes that do not hold the expected record.
pub open spec fn layout_error() -> BlockbusterErrorView {
    BlockbusterErrorView::IOError(layout_error_message())
}

/// Builds the byte-stream error for bytes that do not hold the expected
/// record.
pub fn layout_failure() -> (r: BlockbusterError)
    ensures
        r@ == layout_error(),
{
    proof {
        reveal_strlit("Bytes do not match the expected layout");
    }
    BlockbusterError::IOError("Bytes do not match the expected layout".to_owned())
}

/// A decoder's result seen through the views of its value and its error.
pub open spec fn result_view<T: View>(r: Result<T, BlockbusterError>) -> Result<T::V, BlockbusterErrorView> {
    match r {
        Ok(v) => Ok(v@),
        Err(e) => Err(e@),
    }
}

} // verus!
