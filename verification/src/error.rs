use vstd::prelude::*;

use crate::opcodes::OpCode;

verus! {

/// Classified failures of decoding and interpretation.
///
/// Every failure of the library is reported as one of these values; no input
/// can make a verified function of this crate panic.
#[derive(Debug, Clone, Copy, PartialEq, Eq, Structural)]
pub enum PickleError {
    /// A wire byte outside the opcode catalog.
    UnrecognizedOpcode(u8),
    /// A catalogued opcode that this interpreter deliberately does not implement.
    UnsupportedOpcode(OpCode),
    /// The stream ended in the middle of an instruction's payload.
    UnexpectedEof,
    /// A string payload held malformed UTF-8.
    InvalidEncoding,
    /// A pop or a fixed-arity instruction found too few operands.
    StackUnderflow,
    /// A mark-consuming instruction arrived with no open MARK.
    UnpairedMark,
    /// A memo get referenced an index that no put has written.
    MissingMemoEntry(u32),
    /// An item-assignment or append hit a value that is not a container of
    /// the required kind.
    TypeMismatch,
    /// A multi-item assignment popped an odd number of values.
    OddItemCount,
    /// A registered callable was invoked with arguments it does not accept.
    ArgumentMismatch,
    /// An instruction arrived after the terminal instruction of the stream.
    StreamAlreadyTerminated,
}

} // verus!
