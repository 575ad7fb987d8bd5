use crate::processor::StateSnapshot;
use vstd::prelude::*;

verus! {

/// The errors raised by the processor and its components.
#[derive(Debug, PartialEq)]
pub enum ErrorDetail {
    /// An unrecognised opcode was read from memory
    UnknownInstruction { opcode: u16 },
    /// A valid opcode was read from memory but it is not implemented
    UnimplementedInstruction { opcode: u16 },
    /// One or more operands fall outside their valid ranges; each offending operand is
    /// listed by name with its value, in the order the instruction names them
    OperandsOutOfBounds { operands: Vec<(String, usize)> },
    /// An attempt was made to pop the stack while it was empty
    PopEmptyStack,
    /// An attempt was made to push to the stack while it was full
    PushFullStack,
    /// An attempt was made to read/write an address outside the addressable range
    MemoryAddressOutOfBounds { address: u16 },
    /// A key ordinal outside the keypad range (0x0 to 0xF) was referenced
    InvalidKey { key: u8 },
    /// A file could not be read or written (raised by hosting code only)
    FileError { file_path: String },
    /// General bucket for any unknown issue
    UnknownError,
}

/// An error surfaced to the host: the inner error together with a full snapshot of the
/// processor state at the moment of failure.
#[derive(Debug, PartialEq)]
pub struct ChipolataError {
    pub state_snapshot_dump: StateSnapshot,
    pub inner_error: ErrorDetail,
}

/// The error lists exactly the named operands with the given values, in order.
pub open spec fn operands_are(e: ErrorDetail, expected: Seq<(Seq<char>, usize)>) -> bool {
    match e {
        ErrorDetail::OperandsOutOfBounds { operands } => {
            &&& operands@.len() == expected.len()
            &&& forall|i: int|
                0 <= i < expected.len() ==> #[trigger] operands@[i].0@ == expected[i].0
                    && operands@[i].1 == expected[i].1
        },
        _ => false,
    }
}

/// Operand error naming only register `x`.
pub open spec fn bad_x(e: ErrorDetail, x: usize) -> bool {
    operands_are(e, seq![("x"@, x)])
}

/// Operand error naming registers `x` and `y`.
pub open spec fn bad_xy(e: ErrorDetail, x: usize, y: usize) -> bool {
    operands_are(e, seq![("x"@, x), ("y"@, y)])
}

/// The error naming the single operand `name` with value `value`.
pub fn one_operand_error(name: &str, value: usize) -> (e: ErrorDetail)
    ensures
        operands_are(e, seq![(name@, value)]),
{
    let mut operands: Vec<(String, usize)> = Vec::new();
    operands.push((name.to_owned(), value));
    ErrorDetail::OperandsOutOfBounds { operands }
}

/// The error for an out-of-range register `x`.
pub fn x_error(x: usize) -> (e: ErrorDetail)
    ensures
        bad_x(e, x),
{
    one_operand_error("x", x)
}

/// The error for an out-of-range register pair `x`, `y`.
pub fn xy_error(x: usize, y: usize) -> (e: ErrorDetail)
    ensures
        bad_xy(e, x, y),
{
    let mut operands: Vec<(String, usize)> = Vec::new();
    operands.push(("x".to_owned(), x));
    operands.push(("y".to_owned(), y));
    ErrorDetail::OperandsOutOfBounds { operands }
}

/// The error for a sprite draw with an out-of-range register or sprite height.
pub fn xyn_error(x: usize, y: usize, n: usize) -> (e: ErrorDetail)
    ensures
        operands_are(e, seq![("x"@, x), ("y"@, y), ("n"@, n)]),
{
    let mut operands: Vec<(String, usize)> = Vec::new();
    operands.push(("x".to_owned(), x));
    operands.push(("y".to_owned(), y));
    operands.push(("n".to_owned(), n));
    ErrorDetail::OperandsOutOfBounds { operands }
}

} // verus!
