//! Errors reported when decoding or executing an instruction.

use crate::text::{decimal, hex4, push_decimal, push_hex4};
use vstd::prelude::*;
use vstd::string::StringExecFns;

verus! {

/// Errors raised by the operation an instruction performs.
#[derive(Debug, PartialEq, Eq, Structural)]
#[allow(inconsistent_fields)]
pub enum OperationError {
    /// The 8-bit sum of the two addends does not fit in 8 bits.
    Add8Overflow { addend1: u8, addend2: u8 },
    /// The 16-bit sum of the two addends does not fit in 16 bits.
    Add16Overflow { addend1: u16, addend2: u16 },
    /// The 32-bit sum of the two addends does not fit in 32 bits.
    Add32Overflow { addend1: u32, addend2: u32 },
}

/// Errors involving the format of an instruction.
#[derive(Debug, PartialEq, Eq, Structural)]
pub enum InstructionFormatError {
    /// The instruction bytes are fewer than the opcode needs.
    NotEnoughBytes { raw_opcode: u16, min: usize, actual: usize },
    /// The opcode identifier has no entry in the opcode table.
    UnknownOpcodeError { raw_opcode: u16 },
}

/// Errors involving the execution of one instruction.
#[derive(Debug, PartialEq, Eq, Structural)]
#[allow(inconsistent_fields)]
pub enum OpExecuteError {
    /// Too few bytes to read the opcode field itself.
    NotEnoughBytes {
        /// Minimum number of bytes expected.
        min: usize,
        /// Actual number of bytes provided.
        actual: usize,
    },
    /// The instruction is malformed.
    InstructionFormatError { error: InstructionFormatError },
    /// The operation failed.
    OperationError { error: OperationError },
}

/// The message for an overflowing addition of `a` and `b` at `bits` bits.
pub open spec fn overflow_text(bits: nat, a: nat, b: nat) -> Seq<char> {
    "Performing "@ + decimal(bits) + "-bit addition on "@ + decimal(a) + " and "@ + decimal(b)
        + " causes overflow."@
}

/// The message that describes `e`.
pub open spec fn operation_error_text(e: OperationError) -> Seq<char> {
    match e {
        OperationError::Add8Overflow { addend1, addend2 } => overflow_text(
            8,
            addend1 as nat,
            addend2 as nat,
        ),
        OperationError::Add16Overflow { addend1, addend2 } => overflow_text(
            16,
            addend1 as nat,
            addend2 as nat,
        ),
        OperationError::Add32Overflow { addend1, addend2 } => overflow_text(
            32,
            addend1 as nat,
            addend2 as nat,
        ),
    }
}

/// The message that describes `e`.
pub open spec fn format_error_text(e: InstructionFormatError) -> Seq<char> {
    match e {
        InstructionFormatError::NotEnoughBytes { raw_opcode, min, actual } => "Opcode ("@
            + decimal(raw_opcode as nat) + ") expects at least "@ + decimal(min as nat)
            + " byte(s). Only "@ + decimal(actual as nat) + " byte(s) available."@,
        InstructionFormatError::UnknownOpcodeError { raw_opcode } => "Unknown opcode: "@ + hex4(
            raw_opcode,
        ),
    }
}

/// The message that describes `e`.
pub open spec fn execute_error_text(e: OpExecuteError) -> Seq<char> {
    match e {
        OpExecuteError::NotEnoughBytes { min, actual } => "Expected minimum bytes: "@ + decimal(
            min as nat,
        ) + ". Actual: "@ + decimal(actual as nat) + "."@,
        OpExecuteError::InstructionFormatError { error } => format_error_text(error),
        OpExecuteError::OperationError { error } => operation_error_text(error),
    }
}

/// Builds the message for an overflowing addition of `a` and `b` at `bits` bits.
fn overflow_message(bits: u64, a: u64, b: u64) -> (r: String)
    ensures
        r@ == overflow_text(bits as nat, a as nat, b as nat),
{
    let mut r = String::from_str("Performing ");
    push_decimal(&mut r, bits);
    r.append("-bit addition on ");
    push_decimal(&mut r, a);
    r.append(" and ");
    push_decimal(&mut r, b);
    r.append(" causes overflow.");
    r
}

impl OperationError {
    /// A message that describes the error.
    pub fn message(&self) -> (r: String)
        ensures
            r@ == operation_error_text(*self),
    {
        match self {
            OperationError::Add8Overflow { addend1, addend2 } => overflow_message(
                8,
                *addend1 as u64,
                *addend2 as u64,
            ),
            OperationError::Add16Overflow { addend1, addend2 } => overflow_message(
                16,
                *addend1 as u64,
                *addend2 as u64,
            ),
            OperationError::Add32Overflow { addend1, addend2 } => overflow_message(
                32,
                *addend1 as u64,
                *addend2 as u64,
            ),
        }
    }
}

impl InstructionFormatError {
    /// A message that describes the error.
    pub fn message(&self) -> (r: String)
        ensures
            r@ == format_error_text(*self),
    {
        match self {
            InstructionFormatError::NotEnoughBytes { raw_opcode, min, actual } => {
                let mut r = String::from_str("Opcode (");
                push_decimal(&mut r, *raw_opcode as u64);
                r.append(") expects at least ");
                push_decimal(&mut r, *min as u64);
                r.append(" byte(s). Only ");
                push_decimal(&mut r, *actual as u64);
                r.append(" byte(s) available.");
                r
            },
            InstructionFormatError::UnknownOpcodeError { raw_opcode } => {
                let mut r = String::from_str("Unknown opcode: ");
                push_hex4(&mut r, *raw_opcode);
                r
            },
        }
    }
}

impl OpExecuteError {
    /// A message that describes the error.
    pub fn message(&self) -> (r: String)
        ensures
            r@ == execute_error_text(*self),
    {
        match self {
            OpExecuteError::NotEnoughBytes { min, actual } => {
                let mut r = String::from_str("Expected minimum bytes: ");
                push_decimal(&mut r, *min as u64);
                r.append(". Actual: ");
                push_decimal(&mut r, *actual as u64);
                r.append(".");
                r
            },
            OpExecuteError::InstructionFormatError { error } => error.message(),
            OpExecuteError::OperationError { error } => error.message(),
        }
    }
}

} // verus!
