//! The opcode table and the dispatcher that executes one instruction.

use crate::data_stack::{bytes16, bytes32, value16, value32, DataStack};
use crate::error::{InstructionFormatError, OpExecuteError, OperationError};
use std::collections::VecDeque;
use vstd::prelude::*;

verus! {

/// Numeric identifier of an opcode, as it stands in an instruction.
pub type OpCodeRepr = u16;

/// Length in bytes of the opcode field that starts every instruction.
pub const OPCODE_LENGTH: usize = 2;

/// The operations of the instruction set.
#[derive(Debug, Clone, Copy, PartialEq, Eq, Structural)]
pub enum OpCode {
    /// 8-bit unsigned addition, identifier 0.
    Add8,
    /// 16-bit unsigned addition, identifier 1.
    Add16,
    /// 32-bit unsigned addition, identifier 2.
    Add32,
}

/// The opcode that the identifier `raw` selects, if any.
pub open spec fn opcode_of(raw: u16) -> Option<OpCode> {
    if raw == 0 {
        Some(OpCode::Add8)
    } else if raw == 1 {
        Some(OpCode::Add16)
    } else if raw == 2 {
        Some(OpCode::Add32)
    } else {
        None
    }
}

/// Width in bytes of each operand, and of the result, of `op`.
pub open spec fn width_of(op: OpCode) -> nat {
    match op {
        OpCode::Add8 => 1,
        OpCode::Add16 => 2,
        OpCode::Add32 => 4,
    }
}

/// Length of a whole instruction of `op`: the opcode field and two operands.
pub open spec fn min_len_of(op: OpCode) -> nat {
    (OPCODE_LENGTH + 2 * width_of(op)) as nat
}

impl OpCode {
    /// Looks up an opcode identifier in the opcode table.
    pub fn from_raw(raw: OpCodeRepr) -> (r: Option<OpCode>)
        ensures
            r == opcode_of(raw),
    {
        match raw {
            0 => Some(OpCode::Add8),
            1 => Some(OpCode::Add16),
            2 => Some(OpCode::Add32),
            _ => None,
        }
    }

    /// Width in bytes of each operand and of the result.
    pub fn operand_width(&self) -> (r: usize)
        ensures
            r == width_of(*self),
    {
        match self {
            OpCode::Add8 => 1,
            OpCode::Add16 => 2,
            OpCode::Add32 => 4,
        }
    }

    /// Length in bytes of a whole instruction of this opcode.
    pub fn min_length(&self) -> (r: usize)
        ensures
            r == min_len_of(*self),
    {
        OPCODE_LENGTH + 2 * self.operand_width()
    }
}

/// Changes to the machine made by executing one instruction.
#[derive(Debug, Clone, Copy, PartialEq, Eq, Structural)]
pub struct Delta {
    /// Instruction bytes consumed.
    pub inst_bytes_consumed: usize,
    /// Data bytes pushed on the stack.
    pub data_bytes_pushed: usize,
}

/// The opcode identifier at the start of `b`, read big-endian.
pub open spec fn raw_opcode_of(b: Seq<u8>) -> u16
    recommends
        b.len() >= 2,
{
    value16(b.subrange(0, 2))
}

/// What adding the two operands of `op` that follow the opcode field in `b`
/// gives: the bytes to push, or the overflow error.
pub open spec fn add_outcome(op: OpCode, b: Seq<u8>) -> Result<Seq<u8>, OperationError>
    recommends
        b.len() >= min_len_of(op),
{
    match op {
        OpCode::Add8 => {
            let (x, y) = (b[2], b[3]);
            if x + y <= u8::MAX {
                Ok(seq![(x + y) as u8])
            } else {
                Err(OperationError::Add8Overflow { addend1: x, addend2: y })
            }
        },
        OpCode::Add16 => {
            let (x, y) = (value16(b.subrange(2, 4)), value16(b.subrange(4, 6)));
            if x + y <= u16::MAX {
                Ok(bytes16((x + y) as u16))
            } else {
                Err(OperationError::Add16Overflow { addend1: x, addend2: y })
            }
        },
        OpCode::Add32 => {
            let (x, y) = (value32(b.subrange(2, 6)), value32(b.subrange(6, 10)));
            if x + y <= u32::MAX {
                Ok(bytes32((x + y) as u32))
            } else {
                Err(OperationError::Add32Overflow { addend1: x, addend2: y })
            }
        },
    }
}

/// What executing the instruction at the start of `b` gives: the delta with
/// the bytes to push, or the error.
pub open spec fn execute_outcome(b: Seq<u8>) -> Result<(Delta, Seq<u8>), OpExecuteError> {
    if b.len() < OPCODE_LENGTH {
        Err(OpExecuteError::NotEnoughBytes { min: OPCODE_LENGTH, actual: b.len() as usize })
    } else {
        let raw = raw_opcode_of(b);
        match opcode_of(raw) {
            None => Err(
                OpExecuteError::InstructionFormatError {
                    error: InstructionFormatError::UnknownOpcodeError { raw_opcode: raw },
                },
            ),
            Some(op) => if b.len() < min_len_of(op) {
                Err(
                    OpExecuteError::InstructionFormatError {
                        error: InstructionFormatError::NotEnoughBytes {
                            raw_opcode: raw,
                            min: min_len_of(op) as usize,
                            actual: b.len() as usize,
                        },
                    },
                )
            } else {
                match add_outcome(op, b) {
                    Ok(pushed) => Ok(
                        (
                            Delta {
                                inst_bytes_consumed: min_len_of(op) as usize,
                                data_bytes_pushed: width_of(op) as usize,
                            },
                            pushed,
                        ),
                    ),
                    Err(e) => Err(OpExecuteError::OperationError { error: e }),
                }
            },
        }
    }
}

/// A successful execution consumes the whole instruction of its opcode and
/// reports as pushed exactly the number of bytes that it pushes.
pub proof fn lemma_delta_matches_pushed(b: Seq<u8>)
    ensures
        execute_outcome(b) is Ok ==> {
            let (delta, pushed) = execute_outcome(b)->Ok_0;
            &&& b.len() >= 2
            &&& opcode_of(raw_opcode_of(b)) is Some
            &&& delta.inst_bytes_consumed == min_len_of(opcode_of(raw_opcode_of(b))->Some_0)
            &&& delta.inst_bytes_consumed <= b.len()
            &&& delta.data_bytes_pushed == pushed.len()
        },
{
}

/// Reads the big-endian 16-bit value at `at` in `bytes`.
fn read16(bytes: &VecDeque<u8>, at: usize) -> (r: u16)
    requires
        at + 2 <= bytes@.len() <= usize::MAX,
    ensures
        r == value16(bytes@.subrange(at as int, at + 2)),
{
    let hi = bytes[at];
    let lo = bytes[at + 1];
    let r: u16 = ((hi as u16) << 8u16) | (lo as u16);
    assert(r == hi * 0x100 + lo) by (bit_vector)
        requires
            r == ((hi as u16) << 8u16) | (lo as u16),
    ;
    r
}

/// Reads the big-endian 32-bit value at `at` in `bytes`.
fn read32(bytes: &VecDeque<u8>, at: usize) -> (r: u32)
    requires
        at + 4 <= bytes@.len() <= usize::MAX,
    ensures
        r == value32(bytes@.subrange(at as int, at + 4)),
{
    let b0 = bytes[at];
    let b1 = bytes[at + 1];
    let b2 = bytes[at + 2];
    let b3 = bytes[at + 3];
    let r: u32 = ((b0 as u32) << 24u32) | ((b1 as u32) << 16u32) | ((b2 as u32) << 8u32) | (
    b3 as u32);
    assert(r == b0 * 0x100_0000 + b1 * 0x1_0000 + b2 * 0x100 + b3) by (bit_vector)
        requires
            r == ((b0 as u32) << 24u32) | ((b1 as u32) << 16u32) | ((b2 as u32) << 8u32) | (
            b3 as u32),
    ;
    r
}

/// Executes the instruction at the start of `bytes`, pushing its result onto
/// `data`. Bytes past the instruction are ignored. On failure `data` is left
/// as it was.
pub fn execute(bytes: &VecDeque<u8>, data: &mut DataStack) -> (r: Result<Delta, OpExecuteError>)
    ensures
        match execute_outcome(bytes@) {
            Ok((delta, pushed)) => r == Ok::<Delta, OpExecuteError>(delta) && final(data)@
                == old(data)@ + pushed,
            Err(e) => r == Err::<Delta, OpExecuteError>(e) && final(data)@ == old(data)@,
        },
{
    let len = bytes.len();
    if len < OPCODE_LENGTH {
        return Err(OpExecuteError::NotEnoughBytes { min: OPCODE_LENGTH, actual: len });
    }
    let raw_opcode = read16(bytes, 0);
    let op = match OpCode::from_raw(raw_opcode) {
        Some(op) => op,
        None => {
            return Err(
                OpExecuteError::InstructionFormatError {
                    error: InstructionFormatError::UnknownOpcodeError { raw_opcode },
                },
            );
        },
    };
    let min = op.min_length();
    if len < min {
        return Err(
            OpExecuteError::InstructionFormatError {
                error: InstructionFormatError::NotEnoughBytes { raw_opcode, min, actual: len },
            },
        );
    }
    let ghost b = bytes@;
    match op {
        OpCode::Add8 => {
            let (addend1, addend2) = (bytes[2], bytes[3]);
            match addend1.checked_add(addend2) {
                Some(sum) => {
                    data.push8(sum);
                    assert(seq![sum] =~= seq![(addend1 + addend2) as u8]);
                },
                None => {
                    return Err(
                        OpExecuteError::OperationError {
                            error: OperationError::Add8Overflow { addend1, addend2 },
                        },
                    );
                },
            }
        },
        OpCode::Add16 => {
            let (addend1, addend2) = (read16(bytes, 2), read16(bytes, 4));
            match addend1.checked_add(addend2) {
                Some(sum) => data.push16(sum),
                None => {
                    return Err(
                        OpExecuteError::OperationError {
                            error: OperationError::Add16Overflow { addend1, addend2 },
                        },
                    );
                },
            }
        },
        OpCode::Add32 => {
            let (addend1, addend2) = (read32(bytes, 2), read32(bytes, 6));
            match addend1.checked_add(addend2) {
                Some(sum) => data.push32(sum),
                None => {
                    return Err(
                        OpExecuteError::OperationError {
                            error: OperationError::Add32Overflow { addend1, addend2 },
                        },
                    );
                },
            }
        },
    }
    Ok(Delta { inst_bytes_consumed: min, data_bytes_pushed: op.operand_width() })
}

} // verus!
