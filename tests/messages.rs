use runtime::data_stack::DataStackError;
use runtime::error::{InstructionFormatError, OpExecuteError, OperationError};

#[test]
fn stack_error_message() {
    let e = DataStackError::NotEnoughBytes { attempt: 4, remaining: 3 };
    assert_eq!(
        e.message(),
        "Attempting to pop 4 byte(s) off of stack when only 3 byte(s) are remaining."
    );
}

#[test]
fn add8_overflow_message() {
    let e = OperationError::Add8Overflow { addend1: 255, addend2: 2 };
    assert_eq!(e.message(), "Performing 8-bit addition on 255 and 2 causes overflow.");
}

#[test]
fn add32_overflow_message() {
    let e = OperationError::Add32Overflow { addend1: 4294967295, addend2: 10 };
    assert_eq!(
        e.message(),
        "Performing 32-bit addition on 4294967295 and 10 causes overflow."
    );
}

#[test]
fn not_enough_bytes_format_message() {
    let e = InstructionFormatError::NotEnoughBytes { raw_opcode: 0, min: 4, actual: 3 };
    assert_eq!(e.message(), "Opcode (0) expects at least 4 byte(s). Only 3 byte(s) available.");
}

#[test]
fn unknown_opcode_message() {
    let e = InstructionFormatError::UnknownOpcodeError { raw_opcode: 0xffff };
    assert_eq!(e.message(), "Unknown opcode: 0xffff");
    let e = InstructionFormatError::UnknownOpcodeError { raw_opcode: 0x0a3 };
    assert_eq!(e.message(), "Unknown opcode: 0x00a3");
}

#[test]
fn execute_error_messages() {
    let e = OpExecuteError::NotEnoughBytes { min: 2, actual: 1 };
    assert_eq!(e.message(), "Expected minimum bytes: 2. Actual: 1.");
    let e = OpExecuteError::OperationError {
        error: OperationError::Add16Overflow { addend1: 65280, addend2: 256 },
    };
    assert_eq!(e.message(), "Performing 16-bit addition on 65280 and 256 causes overflow.");
    let e = OpExecuteError::InstructionFormatError {
        error: InstructionFormatError::UnknownOpcodeError { raw_opcode: 7 },
    };
    assert_eq!(e.message(), "Unknown opcode: 0x0007");
}
