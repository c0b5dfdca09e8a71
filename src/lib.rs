//! A minimal bytecode execution engine: a byte-oriented operand stack and a
//! dispatcher that decodes and executes one instruction at a time.

pub mod data_stack;
pub mod error;
pub mod op;
pub mod text;
