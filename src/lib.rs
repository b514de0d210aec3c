//! A fixed-memory stack machine over 16-bit words.
//!
//! A [`machine::Machine`] holds a program buffer and an operand stack of
//! 1024 cells each, an instruction pointer and a stack pointer. Each call of
//! [`machine::Machine::step`] fetches, decodes and executes one instruction and
//! reports whether execution goes on, halted with a value, or faulted.
pub mod instructions;
pub mod machine;
pub mod output;
pub mod proofs;
