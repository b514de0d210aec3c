//! The instruction set: opcode words and their decoding.
use vstd::prelude::*;

verus! {

pub const PUSH: u16 = 0x01;
pub const PIP: u16 = 0x02;
pub const PSP: u16 = 0x03;
pub const ADD: u16 = 0x04;
pub const SUB: u16 = 0x05;
pub const MUL: u16 = 0x06;
pub const LSF: u16 = 0x07;
pub const RSF: u16 = 0x08;
pub const INC: u16 = 0x09;
pub const DEC: u16 = 0x0A;
pub const IIP: u16 = 0x0B;
pub const DIP: u16 = 0x0C;
pub const ISP: u16 = 0x0D;
pub const DSP: u16 = 0x0E;
pub const CALL: u16 = 0x0F;
pub const RET: u16 = 0x10;
pub const JNZ: u16 = 0x11;
pub const SSP: u16 = 0x12;
pub const JMP: u16 = 0x13;
pub const HALT: u16 = 0x14;

/// A decoded instruction. Words that decode to no instruction are no-ops.
#[derive(Clone, Copy, Debug, PartialEq, Eq, Structural)]
pub enum Instruction {
    /// Push the next program word.
    Push,
    /// Push the instruction pointer.
    Pip,
    /// Push the stack pointer, after it has been raised.
    Psp,
    Add,
    Sub,
    Mul,
    /// Shift left.
    Lsf,
    /// Shift right.
    Rsf,
    Inc,
    Dec,
    /// Skip the next program word.
    Iip,
    /// Move the instruction pointer back one word.
    Dip,
    /// Raise the stack pointer without writing.
    Isp,
    /// Lower the stack pointer.
    Dsp,
    Call,
    Ret,
    /// Jump if the second value is not zero.
    Jnz,
    /// Set the stack pointer from the top value.
    Ssp,
    Jmp,
    Halt,
}

/// The instruction that a word stands for, if any.
pub open spec fn decode_spec(word: u16) -> Option<Instruction> {
    if word == PUSH {
        Some(Instruction::Push)
    } else if word == PIP {
        Some(Instruction::Pip)
    } else if word == PSP {
        Some(Instruction::Psp)
    } else if word == ADD {
        Some(Instruction::Add)
    } else if word == SUB {
        Some(Instruction::Sub)
    } else if word == MUL {
        Some(Instruction::Mul)
    } else if word == LSF {
        Some(Instruction::Lsf)
    } else if word == RSF {
        Some(Instruction::Rsf)
    } else if word == INC {
        Some(Instruction::Inc)
    } else if word == DEC {
        Some(Instruction::Dec)
    } else if word == IIP {
        Some(Instruction::Iip)
    } else if word == DIP {
        Some(Instruction::Dip)
    } else if word == ISP {
        Some(Instruction::Isp)
    } else if word == DSP {
        Some(Instruction::Dsp)
    } else if word == CALL {
        Some(Instruction::Call)
    } else if word == RET {
        Some(Instruction::Ret)
    } else if word == JNZ {
        Some(Instruction::Jnz)
    } else if word == SSP {
        Some(Instruction::Ssp)
    } else if word == JMP {
        Some(Instruction::Jmp)
    } else if word == HALT {
        Some(Instruction::Halt)
    } else {
        None
    }
}

/// The opcode word of an instruction.
pub open spec fn opcode_spec(ins: Instruction) -> u16 {
    match ins {
        Instruction::Push => PUSH,
        Instruction::Pip => PIP,
        Instruction::Psp => PSP,
        Instruction::Add => ADD,
        Instruction::Sub => SUB,
        Instruction::Mul => MUL,
        Instruction::Lsf => LSF,
        Instruction::Rsf => RSF,
        Instruction::Inc => INC,
        Instruction::Dec => DEC,
        Instruction::Iip => IIP,
        Instruction::Dip => DIP,
        Instruction::Isp => ISP,
        Instruction::Dsp => DSP,
        Instruction::Call => CALL,
        Instruction::Ret => RET,
        Instruction::Jnz => JNZ,
        Instruction::Ssp => SSP,
        Instruction::Jmp => JMP,
        Instruction::Halt => HALT,
    }
}

impl Instruction {
    /// The opcode word of this instruction.
    pub fn opcode(&self) -> (r: u16)
        ensures
            r == opcode_spec(*self),
            decode_spec(r) == Some(*self),
    {
        match self {
            Instruction::Push => PUSH,
            Instruction::Pip => PIP,
            Instruction::Psp => PSP,
            Instruction::Add => ADD,
            Instruction::Sub => SUB,
            Instruction::Mul => MUL,
            Instruction::Lsf => LSF,
            Instruction::Rsf => RSF,
            Instruction::Inc => INC,
            Instruction::Dec => DEC,
            Instruction::Iip => IIP,
            Instruction::Dip => DIP,
            Instruction::Isp => ISP,
            Instruction::Dsp => DSP,
            Instruction::Call => CALL,
            Instruction::Ret => RET,
            Instruction::Jnz => JNZ,
            Instruction::Ssp => SSP,
            Instruction::Jmp => JMP,
            Instruction::Halt => HALT,
        }
    }
}

/// Decodes an opcode word; `None` for a word that names no instruction.
pub fn decode(word: u16) -> (r: Option<Instruction>)
    ensures
        r == decode_spec(word),
        r matches Some(ins) ==> opcode_spec(ins) == word,
{
    if word == PUSH {
        Some(Instruction::Push)
    } else if word == PIP {
        Some(Instruction::Pip)
    } else if word == PSP {
        Some(Instruction::Psp)
    } else if word == ADD {
        Some(Instruction::Add)
    } else if word == SUB {
        Some(Instruction::Sub)
    } else if word == MUL {
        Some(Instruction::Mul)
    } else if word == LSF {
        Some(Instruction::Lsf)
    } else if word == RSF {
        Some(Instruction::Rsf)
    } else if word == INC {
        Some(Instruction::Inc)
    } else if word == DEC {
        Some(Instruction::Dec)
    } else if word == IIP {
        Some(Instruction::Iip)
    } else if word == DIP {
        Some(Instruction::Dip)
    } else if word == ISP {
        Some(Instruction::Isp)
    } else if word == DSP {
        Some(Instruction::Dsp)
    } else if word == CALL {
        Some(Instruction::Call)
    } else if word == RET {
        Some(Instruction::Ret)
    } else if word == JNZ {
        Some(Instruction::Jnz)
    } else if word == SSP {
        Some(Instruction::Ssp)
    } else if word == JMP {
        Some(Instruction::Jmp)
    } else if word == HALT {
        Some(Instruction::Halt)
    } else {
        None
    }
}

} // verus!
