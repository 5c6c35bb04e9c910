//! The program image: decoded instructions and the initial data image.

use vstd::prelude::*;
use crate::layout::{DATA_SIZE, FRAME_SIZE, REGISTER_COUNT};

verus! {

/// One decoded instruction: an operation with its operands.
#[derive(Clone, Copy, Debug, PartialEq, Eq, Structural)]
pub enum Instruction {
    /// Stops the program.
    Halt,
    /// Writes `value` to integer register `rd`.
    LoadImmediate { rd: u8, value: u32 },
    /// Writes the wrapping sum of registers `rs1` and `rs2` to register `rd`.
    Add { rd: u8, rs1: u8, rs2: u8 },
    /// Sets status flag `flag` to 1 where registers `rs1` and `rs2` hold the
    /// same pattern, to 0 where they do not.
    Compare { flag: u8, rs1: u8, rs2: u8 },
    /// Continues at instruction `target`.
    Jump { target: usize },
    /// Continues at instruction `target` where status flag `flag` is not
    /// zero, at the next instruction where it is.
    BranchIfSet { flag: u8, target: usize },
    /// Writes the byte at `address` of the data segment, zero-extended, to
    /// register `rd`.
    LoadData { rd: u8, address: usize },
    /// Stores the low byte of register `rs` at `address` of the data segment.
    StoreData { rs: u8, address: usize },
    /// Draws the low byte of register `rs` at `offset` of the back frame.
    Draw { rs: u8, offset: usize },
    /// Stores to the frame-select control word: the two frame slots change
    /// roles.
    SwapFrame,
}

/// Whether `register` numbers a register of a bank.
fn in_bank(register: u8) -> (ok: bool)
    ensures
        ok == (register < REGISTER_COUNT),
{
    (register as usize) < REGISTER_COUNT
}

impl Instruction {
    /// Whether every operand is in range for a program of `code_len`
    /// instructions: register numbers below 32, addresses inside their
    /// region, and jump targets at an instruction or at the end of the
    /// program.
    pub open spec fn valid(self, code_len: int) -> bool {
        match self {
            Instruction::Halt => true,
            Instruction::LoadImmediate { rd, value } => rd < REGISTER_COUNT,
            Instruction::Add { rd, rs1, rs2 } => rd < REGISTER_COUNT && rs1 < REGISTER_COUNT && rs2
                < REGISTER_COUNT,
            Instruction::Compare { flag, rs1, rs2 } => rs1 < REGISTER_COUNT && rs2
                < REGISTER_COUNT,
            Instruction::Jump { target } => target <= code_len,
            Instruction::BranchIfSet { flag, target } => target <= code_len,
            Instruction::LoadData { rd, address } => rd < REGISTER_COUNT && address < DATA_SIZE,
            Instruction::StoreData { rs, address } => rs < REGISTER_COUNT && address < DATA_SIZE,
            Instruction::Draw { rs, offset } => rs < REGISTER_COUNT && offset < FRAME_SIZE,
            Instruction::SwapFrame => true,
        }
    }

    /// Checks the operands against a program of `code_len` instructions.
    pub fn is_valid(&self, code_len: usize) -> (ok: bool)
        ensures
            ok == self.valid(code_len as int),
    {
        match *self {
            Instruction::Halt => true,
            Instruction::LoadImmediate { rd, value: _ } => in_bank(rd),
            Instruction::Add { rd, rs1, rs2 } => in_bank(rd) && in_bank(rs1) && in_bank(rs2),
            Instruction::Compare { flag: _, rs1, rs2 } => in_bank(rs1) && in_bank(rs2),
            Instruction::Jump { target } => target <= code_len,
            Instruction::BranchIfSet { flag: _, target } => target <= code_len,
            Instruction::LoadData { rd, address } => in_bank(rd) && address < DATA_SIZE,
            Instruction::StoreData { rs, address } => in_bank(rs) && address < DATA_SIZE,
            Instruction::Draw { rs, offset } => in_bank(rs) && offset < FRAME_SIZE,
            Instruction::SwapFrame => true,
        }
    }
}

/// Whether every instruction of `code` is valid for `code` itself.
pub open spec fn valid_code(code: Seq<Instruction>) -> bool {
    forall|i: int| 0 <= i < code.len() ==> (#[trigger] code[i]).valid(code.len() as int)
}

/// Whether the instruction at `index` is the first of `code` with an operand
/// out of range.
pub open spec fn first_invalid_at(code: Seq<Instruction>, index: int) -> bool {
    &&& 0 <= index < code.len()
    &&& !code[index].valid(code.len() as int)
    &&& forall|k: int| 0 <= k < index ==> (#[trigger] code[k]).valid(code.len() as int)
}

/// Checks every instruction of `code`: finds the first one with an operand
/// out of range, or none where the program is valid.
pub fn check_code(code: &[Instruction]) -> (found: Option<usize>)
    ensures
        match found {
            None => valid_code(code@),
            Some(index) => first_invalid_at(code@, index as int) && !valid_code(code@),
        },
{
    let mut i: usize = 0;
    while i < code.len()
        invariant
            i <= code.len(),
            forall|k: int| 0 <= k < i ==> (#[trigger] code@[k]).valid(code@.len() as int),
        decreases code.len() - i,
    {
        if !code[i].is_valid(code.len()) {
            return Some(i);
        }
        i += 1;
    }
    None
}

/// A program that is ready to be loaded: its instructions in order and the
/// initial content of the data segment.
pub struct ProgramImage {
    /// The instruction sequence.
    pub code: Vec<Instruction>,
    /// The initial data image.
    pub data: Vec<u8>,
}

} // verus!
