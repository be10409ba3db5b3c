//! The decoder: from an opcode byte to the one instruction it stands for.
//!
//! Several families are bit-field patterns over the same byte and overlap.
//! The families are therefore tried in a fixed order of precedence, and a
//! byte belongs to the first family that matches it.

use vstd::prelude::*;
use crate::cpu::Cpu;
use crate::error::CpuError;
use crate::modules::registers::{Flag, RegisterPair};

verus! {

/// When a jump is taken.
#[derive(Clone, Copy, Debug, PartialEq, Eq, Structural)]
pub enum Condition {
    Always,
    /// Taken when the flag is set.
    If(Flag),
    /// Taken when the flag is clear.
    IfNot(Flag),
}

/// The operations of the ALU family.
#[derive(Clone, Copy, Debug, PartialEq, Eq, Structural)]
pub enum AluOp {
    Add,
    Sub,
    And,
    Compare,
}

/// A decoded instruction. Register operands are kept as their 3-bit
/// selector codes; they are resolved when the instruction is carried out.
#[derive(Clone, Copy, Debug, PartialEq, Eq, Structural)]
pub enum Instruction {
    Halt,
    Nop,
    /// Loads the accumulator from the address given by a 16-bit operand.
    LoadDirect,
    /// Jumps to the address given by a 16-bit operand.
    Jump(Condition),
    Call,
    Return,
    Push(RegisterPair),
    Pop(RegisterPair),
    ComplementAccumulator,
    ComplementCarry,
    Move { dst: u8, src: u8 },
    /// Loads a register from an 8-bit operand.
    MoveImmediate { dst: u8 },
    Alu { op: AluOp, src: u8 },
    Increment { reg: u8 },
    Decrement { reg: u8 },
}

impl Instruction {
    /// Every register selector of the instruction is a 3-bit code.
    pub open spec fn wf(self) -> bool {
        match self {
            Instruction::Move { dst, src } => dst < 8 && src < 8,
            Instruction::MoveImmediate { dst } => dst < 8,
            Instruction::Alu { op, src } => src < 8,
            Instruction::Increment { reg } => reg < 8,
            Instruction::Decrement { reg } => reg < 8,
            _ => true,
        }
    }
}

/// The 3-bit field in bits 5 to 3 of an opcode.
pub open spec fn middle_field(op: u8) -> u8 {
    ((op as int / 8) % 8) as u8
}

/// The 3-bit field in bits 2 to 0 of an opcode.
pub open spec fn low_field(op: u8) -> u8 {
    (op as int % 8) as u8
}

/// The instruction of a byte that is an opcode by its full value.
pub open spec fn fixed_instruction(op: u8) -> Option<Instruction> {
    if op == 0x76 {
        Some(Instruction::Halt)
    } else if op == 0x00 {
        Some(Instruction::Nop)
    } else if op == 0x3A {
        Some(Instruction::LoadDirect)
    } else if op == 0xC3 {
        Some(Instruction::Jump(Condition::Always))
    } else if op == 0xCA {
        Some(Instruction::Jump(Condition::If(Flag::Zero)))
    } else if op == 0xC2 {
        Some(Instruction::Jump(Condition::IfNot(Flag::Zero)))
    } else if op == 0xF2 {
        Some(Instruction::Jump(Condition::If(Flag::Sign)))
    } else if op == 0xFA {
        Some(Instruction::Jump(Condition::IfNot(Flag::Sign)))
    } else if op == 0xDA {
        Some(Instruction::Jump(Condition::If(Flag::Carry)))
    } else if op == 0xD2 {
        Some(Instruction::Jump(Condition::IfNot(Flag::Carry)))
    } else if op == 0xEA {
        Some(Instruction::Jump(Condition::If(Flag::Parity)))
    } else if op == 0xE2 {
        Some(Instruction::Jump(Condition::IfNot(Flag::Parity)))
    } else if op == 0xCD {
        Some(Instruction::Call)
    } else if op == 0xC9 {
        Some(Instruction::Return)
    } else if op == 0xC5 {
        Some(Instruction::Push(RegisterPair::BC))
    } else if op == 0xD5 {
        Some(Instruction::Push(RegisterPair::DE))
    } else if op == 0xE5 {
        Some(Instruction::Push(RegisterPair::HL))
    } else if op == 0xF5 {
        Some(Instruction::Push(RegisterPair::PSW))
    } else if op == 0xC1 {
        Some(Instruction::Pop(RegisterPair::BC))
    } else if op == 0xD1 {
        Some(Instruction::Pop(RegisterPair::DE))
    } else if op == 0xE1 {
        Some(Instruction::Pop(RegisterPair::HL))
    } else if op == 0xF1 {
        Some(Instruction::Pop(RegisterPair::PSW))
    } else if op == 0x2F {
        Some(Instruction::ComplementAccumulator)
    } else if op == 0x3F {
        Some(Instruction::ComplementCarry)
    } else {
        None
    }
}

/// The register-to-register move family: the top two bits are 01.
pub open spec fn in_move_family(op: u8) -> bool {
    op as int / 64 == 1
}

/// The immediate-load family: the top two bits are 00 and the low three
/// bits are 110.
pub open spec fn in_move_immediate_family(op: u8) -> bool {
    op as int / 64 == 0 && op as int % 8 == 6
}

/// The operation that the top nibble selects in the ALU family.
pub open spec fn alu_family(op: u8) -> Option<AluOp> {
    if op as int / 16 == 0x8 {
        Some(AluOp::Add)
    } else if op as int / 16 == 0x9 {
        Some(AluOp::Sub)
    } else if op as int / 16 == 0xA {
        Some(AluOp::And)
    } else if op as int / 16 == 0xB {
        Some(AluOp::Compare)
    } else {
        None
    }
}

/// The increment family: the low three bits are 100.
pub open spec fn in_increment_family(op: u8) -> bool {
    op as int % 8 == 4
}

/// The decrement family: the low three bits are 101.
pub open spec fn in_decrement_family(op: u8) -> bool {
    op as int % 8 == 5
}

/// The instruction that an opcode byte stands for. The families are tried
/// from the most specific to the least: fixed opcodes, moves, immediate
/// loads, the ALU family, then increment and decrement. A byte of no
/// family is an unimplemented opcode.
pub open spec fn decode_spec(op: u8) -> Result<Instruction, CpuError> {
    if fixed_instruction(op) is Some {
        Ok(fixed_instruction(op)->Some_0)
    } else if in_move_family(op) {
        Ok(Instruction::Move { dst: middle_field(op), src: low_field(op) })
    } else if in_move_immediate_family(op) {
        Ok(Instruction::MoveImmediate { dst: middle_field(op) })
    } else if alu_family(op) is Some {
        Ok(Instruction::Alu { op: alu_family(op)->Some_0, src: low_field(op) })
    } else if in_increment_family(op) {
        Ok(Instruction::Increment { reg: middle_field(op) })
    } else if in_decrement_family(op) {
        Ok(Instruction::Decrement { reg: middle_field(op) })
    } else {
        Err(CpuError::UnimplementedOpcode(op))
    }
}

/// Decodes the opcodes that are fixed full bytes.
fn decode_fixed(op: u8) -> (instr: Option<Instruction>)
    ensures
        instr == fixed_instruction(op),
{
    match op {
        0x76 => Some(Instruction::Halt),
        0x00 => Some(Instruction::Nop),
        0x3A => Some(Instruction::LoadDirect),
        0xC3 => Some(Instruction::Jump(Condition::Always)),
        0xCA => Some(Instruction::Jump(Condition::If(Flag::Zero))),
        0xC2 => Some(Instruction::Jump(Condition::IfNot(Flag::Zero))),
        0xF2 => Some(Instruction::Jump(Condition::If(Flag::Sign))),
        0xFA => Some(Instruction::Jump(Condition::IfNot(Flag::Sign))),
        0xDA => Some(Instruction::Jump(Condition::If(Flag::Carry))),
        0xD2 => Some(Instruction::Jump(Condition::IfNot(Flag::Carry))),
        0xEA => Some(Instruction::Jump(Condition::If(Flag::Parity))),
        0xE2 => Some(Instruction::Jump(Condition::IfNot(Flag::Parity))),
        0xCD => Some(Instruction::Call),
        0xC9 => Some(Instruction::Return),
        0xC5 => Some(Instruction::Push(RegisterPair::BC)),
        0xD5 => Some(Instruction::Push(RegisterPair::DE)),
        0xE5 => Some(Instruction::Push(RegisterPair::HL)),
        0xF5 => Some(Instruction::Push(RegisterPair::PSW)),
        0xC1 => Some(Instruction::Pop(RegisterPair::BC)),
        0xD1 => Some(Instruction::Pop(RegisterPair::DE)),
        0xE1 => Some(Instruction::Pop(RegisterPair::HL)),
        0xF1 => Some(Instruction::Pop(RegisterPair::PSW)),
        0x2F => Some(Instruction::ComplementAccumulator),
        0x3F => Some(Instruction::ComplementCarry),
        _ => None,
    }
}

/// Decodes one opcode byte.
pub fn decode(op: u8) -> (r: Result<Instruction, CpuError>)
    ensures
        r == decode_spec(op),
        r is Ok ==> r->Ok_0.wf(),
{
    if let Some(instr) = decode_fixed(op) {
        return Ok(instr);
    }
    let family: u8 = op >> 4;
    let suffix: u8 = Cpu::get_second_argument(op);
    assert(op >> 4 == op / 16 && op >> 6 == op / 64) by (bit_vector);
    if (op >> 6) == 1 {
        Ok(Instruction::Move { dst: Cpu::get_first_argument(op), src: suffix })
    } else if (op >> 6) == 0 && suffix == 0b110 {
        Ok(Instruction::MoveImmediate { dst: Cpu::get_first_argument(op) })
    } else if family == 0b1000 {
        Ok(Instruction::Alu { op: AluOp::Add, src: suffix })
    } else if family == 0b1001 {
        Ok(Instruction::Alu { op: AluOp::Sub, src: suffix })
    } else if family == 0b1010 {
        Ok(Instruction::Alu { op: AluOp::And, src: suffix })
    } else if family == 0b1011 {
        Ok(Instruction::Alu { op: AluOp::Compare, src: suffix })
    } else if suffix == 0b100 {
        Ok(Instruction::Increment { reg: Cpu::get_first_argument(op) })
    } else if suffix == 0b101 {
        Ok(Instruction::Decrement { reg: Cpu::get_first_argument(op) })
    } else {
        Err(CpuError::UnimplementedOpcode(op))
    }
}

/// The dispatch table: for each of the 256 opcode bytes the instruction it
/// stands for, or the fault that it is unimplemented. It is filled once,
/// so that dispatch is a single lookup.
#[derive(Debug)]
pub struct DispatchTable {
    entries: Vec<Result<Instruction, CpuError>>,
}

impl DispatchTable {
    /// The table has an entry for every byte, and each entry is what the
    /// byte decodes to.
    pub closed spec fn wf(&self) -> bool {
        &&& self.entries@.len() == 256
        &&& forall|op: u8| #[trigger] self.entries@[op as int] == decode_spec(op)
    }

    /// Fills the table for every byte.
    pub fn new() -> (table: Self)
        ensures
            table.wf(),
    {
        let mut entries: Vec<Result<Instruction, CpuError>> = Vec::new();
        let mut op: u8 = 0;
        while op < 255
            invariant
                entries@.len() == op,
                forall|b: u8| b < op ==> #[trigger] entries@[b as int] == decode_spec(b),
            decreases 255 - op,
        {
            entries.push(decode(op));
            op += 1;
        }
        entries.push(decode(op));
        DispatchTable { entries }
    }

    /// Looks an opcode byte up.
    pub fn lookup(&self, op: u8) -> (r: Result<Instruction, CpuError>)
        requires
            self.wf(),
        ensures
            r == decode_spec(op),
            r is Ok ==> r->Ok_0.wf(),
    {
        self.entries[op as usize]
    }
}

} // verus!
