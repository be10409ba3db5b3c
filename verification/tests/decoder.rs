use emu8080::cpu::Cpu;
use emu8080::decoder::{decode, AluOp, Condition, DispatchTable, Instruction};
use emu8080::error::CpuError;
use emu8080::modules::registers::{Flag, RegisterPair};

#[test]
fn opcode_fields() {
    assert_eq!(Cpu::get_first_argument(0b01_101_010), 0b101);
    assert_eq!(Cpu::get_second_argument(0b01_101_010), 0b010);
    assert_eq!(Cpu::get_first_argument(0xFF), 7);
    assert_eq!(Cpu::get_second_argument(0xFF), 7);
    assert_eq!(Cpu::get_first_argument(0x00), 0);
    assert_eq!(Cpu::get_second_argument(0x00), 0);
    assert_eq!(Cpu::get_first_argument(0xC7), 0);
    assert_eq!(Cpu::get_second_argument(0xF8), 0);
}

#[test]
fn fixed_opcodes() {
    assert_eq!(decode(0x76), Ok(Instruction::Halt));
    assert_eq!(decode(0x00), Ok(Instruction::Nop));
    assert_eq!(decode(0x3A), Ok(Instruction::LoadDirect));
    assert_eq!(decode(0xCD), Ok(Instruction::Call));
    assert_eq!(decode(0xC9), Ok(Instruction::Return));
    assert_eq!(decode(0x2F), Ok(Instruction::ComplementAccumulator));
    assert_eq!(decode(0x3F), Ok(Instruction::ComplementCarry));
}

#[test]
fn jump_table() {
    assert_eq!(decode(0xC3), Ok(Instruction::Jump(Condition::Always)));
    assert_eq!(decode(0xCA), Ok(Instruction::Jump(Condition::If(Flag::Zero))));
    assert_eq!(decode(0xC2), Ok(Instruction::Jump(Condition::IfNot(Flag::Zero))));
    assert_eq!(decode(0xF2), Ok(Instruction::Jump(Condition::If(Flag::Sign))));
    assert_eq!(decode(0xFA), Ok(Instruction::Jump(Condition::IfNot(Flag::Sign))));
    assert_eq!(decode(0xDA), Ok(Instruction::Jump(Condition::If(Flag::Carry))));
    assert_eq!(decode(0xD2), Ok(Instruction::Jump(Condition::IfNot(Flag::Carry))));
    assert_eq!(decode(0xEA), Ok(Instruction::Jump(Condition::If(Flag::Parity))));
    assert_eq!(decode(0xE2), Ok(Instruction::Jump(Condition::IfNot(Flag::Parity))));
}

#[test]
fn push_and_pop_name_their_pairs() {
    assert_eq!(decode(0xC5), Ok(Instruction::Push(RegisterPair::BC)));
    assert_eq!(decode(0xD5), Ok(Instruction::Push(RegisterPair::DE)));
    assert_eq!(decode(0xE5), Ok(Instruction::Push(RegisterPair::HL)));
    assert_eq!(decode(0xF5), Ok(Instruction::Push(RegisterPair::PSW)));
    assert_eq!(decode(0xC1), Ok(Instruction::Pop(RegisterPair::BC)));
    assert_eq!(decode(0xD1), Ok(Instruction::Pop(RegisterPair::DE)));
    assert_eq!(decode(0xE1), Ok(Instruction::Pop(RegisterPair::HL)));
    assert_eq!(decode(0xF1), Ok(Instruction::Pop(RegisterPair::PSW)));
}

#[test]
fn move_family_covers_the_second_quarter_but_halt() {
    for op in 0x40u8..=0x7F {
        if op == 0x76 {
            assert_eq!(decode(op), Ok(Instruction::Halt));
        } else {
            assert_eq!(
                decode(op),
                Ok(Instruction::Move { dst: (op >> 3) & 7, src: op & 7 })
            );
        }
    }
    assert_eq!(decode(0x41), Ok(Instruction::Move { dst: 0, src: 1 }));
    assert_eq!(decode(0x7F), Ok(Instruction::Move { dst: 7, src: 7 }));
}

#[test]
fn immediate_loads() {
    assert_eq!(decode(0x06), Ok(Instruction::MoveImmediate { dst: 0 }));
    assert_eq!(decode(0x0E), Ok(Instruction::MoveImmediate { dst: 1 }));
    assert_eq!(decode(0x3E), Ok(Instruction::MoveImmediate { dst: 7 }));
    assert_eq!(decode(0x36), Ok(Instruction::MoveImmediate { dst: 6 }));
    for dst in 0u8..8 {
        assert_eq!(decode((dst << 3) | 0b110), Ok(Instruction::MoveImmediate { dst }));
    }
}

#[test]
fn immediate_loads_have_the_top_two_bits_clear() {
    for op in 0u16..256 {
        let op = op as u8;
        let is_immediate_load = matches!(decode(op), Ok(Instruction::MoveImmediate { .. }));
        assert_eq!(is_immediate_load, op >> 6 == 0 && op & 7 == 6);
    }
}

#[test]
fn alu_family_with_the_memory_indirect_operand() {
    assert_eq!(decode(0x86), Ok(Instruction::Alu { op: AluOp::Add, src: 6 }));
    assert_eq!(decode(0x8E), Ok(Instruction::Alu { op: AluOp::Add, src: 6 }));
    assert_eq!(decode(0x96), Ok(Instruction::Alu { op: AluOp::Sub, src: 6 }));
    assert_eq!(decode(0x9E), Ok(Instruction::Alu { op: AluOp::Sub, src: 6 }));
    assert_eq!(decode(0xA6), Ok(Instruction::Alu { op: AluOp::And, src: 6 }));
    assert_eq!(decode(0xAE), Ok(Instruction::Alu { op: AluOp::And, src: 6 }));
    assert_eq!(decode(0xB6), Ok(Instruction::Alu { op: AluOp::Compare, src: 6 }));
    assert_eq!(decode(0xBE), Ok(Instruction::Alu { op: AluOp::Compare, src: 6 }));
}

#[test]
fn alu_family_covers_its_four_nibbles() {
    for op in 0x80u8..=0xBF {
        let expected = match op >> 4 {
            0x8 => AluOp::Add,
            0x9 => AluOp::Sub,
            0xA => AluOp::And,
            _ => AluOp::Compare,
        };
        assert_eq!(decode(op), Ok(Instruction::Alu { op: expected, src: op & 7 }));
    }
}

#[test]
fn alu_family_is_selected_by_the_top_nibble() {
    assert_eq!(decode(0x80), Ok(Instruction::Alu { op: AluOp::Add, src: 0 }));
    assert_eq!(decode(0x87), Ok(Instruction::Alu { op: AluOp::Add, src: 7 }));
    assert_eq!(decode(0x89), Ok(Instruction::Alu { op: AluOp::Add, src: 1 }));
    assert_eq!(decode(0x91), Ok(Instruction::Alu { op: AluOp::Sub, src: 1 }));
    assert_eq!(decode(0xA2), Ok(Instruction::Alu { op: AluOp::And, src: 2 }));
    assert_eq!(decode(0xBB), Ok(Instruction::Alu { op: AluOp::Compare, src: 3 }));
}

#[test]
fn increment_and_decrement() {
    assert_eq!(decode(0x04), Ok(Instruction::Increment { reg: 0 }));
    assert_eq!(decode(0x3C), Ok(Instruction::Increment { reg: 7 }));
    assert_eq!(decode(0x05), Ok(Instruction::Decrement { reg: 0 }));
    assert_eq!(decode(0x3D), Ok(Instruction::Decrement { reg: 7 }));
}

#[test]
fn overlapping_patterns_go_to_the_higher_family() {
    // a fixed opcode before the move family
    assert_eq!(decode(0x76), Ok(Instruction::Halt));
    // fixed opcodes before the decrement suffix
    assert_eq!(decode(0xCD), Ok(Instruction::Call));
    assert_eq!(decode(0xC5), Ok(Instruction::Push(RegisterPair::BC)));
    // the move family before the suffix families
    assert_eq!(decode(0x46), Ok(Instruction::Move { dst: 0, src: 6 }));
    assert_eq!(decode(0x44), Ok(Instruction::Move { dst: 0, src: 4 }));
    assert_eq!(decode(0x45), Ok(Instruction::Move { dst: 0, src: 5 }));
    // the ALU family before the increment and decrement suffixes
    assert_eq!(decode(0x84), Ok(Instruction::Alu { op: AluOp::Add, src: 4 }));
    assert_eq!(decode(0x95), Ok(Instruction::Alu { op: AluOp::Sub, src: 5 }));
}

#[test]
fn bytes_of_no_family_are_unimplemented() {
    for op in [0x01u8, 0x02, 0x03, 0x07, 0x08, 0x32, 0xC0, 0xC7, 0xD3, 0xD9, 0xE9, 0xFB, 0xFF] {
        assert_eq!(decode(op), Err(CpuError::UnimplementedOpcode(op)));
    }
}

#[test]
fn suffix_110_under_the_top_bits_11_is_of_no_family() {
    for op in [0xC6u8, 0xCE, 0xD6, 0xDE, 0xE6, 0xEE, 0xF6, 0xFE] {
        assert_eq!(decode(op), Err(CpuError::UnimplementedOpcode(op)));
    }
}

#[test]
fn every_byte_decodes_to_one_instruction_or_is_unimplemented() {
    let mut unimplemented = 0;
    for op in 0u16..256 {
        let op = op as u8;
        match decode(op) {
            Ok(_) => {}
            Err(e) => {
                assert_eq!(e, CpuError::UnimplementedOpcode(op));
                unimplemented += 1;
            }
        }
    }
    assert_eq!(unimplemented, 70);
}

#[test]
fn dispatch_table_agrees_with_decode_on_every_byte() {
    let table = DispatchTable::new();
    for op in 0u16..256 {
        let op = op as u8;
        assert_eq!(table.lookup(op), decode(op));
    }
}
