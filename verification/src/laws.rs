//! What holds of the engine on every machine, proved from its semantics.

use vstd::prelude::*;
use crate::machine::{Machine, State};
use crate::decoder::{alu_family, decode_spec, low_field, AluOp, Instruction};
use crate::error::CpuError;
use crate::modules::registers::{lemma_bytes_rejoin, lemma_join_then_split, RegisterPair};

verus! {

/// A call and the return that answers it: the call at address X pushes
/// X + 3 and moves the stack pointer up by one slot; a return carried
/// out later, with the stack pointer and that slot as the call left
/// them, goes on at X + 3 and leaves the stack pointer where it was
/// before the call.
pub proof fn law_call_then_return(m: Machine, later: Machine)
    requires
        m.wf(),
        later.wf(),
        m.state == State::Running,
        m.registers.pc < m.memory.program.len(),
        m.memory.program[m.registers.pc as int] == 0xCD,
        !(m.step().state is Failed),
        later.state == State::Running,
        later.registers.pc < later.memory.program.len(),
        later.memory.program[later.registers.pc as int] == 0xC9,
        later.registers.sp == m.step().registers.sp,
        later.memory.stack[later.registers.sp as int] == m.step().memory.stack[m.step().registers.sp as int],
    ensures
        m.step().registers.sp == m.registers.sp + 1,
        m.step().memory.stack[m.step().registers.sp as int] == m.registers.pc + 3,
        !(later.step().state is Failed),
        later.step().registers.pc == m.registers.pc + 3,
        later.step().registers.sp == m.registers.sp,
{
    assert(decode_spec(0xCD) == Ok::<Instruction, CpuError>(Instruction::Call));
    assert(decode_spec(0xC9) == Ok::<Instruction, CpuError>(Instruction::Return));
}

/// A push and the pop that answers it: popping a pair that was just
/// pushed gives the pair its value back and leaves every register, the
/// stack pointer among them, as it was before the push.
pub proof fn law_push_then_pop(m: Machine, pair: RegisterPair)
    requires
        m.wf(),
        m.perform(Instruction::Push(pair)) is Ok,
    ensures
        m.perform(Instruction::Push(pair))->Ok_0.perform(Instruction::Pop(pair)) is Ok,
        m.perform(Instruction::Push(pair))->Ok_0.perform(Instruction::Pop(pair))->Ok_0.registers
            == m.registers,
        m.perform(Instruction::Push(pair))->Ok_0.registers.sp == m.registers.sp + 1,
{
    lemma_join_then_split(m.registers.high(pair), m.registers.low(pair));
    lemma_bytes_rejoin(m.registers.pair(pair));
}

/// A running machine halts in a step exactly when the step carries out
/// its instruction without a fault and either that instruction is the
/// halt instruction or the program counter then stands at the end of the
/// loaded image.
pub proof fn law_step_halts_at_end_or_on_halt(m: Machine)
    requires
        m.wf(),
        m.state == State::Running,
    ensures
        m.step().state == State::Halted <==> m.next_instruction() is Ok && (
        m.next_instruction()->Ok_0.0 == Instruction::Halt
            || m.next_instruction()->Ok_0.1.registers.pc == m.image_end),
        m.step().state is Failed <==> m.next_instruction() is Err,
        m.step().image_end == m.image_end,
{
    lemma_perform_keeps_state(m);
}

/// Loading an image of length N at base B sets the program counter to B
/// and the image's end to B + N, and the machine then runs exactly when
/// the image is not empty: an empty image has the program counter at its
/// end at once.
pub proof fn law_load_runs_unless_empty(m: Machine, image: Seq<u8>, base: u16)
    requires
        m.wf(),
        m.load(image, base) is Ok,
    ensures
        m.load(image, base)->Ok_0.wf(),
        m.load(image, base)->Ok_0.registers.pc == base,
        m.load(image, base)->Ok_0.image_end == base + image.len(),
        m.load(image, base)->Ok_0.state == State::Running <==> image.len() > 0,
        m.load(image, base)->Ok_0.state == State::Halted <==> image.len() == 0,
        forall|i: int|
            0 <= i < image.len() ==> m.load(image, base)->Ok_0.memory.program[base + i] == image[i],
{
}

/// A machine that a load or a step has left running does not stand at
/// the end of its image: the engine halts as soon as the program counter
/// arrives there.
pub proof fn law_running_is_not_at_end(m: Machine, image: Seq<u8>, base: u16)
    requires
        m.wf(),
    ensures
        m.load(image, base) is Ok && m.load(image, base)->Ok_0.state == State::Running
            ==> m.load(image, base)->Ok_0.registers.pc != m.load(image, base)->Ok_0.image_end,
        m.state == State::Running && m.step().state == State::Running ==> m.step().registers.pc
            != m.step().image_end,
{
    if m.state == State::Running {
        lemma_perform_keeps_state(m);
    }
}

/// At every point of a run that began before the end of the image, a
/// machine that is still running has not reached that end; and the
/// machine stays valid throughout.
pub proof fn law_run_stays_before_end(m: Machine, steps: nat)
    requires
        m.wf(),
        m.state == State::Running ==> m.registers.pc != m.image_end,
    ensures
        m.run(steps).wf(),
        m.run(steps).image_end == m.image_end,
        m.run(steps).state == State::Running ==> m.run(steps).registers.pc != m.image_end,
    decreases steps,
{
    if steps != 0 && m.state == State::Running {
        lemma_perform_keeps_state(m);
        law_run_stays_before_end(m.step(), (steps - 1) as nat);
    }
}

/// Halted and failed are terminal: no step and no run changes such a
/// machine.
pub proof fn law_terminal_states_stay(m: Machine, steps: nat)
    requires
        m.state != State::Running,
    ensures
        m.step() == m,
        m.run(steps) == m,
{
}

/// A run of one step more is a run followed by a step, so a run never
/// leaves a terminal state once it is reached, and its steps are those
/// of `step`.
pub proof fn law_run_unfolds(m: Machine, steps: nat)
    ensures
        m.run(steps + 1) == m.run(steps).step(),
    decreases steps,
{
    if steps == 0 || m.state != State::Running {
        if m.state != State::Running {
            assert(m.run(steps) == m);
        } else {
            assert(m.run(1) == m.step().run(0));
        }
    } else {
        law_run_unfolds(m.step(), (steps - 1) as nat);
        assert(m.run(steps + 1) == m.step().run(steps));
    }
}

/// A running machine that fetches a byte of no instruction family fails
/// with that byte named, and its registers and memory stay as they were.
pub proof fn law_unimplemented_opcode_fails(m: Machine)
    requires
        m.state == State::Running,
        m.registers.pc < m.memory.program.len(),
        decode_spec(m.memory.program[m.registers.pc as int]) is Err,
    ensures
        m.step() == m.with_state(
            State::Failed(CpuError::UnimplementedOpcode(m.memory.program[m.registers.pc as int])),
        ),
{
}

/// The memory-indirect operand is unsupported wherever a register
/// selector can name it: an instruction that names it faults, and a
/// running machine that fetches an ALU opcode with that operand fails
/// with its registers and memory as they were.
pub proof fn law_memory_indirect_is_unsupported(m: Machine, op: AluOp, other: u8)
    requires
        other < 8,
    ensures
        m.perform(Instruction::Alu { op, src: 6 }) == Err::<Machine, CpuError>(
            CpuError::UnsupportedAddressingMode,
        ),
        m.perform(Instruction::Move { dst: other, src: 6 }) == Err::<Machine, CpuError>(
            CpuError::UnsupportedAddressingMode,
        ),
        m.perform(Instruction::Move { dst: 6, src: other }) == Err::<Machine, CpuError>(
            CpuError::UnsupportedAddressingMode,
        ),
        m.perform(Instruction::Increment { reg: 6 }) == Err::<Machine, CpuError>(
            CpuError::UnsupportedAddressingMode,
        ),
        m.perform(Instruction::Decrement { reg: 6 }) == Err::<Machine, CpuError>(
            CpuError::UnsupportedAddressingMode,
        ),
        m.fetch_byte() is Ok ==> m.perform(Instruction::MoveImmediate { dst: 6 }) == Err::<
            Machine,
            CpuError,
        >(CpuError::UnsupportedAddressingMode),
        m.state == State::Running && m.registers.pc < m.memory.program.len() && alu_family(
            m.memory.program[m.registers.pc as int],
        ) is Some && low_field(m.memory.program[m.registers.pc as int]) == 6 ==> m.step()
            == m.with_state(State::Failed(CpuError::UnsupportedAddressingMode)),
{
}

/// A step that fails changes nothing but the state: the registers, the
/// program counter among them, and the memory are those from before the
/// instruction.
pub proof fn law_failed_step_changes_only_state(m: Machine)
    requires
        m.state == State::Running,
        m.step().state is Failed,
    ensures
        m.step().registers == m.registers,
        m.step().memory == m.memory,
        m.step().image_end == m.image_end,
{
    lemma_perform_keeps_state(m);
}

/// Carrying an instruction out touches neither the state of the run nor
/// the end of the image, and keeps the memory regions at their sizes.
pub proof fn lemma_perform_keeps_state(m: Machine)
    ensures
        m.next_instruction() is Ok ==> {
            &&& m.next_instruction()->Ok_0.1.state == m.state
            &&& m.next_instruction()->Ok_0.1.image_end == m.image_end
            &&& m.wf() ==> m.next_instruction()->Ok_0.1.wf()
        },
{
}

/// A step keeps a valid machine valid.
pub proof fn law_step_keeps_validity(m: Machine)
    requires
        m.wf(),
    ensures
        m.step().wf(),
{
    lemma_perform_keeps_state(m);
}

} // verus!
