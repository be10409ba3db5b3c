//! The machine as mathematics: what an engine holds, and what a fetch, an
//! instruction, a step and a run make of it. The engine's contracts are
//! stated over these functions.

use vstd::prelude::*;
use crate::alu::{comparison_spec, conjunction_spec, difference_spec, sum_spec, AluOutput};
use crate::decoder::{decode_spec, AluOp, Condition, Instruction};
use crate::error::CpuError;
use crate::modules::memory::{overlay, word_at, MemoryView, PROGRAM_BYTES};
use crate::modules::registers::{flag_of, register_of_selector, with_flag, Flag, Registers};

verus! {

/// The state of a run. `Halted` and `Failed` are terminal.
#[derive(Clone, Copy, Debug, PartialEq, Eq, Structural)]
pub enum State {
    Running,
    /// The run ended in order: a halt instruction was carried out, or the
    /// program counter reached the end of the loaded image.
    Halted,
    /// The run ended on a fault. The registers and the memory are those
    /// from before the instruction that failed: the program counter is
    /// the address of that instruction.
    Failed(CpuError),
}

/// What an engine holds, as mathematics: the contracts of the engine speak
/// of this value.
pub struct Machine {
    pub memory: MemoryView,
    pub registers: Registers,
    pub state: State,
    /// The address just past the loaded image.
    pub image_end: u16,
}

impl Condition {
    /// Whether a jump under this condition is taken with flags byte `f`.
    pub open spec fn holds(self, f: u8) -> bool {
        match self {
            Condition::Always => true,
            Condition::If(flag) => flag_of(f, flag),
            Condition::IfNot(flag) => !flag_of(f, flag),
        }
    }
}

impl AluOp {
    /// What the operation gives on an accumulator and an operand.
    pub open spec fn apply(self, a: u8, operand: u8) -> AluOutput {
        match self {
            AluOp::Add => sum_spec(a, operand),
            AluOp::Sub => difference_spec(a, operand),
            AluOp::And => conjunction_spec(a, operand),
            AluOp::Compare => comparison_spec(a, operand),
        }
    }
}

impl Machine {
    /// The memory regions have their capacities, and the image ends within
    /// the program region.
    pub open spec fn wf(self) -> bool {
        &&& self.memory.wf()
        &&& self.image_end <= PROGRAM_BYTES
    }

    /// The machine with other registers.
    pub open spec fn with_registers(self, registers: Registers) -> Machine {
        Machine { registers, ..self }
    }

    /// The machine with another program counter.
    pub open spec fn with_pc(self, pc: u16) -> Machine {
        self.with_registers(Registers { pc, ..self.registers })
    }

    /// The machine in another state.
    pub open spec fn with_state(self, state: State) -> Machine {
        Machine { state, ..self }
    }

    /// Fetches the byte at the program counter and steps over it.
    pub open spec fn fetch_byte(self) -> Result<(u8, Machine), CpuError> {
        let pc = self.registers.pc;
        if pc < self.memory.program.len() {
            Ok((self.memory.program[pc as int], self.with_pc((pc + 1) as u16)))
        } else {
            Err(CpuError::OutOfBoundsMemoryAccess(pc))
        }
    }

    /// Fetches the little-endian word at the program counter and steps
    /// over it.
    pub open spec fn fetch_word(self) -> Result<(u16, Machine), CpuError> {
        let pc = self.registers.pc;
        if pc + 1 < self.memory.program.len() {
            Ok((word_at(self.memory.program, pc as int), self.with_pc((pc + 2) as u16)))
        } else {
            Err(CpuError::OutOfBoundsMemoryAccess(pc))
        }
    }

    /// Pushes a word: the stack pointer moves up by one slot, and the
    /// word is stored in the slot it then names. The stack is full when
    /// no slot is left above the stack pointer.
    pub open spec fn push(self, value: u16) -> Result<Machine, CpuError> {
        let sp = self.registers.sp;
        if sp + 1 < self.memory.stack.len() {
            Ok(
                Machine {
                    memory: MemoryView {
                        stack: self.memory.stack.update(sp + 1, value),
                        ..self.memory
                    },
                    registers: Registers { sp: (sp + 1) as u16, ..self.registers },
                    ..self
                },
            )
        } else {
            Err(CpuError::StackOverflow)
        }
    }

    /// Pops a word: the slot that the stack pointer names is read, and the
    /// stack pointer moves down by one slot. With the stack pointer at
    /// zero nothing has been pushed.
    pub open spec fn pop(self) -> Result<(u16, Machine), CpuError> {
        let sp = self.registers.sp;
        if sp == 0 {
            Err(CpuError::StackUnderflow)
        } else if sp >= self.memory.stack.len() {
            Err(CpuError::OutOfBoundsMemoryAccess(sp))
        } else {
            Ok(
                (
                    self.memory.stack[sp as int],
                    self.with_registers(Registers { sp: (sp - 1) as u16, ..self.registers }),
                ),
            )
        }
    }

    /// Reads a jump's 16-bit target and, where the jump is taken, moves
    /// the program counter there. A jump not taken goes on behind its
    /// operand.
    pub open spec fn jump(self, taken: bool) -> Result<Machine, CpuError> {
        match self.fetch_word() {
            Ok((target, next)) => Ok(
                if taken {
                    next.with_pc(target)
                } else {
                    next
                },
            ),
            Err(e) => Err(e),
        }
    }

    /// The machine after an ALU operation's output is stored.
    pub open spec fn with_alu_output(self, out: AluOutput) -> Machine {
        self.with_registers(Registers { a: out.value, f: out.flags, ..self.registers })
    }

    /// Carries out a decoded instruction on a machine whose program
    /// counter stands behind the opcode. An instruction that faults has
    /// no effect: the fault is all that comes back.
    pub open spec fn perform(self, instr: Instruction) -> Result<Machine, CpuError> {
        let regs = self.registers;
        match instr {
            Instruction::Halt => Ok(self),
            Instruction::Nop => Ok(self),
            Instruction::LoadDirect => match self.fetch_word() {
                Ok((addr, next)) => if addr < next.memory.program.len() {
                    Ok(
                        next.with_registers(
                            Registers { a: next.memory.program[addr as int], ..next.registers },
                        ),
                    )
                } else {
                    Err(CpuError::OutOfBoundsMemoryAccess(addr))
                },
                Err(e) => Err(e),
            },
            Instruction::Jump(condition) => self.jump(condition.holds(regs.f)),
            Instruction::Call => match self.fetch_word() {
                Ok((target, next)) => match next.push(next.registers.pc) {
                    Ok(pushed) => Ok(pushed.with_pc(target)),
                    Err(e) => Err(e),
                },
                Err(e) => Err(e),
            },
            Instruction::Return => match self.pop() {
                Ok((addr, popped)) => Ok(popped.with_pc(addr)),
                Err(e) => Err(e),
            },
            Instruction::Push(pair) => self.push(regs.pair(pair)),
            Instruction::Pop(pair) => match self.pop() {
                Ok((value, popped)) => Ok(
                    popped.with_registers(popped.registers.with_pair(pair, value)),
                ),
                Err(e) => Err(e),
            },
            Instruction::ComplementAccumulator => Ok(
                self.with_registers(Registers { a: (255 - regs.a) as u8, ..regs }),
            ),
            Instruction::ComplementCarry => Ok(
                self.with_registers(
                    Registers {
                        f: with_flag(regs.f, Flag::Carry, !flag_of(regs.f, Flag::Carry)),
                        ..regs
                    },
                ),
            ),
            Instruction::Move { dst, src } => match register_of_selector(src) {
                Ok(from) => match register_of_selector(dst) {
                    Ok(to) => Ok(self.with_registers(regs.with_reg(to, regs.reg(from)))),
                    Err(e) => Err(e),
                },
                Err(e) => Err(e),
            },
            Instruction::MoveImmediate { dst } => match self.fetch_byte() {
                Ok((value, next)) => match register_of_selector(dst) {
                    Ok(to) => Ok(next.with_registers(next.registers.with_reg(to, value))),
                    Err(e) => Err(e),
                },
                Err(e) => Err(e),
            },
            Instruction::Alu { op, src } => match register_of_selector(src) {
                Ok(from) => Ok(self.with_alu_output(op.apply(regs.a, regs.reg(from)))),
                Err(e) => Err(e),
            },
            Instruction::Increment { reg } => match register_of_selector(reg) {
                Ok(r) => Ok(
                    self.with_registers(regs.with_reg(r, ((regs.reg(r) + 1) % 256) as u8)),
                ),
                Err(e) => Err(e),
            },
            Instruction::Decrement { reg } => match register_of_selector(reg) {
                Ok(r) => Ok(
                    self.with_registers(regs.with_reg(r, ((regs.reg(r) - 1) % 256) as u8)),
                ),
                Err(e) => Err(e),
            },
        }
    }

    /// Whether `after` and `r` are what an attempt at `instr` leaves on
    /// this machine before a fault is undone: the machine that follows,
    /// or the fault, with the memory, the state and the image's end as
    /// they were and the registers yet to be put back.
    pub open spec fn attempted(
        self,
        instr: Instruction,
        r: Result<(), CpuError>,
        after: Machine,
    ) -> bool {
        match self.perform(instr) {
            Ok(done) => r is Ok && after == done,
            Err(e) => r == Err::<(), CpuError>(e) && after == self.with_registers(after.registers),
        }
    }

    /// The instruction that the next step fetches, decodes and carries
    /// out, with the machine that follows; or the fault that the step
    /// ends on.
    pub open spec fn next_instruction(self) -> Result<(Instruction, Machine), CpuError> {
        match self.fetch_byte() {
            Ok((opcode, fetched)) => match decode_spec(opcode) {
                Ok(instr) => match fetched.perform(instr) {
                    Ok(done) => Ok((instr, done)),
                    Err(e) => Err(e),
                },
                Err(e) => Err(e),
            },
            Err(e) => Err(e),
        }
    }

    /// One step of the engine. A machine that is not running stays as it
    /// is. A running one fetches, decodes and carries out one
    /// instruction; it halts on a halt instruction or when the program
    /// counter then stands at the end of the image, and it fails, with
    /// its registers and memory untouched, where the instruction faults.
    pub open spec fn step(self) -> Machine {
        if self.state != State::Running {
            self
        } else {
            match self.next_instruction() {
                Ok((instr, done)) => if instr == Instruction::Halt || done.registers.pc
                    == self.image_end {
                    done.with_state(State::Halted)
                } else {
                    done
                },
                Err(e) => self.with_state(State::Failed(e)),
            }
        }
    }

    /// The machine after at most `steps` steps: stepping ends as soon as
    /// the machine is no longer running.
    pub open spec fn run(self, steps: nat) -> Machine
        decreases steps,
    {
        if steps == 0 || self.state != State::Running {
            self
        } else {
            self.step().run((steps - 1) as nat)
        }
    }

    /// Loads an image at `base`: the image is laid into the program
    /// region, the program counter is set to `base`, and the machine
    /// runs, unless the image is empty, in which case the program counter
    /// already stands at its end. An image that does not fit is refused.
    pub open spec fn load(self, image: Seq<u8>, base: u16) -> Result<Machine, CpuError> {
        if base + image.len() <= self.memory.program.len() {
            Ok(
                Machine {
                    memory: MemoryView {
                        program: overlay(self.memory.program, base as int, image),
                        ..self.memory
                    },
                    registers: Registers { pc: base, ..self.registers },
                    state: if image.len() == 0 {
                        State::Halted
                    } else {
                        State::Running
                    },
                    image_end: (base + image.len()) as u16,
                },
            )
        } else {
            Err(CpuError::OutOfBoundsMemoryAccess(base))
        }
    }
}

/// A fault with its context: the program counter at the fault, which is
/// the address of the instruction that failed, and the byte there, where
/// one can be read.
#[derive(Clone, Copy, Debug, PartialEq, Eq, Structural)]
pub struct Failure {
    pub error: CpuError,
    pub pc: u16,
    pub opcode: Option<u8>,
}

/// What an observer is shown after a step that fetched an opcode.
#[derive(Clone, Copy, Debug, PartialEq, Eq, Structural)]
pub struct StepSnapshot {
    /// The opcode that was fetched.
    pub opcode: u8,
    /// The program counter before the step: the address of the opcode.
    pub pc_before: u16,
    /// The program counter after the step.
    pub pc_after: u16,
    /// The registers, flags included, after the step.
    pub registers: Registers,
    /// The state of the run after the step.
    pub state: State,
}

impl Machine {
    /// The fault of a failed machine with its context; nothing of a
    /// machine that has not failed.
    pub open spec fn failure(self) -> Option<Failure> {
        match self.state {
            State::Failed(error) => Some(
                Failure {
                    error,
                    pc: self.registers.pc,
                    opcode: if self.registers.pc < self.memory.program.len() {
                        Some(self.memory.program[self.registers.pc as int])
                    } else {
                        None
                    },
                },
            ),
            _ => None,
        }
    }

    /// What the next step shows an observer: nothing where no opcode is
    /// fetched, because the machine is not running or the program counter
    /// lies outside the program region.
    pub open spec fn snapshot(self) -> Option<StepSnapshot> {
        if self.state != State::Running {
            None
        } else {
            match self.fetch_byte() {
                Ok((opcode, fetched)) => Some(
                    StepSnapshot {
                        opcode,
                        pc_before: self.registers.pc,
                        pc_after: self.step().registers.pc,
                        registers: self.step().registers,
                        state: self.step().state,
                    },
                ),
                Err(e) => None,
            }
        }
    }

    /// The snapshots that a run of at most `steps` steps shows, in the
    /// order of the steps.
    pub open spec fn trace(self, steps: nat) -> Seq<StepSnapshot>
        decreases steps,
    {
        if steps == 0 || self.state != State::Running {
            Seq::empty()
        } else {
            match self.snapshot() {
                Some(shot) => seq![shot] + self.step().trace((steps - 1) as nat),
                None => self.step().trace((steps - 1) as nat),
            }
        }
    }
}

} // verus!
