//! The execution engine: one memory, one register file, and the
//! fetch-decode-execute step that moves them on.

use vstd::prelude::*;
use crate::alu::{comparison_spec, conjunction_spec, difference_spec, sum_spec, AluOutput};
use crate::decoder::{low_field, middle_field, AluOp, Condition, DispatchTable, Instruction};
use crate::error::CpuError;
use crate::machine::{Failure, Machine, State, StepSnapshot};
use crate::modules::memory::{Memory, MemoryView, PROGRAM_BYTES};
use crate::modules::registers::{Flag, Register, RegisterPair, Registers};

verus! {

/// A sink for the snapshots of a run. How they are presented is the
/// observer's concern; that each one is taken, in order, is its contract.
pub trait StepObserver {
    /// The snapshots that the observer has taken so far, in order.
    spec fn seen(&self) -> Seq<StepSnapshot>;

    /// Takes the snapshot of the step that has just been made.
    fn observe(&mut self, snapshot: &StepSnapshot)
        ensures
            final(self).seen() == old(self).seen().push(*snapshot),
    ;
}

/// An observer that keeps every snapshot, in the order of the steps.
#[derive(Debug)]
pub struct Trace {
    pub steps: Vec<StepSnapshot>,
}

impl Trace {
    /// A trace that holds no snapshot yet.
    pub fn new() -> (trace: Self)
        ensures
            trace.steps@ == Seq::<StepSnapshot>::empty(),
            trace.seen() == Seq::<StepSnapshot>::empty(),
    {
        Trace { steps: Vec::new() }
    }
}

impl StepObserver for Trace {
    /// A trace has seen the snapshots that it holds.
    open spec fn seen(&self) -> Seq<StepSnapshot> {
        self.steps@
    }

    fn observe(&mut self, snapshot: &StepSnapshot) {
        self.steps.push(*snapshot);
    }
}

/// Hands snapshots to an observer and keeps account of what it has
/// handed over. The account is the reporter's own; what the observer has
/// taken is the observer's `seen`.
pub struct Reporter<O> {
    observer: O,
    shown: Ghost<Seq<StepSnapshot>>,
}

impl<O: StepObserver> Reporter<O> {
    /// The snapshots handed to the observer so far, in order.
    pub closed spec fn shown(&self) -> Seq<StepSnapshot> {
        self.shown@
    }

    /// The observer that the reporter holds, as it now is.
    pub closed spec fn held(&self) -> O {
        self.observer
    }

    /// A reporter that holds `observer` and has shown it nothing yet.
    pub fn new(observer: O) -> (reporter: Self)
        ensures
            reporter.held() == observer,
            reporter.shown() == Seq::<StepSnapshot>::empty(),
    {
        Reporter { observer, shown: Ghost(Seq::empty()) }
    }

    /// Hands one snapshot to the observer, which takes it.
    pub fn show(&mut self, snapshot: &StepSnapshot)
        ensures
            final(self).held().seen() == old(self).held().seen().push(*snapshot),
            final(self).shown() == old(self).shown().push(*snapshot),
    {
        self.observer.observe(snapshot);
        proof {
            self.shown@ = self.shown@.push(*snapshot);
        }
    }

    /// The observer that the reporter holds, for reading.
    pub fn observer(&self) -> (observer: &O)
        ensures
            *observer == self.held(),
    {
        &self.observer
    }

    /// Gives the observer back, as the snapshots shown have left it, and
    /// ends the reporter.
    pub fn into_observer(self) -> (observer: O)
        ensures
            observer == self.held(),
    {
        self.observer
    }
}

/// The engine. Each engine owns its memory and its registers; engines
/// share nothing.
#[derive(Debug)]
pub struct Cpu {
    pub memory: Memory,
    pub registers: Registers,
    pub state: State,
    /// The address just past the loaded image.
    pub image_end: u16,
    pub dispatch: DispatchTable,
}

impl View for Cpu {
    type V = Machine;

    open spec fn view(&self) -> Machine {
        Machine {
            memory: self.memory@,
            registers: self.registers,
            state: self.state,
            image_end: self.image_end,
        }
    }
}

impl Cpu {
    /// The engine is valid: its machine is, and its dispatch table is
    /// filled.
    pub open spec fn wf(&self) -> bool {
        &&& self@.wf()
        &&& self.dispatch.wf()
    }

    /// Whether the engine is running.
    pub fn is_running(&self) -> (running: bool)
        ensures
            running == (self@.state == State::Running),
    {
        match self.state {
            State::Running => true,
            _ => false,
        }
    }

    /// The fault that ended the run, with the address and the opcode of
    /// the instruction that failed.
    pub fn failure(&self) -> (failure: Option<Failure>)
        ensures
            failure == self@.failure(),
    {
        match self.state {
            State::Failed(error) => {
                let opcode: Option<u8> = match self.memory.read_byte(self.registers.pc) {
                    Ok(byte) => Some(byte),
                    Err(_) => None,
                };
                Some(Failure { error, pc: self.registers.pc, opcode })
            },
            _ => None,
        }
    }

    /// An engine with zeroed memory and registers and no image loaded.
    pub fn new() -> (cpu: Self)
        ensures
            cpu.wf(),
            cpu@ == (Machine {
                memory: MemoryView::zeroed(),
                registers: Registers::zeroed(),
                state: State::Halted,
                image_end: 0,
            }),
    {
        Self {
            memory: Memory::new(),
            registers: Registers::new(),
            state: State::Halted,
            image_end: 0,
            dispatch: DispatchTable::new(),
        }
    }

    /// The destination field of an opcode: bits 5 to 3.
    pub fn get_first_argument(op: u8) -> (field: u8)
        ensures
            field == middle_field(op),
            field < 8,
    {
        assert((op & 0b111000) >> 3 == (op / 8) % 8) by (bit_vector);
        (op & 0b111000) >> 3
    }

    /// The source field of an opcode: bits 2 to 0.
    pub fn get_second_argument(op: u8) -> (field: u8)
        ensures
            field == low_field(op),
            field < 8,
    {
        assert(op & 0b000111 == op % 8) by (bit_vector);
        op & 0b000111
    }
}

// Access to the program region at the program counter.
impl Cpu {
    /// Fetches the byte at the program counter and steps over it. Where
    /// the program counter lies outside the program region, the engine
    /// is left as it was.
    pub fn get_w(&mut self) -> (r: Result<u8, CpuError>)
        requires
            old(self).wf(),
        ensures
            final(self).wf(),
            match old(self)@.fetch_byte() {
                Ok((byte, next)) => r == Ok::<u8, CpuError>(byte) && final(self)@ == next,
                Err(e) => r == Err::<u8, CpuError>(e) && final(self)@ == old(self)@,
            },
    {
        match self.memory.read_byte(self.registers.pc) {
            Ok(data) => {
                self.registers.pc += 1;
                Ok(data)
            },
            Err(e) => Err(e),
        }
    }

    /// Fetches the little-endian word at the program counter and steps
    /// over it. Where the word does not lie within the program region,
    /// the engine is left as it was.
    pub fn get_dw(&mut self) -> (r: Result<u16, CpuError>)
        requires
            old(self).wf(),
        ensures
            final(self).wf(),
            match old(self)@.fetch_word() {
                Ok((word, next)) => r == Ok::<u16, CpuError>(word) && final(self)@ == next,
                Err(e) => r == Err::<u16, CpuError>(e) && final(self)@ == old(self)@,
            },
    {
        match self.memory.read_word(self.registers.pc) {
            Ok(data) => {
                self.registers.pc += 2;
                Ok(data)
            },
            Err(e) => Err(e),
        }
    }

    /// The `amount + 1` bytes of the program region from `start` on.
    pub fn _get_slice(&self, start: u16, amount: u16) -> (r: Result<&[u8], CpuError>)
        requires
            self.wf(),
        ensures
            start + amount + 1 <= PROGRAM_BYTES ==> r is Ok && r->Ok_0@
                == self@.memory.program.subrange(start as int, start + amount + 1),
            start + amount + 1 > PROGRAM_BYTES ==> r == Err::<&[u8], CpuError>(
                CpuError::OutOfBoundsMemoryAccess(start),
            ),
    {
        let from: usize = start as usize;
        let count: usize = amount as usize + 1;
        if from > PROGRAM_BYTES || count > PROGRAM_BYTES - from {
            return Err(CpuError::OutOfBoundsMemoryAccess(start));
        }
        Ok(self.memory.program.slice(from, from + count))
    }
}

// Stack operations.
impl Cpu {
    /// Pushes a word onto the stack. On a full stack nothing changes.
    pub fn stack_push(&mut self, value: u16) -> (r: Result<(), CpuError>)
        requires
            old(self).wf(),
        ensures
            final(self).wf(),
            match old(self)@.push(value) {
                Ok(pushed) => r is Ok && final(self)@ == pushed,
                Err(e) => r == Err::<(), CpuError>(e) && final(self)@ == old(self)@,
            },
    {
        let sp: u16 = self.registers.sp;
        if (sp as usize) + 1 < self.memory.stack.len() {
            let _ = self.memory.stack.write(sp + 1, value);
            self.registers.sp = sp + 1;
            Ok(())
        } else {
            Err(CpuError::StackOverflow)
        }
    }

    /// Pops a word off the stack. On an empty stack nothing changes.
    pub fn stack_pop(&mut self) -> (r: Result<u16, CpuError>)
        requires
            old(self).wf(),
        ensures
            final(self).wf(),
            match old(self)@.pop() {
                Ok((value, popped)) => r == Ok::<u16, CpuError>(value) && final(self)@ == popped,
                Err(e) => r == Err::<u16, CpuError>(e) && final(self)@ == old(self)@,
            },
    {
        let sp: u16 = self.registers.sp;
        if sp == 0 {
            return Err(CpuError::StackUnderflow);
        }
        match self.memory.stack.read(sp) {
            Ok(value) => {
                self.registers.sp = sp - 1;
                Ok(value)
            },
            Err(e) => Err(e),
        }
    }
}

// ALU operations on the accumulator.
impl Cpu {
    /// Stores an ALU result: the accumulator and the whole flags byte.
    fn store(&mut self, out: AluOutput)
        ensures
            final(self)@ == old(self)@.with_alu_output(out),
            old(self).wf() ==> final(self).wf(),
    {
        self.registers.a = out.value;
        self.registers.f = out.flags;
    }

    /// Adds `value` to the accumulator and sets the flags.
    pub fn alu_add(&mut self, value: u8)
        ensures
            final(self)@ == old(self)@.with_alu_output(sum_spec(old(self)@.registers.a, value)),
            old(self).wf() ==> final(self).wf(),
    {
        self.store(crate::alu::sum(self.registers.a, value));
    }

    /// Subtracts `value` from the accumulator and sets the flags.
    pub fn alu_sub(&mut self, value: u8)
        ensures
            final(self)@ == old(self)@.with_alu_output(
                difference_spec(old(self)@.registers.a, value),
            ),
            old(self).wf() ==> final(self).wf(),
    {
        self.store(crate::alu::difference(self.registers.a, value));
    }

    /// Ands `value` into the accumulator and sets the flags.
    pub fn alu_and(&mut self, value: u8)
        ensures
            final(self)@ == old(self)@.with_alu_output(
                conjunction_spec(old(self)@.registers.a, value),
            ),
            old(self).wf() ==> final(self).wf(),
    {
        self.store(crate::alu::conjunction(self.registers.a, value));
    }

    /// Sets the flags as a subtraction of `value` would and keeps the
    /// accumulator.
    pub fn alu_compare(&mut self, value: u8)
        ensures
            final(self)@ == old(self)@.with_alu_output(
                comparison_spec(old(self)@.registers.a, value),
            ),
            old(self).wf() ==> final(self).wf(),
    {
        self.store(crate::alu::comparison(self.registers.a, value));
    }

    /// Reads a jump's target and jumps there where `exp` holds. Where the
    /// target cannot be read, the engine is left as it was.
    pub fn alu_jmp(&mut self, exp: bool) -> (r: Result<(), CpuError>)
        requires
            old(self).wf(),
        ensures
            final(self).wf(),
            match old(self)@.jump(exp) {
                Ok(jumped) => r is Ok && final(self)@ == jumped,
                Err(e) => r == Err::<(), CpuError>(e) && final(self)@ == old(self)@,
            },
    {
        match self.get_dw() {
            Ok(to_address) => {
                if exp {
                    self.registers.pc = to_address;
                }
                Ok(())
            },
            Err(e) => Err(e),
        }
    }
}

// The fetch-decode-execute loop.
impl Cpu {
    /// Loads the accumulator from the address that the operand gives.
    fn load_direct(&mut self) -> (r: Result<(), CpuError>)
        requires
            old(self).wf(),
        ensures
            final(self).wf(),
            old(self)@.attempted(Instruction::LoadDirect, r, final(self)@),
    {
        let addr: u16 = match self.get_dw() {
            Ok(addr) => addr,
            Err(e) => {
                return Err(e);
            },
        };
        match self.memory.read_byte(addr) {
            Ok(value) => {
                self.registers.a = value;
                Ok(())
            },
            Err(e) => Err(e),
        }
    }

    /// Jumps where the condition holds of the flags.
    fn jump_on(&mut self, condition: Condition) -> (r: Result<(), CpuError>)
        requires
            old(self).wf(),
        ensures
            final(self).wf(),
            old(self)@.attempted(Instruction::Jump(condition), r, final(self)@),
    {
        let taken: bool = match condition {
            Condition::Always => true,
            Condition::If(flag) => self.registers.get_flag(flag),
            Condition::IfNot(flag) => !self.registers.get_flag(flag),
        };
        self.alu_jmp(taken)
    }

    /// Pushes the address behind the call's operand and jumps to the
    /// target.
    fn call(&mut self) -> (r: Result<(), CpuError>)
        requires
            old(self).wf(),
        ensures
            final(self).wf(),
            old(self)@.attempted(Instruction::Call, r, final(self)@),
    {
        let target: u16 = match self.get_dw() {
            Ok(target) => target,
            Err(e) => {
                return Err(e);
            },
        };
        match self.stack_push(self.registers.pc) {
            Ok(()) => {
                self.registers.pc = target;
                Ok(())
            },
            Err(e) => Err(e),
        }
    }

    /// Pops an address and goes on there.
    fn ret(&mut self) -> (r: Result<(), CpuError>)
        requires
            old(self).wf(),
        ensures
            final(self).wf(),
            old(self)@.attempted(Instruction::Return, r, final(self)@),
    {
        match self.stack_pop() {
            Ok(addr) => {
                self.registers.pc = addr;
                Ok(())
            },
            Err(e) => Err(e),
        }
    }

    /// Pushes a register pair.
    fn push_pair(&mut self, pair: RegisterPair) -> (r: Result<(), CpuError>)
        requires
            old(self).wf(),
        ensures
            final(self).wf(),
            old(self)@.attempted(Instruction::Push(pair), r, final(self)@),
    {
        let value: u16 = self.registers.read_pair(pair);
        self.stack_push(value)
    }

    /// Pops a word into a register pair.
    fn pop_pair(&mut self, pair: RegisterPair) -> (r: Result<(), CpuError>)
        requires
            old(self).wf(),
        ensures
            final(self).wf(),
            old(self)@.attempted(Instruction::Pop(pair), r, final(self)@),
    {
        match self.stack_pop() {
            Ok(value) => {
                self.registers.write_pair(pair, value);
                Ok(())
            },
            Err(e) => Err(e),
        }
    }

    /// Complements the accumulator bit by bit.
    fn complement_accumulator(&mut self)
        requires
            old(self).wf(),
        ensures
            final(self).wf(),
            old(self)@.perform(Instruction::ComplementAccumulator) == Ok::<Machine, CpuError>(
                final(self)@,
            ),
    {
        let a: u8 = self.registers.a;
        assert(!a == 255 - a) by (bit_vector);
        self.registers.a = !a;
    }

    /// Complements the carry flag.
    fn complement_carry(&mut self)
        requires
            old(self).wf(),
        ensures
            final(self).wf(),
            old(self)@.perform(Instruction::ComplementCarry) == Ok::<Machine, CpuError>(
                final(self)@,
            ),
    {
        let carry: bool = self.registers.get_flag(Flag::Carry);
        self.registers.set_flag(Flag::Carry, !carry);
    }

    /// Copies one register into another.
    fn move_register(&mut self, dst: u8, src: u8) -> (r: Result<(), CpuError>)
        requires
            old(self).wf(),
            dst < 8,
            src < 8,
        ensures
            final(self).wf(),
            old(self)@.attempted(Instruction::Move { dst, src }, r, final(self)@),
    {
        let from: Register = match Registers::bin_as_register(src) {
            Ok(from) => from,
            Err(e) => {
                return Err(e);
            },
        };
        match Registers::bin_as_register(dst) {
            Ok(to) => {
                let value: u8 = self.registers.read(from);
                self.registers.write(to, value);
                Ok(())
            },
            Err(e) => Err(e),
        }
    }

    /// Loads a register from the operand byte.
    fn move_immediate(&mut self, dst: u8) -> (r: Result<(), CpuError>)
        requires
            old(self).wf(),
            dst < 8,
        ensures
            final(self).wf(),
            old(self)@.attempted(Instruction::MoveImmediate { dst }, r, final(self)@),
    {
        let value: u8 = match self.get_w() {
            Ok(value) => value,
            Err(e) => {
                return Err(e);
            },
        };
        match Registers::bin_as_register(dst) {
            Ok(to) => {
                self.registers.write(to, value);
                Ok(())
            },
            Err(e) => Err(e),
        }
    }

    /// Applies an ALU operation to the accumulator and a register.
    fn alu_register(&mut self, op: AluOp, src: u8) -> (r: Result<(), CpuError>)
        requires
            old(self).wf(),
            src < 8,
        ensures
            final(self).wf(),
            old(self)@.attempted(Instruction::Alu { op, src }, r, final(self)@),
    {
        match Registers::bin_as_register(src) {
            Ok(from) => {
                let value: u8 = self.registers.read(from);
                match op {
                    AluOp::Add => self.alu_add(value),
                    AluOp::Sub => self.alu_sub(value),
                    AluOp::And => self.alu_and(value),
                    AluOp::Compare => self.alu_compare(value),
                }
                Ok(())
            },
            Err(e) => Err(e),
        }
    }

    /// Adds one to a register, wrapping at 8 bits. The flags are kept.
    fn increment(&mut self, reg: u8) -> (r: Result<(), CpuError>)
        requires
            old(self).wf(),
            reg < 8,
        ensures
            final(self).wf(),
            old(self)@.attempted(Instruction::Increment { reg }, r, final(self)@),
    {
        match Registers::bin_as_register(reg) {
            Ok(to) => {
                let value: u8 = self.registers.read(to);
                let next: u8 = value.wrapping_add(1);
                assert(next == ((value + 1) % 256) as u8);
                self.registers.write(to, next);
                Ok(())
            },
            Err(e) => Err(e),
        }
    }

    /// Takes one from a register, wrapping at 8 bits. The flags are kept.
    fn decrement(&mut self, reg: u8) -> (r: Result<(), CpuError>)
        requires
            old(self).wf(),
            reg < 8,
        ensures
            final(self).wf(),
            old(self)@.attempted(Instruction::Decrement { reg }, r, final(self)@),
    {
        match Registers::bin_as_register(reg) {
            Ok(to) => {
                let value: u8 = self.registers.read(to);
                let next: u8 = value.wrapping_sub(1);
                assert(next == ((value - 1) % 256) as u8);
                self.registers.write(to, next);
                Ok(())
            },
            Err(e) => Err(e),
        }
    }

    /// Tries a decoded instruction, and may leave the registers changed
    /// where it faults.
    fn attempt(&mut self, instr: Instruction) -> (r: Result<(), CpuError>)
        requires
            old(self).wf(),
            instr.wf(),
        ensures
            final(self).wf(),
            old(self)@.attempted(instr, r, final(self)@),
    {
        match instr {
            Instruction::Halt => Ok(()),
            Instruction::Nop => Ok(()),
            Instruction::LoadDirect => self.load_direct(),
            Instruction::Jump(condition) => self.jump_on(condition),
            Instruction::Call => self.call(),
            Instruction::Return => self.ret(),
            Instruction::Push(pair) => self.push_pair(pair),
            Instruction::Pop(pair) => self.pop_pair(pair),
            Instruction::ComplementAccumulator => {
                self.complement_accumulator();
                Ok(())
            },
            Instruction::ComplementCarry => {
                self.complement_carry();
                Ok(())
            },
            Instruction::Move { dst, src } => self.move_register(dst, src),
            Instruction::MoveImmediate { dst } => self.move_immediate(dst),
            Instruction::Alu { op, src } => self.alu_register(op, src),
            Instruction::Increment { reg } => self.increment(reg),
            Instruction::Decrement { reg } => self.decrement(reg),
        }
    }

    /// Carries out a decoded instruction; the program counter stands
    /// behind its opcode. An instruction that faults leaves the engine
    /// as it was.
    pub fn perform(&mut self, instr: Instruction) -> (r: Result<(), CpuError>)
        requires
            old(self).wf(),
            instr.wf(),
        ensures
            final(self).wf(),
            match old(self)@.perform(instr) {
                Ok(done) => r is Ok && final(self)@ == done,
                Err(e) => r == Err::<(), CpuError>(e) && final(self)@ == old(self)@,
            },
    {
        let saved: Registers = self.registers;
        match self.attempt(instr) {
            Ok(()) => Ok(()),
            Err(e) => {
                self.registers = saved;
                Err(e)
            },
        }
    }

    /// Makes one step: fetches an opcode, decodes it through the
    /// dispatch table and carries the instruction out. An engine that is
    /// not running is left as it is. Where the instruction faults, the
    /// engine fails with its registers and memory as they were before
    /// the step. The snapshot of the step is handed back.
    pub fn step(&mut self) -> (snapshot: Option<StepSnapshot>)
        requires
            old(self).wf(),
        ensures
            final(self).wf(),
            final(self)@ == old(self)@.step(),
            snapshot == old(self)@.snapshot(),
    {
        if !self.is_running() {
            return None;
        }
        let saved: Registers = self.registers;
        let opcode: u8 = match self.get_w() {
            Ok(opcode) => opcode,
            Err(e) => {
                self.state = State::Failed(e);
                return None;
            },
        };
        let outcome: Result<Instruction, CpuError> = match self.dispatch.lookup(opcode) {
            Ok(instr) => match self.perform(instr) {
                Ok(()) => Ok(instr),
                Err(e) => Err(e),
            },
            Err(e) => Err(e),
        };
        match outcome {
            Ok(instr) => {
                let halt: bool = match instr {
                    Instruction::Halt => true,
                    _ => false,
                };
                if halt || self.registers.pc == self.image_end {
                    self.state = State::Halted;
                }
            },
            Err(e) => {
                self.registers = saved;
                self.state = State::Failed(e);
            },
        }
        Some(
            StepSnapshot {
                opcode,
                pc_before: saved.pc,
                pc_after: self.registers.pc,
                registers: self.registers,
                state: self.state,
            },
        )
    }

    /// Loads a program image at `base` and makes the engine ready to run
    /// it from there. An image that does not fit into the program region
    /// is refused, and the engine is left as it was.
    pub fn load(&mut self, program: &Vec<u8>, base: u16) -> (r: Result<(), CpuError>)
        requires
            old(self).wf(),
        ensures
            final(self).wf(),
            match old(self)@.load(program@, base) {
                Ok(loaded) => r is Ok && final(self)@ == loaded,
                Err(e) => r == Err::<(), CpuError>(e) && final(self)@ == old(self)@,
            },
    {
        match self.memory.write_bytes(base, program) {
            Ok(()) => {
                let len: usize = program.len();
                self.registers.pc = base;
                self.image_end = base + (len as u16);
                self.state = if len == 0 {
                    State::Halted
                } else {
                    State::Running
                };
                Ok(())
            },
            Err(e) => Err(e),
        }
    }

    /// Steps the engine until it is no longer running, but at most
    /// `max_steps` times, and has the reporter show each step's snapshot
    /// to its observer: the observer has then seen, behind what it had
    /// seen before, the snapshots of the steps made, in their order.
    pub fn run<O: StepObserver>(&mut self, max_steps: u64, reporter: &mut Reporter<O>) -> (state:
        State)
        requires
            old(self).wf(),
        ensures
            final(self).wf(),
            final(self)@ == old(self)@.run(max_steps as nat),
            final(reporter).held().seen() == old(reporter).held().seen() + old(self)@.trace(
                max_steps as nat,
            ),
            final(reporter).shown() == old(reporter).shown() + old(self)@.trace(max_steps as nat),
            state == final(self)@.state,
    {
        let mut left: u64 = max_steps;
        while left > 0 && self.is_running()
            invariant
                self.wf(),
                self@.run(left as nat) == old(self)@.run(max_steps as nat),
                reporter.shown() + self@.trace(left as nat) == old(reporter).shown()
                    + old(self)@.trace(max_steps as nat),
                reporter.held().seen() + self@.trace(left as nat) == old(reporter).held().seen()
                    + old(self)@.trace(max_steps as nat),
            decreases left,
        {
            let ghost before = self@;
            let ghost shown = reporter.shown();
            let ghost seen = reporter.held().seen();
            match self.step() {
                Some(snapshot) => {
                    reporter.show(&snapshot);
                    assert(shown.push(snapshot) + before.step().trace((left - 1) as nat) =~= shown
                        + (seq![snapshot] + before.step().trace((left - 1) as nat)));
                    assert(seen.push(snapshot) + before.step().trace((left - 1) as nat) =~= seen
                        + (seq![snapshot] + before.step().trace((left - 1) as nat)));
                },
                None => {},
            }
            left -= 1;
        }
        assert(reporter.shown() + Seq::<StepSnapshot>::empty() =~= reporter.shown());
        assert(reporter.held().seen() + Seq::<StepSnapshot>::empty() =~= reporter.held().seen());
        self.state
    }

    /// Loads a program image at address zero and runs it for at most
    /// `max_steps` steps, showing the observer each step's snapshot. An
    /// image that does not fit makes the engine fail before any step,
    /// and the observer is shown nothing.
    pub fn execute<O: StepObserver>(
        &mut self,
        program: Vec<u8>,
        max_steps: u64,
        reporter: &mut Reporter<O>,
    ) -> (state: State)
        requires
            old(self).wf(),
        ensures
            final(self).wf(),
            match old(self)@.load(program@, 0) {
                Ok(loaded) => {
                    &&& final(self)@ == loaded.run(max_steps as nat)
                    &&& final(reporter).held().seen() == old(reporter).held().seen()
                        + loaded.trace(max_steps as nat)
                    &&& final(reporter).shown() == old(reporter).shown() + loaded.trace(
                        max_steps as nat,
                    )
                },
                Err(e) => {
                    &&& final(self)@ == old(self)@.with_state(State::Failed(e))
                    &&& final(reporter).held() == old(reporter).held()
                    &&& final(reporter).shown() == old(reporter).shown()
                },
            },
            state == final(self)@.state,
    {
        match self.load(&program, 0) {
            Ok(()) => self.run(max_steps, reporter),
            Err(e) => {
                self.state = State::Failed(e);
                self.state
            },
        }
    }
}

} // verus!
