//! The memory: fixed-size regions with bounds-checked access.

use vstd::prelude::*;
use crate::error::CpuError;
use crate::modules::registers::join_bytes;

verus! {

/// The number of 16-bit slots of the stack region.
pub const STACK_SLOTS: usize = 0x80;

/// The number of bytes of the program region.
pub const PROGRAM_BYTES: usize = 0x400;

/// The number of bytes of the heap region.
pub const HEAP_BYTES: usize = 0xFB00;

/// A region of cells, addressed from zero. Its length is fixed when it
/// is made.
#[derive(Debug)]
pub struct Ram<T>(Vec<T>);

impl<T> View for Ram<T> {
    type V = Seq<T>;

    closed spec fn view(&self) -> Seq<T> {
        self.0@
    }
}

/// The cells `mem` with `data` laid over them from index `at` on.
pub open spec fn overlay<T>(mem: Seq<T>, at: int, data: Seq<T>) -> Seq<T> {
    Seq::new(
        mem.len(),
        |i: int|
            if at <= i < at + data.len() {
                data[i - at]
            } else {
                mem[i]
            },
    )
}

/// The little-endian 16-bit word at `addr`: low byte first.
pub open spec fn word_at(mem: Seq<u8>, addr: int) -> u16 {
    join_bytes(mem[addr + 1], mem[addr])
}

impl<T: Copy> Ram<T> {
    /// A region of `len` cells, each holding `value`.
    pub fn filled(value: T, len: usize) -> (ram: Self)
        ensures
            ram@ == Seq::new(len as nat, |i: int| value),
    {
        let mut cells: Vec<T> = Vec::new();
        let mut i: usize = 0;
        while i < len
            invariant
                i <= len,
                cells@ == Seq::new(i as nat, |k: int| value),
            decreases len - i,
        {
            cells.push(value);
            i += 1;
            assert(cells@ =~= Seq::new(i as nat, |k: int| value));
        }
        Ram(cells)
    }

    /// The region's capacity in cells.
    pub fn len(&self) -> (n: usize)
        ensures
            n == self@.len(),
    {
        self.0.len()
    }

    /// Reads the cell at `addr`, or reports the address where it lies
    /// outside the region.
    pub fn read(&self, addr: u16) -> (r: Result<T, CpuError>)
        ensures
            addr < self@.len() ==> r == Ok::<T, CpuError>(self@[addr as int]),
            addr >= self@.len() ==> r == Err::<T, CpuError>(
                CpuError::OutOfBoundsMemoryAccess(addr),
            ),
    {
        if (addr as usize) < self.0.len() {
            Ok(self.0[addr as usize])
        } else {
            Err(CpuError::OutOfBoundsMemoryAccess(addr))
        }
    }

    /// Writes the cell at `addr`. Where the address lies outside the
    /// region nothing is written.
    pub fn write(&mut self, addr: u16, value: T) -> (r: Result<(), CpuError>)
        ensures
            addr < old(self)@.len() ==> r is Ok && final(self)@ == old(self)@.update(
                addr as int,
                value,
            ),
            addr >= old(self)@.len() ==> r == Err::<(), CpuError>(
                CpuError::OutOfBoundsMemoryAccess(addr),
            ) && final(self)@ == old(self)@,
    {
        if (addr as usize) < self.0.len() {
            self.0.set(addr as usize, value);
            Ok(())
        } else {
            Err(CpuError::OutOfBoundsMemoryAccess(addr))
        }
    }

    /// The cells from index `from` up to, not including, index `to`.
    pub fn slice(&self, from: usize, to: usize) -> (cells: &[T])
        requires
            from <= to <= self@.len(),
        ensures
            cells@ == self@.subrange(from as int, to as int),
    {
        vstd::slice::slice_subrange(self.0.as_slice(), from, to)
    }

    /// Lays `data` over the cells from `addr` on. Where any part of the
    /// range lies outside the region nothing is written.
    pub fn write_all(&mut self, addr: u16, data: &Vec<T>) -> (r: Result<(), CpuError>)
        ensures
            addr + data@.len() <= old(self)@.len() ==> r is Ok && final(self)@ == overlay(
                old(self)@,
                addr as int,
                data@,
            ),
            addr + data@.len() > old(self)@.len() ==> r == Err::<(), CpuError>(
                CpuError::OutOfBoundsMemoryAccess(addr),
            ) && final(self)@ == old(self)@,
    {
        let cap: usize = self.0.len();
        let n: usize = data.len();
        let start: usize = addr as usize;
        if start > cap || n > cap - start {
            return Err(CpuError::OutOfBoundsMemoryAccess(addr));
        }
        let mut i: usize = 0;
        while i < n
            invariant
                i <= n,
                n == data@.len(),
                start == addr,
                cap == old(self)@.len(),
                start + n <= cap,
                self@ == overlay(old(self)@, addr as int, data@.subrange(0, i as int)),
            decreases n - i,
        {
            self.0.set(start + i, data[i]);
            i += 1;
            assert(self@ =~= overlay(old(self)@, addr as int, data@.subrange(0, i as int)));
        }
        assert(data@.subrange(0, n as int) =~= data@);
        Ok(())
    }
}

impl Ram<u8> {
    /// Reads the little-endian word whose low byte is at `addr` and whose
    /// high byte is at `addr + 1`.
    pub fn read_word(&self, addr: u16) -> (r: Result<u16, CpuError>)
        ensures
            addr + 1 < self@.len() ==> r == Ok::<u16, CpuError>(word_at(self@, addr as int)),
            addr + 1 >= self@.len() ==> r == Err::<u16, CpuError>(
                CpuError::OutOfBoundsMemoryAccess(addr),
            ),
    {
        let cap: usize = self.0.len();
        let at: usize = addr as usize;
        if cap < 2 || at > cap - 2 {
            return Err(CpuError::OutOfBoundsMemoryAccess(addr));
        }
        let low: u8 = self.0[at];
        let high: u8 = self.0[at + 1];
        proof {
            crate::modules::registers::lemma_join_bytes(high, low);
        }
        Ok(((high as u16) << 8) | (low as u16))
    }
}

/// What the memory holds, region by region.
pub struct MemoryView {
    pub stack: Seq<u16>,
    pub program: Seq<u8>,
    pub heap: Seq<u8>,
}

/// The machine's memory: a stack of 16-bit slots, the program region from
/// which instructions and their operands are fetched, and a heap. The
/// regions share no addresses.
#[derive(Debug)]
pub struct Memory {
    pub stack: Ram<u16>,
    pub program: Ram<u8>,
    pub heap: Ram<u8>,
}

impl View for Memory {
    type V = MemoryView;

    open spec fn view(&self) -> MemoryView {
        MemoryView { stack: self.stack@, program: self.program@, heap: self.heap@ }
    }
}

impl MemoryView {
    /// Every region has its fixed capacity.
    pub open spec fn wf(self) -> bool {
        &&& self.stack.len() == STACK_SLOTS
        &&& self.program.len() == PROGRAM_BYTES
        &&& self.heap.len() == HEAP_BYTES
    }

    /// The memory with every cell at zero.
    pub open spec fn zeroed() -> MemoryView {
        MemoryView {
            stack: Seq::new(STACK_SLOTS as nat, |i: int| 0u16),
            program: Seq::new(PROGRAM_BYTES as nat, |i: int| 0u8),
            heap: Seq::new(HEAP_BYTES as nat, |i: int| 0u8),
        }
    }
}

impl Memory {
    /// Every region has its fixed capacity.
    pub open spec fn wf(&self) -> bool {
        self@.wf()
    }

    /// A memory with every region at its capacity and every cell at zero.
    pub fn new() -> (mem: Self)
        ensures
            mem@ == MemoryView::zeroed(),
            mem.wf(),
    {
        Self {
            stack: Ram::filled(0u16, STACK_SLOTS),
            program: Ram::filled(0u8, PROGRAM_BYTES),
            heap: Ram::filled(0u8, HEAP_BYTES),
        }
    }

    /// Reads a byte of the program region.
    pub fn read_byte(&self, addr: u16) -> (r: Result<u8, CpuError>)
        ensures
            addr < self@.program.len() ==> r == Ok::<u8, CpuError>(self@.program[addr as int]),
            addr >= self@.program.len() ==> r == Err::<u8, CpuError>(
                CpuError::OutOfBoundsMemoryAccess(addr),
            ),
    {
        self.program.read(addr)
    }

    /// Reads a little-endian word of the program region.
    pub fn read_word(&self, addr: u16) -> (r: Result<u16, CpuError>)
        ensures
            addr + 1 < self@.program.len() ==> r == Ok::<u16, CpuError>(
                word_at(self@.program, addr as int),
            ),
            addr + 1 >= self@.program.len() ==> r == Err::<u16, CpuError>(
                CpuError::OutOfBoundsMemoryAccess(addr),
            ),
    {
        self.program.read_word(addr)
    }

    /// Writes `bytes` into the program region from `addr` on. Where the
    /// range does not fit, nothing is written.
    pub fn write_bytes(&mut self, addr: u16, bytes: &Vec<u8>) -> (r: Result<(), CpuError>)
        ensures
            final(self)@.stack == old(self)@.stack,
            final(self)@.heap == old(self)@.heap,
            addr + bytes@.len() <= old(self)@.program.len() ==> r is Ok && final(self)@.program
                == overlay(old(self)@.program, addr as int, bytes@),
            addr + bytes@.len() > old(self)@.program.len() ==> r == Err::<(), CpuError>(
                CpuError::OutOfBoundsMemoryAccess(addr),
            ) && final(self)@.program == old(self)@.program,
    {
        self.program.write_all(addr, bytes)
    }
}

} // verus!
