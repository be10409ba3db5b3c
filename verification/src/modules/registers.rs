//! The register file: seven general registers, the flags byte, the program
//! counter and the stack pointer, addressed by selector codes.

use vstd::prelude::*;
use crate::error::CpuError;

verus! {

/// The register file. Every field is plain storage; pair access and
/// single-register access read and write these same fields.
#[derive(Clone, Copy, Debug, PartialEq, Eq, Structural)]
pub struct Registers {
    pub a: u8,
    pub f: u8,
    pub b: u8,
    pub c: u8,
    pub d: u8,
    pub e: u8,
    pub h: u8,
    pub l: u8,
    pub pc: u16,
    pub sp: u16,
}

/// A condition bit of the flags byte.
#[derive(Clone, Copy, Debug, PartialEq, Eq, Structural)]
pub enum Flag {
    Sign,
    Zero,
    ACarry,
    Parity,
    Carry,
}

/// A general register, as a decoded single-register selector names it.
#[derive(Clone, Copy, Debug, PartialEq, Eq, Structural)]
pub enum Register {
    B,
    C,
    D,
    E,
    H,
    L,
    A,
}

/// A register pair, as a decoded pair selector names it. The first
/// register of a pair holds the high byte.
#[derive(Clone, Copy, Debug, PartialEq, Eq, Structural)]
pub enum RegisterPair {
    BC,
    DE,
    HL,
    PSW,
}

impl Flag {
    /// The weight of the flag's bit in the flags byte: Sign is bit 7,
    /// Zero bit 6, AuxiliaryCarry bit 4, Parity bit 2 and Carry bit 0.
    pub open spec fn weight(self) -> int {
        match self {
            Flag::Sign => 128,
            Flag::Zero => 64,
            Flag::ACarry => 16,
            Flag::Parity => 4,
            Flag::Carry => 1,
        }
    }

    /// The flags byte that holds this flag's bit and no other.
    pub open spec fn spec_mask(self) -> u8 {
        match self {
            Flag::Sign => 0x80,
            Flag::Zero => 0x40,
            Flag::ACarry => 0x10,
            Flag::Parity => 0x04,
            Flag::Carry => 0x01,
        }
    }

    /// The flags byte that holds this flag's bit and no other.
    #[verifier::when_used_as_spec(spec_mask)]
    pub fn mask(self) -> (m: u8)
        ensures
            m == self.spec_mask(),
    {
        match self {
            Flag::Sign => 0x80,
            Flag::Zero => 0x40,
            Flag::ACarry => 0x10,
            Flag::Parity => 0x04,
            Flag::Carry => 0x01,
        }
    }
}

/// Whether `flag` is set in the flags byte `f`.
pub open spec fn flag_of(f: u8, flag: Flag) -> bool {
    f & flag.spec_mask() != 0
}

/// The flags byte `f` with `flag` set to `value` and every other bit kept.
pub open spec fn with_flag(f: u8, flag: Flag, value: bool) -> u8 {
    if value {
        f | flag.spec_mask()
    } else {
        f & !flag.spec_mask()
    }
}

/// The register that a 3-bit selector names: codes 0 to 7 stand for
/// B, C, D, E, H, L, the memory-indirect operand and A. The
/// memory-indirect code names no register.
pub open spec fn register_of_selector(b: u8) -> Result<Register, CpuError> {
    if b == 0 {
        Ok(Register::B)
    } else if b == 1 {
        Ok(Register::C)
    } else if b == 2 {
        Ok(Register::D)
    } else if b == 3 {
        Ok(Register::E)
    } else if b == 4 {
        Ok(Register::H)
    } else if b == 5 {
        Ok(Register::L)
    } else if b == 7 {
        Ok(Register::A)
    } else {
        Err(CpuError::UnsupportedAddressingMode)
    }
}

/// The pair that a 2-bit selector names: codes 0 to 3 stand for
/// BC, DE, HL and PSW.
pub open spec fn pair_of_selector(b: u8) -> RegisterPair {
    if b == 0 {
        RegisterPair::BC
    } else if b == 1 {
        RegisterPair::DE
    } else if b == 2 {
        RegisterPair::HL
    } else {
        RegisterPair::PSW
    }
}

/// The 16-bit value whose high byte is `high` and whose low byte is `low`.
pub open spec fn join_bytes(high: u8, low: u8) -> u16 {
    (high as int * 256 + low as int) as u16
}

/// The high byte of a 16-bit value.
pub open spec fn high_byte(value: u16) -> u8 {
    (value as int / 256) as u8
}

/// The low byte of a 16-bit value.
pub open spec fn low_byte(value: u16) -> u8 {
    (value as int % 256) as u8
}

impl Registers {
    /// The content of a general register.
    pub open spec fn reg(self, r: Register) -> u8 {
        match r {
            Register::B => self.b,
            Register::C => self.c,
            Register::D => self.d,
            Register::E => self.e,
            Register::H => self.h,
            Register::L => self.l,
            Register::A => self.a,
        }
    }

    /// The register file after `value` is written to a general register.
    pub open spec fn with_reg(self, r: Register, value: u8) -> Registers {
        match r {
            Register::B => Registers { b: value, ..self },
            Register::C => Registers { c: value, ..self },
            Register::D => Registers { d: value, ..self },
            Register::E => Registers { e: value, ..self },
            Register::H => Registers { h: value, ..self },
            Register::L => Registers { l: value, ..self },
            Register::A => Registers { a: value, ..self },
        }
    }

    /// The byte that a pair holds as its high half.
    pub open spec fn high(self, p: RegisterPair) -> u8 {
        match p {
            RegisterPair::BC => self.b,
            RegisterPair::DE => self.d,
            RegisterPair::HL => self.h,
            RegisterPair::PSW => self.a,
        }
    }

    /// The byte that a pair holds as its low half.
    pub open spec fn low(self, p: RegisterPair) -> u8 {
        match p {
            RegisterPair::BC => self.c,
            RegisterPair::DE => self.e,
            RegisterPair::HL => self.l,
            RegisterPair::PSW => self.f,
        }
    }

    /// The 16-bit content of a pair.
    pub open spec fn pair(self, p: RegisterPair) -> u16 {
        join_bytes(self.high(p), self.low(p))
    }

    /// The register file after `value` is written to a pair.
    pub open spec fn with_pair(self, p: RegisterPair, value: u16) -> Registers {
        match p {
            RegisterPair::BC => Registers { b: high_byte(value), c: low_byte(value), ..self },
            RegisterPair::DE => Registers { d: high_byte(value), e: low_byte(value), ..self },
            RegisterPair::HL => Registers { h: high_byte(value), l: low_byte(value), ..self },
            RegisterPair::PSW => Registers { a: high_byte(value), f: low_byte(value), ..self },
        }
    }

    /// The register file with every register, the flags, the program
    /// counter and the stack pointer at zero.
    pub open spec fn zeroed() -> Registers {
        Registers { a: 0, f: 0, b: 0, c: 0, d: 0, e: 0, h: 0, l: 0, pc: 0, sp: 0 }
    }

    /// A register file with everything at zero.
    pub fn new() -> (regs: Self)
        ensures
            regs == Registers::zeroed(),
    {
        Self { a: 0, f: 0, b: 0, c: 0, d: 0, e: 0, h: 0, l: 0, pc: 0, sp: 0 }
    }

    /// Decodes a 3-bit single-register selector. The memory-indirect
    /// code is refused, so it can alias no register.
    pub fn bin_as_register(b: u8) -> (r: Result<Register, CpuError>)
        requires
            b < 8,
        ensures
            r == register_of_selector(b),
            r is Err <==> b == 6,
    {
        match b {
            0 => Ok(Register::B),
            1 => Ok(Register::C),
            2 => Ok(Register::D),
            3 => Ok(Register::E),
            4 => Ok(Register::H),
            5 => Ok(Register::L),
            7 => Ok(Register::A),
            _ => Err(CpuError::UnsupportedAddressingMode),
        }
    }

    /// Decodes a 2-bit pair selector.
    pub fn bin_as_dregister(b: u8) -> (p: RegisterPair)
        requires
            b < 4,
        ensures
            p == pair_of_selector(b),
    {
        match b {
            0 => RegisterPair::BC,
            1 => RegisterPair::DE,
            2 => RegisterPair::HL,
            _ => RegisterPair::PSW,
        }
    }

    /// Reads a general register.
    pub fn read(&self, r: Register) -> (value: u8)
        ensures
            value == self.reg(r),
    {
        match r {
            Register::B => self.b,
            Register::C => self.c,
            Register::D => self.d,
            Register::E => self.e,
            Register::H => self.h,
            Register::L => self.l,
            Register::A => self.a,
        }
    }

    /// Writes a general register and leaves the rest of the file as it was.
    pub fn write(&mut self, r: Register, value: u8)
        ensures
            *final(self) == old(self).with_reg(r, value),
    {
        match r {
            Register::B => self.b = value,
            Register::C => self.c = value,
            Register::D => self.d = value,
            Register::E => self.e = value,
            Register::H => self.h = value,
            Register::L => self.l = value,
            Register::A => self.a = value,
        }
    }

    /// Reads the register that a 3-bit selector names.
    pub fn get_register(&self, b: u8) -> (r: Result<u8, CpuError>)
        requires
            b < 8,
        ensures
            b == 6 ==> r == Err::<u8, CpuError>(CpuError::UnsupportedAddressingMode),
            b != 6 ==> r == Ok::<u8, CpuError>(self.reg(register_of_selector(b)->Ok_0)),
    {
        match Self::bin_as_register(b) {
            Ok(reg) => Ok(self.read(reg)),
            Err(e) => Err(e),
        }
    }

    /// Writes the register that a 3-bit selector names. On the
    /// memory-indirect code nothing is written.
    pub fn set_register(&mut self, b: u8, value: u8) -> (r: Result<(), CpuError>)
        requires
            b < 8,
        ensures
            b == 6 ==> r == Err::<(), CpuError>(CpuError::UnsupportedAddressingMode)
                && *final(self) == *old(self),
            b != 6 ==> r is Ok && *final(self) == old(self).with_reg(
                register_of_selector(b)->Ok_0,
                value,
            ),
    {
        match Self::bin_as_register(b) {
            Ok(reg) => {
                self.write(reg, value);
                Ok(())
            },
            Err(e) => Err(e),
        }
    }

    /// Reads a pair: the first register is the high byte.
    pub fn read_pair(&self, p: RegisterPair) -> (value: u16)
        ensures
            value == self.pair(p),
    {
        let (high, low): (u8, u8) = match p {
            RegisterPair::BC => (self.b, self.c),
            RegisterPair::DE => (self.d, self.e),
            RegisterPair::HL => (self.h, self.l),
            RegisterPair::PSW => (self.a, self.f),
        };
        proof {
            lemma_join_bytes(high, low);
        }
        ((high as u16) << 8) | (low as u16)
    }

    /// Writes a pair and leaves the rest of the file as it was.
    pub fn write_pair(&mut self, p: RegisterPair, value: u16)
        ensures
            *final(self) == old(self).with_pair(p, value),
    {
        proof {
            lemma_split_bytes(value);
        }
        let high: u8 = (value >> 8) as u8;
        let low: u8 = (value & 0xFF) as u8;
        match p {
            RegisterPair::BC => {
                self.b = high;
                self.c = low;
            },
            RegisterPair::DE => {
                self.d = high;
                self.e = low;
            },
            RegisterPair::HL => {
                self.h = high;
                self.l = low;
            },
            RegisterPair::PSW => {
                self.a = high;
                self.f = low;
            },
        }
    }

    /// Reads the pair that a 2-bit selector names.
    pub fn get_dw_reg(&self, b: u8) -> (value: u16)
        requires
            b < 4,
        ensures
            value == self.pair(pair_of_selector(b)),
    {
        self.read_pair(Self::bin_as_dregister(b))
    }

    /// Writes the pair that a 2-bit selector names.
    pub fn set_dw_reg(&mut self, b: u8, value: u16)
        requires
            b < 4,
        ensures
            *final(self) == old(self).with_pair(pair_of_selector(b), value),
    {
        self.write_pair(Self::bin_as_dregister(b), value)
    }

    /// Sets one flag to `value`; every other bit of the flags byte, the
    /// reserved ones included, reads back as it was.
    pub fn set_flag(&mut self, flag: Flag, value: bool)
        ensures
            *final(self) == (Registers { f: with_flag(old(self).f, flag, value), ..*old(self) }),
    {
        if value {
            self.f = self.f | flag.mask();
        } else {
            self.f = self.f & !flag.mask();
        }
    }

    /// Whether a flag is set.
    pub fn get_flag(&self, flag: Flag) -> (set: bool)
        ensures
            set == flag_of(self.f, flag),
    {
        (self.f & flag.mask()) != 0
    }

    /// Zeroes the whole flags byte.
    pub fn clr(&mut self)
        ensures
            *final(self) == (Registers { f: 0, ..*old(self) }),
    {
        self.f = 0;
    }
}

/// A flag is the binary digit of the flags byte at the flag's weight;
/// setting a flag changes that digit and no other.
pub proof fn lemma_flag_is_digit(f: u8, flag: Flag, value: bool)
    ensures
        flag_of(f, flag) == ((f as int / flag.weight()) % 2 == 1),
        flag_of(with_flag(f, flag, value), flag) == value,
        forall|other: Flag| other != flag ==> flag_of(with_flag(f, flag, value), other) == flag_of(f, other),
        with_flag(f, flag, flag_of(f, flag)) == f,
{
    assert((f & 0x80 != 0) == ((f / 128) % 2 == 1) && (f & 0x40 != 0) == ((f / 64) % 2 == 1) && (f
        & 0x10 != 0) == ((f / 16) % 2 == 1) && (f & 0x04 != 0) == ((f / 4) % 2 == 1) && (f & 0x01
        != 0) == ((f / 1) % 2 == 1)) by (bit_vector);
    assert(forall|m: u8, n: u8|
        #![trigger (f | m) & n]
        (m == 0x80 || m == 0x40 || m == 0x10 || m == 0x04 || m == 0x01) && (n == 0x80 || n == 0x40
            || n == 0x10 || n == 0x04 || n == 0x01) ==> ((f | m) & n != 0) == (m == n || f & n
            != 0)) by (bit_vector);
    assert(forall|m: u8, n: u8|
        #![trigger (f & !m) & n]
        (m == 0x80 || m == 0x40 || m == 0x10 || m == 0x04 || m == 0x01) && (n == 0x80 || n == 0x40
            || n == 0x10 || n == 0x04 || n == 0x01) ==> ((f & !m) & n != 0) == (m != n && f & n
            != 0)) by (bit_vector);
    assert(forall|m: u8|
        #![trigger f & m]
        (m == 0x80 || m == 0x40 || m == 0x10 || m == 0x04 || m == 0x01) ==> (f & m != 0 ==> (f | m)
            == f) && (f & m == 0 ==> (f & !m) == f)) by (bit_vector);
    assert forall|other: Flag| other != flag implies flag_of(with_flag(f, flag, value), other)
        == flag_of(f, other) by {
        assert(other.spec_mask() != flag.spec_mask());
    }
}

/// Shifting the high byte into place and or-ing the low byte in joins them.
pub proof fn lemma_join_bytes(high: u8, low: u8)
    ensures
        ((high as u16) << 8) | (low as u16) == join_bytes(high, low),
{
    assert((((high as u16) << 8) | (low as u16)) == (high as u16) * 256 + (low as u16))
        by (bit_vector);
}

/// Shifting and masking take a 16-bit value apart into its two bytes.
pub proof fn lemma_split_bytes(value: u16)
    ensures
        (value >> 8) as u8 == high_byte(value),
        (value & 0xFF) as u8 == low_byte(value),
        (value >> 8) < 256,
        (value & 0xFF) < 256,
{
    assert((value >> 8) == value / 256) by (bit_vector);
    assert((value & 0xFF) == value % 256) by (bit_vector);
}

/// A register written through its selector reads back, through the same
/// selector, as the value written, and no other register changes. This
/// holds of every selector but the memory-indirect code.
pub proof fn law_register_write_then_read(regs: Registers, b: u8, value: u8)
    requires
        b < 8,
        b != 6,
    ensures
        register_of_selector(b) is Ok,
        regs.with_reg(register_of_selector(b)->Ok_0, value).reg(register_of_selector(b)->Ok_0)
            == value,
        forall|other: Register|
            other != register_of_selector(b)->Ok_0 ==> regs.with_reg(
                register_of_selector(b)->Ok_0,
                value,
            ).reg(other) == regs.reg(other),
{
}

/// A pair written through its selector reads back as the value written,
/// and its two halves, read as single registers, are the value's high and
/// low bytes.
pub proof fn law_pair_write_then_read(regs: Registers, b: u8, value: u16)
    requires
        b < 4,
    ensures
        regs.with_pair(pair_of_selector(b), value).pair(pair_of_selector(b)) == value,
        b == 0 ==> regs.with_pair(pair_of_selector(b), value).reg(Register::B) == high_byte(value)
            && regs.with_pair(pair_of_selector(b), value).reg(Register::C) == low_byte(value),
        b == 1 ==> regs.with_pair(pair_of_selector(b), value).reg(Register::D) == high_byte(value)
            && regs.with_pair(pair_of_selector(b), value).reg(Register::E) == low_byte(value),
        b == 2 ==> regs.with_pair(pair_of_selector(b), value).reg(Register::H) == high_byte(value)
            && regs.with_pair(pair_of_selector(b), value).reg(Register::L) == low_byte(value),
        b == 3 ==> regs.with_pair(pair_of_selector(b), value).reg(Register::A) == high_byte(value)
            && regs.with_pair(pair_of_selector(b), value).f == low_byte(value),
{
    lemma_bytes_rejoin(value);
}

/// A single register and the pair that holds it are one storage: a byte
/// written through the register path is the pair's high or low byte, and
/// the other half of the pair is untouched.
pub proof fn law_pair_shares_storage(regs: Registers, value: u8)
    ensures
        regs.with_reg(Register::B, value).pair(RegisterPair::BC) == join_bytes(value, regs.c),
        regs.with_reg(Register::C, value).pair(RegisterPair::BC) == join_bytes(regs.b, value),
        regs.with_reg(Register::D, value).pair(RegisterPair::DE) == join_bytes(value, regs.e),
        regs.with_reg(Register::E, value).pair(RegisterPair::DE) == join_bytes(regs.d, value),
        regs.with_reg(Register::H, value).pair(RegisterPair::HL) == join_bytes(value, regs.l),
        regs.with_reg(Register::L, value).pair(RegisterPair::HL) == join_bytes(regs.h, value),
        regs.with_reg(Register::A, value).pair(RegisterPair::PSW) == join_bytes(value, regs.f),
{
}

/// The two bytes of a 16-bit value, joined again, are the value.
pub proof fn lemma_bytes_rejoin(value: u16)
    ensures
        join_bytes(high_byte(value), low_byte(value)) == value,
{
}

/// Taking a joined pair apart gives back the two bytes.
pub proof fn lemma_join_then_split(high: u8, low: u8)
    ensures
        high_byte(join_bytes(high, low)) == high,
        low_byte(join_bytes(high, low)) == low,
{
}

} // verus!
