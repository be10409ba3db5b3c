//! The arithmetic-logic unit: pure functions from the accumulator and an
//! operand to the result and the flags byte that goes with it.

use vstd::prelude::*;
use crate::modules::registers::{flag_of, Flag};

verus! {

/// What an operation hands back: the new accumulator and the new flags
/// byte, in which every bit that is no flag is zero.
#[derive(Clone, Copy, Debug, PartialEq, Eq, Structural)]
pub struct AluOutput {
    pub value: u8,
    pub flags: u8,
}

/// The number of set bits of a byte.
pub open spec fn ones(x: u8) -> int {
    (x as int) % 2 + (x as int / 2) % 2 + (x as int / 4) % 2 + (x as int / 8) % 2 + (x as int
        / 16) % 2 + (x as int / 32) % 2 + (x as int / 64) % 2 + (x as int / 128) % 2
}

/// The parity flag of a byte: set when the number of its set bits is even.
#[verifier::opaque]
pub open spec fn even_parity(x: u8) -> bool {
    ones(x) % 2 == 0
}

/// The flags byte that holds exactly the given five flags.
pub open spec fn pack_flags(sign: bool, zero: bool, aux: bool, parity: bool, carry: bool) -> u8 {
    ((if sign { 0x80int } else { 0 }) + (if zero { 0x40int } else { 0 }) + (if aux { 0x10int }
    else { 0 }) + (if parity { 0x04int } else { 0 }) + (if carry { 0x01int } else { 0 })) as u8
}

/// The flags byte after an operation that gave `value`, with the stated
/// auxiliary carry and carry: Sign mirrors bit 7 of the result, Zero says
/// that it is zero, Parity that its set bits are even in number.
pub open spec fn result_flags(value: u8, aux: bool, carry: bool) -> u8 {
    pack_flags(value >= 0x80, value == 0, aux, even_parity(value), carry)
}

/// Addition: the sum wraps at 8 bits; Carry says that it overflowed them,
/// AuxiliaryCarry that the low nibbles carried out of bit 3.
pub open spec fn sum_spec(a: u8, operand: u8) -> AluOutput {
    let value = ((a as int + operand as int) % 256) as u8;
    AluOutput {
        value,
        flags: result_flags(
            value,
            (a as int) % 16 + (operand as int) % 16 > 15,
            a as int + operand as int > 255,
        ),
    }
}

/// Subtraction: the difference wraps at 8 bits; Carry says that a borrow
/// occurred. AuxiliaryCarry is always clear.
pub open spec fn difference_spec(a: u8, operand: u8) -> AluOutput {
    let value = ((a as int - operand as int) % 256) as u8;
    AluOutput { value, flags: result_flags(value, false, (a as int) < operand as int) }
}

/// Logical and: AuxiliaryCarry is always set and Carry always clear.
pub open spec fn conjunction_spec(a: u8, operand: u8) -> AluOutput {
    let value = a & operand;
    AluOutput { value, flags: result_flags(value, true, false) }
}

/// Comparison: the flags of the subtraction, with the accumulator kept.
pub open spec fn comparison_spec(a: u8, operand: u8) -> AluOutput {
    AluOutput { value: a, flags: difference_spec(a, operand).flags }
}

/// Each flag of a packed flags byte is the flag that was packed.
pub proof fn lemma_pack_flags(sign: bool, zero: bool, aux: bool, parity: bool, carry: bool)
    ensures
        flag_of(pack_flags(sign, zero, aux, parity, carry), Flag::Sign) == sign,
        flag_of(pack_flags(sign, zero, aux, parity, carry), Flag::Zero) == zero,
        flag_of(pack_flags(sign, zero, aux, parity, carry), Flag::ACarry) == aux,
        flag_of(pack_flags(sign, zero, aux, parity, carry), Flag::Parity) == parity,
        flag_of(pack_flags(sign, zero, aux, parity, carry), Flag::Carry) == carry,
{
    let s: u8 = if sign { 0x80 } else { 0 };
    let z: u8 = if zero { 0x40 } else { 0 };
    let a: u8 = if aux { 0x10 } else { 0 };
    let p: u8 = if parity { 0x04 } else { 0 };
    let c: u8 = if carry { 0x01 } else { 0 };
    let f: u8 = pack_flags(sign, zero, aux, parity, carry);
    assert(f == s + z + a + p + c);
    assert((s == 0 || s == 0x80) && (z == 0 || z == 0x40) && (a == 0 || a == 0x10) && (p == 0 || p
        == 0x04) && (c == 0 || c == 0x01) && f == s + z + a + p + c ==> (f & 0x80 != 0) == (s
        != 0) && (f & 0x40 != 0) == (z != 0) && (f & 0x10 != 0) == (a != 0) && (f & 0x04 != 0)
        == (p != 0) && (f & 0x01 != 0) == (c != 0)) by (bit_vector);
}

/// The flags that follow a result, read one by one: Sign is bit 7 of the
/// result, Zero says that the result is zero, Parity that its set bits
/// are even in number; AuxiliaryCarry and Carry are as given.
pub proof fn lemma_result_flags(value: u8, aux: bool, carry: bool)
    ensures
        flag_of(result_flags(value, aux, carry), Flag::Sign) == (value >= 0x80),
        flag_of(result_flags(value, aux, carry), Flag::Zero) == (value == 0),
        flag_of(result_flags(value, aux, carry), Flag::ACarry) == aux,
        flag_of(result_flags(value, aux, carry), Flag::Parity) == even_parity(value),
        flag_of(result_flags(value, aux, carry), Flag::Carry) == carry,
{
    lemma_pack_flags(value >= 0x80, value == 0, aux, even_parity(value), carry);
}

/// Carry after an addition says that the sum wrapped, which shows in the
/// result being less than the operand; Carry after a subtraction says
/// that a borrow occurred, which shows in the result being greater than
/// the accumulator was.
pub proof fn law_carry_shows_wrap(a: u8, operand: u8)
    ensures
        flag_of(sum_spec(a, operand).flags, Flag::Carry) == (a + operand > 255),
        flag_of(sum_spec(a, operand).flags, Flag::Carry) == (sum_spec(a, operand).value < operand),
        flag_of(difference_spec(a, operand).flags, Flag::Carry) == (a < operand),
        flag_of(difference_spec(a, operand).flags, Flag::Carry) == (difference_spec(
            a,
            operand,
        ).value > a),
        !flag_of(difference_spec(a, operand).flags, Flag::ACarry),
        flag_of(conjunction_spec(a, operand).flags, Flag::ACarry),
        !flag_of(conjunction_spec(a, operand).flags, Flag::Carry),
        comparison_spec(a, operand).value == a,
        comparison_spec(a, operand).flags == difference_spec(a, operand).flags,
{
    lemma_result_flags(
        sum_spec(a, operand).value,
        (a as int) % 16 + (operand as int) % 16 > 15,
        a as int + operand as int > 255,
    );
    lemma_result_flags(difference_spec(a, operand).value, false, (a as int) < operand as int);
    lemma_result_flags(conjunction_spec(a, operand).value, true, false);
}

/// Whether the set bits of a byte are even in number.
pub fn has_even_parity(x: u8) -> (even: bool)
    ensures
        even == even_parity(x),
{
    proof {
        reveal(even_parity);
    }
    let folded: u8 = x ^ (x >> 4);
    let folded: u8 = folded ^ (folded >> 2);
    let folded: u8 = folded ^ (folded >> 1);
    assert(((((x ^ (x >> 4)) ^ ((x ^ (x >> 4)) >> 2)) ^ (((x ^ (x >> 4)) ^ ((x ^ (x >> 4)) >> 2))
        >> 1)) & 1 == 0) == ((x % 2 + (x / 2) % 2 + (x / 4) % 2 + (x / 8) % 2 + (x / 16) % 2 + (x
        / 32) % 2 + (x / 64) % 2 + (x / 128) % 2) % 2 == 0)) by (bit_vector);
    (folded & 1) == 0
}

/// Packs the five flags into a flags byte.
pub fn flags_byte(sign: bool, zero: bool, aux: bool, parity: bool, carry: bool) -> (f: u8)
    ensures
        f == pack_flags(sign, zero, aux, parity, carry),
{
    let s: u8 = if sign { 0x80 } else { 0 };
    let z: u8 = if zero { 0x40 } else { 0 };
    let a: u8 = if aux { 0x10 } else { 0 };
    let p: u8 = if parity { 0x04 } else { 0 };
    let c: u8 = if carry { 0x01 } else { 0 };
    s + z + a + p + c
}

/// The flags byte that follows a result.
fn flags_after(value: u8, aux: bool, carry: bool) -> (f: u8)
    ensures
        f == result_flags(value, aux, carry),
{
    flags_byte(value >= 0x80, value == 0, aux, has_even_parity(value), carry)
}

/// Adds the operand to the accumulator.
pub fn sum(a: u8, operand: u8) -> (out: AluOutput)
    ensures
        out == sum_spec(a, operand),
{
    assert((a & 0xf) == a % 16 && (operand & 0xf) == operand % 16) by (bit_vector);
    let aux: bool = (a & 0xf) + (operand & 0xf) > 0xf;
    let value: u8 = a.wrapping_add(operand);
    let carry: bool = value < operand;
    AluOutput { value, flags: flags_after(value, aux, carry) }
}

/// Subtracts the operand from the accumulator.
pub fn difference(a: u8, operand: u8) -> (out: AluOutput)
    ensures
        out == difference_spec(a, operand),
{
    let value: u8 = a.wrapping_sub(operand);
    let carry: bool = value > a;
    AluOutput { value, flags: flags_after(value, false, carry) }
}

/// Ands the operand into the accumulator.
pub fn conjunction(a: u8, operand: u8) -> (out: AluOutput)
    ensures
        out == conjunction_spec(a, operand),
{
    let value: u8 = a & operand;
    AluOutput { value, flags: flags_after(value, true, false) }
}

/// Compares the accumulator with the operand: subtracts for the flags
/// alone.
pub fn comparison(a: u8, operand: u8) -> (out: AluOutput)
    ensures
        out == comparison_spec(a, operand),
{
    AluOutput { value: a, flags: difference(a, operand).flags }
}

} // verus!
