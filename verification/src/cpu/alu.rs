//! Binary addition and subtraction with carry.

use vstd::prelude::*;
use crate::arith::{complement, invert, lo_byte, signed};
use crate::cpu::flags::{flag_set, with_flag, with_zero_negative};
use crate::cpu::{CPU, FLAG_CARRY, FLAG_DECIMAL, FLAG_OVERFLOW};

verus! {

/// What the arithmetic unit hands back: the 8-bit result and the two flags
/// that only it computes.
pub struct Sum {
    pub value: u8,
    pub carry: bool,
    pub overflow: bool,
}

/// A carry or borrow bit as a number.
pub open spec fn bit(b: bool) -> int {
    if b {
        1
    } else {
        0
    }
}

/// The sign-change test on an addition `a + m` with 8-bit result `r`: the
/// operands agree in bit 7 and the result differs from them.
pub open spec fn sign_changed(a: u8, m: u8, r: u8) -> bool {
    (!(a ^ m) & (a ^ r) & 0x80) != 0
}

/// `a + m + carry_in`: the result is the sum modulo 256, carry is set iff
/// the sum exceeds 255, overflow iff the sign-change test holds.
pub open spec fn add_with_carry(a: u8, m: u8, carry_in: bool) -> Sum {
    let total = a as int + m as int + bit(carry_in);
    let value = (total % 256) as u8;
    Sum { value, carry: total > 255, overflow: sign_changed(a, m, value) }
}

/// `a - m - (1 - carry_in)`: the result is the difference modulo 256, carry
/// is set iff no borrow was needed, overflow iff the difference of the
/// operands read as signed numbers does not fit in a signed byte.
pub open spec fn subtract_with_borrow(a: u8, m: u8, carry_in: bool) -> Sum {
    let total = a as int - m as int - bit(!carry_in);
    let exact = signed(a) - signed(m) - bit(!carry_in);
    Sum { value: (total % 256) as u8, carry: total >= 0, overflow: exact < -128 || exact > 127 }
}

/// The status register after an addition or subtraction that gave `sum`.
pub open spec fn arithmetic_status(status: u8, sum: Sum) -> u8 {
    with_zero_negative(
        with_flag(with_flag(status, FLAG_CARRY, sum.carry), FLAG_OVERFLOW, sum.overflow),
        sum.value,
    )
}

/// The sign-change test looks at bit 7 of the three bytes only.
pub proof fn lemma_sign_changed(a: u8, m: u8, r: u8)
    by (bit_vector)
    ensures
        sign_changed(a, m, r) <==> ((a >= 128) == (m >= 128) && (a >= 128) != (r >= 128)),
{
}

/// Addition sets the overflow flag exactly when the sum of the operands,
/// read as signed numbers, does not fit in a signed byte.
pub proof fn lemma_add_overflow(a: u8, m: u8, carry_in: bool)
    ensures
        add_with_carry(a, m, carry_in).overflow <==> {
            let exact = signed(a) + signed(m) + bit(carry_in);
            exact < -128 || exact > 127
        },
        signed(add_with_carry(a, m, carry_in).value) == signed(a) + signed(m) + bit(carry_in)
            <==> !add_with_carry(a, m, carry_in).overflow,
{
    lemma_sign_changed(a, m, add_with_carry(a, m, carry_in).value);
}

/// Subtracting `m` is adding the complement of `m`, for the result and for
/// both flags.
pub proof fn lemma_subtract_is_add_complement(a: u8, m: u8, carry_in: bool)
    ensures
        subtract_with_borrow(a, m, carry_in) == add_with_carry(a, complement(m), carry_in),
{
    lemma_add_overflow(a, complement(m), carry_in);
}

impl CPU {
    /// Adds `operand` and the carry flag to the accumulator's value and sets
    /// the carry, overflow, zero and negative flags from the outcome.  The
    /// result is returned, not stored.  Decimal mode is not supported.
    pub fn adc_binary(&mut self, operand: u8) -> (result: u8)
        requires
            !flag_set(old(self).status, FLAG_DECIMAL),
        ensures
            result == add_with_carry(
                old(self).register_a,
                operand,
                flag_set(old(self).status, FLAG_CARRY),
            ).value,
            *final(self) == (CPU {
                status: arithmetic_status(
                    old(self).status,
                    add_with_carry(
                        old(self).register_a,
                        operand,
                        flag_set(old(self).status, FLAG_CARRY),
                    ),
                ),
                ..*old(self)
            }),
    {
        let a: u16 = self.register_a as u16;
        let m: u16 = operand as u16;
        let carry_in: u16 = if self.get_flag(FLAG_CARRY) {
            1
        } else {
            0
        };
        let sum: u16 = a + m + carry_in;
        self.set_flag(FLAG_CARRY, sum > 0xff);
        let result: u8 = lo_byte(sum);
        let overflow: bool = (!(self.register_a ^ operand) & (self.register_a ^ result) & 0x80)
            != 0;
        self.set_flag(FLAG_OVERFLOW, overflow);
        self.update_zero_and_negative_flags(result);
        result
    }

    /// Subtracts `operand` and the borrow (the inverse of the carry flag)
    /// from the accumulator's value and sets the carry, overflow, zero and
    /// negative flags from the outcome.  The result is returned, not stored.
    /// Decimal mode is not supported.
    pub fn sbc_binary(&mut self, operand: u8) -> (result: u8)
        requires
            !flag_set(old(self).status, FLAG_DECIMAL),
        ensures
            result == subtract_with_borrow(
                old(self).register_a,
                operand,
                flag_set(old(self).status, FLAG_CARRY),
            ).value,
            *final(self) == (CPU {
                status: arithmetic_status(
                    old(self).status,
                    subtract_with_borrow(
                        old(self).register_a,
                        operand,
                        flag_set(old(self).status, FLAG_CARRY),
                    ),
                ),
                ..*old(self)
            }),
    {
        proof {
            lemma_subtract_is_add_complement(
                self.register_a,
                operand,
                flag_set(self.status, FLAG_CARRY),
            );
        }
        let inverted: u8 = invert(operand);
        self.adc_binary(inverted)
    }
}

} // verus!
