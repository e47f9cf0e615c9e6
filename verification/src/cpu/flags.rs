//! The status register, bit by bit.

use vstd::prelude::*;
use crate::cpu::{CPU, FLAG_NEGATIVE, FLAG_ZERO};

verus! {

/// Whether any bit of `flag` is set in `status`.
pub open spec fn flag_set(status: u8, flag: u8) -> bool {
    status & flag != 0
}

/// `status` with the bits of `flag` set, or cleared, as `value` says.
pub open spec fn with_flag(status: u8, flag: u8, value: bool) -> u8 {
    if value {
        status | flag
    } else {
        status & !flag
    }
}

/// `status` with the zero flag saying whether `result` is zero and the
/// negative flag saying whether bit 7 of `result` is set.
pub open spec fn with_zero_negative(status: u8, result: u8) -> u8 {
    with_flag(with_flag(status, FLAG_ZERO, result == 0), FLAG_NEGATIVE, result >= 0x80)
}

/// A flag reads back as it was written.
pub proof fn lemma_flag_written(status: u8, flag: u8, value: bool)
    by (bit_vector)
    requires
        flag != 0,
    ensures
        flag_set(with_flag(status, flag, value), flag) == value,
{
}

/// Writing a flag leaves every bit outside it as it was.
pub proof fn lemma_flag_kept(status: u8, flag: u8, value: bool, other: u8)
    by (bit_vector)
    requires
        flag & other == 0,
    ensures
        with_flag(status, flag, value) & other == status & other,
{
}

/// Updating the zero and negative flags makes them describe the result and
/// touches no other status bit.
pub proof fn lemma_zero_negative(status: u8, result: u8)
    by (bit_vector)
    ensures
        flag_set(with_zero_negative(status, result), FLAG_ZERO) == (result == 0),
        flag_set(with_zero_negative(status, result), FLAG_NEGATIVE) == (result >= 0x80),
        with_zero_negative(status, result) & 0b0111_1101 == status & 0b0111_1101,
{
}

impl CPU {
    /// Tells whether `flag` is set in the status register.
    pub fn get_flag(&self, flag: u8) -> (set: bool)
        ensures
            set == flag_set(self.status, flag),
    {
        (self.status & flag) != 0
    }

    /// Sets `flag` in the status register if `value` is true, clears it otherwise.
    pub fn set_flag(&mut self, flag: u8, value: bool)
        ensures
            *final(self) == (CPU {
                status: with_flag(old(self).status, flag, value),
                ..*old(self)
            }),
    {
        if value {
            self.status |= flag;
        } else {
            self.status &= !flag;
        }
    }

    /// Sets the zero flag iff `result` is zero and the negative flag iff bit 7
    /// of `result` is set.
    pub fn update_zero_and_negative_flags(&mut self, result: u8)
        ensures
            *final(self) == (CPU {
                status: with_zero_negative(old(self).status, result),
                ..*old(self)
            }),
    {
        if result == 0 {
            self.status |= FLAG_ZERO;
        } else {
            self.status &= !FLAG_ZERO;
        }
        assert((result & 0x80 != 0) == (result >= 0x80)) by (bit_vector);
        if (result & FLAG_NEGATIVE) != 0 {
            self.status |= FLAG_NEGATIVE;
        } else {
            self.status &= !FLAG_NEGATIVE;
        }
    }
}

} // verus!
