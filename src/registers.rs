//! The register file: eight general-purpose registers, the program counter
//! and the condition-flag register, addressed uniformly by index.
use vstd::prelude::*;

verus! {

/// Index of the program counter in the register file.
pub const PC_INDEX: u16 = 8;

/// Index of the condition-flag register in the register file.
pub const COND_INDEX: u16 = 9;

/// One of the three condition flags, each a single bit of `cond`.
#[derive(Debug, Clone, Copy, PartialEq, Eq, Structural)]
pub enum Flag {
    Pos,
    Zero,
    Neg,
}

/// The one-hot bit pattern of a flag.
pub open spec fn flag_bits(f: Flag) -> u16 {
    match f {
        Flag::Pos => 1,
        Flag::Zero => 2,
        Flag::Neg => 4,
    }
}

/// The flag that a value defines: zero, negative (top bit set) or positive.
pub open spec fn flag_of(v: u16) -> Flag {
    if v == 0 {
        Flag::Zero
    } else if v >= 0x8000 {
        Flag::Neg
    } else {
        Flag::Pos
    }
}

impl Flag {
    /// The flag's bit in the condition register.
    pub fn bits(&self) -> (r: u16)
        ensures
            r == flag_bits(*self),
    {
        match self {
            Flag::Pos => 1,
            Flag::Zero => 2,
            Flag::Neg => 4,
        }
    }
}

/// The ten registers of the machine.
#[derive(Debug, Clone, Copy, PartialEq, Eq, Structural)]
pub struct Registers {
    pub r0: u16,
    pub r1: u16,
    pub r2: u16,
    pub r3: u16,
    pub r4: u16,
    pub r5: u16,
    pub r6: u16,
    pub r7: u16,
    pub pc: u16,
    pub cond: u16,
}

impl Registers {
    /// The register at index `i`, in the order R0..R7, PC, COND.
    pub open spec fn reg(self, i: u16) -> u16 {
        if i == 0 {
            self.r0
        } else if i == 1 {
            self.r1
        } else if i == 2 {
            self.r2
        } else if i == 3 {
            self.r3
        } else if i == 4 {
            self.r4
        } else if i == 5 {
            self.r5
        } else if i == 6 {
            self.r6
        } else if i == 7 {
            self.r7
        } else if i == 8 {
            self.pc
        } else {
            self.cond
        }
    }

    /// The register file with register `i` set to `v`, the others kept.
    pub open spec fn with_reg(self, i: u16, v: u16) -> Registers {
        if i == 0 {
            Registers { r0: v, ..self }
        } else if i == 1 {
            Registers { r1: v, ..self }
        } else if i == 2 {
            Registers { r2: v, ..self }
        } else if i == 3 {
            Registers { r3: v, ..self }
        } else if i == 4 {
            Registers { r4: v, ..self }
        } else if i == 5 {
            Registers { r5: v, ..self }
        } else if i == 6 {
            Registers { r6: v, ..self }
        } else if i == 7 {
            Registers { r7: v, ..self }
        } else if i == 8 {
            Registers { pc: v, ..self }
        } else {
            Registers { cond: v, ..self }
        }
    }

    /// The register file with the condition flags set from register `i`.
    pub open spec fn flagged(self, i: u16) -> Registers {
        Registers { cond: flag_bits(flag_of(self.reg(i))), ..self }
    }

    /// Register `i` set to `v`, then the flags set from it.
    pub open spec fn with_result(self, i: u16, v: u16) -> Registers {
        self.with_reg(i, v).flagged(i)
    }

    /// All registers zero.
    pub fn new() -> (r: Registers)
        ensures
            r == (Registers {
                r0: 0,
                r1: 0,
                r2: 0,
                r3: 0,
                r4: 0,
                r5: 0,
                r6: 0,
                r7: 0,
                pc: 0,
                cond: 0,
            }),
    {
        Registers { r0: 0, r1: 0, r2: 0, r3: 0, r4: 0, r5: 0, r6: 0, r7: 0, pc: 0, cond: 0 }
    }

    /// The register at index `reg` (0..=9).
    pub fn get_reg_value(&self, reg: u16) -> (r: u16)
        requires
            reg <= 9,
        ensures
            r == self.reg(reg),
    {
        match reg {
            0 => self.r0,
            1 => self.r1,
            2 => self.r2,
            3 => self.r3,
            4 => self.r4,
            5 => self.r5,
            6 => self.r6,
            7 => self.r7,
            8 => self.pc,
            _ => self.cond,
        }
    }

    /// Stores `value` in the register at index `reg` (0..=9).
    pub fn update_register(&mut self, reg: u16, value: u16)
        requires
            reg <= 9,
        ensures
            *final(self) == old(self).with_reg(reg, value),
    {
        match reg {
            0 => self.r0 = value,
            1 => self.r1 = value,
            2 => self.r2 = value,
            3 => self.r3 = value,
            4 => self.r4 = value,
            5 => self.r5 = value,
            6 => self.r6 = value,
            7 => self.r7 = value,
            8 => self.pc = value,
            _ => self.cond = value,
        }
    }

    /// Sets the condition flags from the value now held in register
    /// `value` (an index, 0..=9): Zero for 0, Neg when the top bit is set,
    /// Pos otherwise.
    pub fn update_flag(&mut self, value: u16)
        requires
            value <= 9,
        ensures
            *final(self) == old(self).flagged(value),
    {
        let v = self.get_reg_value(value);
        let f = if v == 0 {
            Flag::Zero
        } else if v >> 15 != 0 {
            Flag::Neg
        } else {
            Flag::Pos
        };
        assert(v >> 15 != 0 <==> v >= 0x8000) by (bit_vector);
        self.cond = f.bits();
    }
}

/// After any flag-setting update, exactly one of the three flag bits is set
/// in `cond`, and it is the one that the destination's new value defines.
pub proof fn flag_invariant(regs: Registers, i: u16, v: u16)
    requires
        i <= 7,
    ensures
        ({
            let c = regs.with_result(i, v).cond;
            &&& (c == 1 || c == 2 || c == 4)
            &&& (c == 2 <==> v == 0)
            &&& (c == 4 <==> v >= 0x8000)
            &&& (c == 1 <==> 0 < v < 0x8000)
        }),
        regs.with_result(i, v).reg(i) == v,
{
}

} // verus!
