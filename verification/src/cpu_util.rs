//! Reading and writing registers by name, and the two flags that guard
//! branches.

use vstd::prelude::*;
use crate::common::{bit, bit_of, convert_to_u16, hi_byte, lo_byte, high_byte, low_byte, word_of};
use crate::cpu::{CpuContext, CpuRegisters};
use crate::instructions::RegType;

verus! {

/// A byte with its low four bits cleared.
pub open spec fn high_nibble(v: u8) -> u8 {
    (v - v % 16) as u8
}

impl CpuRegisters {
    /// The low four bits of the flag register are zero.
    pub open spec fn wf(self) -> bool {
        self.f % 16 == 0
    }

    /// The zero flag: bit 7 of F.
    pub open spec fn flag_z(self) -> bool {
        bit_of(self.f, 7)
    }

    /// The subtract flag: bit 6 of F.
    pub open spec fn flag_n(self) -> bool {
        bit_of(self.f, 6)
    }

    /// The half-carry flag: bit 5 of F.
    pub open spec fn flag_h(self) -> bool {
        bit_of(self.f, 5)
    }

    /// The carry flag: bit 4 of F.
    pub open spec fn flag_c(self) -> bool {
        bit_of(self.f, 4)
    }

    /// The value of register `rt`. An 8-bit register is widened; a pair has
    /// its first register as the high byte and its second as the low byte;
    /// no register reads as zero.
    pub open spec fn read(self, rt: RegType) -> u16 {
        match rt {
            RegType::RT_A => self.a as u16,
            RegType::RT_F => self.f as u16,
            RegType::RT_B => self.b as u16,
            RegType::RT_C => self.c as u16,
            RegType::RT_D => self.d as u16,
            RegType::RT_E => self.e as u16,
            RegType::RT_H => self.h as u16,
            RegType::RT_L => self.l as u16,
            RegType::RT_AF => word_of(self.a, self.f),
            RegType::RT_BC => word_of(self.b, self.c),
            RegType::RT_DE => word_of(self.d, self.e),
            RegType::RT_HL => word_of(self.h, self.l),
            RegType::RT_PC => self.pc,
            RegType::RT_SP => self.sp,
            RegType::RT_NONE => 0,
        }
    }

    /// The register file after `val` is written to register `rt`. An 8-bit
    /// register takes the low byte of `val`; a pair takes the high byte in
    /// its first register and the low byte in its second. Whatever is
    /// written to F loses its low four bits. Writing to no register
    /// changes nothing.
    pub open spec fn write(self, rt: RegType, val: u16) -> CpuRegisters {
        match rt {
            RegType::RT_A => CpuRegisters { a: low_byte(val), ..self },
            RegType::RT_F => CpuRegisters { f: high_nibble(low_byte(val)), ..self },
            RegType::RT_B => CpuRegisters { b: low_byte(val), ..self },
            RegType::RT_C => CpuRegisters { c: low_byte(val), ..self },
            RegType::RT_D => CpuRegisters { d: low_byte(val), ..self },
            RegType::RT_E => CpuRegisters { e: low_byte(val), ..self },
            RegType::RT_H => CpuRegisters { h: low_byte(val), ..self },
            RegType::RT_L => CpuRegisters { l: low_byte(val), ..self },
            RegType::RT_AF => CpuRegisters {
                a: high_byte(val),
                f: high_nibble(low_byte(val)),
                ..self
            },
            RegType::RT_BC => CpuRegisters { b: high_byte(val), c: low_byte(val), ..self },
            RegType::RT_DE => CpuRegisters { d: high_byte(val), e: low_byte(val), ..self },
            RegType::RT_HL => CpuRegisters { h: high_byte(val), l: low_byte(val), ..self },
            RegType::RT_PC => CpuRegisters { pc: val, ..self },
            RegType::RT_SP => CpuRegisters { sp: val, ..self },
            RegType::RT_NONE => self,
        }
    }
}

/// Whether the zero flag is set.
pub fn cpu_flag_z(ctx: &CpuContext) -> (r: bool)
    ensures
        r == ctx.regs.flag_z(),
{
    bit(ctx.regs.f, 7)
}

/// Whether the carry flag is set.
pub fn cpu_flag_c(ctx: &CpuContext) -> (r: bool)
    ensures
        r == ctx.regs.flag_c(),
{
    bit(ctx.regs.f, 4)
}

/// Swaps the two bytes of `n`.
pub fn reverse(n: u16) -> (r: u16)
    ensures
        r == word_of(low_byte(n), high_byte(n)),
{
    convert_to_u16(lo_byte(n), hi_byte(n))
}

/// Clears the low four bits of `v`.
fn flag_bits(v: u8) -> (r: u8)
    ensures
        r == high_nibble(v),
{
    assert((v & 0xF0) == v - v % 16) by (bit_vector);
    v & 0xF0
}

/// Reads register `rt`.
pub fn cpu_read_reg(ctx: &CpuContext, rt: RegType) -> (r: u16)
    ensures
        r == ctx.regs.read(rt),
{
    match rt {
        RegType::RT_A => ctx.regs.a as u16,
        RegType::RT_F => ctx.regs.f as u16,
        RegType::RT_B => ctx.regs.b as u16,
        RegType::RT_C => ctx.regs.c as u16,
        RegType::RT_D => ctx.regs.d as u16,
        RegType::RT_E => ctx.regs.e as u16,
        RegType::RT_H => ctx.regs.h as u16,
        RegType::RT_L => ctx.regs.l as u16,
        RegType::RT_AF => reverse(convert_to_u16(ctx.regs.f, ctx.regs.a)),
        RegType::RT_BC => reverse(convert_to_u16(ctx.regs.c, ctx.regs.b)),
        RegType::RT_DE => reverse(convert_to_u16(ctx.regs.e, ctx.regs.d)),
        RegType::RT_HL => reverse(convert_to_u16(ctx.regs.l, ctx.regs.h)),
        RegType::RT_PC => ctx.regs.pc,
        RegType::RT_SP => ctx.regs.sp,
        RegType::RT_NONE => 0,
    }
}

/// Writes `val` to register `rt`.
pub fn cpu_set_reg(ctx: &mut CpuContext, rt: RegType, val: u16)
    ensures
        *final(ctx) == (CpuContext { regs: old(ctx).regs.write(rt, val), ..*old(ctx) }),
        old(ctx).regs.wf() ==> final(ctx).regs.wf(),
{
    match rt {
        RegType::RT_A => ctx.regs.a = lo_byte(val),
        RegType::RT_F => ctx.regs.f = flag_bits(lo_byte(val)),
        RegType::RT_B => ctx.regs.b = lo_byte(val),
        RegType::RT_C => ctx.regs.c = lo_byte(val),
        RegType::RT_D => ctx.regs.d = lo_byte(val),
        RegType::RT_E => ctx.regs.e = lo_byte(val),
        RegType::RT_H => ctx.regs.h = lo_byte(val),
        RegType::RT_L => ctx.regs.l = lo_byte(val),
        RegType::RT_AF => {
            let reversed = reverse(val);
            ctx.regs.a = lo_byte(reversed);
            ctx.regs.f = flag_bits(hi_byte(reversed));
        },
        RegType::RT_BC => {
            let reversed = reverse(val);
            ctx.regs.b = lo_byte(reversed);
            ctx.regs.c = hi_byte(reversed);
        },
        RegType::RT_DE => {
            let reversed = reverse(val);
            ctx.regs.d = lo_byte(reversed);
            ctx.regs.e = hi_byte(reversed);
        },
        RegType::RT_HL => {
            let reversed = reverse(val);
            ctx.regs.h = lo_byte(reversed);
            ctx.regs.l = hi_byte(reversed);
        },
        RegType::RT_PC => ctx.regs.pc = val,
        RegType::RT_SP => ctx.regs.sp = val,
        RegType::RT_NONE => (),
    }
}

/// A pair, the stack pointer or the program counter reads back what was
/// written to it; of AF the low four bits are lost.
pub proof fn lemma_pair_round_trip(regs: CpuRegisters, rt: RegType, v: u16)
    requires
        rt.wide(),
    ensures
        rt != RegType::RT_AF ==> regs.write(rt, v).read(rt) == v,
        rt == RegType::RT_AF ==> regs.write(rt, v).read(rt) == v - v % 16,
{
}

/// An 8-bit register other than F reads back the low byte of what was
/// written to it.
pub proof fn lemma_byte_round_trip(regs: CpuRegisters, rt: RegType, v: u16)
    requires
        !rt.wide(),
        rt != RegType::RT_NONE,
        rt != RegType::RT_F,
    ensures
        regs.write(rt, v).read(rt) == v % 256,
{
}

/// A write keeps the low four bits of F at zero.
pub proof fn lemma_write_keeps_wf(regs: CpuRegisters, rt: RegType, v: u16)
    requires
        regs.wf(),
    ensures
        regs.write(rt, v).wf(),
{
}

} // verus!
