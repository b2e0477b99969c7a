//! The stack: it grows towards lower addresses, and the stack pointer
//! names the byte pushed last.

use vstd::prelude::*;
use crate::bus::{bus_read, bus_write, next_address, prev_address, reads_back, BusError};
use crate::common::{convert_to_u16, hi_byte, lo_byte, high_byte, low_byte, word_of};
use crate::cpu::CpuRegisters;
use crate::machine::{Machine, MachineView};

verus! {

impl MachineView {
    /// The machine with `sp` as its stack pointer.
    pub open spec fn with_sp(self, sp: u16) -> MachineView {
        self.with_regs(CpuRegisters { sp, ..self.cpu.regs })
    }

    /// Whether a push succeeds: the byte goes to the address before the
    /// stack pointer.
    pub open spec fn push_result(self) -> Result<(), BusError> {
        Self::write_result(prev_address(self.cpu.regs.sp))
    }

    /// The machine after a push of `data`: the stack pointer moves down by
    /// one, then `data` is written where it points.
    pub open spec fn pushed(self, data: u8) -> MachineView {
        let sp = prev_address(self.cpu.regs.sp);
        self.with_sp(sp).written(sp, data)
    }

    /// Whether a 16-bit push succeeds.
    pub open spec fn push16_result(self, data: u16) -> Result<(), BusError> {
        match self.push_result() {
            Err(e) => Err(e),
            Ok(_) => self.pushed(high_byte(data)).push_result(),
        }
    }

    /// The machine after a 16-bit push of `data`: the high byte is pushed
    /// first; where that fails the low byte is not pushed.
    pub open spec fn pushed16(self, data: u16) -> MachineView {
        if self.push_result() is Err {
            self.pushed(high_byte(data))
        } else {
            self.pushed(high_byte(data)).pushed(low_byte(data))
        }
    }

    /// What a pop gives: the byte that the stack pointer names.
    pub open spec fn pop_result(self) -> Result<u8, BusError> {
        self.read(self.cpu.regs.sp)
    }

    /// The machine after a pop: where the read succeeds the stack pointer
    /// moves up by one.
    pub open spec fn popped(self) -> MachineView {
        if self.pop_result() is Err {
            self
        } else {
            self.with_sp(next_address(self.cpu.regs.sp))
        }
    }

    /// What a 16-bit pop gives: the low byte is popped first.
    pub open spec fn pop16_result(self) -> Result<u16, BusError> {
        match self.pop_result() {
            Err(e) => Err(e),
            Ok(lo) => match self.popped().pop_result() {
                Err(e) => Err(e),
                Ok(hi) => Ok(word_of(hi, lo)),
            },
        }
    }

    /// The machine after a 16-bit pop.
    pub open spec fn popped16(self) -> MachineView {
        self.popped().popped()
    }
}

/// Pushes `data`.
pub fn stack_push(m: &mut Machine, data: u8) -> (r: Result<(), BusError>)
    ensures
        r == old(m)@.push_result(),
        final(m)@ == old(m)@.pushed(data),
        old(m).wf() ==> final(m).wf(),
{
    m.cpu.regs.sp = m.cpu.regs.sp.wrapping_sub(1);
    let sp = m.cpu.regs.sp;
    bus_write(m, sp, data)
}

/// Pushes the 16-bit `data`, high byte first.
pub fn stack_push16(m: &mut Machine, data: u16) -> (r: Result<(), BusError>)
    ensures
        r == old(m)@.push16_result(data),
        final(m)@ == old(m)@.pushed16(data),
        old(m).wf() ==> final(m).wf(),
{
    match stack_push(m, hi_byte(data)) {
        Ok(_) => {},
        Err(e) => {
            return Err(e);
        },
    }
    stack_push(m, lo_byte(data))
}

/// Pops one byte.
pub fn stack_pop(m: &mut Machine) -> (r: Result<u8, BusError>)
    ensures
        r == old(m)@.pop_result(),
        final(m)@ == old(m)@.popped(),
        old(m).wf() ==> final(m).wf(),
{
    let read = match bus_read(m, m.cpu.regs.sp) {
        Ok(value) => value,
        Err(e) => {
            return Err(e);
        },
    };
    m.cpu.regs.sp = m.cpu.regs.sp.wrapping_add(1);
    Ok(read)
}

/// Pops a 16-bit value, low byte first.
pub fn stack_pop16(m: &mut Machine) -> (r: Result<u16, BusError>)
    ensures
        r == old(m)@.pop16_result(),
        final(m)@ == old(m)@.popped16(),
        old(m).wf() ==> final(m).wf(),
{
    let lo = match stack_pop(m) {
        Ok(value) => value,
        Err(e) => {
            return Err(e);
        },
    };
    let hi = match stack_pop(m) {
        Ok(value) => value,
        Err(e) => {
            return Err(e);
        },
    };
    Ok(convert_to_u16(hi, lo))
}

/// Where the two addresses below the stack pointer read back the two
/// bytes of `data`, a 16-bit push followed by a 16-bit pop gives the
/// value pushed and leaves the stack pointer where it was.
pub proof fn lemma_push_pop16(s: MachineView, data: u16)
    requires
        s.wf(),
        reads_back(prev_address(s.cpu.regs.sp), high_byte(data)),
        reads_back(prev_address(prev_address(s.cpu.regs.sp)), low_byte(data)),
    ensures
        s.push16_result(data) is Ok,
        s.pushed16(data).pop16_result() == Ok::<u16, BusError>(data),
        s.pushed16(data).popped16().cpu.regs.sp == s.cpu.regs.sp,
        s.pushed16(data).popped16() == s.pushed16(data).with_sp(s.cpu.regs.sp),
{
}

/// Where the address below the stack pointer reads back `data`, a push
/// followed by a pop gives the byte pushed and leaves the stack pointer
/// where it was.
pub proof fn lemma_push_pop(s: MachineView, data: u8)
    requires
        s.wf(),
        reads_back(prev_address(s.cpu.regs.sp), data),
    ensures
        s.push_result() is Ok,
        s.pushed(data).pop_result() == Ok::<u8, BusError>(data),
        s.pushed(data).popped() == s.pushed(data).with_sp(s.cpu.regs.sp),
{
}

} // verus!
