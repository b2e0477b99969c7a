//! The operand fetch: what the addressing mode of the current
//! instruction reads from registers and memory, and where the
//! instruction's result is to go.

use vstd::prelude::*;
use crate::bus::{bus_read, next_address, prev_address, BusError};
use crate::common::{convert_to_u16, word_of};
use crate::cpu::{CpuContext, CpuRegisters};
use crate::cpu_proc::{page, page_address, CpuError, Outcome};
use crate::cpu_util::{cpu_read_reg, cpu_set_reg, lemma_write_keeps_wf};
use crate::emu::emu_cycles;
use crate::instructions::{AddrMode, RegType};
use crate::machine::{Machine, MachineView};

verus! {

impl CpuRegisters {
    /// The address that register `rt` names: its value, or for register C
    /// the address in the page from `0xFF00` with C as its low byte.
    pub open spec fn address_in(self, rt: RegType) -> u16 {
        if rt == RegType::RT_C {
            page_address(self.read(rt))
        } else {
            self.read(rt)
        }
    }

    /// The register file with HL one higher.
    pub open spec fn hl_up(self) -> CpuRegisters {
        self.write(RegType::RT_HL, next_address(self.read(RegType::RT_HL)))
    }

    /// The register file with HL one lower.
    pub open spec fn hl_down(self) -> CpuRegisters {
        self.write(RegType::RT_HL, prev_address(self.read(RegType::RT_HL)))
    }
}

impl MachineView {
    /// The machine with `data` as the operand fetched.
    pub open spec fn fetched(self, data: u16) -> MachineView {
        self.with_cpu(CpuContext { fetched_data: data, ..self.cpu })
    }

    /// The machine with the memory address `address` as the destination
    /// of the current instruction.
    pub open spec fn dest(self, address: u16) -> MachineView {
        self.with_cpu(CpuContext { mem_dest: address, dest_is_mem: true, ..self.cpu })
    }

    /// The byte that the program counter names.
    pub open spec fn program_byte(self) -> Result<u8, BusError> {
        self.read(self.cpu.regs.pc)
    }

    /// The machine after the byte at the program counter was taken:
    /// where the read succeeds, one cycle is counted and the program
    /// counter moves on by one.
    pub open spec fn past_byte(self) -> MachineView {
        if self.program_byte() is Err {
            self
        } else {
            self.ticked(1).with_pc(next_address(self.cpu.regs.pc))
        }
    }

    /// The 16-bit value at the program counter, low byte first.
    pub open spec fn program_word(self) -> Result<u16, BusError> {
        match self.program_byte() {
            Err(e) => Err(e),
            Ok(lo) => match self.past_byte().program_byte() {
                Err(e) => Err(e),
                Ok(hi) => Ok(word_of(hi, lo)),
            },
        }
    }

    /// The machine after the 16-bit value at the program counter was taken.
    pub open spec fn past_word(self) -> MachineView {
        self.past_byte().past_byte()
    }

    /// The machine after a read of memory at `address` into the operand,
    /// which costs one cycle.
    pub open spec fn loaded(self, address: u16) -> Outcome {
        match self.read(address) {
            Err(e) => self.failed(e),
            Ok(value) => self.fetched(value as u16).ticked(1).done(),
        }
    }

    /// Register mode: the operand is register `rt`.
    pub open spec fn fetch_register(self, rt: RegType) -> Outcome {
        self.fetched(self.cpu.regs.read(rt)).done()
    }

    /// Immediate byte: the operand is taken from the program.
    pub open spec fn fetch_d8(self) -> Outcome {
        match self.program_byte() {
            Err(e) => self.failed(e),
            Ok(value) => self.past_byte().fetched(value as u16).done(),
        }
    }

    /// Immediate word: the operand is taken from the program.
    pub open spec fn fetch_d16(self) -> Outcome {
        match self.program_word() {
            Err(e) => self.past_word().failed(e),
            Ok(value) => self.past_word().fetched(value).done(),
        }
    }

    /// Register into memory: the operand is the second register, the
    /// destination is the address that the first register names.
    pub open spec fn fetch_mr_r(self) -> Outcome {
        let inst = self.cpu.cur_inst;
        let regs = self.cpu.regs;
        self.fetched(regs.read(inst.reg_2)).dest(regs.address_in(inst.reg_1)).done()
    }

    /// Memory into register: the operand is read from the address that
    /// the second register names.
    pub open spec fn fetch_r_mr(self) -> Outcome {
        self.loaded(self.cpu.regs.address_in(self.cpu.cur_inst.reg_2))
    }

    /// Memory into register, HL moving by one afterwards: up where `up`,
    /// else down.
    pub open spec fn fetch_r_hl(self, up: bool) -> Outcome {
        let regs = self.cpu.regs;
        let o = self.loaded(regs.read(self.cpu.cur_inst.reg_2));
        if o.result is Err {
            o
        } else {
            o.machine.with_regs(
                if up {
                    regs.hl_up()
                } else {
                    regs.hl_down()
                },
            ).done()
        }
    }

    /// Register into memory, HL moving by one afterwards: up where `up`,
    /// else down.
    pub open spec fn fetch_hl_r(self, up: bool) -> Outcome {
        let inst = self.cpu.cur_inst;
        let regs = self.cpu.regs;
        self.fetched(regs.read(inst.reg_2)).dest(regs.read(inst.reg_1)).with_regs(
            if up {
                regs.hl_up()
            } else {
                regs.hl_down()
            },
        ).done()
    }

    /// Register into the page from `0xFF00`: the destination is the
    /// address in that page that the next byte of the program names.
    pub open spec fn fetch_a8_r(self) -> Outcome {
        match self.program_byte() {
            Err(e) => self.failed(e),
            Ok(value) => self.past_byte().dest(page_address(value as u16)).done(),
        }
    }

    /// Register into memory at an immediate address: the destination is
    /// the next word of the program, the operand is the second register.
    pub open spec fn fetch_a16_r(self) -> Outcome {
        match self.program_word() {
            Err(e) => self.past_word().failed(e),
            Ok(address) => {
                let after = self.past_word();
                after.dest(address).fetched(after.cpu.regs.read(after.cpu.cur_inst.reg_2)).done()
            },
        }
    }

    /// Immediate byte into memory: the operand is taken from the
    /// program, the destination is the address in the first register.
    pub open spec fn fetch_mr_d8(self) -> Outcome {
        match self.program_byte() {
            Err(e) => self.failed(e),
            Ok(value) => {
                let after = self.past_byte();
                after.fetched(value as u16).dest(
                    after.cpu.regs.read(after.cpu.cur_inst.reg_1),
                ).done()
            },
        }
    }

    /// Memory both ways: the destination is the address in the first
    /// register, and the operand is read from it.
    pub open spec fn fetch_mr(self) -> Outcome {
        let address = self.cpu.regs.read(self.cpu.cur_inst.reg_1);
        self.dest(address).loaded(address)
    }

    /// Memory at an immediate address into register: the operand is read
    /// from the address that the next word of the program gives.
    pub open spec fn fetch_r_a16(self) -> Outcome {
        match self.program_word() {
            Err(e) => self.past_word().failed(e),
            Ok(address) => self.past_word().loaded(address),
        }
    }

    /// The operand fetch by addressing mode.
    #[verifier::opaque]
    pub open spec fn fetch_by_mode(self) -> Outcome {
        let inst = self.cpu.cur_inst;
        match inst.mode {
            AddrMode::AM_IMP => self.done(),
            AddrMode::AM_R => self.fetch_register(inst.reg_1),
            AddrMode::AM_R_R => self.fetch_register(inst.reg_2),
            AddrMode::AM_R_D8 | AddrMode::AM_R_A8 | AddrMode::AM_HL_SPR | AddrMode::AM_D8 => self.fetch_d8(),
            AddrMode::AM_D16 | AddrMode::AM_R_D16 => self.fetch_d16(),
            AddrMode::AM_MR_R => self.fetch_mr_r(),
            AddrMode::AM_R_MR => self.fetch_r_mr(),
            AddrMode::AM_R_HLI => self.fetch_r_hl(true),
            AddrMode::AM_R_HLD => self.fetch_r_hl(false),
            AddrMode::AM_HLI_R => self.fetch_hl_r(true),
            AddrMode::AM_HLD_R => self.fetch_hl_r(false),
            AddrMode::AM_A8_R => self.fetch_a8_r(),
            AddrMode::AM_A16_R | AddrMode::AM_D16_R => self.fetch_a16_r(),
            AddrMode::AM_MR_D8 => self.fetch_mr_d8(),
            AddrMode::AM_MR => self.fetch_mr(),
            AddrMode::AM_R_A16 => self.fetch_r_a16(),
        }
    }

    /// The operand fetch: it starts from no memory destination, then
    /// goes by the addressing mode of the current instruction.
    pub open spec fn fetch_data(self) -> Outcome {
        self.with_cpu(
            CpuContext { mem_dest: 0, dest_is_mem: false, ..self.cpu },
        ).fetch_by_mode()
    }
}

/// Takes the byte at the program counter.
fn take_byte(m: &mut Machine) -> (r: Result<u8, BusError>)
    ensures
        r == old(m)@.program_byte(),
        final(m)@ == old(m)@.past_byte(),
        old(m).wf() ==> final(m).wf(),
{
    let value = match bus_read(m, m.cpu.regs.pc) {
        Ok(value) => value,
        Err(e) => {
            return Err(e);
        },
    };
    emu_cycles(&mut m.emu, 1);
    m.cpu.regs.pc = m.cpu.regs.pc.wrapping_add(1);
    Ok(value)
}

/// Takes the 16-bit value at the program counter, low byte first.
fn take_word(m: &mut Machine) -> (r: Result<u16, BusError>)
    ensures
        r == old(m)@.program_word(),
        final(m)@ == old(m)@.past_word(),
        old(m).wf() ==> final(m).wf(),
{
    let lo = match take_byte(m) {
        Ok(value) => value,
        Err(e) => {
            return Err(e);
        },
    };
    let hi = match take_byte(m) {
        Ok(value) => value,
        Err(e) => {
            return Err(e);
        },
    };
    Ok(convert_to_u16(hi, lo))
}

/// Reads memory at `address` into the operand.
fn load_operand(m: &mut Machine, address: u16) -> (r: Result<(), CpuError>)
    ensures
        final(m)@ == old(m)@.loaded(address).machine,
        old(m).wf() ==> final(m).wf(),
        r == old(m)@.loaded(address).result,
{
    let value = match bus_read(m, address) {
        Ok(value) => value,
        Err(e) => {
            return Err(CpuError::Bus(e));
        },
    };
    m.cpu.fetched_data = value as u16;
    emu_cycles(&mut m.emu, 1);
    Ok(())
}

/// The address that register `rt` names.
fn address_in(ctx: &CpuContext, rt: RegType) -> (r: u16)
    ensures
        r == ctx.regs.address_in(rt),
{
    let address = cpu_read_reg(ctx, rt);
    if rt == RegType::RT_C {
        page(address)
    } else {
        address
    }
}

/// Sets the memory destination of the current instruction.
fn set_dest(ctx: &mut CpuContext, address: u16)
    ensures
        *final(ctx) == (CpuContext { mem_dest: address, dest_is_mem: true, ..*old(ctx) }),
{
    ctx.mem_dest = address;
    ctx.dest_is_mem = true;
}

/// Moves HL up by one.
fn hl_up(ctx: &mut CpuContext)
    ensures
        *final(ctx) == old(ctx).with_regs(old(ctx).regs.hl_up()),
        old(ctx).regs.wf() ==> final(ctx).regs.wf(),
{
    let hl = cpu_read_reg(ctx, RegType::RT_HL);
    cpu_set_reg(ctx, RegType::RT_HL, hl.wrapping_add(1));
}

/// Moves HL down by one.
fn hl_down(ctx: &mut CpuContext)
    ensures
        *final(ctx) == old(ctx).with_regs(old(ctx).regs.hl_down()),
        old(ctx).regs.wf() ==> final(ctx).regs.wf(),
{
    let hl = cpu_read_reg(ctx, RegType::RT_HL);
    cpu_set_reg(ctx, RegType::RT_HL, hl.wrapping_sub(1));
}

/// Register mode.
fn fetch_register(m: &mut Machine, rt: RegType) -> (r: Result<(), CpuError>)
    ensures
        final(m)@ == old(m)@.fetch_register(rt).machine,
        old(m).wf() ==> final(m).wf(),
        r == old(m)@.fetch_register(rt).result,
{
    m.cpu.fetched_data = cpu_read_reg(&m.cpu, rt);
    Ok(())
}

/// Immediate byte.
fn fetch_d8(m: &mut Machine) -> (r: Result<(), CpuError>)
    ensures
        final(m)@ == old(m)@.fetch_d8().machine,
        old(m).wf() ==> final(m).wf(),
        r == old(m)@.fetch_d8().result,
{
    match take_byte(m) {
        Ok(value) => {
            m.cpu.fetched_data = value as u16;
            Ok(())
        },
        Err(e) => Err(CpuError::Bus(e)),
    }
}

/// Immediate word.
fn fetch_d16(m: &mut Machine) -> (r: Result<(), CpuError>)
    ensures
        final(m)@ == old(m)@.fetch_d16().machine,
        old(m).wf() ==> final(m).wf(),
        r == old(m)@.fetch_d16().result,
{
    match take_word(m) {
        Ok(value) => {
            m.cpu.fetched_data = value;
            Ok(())
        },
        Err(e) => Err(CpuError::Bus(e)),
    }
}

/// Register into memory.
fn fetch_mr_r(m: &mut Machine) -> (r: Result<(), CpuError>)
    ensures
        final(m)@ == old(m)@.fetch_mr_r().machine,
        old(m).wf() ==> final(m).wf(),
        r == old(m)@.fetch_mr_r().result,
{
    let inst = m.cpu.cur_inst;
    let address = address_in(&m.cpu, inst.reg_1);
    m.cpu.fetched_data = cpu_read_reg(&m.cpu, inst.reg_2);
    set_dest(&mut m.cpu, address);
    Ok(())
}

/// Memory into register.
fn fetch_r_mr(m: &mut Machine) -> (r: Result<(), CpuError>)
    ensures
        final(m)@ == old(m)@.fetch_r_mr().machine,
        old(m).wf() ==> final(m).wf(),
        r == old(m)@.fetch_r_mr().result,
{
    let address = address_in(&m.cpu, m.cpu.cur_inst.reg_2);
    load_operand(m, address)
}

/// Memory into register, HL moving afterwards.
fn fetch_r_hl(m: &mut Machine, up: bool) -> (r: Result<(), CpuError>)
    ensures
        final(m)@ == old(m)@.fetch_r_hl(up).machine,
        old(m).wf() ==> final(m).wf(),
        r == old(m)@.fetch_r_hl(up).result,
{
    let address = cpu_read_reg(&m.cpu, m.cpu.cur_inst.reg_2);
    match load_operand(m, address) {
        Ok(_) => {
            if up {
                hl_up(&mut m.cpu);
            } else {
                hl_down(&mut m.cpu);
            }
            Ok(())
        },
        Err(e) => Err(e),
    }
}

/// Register into memory, HL moving afterwards.
fn fetch_hl_r(m: &mut Machine, up: bool) -> (r: Result<(), CpuError>)
    ensures
        final(m)@ == old(m)@.fetch_hl_r(up).machine,
        old(m).wf() ==> final(m).wf(),
        r == old(m)@.fetch_hl_r(up).result,
{
    let inst = m.cpu.cur_inst;
    let address = cpu_read_reg(&m.cpu, inst.reg_1);
    m.cpu.fetched_data = cpu_read_reg(&m.cpu, inst.reg_2);
    set_dest(&mut m.cpu, address);
    if up {
        hl_up(&mut m.cpu);
    } else {
        hl_down(&mut m.cpu);
    }
    Ok(())
}

/// Register into the page from `0xFF00`.
fn fetch_a8_r(m: &mut Machine) -> (r: Result<(), CpuError>)
    ensures
        final(m)@ == old(m)@.fetch_a8_r().machine,
        old(m).wf() ==> final(m).wf(),
        r == old(m)@.fetch_a8_r().result,
{
    match take_byte(m) {
        Ok(value) => {
            set_dest(&mut m.cpu, page(value as u16));
            Ok(())
        },
        Err(e) => Err(CpuError::Bus(e)),
    }
}

/// Register into memory at an immediate address.
fn fetch_a16_r(m: &mut Machine) -> (r: Result<(), CpuError>)
    ensures
        final(m)@ == old(m)@.fetch_a16_r().machine,
        old(m).wf() ==> final(m).wf(),
        r == old(m)@.fetch_a16_r().result,
{
    match take_word(m) {
        Ok(address) => {
            set_dest(&mut m.cpu, address);
            m.cpu.fetched_data = cpu_read_reg(&m.cpu, m.cpu.cur_inst.reg_2);
            Ok(())
        },
        Err(e) => Err(CpuError::Bus(e)),
    }
}

/// Immediate byte into memory.
fn fetch_mr_d8(m: &mut Machine) -> (r: Result<(), CpuError>)
    ensures
        final(m)@ == old(m)@.fetch_mr_d8().machine,
        old(m).wf() ==> final(m).wf(),
        r == old(m)@.fetch_mr_d8().result,
{
    match take_byte(m) {
        Ok(value) => {
            m.cpu.fetched_data = value as u16;
            let address = cpu_read_reg(&m.cpu, m.cpu.cur_inst.reg_1);
            set_dest(&mut m.cpu, address);
            Ok(())
        },
        Err(e) => Err(CpuError::Bus(e)),
    }
}

/// Memory both ways.
fn fetch_mr(m: &mut Machine) -> (r: Result<(), CpuError>)
    ensures
        final(m)@ == old(m)@.fetch_mr().machine,
        old(m).wf() ==> final(m).wf(),
        r == old(m)@.fetch_mr().result,
{
    let address = cpu_read_reg(&m.cpu, m.cpu.cur_inst.reg_1);
    set_dest(&mut m.cpu, address);
    load_operand(m, address)
}

/// Memory at an immediate address into register.
fn fetch_r_a16(m: &mut Machine) -> (r: Result<(), CpuError>)
    ensures
        final(m)@ == old(m)@.fetch_r_a16().machine,
        old(m).wf() ==> final(m).wf(),
        r == old(m)@.fetch_r_a16().result,
{
    match take_word(m) {
        Ok(address) => load_operand(m, address),
        Err(e) => Err(CpuError::Bus(e)),
    }
}

/// Fetches the operand as the addressing mode asks.
fn fetch_by_mode(m: &mut Machine) -> (r: Result<(), CpuError>)
    ensures
        final(m)@ == old(m)@.fetch_by_mode().machine,
        old(m).wf() ==> final(m).wf(),
        r == old(m)@.fetch_by_mode().result,
{
    proof {
        reveal(MachineView::fetch_by_mode);
    }
    let inst = m.cpu.cur_inst;
    match inst.mode {
        AddrMode::AM_IMP => Ok(()),
        AddrMode::AM_R => fetch_register(m, inst.reg_1),
        AddrMode::AM_R_R => fetch_register(m, inst.reg_2),
        AddrMode::AM_R_D8 | AddrMode::AM_R_A8 | AddrMode::AM_HL_SPR | AddrMode::AM_D8 => fetch_d8(m),
        AddrMode::AM_D16 | AddrMode::AM_R_D16 => fetch_d16(m),
        AddrMode::AM_MR_R => fetch_mr_r(m),
        AddrMode::AM_R_MR => fetch_r_mr(m),
        AddrMode::AM_R_HLI => fetch_r_hl(m, true),
        AddrMode::AM_R_HLD => fetch_r_hl(m, false),
        AddrMode::AM_HLI_R => fetch_hl_r(m, true),
        AddrMode::AM_HLD_R => fetch_hl_r(m, false),
        AddrMode::AM_A8_R => fetch_a8_r(m),
        AddrMode::AM_A16_R | AddrMode::AM_D16_R => fetch_a16_r(m),
        AddrMode::AM_MR_D8 => fetch_mr_d8(m),
        AddrMode::AM_MR => fetch_mr(m),
        AddrMode::AM_R_A16 => fetch_r_a16(m),
    }
}

/// Fetches the operand of the current instruction.
pub fn fetch_data(m: &mut Machine) -> (r: Result<(), CpuError>)
    ensures
        final(m)@ == old(m)@.fetch_data().machine,
        old(m).wf() ==> final(m).wf(),
        r == old(m)@.fetch_data().result,
{
    m.cpu.mem_dest = 0;
    m.cpu.dest_is_mem = false;
    fetch_by_mode(m)
}

/// The operand fetch leaves the processor halted or not as it was,
/// leaves the current instruction, the cartridge and the opcode table,
/// and leaves a well-formed machine well formed.
pub proof fn lemma_fetch_carries_on(s: MachineView)
    ensures
        s.fetch_data().machine.carries_on(s),
{
    reveal(MachineView::fetch_by_mode);
    assert forall|regs: CpuRegisters, rt: RegType, v: u16| regs.wf() implies (#[trigger] regs.write(
        rt,
        v,
    )).wf() by {
        lemma_write_keeps_wf(regs, rt, v);
    }
}

/// An instruction without operands fetches nothing.
pub proof fn lemma_fetch_implied(s: MachineView)
    requires
        s.cpu.cur_inst.mode == AddrMode::AM_IMP,
    ensures
        s.fetch_by_mode() == s.done(),
{
    reveal(MachineView::fetch_by_mode);
}

/// An instruction on one register fetches that register.
pub proof fn lemma_fetch_one_register(s: MachineView)
    requires
        s.cpu.cur_inst.mode == AddrMode::AM_R,
    ensures
        s.fetch_by_mode() == s.fetch_register(s.cpu.cur_inst.reg_1),
{
    reveal(MachineView::fetch_by_mode);
}

/// An instruction with an immediate word fetches it from the program.
pub proof fn lemma_fetch_immediate_word(s: MachineView)
    requires
        s.cpu.cur_inst.mode == AddrMode::AM_D16,
    ensures
        s.fetch_by_mode() == s.fetch_d16(),
{
    reveal(MachineView::fetch_by_mode);
}

} // verus!
