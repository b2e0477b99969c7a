//! The processor: its register file, the execution context that one
//! instruction leaves for the next, and the step that fetches, decodes
//! and executes one instruction.

use vstd::prelude::*;
use crate::bus::{bus_read, next_address, BusError};
use crate::common::word_of;
use crate::cpu_fetch::{fetch_data, lemma_fetch_carries_on, lemma_fetch_immediate_word};
use crate::cpu_fetch::{lemma_fetch_implied, lemma_fetch_one_register};
use crate::cpu_proc::{inst_get_processor, processor_of, CpuError, Outcome};
use crate::cpu_proc::{lemma_handled_carries_on, lemma_xor_a};
use crate::emu::{emu_cycles, ticks_after};
use crate::instructions::{decode, instruction_by_opcode, opcode_entry, plain_entry};
use crate::instructions::{set_instructions, AddrMode, CondType, InType, Instruction, RegType};
use crate::machine::{Machine, MachineView};

verus! {

/// The register file: eight 8-bit registers, the program counter and the
/// stack pointer. The low four bits of `f` hold no flag.
#[derive(Debug, Clone, Copy, PartialEq, Eq, Structural)]
pub struct CpuRegisters {
    pub a: u8,
    pub f: u8,
    pub b: u8,
    pub c: u8,
    pub d: u8,
    pub e: u8,
    pub h: u8,
    pub l: u8,
    pub pc: u16,
    pub sp: u16,
}

/// The execution state of the processor.
#[derive(Debug, Clone, Copy, PartialEq, Eq, Structural)]
pub struct CpuContext {
    pub regs: CpuRegisters,
    /// The operand that the last operand fetch produced.
    pub fetched_data: u16,
    /// The address that the current instruction writes to, where `dest_is_mem`.
    pub mem_dest: u16,
    pub dest_is_mem: bool,
    pub cur_opcode: u8,
    pub halted: bool,
    pub stepping: bool,
    pub int_master_enabled: bool,
    /// The interrupt-enable register, seen on the bus at `0xFFFF`.
    pub ie_register: u8,
    pub cur_inst: Instruction,
}

impl CpuContext {
    /// The state at power-on: A is 1, every other register is 0, nothing
    /// has been fetched, and interrupts are enabled.
    pub open spec fn initial() -> CpuContext {
        CpuContext {
            regs: CpuRegisters { a: 1, f: 0, b: 0, c: 0, d: 0, e: 0, h: 0, l: 0, pc: 0, sp: 0 },
            fetched_data: 0,
            mem_dest: 0,
            dest_is_mem: false,
            cur_opcode: 0,
            halted: false,
            stepping: false,
            int_master_enabled: true,
            ie_register: 0,
            cur_inst: plain_entry(InType::IN_NONE),
        }
    }

    /// The processor at power-on.
    pub fn new() -> (ctx: CpuContext)
        ensures
            ctx == CpuContext::initial(),
            ctx.regs.wf(),
    {
        CpuContext {
            regs: CpuRegisters { a: 1, f: 0, b: 0, c: 0, d: 0, e: 0, h: 0, l: 0, pc: 0, sp: 0 },
            fetched_data: 0,
            mem_dest: 0,
            dest_is_mem: false,
            cur_opcode: 0,
            halted: false,
            stepping: false,
            int_master_enabled: true,
            ie_register: 0,
            cur_inst: Instruction {
                i_type: InType::IN_NONE,
                mode: AddrMode::AM_IMP,
                reg_1: RegType::RT_NONE,
                reg_2: RegType::RT_NONE,
                cond: CondType::CT_NONE,
                param: 0,
            },
        }
    }
}

/// The interrupt-enable register.
pub fn cpu_get_ie_register(ctx: &CpuContext) -> (r: u8)
    ensures
        r == ctx.ie_register,
{
    ctx.ie_register
}

/// Stores `value` in the interrupt-enable register.
pub fn cpu_set_ie_register(ctx: &mut CpuContext, value: u8)
    ensures
        *final(ctx) == (CpuContext { ie_register: value, ..*old(ctx) }),
{
    ctx.ie_register = value;
}

/// The address at which a cartridge's program starts.
pub const ENTRY_POINT: u16 = 0x100;

impl MachineView {
    /// The instruction fetch: the opcode is the byte at the program
    /// counter; it costs one cycle, and the program counter moves past
    /// it. What the opcode table gives for the opcode becomes the current
    /// instruction; where it gives nothing, the fetch fails and names the
    /// opcode and the address it was read from.
    pub open spec fn fetch_instruction(self) -> Outcome {
        match self.program_byte() {
            Err(e) => self.failed(e),
            Ok(opcode) => {
                let after = self.past_byte();
                let s = after.with_cpu(CpuContext { cur_opcode: opcode, ..after.cpu });
                match s.instructions.lookup(opcode) {
                    None => Outcome {
                        machine: s,
                        result: Err(CpuError::UnknownOpcode { opcode, pc: self.cpu.regs.pc }),
                    },
                    Some(inst) => s.with_cpu(CpuContext { cur_inst: inst, ..s.cpu }).done(),
                }
            },
        }
    }

    /// The handler of the current instruction's kind, run on the machine.
    pub open spec fn execute(self) -> Outcome {
        self.handled(processor_of(self.cpu.cur_inst.i_type))
    }

    /// One step. A halted processor does nothing. Otherwise the
    /// instruction is fetched, then its operand, then it is executed; the
    /// first of these to fail ends the step and leaves the machine as it
    /// was at that point.
    pub open spec fn step(self) -> Outcome {
        if self.cpu.halted {
            self.done()
        } else {
            let fetched = self.fetch_instruction();
            if fetched.result is Err {
                fetched
            } else {
                let ready = fetched.machine.fetch_data();
                if ready.result is Err {
                    ready
                } else {
                    ready.machine.execute()
                }
            }
        }
    }
}

/// The processor's context.
pub fn cpu_get_context(m: &Machine) -> (ctx: &CpuContext)
    ensures
        *ctx == m.cpu,
{
    &m.cpu
}

/// Gets the processor ready to run a cartridge: the opcode table is
/// built and the program counter is set to the entry point.
pub fn cpu_init(m: &mut Machine)
    ensures
        final(m)@ == (MachineView {
            instructions: final(m).instructions,
            ..old(m)@.with_pc(0x100)
        }),
        final(m).instructions.wf(),
        old(m).cpu.regs.wf() ==> final(m).wf(),
{
    m.instructions = set_instructions();
    m.cpu.regs.pc = ENTRY_POINT;
}

/// Fetches the opcode at the program counter and looks up its instruction.
pub fn fetch_instruction(m: &mut Machine) -> (r: Result<(), CpuError>)
    ensures
        final(m)@ == old(m)@.fetch_instruction().machine,
        old(m).wf() ==> final(m).wf(),
        r == old(m)@.fetch_instruction().result,
{
    let pc = m.cpu.regs.pc;
    let opcode = match bus_read(m, pc) {
        Ok(value) => value,
        Err(e) => {
            return Err(CpuError::Bus(e));
        },
    };
    emu_cycles(&mut m.emu, 1);
    m.cpu.cur_opcode = opcode;
    m.cpu.regs.pc = pc.wrapping_add(1);
    match instruction_by_opcode(&m.instructions, opcode) {
        Some(inst) => {
            m.cpu.cur_inst = inst;
            Ok(())
        },
        None => Err(CpuError::UnknownOpcode { opcode, pc }),
    }
}

/// Runs the handler of the current instruction.
pub fn execute(m: &mut Machine) -> (r: Result<(), CpuError>)
    ensures
        final(m)@ == old(m)@.execute().machine,
        old(m).wf() ==> final(m).wf(),
        r == old(m)@.execute().result,
{
    let handler = inst_get_processor(m.cpu.cur_inst.i_type);
    handler.run(m)
}

/// Runs one instruction, unless the processor is halted.
pub fn cpu_step(m: &mut Machine) -> (r: Result<(), CpuError>)
    ensures
        final(m)@ == old(m)@.step().machine,
        old(m).wf() ==> final(m).wf(),
        r == old(m)@.step().result,
{
    if !m.cpu.halted {
        match fetch_instruction(m) {
            Ok(_) => {},
            Err(e) => {
                return Err(e);
            },
        }
        match fetch_data(m) {
            Ok(_) => {},
            Err(e) => {
                return Err(e);
            },
        }
        return execute(m);
    }
    Ok(())
}

/// A halted processor stays halted: a step changes nothing.
pub proof fn lemma_halted_stays(s: MachineView)
    requires
        s.cpu.halted,
    ensures
        s.step() == s.done(),
{
}

/// A step leaves a well-formed machine well formed: both RAM areas keep
/// their size and the flag register holds no stray bit. It changes
/// neither the cartridge nor the opcode table.
pub proof fn lemma_step_keeps_wf(s: MachineView)
    ensures
        s.wf() ==> s.step().machine.wf(),
        s.step().machine.cart == s.cart,
        s.step().machine.instructions == s.instructions,
{
    let fetched = s.fetch_instruction();
    lemma_fetch_carries_on(fetched.machine);
    let ready = fetched.machine.fetch_data();
    lemma_handled_carries_on(ready.machine, processor_of(ready.machine.cpu.cur_inst.i_type));
}

/// The processor halts only by executing HALT: where a step leaves a
/// processor halted that was not, the instruction it fetched is HALT,
/// and in a table that is filled in its opcode is `0x76`.
pub proof fn lemma_halts_only_by_halt(s: MachineView)
    requires
        !s.cpu.halted,
        s.step().machine.cpu.halted,
    ensures
        s.step().result is Ok,
        s.fetch_instruction().machine.cpu.cur_inst.i_type == InType::IN_HALT,
        s.instructions.wf() ==> s.program_byte() == Ok::<u8, BusError>(0x76),
{
    let fetched = s.fetch_instruction();
    lemma_fetch_carries_on(fetched.machine);
    let ready = fetched.machine.fetch_data();
    let handler = processor_of(ready.machine.cpu.cur_inst.i_type);
    lemma_handled_carries_on(ready.machine, handler);
    if s.instructions.wf() {
        let opcode = s.program_byte()->Ok_0;
        assert(s.instructions.entries[opcode as int] == opcode_entry(opcode));
        lemma_halt_opcode(opcode);
    }
}

/// HALT has one opcode.
proof fn lemma_halt_opcode(opcode: u8)
    ensures
        opcode_entry(opcode).i_type == InType::IN_HALT <==> opcode == 0x76,
{
}

/// What the instruction fetch gives where the byte at the program
/// counter is the opcode of an instruction: the machine past that byte,
/// with the opcode and its instruction in the context.
pub proof fn lemma_fetch_instruction(s: MachineView, opcode: u8)
    requires
        s.wf(),
        s.program_byte() == Ok::<u8, BusError>(opcode),
        decode(opcode) is Some,
    ensures
        s.fetch_instruction() == s.ticked(1).with_cpu(
            CpuContext {
                regs: CpuRegisters { pc: next_address(s.cpu.regs.pc), ..s.cpu.regs },
                cur_opcode: opcode,
                cur_inst: opcode_entry(opcode),
                ..s.cpu
            },
        ).done(),
{
    assert(s.instructions.entries[opcode as int] == opcode_entry(opcode));
}

/// NOP costs one cycle: a step over the opcode `0x00` moves the program
/// counter past it, counts one cycle, and leaves registers and memory.
pub proof fn lemma_step_nop(s: MachineView)
    requires
        s.wf(),
        !s.cpu.halted,
        s.program_byte() == Ok::<u8, BusError>(0x00),
    ensures
        s.step() == s.ticked(1).with_cpu(
            CpuContext {
                regs: CpuRegisters { pc: next_address(s.cpu.regs.pc), ..s.cpu.regs },
                cur_opcode: 0x00,
                cur_inst: opcode_entry(0x00),
                mem_dest: 0,
                dest_is_mem: false,
                ..s.cpu
            },
        ).done(),
{
    lemma_fetch_instruction(s, 0x00);
    let s1 = s.fetch_instruction().machine;
    let s2 = s1.with_cpu(CpuContext { mem_dest: 0, dest_is_mem: false, ..s1.cpu });
    lemma_fetch_implied(s2);
}

/// JP costs four cycles: a step over the opcode `0xC3` followed by the
/// bytes `lo` and `hi` sets the program counter to the address with high
/// byte `hi` and low byte `lo`, counts four cycles, and leaves the other
/// registers and memory.
pub proof fn lemma_step_jp(s: MachineView, lo: u8, hi: u8)
    requires
        s.wf(),
        !s.cpu.halted,
        s.read(s.cpu.regs.pc) == Ok::<u8, BusError>(0xC3),
        s.read(next_address(s.cpu.regs.pc)) == Ok::<u8, BusError>(lo),
        s.read(next_address(next_address(s.cpu.regs.pc))) == Ok::<u8, BusError>(hi),
    ensures
        s.step().result is Ok,
        s.step().machine.cpu.regs == (CpuRegisters { pc: word_of(hi, lo), ..s.cpu.regs }),
        s.step().machine.emu.ticks == ticks_after(s.emu.ticks, 4),
        s.step().machine.wram == s.wram,
        s.step().machine.hram == s.hram,
{
    lemma_fetch_instruction(s, 0xC3);
    let s1 = s.fetch_instruction().machine;
    let s2 = s1.with_cpu(CpuContext { mem_dest: 0, dest_is_mem: false, ..s1.cpu });
    lemma_fetch_immediate_word(s2);
    assert(s2.program_byte() == Ok::<u8, BusError>(lo));
    let s3 = s2.past_byte();
    assert(s3.program_byte() == Ok::<u8, BusError>(hi));
    assert(s2.fetch_d16() == s3.past_byte().fetched(word_of(hi, lo)).done());
    let s4 = s3.past_byte().fetched(word_of(hi, lo));
    reveal(MachineView::op_jp);
    assert(s.step() == s4.op_jp());
}

/// A jump and a no-operation: on a cartridge that holds a jump to
/// `0x0103` at the entry point and a no-operation at `0x0103`, two steps
/// from the entry point leave the program counter at `0x0104` and count
/// five cycles, four for the jump and one for the no-operation.
pub proof fn lemma_jump_then_nop(s: MachineView)
    requires
        s.wf(),
        !s.cpu.halted,
        s.cpu.regs.pc == 0x100,
        s.rom().len() > 0x103,
        s.rom()[0x100] == 0xC3,
        s.rom()[0x101] == 0x03,
        s.rom()[0x102] == 0x01,
        s.rom()[0x103] == 0x00,
    ensures
        s.step().result is Ok,
        s.step().machine.step().result is Ok,
        s.step().machine.step().machine.cpu.regs.pc == 0x104,
        s.step().machine.step().machine.emu.ticks == ticks_after(s.emu.ticks, 5),
{
    lemma_step_jp(s, 0x03, 0x01);
    lemma_step_keeps_wf(s);
    let s1 = s.step().machine;
    lemma_other_opcodes_keep_running(s);
    assert(s1.cpu.regs.pc == 0x103);
    assert(s1.program_byte() == Ok::<u8, BusError>(0x00));
    lemma_step_nop(s1);
}

/// A step over an opcode other than that of HALT leaves a running
/// processor running.
proof fn lemma_other_opcodes_keep_running(s: MachineView)
    requires
        s.instructions.wf(),
        !s.cpu.halted,
        s.program_byte() != Ok::<u8, BusError>(0x76),
    ensures
        !s.step().machine.cpu.halted,
{
    if s.step().machine.cpu.halted {
        lemma_halts_only_by_halt(s);
    }
}

/// The exclusive-or of the accumulator with itself: a step over the
/// opcode `0xAF` leaves zero in the accumulator, sets the zero flag and
/// clears the other flags, whatever the accumulator and the flags were.
pub proof fn lemma_step_xor_a(s: MachineView)
    requires
        s.wf(),
        !s.cpu.halted,
        s.program_byte() == Ok::<u8, BusError>(0xAF),
    ensures
        s.step().result is Ok,
        s.step().machine.cpu.regs == (CpuRegisters {
            a: 0,
            f: 0x80,
            pc: next_address(s.cpu.regs.pc),
            ..s.cpu.regs
        }),
        s.step().machine.emu.ticks == ticks_after(s.emu.ticks, 1),
{
    lemma_fetch_instruction(s, 0xAF);
    let s1 = s.fetch_instruction().machine;
    let s2 = s1.with_cpu(CpuContext { mem_dest: 0, dest_is_mem: false, ..s1.cpu });
    lemma_fetch_one_register(s2);
    let s3 = s2.fetched(s2.cpu.regs.a as u16);
    assert(s2.fetch_by_mode() == s3.done());
    lemma_xor_a(s3.cpu);
    assert(s.step() == s3.with_cpu(s3.cpu.op_xor()).done());
}

} // verus!
