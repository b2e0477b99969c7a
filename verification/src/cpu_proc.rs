//! The handlers: one per operation kind. A handler works on what the
//! operand fetch left in the context, changes registers and flags, and
//! reads and writes memory through the bus.

use vstd::prelude::*;
use crate::bus::{bus_read, bus_write, bus_write16, next_address, prev_address, BusError};
use crate::common::{bit_set, convert_to_u16, hi_byte, lo_byte, with_bit};
use crate::common::{lemma_with_bit, lemma_with_bit_low_nibble};
use crate::common::{bit_of, high_byte, low_byte, word_of};
use crate::cpu::{CpuContext, CpuRegisters};
use crate::cpu_util::{cpu_flag_c, cpu_flag_z, cpu_read_reg, cpu_set_reg, lemma_write_keeps_wf};
use crate::emu::emu_cycles;
use crate::instructions::{opcode_entry, AddrMode, CondType, InType, RegType};
use crate::machine::{Machine, MachineView};
use crate::stack::{stack_pop, stack_push, stack_push16};

verus! {

/// Why the processor stopped.
#[derive(Debug, Clone, Copy, PartialEq, Eq, Structural)]
pub enum CpuError {
    /// The byte fetched at `pc` is no opcode.
    UnknownOpcode { opcode: u8, pc: u16 },
    /// The instruction to execute has the kind `IN_NONE`.
    InvalidInstruction,
    /// The instruction's kind has no handler.
    Unimplemented { opcode: u8 },
    /// A memory access failed.
    Bus(BusError),
}

/// The handler of an operation kind.
#[derive(Debug, Clone, Copy, PartialEq, Eq, Structural)]
pub enum InProc {
    Invalid,
    Unimplemented,
    Nop,
    Ld,
    Ldh,
    Jp,
    Jr,
    Call,
    Rst,
    Ret,
    Reti,
    Pop,
    Push,
    Inc,
    Dec,
    Add,
    Adc,
    Sub,
    Sbc,
    And,
    Xor,
    Or,
    Cp,
    Di,
    Ei,
    Halt,
}

/// The machine that a handler or a fetch leaves, and whether it succeeded.
#[verifier::ext_equal]
pub struct Outcome {
    pub machine: MachineView,
    pub result: Result<(), CpuError>,
}

/// The flag register after an update: each of `z`, `n`, `h`, `c` that is
/// `Some(v)` sets its bit (7, 6, 5, 4) to `v`; `None` leaves the bit.
pub open spec fn flags_after(
    f: u8,
    z: Option<bool>,
    n: Option<bool>,
    h: Option<bool>,
    c: Option<bool>,
) -> u8 {
    let f1 = match z {
        Some(v) => with_bit(f, 7, v),
        None => f,
    };
    let f2 = match n {
        Some(v) => with_bit(f1, 6, v),
        None => f1,
    };
    let f3 = match h {
        Some(v) => with_bit(f2, 5, v),
        None => f2,
    };
    match c {
        Some(v) => with_bit(f3, 4, v),
        None => f3,
    }
}

/// The flag register that holds exactly the four flags given.
pub open spec fn flag_byte(z: bool, n: bool, h: bool, c: bool) -> u8 {
    ((if z {
        128int
    } else {
        0
    }) + (if n {
        64int
    } else {
        0
    }) + (if h {
        32int
    } else {
        0
    }) + (if c {
        16int
    } else {
        0
    })) as u8
}

/// A byte as a signed offset: values from 128 stand for `value - 256`.
pub open spec fn signed(value: u8) -> int {
    if value < 128 {
        value as int
    } else {
        value - 256
    }
}

/// The address `base` moved by the signed offset that `offset` stands
/// for, kept to sixteen bits.
pub open spec fn offset_address(base: u16, offset: u8) -> u16 {
    ((base + signed(offset)) % 0x10000) as u16
}

/// The address in the page from `0xFF00` whose low byte is the low byte of `value`.
pub open spec fn page_address(value: u16) -> u16 {
    (0xFF00 + value % 256) as u16
}

/// The byte after `value`, 255 being followed by 0.
pub open spec fn next_byte(value: u8) -> u8 {
    if value == 255 {
        0
    } else {
        (value + 1) as u8
    }
}

/// The byte before `value`, 0 being preceded by 255.
pub open spec fn prev_byte(value: u8) -> u8 {
    if value == 0 {
        255
    } else {
        (value - 1) as u8
    }
}

impl CpuContext {
    /// The context with `regs` as its register file.
    pub open spec fn with_regs(self, regs: CpuRegisters) -> CpuContext {
        CpuContext { regs, ..self }
    }

    /// The context after a flag update.
    pub open spec fn with_flags(
        self,
        z: Option<bool>,
        n: Option<bool>,
        h: Option<bool>,
        c: Option<bool>,
    ) -> CpuContext {
        self.with_regs(CpuRegisters { f: flags_after(self.regs.f, z, n, h, c), ..self.regs })
    }

    /// The context with `a` in the accumulator.
    pub open spec fn with_a(self, a: u8) -> CpuContext {
        self.with_regs(CpuRegisters { a, ..self.regs })
    }

    /// The 8-bit operand that the fetch produced.
    pub open spec fn operand(self) -> u8 {
        low_byte(self.fetched_data)
    }

    /// The carry flag as a number.
    pub open spec fn carry(self) -> int {
        if self.regs.flag_c() {
            1
        } else {
            0
        }
    }

    /// Whether the branch condition of the current instruction holds.
    pub open spec fn cond_holds(self) -> bool {
        match self.cur_inst.cond {
            CondType::CT_NONE => true,
            CondType::CT_C => self.regs.flag_c(),
            CondType::CT_NC => !self.regs.flag_c(),
            CondType::CT_Z => self.regs.flag_z(),
            CondType::CT_NZ => !self.regs.flag_z(),
        }
    }

    /// XOR: the accumulator becomes its exclusive-or with the operand;
    /// zero is set where the result is zero, the other flags are cleared.
    pub open spec fn op_xor(self) -> CpuContext {
        let a = self.regs.a ^ self.operand();
        self.with_a(a).with_flags(Some(a == 0), Some(false), Some(false), Some(false))
    }

    /// AND: the accumulator becomes its conjunction with the operand;
    /// half-carry is set, subtract and carry are cleared.
    pub open spec fn op_and(self) -> CpuContext {
        let a = self.regs.a & self.operand();
        self.with_a(a).with_flags(Some(a == 0), Some(false), Some(true), Some(false))
    }

    /// OR: the accumulator becomes its disjunction with the operand.
    pub open spec fn op_or(self) -> CpuContext {
        let a = self.regs.a | self.operand();
        self.with_a(a).with_flags(Some(a == 0), Some(false), Some(false), Some(false))
    }

    /// CP: the flags of a subtraction of the operand from the
    /// accumulator, which stays as it is.
    pub open spec fn op_cp(self) -> CpuContext {
        let a = self.regs.a;
        let x = self.operand();
        self.with_flags(Some(a == x), Some(true), Some(a % 16 < x % 16), Some(a < x))
    }

    /// SUB: the accumulator less the operand, kept to eight bits;
    /// half-carry and carry tell of a borrow into bit 4 and into bit 8.
    pub open spec fn op_sub(self) -> CpuContext {
        let a = self.regs.a;
        let x = self.operand();
        let r = ((a - x) % 256) as u8;
        self.with_a(r).with_flags(Some(r == 0), Some(true), Some(a % 16 < x % 16), Some(a < x))
    }

    /// SBC: the accumulator less the operand and the carry flag.
    pub open spec fn op_sbc(self) -> CpuContext {
        let a = self.regs.a;
        let x = self.operand();
        let cy = self.carry();
        let r = ((a - x - cy) % 256) as u8;
        self.with_a(r).with_flags(
            Some(r == 0),
            Some(true),
            Some(a % 16 < x % 16 + cy),
            Some(a < x + cy),
        )
    }

    /// ADC: the accumulator plus the operand and the carry flag.
    pub open spec fn op_adc(self) -> CpuContext {
        let a = self.regs.a;
        let x = self.operand();
        let cy = self.carry();
        let r = ((a + x + cy) % 256) as u8;
        self.with_a(r).with_flags(
            Some(r == 0),
            Some(false),
            Some(a % 16 + x % 16 + cy > 15),
            Some(a + x + cy > 255),
        )
    }

    /// ADD to the accumulator: the sum is kept to eight bits; half-carry
    /// and carry tell of a carry out of bit 3 and out of bit 7.
    pub open spec fn op_add_a(self) -> CpuContext {
        let a = self.regs.a;
        let x = self.operand();
        let r = ((a + x) % 256) as u8;
        self.with_a(r).with_flags(
            Some(r == 0),
            Some(false),
            Some(a % 16 + x % 16 >= 16),
            Some(a + x >= 256),
        )
    }

    /// ADD to a wide register: the sum is kept to sixteen bits; zero
    /// stays; half-carry and carry tell of a carry out of bit 11 and out
    /// of bit 15.
    pub open spec fn op_add_wide(self) -> CpuContext {
        let target = self.cur_inst.reg_1;
        let base = self.regs.read(target);
        let x = self.fetched_data;
        self.with_regs(self.regs.write(target, ((base + x) % 0x10000) as u16)).with_flags(
            None,
            Some(false),
            Some(base % 4096 + x % 4096 >= 4096),
            Some(base + x >= 0x10000),
        )
    }

    /// ADD of a signed byte to the stack pointer: zero and subtract are
    /// cleared; half-carry and carry come from the sum of the low
    /// nibbles and of the low bytes.
    pub open spec fn op_add_sp(self) -> CpuContext {
        let target = self.cur_inst.reg_1;
        let base = self.regs.read(target);
        let x = self.fetched_data;
        self.with_regs(self.regs.write(target, offset_address(base, self.operand()))).with_flags(
            Some(false),
            Some(false),
            Some(base % 16 + x % 16 >= 16),
            Some(base % 256 + x % 256 >= 256),
        )
    }

    /// What a handler that works on registers alone does to the context:
    /// NOP nothing; DI and EI disable and enable interrupts at once; HALT
    /// stops the processor; the others as named.
    pub open spec fn handled(self, handler: InProc) -> CpuContext {
        match handler {
            InProc::Adc => self.op_adc(),
            InProc::Sub => self.op_sub(),
            InProc::Sbc => self.op_sbc(),
            InProc::And => self.op_and(),
            InProc::Xor => self.op_xor(),
            InProc::Or => self.op_or(),
            InProc::Cp => self.op_cp(),
            InProc::Di => CpuContext { int_master_enabled: false, ..self },
            InProc::Ei => CpuContext { int_master_enabled: true, ..self },
            InProc::Halt => CpuContext { halted: true, ..self },
            _ => self,
        }
    }
}

impl MachineView {
    /// What a fetch and every handler but that of HALT leave as it was
    /// in `before`: whether the processor is halted, the current
    /// instruction and its opcode, the cartridge and the opcode table;
    /// and where `before` is well formed, so is the machine.
    pub open spec fn carries_on(self, before: MachineView) -> bool {
        &&& self.cpu.halted == before.cpu.halted
        &&& self.cpu.cur_inst == before.cpu.cur_inst
        &&& self.cpu.cur_opcode == before.cpu.cur_opcode
        &&& self.cart == before.cart
        &&& self.instructions == before.instructions
        &&& before.wf() ==> self.wf()
    }

    /// The machine as it is, with success.
    pub open spec fn done(self) -> Outcome {
        Outcome { machine: self, result: Ok(()) }
    }

    /// The machine as it is, with the failure of a memory access.
    pub open spec fn failed(self, e: BusError) -> Outcome {
        Outcome { machine: self, result: Err(CpuError::Bus(e)) }
    }

    /// The machine with `pc` as its program counter.
    pub open spec fn with_pc(self, pc: u16) -> MachineView {
        self.with_regs(CpuRegisters { pc, ..self.cpu.regs })
    }

    /// LD. Where the destination is memory: the operand is written to it,
    /// sixteen bits at the cost of one cycle more where the source
    /// register is wide, and the write costs one cycle. For the load of
    /// SP plus a signed byte: half-carry and carry come from the sum of
    /// the low nibbles and of the low bytes, zero and subtract are
    /// cleared, and the destination takes the sum. Otherwise the
    /// destination register takes the operand.
    #[verifier::opaque]
    pub open spec fn op_ld(self) -> Outcome {
        let cpu = self.cpu;
        let inst = cpu.cur_inst;
        if cpu.dest_is_mem {
            if inst.reg_2.wide() {
                let s = self.ticked(1).written16(cpu.mem_dest, cpu.fetched_data);
                match Self::write16_result(cpu.mem_dest) {
                    Err(e) => s.failed(e),
                    Ok(_) => s.ticked(1).done(),
                }
            } else {
                match Self::write_result(cpu.mem_dest) {
                    Err(e) => self.failed(e),
                    Ok(_) => self.written(cpu.mem_dest, cpu.operand()).ticked(1).done(),
                }
            }
        } else if inst.mode == AddrMode::AM_HL_SPR {
            let base = cpu.regs.read(inst.reg_2);
            let h = base % 16 + cpu.fetched_data % 16 >= 16;
            let c = base % 256 + cpu.fetched_data % 256 >= 256;
            let flagged = cpu.with_flags(Some(false), Some(false), Some(h), Some(c));
            self.with_regs(
                flagged.regs.write(inst.reg_1, offset_address(base, cpu.operand())),
            ).done()
        } else {
            self.with_regs(cpu.regs.write(inst.reg_1, cpu.fetched_data)).done()
        }
    }

    /// LDH. Towards the accumulator: it takes the byte of the page from
    /// `0xFF00` that the operand names. Otherwise the accumulator is
    /// written to the destination address. Either way one cycle.
    #[verifier::opaque]
    pub open spec fn op_ldh(self) -> Outcome {
        let cpu = self.cpu;
        if cpu.cur_inst.reg_1 == RegType::RT_A {
            match self.read(page_address(cpu.fetched_data)) {
                Err(e) => self.failed(e),
                Ok(value) => self.with_regs(cpu.regs.write(RegType::RT_A, value as u16)).ticked(
                    1,
                ).done(),
            }
        } else {
            match Self::write_result(cpu.mem_dest) {
                Err(e) => self.failed(e),
                Ok(_) => self.written(cpu.mem_dest, cpu.regs.a).ticked(1).done(),
            }
        }
    }

    /// The end of INC: nothing more where the two low bits of the opcode
    /// are set; else zero and half-carry from `val`, subtract cleared.
    pub open spec fn inc_flags(self, val: u16) -> Outcome {
        if self.cpu.cur_opcode & 0x03 == 0x03 {
            self.done()
        } else {
            self.with_cpu(
                self.cpu.with_flags(Some(val == 0), Some(false), Some(val % 16 == 0), None),
            ).done()
        }
    }

    /// INC. A wide register costs one cycle. The byte that HL points to,
    /// or else the register, goes up by one.
    #[verifier::opaque]
    pub open spec fn op_inc(self) -> Outcome {
        let inst = self.cpu.cur_inst;
        let regs = self.cpu.regs;
        let s = if inst.reg_1.wide() {
            self.ticked(1)
        } else {
            self
        };
        if inst.reg_1 == RegType::RT_HL && inst.mode == AddrMode::AM_MR {
            let address = regs.read(RegType::RT_HL);
            match s.read(address) {
                Err(e) => s.failed(e),
                Ok(value) => match Self::write_result(address) {
                    Err(e) => s.failed(e),
                    Ok(_) => s.written(address, next_byte(value)).inc_flags(
                        next_byte(value) as u16,
                    ),
                },
            }
        } else {
            let after = regs.write(inst.reg_1, next_address(regs.read(inst.reg_1)));
            s.with_regs(after).inc_flags(after.read(inst.reg_1))
        }
    }

    /// The end of DEC: nothing more where the two low bits of the opcode
    /// are set; else zero and half-carry from `val`, subtract set.
    pub open spec fn dec_flags(self, val: u16) -> Outcome {
        if self.cpu.cur_opcode & 0x03 == 0x03 {
            self.done()
        } else {
            self.with_cpu(
                self.cpu.with_flags(Some(val == 0), Some(true), Some(val % 16 == 15), None),
            ).done()
        }
    }

    /// DEC. A wide register costs one cycle. The byte that HL points to,
    /// or else the register, goes down by one.
    #[verifier::opaque]
    pub open spec fn op_dec(self) -> Outcome {
        let inst = self.cpu.cur_inst;
        let regs = self.cpu.regs;
        let s = if inst.reg_1.wide() {
            self.ticked(1)
        } else {
            self
        };
        if inst.reg_1 == RegType::RT_HL && inst.mode == AddrMode::AM_MR {
            let address = regs.read(RegType::RT_HL);
            match s.read(address) {
                Err(e) => s.failed(e),
                Ok(value) => match Self::write_result(address) {
                    Err(e) => s.failed(e),
                    Ok(_) => s.written(address, prev_byte(value)).dec_flags(
                        prev_byte(value) as u16,
                    ),
                },
            }
        } else {
            let after = regs.write(inst.reg_1, prev_address(regs.read(inst.reg_1)));
            s.with_regs(after).dec_flags(after.read(inst.reg_1))
        }
    }

    /// ADD. To SP, to another wide register, or else to the accumulator.
    /// A wide register costs one cycle.
    #[verifier::opaque]
    pub open spec fn op_add(self) -> Outcome {
        let target = self.cpu.cur_inst.reg_1;
        if target == RegType::RT_SP {
            self.ticked(1).with_cpu(self.cpu.op_add_sp()).done()
        } else if target.wide() {
            self.ticked(1).with_cpu(self.cpu.op_add_wide()).done()
        } else {
            self.with_cpu(self.cpu.op_add_a()).done()
        }
    }

    /// The jump itself: the program counter becomes `address`, at the
    /// cost of one cycle.
    pub open spec fn jumped(self, address: u16) -> Outcome {
        self.with_pc(address).ticked(1).done()
    }

    /// A branch to `address`. Nothing happens unless the condition of
    /// the current instruction holds. Where `push_pc`, the program counter
    /// is first pushed, high byte first, at the cost of two cycles.
    pub open spec fn goto(self, address: u16, push_pc: bool) -> Outcome {
        if !self.cpu.cond_holds() {
            self.done()
        } else if push_pc {
            let s = self.ticked(2);
            match s.push16_result(s.cpu.regs.pc) {
                Err(e) => s.pushed16(s.cpu.regs.pc).failed(e),
                Ok(_) => s.pushed16(s.cpu.regs.pc).jumped(address),
            }
        } else {
            self.jumped(address)
        }
    }

    /// JP: a branch to the operand.
    #[verifier::opaque]
    pub open spec fn op_jp(self) -> Outcome {
        self.goto(self.cpu.fetched_data, false)
    }

    /// JR: a branch to the program counter moved by the operand, a signed byte.
    #[verifier::opaque]
    pub open spec fn op_jr(self) -> Outcome {
        self.goto(offset_address(self.cpu.regs.pc, self.cpu.operand()), false)
    }

    /// CALL: a branch to the operand that leaves the program counter on the stack.
    #[verifier::opaque]
    pub open spec fn op_call(self) -> Outcome {
        self.goto(self.cpu.fetched_data, true)
    }

    /// RST: a call of the fixed address that the instruction names.
    #[verifier::opaque]
    pub open spec fn op_rst(self) -> Outcome {
        self.goto(self.cpu.cur_inst.param as u16, true)
    }

    /// RET. A conditional return costs one cycle before its test. Where
    /// the condition holds, the low byte and then the high byte of the
    /// program counter are popped, one cycle each, and one cycle more.
    #[verifier::opaque]
    pub open spec fn op_ret(self) -> Outcome {
        let tested = if self.cpu.cur_inst.cond != CondType::CT_NONE {
            self.ticked(1)
        } else {
            self
        };
        if !tested.cpu.cond_holds() {
            tested.done()
        } else {
            match tested.pop_result() {
                Err(e) => tested.failed(e),
                Ok(lo) => {
                    let s = tested.popped().ticked(1);
                    match s.pop_result() {
                        Err(e) => s.failed(e),
                        Ok(hi) => s.popped().ticked(1).with_pc(word_of(hi, lo)).ticked(1).done(),
                    }
                },
            }
        }
    }

    /// RETI: interrupts are enabled, then RET.
    #[verifier::opaque]
    pub open spec fn op_reti(self) -> Outcome {
        self.with_cpu(CpuContext { int_master_enabled: true, ..self.cpu }).op_ret()
    }

    /// POP: the low byte and then the high byte are popped, one cycle
    /// each, and written to the register pair. AF keeps no low nibble.
    #[verifier::opaque]
    pub open spec fn op_pop(self) -> Outcome {
        match self.pop_result() {
            Err(e) => self.failed(e),
            Ok(lo) => {
                let s = self.popped().ticked(1);
                match s.pop_result() {
                    Err(e) => s.failed(e),
                    Ok(hi) => {
                        let after = s.popped().ticked(1);
                        after.with_regs(
                            after.cpu.regs.write(after.cpu.cur_inst.reg_1, word_of(hi, lo)),
                        ).done()
                    },
                }
            },
        }
    }

    /// PUSH: the high byte and then the low byte of the register pair
    /// are pushed, one cycle before each, and one cycle more.
    #[verifier::opaque]
    pub open spec fn op_push(self) -> Outcome {
        let reg = self.cpu.cur_inst.reg_1;
        let first = self.ticked(1);
        let hi = high_byte(first.cpu.regs.read(reg));
        match first.push_result() {
            Err(e) => first.pushed(hi).failed(e),
            Ok(_) => {
                let second = first.pushed(hi).ticked(1);
                let lo = low_byte(second.cpu.regs.read(reg));
                match second.push_result() {
                    Err(e) => second.pushed(lo).failed(e),
                    Ok(_) => second.pushed(lo).ticked(1).done(),
                }
            },
        }
    }

    /// What a handler that reads or writes memory, or that always fails,
    /// does to the machine.
    pub open spec fn handled_on_bus(self, handler: InProc) -> Outcome {
        match handler {
            InProc::Invalid => Outcome { machine: self, result: Err(CpuError::InvalidInstruction) },
            InProc::Unimplemented => Outcome {
                machine: self,
                result: Err(CpuError::Unimplemented { opcode: self.cpu.cur_opcode }),
            },
            InProc::Ld => self.op_ld(),
            InProc::Ldh => self.op_ldh(),
            InProc::Jp => self.op_jp(),
            InProc::Jr => self.op_jr(),
            InProc::Call => self.op_call(),
            InProc::Rst => self.op_rst(),
            InProc::Ret => self.op_ret(),
            InProc::Reti => self.op_reti(),
            InProc::Pop => self.op_pop(),
            InProc::Push => self.op_push(),
            InProc::Inc => self.op_inc(),
            InProc::Dec => self.op_dec(),
            InProc::Add => self.op_add(),
            _ => self.done(),
        }
    }

    /// What the handler `handler` does to the machine. A handler that
    /// works on registers alone leaves the rest of the machine as it is
    /// and succeeds.
    pub open spec fn handled(self, handler: InProc) -> Outcome {
        if handler.on_registers() {
            self.with_cpu(self.cpu.handled(handler)).done()
        } else {
            self.handled_on_bus(handler)
        }
    }
}

/// The handler of operation kind `i_type`. A kind that this core does not
/// execute has the handler that reports it.
pub open spec fn processor_of(i_type: InType) -> InProc {
    match i_type {
        InType::IN_NONE => InProc::Invalid,
        InType::IN_NOP => InProc::Nop,
        InType::IN_LDH => InProc::Ldh,
        InType::IN_LD => InProc::Ld,
        InType::IN_JP => InProc::Jp,
        InType::IN_POP => InProc::Pop,
        InType::IN_PUSH => InProc::Push,
        InType::IN_CALL => InProc::Call,
        InType::IN_JR => InProc::Jr,
        InType::IN_DI => InProc::Di,
        InType::IN_EI => InProc::Ei,
        InType::IN_RET => InProc::Ret,
        InType::IN_RETI => InProc::Reti,
        InType::IN_XOR => InProc::Xor,
        InType::IN_AND => InProc::And,
        InType::IN_OR => InProc::Or,
        InType::IN_ADD => InProc::Add,
        InType::IN_ADC => InProc::Adc,
        InType::IN_SUB => InProc::Sub,
        InType::IN_SBC => InProc::Sbc,
        InType::IN_CP => InProc::Cp,
        InType::IN_RST => InProc::Rst,
        InType::IN_INC => InProc::Inc,
        InType::IN_DEC => InProc::Dec,
        InType::IN_HALT => InProc::Halt,
        _ => InProc::Unimplemented,
    }
}

/// The handler for an instruction without a kind: it always fails.
pub fn proc_none(ctx: &mut CpuContext) -> (r: Result<(), CpuError>)
    ensures
        r == Err::<(), CpuError>(CpuError::InvalidInstruction),
        *final(ctx) == *old(ctx),
{
    Err(CpuError::InvalidInstruction)
}

/// The handler for a kind that this core does not execute: it always
/// fails, and names the opcode.
pub fn proc_unknown(ctx: &mut CpuContext) -> (r: Result<(), CpuError>)
    ensures
        r == Err::<(), CpuError>(CpuError::Unimplemented { opcode: old(ctx).cur_opcode }),
        *final(ctx) == *old(ctx),
{
    Err(CpuError::Unimplemented { opcode: ctx.cur_opcode })
}

/// NOP: nothing.
pub fn proc_nop(ctx: &mut CpuContext)
    ensures
        *final(ctx) == *old(ctx),
{
}

/// DI: interrupts are disabled at once.
pub fn proc_di(ctx: &mut CpuContext)
    ensures
        *final(ctx) == (CpuContext { int_master_enabled: false, ..*old(ctx) }),
{
    ctx.int_master_enabled = false;
}

/// EI: interrupts are enabled at once.
pub fn proc_ei(ctx: &mut CpuContext)
    ensures
        *final(ctx) == (CpuContext { int_master_enabled: true, ..*old(ctx) }),
{
    ctx.int_master_enabled = true;
}

/// HALT: the processor stops fetching.
pub fn proc_halt(ctx: &mut CpuContext)
    ensures
        *final(ctx) == (CpuContext { halted: true, ..*old(ctx) }),
{
    ctx.halted = true;
}

/// Updates the flags: `Some(v)` sets a flag to `v`, `None` leaves it.
pub fn cpu_set_flags(
    ctx: &mut CpuContext,
    z: Option<bool>,
    n: Option<bool>,
    h: Option<bool>,
    c: Option<bool>,
)
    ensures
        *final(ctx) == old(ctx).with_flags(z, n, h, c),
        old(ctx).regs.wf() ==> final(ctx).regs.wf(),
{
    proof {
        lemma_flags_keep_low(ctx.regs.f, z, n, h, c);
    }
    if let Some(z) = z {
        bit_set(&mut ctx.regs.f, 7, z);
    }
    if let Some(n) = n {
        bit_set(&mut ctx.regs.f, 6, n);
    }
    if let Some(h) = h {
        bit_set(&mut ctx.regs.f, 5, h);
    }
    if let Some(c) = c {
        bit_set(&mut ctx.regs.f, 4, c);
    }
}

/// The sum of two bytes and a carry, kept to eight bits.
fn sum8(a: u8, x: u8, carry: u8) -> (r: u8)
    requires
        carry <= 1,
    ensures
        r as int == (a + x + carry) % 256,
{
    a.wrapping_add(x).wrapping_add(carry)
}

/// The difference of two bytes, less a borrow, kept to eight bits.
fn difference8(a: u8, x: u8, borrow: u8) -> (r: u8)
    requires
        borrow <= 1,
    ensures
        r as int == (a - x - borrow) % 256,
{
    a.wrapping_sub(x).wrapping_sub(borrow)
}

/// The sum of two 16-bit values, kept to sixteen bits.
fn sum16(a: u16, x: u16) -> (r: u16)
    ensures
        r as int == (a + x) % 0x10000,
{
    a.wrapping_add(x)
}

/// XOR of the accumulator with the operand.
pub fn proc_xor(ctx: &mut CpuContext)
    ensures
        *final(ctx) == old(ctx).op_xor(),
        old(ctx).regs.wf() ==> final(ctx).regs.wf(),
{
    ctx.regs.a = ctx.regs.a ^ lo_byte(ctx.fetched_data);
    let zero = ctx.regs.a == 0;
    cpu_set_flags(ctx, Some(zero), Some(false), Some(false), Some(false))
}

/// AND of the accumulator with the operand.
pub fn proc_and(ctx: &mut CpuContext)
    ensures
        *final(ctx) == old(ctx).op_and(),
        old(ctx).regs.wf() ==> final(ctx).regs.wf(),
{
    ctx.regs.a = ctx.regs.a & lo_byte(ctx.fetched_data);
    let zero = ctx.regs.a == 0;
    cpu_set_flags(ctx, Some(zero), Some(false), Some(true), Some(false))
}

/// OR of the accumulator with the operand.
pub fn proc_or(ctx: &mut CpuContext)
    ensures
        *final(ctx) == old(ctx).op_or(),
        old(ctx).regs.wf() ==> final(ctx).regs.wf(),
{
    ctx.regs.a = ctx.regs.a | lo_byte(ctx.fetched_data);
    let zero = ctx.regs.a == 0;
    cpu_set_flags(ctx, Some(zero), Some(false), Some(false), Some(false))
}

/// CP: compares the accumulator with the operand.
pub fn proc_cp(ctx: &mut CpuContext)
    ensures
        *final(ctx) == old(ctx).op_cp(),
        old(ctx).regs.wf() ==> final(ctx).regs.wf(),
{
    let a = ctx.regs.a;
    let x = lo_byte(ctx.fetched_data);
    cpu_set_flags(ctx, Some(a == x), Some(true), Some(a % 16 < x % 16), Some(a < x))
}

/// SUB: subtracts the operand from the accumulator.
pub fn proc_sub(ctx: &mut CpuContext)
    ensures
        *final(ctx) == old(ctx).op_sub(),
        old(ctx).regs.wf() ==> final(ctx).regs.wf(),
{
    let a = ctx.regs.a;
    let x = lo_byte(ctx.fetched_data);
    let r = difference8(a, x, 0);
    ctx.regs.a = r;
    cpu_set_flags(ctx, Some(r == 0), Some(true), Some(a % 16 < x % 16), Some(a < x))
}

/// SBC: subtracts the operand and the carry flag from the accumulator.
pub fn proc_sbc(ctx: &mut CpuContext)
    ensures
        *final(ctx) == old(ctx).op_sbc(),
        old(ctx).regs.wf() ==> final(ctx).regs.wf(),
{
    let a = ctx.regs.a;
    let x = lo_byte(ctx.fetched_data);
    let cy: u8 = if cpu_flag_c(ctx) {
        1
    } else {
        0
    };
    let r = difference8(a, x, cy);
    ctx.regs.a = r;
    cpu_set_flags(
        ctx,
        Some(r == 0),
        Some(true),
        Some(a % 16 < x % 16 + cy),
        Some((a as u16) < x as u16 + cy as u16),
    )
}

/// ADC: adds the operand and the carry flag to the accumulator.
pub fn proc_adc(ctx: &mut CpuContext)
    ensures
        *final(ctx) == old(ctx).op_adc(),
        old(ctx).regs.wf() ==> final(ctx).regs.wf(),
{
    let a = ctx.regs.a;
    let x = lo_byte(ctx.fetched_data);
    let cy: u8 = if cpu_flag_c(ctx) {
        1
    } else {
        0
    };
    let r = sum8(a, x, cy);
    ctx.regs.a = r;
    cpu_set_flags(
        ctx,
        Some(r == 0),
        Some(false),
        Some(a % 16 + x % 16 + cy > 15),
        Some(a as u16 + x as u16 + cy as u16 > 255),
    )
}

/// Whether the branch condition of the current instruction holds.
pub fn check_cond(ctx: &CpuContext) -> (r: bool)
    ensures
        r == ctx.cond_holds(),
{
    let z = cpu_flag_z(ctx);
    let c = cpu_flag_c(ctx);
    match ctx.cur_inst.cond {
        CondType::CT_NONE => true,
        CondType::CT_C => c,
        CondType::CT_NC => !c,
        CondType::CT_Z => z,
        CondType::CT_NZ => !z,
    }
}

/// `base` moved by the signed offset that `offset` stands for.
fn add_signed(base: u16, offset: u8) -> (r: u16)
    ensures
        r == offset_address(base, offset),
{
    if offset < 128 {
        base.wrapping_add(offset as u16)
    } else {
        base.wrapping_sub(256 - offset as u16)
    }
}

/// The address in the page from `0xFF00` that `value` names.
pub fn page(value: u16) -> (r: u16)
    ensures
        r == page_address(value),
{
    assert((value | 0xFF00) == 0xFF00 + value % 256) by (bit_vector);
    value | 0xFF00
}

/// LD: stores the operand in memory or in a register.
pub fn proc_ld(m: &mut Machine) -> (r: Result<(), CpuError>)
    ensures
        final(m)@ == old(m)@.op_ld().machine,
        old(m).wf() ==> final(m).wf(),
        r == old(m)@.op_ld().result,
{
    proof {
        reveal(MachineView::op_ld);
    }
    let inst = m.cpu.cur_inst;
    let data = m.cpu.fetched_data;
    if m.cpu.dest_is_mem {
        let dest = m.cpu.mem_dest;
        if inst.reg_2.is_16bit() {
            emu_cycles(&mut m.emu, 1);
            match bus_write16(m, dest, data) {
                Ok(_) => {},
                Err(e) => {
                    return Err(CpuError::Bus(e));
                },
            }
        } else {
            match bus_write(m, dest, lo_byte(data)) {
                Ok(_) => {},
                Err(e) => {
                    return Err(CpuError::Bus(e));
                },
            }
        }
        emu_cycles(&mut m.emu, 1);
        return Ok(());
    }
    if inst.mode == AddrMode::AM_HL_SPR {
        let base = cpu_read_reg(&m.cpu, inst.reg_2);
        let hflag = base % 16 + data % 16 >= 16;
        let cflag = base % 256 + data % 256 >= 256;
        cpu_set_flags(&mut m.cpu, Some(false), Some(false), Some(hflag), Some(cflag));
        cpu_set_reg(&mut m.cpu, inst.reg_1, add_signed(base, lo_byte(data)));
        return Ok(());
    }
    cpu_set_reg(&mut m.cpu, inst.reg_1, data);
    Ok(())
}

/// LDH: moves a byte between the accumulator and the page from `0xFF00`.
pub fn proc_ldh(m: &mut Machine) -> (r: Result<(), CpuError>)
    ensures
        final(m)@ == old(m)@.op_ldh().machine,
        old(m).wf() ==> final(m).wf(),
        r == old(m)@.op_ldh().result,
{
    proof {
        reveal(MachineView::op_ldh);
    }
    if m.cpu.cur_inst.reg_1 == RegType::RT_A {
        let value = match bus_read(m, page(m.cpu.fetched_data)) {
            Ok(value) => value,
            Err(e) => {
                return Err(CpuError::Bus(e));
            },
        };
        cpu_set_reg(&mut m.cpu, RegType::RT_A, value as u16);
    } else {
        let dest = m.cpu.mem_dest;
        let a = m.cpu.regs.a;
        match bus_write(m, dest, a) {
            Ok(_) => {},
            Err(e) => {
                return Err(CpuError::Bus(e));
            },
        }
    }
    emu_cycles(&mut m.emu, 1);
    Ok(())
}

/// Branches to `addr` where the condition of the current instruction
/// holds, after pushing the program counter where `pushpc`.
pub fn goto_addr(m: &mut Machine, addr: u16, pushpc: bool) -> (r: Result<(), CpuError>)
    ensures
        final(m)@ == old(m)@.goto(addr, pushpc).machine,
        old(m).wf() ==> final(m).wf(),
        r == old(m)@.goto(addr, pushpc).result,
{
    if check_cond(&m.cpu) {
        if pushpc {
            emu_cycles(&mut m.emu, 2);
            let pc = m.cpu.regs.pc;
            match stack_push16(m, pc) {
                Ok(_) => {},
                Err(e) => {
                    return Err(CpuError::Bus(e));
                },
            }
        }
        m.cpu.regs.pc = addr;
        emu_cycles(&mut m.emu, 1);
    }
    Ok(())
}

/// JP: jumps to the operand.
pub fn proc_jp(m: &mut Machine) -> (r: Result<(), CpuError>)
    ensures
        final(m)@ == old(m)@.op_jp().machine,
        old(m).wf() ==> final(m).wf(),
        r == old(m)@.op_jp().result,
{
    proof {
        reveal(MachineView::op_jp);
    }
    let addr = m.cpu.fetched_data;
    goto_addr(m, addr, false)
}

/// JR: jumps by the operand, a signed byte.
pub fn proc_jr(m: &mut Machine) -> (r: Result<(), CpuError>)
    ensures
        final(m)@ == old(m)@.op_jr().machine,
        old(m).wf() ==> final(m).wf(),
        r == old(m)@.op_jr().result,
{
    proof {
        reveal(MachineView::op_jr);
    }
    let rel = lo_byte(m.cpu.fetched_data);
    let addr = add_signed(m.cpu.regs.pc, rel);
    goto_addr(m, addr, false)
}

/// CALL: calls the operand.
pub fn proc_call(m: &mut Machine) -> (r: Result<(), CpuError>)
    ensures
        final(m)@ == old(m)@.op_call().machine,
        old(m).wf() ==> final(m).wf(),
        r == old(m)@.op_call().result,
{
    proof {
        reveal(MachineView::op_call);
    }
    let addr = m.cpu.fetched_data;
    goto_addr(m, addr, true)
}

/// RST: calls the fixed address of the instruction.
pub fn proc_rst(m: &mut Machine) -> (r: Result<(), CpuError>)
    ensures
        final(m)@ == old(m)@.op_rst().machine,
        old(m).wf() ==> final(m).wf(),
        r == old(m)@.op_rst().result,
{
    proof {
        reveal(MachineView::op_rst);
    }
    let addr = m.cpu.cur_inst.param as u16;
    goto_addr(m, addr, true)
}

/// RET: returns to the address on the stack.
pub fn proc_ret(m: &mut Machine) -> (r: Result<(), CpuError>)
    ensures
        final(m)@ == old(m)@.op_ret().machine,
        old(m).wf() ==> final(m).wf(),
        r == old(m)@.op_ret().result,
{
    proof {
        reveal(MachineView::op_ret);
    }
    if m.cpu.cur_inst.cond != CondType::CT_NONE {
        emu_cycles(&mut m.emu, 1);
    }
    if check_cond(&m.cpu) {
        let lo = match stack_pop(m) {
            Ok(value) => value,
            Err(e) => {
                return Err(CpuError::Bus(e));
            },
        };
        emu_cycles(&mut m.emu, 1);
        let hi = match stack_pop(m) {
            Ok(value) => value,
            Err(e) => {
                return Err(CpuError::Bus(e));
            },
        };
        emu_cycles(&mut m.emu, 1);
        m.cpu.regs.pc = convert_to_u16(hi, lo);
        emu_cycles(&mut m.emu, 1);
    }
    Ok(())
}

/// RETI: enables interrupts and returns.
pub fn proc_reti(m: &mut Machine) -> (r: Result<(), CpuError>)
    ensures
        final(m)@ == old(m)@.op_reti().machine,
        old(m).wf() ==> final(m).wf(),
        r == old(m)@.op_reti().result,
{
    proof {
        reveal(MachineView::op_reti);
    }
    m.cpu.int_master_enabled = true;
    proc_ret(m)
}

/// A 16-bit value without its low four bits.
fn without_low_nibble(n: u16) -> (r: u16)
    ensures
        r == n - n % 16,
{
    assert((n & 0xFFF0) == n - n % 16) by (bit_vector);
    n & 0xFFF0
}

/// POP: pops a register pair.
pub fn proc_pop(m: &mut Machine) -> (r: Result<(), CpuError>)
    ensures
        final(m)@ == old(m)@.op_pop().machine,
        old(m).wf() ==> final(m).wf(),
        r == old(m)@.op_pop().result,
{
    proof {
        reveal(MachineView::op_pop);
    }
    let lo = match stack_pop(m) {
        Ok(value) => value,
        Err(e) => {
            return Err(CpuError::Bus(e));
        },
    };
    emu_cycles(&mut m.emu, 1);
    let hi = match stack_pop(m) {
        Ok(value) => value,
        Err(e) => {
            return Err(CpuError::Bus(e));
        },
    };
    emu_cycles(&mut m.emu, 1);
    let n = convert_to_u16(hi, lo);
    let reg = m.cpu.cur_inst.reg_1;
    cpu_set_reg(&mut m.cpu, reg, n);
    if reg == RegType::RT_AF {
        cpu_set_reg(&mut m.cpu, reg, without_low_nibble(n));
    }
    Ok(())
}

/// PUSH: pushes a register pair.
pub fn proc_push(m: &mut Machine) -> (r: Result<(), CpuError>)
    ensures
        final(m)@ == old(m)@.op_push().machine,
        old(m).wf() ==> final(m).wf(),
        r == old(m)@.op_push().result,
{
    proof {
        reveal(MachineView::op_push);
    }
    let reg = m.cpu.cur_inst.reg_1;
    let hi = hi_byte(cpu_read_reg(&m.cpu, reg));
    emu_cycles(&mut m.emu, 1);
    match stack_push(m, hi) {
        Ok(_) => {},
        Err(e) => {
            return Err(CpuError::Bus(e));
        },
    }
    let lo = lo_byte(cpu_read_reg(&m.cpu, reg));
    emu_cycles(&mut m.emu, 1);
    match stack_push(m, lo) {
        Ok(_) => {},
        Err(e) => {
            return Err(CpuError::Bus(e));
        },
    }
    emu_cycles(&mut m.emu, 1);
    Ok(())
}

/// INC: adds one to a register or to the byte that HL points to.
pub fn proc_inc(m: &mut Machine) -> (r: Result<(), CpuError>)
    ensures
        final(m)@ == old(m)@.op_inc().machine,
        old(m).wf() ==> final(m).wf(),
        r == old(m)@.op_inc().result,
{
    proof {
        reveal(MachineView::op_inc);
    }
    let inst = m.cpu.cur_inst;
    let mut val = cpu_read_reg(&m.cpu, inst.reg_1).wrapping_add(1);
    if inst.reg_1.is_16bit() {
        emu_cycles(&mut m.emu, 1);
    }
    if inst.reg_1 == RegType::RT_HL && inst.mode == AddrMode::AM_MR {
        let address = cpu_read_reg(&m.cpu, RegType::RT_HL);
        let value = match bus_read(m, address) {
            Ok(value) => value,
            Err(e) => {
                return Err(CpuError::Bus(e));
            },
        };
        let next = value.wrapping_add(1);
        val = next as u16;
        match bus_write(m, address, next) {
            Ok(_) => {},
            Err(e) => {
                return Err(CpuError::Bus(e));
            },
        }
    } else {
        cpu_set_reg(&mut m.cpu, inst.reg_1, val);
        val = cpu_read_reg(&m.cpu, inst.reg_1);
    }
    if (m.cpu.cur_opcode & 0x03) == 0x03 {
        return Ok(());
    }
    cpu_set_flags(&mut m.cpu, Some(val == 0), Some(false), Some(val % 16 == 0), None);
    Ok(())
}

/// DEC: takes one from a register or from the byte that HL points to.
pub fn proc_dec(m: &mut Machine) -> (r: Result<(), CpuError>)
    ensures
        final(m)@ == old(m)@.op_dec().machine,
        old(m).wf() ==> final(m).wf(),
        r == old(m)@.op_dec().result,
{
    proof {
        reveal(MachineView::op_dec);
    }
    let inst = m.cpu.cur_inst;
    let mut val = cpu_read_reg(&m.cpu, inst.reg_1).wrapping_sub(1);
    if inst.reg_1.is_16bit() {
        emu_cycles(&mut m.emu, 1);
    }
    if inst.reg_1 == RegType::RT_HL && inst.mode == AddrMode::AM_MR {
        let address = cpu_read_reg(&m.cpu, RegType::RT_HL);
        let value = match bus_read(m, address) {
            Ok(value) => value,
            Err(e) => {
                return Err(CpuError::Bus(e));
            },
        };
        let next = value.wrapping_sub(1);
        val = next as u16;
        match bus_write(m, address, next) {
            Ok(_) => {},
            Err(e) => {
                return Err(CpuError::Bus(e));
            },
        }
    } else {
        cpu_set_reg(&mut m.cpu, inst.reg_1, val);
        val = cpu_read_reg(&m.cpu, inst.reg_1);
    }
    if (m.cpu.cur_opcode & 0x03) == 0x03 {
        return Ok(());
    }
    cpu_set_flags(&mut m.cpu, Some(val == 0), Some(true), Some(val % 16 == 15), None);
    Ok(())
}

/// ADD to the accumulator.
fn add_to_a(ctx: &mut CpuContext)
    ensures
        *final(ctx) == old(ctx).op_add_a(),
        old(ctx).regs.wf() ==> final(ctx).regs.wf(),
{
    let a = ctx.regs.a;
    let x = lo_byte(ctx.fetched_data);
    let r = sum8(a, x, 0);
    ctx.regs.a = r;
    cpu_set_flags(
        ctx,
        Some(r == 0),
        Some(false),
        Some(a % 16 + x % 16 >= 16),
        Some(a as u16 + x as u16 >= 256),
    )
}

/// ADD to a wide register.
fn add_to_wide(ctx: &mut CpuContext)
    ensures
        *final(ctx) == old(ctx).op_add_wide(),
        old(ctx).regs.wf() ==> final(ctx).regs.wf(),
{
    let target = ctx.cur_inst.reg_1;
    let base = cpu_read_reg(ctx, target);
    let x = ctx.fetched_data;
    let h = base % 4096 + x % 4096 >= 4096;
    let c = base as u32 + x as u32 >= 0x10000;
    cpu_set_reg(ctx, target, sum16(base, x));
    cpu_set_flags(ctx, None, Some(false), Some(h), Some(c))
}

/// ADD of a signed byte to the stack pointer.
fn add_to_sp(ctx: &mut CpuContext)
    ensures
        *final(ctx) == old(ctx).op_add_sp(),
        old(ctx).regs.wf() ==> final(ctx).regs.wf(),
{
    let target = ctx.cur_inst.reg_1;
    let base = cpu_read_reg(ctx, target);
    let x = ctx.fetched_data;
    let h = base % 16 + x % 16 >= 16;
    let c = base % 256 + x % 256 >= 256;
    cpu_set_reg(ctx, target, add_signed(base, lo_byte(x)));
    cpu_set_flags(ctx, Some(false), Some(false), Some(h), Some(c))
}

/// ADD: adds the operand to the accumulator, to a register pair or to
/// the stack pointer.
pub fn proc_add(m: &mut Machine) -> (r: Result<(), CpuError>)
    ensures
        final(m)@ == old(m)@.op_add().machine,
        old(m).wf() ==> final(m).wf(),
        r == old(m)@.op_add().result,
{
    proof {
        reveal(MachineView::op_add);
    }
    let target = m.cpu.cur_inst.reg_1;
    if target.is_16bit() {
        emu_cycles(&mut m.emu, 1);
        if target == RegType::RT_SP {
            add_to_sp(&mut m.cpu);
        } else {
            add_to_wide(&mut m.cpu);
        }
    } else {
        add_to_a(&mut m.cpu);
    }
    Ok(())
}

/// The handler of operation kind `i_type`.
pub fn inst_get_processor(i_type: InType) -> (handler: InProc)
    ensures
        handler == processor_of(i_type),
{
    match i_type {
        InType::IN_NONE => InProc::Invalid,
        InType::IN_NOP => InProc::Nop,
        InType::IN_LDH => InProc::Ldh,
        InType::IN_LD => InProc::Ld,
        InType::IN_JP => InProc::Jp,
        InType::IN_POP => InProc::Pop,
        InType::IN_PUSH => InProc::Push,
        InType::IN_CALL => InProc::Call,
        InType::IN_JR => InProc::Jr,
        InType::IN_DI => InProc::Di,
        InType::IN_EI => InProc::Ei,
        InType::IN_RET => InProc::Ret,
        InType::IN_RETI => InProc::Reti,
        InType::IN_XOR => InProc::Xor,
        InType::IN_AND => InProc::And,
        InType::IN_OR => InProc::Or,
        InType::IN_ADD => InProc::Add,
        InType::IN_ADC => InProc::Adc,
        InType::IN_SUB => InProc::Sub,
        InType::IN_SBC => InProc::Sbc,
        InType::IN_CP => InProc::Cp,
        InType::IN_RST => InProc::Rst,
        InType::IN_INC => InProc::Inc,
        InType::IN_DEC => InProc::Dec,
        InType::IN_HALT => InProc::Halt,
        _ => InProc::Unimplemented,
    }
}

impl InProc {
    /// Whether the handler works on registers alone.
    pub open spec fn on_registers(self) -> bool {
        match self {
            InProc::Nop
            | InProc::Adc
            | InProc::Sub
            | InProc::Sbc
            | InProc::And
            | InProc::Xor
            | InProc::Or
            | InProc::Cp
            | InProc::Di
            | InProc::Ei
            | InProc::Halt => true,
            _ => false,
        }
    }

    /// Runs a handler that works on registers alone.
    fn run_on_registers(self, ctx: &mut CpuContext)
        requires
            self.on_registers(),
        ensures
            *final(ctx) == old(ctx).handled(self),
            old(ctx).regs.wf() ==> final(ctx).regs.wf(),
    {
        match self {
            InProc::Adc => proc_adc(ctx),
            InProc::Sub => proc_sub(ctx),
            InProc::Sbc => proc_sbc(ctx),
            InProc::And => proc_and(ctx),
            InProc::Xor => proc_xor(ctx),
            InProc::Or => proc_or(ctx),
            InProc::Cp => proc_cp(ctx),
            InProc::Di => proc_di(ctx),
            InProc::Ei => proc_ei(ctx),
            InProc::Halt => proc_halt(ctx),
            _ => proc_nop(ctx),
        }
    }

    /// Runs the handler on the machine.
    pub fn run(self, m: &mut Machine) -> (r: Result<(), CpuError>)
        ensures
            final(m)@ == old(m)@.handled(self).machine,
            old(m).wf() ==> final(m).wf(),
            r == old(m)@.handled(self).result,
    {
        match self {
            InProc::Invalid => proc_none(&mut m.cpu),
            InProc::Unimplemented => proc_unknown(&mut m.cpu),
            InProc::Ld => proc_ld(m),
            InProc::Ldh => proc_ldh(m),
            InProc::Jp => proc_jp(m),
            InProc::Jr => proc_jr(m),
            InProc::Call => proc_call(m),
            InProc::Rst => proc_rst(m),
            InProc::Ret => proc_ret(m),
            InProc::Reti => proc_reti(m),
            InProc::Pop => proc_pop(m),
            InProc::Push => proc_push(m),
            InProc::Inc => proc_inc(m),
            InProc::Dec => proc_dec(m),
            InProc::Add => proc_add(m),
            _ => {
                self.run_on_registers(&mut m.cpu);
                Ok(())
            },
        }
    }
}

/// Each bit of a byte is worth its place value.
proof fn lemma_high_bits(g: u8)
    ensures
        g as int == (if bit_of(g, 7) {
            128int
        } else {
            0
        }) + (if bit_of(g, 6) {
            64int
        } else {
            0
        }) + (if bit_of(g, 5) {
            32int
        } else {
            0
        }) + (if bit_of(g, 4) {
            16int
        } else {
            0
        }) + g % 16,
{
    assert(g == 128 * ((g / 128) % 2) + 64 * ((g / 64) % 2) + 32 * ((g / 32) % 2) + 16 * ((g / 16)
        % 2) + g % 16) by (bit_vector);
}

/// A flag update leaves the low four bits of the flag register as they are.
pub proof fn lemma_flags_keep_low(
    f: u8,
    z: Option<bool>,
    n: Option<bool>,
    h: Option<bool>,
    c: Option<bool>,
)
    ensures
        flags_after(f, z, n, h, c) % 16 == f % 16,
{
    let f1 = flags_after(f, z, None, None, None);
    let f2 = flags_after(f, z, n, None, None);
    let f3 = flags_after(f, z, n, h, None);
    if let Some(v) = z {
        lemma_with_bit_low_nibble(f, 7, v);
    }
    if let Some(v) = n {
        lemma_with_bit_low_nibble(f1, 6, v);
    }
    if let Some(v) = h {
        lemma_with_bit_low_nibble(f2, 5, v);
    }
    if let Some(v) = c {
        lemma_with_bit_low_nibble(f3, 4, v);
    }
}

/// After a flag update each flag that was given has the value given, and
/// each flag that was not given has the value it had.
pub proof fn lemma_flags_set(
    f: u8,
    z: Option<bool>,
    n: Option<bool>,
    h: Option<bool>,
    c: Option<bool>,
)
    ensures
        bit_of(flags_after(f, z, n, h, c), 7) == (match z {
            Some(v) => v,
            None => bit_of(f, 7),
        }),
        bit_of(flags_after(f, z, n, h, c), 6) == (match n {
            Some(v) => v,
            None => bit_of(f, 6),
        }),
        bit_of(flags_after(f, z, n, h, c), 5) == (match h {
            Some(v) => v,
            None => bit_of(f, 5),
        }),
        bit_of(flags_after(f, z, n, h, c), 4) == (match c {
            Some(v) => v,
            None => bit_of(f, 4),
        }),
{
    let f1 = flags_after(f, z, None, None, None);
    let f2 = flags_after(f, z, n, None, None);
    let f3 = flags_after(f, z, n, h, None);
    if let Some(v) = z {
        lemma_with_bit(f, 7, v, 7);
        lemma_with_bit(f, 7, v, 6);
        lemma_with_bit(f, 7, v, 5);
        lemma_with_bit(f, 7, v, 4);
    }
    if let Some(v) = n {
        lemma_with_bit(f1, 6, v, 7);
        lemma_with_bit(f1, 6, v, 6);
        lemma_with_bit(f1, 6, v, 5);
        lemma_with_bit(f1, 6, v, 4);
    }
    if let Some(v) = h {
        lemma_with_bit(f2, 5, v, 7);
        lemma_with_bit(f2, 5, v, 6);
        lemma_with_bit(f2, 5, v, 5);
        lemma_with_bit(f2, 5, v, 4);
    }
    if let Some(v) = c {
        lemma_with_bit(f3, 4, v, 7);
        lemma_with_bit(f3, 4, v, 6);
        lemma_with_bit(f3, 4, v, 5);
        lemma_with_bit(f3, 4, v, 4);
    }
}

/// A flag update made twice gives what it gives when made once, and an
/// update that gives no flag changes nothing.
pub proof fn lemma_flags_idempotent(
    f: u8,
    z: Option<bool>,
    n: Option<bool>,
    h: Option<bool>,
    c: Option<bool>,
)
    ensures
        flags_after(flags_after(f, z, n, h, c), z, n, h, c) == flags_after(f, z, n, h, c),
        flags_after(f, None, None, None, None) == f,
{
    let g = flags_after(f, z, n, h, c);
    lemma_flags_set(f, z, n, h, c);
    let g1 = flags_after(g, z, None, None, None);
    assert(g1 == g);
    let g2 = flags_after(g, z, n, None, None);
    assert(g2 == g);
    let g3 = flags_after(g, z, n, h, None);
    assert(g3 == g);
}

/// Where all four flags are given and the flag register holds no stray
/// bit, the register afterwards holds exactly the four flags.
pub proof fn lemma_flags_value(f: u8, z: bool, n: bool, h: bool, c: bool)
    requires
        f % 16 == 0,
    ensures
        flags_after(f, Some(z), Some(n), Some(h), Some(c)) == flag_byte(z, n, h, c),
{
    let g = flags_after(f, Some(z), Some(n), Some(h), Some(c));
    lemma_flags_set(f, Some(z), Some(n), Some(h), Some(c));
    lemma_flags_keep_low(f, Some(z), Some(n), Some(h), Some(c));
    lemma_high_bits(g);
}

/// The exclusive-or of the accumulator with itself: whatever the
/// accumulator held, it is zero afterwards, the zero flag is set and the
/// three other flags are cleared.
pub proof fn lemma_xor_a(ctx: CpuContext)
    requires
        ctx.regs.wf(),
        ctx.fetched_data == ctx.regs.a as u16,
    ensures
        ctx.op_xor().regs.a == 0,
        ctx.op_xor().regs.f == 0x80,
        ctx.op_xor() == ctx.with_regs(CpuRegisters { a: 0, f: 0x80, ..ctx.regs }),
{
    let a = ctx.regs.a;
    assert(a ^ a == 0) by (bit_vector);
    lemma_flags_value(ctx.regs.f, true, false, false, false);
}

/// Among the opcodes of INC and DEC, those with the two low bits set are
/// the ones on a wide register; the others are on a byte register or on
/// the byte that HL points to. So a wide register leaves the flags, and
/// every other target updates them. For DEC the same opcodes are marked
/// by bits 0, 1 and 3.
pub proof fn lemma_flag_skip_pattern(code: u8)
    requires
        opcode_entry(code).i_type == InType::IN_INC || opcode_entry(code).i_type == InType::IN_DEC,
    ensures
        (code & 0x03 == 0x03) <==> (opcode_entry(code).mode == AddrMode::AM_R && opcode_entry(
            code,
        ).reg_1.wide()),
        opcode_entry(code).i_type == InType::IN_DEC ==> ((code & 0x0B == 0x0B) <==> (code & 0x03
            == 0x03)),
{
    assert((code & 0x03 == 0x03) <==> code % 4 == 3) by (bit_vector);
    assert((code & 0x0B == 0x0B) <==> (code % 4 == 3 && (code / 8) % 2 == 1)) by (bit_vector);
}

/// Neither a flag update nor a write to a register leaves a stray bit in
/// the flag register.
proof fn lemma_registers_stay_wf()
    ensures
        forall|f: u8, z: Option<bool>, n: Option<bool>, h: Option<bool>, c: Option<bool>|
            (#[trigger] flags_after(f, z, n, h, c)) % 16 == f % 16,
        forall|regs: CpuRegisters, rt: RegType, v: u16|
            regs.wf() ==> (#[trigger] regs.write(rt, v)).wf(),
{
    assert forall|f: u8, z: Option<bool>, n: Option<bool>, h: Option<bool>, c: Option<bool>|
        (#[trigger] flags_after(f, z, n, h, c)) % 16 == f % 16 by {
        lemma_flags_keep_low(f, z, n, h, c);
    }
    assert forall|regs: CpuRegisters, rt: RegType, v: u16| regs.wf() implies (#[trigger] regs.write(
        rt,
        v,
    )).wf() by {
        lemma_write_keeps_wf(regs, rt, v);
    }
}

/// A handler that works on registers alone, but for that of HALT, leaves
/// the processor halted or not as it was; each of them leaves the current
/// instruction and its opcode, and the flag register without stray bit.
pub proof fn lemma_registers_carry_on(cpu: CpuContext, handler: InProc)
    ensures
        handler != InProc::Halt ==> cpu.handled(handler).halted == cpu.halted,
        cpu.handled(handler).cur_inst == cpu.cur_inst,
        cpu.handled(handler).cur_opcode == cpu.cur_opcode,
        cpu.regs.wf() ==> cpu.handled(handler).regs.wf(),
{
    lemma_registers_stay_wf();
}

/// LD carries on.
proof fn lemma_ld_carries_on(s: MachineView)
    ensures
        s.handled(InProc::Ld).machine.carries_on(s),
{
    reveal(MachineView::op_ld);
    lemma_registers_stay_wf();
}

/// LDH carries on.
proof fn lemma_ldh_carries_on(s: MachineView)
    ensures
        s.handled(InProc::Ldh).machine.carries_on(s),
{
    reveal(MachineView::op_ldh);
    lemma_registers_stay_wf();
}

/// JP carries on.
proof fn lemma_jp_carries_on(s: MachineView)
    ensures
        s.handled(InProc::Jp).machine.carries_on(s),
{
    reveal(MachineView::op_jp);
    lemma_registers_stay_wf();
}

/// JR carries on.
proof fn lemma_jr_carries_on(s: MachineView)
    ensures
        s.handled(InProc::Jr).machine.carries_on(s),
{
    reveal(MachineView::op_jr);
    lemma_registers_stay_wf();
}

/// CALL carries on.
proof fn lemma_call_carries_on(s: MachineView)
    ensures
        s.handled(InProc::Call).machine.carries_on(s),
{
    reveal(MachineView::op_call);
    lemma_registers_stay_wf();
}

/// RST carries on.
proof fn lemma_rst_carries_on(s: MachineView)
    ensures
        s.handled(InProc::Rst).machine.carries_on(s),
{
    reveal(MachineView::op_rst);
    lemma_registers_stay_wf();
}

/// RET carries on.
proof fn lemma_ret_carries_on(s: MachineView)
    ensures
        s.handled(InProc::Ret).machine.carries_on(s),
{
    reveal(MachineView::op_ret);
    lemma_registers_stay_wf();
}

/// RETI carries on.
proof fn lemma_reti_carries_on(s: MachineView)
    ensures
        s.handled(InProc::Reti).machine.carries_on(s),
{
    reveal(MachineView::op_reti);
    reveal(MachineView::op_ret);
    lemma_registers_stay_wf();
}

/// POP carries on.
proof fn lemma_pop_carries_on(s: MachineView)
    ensures
        s.handled(InProc::Pop).machine.carries_on(s),
{
    reveal(MachineView::op_pop);
    lemma_registers_stay_wf();
}

/// PUSH carries on.
proof fn lemma_push_carries_on(s: MachineView)
    ensures
        s.handled(InProc::Push).machine.carries_on(s),
{
    reveal(MachineView::op_push);
    lemma_registers_stay_wf();
}

/// INC carries on.
proof fn lemma_inc_carries_on(s: MachineView)
    ensures
        s.handled(InProc::Inc).machine.carries_on(s),
{
    reveal(MachineView::op_inc);
    lemma_registers_stay_wf();
}

/// DEC carries on.
proof fn lemma_dec_carries_on(s: MachineView)
    ensures
        s.handled(InProc::Dec).machine.carries_on(s),
{
    reveal(MachineView::op_dec);
    lemma_registers_stay_wf();
}

/// ADD carries on.
proof fn lemma_add_carries_on(s: MachineView)
    ensures
        s.handled(InProc::Add).machine.carries_on(s),
{
    reveal(MachineView::op_add);
    lemma_registers_stay_wf();
}

/// Every handler but that of HALT leaves the processor halted or not as
/// it was, leaves the current instruction, the cartridge and the opcode
/// table, and leaves a well-formed machine well formed; the handler of
/// HALT halts the processor and does nothing else.
pub proof fn lemma_handled_carries_on(s: MachineView, handler: InProc)
    ensures
        handler != InProc::Halt ==> s.handled(handler).machine.carries_on(s),
        s.handled(InProc::Halt).machine == s.with_cpu(CpuContext { halted: true, ..s.cpu }),
{
    lemma_registers_carry_on(s.cpu, handler);
    match handler {
        InProc::Ld => lemma_ld_carries_on(s),
        InProc::Ldh => lemma_ldh_carries_on(s),
        InProc::Jp => lemma_jp_carries_on(s),
        InProc::Jr => lemma_jr_carries_on(s),
        InProc::Call => lemma_call_carries_on(s),
        InProc::Rst => lemma_rst_carries_on(s),
        InProc::Ret => lemma_ret_carries_on(s),
        InProc::Reti => lemma_reti_carries_on(s),
        InProc::Pop => lemma_pop_carries_on(s),
        InProc::Push => lemma_push_carries_on(s),
        InProc::Inc => lemma_inc_carries_on(s),
        InProc::Dec => lemma_dec_carries_on(s),
        InProc::Add => lemma_add_carries_on(s),
        _ => {},
    }
}

} // verus!
