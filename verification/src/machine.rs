//! One emulated machine: the processor, its RAM, the cartridge, the
//! driver's state and the opcode table, owned together.

use vstd::prelude::*;
use crate::cart::CartContext;
use crate::cpu::{CpuContext, CpuRegisters};
use crate::emu::{ticks_after, EmuContext};
use crate::instructions::{set_instructions, InstructionTable};
use crate::ram::RamContext;

verus! {

/// One emulated machine. Every operation of the core takes the machine it
/// works on; two machines share nothing.
pub struct Machine {
    pub cpu: CpuContext,
    pub ram: RamContext,
    pub cart: CartContext,
    pub emu: EmuContext,
    pub instructions: InstructionTable,
}

/// What a machine is to its contracts: the processor and driver state as
/// they are, both RAM areas as sequences of bytes, and the cartridge and
/// the opcode table, which no operation of the core changes.
#[verifier::ext_equal]
pub struct MachineView {
    pub cpu: CpuContext,
    pub emu: EmuContext,
    pub wram: Seq<u8>,
    pub hram: Seq<u8>,
    pub cart: CartContext,
    pub instructions: InstructionTable,
}

impl View for Machine {
    type V = MachineView;

    open spec fn view(&self) -> MachineView {
        MachineView {
            cpu: self.cpu,
            emu: self.emu,
            wram: self.ram.wram@,
            hram: self.ram.hram@,
            cart: self.cart,
            instructions: self.instructions,
        }
    }
}

impl MachineView {
    /// The bytes of the cartridge image.
    pub open spec fn rom(self) -> Seq<u8> {
        self.cart.rom_data@
    }

    /// Both RAM areas have their size, the flag register holds no stray
    /// bit, and the opcode table is filled in.
    pub open spec fn wf(self) -> bool {
        &&& self.wram.len() == 0x2000
        &&& self.hram.len() == 0x80
        &&& self.cpu.regs.wf()
        &&& self.instructions.wf()
    }

    /// The machine with `cpu` as its processor state.
    pub open spec fn with_cpu(self, cpu: CpuContext) -> MachineView {
        MachineView { cpu, ..self }
    }

    /// The machine with `regs` as its register file.
    pub open spec fn with_regs(self, regs: CpuRegisters) -> MachineView {
        MachineView { cpu: CpuContext { regs, ..self.cpu }, ..self }
    }

    /// The machine after `cycles` more machine cycles were counted.
    pub open spec fn ticked(self, cycles: i32) -> MachineView {
        MachineView {
            emu: EmuContext { ticks: ticks_after(self.emu.ticks, cycles), ..self.emu },
            ..self
        }
    }
}

impl Machine {
    /// The machine's view is well formed.
    pub open spec fn wf(&self) -> bool {
        self@.wf()
    }

    /// A machine at power-on with `cart` in its slot: RAM is zero, the
    /// driver is stopped, the opcode table is built.
    pub fn new(cart: CartContext) -> (m: Machine)
        ensures
            m.wf(),
            m.cpu == CpuContext::initial(),
            m.emu == (EmuContext { paused: false, running: false, ticks: 0 }),
            m.cart == cart,
            forall|i: int| 0 <= i < 0x2000 ==> m@.wram[i] == 0,
            forall|i: int| 0 <= i < 0x80 ==> m@.hram[i] == 0,
    {
        Machine {
            cpu: CpuContext::new(),
            ram: RamContext::new(),
            cart,
            emu: EmuContext::new(),
            instructions: set_instructions(),
        }
    }
}

} // verus!
