//! The address bus: every access names a 16-bit address, and the bus
//! decides which component answers.
//!
//! | addresses           | component                         |
//! |---------------------|-----------------------------------|
//! | `0x0000..0x8000`    | cartridge ROM                     |
//! | `0x8000..0xA000`    | video RAM (not part of this core) |
//! | `0xA000..0xC000`    | cartridge RAM                     |
//! | `0xC000..0xE000`    | working RAM                       |
//! | `0xE000..0xFE00`    | echo: reads 0, ignores writes     |
//! | `0xFE00..0xFEA0`    | object memory (not part)          |
//! | `0xFEA0..0xFF00`    | unusable: reads 0, ignores writes |
//! | `0xFF00..0xFF80`    | I/O registers (not part)          |
//! | `0xFF80..0xFFFF`    | high RAM                          |
//! | `0xFFFF`            | interrupt-enable register         |

use vstd::prelude::*;
use crate::cart::{cart_read, cart_read_spec, cart_write, CartError};
use crate::common::{convert_to_u16, hi_byte, lo_byte, high_byte, low_byte, word_of};
use crate::cpu::{cpu_get_ie_register, cpu_set_ie_register, CpuContext};
use crate::machine::{Machine, MachineView};
use crate::ram::{hram_read, hram_write, wram_read, wram_write};

verus! {

/// The component that answers for an address.
#[derive(Debug, Clone, Copy, PartialEq, Eq, Structural)]
pub enum Region {
    Rom,
    VideoRam,
    CartRam,
    WorkRam,
    Echo,
    ObjectMemory,
    Unusable,
    Io,
    HighRam,
    InterruptEnable,
}

/// Why an access failed.
#[derive(Debug, Clone, Copy, PartialEq, Eq, Structural)]
pub enum BusError {
    /// The address belongs to a component that is not part of this core.
    Unsupported { address: u16 },
    /// The cartridge refused the access.
    Cart(CartError),
}

/// The component that answers for `address`.
pub open spec fn region_of(address: u16) -> Region {
    if address < 0x8000 {
        Region::Rom
    } else if address < 0xA000 {
        Region::VideoRam
    } else if address < 0xC000 {
        Region::CartRam
    } else if address < 0xE000 {
        Region::WorkRam
    } else if address < 0xFE00 {
        Region::Echo
    } else if address < 0xFEA0 {
        Region::ObjectMemory
    } else if address < 0xFF00 {
        Region::Unusable
    } else if address < 0xFF80 {
        Region::Io
    } else if address < 0xFFFF {
        Region::HighRam
    } else {
        Region::InterruptEnable
    }
}

/// The address after `address`, the last address being followed by the first.
pub open spec fn next_address(address: u16) -> u16 {
    if address == 0xFFFF {
        0
    } else {
        (address + 1) as u16
    }
}

/// The address before `address`, the first address being preceded by the last.
pub open spec fn prev_address(address: u16) -> u16 {
    if address == 0 {
        0xFFFF
    } else {
        (address - 1) as u16
    }
}

impl Region {
    /// Whether the component is missing from this core, so that an access
    /// to it fails.
    pub open spec fn unsupported(self) -> bool {
        self == Region::VideoRam || self == Region::ObjectMemory || self == Region::Io
    }

    /// Whether the component belongs to the cartridge.
    pub open spec fn on_cartridge(self) -> bool {
        self == Region::Rom || self == Region::CartRam
    }

    /// Whether a byte written to the component is the byte read back.
    pub open spec fn stores(self) -> bool {
        self == Region::WorkRam || self == Region::HighRam || self == Region::InterruptEnable
    }
}

/// Whether `value`, written to `address`, is what a read of `address`
/// gives afterwards: so it is where the component stores what is written
/// to it, and for the value zero where the component ignores writes and
/// reads as zero.
pub open spec fn reads_back(address: u16, value: u8) -> bool {
    let region = region_of(address);
    region.stores() || ((region == Region::Echo || region == Region::Unusable) && value == 0)
}

impl MachineView {
    /// What a read of `address` gives.
    pub open spec fn read(self, address: u16) -> Result<u8, BusError> {
        match region_of(address) {
            Region::Rom | Region::CartRam => match cart_read_spec(self.rom(), address) {
                Ok(value) => Ok(value),
                Err(e) => Err(BusError::Cart(e)),
            },
            Region::VideoRam | Region::ObjectMemory | Region::Io => Err(
                BusError::Unsupported { address },
            ),
            Region::WorkRam => Ok(self.wram[address - 0xC000]),
            Region::Echo | Region::Unusable => Ok(0),
            Region::HighRam => Ok(self.hram[address - 0xFF80]),
            Region::InterruptEnable => Ok(self.cpu.ie_register),
        }
    }

    /// Whether a write to `address` succeeds, and the error if not. The
    /// value written plays no part in it.
    pub open spec fn write_result(address: u16) -> Result<(), BusError> {
        match region_of(address) {
            Region::Rom | Region::CartRam => Err(
                BusError::Cart(CartError::ReadOnly { address }),
            ),
            Region::VideoRam | Region::ObjectMemory | Region::Io => Err(
                BusError::Unsupported { address },
            ),
            _ => Ok(()),
        }
    }

    /// The machine after a write of `value` to `address`. A write that
    /// fails, and one to the echo or the unusable range, changes nothing.
    pub open spec fn written(self, address: u16, value: u8) -> MachineView {
        match region_of(address) {
            Region::WorkRam => MachineView {
                wram: self.wram.update(address - 0xC000, value),
                ..self
            },
            Region::HighRam => MachineView {
                hram: self.hram.update(address - 0xFF80, value),
                ..self
            },
            Region::InterruptEnable => self.with_cpu(
                CpuContext { ie_register: value, ..self.cpu },
            ),
            _ => self,
        }
    }

    /// What a 16-bit read at `address` gives: the low byte from `address`,
    /// the high byte from the address after it.
    pub open spec fn read16(self, address: u16) -> Result<u16, BusError> {
        match self.read(address) {
            Err(e) => Err(e),
            Ok(lo) => match self.read(next_address(address)) {
                Err(e) => Err(e),
                Ok(hi) => Ok(word_of(hi, lo)),
            },
        }
    }

    /// Whether a 16-bit write at `address` succeeds. The high byte is
    /// written first, to the address after `address`.
    pub open spec fn write16_result(address: u16) -> Result<(), BusError> {
        match Self::write_result(next_address(address)) {
            Err(e) => Err(e),
            Ok(_) => Self::write_result(address),
        }
    }

    /// The machine after a 16-bit write of `value` at `address`.
    pub open spec fn written16(self, address: u16, value: u16) -> MachineView {
        if Self::write_result(next_address(address)) is Err {
            self
        } else {
            self.written(next_address(address), high_byte(value)).written(
                address,
                low_byte(value),
            )
        }
    }
}

/// The component that answers for `address`.
pub fn bus_region(address: u16) -> (r: Region)
    ensures
        r == region_of(address),
{
    if address < 0x8000 {
        Region::Rom
    } else if address < 0xA000 {
        Region::VideoRam
    } else if address < 0xC000 {
        Region::CartRam
    } else if address < 0xE000 {
        Region::WorkRam
    } else if address < 0xFE00 {
        Region::Echo
    } else if address < 0xFEA0 {
        Region::ObjectMemory
    } else if address < 0xFF00 {
        Region::Unusable
    } else if address < 0xFF80 {
        Region::Io
    } else if address < 0xFFFF {
        Region::HighRam
    } else {
        Region::InterruptEnable
    }
}

/// Reads the byte at `address`.
pub fn bus_read(m: &Machine, address: u16) -> (r: Result<u8, BusError>)
    ensures
        r == m@.read(address),
{
    match bus_region(address) {
        Region::Rom | Region::CartRam => match cart_read(&m.cart, address) {
            Ok(value) => Ok(value),
            Err(e) => Err(BusError::Cart(e)),
        },
        Region::VideoRam | Region::ObjectMemory | Region::Io => Err(
            BusError::Unsupported { address },
        ),
        Region::WorkRam => Ok(wram_read(&m.ram, address)),
        Region::Echo | Region::Unusable => Ok(0),
        Region::HighRam => Ok(hram_read(&m.ram, address)),
        Region::InterruptEnable => Ok(cpu_get_ie_register(&m.cpu)),
    }
}

/// Writes `value` to `address`.
pub fn bus_write(m: &mut Machine, address: u16, value: u8) -> (r: Result<(), BusError>)
    ensures
        r == MachineView::write_result(address),
        final(m)@ == old(m)@.written(address, value),
        old(m).wf() ==> final(m).wf(),
{
    match bus_region(address) {
        Region::Rom | Region::CartRam => match cart_write(address, value) {
            Ok(_) => Ok(()),
            Err(e) => Err(BusError::Cart(e)),
        },
        Region::VideoRam | Region::ObjectMemory | Region::Io => Err(
            BusError::Unsupported { address },
        ),
        Region::WorkRam => {
            wram_write(&mut m.ram, address, value);
            Ok(())
        },
        Region::Echo | Region::Unusable => Ok(()),
        Region::HighRam => {
            hram_write(&mut m.ram, address, value);
            Ok(())
        },
        Region::InterruptEnable => {
            cpu_set_ie_register(&mut m.cpu, value);
            Ok(())
        },
    }
}

/// Reads the 16-bit value at `address`, low byte first.
pub fn bus_read16(m: &Machine, address: u16) -> (r: Result<u16, BusError>)
    ensures
        r == m@.read16(address),
{
    let lo = match bus_read(m, address) {
        Ok(value) => value,
        Err(e) => {
            return Err(e);
        },
    };
    let hi = match bus_read(m, address.wrapping_add(1)) {
        Ok(value) => value,
        Err(e) => {
            return Err(e);
        },
    };
    Ok(convert_to_u16(hi, lo))
}

/// Writes the 16-bit `value` at `address`: the high byte to the address
/// after `address`, then the low byte to `address`.
pub fn bus_write16(m: &mut Machine, address: u16, value: u16) -> (r: Result<(), BusError>)
    ensures
        r == MachineView::write16_result(address),
        final(m)@ == old(m)@.written16(address, value),
        old(m).wf() ==> final(m).wf(),
{
    match bus_write(m, address.wrapping_add(1), hi_byte(value)) {
        Ok(_) => {},
        Err(e) => {
            return Err(e);
        },
    }
    bus_write(m, address, lo_byte(value))
}

/// A byte written to working RAM, to high RAM or to the interrupt-enable
/// register is the byte that the next read of that address gives.
pub proof fn lemma_write_then_read(s: MachineView, address: u16, value: u8)
    requires
        s.wf(),
        reads_back(address, value),
    ensures
        MachineView::write_result(address) is Ok,
        s.written(address, value).read(address) == Ok::<u8, BusError>(value),
        s.written(address, value).wf(),
{
}

/// A write and a read of the same address give back the value written
/// exactly where the address reads back that value.
pub proof fn lemma_reads_back(s: MachineView, address: u16, value: u8)
    requires
        s.wf(),
    ensures
        reads_back(address, value) <==> (MachineView::write_result(address) is Ok && s.written(
            address,
            value,
        ).read(address) == Ok::<u8, BusError>(value)),
{
}

/// A write changes what is read at no other address.
pub proof fn lemma_write_elsewhere(s: MachineView, address: u16, value: u8, other: u16)
    requires
        s.wf(),
        other != address,
    ensures
        s.written(address, value).read(other) == s.read(other),
{
}

/// The echo range and the unusable range read as zero, and a write there
/// succeeds and changes nothing.
pub proof fn lemma_echo(s: MachineView, address: u16, value: u8)
    requires
        region_of(address) == Region::Echo || region_of(address) == Region::Unusable,
    ensures
        s.read(address) == Ok::<u8, BusError>(0),
        MachineView::write_result(address) is Ok,
        s.written(address, value) == s,
{
}

/// A read fails exactly where the component is missing from this core, or
/// where the address belongs to the cartridge and lies beyond its image;
/// a write fails exactly where the component is missing or belongs to the
/// cartridge.
pub proof fn lemma_failures(s: MachineView, address: u16)
    ensures
        s.read(address) is Err <==> region_of(address).unsupported() || (region_of(
            address,
        ).on_cartridge() && address >= s.rom().len()),
        MachineView::write_result(address) is Err <==> region_of(address).unsupported()
            || region_of(address).on_cartridge(),
{
}

} // verus!
