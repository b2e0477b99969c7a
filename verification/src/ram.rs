//! Working RAM and high RAM: two byte arrays, each addressed by the bus
//! address less the start of its range.

use vstd::prelude::*;

verus! {

/// The first bus address of working RAM.
pub const WRAM_START: u16 = 0xC000;

/// The first bus address of high RAM.
pub const HRAM_START: u16 = 0xFF80;

/// The two RAM areas.
pub struct RamContext {
    pub wram: [u8; 0x2000],
    pub hram: [u8; 0x80],
}

impl RamContext {
    /// RAM with every byte zero.
    pub fn new() -> (ram: RamContext)
        ensures
            forall|i: int| 0 <= i < 0x2000 ==> ram.wram@[i] == 0,
            forall|i: int| 0 <= i < 0x80 ==> ram.hram@[i] == 0,
    {
        RamContext { wram: [0u8; 0x2000], hram: [0u8; 0x80] }
    }
}

/// The byte of working RAM at bus address `address`.
pub fn wram_read(ram: &RamContext, address: u16) -> (r: u8)
    requires
        0xC000 <= address < 0xE000,
    ensures
        r == ram.wram@[address - 0xC000],
{
    let offset: u16 = address - WRAM_START;
    ram.wram[offset as usize]
}

/// Stores `value` in working RAM at bus address `address`.
pub fn wram_write(ram: &mut RamContext, address: u16, value: u8)
    requires
        0xC000 <= address < 0xE000,
    ensures
        final(ram).wram@ == old(ram).wram@.update(address - 0xC000, value),
        final(ram).hram == old(ram).hram,
{
    let offset: u16 = address - WRAM_START;
    ram.wram[offset as usize] = value;
}

/// The byte of high RAM at bus address `address`.
pub fn hram_read(ram: &RamContext, address: u16) -> (r: u8)
    requires
        0xFF80 <= address,
    ensures
        r == ram.hram@[address - 0xFF80],
{
    let offset: u16 = address - HRAM_START;
    ram.hram[offset as usize]
}

/// Stores `value` in high RAM at bus address `address`.
pub fn hram_write(ram: &mut RamContext, address: u16, value: u8)
    requires
        0xFF80 <= address,
    ensures
        final(ram).hram@ == old(ram).hram@.update(address - 0xFF80, value),
        final(ram).wram == old(ram).wram,
{
    let offset: u16 = address - HRAM_START;
    ram.hram[offset as usize] = value;
}

} // verus!
