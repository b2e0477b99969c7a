//! The cartridge: a flat, read-only image and the header parsed from it.

use vstd::prelude::*;
use crate::common::{convert_to_u16, word_of};

verus! {

/// The length of the shortest image that holds a whole header.
pub const HEADER_END: usize = 0x150;

/// The header of a cartridge image, taken from bytes `0x100..0x150`.
#[derive(Debug, Clone, Copy, PartialEq, Eq)]
pub struct RomHeader {
    pub entry: [u8; 4],
    pub logo: [u8; 48],
    pub title: [u8; 16],
    pub manufacturer_code: [u8; 4],
    pub cgb_flag: u8,
    pub new_lic_code: u16,
    pub sgb_flag: u8,
    pub c_type: u8,
    pub rom_size: u8,
    pub ram_size: u8,
    pub dest_code: u8,
    pub lic_code: u8,
    pub version: u8,
    pub checksum: u8,
    pub global_checksum: u16,
}

/// A loaded cartridge.
#[derive(Debug)]
pub struct CartContext {
    pub filename: String,
    pub rom_size: u64,
    pub rom_data: Vec<u8>,
    pub header: RomHeader,
}

/// Why a cartridge could not be loaded.
#[derive(Debug, Clone, Copy, PartialEq, Eq, Structural)]
pub enum LoadError {
    /// The file could not be opened or read to its end.
    IoError,
    /// The image ends before its header does.
    TooSmall,
}

/// Why the cartridge refused an access.
#[derive(Debug, Clone, Copy, PartialEq, Eq, Structural)]
pub enum CartError {
    /// A read beyond the end of the image.
    OutOfImage { address: u16 },
    /// A write: the cartridge is read-only.
    ReadOnly { address: u16 },
}

impl RomHeader {
    /// Every field of the header holds the bytes of `rom` at the field's
    /// fixed place. Two-byte fields have their first byte as the high byte.
    pub open spec fn parsed_from(self, rom: Seq<u8>) -> bool {
        &&& self.entry@ == rom.subrange(0x100, 0x104)
        &&& self.logo@ == rom.subrange(0x104, 0x134)
        &&& self.title@ == rom.subrange(0x134, 0x144)
        &&& self.manufacturer_code@ == rom.subrange(0x13F, 0x143)
        &&& self.cgb_flag == rom[0x143]
        &&& self.new_lic_code == word_of(rom[0x144], rom[0x145])
        &&& self.sgb_flag == rom[0x146]
        &&& self.c_type == rom[0x147]
        &&& self.rom_size == rom[0x148]
        &&& self.ram_size == rom[0x149]
        &&& self.dest_code == rom[0x14A]
        &&& self.lic_code == rom[0x14B]
        &&& self.version == rom[0x14C]
        &&& self.checksum == rom[0x14D]
        &&& self.global_checksum == word_of(rom[0x14E], rom[0x14F])
    }
}

impl CartContext {
    /// The image holds a whole header, `header` is parsed from it, and
    /// `rom_size` is its length.
    pub open spec fn wf(&self) -> bool {
        &&& self.rom_data@.len() >= 0x150
        &&& self.rom_size == self.rom_data@.len()
        &&& self.header.parsed_from(self.rom_data@)
    }
}

/// The sum of the bytes of `rom` from index `from` up to, not including, `to`.
pub open spec fn byte_sum(rom: Seq<u8>, from: int, to: int) -> int
    decreases to - from,
{
    if to <= from {
        0
    } else {
        byte_sum(rom, from, to - 1) + rom[to - 1]
    }
}

/// The checksum of the header bytes `0x134..=0x14C`: zero, less each byte,
/// less one for each byte, kept to eight bits.
pub open spec fn header_checksum_of(rom: Seq<u8>) -> u8 {
    ((-byte_sum(rom, 0x134, 0x14D) - 25) % 256) as u8
}

/// The header checksum passes when the computed value is not zero and is
/// the value that the header stores.
pub open spec fn checksum_ok(rom: Seq<u8>) -> bool {
    header_checksum_of(rom) != 0 && header_checksum_of(rom) == rom[0x14D]
}

/// The size in KiB of the ROM that a header's size code stands for.
pub open spec fn rom_kib_of(code: u8) -> int
    decreases code,
{
    if code == 0 {
        32
    } else {
        2 * rom_kib_of((code - 1) as u8)
    }
}

/// The name of the publisher with licensee code `code`; `"UNKNOWN"` for a
/// code that names none.
pub open spec fn licensee_name(code: u8) -> Seq<char> {
    match code {
        0x00 => "None"@,
        0x01 => "Nintendo R&D1"@,
        0x08 => "Capcom"@,
        0x13 => "Electronic Arts"@,
        0x18 => "Hudson Soft"@,
        0x19 => "b-ai"@,
        0x20 => "kss"@,
        0x22 => "pow"@,
        0x24 => "PCM Complete"@,
        0x25 => "san-x"@,
        0x28 => "Kemco Japan"@,
        0x29 => "seta"@,
        0x30 => "Viacom"@,
        0x31 => "Nintendo"@,
        0x32 => "Bandai"@,
        0x33 => "Ocean/Acclaim"@,
        0x34 => "Konami"@,
        0x35 => "Hector"@,
        0x37 => "Taito"@,
        0x38 => "Hudson"@,
        0x39 => "Banpresto"@,
        0x41 => "Ubi Soft"@,
        0x42 => "Atlus"@,
        0x44 => "Malibu"@,
        0x46 => "angel"@,
        0x47 => "Bullet-Proof"@,
        0x49 => "irem"@,
        0x50 => "Absolute"@,
        0x51 => "Acclaim"@,
        0x52 => "Activision"@,
        0x53 => "American sammy"@,
        0x54 => "Konami"@,
        0x55 => "Hi tech entertainment"@,
        0x56 => "LJN"@,
        0x57 => "Matchbox"@,
        0x58 => "Mattel"@,
        0x59 => "Milton Bradley"@,
        0x60 => "Titus"@,
        0x61 => "Virgin"@,
        0x64 => "LucasArts"@,
        0x67 => "Ocean"@,
        0x69 => "Electronic Arts"@,
        0x70 => "Infogrames"@,
        0x71 => "Interplay"@,
        0x72 => "Broderbund"@,
        0x73 => "sculptured"@,
        0x75 => "sci"@,
        0x78 => "THQ"@,
        0x79 => "Accolade"@,
        0x80 => "misawa"@,
        0x83 => "lozc"@,
        0x86 => "Tokuma Shoten Intermedia"@,
        0x87 => "Tsukuda Original"@,
        0x91 => "Chunsoft"@,
        0x92 => "Video system"@,
        0x93 => "Ocean/Acclaim"@,
        0x95 => "Varie"@,
        0x96 => "Yonezawa/s\u{e2}\u{20ac}\u{2122}pal"@,
        0x97 => "Kaneko"@,
        0x99 => "Pack in soft"@,
        0xA4 => "Konami (Yu-Gi-Oh!)"@,
        _ => "UNKNOWN"@,
    }
}

/// The name of the publisher with licensee code `code`.
pub fn lic_code(code: u8) -> (name: String)
    ensures
        name@ == licensee_name(code),
{
    let name: &'static str = match code {
        0x00 => "None",
        0x01 => "Nintendo R&D1",
        0x08 => "Capcom",
        0x13 => "Electronic Arts",
        0x18 => "Hudson Soft",
        0x19 => "b-ai",
        0x20 => "kss",
        0x22 => "pow",
        0x24 => "PCM Complete",
        0x25 => "san-x",
        0x28 => "Kemco Japan",
        0x29 => "seta",
        0x30 => "Viacom",
        0x31 => "Nintendo",
        0x32 => "Bandai",
        0x33 => "Ocean/Acclaim",
        0x34 => "Konami",
        0x35 => "Hector",
        0x37 => "Taito",
        0x38 => "Hudson",
        0x39 => "Banpresto",
        0x41 => "Ubi Soft",
        0x42 => "Atlus",
        0x44 => "Malibu",
        0x46 => "angel",
        0x47 => "Bullet-Proof",
        0x49 => "irem",
        0x50 => "Absolute",
        0x51 => "Acclaim",
        0x52 => "Activision",
        0x53 => "American sammy",
        0x54 => "Konami",
        0x55 => "Hi tech entertainment",
        0x56 => "LJN",
        0x57 => "Matchbox",
        0x58 => "Mattel",
        0x59 => "Milton Bradley",
        0x60 => "Titus",
        0x61 => "Virgin",
        0x64 => "LucasArts",
        0x67 => "Ocean",
        0x69 => "Electronic Arts",
        0x70 => "Infogrames",
        0x71 => "Interplay",
        0x72 => "Broderbund",
        0x73 => "sculptured",
        0x75 => "sci",
        0x78 => "THQ",
        0x79 => "Accolade",
        0x80 => "misawa",
        0x83 => "lozc",
        0x86 => "Tokuma Shoten Intermedia",
        0x87 => "Tsukuda Original",
        0x91 => "Chunsoft",
        0x92 => "Video system",
        0x93 => "Ocean/Acclaim",
        0x95 => "Varie",
        0x96 => "Yonezawa/s\u{e2}\u{20ac}\u{2122}pal",
        0x97 => "Kaneko",
        0x99 => "Pack in soft",
        0xA4 => "Konami (Yu-Gi-Oh!)",
        _ => "UNKNOWN",
    };
    name.to_string()
}

/// The name of the cartridge hardware with type code `c_type`, for the
/// codes up to `0x22`.
pub open spec fn rom_type_of(c_type: u8) -> Seq<char> {
    match c_type {
        0x00 => "ROM ONLY"@,
        0x01 => "MBC1"@,
        0x02 => "MBC1+RAM"@,
        0x03 => "MBC1+RAM+BATTERY"@,
        0x04 => "0x04 ???"@,
        0x05 => "MBC2"@,
        0x06 => "MBC2+BATTERY"@,
        0x07 => "0x07 ???"@,
        0x08 => "ROM+RAM 1"@,
        0x09 => "ROM+RAM+BATTERY 1"@,
        0x0A => "0x0A ???"@,
        0x0B => "MMM01"@,
        0x0C => "MMM01+RAM"@,
        0x0D => "MMM01+RAM+BATTERY"@,
        0x0E => "0x0E ???"@,
        0x0F => "MBC3+TIMER+BATTERY"@,
        0x10 => "MBC3+TIMER+RAM+BATTERY 2"@,
        0x11 => "MBC3"@,
        0x12 => "MBC3+RAM 2"@,
        0x13 => "MBC3+RAM+BATTERY 2"@,
        0x14 => "0x14 ???"@,
        0x15 => "0x15 ???"@,
        0x16 => "0x16 ???"@,
        0x17 => "0x17 ???"@,
        0x18 => "0x18 ???"@,
        0x19 => "MBC5"@,
        0x1A => "MBC5+RAM"@,
        0x1B => "MBC5+RAM+BATTERY"@,
        0x1C => "MBC5+RUMBLE"@,
        0x1D => "MBC5+RUMBLE+RAM"@,
        0x1E => "MBC5+RUMBLE+RAM+BATTERY"@,
        0x1F => "0x1F ???"@,
        0x20 => "MBC6"@,
        0x21 => "0x21 ???"@,
        _ => "MBC7+SENSOR+RUMBLE+RAM+BATTERY"@,
    }
}

/// The name of the cartridge hardware with type code `c_type`; `None` for a
/// code above `0x22`, which names no hardware.
pub fn rom_type_name(c_type: u8) -> (name: Option<String>)
    ensures
        name is Some <==> c_type <= 0x22,
        name matches Some(s) ==> s@ == rom_type_of(c_type),
{
    if c_type > 0x22 {
        return None;
    }
    let name: &'static str = match c_type {
        0x00 => "ROM ONLY",
        0x01 => "MBC1",
        0x02 => "MBC1+RAM",
        0x03 => "MBC1+RAM+BATTERY",
        0x04 => "0x04 ???",
        0x05 => "MBC2",
        0x06 => "MBC2+BATTERY",
        0x07 => "0x07 ???",
        0x08 => "ROM+RAM 1",
        0x09 => "ROM+RAM+BATTERY 1",
        0x0A => "0x0A ???",
        0x0B => "MMM01",
        0x0C => "MMM01+RAM",
        0x0D => "MMM01+RAM+BATTERY",
        0x0E => "0x0E ???",
        0x0F => "MBC3+TIMER+BATTERY",
        0x10 => "MBC3+TIMER+RAM+BATTERY 2",
        0x11 => "MBC3",
        0x12 => "MBC3+RAM 2",
        0x13 => "MBC3+RAM+BATTERY 2",
        0x14 => "0x14 ???",
        0x15 => "0x15 ???",
        0x16 => "0x16 ???",
        0x17 => "0x17 ???",
        0x18 => "0x18 ???",
        0x19 => "MBC5",
        0x1A => "MBC5+RAM",
        0x1B => "MBC5+RAM+BATTERY",
        0x1C => "MBC5+RUMBLE",
        0x1D => "MBC5+RUMBLE+RAM",
        0x1E => "MBC5+RUMBLE+RAM+BATTERY",
        0x1F => "0x1F ???",
        0x20 => "MBC6",
        0x21 => "0x21 ???",
        _ => "MBC7+SENSOR+RUMBLE+RAM+BATTERY",
    };
    Some(name.to_string())
}

/// Copies `N` bytes of `rom`, starting at index `start`.
fn copy_bytes<const N: usize>(rom: &Vec<u8>, start: usize) -> (out: [u8; N])
    requires
        start + N <= rom.len(),
    ensures
        out@ == rom@.subrange(start as int, start + N),
{
    let mut out: [u8; N] = [0u8; N];
    let mut i: usize = 0;
    while i < N
        invariant
            i <= N,
            start + N <= rom.len(),
            forall|k: int| 0 <= k < i ==> out@[k] == rom@[start + k],
        decreases N - i,
    {
        out[i] = rom[start + i];
        i += 1;
    }
    assert(out@ =~= rom@.subrange(start as int, start + N));
    out
}

/// Parses the header of the image `rom_data`.
pub fn populate_header(rom_data: &Vec<u8>) -> (header: RomHeader)
    requires
        rom_data.len() >= 0x150,
    ensures
        header.parsed_from(rom_data@),
{
    RomHeader {
        entry: copy_bytes::<4>(rom_data, 0x100),
        logo: copy_bytes::<48>(rom_data, 0x104),
        title: copy_bytes::<16>(rom_data, 0x134),
        manufacturer_code: copy_bytes::<4>(rom_data, 0x13F),
        cgb_flag: rom_data[0x143],
        new_lic_code: convert_to_u16(rom_data[0x144], rom_data[0x145]),
        sgb_flag: rom_data[0x146],
        c_type: rom_data[0x147],
        rom_size: rom_data[0x148],
        ram_size: rom_data[0x149],
        dest_code: rom_data[0x14A],
        lic_code: rom_data[0x14B],
        version: rom_data[0x14C],
        checksum: rom_data[0x14D],
        global_checksum: convert_to_u16(rom_data[0x14E], rom_data[0x14F]),
    }
}

/// Computes the checksum of the header bytes of `rom_data`.
pub fn header_checksum(rom_data: &Vec<u8>) -> (x: u8)
    requires
        rom_data.len() >= 0x150,
    ensures
        x == header_checksum_of(rom_data@),
{
    let mut x: u8 = 0;
    let mut i: usize = 0x134;
    while i <= 0x14C
        invariant
            0x134 <= i <= 0x14D,
            rom_data.len() >= 0x150,
            x as int == (-byte_sum(rom_data@, 0x134, i as int) - (i - 0x134)) % 256,
        decreases 0x14D - i,
    {
        x = x.wrapping_sub(rom_data[i]).wrapping_sub(1);
        i += 1;
    }
    x
}

/// Whether the header checksum of `cart` passes. It does not where the
/// image holds no whole header.
pub fn checksum_passed(cart: &CartContext) -> (ok: bool)
    ensures
        ok == (cart.rom_data@.len() >= 0x150 && checksum_ok(cart.rom_data@)),
        cart.wf() ==> ok == (header_checksum_of(cart.rom_data@) != 0 && header_checksum_of(
            cart.rom_data@,
        ) == cart.header.checksum),
{
    if cart.rom_data.len() < HEADER_END {
        return false;
    }
    let x = header_checksum(&cart.rom_data);
    x != 0 && x == cart.rom_data[0x14D]
}

/// The size in KiB of the ROM that size code `code` stands for: 32 KiB
/// doubled `code` times. `None` where that does not fit in 32 bits.
pub fn rom_size_kib(code: u8) -> (kib: Option<u32>)
    ensures
        kib is Some <==> code <= 26,
        kib matches Some(k) ==> k == rom_kib_of(code),
{
    if code > 26 {
        return None;
    }
    let mut k: u32 = 32;
    let mut i: u8 = 0;
    while i < code
        invariant
            i <= code <= 26,
            k == rom_kib_of(i),
            k <= 32 * 0x400_0000,
            i < 26 ==> k <= 32 * 0x200_0000,
        decreases code - i,
    {
        proof {
            lemma_rom_kib_bound(i);
        }
        k = k * 2;
        i += 1;
    }
    Some(k)
}

/// Size codes double the size, so a code below 26 stands for less than
/// 2 to the power 30 KiB.
proof fn lemma_rom_kib_bound(code: u8)
    requires
        code < 26,
    ensures
        rom_kib_of(code) <= 0x4000_0000,
        code < 25 ==> rom_kib_of(code) <= 0x2000_0000,
    decreases code,
{
    reveal_with_fuel(rom_kib_of, 27);
}

/// Makes a cartridge from what reading the file `filename` gave: its
/// bytes, or nothing where the file could not be read.
pub fn cart_load(filename: String, image: Option<Vec<u8>>) -> (r: Result<CartContext, LoadError>)
    ensures
        r is Ok <==> (image matches Some(bytes) && bytes@.len() >= 0x150),
        r matches Err(e) ==> e == (if image is None {
            LoadError::IoError
        } else {
            LoadError::TooSmall
        }),
        r matches Ok(cart) ==> cart.wf() && cart.rom_data@ == image->0@ && cart.filename@
            == filename@,
{
    match image {
        None => Err(LoadError::IoError),
        Some(rom_data) => {
            if rom_data.len() < HEADER_END {
                return Err(LoadError::TooSmall);
            }
            let header = populate_header(&rom_data);
            let rom_size = rom_data.len() as u64;
            Ok(CartContext { filename, rom_size, rom_data, header })
        },
    }
}

/// What a read of the cartridge at `address` gives.
pub open spec fn cart_read_spec(rom: Seq<u8>, address: u16) -> Result<u8, CartError> {
    if address < rom.len() {
        Ok(rom[address as int])
    } else {
        Err(CartError::OutOfImage { address })
    }
}

/// The byte of the image at `address`, or an error beyond its end.
pub fn cart_read(cart: &CartContext, address: u16) -> (r: Result<u8, CartError>)
    ensures
        r == cart_read_spec(cart.rom_data@, address),
{
    let index = address as usize;
    if index < cart.rom_data.len() {
        Ok(cart.rom_data[index])
    } else {
        Err(CartError::OutOfImage { address })
    }
}

/// The cartridge is read-only: a write is refused, whatever the address
/// and the value.
pub fn cart_write(address: u16, value: u8) -> (r: Result<(), CartError>)
    ensures
        r == Err::<(), CartError>(CartError::ReadOnly { address }),
{
    Err(CartError::ReadOnly { address })
}

} // verus!
