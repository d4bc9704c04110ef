//! Cartridge header parsing and the LoROM / HiROM address maps that turn a
//! 24-bit CPU address into an offset in ROM or in battery-backed SRAM.
use vstd::prelude::*;

verus! {

/// Bank layout of a cartridge.
#[derive(Clone, Copy, Debug, PartialEq, Eq, Structural)]
pub enum RomType {
    /// 32 KB banks mapped at 0x8000-0xFFFF.
    LoRom,
    /// 64 KB banks mapped at 0x0000-0xFFFF.
    HiRom,
    /// Extended LoROM, addressed like LoROM here.
    ExLoRom,
    /// Layout not recognised.
    Unknown,
}

/// The internal cartridge header.
#[derive(Clone, Copy, Debug)]
pub struct RomHeader {
    pub rom_type: RomType,
    pub title: [u8; 21],
    pub map_mode: u8,
    /// 0 = ROM only, 1 = ROM+RAM, 2 = ROM+RAM+battery; for other values bit 0
    /// marks RAM and bit 1 a battery.
    pub cartridge_type: u8,
    pub rom_size: u8,
    pub ram_size: u8,
    pub country: u8,
    pub checksum: u16,
    pub has_sram: bool,
    pub has_battery: bool,
}

/// A cartridge's header together with the sizes of its ROM and SRAM.
pub struct RomMapper {
    pub header: RomHeader,
    pub rom_size: usize,
    pub ram_size: usize,
}

/// Bank byte (bits 16-23) of a CPU address.
pub open spec fn addr_bank(addr: u32) -> u8 {
    (addr >> 16u32) as u8
}

/// Offset within the bank (bits 0-15) of a CPU address.
pub open spec fn addr_offset(addr: u32) -> u16 {
    (addr & 0xFFFF) as u16
}

/// The 24-bit CPU address formed from a bank and an offset.
pub open spec fn full_address(bank: u8, offset: u16) -> u32 {
    ((bank as u32) << 16u32) | (offset as u32)
}

/// A CPU address built from a bank and an offset splits back into them.
pub proof fn law_address_split(bank: u8, offset: u16)
    ensures
        addr_bank(full_address(bank, offset)) == bank,
        addr_offset(full_address(bank, offset)) == offset,
        full_address(bank, offset) < 0x1000000,
{
    assert((((((bank as u32) << 16u32) | (offset as u32)) >> 16u32) as u8 == bank) && (((((
    bank as u32) << 16u32) | (offset as u32)) & 0xFFFF) as u16 == offset) && ((((bank as u32)
        << 16u32) | (offset as u32)) < 0x1000000)) by (bit_vector);
}

/// The bank layout named by the map mode byte: HiROM for the HiROM variants
/// 0x21-0x27 and 0x31-0x37 (0x20 and 0x30 mark LoROM); otherwise by the low
/// nibble, LoROM for 0-4, 8 and 9, ExLoROM for 5, Unknown for the rest.
pub open spec fn rom_type_of(map_mode: u8) -> RomType {
    let layout = map_mode % 16;
    if (0x21 <= map_mode && map_mode <= 0x27) || (0x31 <= map_mode && map_mode <= 0x37) {
        RomType::HiRom
    } else if layout <= 4 || layout == 8 || layout == 9 {
        RomType::LoRom
    } else if layout == 5 {
        RomType::ExLoRom
    } else {
        RomType::Unknown
    }
}

/// Whether a cartridge type declares SRAM: bit 0 of the type byte is set, or the
/// type is 2 (ROM+RAM+battery).
pub open spec fn type_has_sram(cartridge_type: u8) -> bool {
    (cartridge_type & 1) != 0 || cartridge_type == 2
}

/// Whether a cartridge type declares a battery: bit 1 of the type byte is set.
pub open spec fn type_has_battery(cartridge_type: u8) -> bool {
    (cartridge_type & 2) != 0
}

/// SRAM size in bytes named by the header's RAM size byte.
pub open spec fn ram_size_of(size_byte: u8) -> nat {
    if size_byte == 1 {
        2 * 1024
    } else if size_byte == 2 {
        4 * 1024
    } else if size_byte == 3 {
        8 * 1024
    } else if size_byte == 4 {
        32 * 1024
    } else if size_byte == 5 {
        64 * 1024
    } else if size_byte == 6 {
        128 * 1024
    } else if size_byte == 7 {
        256 * 1024
    } else if size_byte == 8 {
        512 * 1024
    } else {
        0
    }
}

/// Where the header is read from: 0x7FC0 when the image reaches 0x7FE0 bytes.
pub open spec fn header_present(data: Seq<u8>) -> bool {
    data.len() >= 0x7FE0
}

/// `h` is the header parsed from the image `data`: the fields at 0x7FC0 when
/// the image is long enough, all zero otherwise, with the type, SRAM and
/// battery flags derived from the map mode and cartridge type bytes.
pub open spec fn is_parsed_header(h: RomHeader, data: Seq<u8>) -> bool {
    &&& if header_present(data) {
        &&& h.title@ == data.subrange(0x7FC0, 0x7FD5)
        &&& h.map_mode == data[0x7FD5]
        &&& h.cartridge_type == data[0x7FD6]
        &&& h.rom_size == data[0x7FD7]
        &&& h.ram_size == data[0x7FD8]
        &&& h.country == data[0x7FD9]
        &&& h.checksum == data[0x7FDC] as u16 + 256 * (data[0x7FDD] as u16)
    } else {
        &&& h.title@ == Seq::new(21, |i: int| 0u8)
        &&& h.map_mode == 0
        &&& h.cartridge_type == 0
        &&& h.rom_size == 0
        &&& h.ram_size == 0
        &&& h.country == 0
        &&& h.checksum == 0
    }
    &&& h.rom_type == rom_type_of(h.map_mode)
    &&& h.has_sram == type_has_sram(h.cartridge_type)
    &&& h.has_battery == type_has_battery(h.cartridge_type)
}

/// ROM offset of a LoROM access: banks 00-3F and 80-BF map 32 KB at
/// 0x8000-0xFFFF, banks 40-7D and C0-FF map 64 KB each from ROM offset
/// 0x200000; the offset must lie inside the ROM.
pub open spec fn lorom_offset(rom_size: usize, bank: u8, offset: u16) -> Option<usize> {
    let raw: int = if (bank <= 0x3F || (0x80 <= bank && bank <= 0xBF)) && offset >= 0x8000 {
        (if bank >= 0x80 { bank - 0x80 } else { bank as int }) * 0x8000 + (offset - 0x8000)
    } else if 0x40 <= bank && bank <= 0x7D {
        (bank - 0x40) * 0x10000 + 0x200000 + offset
    } else if bank >= 0xC0 {
        (bank - 0xC0) * 0x10000 + 0x200000 + offset
    } else {
        -1
    };
    if 0 <= raw < rom_size {
        Some(raw as usize)
    } else {
        None
    }
}

/// ROM offset of a HiROM access: banks 40-7D and C0-FF map 64 KB each.
pub open spec fn hirom_offset(rom_size: usize, bank: u8, offset: u16) -> Option<usize> {
    let raw: int = if 0x40 <= bank && bank <= 0x7D {
        (bank - 0x40) * 0x10000 + offset
    } else if bank >= 0xC0 {
        (bank - 0xC0) * 0x10000 + offset
    } else {
        -1
    };
    if 0 <= raw < rom_size {
        Some(raw as usize)
    } else {
        None
    }
}

/// ROM offset of a CPU address under the mapper's layout; an Unknown layout
/// uses HiROM for banks 40-7D and C0-FF and LoROM elsewhere.
pub open spec fn rom_offset(m: RomMapper, addr: u32) -> Option<usize> {
    let bank = addr_bank(addr);
    let offset = addr_offset(addr);
    match m.header.rom_type {
        RomType::HiRom => hirom_offset(m.rom_size, bank, offset),
        RomType::Unknown => if (0x40 <= bank && bank <= 0x7D) || bank >= 0xC0 {
            hirom_offset(m.rom_size, bank, offset)
        } else {
            lorom_offset(m.rom_size, bank, offset)
        },
        _ => lorom_offset(m.rom_size, bank, offset),
    }
}

/// Whether a CPU address falls in the SRAM window of the mapper: LoROM banks
/// 70-7D and 20-3F, HiROM banks 30-3F, only when the header declares SRAM.
pub open spec fn in_sram_window(m: RomMapper, addr: u32) -> bool {
    let bank = addr_bank(addr);
    &&& m.header.has_sram
    &&& match m.header.rom_type {
        RomType::LoRom => (0x70 <= bank && bank <= 0x7D) || (0x20 <= bank && bank <= 0x3F),
        RomType::HiRom => 0x30 <= bank && bank <= 0x3F,
        _ => false,
    }
}

/// SRAM offset of a CPU address: the bank offset modulo the SRAM size.
pub open spec fn sram_offset(m: RomMapper, addr: u32) -> Option<usize> {
    if in_sram_window(m, addr) {
        Some((addr_offset(addr) as nat % m.ram_size as nat) as usize)
    } else {
        None
    }
}

/// An SRAM lookup of `addr` needs a non-empty SRAM when the address is in the window.
pub open spec fn sram_lookup_defined(m: RomMapper, addr: u32) -> bool {
    in_sram_window(m, addr) ==> m.ram_size > 0
}

/// Region name of a country code.
pub open spec fn country_name(code: u8) -> &'static str {
    if code == 0x00 {
        "Japan"
    } else if code == 0x01 {
        "USA"
    } else if code == 0x02 {
        "PAL (Europe)"
    } else if code == 0x03 {
        "Sweden"
    } else if code == 0x04 {
        "Finland"
    } else if code == 0x05 {
        "Denmark"
    } else if code == 0x06 {
        "France"
    } else if code == 0x07 {
        "Holland"
    } else if code == 0x08 {
        "Spain"
    } else if code == 0x09 {
        "Germany"
    } else if code == 0x0A {
        "Italy"
    } else if code == 0x0B {
        "Hong Kong"
    } else if code == 0x0C {
        "Indonesia"
    } else if code == 0x0D {
        "India"
    } else if code == 0x0E {
        "Unknown"
    } else {
        "Invalid"
    }
}

proof fn lemma_bank_fields(v: u8)
    by (bit_vector)
    ensures
        v & 0x0Fu8 == v % 16u8,
        v <= 0x3Fu8 ==> v & 0x3Fu8 == v,
        (0x80u8 <= v && v <= 0xBFu8) ==> v & 0x3Fu8 == (v - 0x80u8) as u8,
{
}

impl RomMapper {
    /// Analyse a ROM image: parse its header and size its SRAM.
    pub fn new(rom_data: &[u8]) -> (r: Self)
        ensures
            is_parsed_header(r.header, rom_data@),
            r.rom_size == rom_data@.len(),
            r.ram_size == ram_size_of(r.header.ram_size),
    {
        let (header, rom_type) = Self::parse_header(rom_data);
        let rom_size = rom_data.len();
        let ram_size = Self::calculate_ram_size(header.ram_size);
        RomMapper { header: RomHeader { rom_type, ..header }, rom_size, ram_size }
    }

    /// Bank layout from the map mode byte. The HiROM variants are matched on
    /// the whole byte (0x21-0x27, and 0x31-0x37 with the other chip select)
    /// before the low nibble is read, so 0x25 and 0x35 are HiROM rather than
    /// ExLoROM; 0x20 and 0x30 keep the LoROM layout of their low nibble.
    fn detect_rom_type(map_mode: u8, _rom_data: &[u8]) -> (r: RomType)
        ensures
            r == rom_type_of(map_mode),
    {
        let bank_layout = map_mode & 0x0F;
        proof {
            lemma_bank_fields(map_mode);
        }
        if 0x21 <= map_mode && map_mode <= 0x27 {
            RomType::HiRom
        } else if 0x31 <= map_mode && map_mode <= 0x37 {
            RomType::HiRom
        } else if bank_layout <= 0x04 || bank_layout == 0x08 || bank_layout == 0x09 {
            RomType::LoRom
        } else if bank_layout == 0x05 {
            RomType::ExLoRom
        } else {
            RomType::Unknown
        }
    }

    /// Read the header fields at 0x7FC0 (the branch for 0xFFC0 is only taken by
    /// images shorter than 0x7FE0 bytes and longer than 0xFFE0, i.e. never).
    fn parse_header(rom_data: &[u8]) -> (r: (RomHeader, RomType))
        ensures
            is_parsed_header(r.0, rom_data@),
            r.1 == r.0.rom_type,
    {
        let mut title = [0u8;21];
        let mut map_mode = 0u8;
        let mut cartridge_type = 0u8;
        let mut rom_size = 0u8;
        let mut ram_size = 0u8;
        let mut country = 0u8;
        let mut checksum = 0u16;
        if rom_data.len() >= 0x7FC0 + 32 {
            let offset: usize = 0x7FC0;
            title = Self::read_title(&rom_data[offset..offset + 21]);
            map_mode = rom_data[offset + 21];
            cartridge_type = rom_data[offset + 22];
            rom_size = rom_data[offset + 23];
            ram_size = rom_data[offset + 24];
            country = rom_data[offset + 25];
            checksum = (rom_data[offset + 28] as u16) + 256 * (rom_data[offset + 29] as u16);
            assert(title@ =~= rom_data@.subrange(0x7FC0, 0x7FD5));
        } else if rom_data.len() >= 0xFFC0 + 32 {
            let offset: usize = 0xFFC0;
            title = Self::read_title(&rom_data[offset..offset + 21]);
            map_mode = rom_data[offset + 21];
            cartridge_type = rom_data[offset + 22];
            rom_size = rom_data[offset + 23];
            ram_size = rom_data[offset + 24];
            country = rom_data[offset + 25];
            checksum = (rom_data[offset + 28] as u16) + 256 * (rom_data[offset + 29] as u16);
        } else {
            assert(title@ =~= Seq::new(21, |i: int| 0u8));
        }
        let rom_type = Self::detect_rom_type(map_mode, rom_data);
        let header = RomHeader {
            rom_type,
            title,
            map_mode,
            cartridge_type,
            rom_size,
            ram_size,
            country,
            checksum,
            has_sram: (cartridge_type & 0x01) != 0 || cartridge_type == 2,
            has_battery: (cartridge_type & 0x02) != 0,
        };
        (header, rom_type)
    }

    /// The first 21 bytes of `data`, or all zero when it is shorter.
    fn read_title(data: &[u8]) -> (r: [u8; 21])
        ensures
            data@.len() >= 21 ==> r@ == data@.subrange(0, 21),
            data@.len() < 21 ==> r@ == Seq::new(21, |i: int| 0u8),
    {
        let mut title = [0u8;21];
        if data.len() >= 21 {
            let mut i: usize = 0;
            while i < 21
                invariant
                    i <= 21,
                    data@.len() >= 21,
                    forall|j: int| 0 <= j < i ==> title@[j] == data@[j],
                decreases 21 - i,
            {
                title[i] = data[i];
                i = i + 1;
            }
            assert(title@ =~= data@.subrange(0, 21));
        } else {
            assert(title@ =~= Seq::new(21, |i: int| 0u8));
        }
        title
    }

    /// SRAM size in bytes from the header's RAM size byte.
    fn calculate_ram_size(size_byte: u8) -> (r: usize)
        ensures
            r == ram_size_of(size_byte),
    {
        match size_byte {
            0x00 => 0,
            0x01 => 2 * 1024,
            0x02 => 4 * 1024,
            0x03 => 8 * 1024,
            0x04 => 32 * 1024,
            0x05 => 64 * 1024,
            0x06 => 128 * 1024,
            0x07 => 256 * 1024,
            0x08 => 512 * 1024,
            _ => 0,
        }
    }

    /// ROM offset of a CPU address under the LoROM map.
    pub fn translate_lorom(&self, addr: u32) -> (r: Option<usize>)
        ensures
            r == lorom_offset(self.rom_size, addr_bank(addr), addr_offset(addr)),
    {
        let bank = (addr >> 16u32) as u8;
        let offset = (addr & 0xFFFF) as u16;
        proof {
            lemma_bank_fields(bank);
        }
        if (bank <= 0x3F || (0x80 <= bank && bank <= 0xBF)) && offset >= 0x8000 {
            let rom_offset = ((bank & 0x3F) as usize * 0x8000) + (offset as usize - 0x8000);
            if rom_offset < self.rom_size {
                Some(rom_offset)
            } else {
                None
            }
        } else if 0x40 <= bank && bank <= 0x7D {
            let rom_offset = ((bank as usize - 0x40) * 0x10000) + 0x200000 + (offset as usize);
            if rom_offset < self.rom_size {
                Some(rom_offset)
            } else {
                None
            }
        } else if bank >= 0xC0 {
            let rom_offset = ((bank as usize - 0xC0) * 0x10000) + 0x200000 + (offset as usize);
            if rom_offset < self.rom_size {
                Some(rom_offset)
            } else {
                None
            }
        } else {
            None
        }
    }

    /// ROM offset of a CPU address under the HiROM map.
    pub fn translate_hirom(&self, addr: u32) -> (r: Option<usize>)
        ensures
            r == hirom_offset(self.rom_size, addr_bank(addr), addr_offset(addr)),
    {
        let bank = (addr >> 16u32) as u8;
        let offset = (addr & 0xFFFF) as u16;
        if 0x40 <= bank && bank <= 0x7D {
            let rom_offset = ((bank as usize - 0x40) * 0x10000) + (offset as usize);
            if rom_offset < self.rom_size {
                Some(rom_offset)
            } else {
                None
            }
        } else if bank >= 0xC0 {
            let rom_offset = ((bank as usize - 0xC0) * 0x10000) + (offset as usize);
            if rom_offset < self.rom_size {
                Some(rom_offset)
            } else {
                None
            }
        } else {
            None
        }
    }

    /// ROM offset of a CPU address under the ExLoROM map (addressed as LoROM).
    fn translate_exlorom(&self, addr: u32) -> (r: Option<usize>)
        ensures
            r == lorom_offset(self.rom_size, addr_bank(addr), addr_offset(addr)),
    {
        self.translate_lorom(addr)
    }

    /// ROM offset of a CPU address under the cartridge's layout.
    pub fn translate_address(&self, addr: u32) -> (r: Option<usize>)
        ensures
            r == rom_offset(*self, addr),
    {
        match self.header.rom_type {
            RomType::LoRom => self.translate_lorom(addr),
            RomType::HiRom => self.translate_hirom(addr),
            RomType::ExLoRom => self.translate_exlorom(addr),
            RomType::Unknown => {
                let bank = (addr >> 16u32) as u8;
                if (0x40 <= bank && bank <= 0x7D) || bank >= 0xC0 {
                    self.translate_hirom(addr)
                } else {
                    self.translate_lorom(addr)
                }
            },
        }
    }

    /// SRAM offset of a CPU address, if it lies in the cartridge's SRAM window.
    pub fn translate_sram_address(&self, addr: u32) -> (r: Option<usize>)
        requires
            sram_lookup_defined(*self, addr),
        ensures
            r == sram_offset(*self, addr),
    {
        if !self.header.has_sram {
            return None;
        }
        let bank = (addr >> 16u32) as u8;
        let offset = (addr & 0xFFFF) as u16;
        match self.header.rom_type {
            RomType::LoRom => {
                if (0x70 <= bank && bank <= 0x7D) || (0x20 <= bank && bank <= 0x3F) {
                    let sram_offset = (offset as usize) % self.ram_size;
                    if sram_offset < self.ram_size {
                        Some(sram_offset)
                    } else {
                        None
                    }
                } else {
                    None
                }
            },
            RomType::HiRom => {
                if 0x30 <= bank && bank <= 0x3F {
                    let sram_offset = (offset as usize) % self.ram_size;
                    if sram_offset < self.ram_size {
                        Some(sram_offset)
                    } else {
                        None
                    }
                } else {
                    None
                }
            },
            _ => None,
        }
    }

    /// Whether a CPU address maps into the ROM.
    pub fn is_rom_address(&self, addr: u32) -> (r: bool)
        ensures
            r == rom_offset(*self, addr).is_some(),
    {
        self.translate_address(addr).is_some()
    }

    /// Region name of a country code from the header.
    pub fn get_country_name(&self, code: u8) -> (r: &'static str)
        ensures
            r == country_name(code),
    {
        match code {
            0x00 => "Japan",
            0x01 => "USA",
            0x02 => "PAL (Europe)",
            0x03 => "Sweden",
            0x04 => "Finland",
            0x05 => "Denmark",
            0x06 => "France",
            0x07 => "Holland",
            0x08 => "Spain",
            0x09 => "Germany",
            0x0A => "Italy",
            0x0B => "Hong Kong",
            0x0C => "Indonesia",
            0x0D => "India",
            0x0E => "Unknown",
            _ => "Invalid",
        }
    }
}

/// HiROM banks C0-FF mirror banks 40-7D.
pub proof fn law_hirom_mirror(rom_size: usize, bank: u8, offset: u16)
    requires
        0x40 <= bank <= 0x7D,
    ensures
        hirom_offset(rom_size, bank, offset) == hirom_offset(rom_size, (bank + 0x80) as u8, offset),
{
}

/// LoROM banks 80-BF mirror banks 00-3F, and the low half (0x0000-0x7FFF) of
/// those banks never maps to ROM.
pub proof fn law_lorom_mirror(rom_size: usize, bank: u8, offset: u16)
    requires
        bank <= 0x3F,
    ensures
        lorom_offset(rom_size, bank, offset) == lorom_offset(rom_size, (bank + 0x80) as u8, offset),
        offset < 0x8000 ==> lorom_offset(rom_size, bank, offset) is None,
{
}

/// LoROM banks 00-3F lay the ROM out in consecutive 32 KB windows: address
/// 0x8000-0xFFFF of bank `b` is ROM offset b * 0x8000 + (offset - 0x8000),
/// when that lies inside the ROM.
pub proof fn law_lorom_linear(rom_size: usize, bank: u8, offset: u16)
    requires
        bank <= 0x3F,
        offset >= 0x8000,
    ensures
        lorom_offset(rom_size, bank, offset) == (if bank * 0x8000 + offset - 0x8000 < rom_size {
            Some((bank * 0x8000 + offset - 0x8000) as usize)
        } else {
            None
        }),
{
}

/// Distinct ROM addresses in LoROM banks 00-3F never share a ROM offset.
pub proof fn law_lorom_injective(rom_size: usize, b1: u8, o1: u16, b2: u8, o2: u16)
    requires
        b1 <= 0x3F,
        b2 <= 0x3F,
        o1 >= 0x8000,
        o2 >= 0x8000,
        lorom_offset(rom_size, b1, o1) is Some,
        lorom_offset(rom_size, b1, o1) == lorom_offset(rom_size, b2, o2),
    ensures
        b1 == b2 && o1 == o2,
{
}

/// HiROM banks C0-FF lay the ROM out in consecutive 64 KB banks: offset `o`
/// of bank `b` is ROM offset (b - 0xC0) * 0x10000 + o, when that lies inside
/// the ROM; so distinct addresses there never share a ROM offset.
pub proof fn law_hirom_linear(rom_size: usize, bank: u8, offset: u16, b2: u8, o2: u16)
    requires
        bank >= 0xC0,
    ensures
        hirom_offset(rom_size, bank, offset) == (if (bank - 0xC0) * 0x10000 + offset < rom_size {
            Some(((bank - 0xC0) * 0x10000 + offset) as usize)
        } else {
            None
        }),
        b2 >= 0xC0 && hirom_offset(rom_size, bank, offset) is Some && hirom_offset(
            rom_size,
            bank,
            offset,
        ) == hirom_offset(rom_size, b2, o2) ==> bank == b2 && offset == o2,
{
}

/// An address in the SRAM window of a cartridge with SRAM lands inside the
/// SRAM, at its bank offset reduced modulo the SRAM size.
pub proof fn law_sram_offset_in_range(m: RomMapper, addr: u32)
    requires
        in_sram_window(m, addr),
        m.ram_size > 0,
    ensures
        sram_offset(m, addr) matches Some(o) && o < m.ram_size && (addr_offset(addr) - o)
            % (m.ram_size as int) == 0,
{
    let o = (addr_offset(addr) as nat % m.ram_size as nat) as int;
    let q = (addr_offset(addr) as nat / m.ram_size as nat) as int;
    assert(addr_offset(addr) == q * m.ram_size + o) by (nonlinear_arith)
        requires
            m.ram_size > 0,
            o == (addr_offset(addr) as nat % m.ram_size as nat) as int,
            q == (addr_offset(addr) as nat / m.ram_size as nat) as int,
    ;
    assert((q * m.ram_size) % (m.ram_size as int) == 0) by (nonlinear_arith)
        requires
            m.ram_size > 0,
    ;
}

} // verus!
