//! The cartridge: ROM image, battery-backed SRAM and the mapper that decides
//! which of the two a CPU address reaches.
use vstd::prelude::*;
use crate::mapper::{RomMapper, ram_size_of, is_parsed_header, rom_offset, sram_offset, sram_lookup_defined};

verus! {

/// ROM, SRAM, mapper and the path the ROM was loaded from.
pub struct Cartridge {
    pub rom: Vec<u8>,
    /// Battery-backed SRAM.
    pub sram: Vec<u8>,
    /// Present once a ROM is loaded.
    pub mapper: Option<RomMapper>,
    /// Where the ROM came from; the SRAM file sits next to it.
    pub rom_path: Option<String>,
}

/// What a cartridge holds, as plain values.
#[verifier::ext_equal]
pub struct CartView {
    pub rom: Seq<u8>,
    pub sram: Seq<u8>,
    pub mapper: Option<RomMapper>,
    pub rom_path: Option<Seq<char>>,
}

impl View for Cartridge {
    type V = CartView;

    open spec fn view(&self) -> CartView {
        CartView {
            rom: self.rom@,
            sram: self.sram@,
            mapper: self.mapper,
            rom_path: match self.rom_path {
                Some(p) => Some(p@),
                None => None,
            },
        }
    }
}

/// Whether a cartridge read of `addr` is defined: with a mapper, an address in
/// its SRAM window needs a non-empty SRAM.
pub open spec fn cart_access_defined(c: CartView, addr: u32) -> bool {
    match c.mapper {
        Some(m) => sram_lookup_defined(m, addr),
        None => true,
    }
}

/// The byte a CPU read of `addr` returns from the cartridge: SRAM inside the
/// SRAM window (0xFF past its end), otherwise ROM (0 past its end or unmapped),
/// and 0 when no ROM is loaded.
pub open spec fn cart_read(c: CartView, addr: u32) -> u8 {
    match c.mapper {
        None => 0,
        Some(m) => match sram_offset(m, addr) {
            Some(o) => if o < c.sram.len() {
                c.sram[o as int]
            } else {
                0xFF
            },
            None => match rom_offset(m, addr) {
                Some(o) => if o < c.rom.len() {
                    c.rom[o as int]
                } else {
                    0
                },
                None => 0,
            },
        },
    }
}

/// Whether a CPU write of `addr` lands in SRAM.
pub open spec fn cart_write_hits(c: CartView, addr: u32) -> bool {
    match c.mapper {
        None => false,
        Some(m) => match sram_offset(m, addr) {
            Some(o) => o < c.sram.len(),
            None => false,
        },
    }
}

/// The cartridge after a CPU write of `data` to `addr`: only SRAM changes.
pub open spec fn cart_written(c: CartView, addr: u32, data: u8) -> CartView {
    if cart_write_hits(c, addr) {
        CartView { sram: c.sram.update(sram_offset(c.mapper.unwrap(), addr).unwrap() as int, data), ..c }
    } else {
        c
    }
}

impl Cartridge {
    /// An empty slot: no ROM, no SRAM, no mapper.
    pub fn new() -> (r: Self)
        ensures
            r@.rom == Seq::<u8>::empty(),
            r@.sram == Seq::<u8>::empty(),
            r@.mapper is None,
            r@.rom_path is None,
    {
        Cartridge { rom: Vec::new(), sram: Vec::new(), mapper: None, rom_path: None }
    }

    /// Install a ROM image read from `path`: the mapper is built from the
    /// image's header and SRAM is sized from it, every byte 0xFF.
    pub fn load_rom_data(&mut self, rom: Vec<u8>, path: String)
        ensures
            final(self)@.rom == rom@,
            final(self)@.rom_path == Some(path@),
            final(self)@.mapper matches Some(m) && {
                &&& is_parsed_header(m.header, rom@)
                &&& m.rom_size == rom@.len()
                &&& m.ram_size == ram_size_of(m.header.ram_size)
            },
            final(self)@.sram.len() == ram_size_of(final(self)@.mapper.unwrap().header.ram_size),
            forall|i: int| 0 <= i < final(self)@.sram.len() ==> #[trigger] final(self)@.sram[i] == 0xFF,
    {
        let mapper = RomMapper::new(rom.as_slice());
        let sram_size = mapper.ram_size;
        let mut sram: Vec<u8> = Vec::new();
        while sram.len() < sram_size
            invariant
                sram@.len() <= sram_size,
                forall|i: int| 0 <= i < sram@.len() ==> #[trigger] sram@[i] == 0xFF,
            decreases sram_size - sram@.len(),
        {
            sram.push(0xFF);
        }
        self.rom = rom;
        self.mapper = Some(mapper);
        self.rom_path = Some(path);
        self.sram = sram;
    }

    /// Whether the ROM declares battery-backed SRAM of non-zero size, so that a
    /// save file should be looked for.
    pub fn wants_sram_file(&self) -> (r: bool)
        ensures
            r == (self@.mapper matches Some(m) && m.header.has_sram && m.ram_size > 0),
    {
        match &self.mapper {
            Some(m) => m.header.has_sram && m.ram_size > 0,
            None => false,
        }
    }

    /// Copy the contents of a save file into SRAM when they fit; a file larger
    /// than SRAM is ignored. Returns whether it was copied.
    pub fn restore_sram(&mut self, contents: &[u8]) -> (r: bool)
        ensures
            r == (contents@.len() <= old(self)@.sram.len()),
            r ==> final(self)@ == (CartView {
                sram: contents@ + old(self)@.sram.subrange(
                    contents@.len() as int,
                    old(self)@.sram.len() as int,
                ),
                ..old(self)@
            }),
            !r ==> final(self)@ == old(self)@,
    {
        if contents.len() > self.sram.len() {
            return false;
        }
        let mut i: usize = 0;
        while i < contents.len()
            invariant
                i <= contents@.len() <= self.sram@.len(),
                self.sram@.len() == old(self).sram@.len(),
                forall|j: int| 0 <= j < i ==> #[trigger] self.sram@[j] == contents@[j],
                forall|j: int|
                    i <= j < self.sram@.len() ==> #[trigger] self.sram@[j] == old(self).sram@[j],
                self.rom == old(self).rom,
                self.mapper == old(self).mapper,
                self.rom_path == old(self).rom_path,
            decreases contents@.len() - i,
        {
            self.sram.set(i, contents[i]);
            i = i + 1;
        }
        assert(self.sram@ =~= contents@ + old(self).sram@.subrange(
            contents@.len() as int,
            old(self).sram@.len() as int,
        ));
        true
    }

    /// Whether SRAM should be written to disk: a ROM is loaded from a path and
    /// declares SRAM, and SRAM is non-empty.
    pub fn wants_sram_save(&self) -> (r: bool)
        ensures
            r == (self@.rom_path is Some && (self@.mapper matches Some(m) && m.header.has_sram)
                && self@.sram.len() > 0),
    {
        match (&self.rom_path, &self.mapper) {
            (Some(_), Some(m)) => m.header.has_sram && self.sram.len() > 0,
            _ => false,
        }
    }

    /// Read a byte through the mapper: SRAM inside the SRAM window, ROM otherwise.
    pub fn read(&self, addr: u32) -> (r: u8)
        requires
            cart_access_defined(self@, addr),
        ensures
            r == cart_read(self@, addr),
    {
        match &self.mapper {
            Some(mapper) => {
                if let Some(sram_offset) = mapper.translate_sram_address(addr) {
                    return if sram_offset < self.sram.len() {
                        self.sram[sram_offset]
                    } else {
                        0xFF
                    };
                }
                match mapper.translate_address(addr) {
                    Some(rom_offset) => if rom_offset < self.rom.len() {
                        self.rom[rom_offset]
                    } else {
                        0
                    },
                    None => 0,
                }
            },
            None => 0,
        }
    }

    /// Write a byte to SRAM through the mapper; returns whether it was an SRAM write.
    pub fn write(&mut self, addr: u32, data: u8) -> (r: bool)
        requires
            cart_access_defined(old(self)@, addr),
        ensures
            r == cart_write_hits(old(self)@, addr),
            final(self)@ == cart_written(old(self)@, addr, data),
    {
        let hit = match &self.mapper {
            Some(mapper) => match mapper.translate_sram_address(addr) {
                Some(sram_offset) => if sram_offset < self.sram.len() {
                    Some(sram_offset)
                } else {
                    None
                },
                None => None,
            },
            None => None,
        };
        match hit {
            Some(o) => {
                self.sram.set(o, data);
                true
            },
            None => false,
        }
    }

    /// The mapper, once a ROM is loaded.
    pub fn get_mapper(&self) -> (r: Option<&RomMapper>)
        ensures
            match r {
                Some(m) => self.mapper == Some(*m),
                None => self.mapper is None,
            },
    {
        self.mapper.as_ref()
    }

    /// The ROM image.
    pub fn get_rom_data(&self) -> (r: &[u8])
        ensures
            r@ == self@.rom,
    {
        self.rom.as_slice()
    }

    /// The SRAM contents.
    pub fn get_sram_data(&self) -> (r: &[u8])
        ensures
            r@ == self@.sram,
    {
        self.sram.as_slice()
    }
}

/// A byte written to SRAM through the mapper is read back at the same address.
pub proof fn law_sram_write_read(c: CartView, addr: u32, data: u8)
    requires
        cart_access_defined(c, addr),
        cart_write_hits(c, addr),
    ensures
        cart_read(cart_written(c, addr, data), addr) == data,
{
}

} // verus!
