//! The picture processing unit: video, palette and sprite memories, the
//! display registers, scanline timing and the per-scanline renderer.
use vstd::prelude::*;
use crate::bits::lemma_shift_mask_bounds;

verus! {

/// Display control (register 0x2100) and object settings (0x2101).
#[derive(Clone, Copy)]
pub struct PPUControl {
    /// Forced blank, bit 7.
    pub forced_blank: bool,
    /// Brightness, bits 0-3.
    pub brightness: u8,
    /// Object size selector (0-7).
    pub obj_size: u8,
    /// Base VRAM address of object tiles.
    pub obj_addr: u16,
}

/// Settings of one background layer.
#[derive(Clone, Copy)]
pub struct BGControl {
    /// false = 8x8 tiles, true = 16x16 tiles.
    pub tile_size: bool,
    /// VRAM address of the tile map.
    pub map_addr: u16,
    /// VRAM address of the tile data.
    pub tile_addr: u16,
    pub mosaic: bool,
}

/// Scroll offset of one background layer.
#[derive(Clone, Copy)]
pub struct BGOffset {
    pub x: u16,
    pub y: u16,
}

/// Width of the visible picture in pixels.
pub const SCREEN_WIDTH: usize = 256;

/// Number of visible scanlines.
pub const SCREEN_HEIGHT: usize = 224;

/// Number of pixels in the framebuffer.
pub const FRAME_PIXELS: usize = 57344;

/// The picture processor.
pub struct PPU {
    /// Video RAM (64 KB).
    pub vram: [u8; 65536],
    /// Object attribute memory (544 bytes).
    pub oam: [u8; 544],
    /// Palette memory: 256 colours of two bytes.
    pub cgram: [u8; 512],
    pub control: PPUControl,
    /// Background mode 0-7.
    pub bg_mode: u8,
    pub bg_control: [BGControl; 4],
    pub bg_offset: [BGOffset; 4],
    /// Current scanline (0-261).
    pub scanline: u16,
    /// Dot within the scanline (0-1363).
    pub cycle: u16,
    pub field: bool,
    pub vblank: bool,
    pub hblank: bool,
    /// 256x224 pixels, 32-bit ARGB, row by row.
    pub framebuffer: Box<[u32; 57344]>,
    /// Current VRAM address.
    pub vram_addr: u16,
    /// Address increment select: false = 1, true = 256.
    pub vram_addr_high: bool,
    pub temp_x: u16,
    pub temp_y: u16,
}

/// The picture processor's state as plain values.
#[verifier::ext_equal]
pub struct PpuView {
    pub vram: Seq<u8>,
    pub oam: Seq<u8>,
    pub cgram: Seq<u8>,
    pub control: PPUControl,
    pub bg_mode: u8,
    pub bg_control: Seq<BGControl>,
    pub bg_offset: Seq<BGOffset>,
    pub scanline: u16,
    pub cycle: u16,
    pub field: bool,
    pub vblank: bool,
    pub hblank: bool,
    pub framebuffer: Seq<u32>,
    pub vram_addr: u16,
    pub vram_addr_high: bool,
    pub temp_x: u16,
    pub temp_y: u16,
}

impl View for PPU {
    type V = PpuView;

    open spec fn view(&self) -> PpuView {
        PpuView {
            vram: self.vram@,
            oam: self.oam@,
            cgram: self.cgram@,
            control: self.control,
            bg_mode: self.bg_mode,
            bg_control: self.bg_control@,
            bg_offset: self.bg_offset@,
            scanline: self.scanline,
            cycle: self.cycle,
            field: self.field,
            vblank: self.vblank,
            hblank: self.hblank,
            framebuffer: self.framebuffer@,
            vram_addr: self.vram_addr,
            vram_addr_high: self.vram_addr_high,
            temp_x: self.temp_x,
            temp_y: self.temp_y,
        }
    }
}

/// Display control decoded from a write to register 0x2100.
pub open spec fn control_from(val: u8) -> PPUControl {
    PPUControl {
        forced_blank: (val & 0x80) != 0,
        brightness: val & 0x0F,
        obj_size: (val & 0x70) >> 4u8,
        obj_addr: ((val as u16) & 0x03) << 8u16,
    }
}

impl PPUControl {
    /// Decode display control from a register byte.
    fn from_byte(val: u8) -> (r: Self)
        ensures
            r == control_from(val),
    {
        PPUControl {
            forced_blank: (val & 0x80) != 0,
            brightness: val & 0x0F,
            obj_size: (val & 0x70) >> 4u8,
            obj_addr: ((val as u16) & 0x03) << 8u16,
        }
    }
}

/// Bounds on the registers the renderer adds to, so that its 16-bit address
/// arithmetic never overflows; every state the unit reaches keeps them.
pub open spec fn ppu_wf(p: PpuView) -> bool {
    &&& p.vram.len() == 65536
    &&& p.oam.len() == 544
    &&& p.cgram.len() == 512
    &&& p.framebuffer.len() == FRAME_PIXELS
    &&& p.bg_control.len() == 4
    &&& p.bg_offset.len() == 4
    &&& p.control.obj_addr <= 0x300
    &&& forall|i: int|
        0 <= i < 4 ==> #[trigger] p.bg_control[i].map_addr <= 0xFBFF
            && p.bg_control[i].tile_addr <= 0xC000
    &&& forall|i: int| 0 <= i < 4 ==> #[trigger] p.bg_offset[i].x <= 0xFF00 && p.bg_offset[i].y <= 0xFF00
}

/// The timing of the scanline counter: dot below 1364, scanline below 262,
/// V-blank exactly on scanlines 225-261, H-blank off on dots 1-1096 and on
/// from dot 1097.
pub open spec fn timing_ok(p: PpuView) -> bool {
    &&& p.cycle < 1364
    &&& p.scanline < 262
    &&& p.vblank == (p.scanline >= 225)
    &&& (1 <= p.cycle <= 1096 ==> !p.hblank)
    &&& (p.cycle >= 1097 ==> p.hblank)
}

/// Whether one tick is defined: the dot and scanline counters do not overflow.
pub open spec fn tick_defined(p: PpuView) -> bool {
    &&& p.cycle < 0xFFFF
    &&& (p.cycle + 1 >= 1364 ==> p.scanline < 0xFFFF)
}

/// The state after one dot: H-blank drops at dot 0 and rises at dot 1096; after
/// dot 1363 the next scanline starts, V-blank rises at scanline 225, and after
/// scanline 261 the frame restarts with the field toggled.
pub open spec fn ticked(p: PpuView) -> PpuView {
    let hblank = if p.cycle == 0 {
        false
    } else if p.cycle == 1096 {
        true
    } else {
        p.hblank
    };
    let cycle = p.cycle + 1;
    if cycle >= 1364 {
        let scanline = p.scanline + 1;
        if scanline == 225 {
            PpuView { hblank, cycle: 0, scanline: 225, vblank: true, ..p }
        } else if scanline == 262 {
            PpuView { hblank, cycle: 0, scanline: 0, vblank: false, field: !p.field, ..p }
        } else {
            PpuView { hblank, cycle: 0, scanline: scanline as u16, ..p }
        }
    } else {
        PpuView { hblank, cycle: cycle as u16, ..p }
    }
}

/// A 5-bit colour channel widened to 8 bits: shifted up by three, its top
/// three bits repeated below.
pub open spec fn widened(c: int) -> int {
    c * 8 + c / 4
}

/// The 15-bit BGR entry `idx % 256` of the palette: two little-endian bytes.
pub open spec fn palette_entry(cgram: Seq<u8>, idx: u16) -> int {
    let addr = ((idx % 256) * 2) as int;
    cgram[addr] + 256 * cgram[addr + 1]
}

/// ARGB colour of palette entry `idx % 256`: alpha 0xFF, then entry bits
/// 10-14, 5-9 and 0-4, each widened to 8 bits, in bytes 2, 1 and 0.
#[verifier::opaque]
pub open spec fn palette_color(cgram: Seq<u8>, idx: u16) -> u32 {
    let e = palette_entry(cgram, idx);
    let r = (e / 1024) % 32;
    let g = (e / 32) % 32;
    let b = e % 32;
    (0xFF000000 + widened(r) * 0x10000 + widened(g) * 0x100 + widened(b)) as u32
}

/// The unit after `data` is written to register `0x2100 + addr`.
pub open spec fn ppu_register_written(p: PpuView, addr: u8, data: u8) -> PpuView {
    if addr == 0x00 {
        PpuView { control: control_from(data), ..p }
    } else if addr == 0x05 {
        PpuView { bg_mode: data & 0x07, ..p }
    } else if addr == 0x06 {
        PpuView { temp_y: ((data as u16) << 8u16) | (p.temp_y & 0xFF), ..p }
    } else if addr == 0x15 {
        PpuView { vram_addr: (p.vram_addr & 0xFF00) | (data as u16), ..p }
    } else if addr == 0x16 {
        PpuView {
            vram_addr: (p.vram_addr & 0x00FF) | (((data as u16) & 0x7F) << 8u16),
            vram_addr_high: (data & 0x80) != 0,
            ..p
        }
    } else if addr == 0x18 || addr == 0x19 {
        PpuView {
            vram: p.vram.update(p.vram_addr as int, data),
            vram_addr: vram_addr_after_step(p),
            ..p
        }
    } else if addr == 0x21 {
        PpuView {
            control: PPUControl {
                obj_size: (data >> 5u8) & 0x07,
                obj_addr: ((data as u16) & 0x03) << 8u16,
                ..p.control
            },
            ..p
        }
    } else {
        p
    }
}

/// The VRAM address after one access: +1, or +256 when the high increment is
/// selected, wrapping at 64 KB.
pub open spec fn vram_addr_after_step(p: PpuView) -> u16 {
    if p.vram_addr_high {
        ((p.vram_addr + 256) % 65536) as u16
    } else {
        ((p.vram_addr + 1) % 65536) as u16
    }
}

/// The byte read from register `0x2100 + addr`: 0x2134 gives the blank flags,
/// 0x2139 and 0x213A the VRAM byte at the current address, the rest 0.
pub open spec fn ppu_register_value(p: PpuView, addr: u8) -> u8 {
    if addr == 0x34 {
        let s0: u8 = if p.vblank { 0x80 } else { 0 };
        if p.hblank { s0 | 0x40 } else { s0 }
    } else if addr == 0x39 || addr == 0x3A {
        p.vram[p.vram_addr as int]
    } else {
        0
    }
}

/// The power-on state: memories cleared, forced blank on, everything else 0.
pub open spec fn ppu_power_on(p: PpuView) -> bool {
    &&& p.vram == Seq::new(65536, |i: int| 0u8)
    &&& p.oam == Seq::new(544, |i: int| 0u8)
    &&& p.cgram == Seq::new(512, |i: int| 0u8)
    &&& p.framebuffer == Seq::new(FRAME_PIXELS as nat, |i: int| 0u32)
    &&& p.control == (PPUControl { forced_blank: true, brightness: 0, obj_size: 0, obj_addr: 0 })
    &&& p.bg_mode == 0
    &&& p.bg_control == Seq::new(
        4,
        |i: int| BGControl { tile_size: false, map_addr: 0, tile_addr: 0, mosaic: false },
    )
    &&& p.bg_offset == Seq::new(4, |i: int| BGOffset { x: 0, y: 0 })
    &&& p.scanline == 0
    &&& p.cycle == 0
    &&& !p.field
    &&& !p.vblank
    &&& !p.hblank
    &&& p.vram_addr == 0
    &&& !p.vram_addr_high
    &&& p.temp_x == 0
    &&& p.temp_y == 0
}

proof fn lemma_color_fields(lo: u8, hi: u8)
    by (bit_vector)
    ensures
        ({
            let c = ((hi as u16) << 8u16) | (lo as u16);
            let r = ((c & 0x7C00) >> 10u16) as u32;
            let g = ((c & 0x03E0) >> 5u16) as u32;
            let b = (c & 0x001F) as u32;
            let e = lo as u32 + 256 * (hi as u32);
            let r5 = (e / 1024) % 32;
            let g5 = (e / 32) % 32;
            let b5 = e % 32;
            0xFF000000u32 | (((r << 3u32) | (r >> 2u32)) << 16u32) | (((g << 3u32) | (g >> 2u32))
                << 8u32) | ((b << 3u32) | (b >> 2u32)) == 0xFF000000u32 + (r5 * 8 + r5 / 4)
                * 0x10000 + (g5 * 8 + g5 / 4) * 0x100 + (b5 * 8 + b5 / 4)
        }),
{
}

proof fn lemma_control_bounds(val: u8)
    by (bit_vector)
    ensures
        ((val as u16) & 0x03) << 8u16 <= 0x300,
        ((val & 0x70) >> 4u8) <= 7,
        ((val >> 5u8) & 0x07) <= 7,
{
}

impl PPU {
    /// Power-on state: memories cleared, forced blank on, scanline 0.
    pub fn new() -> (r: Self)
        ensures
            r@.vram == Seq::new(65536, |i: int| 0u8),
            r@.oam == Seq::new(544, |i: int| 0u8),
            r@.cgram == Seq::new(512, |i: int| 0u8),
            r@.framebuffer == Seq::new(FRAME_PIXELS as nat, |i: int| 0u32),
            r@.control == (PPUControl { forced_blank: true, brightness: 0, obj_size: 0, obj_addr: 0 }),
            r@.bg_mode == 0,
            r@.bg_control == Seq::new(4, |i: int| BGControl { tile_size: false, map_addr: 0, tile_addr: 0, mosaic: false }),
            r@.bg_offset == Seq::new(4, |i: int| BGOffset { x: 0, y: 0 }),
            r@.scanline == 0,
            r@.cycle == 0,
            !r@.field,
            !r@.vblank,
            !r@.hblank,
            r@.vram_addr == 0,
            !r@.vram_addr_high,
            r@.temp_x == 0,
            r@.temp_y == 0,
            ppu_wf(r@),
            timing_ok(r@),
            ppu_power_on(r@),
    {
        let r = PPU {
            vram: [0;65536],
            oam: [0;544],
            cgram: [0;512],
            control: PPUControl { forced_blank: true, brightness: 0, obj_size: 0, obj_addr: 0 },
            bg_mode: 0,
            bg_control: [BGControl { tile_size: false, map_addr: 0, tile_addr: 0, mosaic: false };4],
            bg_offset: [BGOffset { x: 0, y: 0 };4],
            scanline: 0,
            cycle: 0,
            field: false,
            vblank: false,
            hblank: false,
            framebuffer: Box::new([0;57344]),
            vram_addr: 0,
            vram_addr_high: false,
            temp_x: 0,
            temp_y: 0,
        };
        assert(r@.vram =~= Seq::new(65536, |i: int| 0u8));
        assert(r@.oam =~= Seq::new(544, |i: int| 0u8));
        assert(r@.cgram =~= Seq::new(512, |i: int| 0u8));
        assert(r@.framebuffer =~= Seq::new(FRAME_PIXELS as nat, |i: int| 0u32));
        assert(r@.bg_control =~= Seq::new(4, |i: int| BGControl { tile_size: false, map_addr: 0, tile_addr: 0, mosaic: false }));
        assert(r@.bg_offset =~= Seq::new(4, |i: int| BGOffset { x: 0, y: 0 }));
        r
    }

    /// The VRAM byte at the current VRAM address.
    pub fn vram_read(&self) -> (r: u8)
        ensures
            r == self@.vram[self.vram_addr as int],
    {
        self.vram[self.vram_addr as usize]
    }

    /// Store a byte at the current VRAM address.
    pub fn vram_write(&mut self, data: u8)
        ensures
            final(self)@ == (PpuView { vram: old(self)@.vram.update(old(self).vram_addr as int, data), ..old(self)@ }),
    {
        let addr = self.vram_addr as usize;
        self.vram[addr] = data;
    }

    /// Advance the VRAM address by 1, or by 256 when the high increment is selected.
    pub fn vram_addr_inc(&mut self)
        ensures
            final(self)@ == (PpuView { vram_addr: vram_addr_after_step(old(self)@), ..old(self)@ }),
    {
        let increment: u16 = if self.vram_addr_high { 256 } else { 1 };
        self.vram_addr = self.vram_addr.wrapping_add(increment);
    }

    /// Palette byte at `addr % 512`.
    pub fn cgram_read(&self, addr: u16) -> (r: u8)
        ensures
            r == self@.cgram[(addr % 512) as int],
    {
        self.cgram[(addr % 512) as usize]
    }

    /// Store a palette byte at `addr % 512`.
    pub fn cgram_write(&mut self, addr: u16, data: u8)
        ensures
            final(self)@ == (PpuView { cgram: old(self)@.cgram.update((addr % 512) as int, data), ..old(self)@ }),
    {
        self.cgram[(addr % 512) as usize] = data;
    }

    /// ARGB colour of palette entry `palette_idx % 256`.
    pub fn get_color(&self, palette_idx: u16) -> (r: u32)
        ensures
            r == palette_color(self@.cgram, palette_idx),
    {
        let addr = ((palette_idx % 256) * 2) as usize;
        let low = self.cgram[addr] as u16;
        let high = self.cgram[addr + 1] as u16;
        let color_555 = (high << 8u16) | low;
        let r = ((color_555 & 0x7C00) >> 10u16) as u32;
        let g = ((color_555 & 0x03E0) >> 5u16) as u32;
        let b = (color_555 & 0x001F) as u32;
        let r = (r << 3u32) | (r >> 2u32);
        let g = (g << 3u32) | (g >> 2u32);
        let b = (b << 3u32) | (b >> 2u32);
        proof {
            reveal(palette_color);
            lemma_color_fields(self.cgram[addr as int], self.cgram[addr as int + 1]);
        }
        0xFF000000u32 | (r << 16u32) | (g << 8u32) | b
    }

    /// Advance the timing by one dot.
    pub fn tick(&mut self)
        requires
            tick_defined(old(self)@),
        ensures
            final(self)@ == ticked(old(self)@),
    {
        if self.cycle == 0 {
            self.hblank = false;
        } else if self.cycle == 1096 {
            self.hblank = true;
        }
        self.cycle = self.cycle + 1;
        if self.cycle >= 1364 {
            self.cycle = 0;
            self.scanline = self.scanline + 1;
            if self.scanline == 225 {
                self.vblank = true;
            } else if self.scanline == 262 {
                self.scanline = 0;
                self.vblank = false;
                self.field = !self.field;
            }
        }
    }

    /// Object attribute byte at `addr % 512`.
    pub fn oam_read(&self, addr: u16) -> (r: u8)
        ensures
            r == self@.oam[(addr % 512) as int],
    {
        self.oam[(addr % 512) as usize]
    }

    /// Store an object attribute byte at `addr % 512`.
    pub fn oam_write(&mut self, addr: u16, data: u8)
        ensures
            final(self)@ == (PpuView { oam: old(self)@.oam.update((addr % 512) as int, data), ..old(self)@ }),
    {
        self.oam[(addr % 512) as usize] = data;
    }

    /// Read register `0x2100 + addr`.
    pub fn read_register(&self, addr: u8) -> (r: u8)
        ensures
            r == ppu_register_value(self@, addr),
    {
        if addr == 0x34 {
            let mut status: u8 = if self.vblank { 0x80 } else { 0 };
            if self.hblank {
                status = status | 0x40;
            }
            status
        } else if addr == 0x39 || addr == 0x3A {
            self.vram_read()
        } else {
            0
        }
    }

    /// Write register `0x2100 + addr`.
    pub fn write_register(&mut self, addr: u8, data: u8)
        ensures
            final(self)@ == ppu_register_written(old(self)@, addr, data),
            ppu_wf(old(self)@) ==> ppu_wf(final(self)@),
    {
        proof {
            lemma_control_bounds(data);
        }
        if addr == 0x00 {
            self.control = PPUControl::from_byte(data);
        } else if addr == 0x05 {
            self.bg_mode = data & 0x07;
        } else if addr == 0x06 {
            self.temp_y = ((data as u16) << 8u16) | (self.temp_y & 0xFF);
        } else if addr == 0x15 {
            self.vram_addr = (self.vram_addr & 0xFF00) | (data as u16);
        } else if addr == 0x16 {
            self.vram_addr = (self.vram_addr & 0x00FF) | (((data as u16) & 0x7F) << 8u16);
            self.vram_addr_high = (data & 0x80) != 0;
        } else if addr == 0x18 || addr == 0x19 {
            self.vram_write(data);
            self.vram_addr_inc();
        } else if addr == 0x21 {
            self.control.obj_size = (data >> 5u8) & 0x07;
            self.control.obj_addr = ((data as u16) & 0x03) << 8u16;
        }
    }
}

/// One object's attributes as stored in OAM.
#[derive(Clone, Copy)]
pub struct SpriteEntry {
    pub x: u16,
    pub y: u16,
    pub tile: u16,
    pub priority: u8,
    pub palette: u8,
    pub flip_h: bool,
    pub flip_v: bool,
}

/// Attribute ranges of an entry decoded from OAM.
pub open spec fn sprite_ok(s: SpriteEntry) -> bool {
    s.x <= 0x3FF && s.y <= 0xFF && s.tile <= 0xFF && s.priority <= 3 && s.palette <= 7
}

/// Object `n` decoded from OAM: four bytes at `4 n` plus, for the first 128
/// objects, two high X bits from the table at 256.
pub open spec fn sprite_of(p: PpuView, n: u8) -> SpriteEntry {
    let base = n as int * 4;
    let x_low = p.oam[base] as u16;
    let y = p.oam[base + 1] as u16;
    let tile = p.oam[base + 2] as u16;
    let attr = p.oam[base + 3];
    let x_high: u16 = if n < 128 {
        let ext_addr = 256 + (n >> 2u8) as int;
        let shift = (n & 3) << 1u8;
        ((p.oam[ext_addr] >> shift) & 0x03) as u16
    } else {
        0
    };
    SpriteEntry {
        x: x_low | (x_high << 8u16),
        y,
        tile,
        priority: (attr >> 5u8) & 0x03,
        palette: (attr >> 1u8) & 0x07,
        flip_h: (attr & 0x40) != 0,
        flip_v: (attr & 0x80) != 0,
    }
}

/// Object width and height in pixels for an object size selector.
pub open spec fn sprite_size_of(obj_size: u8) -> u16 {
    if obj_size == 1 || obj_size == 4 || obj_size == 7 {
        16
    } else if obj_size == 2 || obj_size == 5 || obj_size == 6 {
        32
    } else if obj_size == 3 {
        64
    } else {
        8
    }
}

/// Pixel (`px`, `py`) of an object: 4 bits per pixel from the object tiles at
/// `obj_addr`, flipped as the attributes say; an opaque pixel gives a palette
/// index from 128 on.
pub open spec fn sprite_pixel(p: PpuView, s: SpriteEntry, px: u16, py: u16) -> (bool, u8) {
    let size = sprite_size_of(p.control.obj_size);
    if px >= size || py >= size {
        (false, 0)
    } else {
        let pixel_x: u16 = if s.flip_h { (size - 1 - px) as u16 } else { px };
        let pixel_y: u16 = if s.flip_v { (size - 1 - py) as u16 } else { py };
        let tile_offset = (pixel_y / 8) * (size / 8) + pixel_x / 8;
        let tile_num = s.tile + tile_offset;
        let tile_addr = p.control.obj_addr + tile_num * 16;
        let in_x: u16 = pixel_x % 8;
        let in_y: u16 = pixel_y % 8;
        let byte_offset = in_y * 4 + (in_x >> 1u16);
        let bit_offset: u16 = (in_x & 0x01) << 2u16;
        let tile_data = p.vram[tile_addr + byte_offset];
        let pixel: u8 = (tile_data >> bit_offset) & 0x0F;
        if pixel != 0 {
            (true, (128 + s.palette * 16 + pixel) as u8)
        } else {
            (false, 0)
        }
    }
}

/// Tile map entry of background `bg` at map cell (`map_x % 32`, `map_y % 32`):
/// tile number (low 8 bits), horizontal and vertical flip, palette.
pub open spec fn bg_tile(p: PpuView, bg: int, map_x: u16, map_y: u16) -> (u8, bool, bool, u8) {
    let ctrl = p.bg_control[bg];
    let mx: u16 = map_x & 0x1F;
    let my: u16 = map_y & 0x1F;
    let map_addr = ctrl.map_addr + my * 32 + mx;
    let lo = p.vram[map_addr];
    let hi = p.vram[map_addr + 1];
    let tile_num: u16 = (((hi as u16) & 0x03) << 8u16) | (lo as u16);
    (tile_num as u8, (hi & 0x40) != 0, (hi & 0x80) != 0, (hi >> 2u8) & 0x07)
}

/// Mode 0: four 2-bit-per-pixel layers of 8x8 tiles.
pub open spec fn bg_pixel_mode0(p: PpuView, bg: u8, x: u16, y: u16) -> (u8, bool) {
    let ctrl = p.bg_control[bg as int];
    let t = bg_tile(p, bg as int, (x >> 3u16) & 0x1F, (y >> 3u16) & 0x1F);
    let in_x: u16 = x & 0x07;
    let in_y: u16 = y & 0x07;
    let tile_addr = ctrl.tile_addr + (t.0 as u16) * 16;
    let px: u16 = if t.1 { (7 - in_x) as u16 } else { in_x };
    let py: u16 = if t.2 { (7 - in_y) as u16 } else { in_y };
    let byte_offset = py * 2 + (px >> 2u16);
    let bit_offset: u16 = (px & 0x03) << 1u16;
    let data = p.vram[tile_addr + byte_offset];
    let pixel: u8 = (data >> bit_offset) & 0x03;
    let idx: u16 = ((t.3 as u16) << 2u16) | (pixel as u16);
    (idx as u8, pixel != 0)
}

/// Mode 1: three 4-bit-per-pixel layers of 8x8 tiles.
pub open spec fn bg_pixel_mode1(p: PpuView, bg: u8, x: u16, y: u16) -> (u8, bool) {
    if bg >= 3 {
        (0, false)
    } else {
        let ctrl = p.bg_control[bg as int];
        let t = bg_tile(p, bg as int, (x >> 3u16) & 0x1F, (y >> 3u16) & 0x1F);
        let in_x: u16 = x & 0x07;
        let in_y: u16 = y & 0x07;
        let tile_addr = ctrl.tile_addr + (t.0 as u16) * 32;
        let px: u16 = if t.1 { (7 - in_x) as u16 } else { in_x };
        let py: u16 = if t.2 { (7 - in_y) as u16 } else { in_y };
        let byte_offset = py * 4 + (px >> 1u16);
        let bit_offset: u16 = if px & 1 == 0 { 0 } else { 4 };
        let data = p.vram[tile_addr + byte_offset];
        let pixel: u8 = (data >> bit_offset) & 0x0F;
        let idx: u16 = ((t.3 as u16) << 4u16) | (pixel as u16);
        (idx as u8, pixel != 0)
    }
}

/// Mode 3: one 8-bit-per-pixel layer of 8x8 tiles (background 0 only).
pub open spec fn bg_pixel_mode3(p: PpuView, bg: u8, x: u16, y: u16) -> (u8, bool) {
    if bg != 0 {
        (0, false)
    } else {
        let ctrl = p.bg_control[0];
        let t = bg_tile(p, 0, (x >> 3u16) & 0x1F, (y >> 3u16) & 0x1F);
        let in_x: u16 = x & 0x07;
        let in_y: u16 = y & 0x07;
        let tile_addr = ctrl.tile_addr + (t.0 as u16) * 64;
        let px: u16 = if t.1 { (7 - in_x) as u16 } else { in_x };
        let py: u16 = if t.2 { (7 - in_y) as u16 } else { in_y };
        let pixel = p.vram[tile_addr + py * 8 + px];
        (pixel, pixel != 0)
    }
}

/// Mode 4: background 0 as in mode 3, background 1 as in mode 1.
pub open spec fn bg_pixel_mode4(p: PpuView, bg: u8, x: u16, y: u16) -> (u8, bool) {
    if bg == 0 {
        bg_pixel_mode3(p, 0, x, y)
    } else if bg == 1 {
        bg_pixel_mode1(p, 1, x, y)
    } else {
        (0, false)
    }
}

/// Mode 5: background 0 at 4 and background 1 at 2 bits per pixel, with 8x8
/// or 16x16 tiles and a 64-cell wide map index.
pub open spec fn bg_pixel_mode5(p: PpuView, bg: u8, x: u16, y: u16) -> (u8, bool) {
    if bg >= 2 {
        (0, false)
    } else {
        let ctrl = p.bg_control[bg as int];
        let tile_size: u16 = if ctrl.tile_size { 16 } else { 8 };
        let tile_shift: u16 = if ctrl.tile_size { 4 } else { 3 };
        let tile_mask: u16 = if ctrl.tile_size { 0x0F } else { 0x07 };
        let t = bg_tile(p, bg as int, (x >> tile_shift) & 0x3F, (y >> tile_shift) & 0x1F);
        let in_x: u16 = x & tile_mask;
        let in_y: u16 = y & tile_mask;
        let tile_bytes: u16 = if bg == 0 { 32 } else { 16 };
        let tile_addr = ctrl.tile_addr + (t.0 as u16) * tile_bytes;
        let px: u16 = if t.1 { (tile_size - 1 - in_x) as u16 } else { in_x };
        let py: u16 = if t.2 { (tile_size - 1 - in_y) as u16 } else { in_y };
        if bg == 0 {
            let byte_offset = py * (tile_size / 2) + (px >> 1u16);
            let bit_offset: u16 = if px & 1 == 0 { 0 } else { 4 };
            let pixel: u8 = (p.vram[tile_addr + byte_offset] >> bit_offset) & 0x0F;
            let idx: u16 = ((t.3 as u16) << 4u16) | (pixel as u16);
            (idx as u8, pixel != 0)
        } else {
            let byte_offset = py * (tile_size / 4) + (px >> 2u16);
            let bit_offset: u16 = (px & 0x03) << 1u16;
            let pixel: u8 = (p.vram[tile_addr + byte_offset] >> bit_offset) & 0x03;
            let idx: u16 = ((t.3 as u16) << 2u16) | (pixel as u16);
            (idx as u8, pixel != 0)
        }
    }
}

/// Mode 7 without transformation: background 0 as a 16x16-cell map of
/// 8-bit-per-pixel tiles.
pub open spec fn bg_pixel_mode7(p: PpuView, bg: u8, x: u16, y: u16) -> (u8, bool) {
    if bg != 0 {
        (0, false)
    } else {
        let ctrl = p.bg_control[0];
        let t = bg_tile(p, 0, (x >> 3u16) & 0x0F, (y >> 3u16) & 0x0F);
        let in_x: u16 = x & 0x07;
        let in_y: u16 = y & 0x07;
        let tile_addr = ctrl.tile_addr + (t.0 as u16) * 64;
        let px: u16 = if t.1 { (7 - in_x) as u16 } else { in_x };
        let py: u16 = if t.2 { (7 - in_y) as u16 } else { in_y };
        let pixel = p.vram[tile_addr + py * 8 + px];
        (pixel, pixel != 0)
    }
}

/// Palette index and opacity of background `bg` at (`x`, `y`) in the current mode.
pub open spec fn bg_pixel(p: PpuView, bg: u8, x: u16, y: u16) -> (u8, bool) {
    if p.bg_mode == 0 {
        bg_pixel_mode0(p, bg, x, y)
    } else if p.bg_mode == 1 || p.bg_mode == 2 {
        bg_pixel_mode1(p, bg, x, y)
    } else if p.bg_mode == 3 {
        bg_pixel_mode3(p, bg, x, y)
    } else if p.bg_mode == 4 {
        bg_pixel_mode4(p, bg, x, y)
    } else if p.bg_mode == 5 || p.bg_mode == 6 {
        bg_pixel_mode5(p, bg, x, y)
    } else if p.bg_mode == 7 {
        bg_pixel_mode7(p, bg, x, y)
    } else {
        (0, false)
    }
}

/// Whether object `n` covers the current scanline (Y position plus one, modulo 256).
pub open spec fn sprite_on_line(p: PpuView, n: u8) -> bool {
    let s = sprite_of(p, n);
    let size = sprite_size_of(p.control.obj_size);
    let top: u16 = ((s.y + 1) % 65536) as u16 & 0xFF;
    let bottom: u16 = ((top + size) % 65536) as u16;
    p.scanline >= top && p.scanline < bottom
}

/// The objects on the current scanline among the first `n`, in OAM order, at
/// most 32 of them.
pub open spec fn sprites_on_line(p: PpuView, n: nat) -> Seq<SpriteEntry>
    decreases n,
{
    if n == 0 {
        Seq::empty()
    } else {
        let prev = sprites_on_line(p, (n - 1) as nat);
        if prev.len() >= 32 {
            prev
        } else if sprite_on_line(p, (n - 1) as u8) {
            prev.push(sprite_of(p, (n - 1) as u8))
        } else {
            prev
        }
    }
}

/// Palette index of the first opaque background among `bg`..3 at screen
/// column `x` of the current scanline, after scrolling.
pub open spec fn bg_hit(p: PpuView, x: u16, bg: nat) -> Option<u8>
    decreases 4 - bg,
{
    if bg >= 4 {
        None
    } else {
        let by = (p.scanline + p.bg_offset[bg as int].y) as u16;
        let bx = (x + p.bg_offset[bg as int].x) as u16;
        let px = bg_pixel(p, bg as u8, bx, by);
        if px.1 {
            Some(px.0)
        } else {
            bg_hit(p, x, bg + 1)
        }
    }
}

/// Whether an object of priority `priority` shows over the background: 3
/// always, 2 over an absent or priority-0 background, 0-1 only where no
/// background is opaque.
pub open spec fn sprite_shows(priority: u8, has_bg: bool, bg_priority: u8) -> bool {
    if priority == 3 {
        true
    } else if priority == 2 {
        !has_bg || bg_priority == 0
    } else {
        !has_bg
    }
}

/// Colour from the objects `sprites[k-1]`, ..., `sprites[0]` (in that order)
/// at screen column `x`: the first one with an opaque pixel that shows over
/// the background.
pub open spec fn sprite_hit(p: PpuView, sprites: Seq<SpriteEntry>, x: u16, k: nat, has_bg: bool, bg_priority: u8) -> Option<u32>
    decreases k,
{
    if k == 0 {
        None
    } else {
        let s = sprites[k - 1];
        let size = sprite_size_of(p.control.obj_size);
        let sx = s.x - 128;
        let in_range = sx <= x && x < sx + size;
        let top = (s.y + 1) % 65536;
        let py = (p.scanline - top) as u16;
        let pxl = (x - sx) as u16;
        let sp = sprite_pixel(p, s, pxl, py);
        if in_range && sp.0 && sprite_shows(s.priority, has_bg, bg_priority) {
            Some(palette_color(p.cgram, sp.1 as u16))
        } else {
            sprite_hit(p, sprites, x, (k - 1) as nat, has_bg, bg_priority)
        }
    }
}

/// Colour of column `x` of the current scanline: the first opaque background
/// (black backdrop otherwise), overdrawn by the objects on the line.
pub open spec fn pixel_color(p: PpuView, x: u16) -> u32 {
    let sprites = sprites_on_line(p, 128);
    let bgh = bg_hit(p, x, 0);
    let color: u32 = match bgh {
        Some(i) => palette_color(p.cgram, i as u16),
        None => 0xFF000000,
    };
    let has_bg = bgh is Some;
    let bg_priority: u8 = match bgh {
        Some(i) => (i >> 5u8) & 0x03,
        None => 0,
    };
    match sprite_hit(p, sprites, x, sprites.len(), has_bg, bg_priority) {
        Some(c) => c,
        None => color,
    }
}

/// Colour that the renderer gives column `x` of the current scanline: black
/// under forced blank, the composed background and object colour otherwise.
pub open spec fn rendered_pixel(p: PpuView, x: int) -> u32 {
    if p.control.forced_blank {
        0xFF000000
    } else {
        pixel_color(p, x as u16)
    }
}

proof fn lemma_active_sprites_full(p: PpuView, n: nat, m: nat)
    requires
        n <= m,
        sprites_on_line(p, n).len() >= 32,
    ensures
        sprites_on_line(p, m) == sprites_on_line(p, n),
    decreases m - n,
{
    if n < m {
        lemma_active_sprites_full(p, n, (m - 1) as nat);
    }
}

proof fn lemma_sprite_of_ok(p: PpuView, n: u8)
    requires
        ppu_wf(p),
        n < 136,
    ensures
        sprite_ok(sprite_of(p, n)),
{
    lemma_shift_mask_bounds();
    let attr = p.oam[n as int * 4 + 3];
    let x_low = p.oam[n as int * 4] as u16;
    let x_high: u16 = if n < 128 {
        let ext_addr = 256 + (n >> 2u8) as int;
        let shift = (n & 3) << 1u8;
        ((p.oam[ext_addr] >> shift) & 0x03) as u16
    } else {
        0
    };
    assert(x_high <= 3);
    assert((x_low | (x_high << 8u16)) <= 0x3FF) by (bit_vector)
        requires
            x_low <= 0xFF,
            x_high <= 3,
    ;
    assert((attr >> 5u8) & 0x03 <= 3);
    assert((attr >> 1u8) & 0x07 <= 7);
}

impl PPU {
    /// Decode object `sprite_num` from OAM.
    fn parse_oam_entry(&self, sprite_num: u8) -> (r: SpriteEntry)
        requires
            ppu_wf(self@),
            sprite_num < 136,
        ensures
            r == sprite_of(self@, sprite_num),
            sprite_ok(r),
    {
        proof {
            lemma_sprite_of_ok(self@, sprite_num);
            lemma_shift_mask_bounds();
        }
        let base_addr = sprite_num as usize * 4;
        let x_low = self.oam[base_addr] as u16;
        let y = self.oam[base_addr + 1] as u16;
        let tile = self.oam[base_addr + 2] as u16;
        let attr = self.oam[base_addr + 3];
        let x_high: u16 = if sprite_num < 128 {
            let ext_addr = 256 + (sprite_num >> 2u8) as usize;
            let shift = (sprite_num & 3) << 1u8;
            ((self.oam[ext_addr] >> shift) & 0x03) as u16
        } else {
            0
        };
        SpriteEntry {
            x: x_low | (x_high << 8u16),
            y,
            tile,
            priority: (attr >> 5u8) & 0x03,
            palette: (attr >> 1u8) & 0x07,
            flip_h: (attr & 0x40) != 0,
            flip_v: (attr & 0x80) != 0,
        }
    }

    /// Object width in pixels for the current object size selector.
    fn get_sprite_size(&self) -> (r: u16)
        ensures
            r == sprite_size_of(self.control.obj_size),
    {
        match self.control.obj_size {
            0 => 8,
            1 => 16,
            2 => 32,
            3 => 64,
            4 => 16,
            5 => 32,
            6 => 32,
            7 => 16,
            _ => 8,
        }
    }

    /// Pixel (`pix_x`, `pix_y`) of an object: whether it is opaque and its palette index.
    fn get_sprite_pixel(&self, sprite: &SpriteEntry, pix_x: u16, pix_y: u16) -> (r: (bool, u8))
        requires
            ppu_wf(self@),
            sprite_ok(*sprite),
        ensures
            r == sprite_pixel(self@, *sprite, pix_x, pix_y),
    {
        proof {
            lemma_shift_mask_bounds();
        }
        let sprite_size = self.get_sprite_size();
        if pix_x >= sprite_size || pix_y >= sprite_size {
            return (false, 0);
        }
        let mut pixel_x = pix_x;
        let mut pixel_y = pix_y;
        if sprite.flip_h {
            pixel_x = sprite_size - 1 - pixel_x;
        }
        if sprite.flip_v {
            pixel_y = sprite_size - 1 - pixel_y;
        }
        let tiles_per_row = sprite_size / 8;
        let tile_x = pixel_x / 8;
        let tile_y = pixel_y / 8;
        assert(tile_y * tiles_per_row <= 56) by (nonlinear_arith)
            requires
                tile_y <= 7,
                tiles_per_row <= 8,
        ;
        let tile_offset = tile_y * tiles_per_row + tile_x;
        let tile_num = sprite.tile + tile_offset;
        let tile_addr = self.control.obj_addr + (tile_num * 16);
        let pix_in_tile_x = pixel_x % 8;
        let pix_in_tile_y = pixel_y % 8;
        let byte_offset = pix_in_tile_y * 4 + (pix_in_tile_x >> 1u16);
        let bit_offset: u16 = (pix_in_tile_x & 0x01) << 2u16;
        let tile_data = self.vram[(tile_addr + byte_offset) as usize];
        let pixel: u8 = (tile_data >> bit_offset) & 0x0F;
        if pixel != 0 {
            let palette_idx: u16 = 128 + (sprite.palette * 16) as u16 + pixel as u16;
            (true, palette_idx as u8)
        } else {
            (false, 0)
        }
    }

    /// Tile map entry of background `bg` at map cell (`map_x % 32`, `map_y % 32`).
    fn get_bg_tile(&self, bg: u8, map_x: u16, map_y: u16) -> (r: (u8, bool, bool, u8))
        requires
            ppu_wf(self@),
            bg < 4,
        ensures
            r == bg_tile(self@, bg as int, map_x, map_y),
    {
        proof {
            lemma_shift_mask_bounds();
        }
        let bg_ctrl = self.bg_control[bg as usize];
        let map_x = map_x & 0x1F;
        let map_y = map_y & 0x1F;
        let map_addr = bg_ctrl.map_addr + map_y * 32 + map_x;
        let tile_entry_low = self.vram[map_addr as usize];
        let tile_entry_high = self.vram[(map_addr + 1) as usize];
        let tile_num: u16 = (((tile_entry_high as u16) & 0x03) << 8u16) | (tile_entry_low as u16);
        let palette = (tile_entry_high >> 2u8) & 0x07;
        let flip_h = (tile_entry_high & 0x40) != 0;
        let flip_v = (tile_entry_high & 0x80) != 0;
        (tile_num as u8, flip_h, flip_v, palette)
    }

    /// Palette index and opacity of background `bg` at (`pix_x`, `pix_y`) in the current mode.
    fn get_bg_pixel(&self, bg: u8, pix_x: u16, pix_y: u16) -> (r: (u8, bool))
        requires
            ppu_wf(self@),
            bg < 4,
        ensures
            r == bg_pixel(self@, bg, pix_x, pix_y),
    {
        match self.bg_mode {
            0 => self.get_bg_pixel_mode0(bg, pix_x, pix_y),
            1 => self.get_bg_pixel_mode1(bg, pix_x, pix_y),
            2 => self.get_bg_pixel_mode2(bg, pix_x, pix_y),
            3 => self.get_bg_pixel_mode3(bg, pix_x, pix_y),
            4 => self.get_bg_pixel_mode4(bg, pix_x, pix_y),
            5 => self.get_bg_pixel_mode5(bg, pix_x, pix_y),
            6 => self.get_bg_pixel_mode6(bg, pix_x, pix_y),
            7 => self.get_bg_pixel_mode7(bg, pix_x, pix_y),
            _ => (0, false),
        }
    }

    /// Mode 0: 2 bits per pixel.
    fn get_bg_pixel_mode0(&self, bg: u8, pix_x: u16, pix_y: u16) -> (r: (u8, bool))
        requires
            ppu_wf(self@),
            bg < 4,
        ensures
            r == bg_pixel_mode0(self@, bg, pix_x, pix_y),
    {
        proof {
            lemma_shift_mask_bounds();
        }
        let bg_ctrl = self.bg_control[bg as usize];
        let tile_x = (pix_x >> 3u16) & 0x1F;
        let tile_y = (pix_y >> 3u16) & 0x1F;
        let in_tile_x = pix_x & 0x07;
        let in_tile_y = pix_y & 0x07;
        let (tile_num, flip_h, flip_v, palette) = self.get_bg_tile(bg, tile_x, tile_y);
        let tile_addr = bg_ctrl.tile_addr + (tile_num as u16 * 16);
        let mut pix_x_in_tile = in_tile_x;
        let mut pix_y_in_tile = in_tile_y;
        if flip_h {
            pix_x_in_tile = 7 - pix_x_in_tile;
        }
        if flip_v {
            pix_y_in_tile = 7 - pix_y_in_tile;
        }
        let byte_offset = pix_y_in_tile * 2 + (pix_x_in_tile >> 2u16);
        let bit_offset: u16 = (pix_x_in_tile & 0x03) << 1u16;
        let tile_data = self.vram[(tile_addr + byte_offset) as usize];
        let pixel: u8 = (tile_data >> bit_offset) & 0x03;
        let palette_idx: u16 = ((palette as u16) << 2u16) | (pixel as u16);
        (palette_idx as u8, pixel != 0)
    }

    /// Mode 1: 4 bits per pixel, three backgrounds.
    fn get_bg_pixel_mode1(&self, bg: u8, pix_x: u16, pix_y: u16) -> (r: (u8, bool))
        requires
            ppu_wf(self@),
        ensures
            r == bg_pixel_mode1(self@, bg, pix_x, pix_y),
    {
        proof {
            lemma_shift_mask_bounds();
        }
        if bg >= 3 {
            return (0, false);
        }
        let bg_ctrl = self.bg_control[bg as usize];
        let tile_x = (pix_x >> 3u16) & 0x1F;
        let tile_y = (pix_y >> 3u16) & 0x1F;
        let in_tile_x = pix_x & 0x07;
        let in_tile_y = pix_y & 0x07;
        let (tile_num, flip_h, flip_v, palette) = self.get_bg_tile(bg, tile_x, tile_y);
        let tile_addr = bg_ctrl.tile_addr + (tile_num as u16 * 32);
        let mut pix_x_in_tile = in_tile_x;
        let mut pix_y_in_tile = in_tile_y;
        if flip_h {
            pix_x_in_tile = 7 - pix_x_in_tile;
        }
        if flip_v {
            pix_y_in_tile = 7 - pix_y_in_tile;
        }
        let byte_offset = pix_y_in_tile * 4 + (pix_x_in_tile >> 1u16);
        let bit_offset: u16 = if pix_x_in_tile & 1 == 0 { 0 } else { 4 };
        let tile_data = self.vram[(tile_addr + byte_offset) as usize];
        let pixel: u8 = (tile_data >> bit_offset) & 0x0F;
        let palette_idx: u16 = ((palette as u16) << 4u16) | (pixel as u16);
        (palette_idx as u8, pixel != 0)
    }

    /// Mode 2: drawn as mode 1 (no offset-per-tile).
    fn get_bg_pixel_mode2(&self, bg: u8, pix_x: u16, pix_y: u16) -> (r: (u8, bool))
        requires
            ppu_wf(self@),
        ensures
            r == bg_pixel_mode1(self@, bg, pix_x, pix_y),
    {
        self.get_bg_pixel_mode1(bg, pix_x, pix_y)
    }

    /// Mode 3: 8 bits per pixel, background 0 only.
    fn get_bg_pixel_mode3(&self, bg: u8, pix_x: u16, pix_y: u16) -> (r: (u8, bool))
        requires
            ppu_wf(self@),
        ensures
            r == bg_pixel_mode3(self@, bg, pix_x, pix_y),
    {
        proof {
            lemma_shift_mask_bounds();
        }
        if bg != 0 {
            return (0, false);
        }
        let bg_ctrl = self.bg_control[0];
        let tile_x = (pix_x >> 3u16) & 0x1F;
        let tile_y = (pix_y >> 3u16) & 0x1F;
        let in_tile_x = pix_x & 0x07;
        let in_tile_y = pix_y & 0x07;
        let (tile_num, flip_h, flip_v, _palette) = self.get_bg_tile(0, tile_x, tile_y);
        let tile_addr = bg_ctrl.tile_addr + (tile_num as u16 * 64);
        let mut pix_x_in_tile = in_tile_x;
        let mut pix_y_in_tile = in_tile_y;
        if flip_h {
            pix_x_in_tile = 7 - pix_x_in_tile;
        }
        if flip_v {
            pix_y_in_tile = 7 - pix_y_in_tile;
        }
        let byte_offset = pix_y_in_tile * 8 + pix_x_in_tile;
        let pixel = self.vram[(tile_addr + byte_offset) as usize];
        (pixel, pixel != 0)
    }

    /// Mode 4: background 0 as mode 3, background 1 as mode 1.
    fn get_bg_pixel_mode4(&self, bg: u8, pix_x: u16, pix_y: u16) -> (r: (u8, bool))
        requires
            ppu_wf(self@),
        ensures
            r == bg_pixel_mode4(self@, bg, pix_x, pix_y),
    {
        match bg {
            0 => self.get_bg_pixel_mode3(0, pix_x, pix_y),
            1 => self.get_bg_pixel_mode1(1, pix_x, pix_y),
            _ => (0, false),
        }
    }

    /// Mode 5: 4 and 2 bits per pixel, 8x8 or 16x16 tiles.
    fn get_bg_pixel_mode5(&self, bg: u8, pix_x: u16, pix_y: u16) -> (r: (u8, bool))
        requires
            ppu_wf(self@),
        ensures
            r == bg_pixel_mode5(self@, bg, pix_x, pix_y),
    {
        proof {
            lemma_shift_mask_bounds();
        }
        if bg >= 2 {
            return (0, false);
        }
        let bg_ctrl = self.bg_control[bg as usize];
        let tile_size: u16 = if bg_ctrl.tile_size { 16 } else { 8 };
        let tile_shift: u16 = if bg_ctrl.tile_size { 4 } else { 3 };
        let tile_mask: u16 = if bg_ctrl.tile_size { 0x0F } else { 0x07 };
        let tile_x = (pix_x >> tile_shift) & 0x3F;
        let tile_y = (pix_y >> tile_shift) & 0x1F;
        let in_tile_x = pix_x & tile_mask;
        let in_tile_y = pix_y & tile_mask;
        let (tile_num, flip_h, flip_v, palette) = self.get_bg_tile(bg, tile_x, tile_y);
        let tile_size_bytes: u16 = if bg == 0 { 32 } else { 16 };
        let tile_addr = bg_ctrl.tile_addr + (tile_num as u16 * tile_size_bytes);
        let mut pix_x_in_tile = in_tile_x;
        let mut pix_y_in_tile = in_tile_y;
        if flip_h {
            pix_x_in_tile = (tile_size - 1) - pix_x_in_tile;
        }
        if flip_v {
            pix_y_in_tile = (tile_size - 1) - pix_y_in_tile;
        }
        if bg == 0 {
            assert(pix_y_in_tile * (tile_size / 2) <= 120) by (nonlinear_arith)
                requires
                    pix_y_in_tile <= 15,
                    tile_size <= 16,
            ;
            let byte_offset = pix_y_in_tile * (tile_size / 2) + (pix_x_in_tile >> 1u16);
            let bit_offset: u16 = if pix_x_in_tile & 1 == 0 { 0 } else { 4 };
            let tile_data = self.vram[(tile_addr + byte_offset) as usize];
            let pixel: u8 = (tile_data >> bit_offset) & 0x0F;
            let palette_idx: u16 = ((palette as u16) << 4u16) | (pixel as u16);
            (palette_idx as u8, pixel != 0)
        } else {
            assert(pix_y_in_tile * (tile_size / 4) <= 60) by (nonlinear_arith)
                requires
                    pix_y_in_tile <= 15,
                    tile_size <= 16,
            ;
            let byte_offset = pix_y_in_tile * (tile_size / 4) + (pix_x_in_tile >> 2u16);
            let bit_offset: u16 = (pix_x_in_tile & 0x03) << 1u16;
            let tile_data = self.vram[(tile_addr + byte_offset) as usize];
            let pixel: u8 = (tile_data >> bit_offset) & 0x03;
            let palette_idx: u16 = ((palette as u16) << 2u16) | (pixel as u16);
            (palette_idx as u8, pixel != 0)
        }
    }

    /// Mode 6: drawn as mode 5 (no offset-per-tile).
    fn get_bg_pixel_mode6(&self, bg: u8, pix_x: u16, pix_y: u16) -> (r: (u8, bool))
        requires
            ppu_wf(self@),
        ensures
            r == bg_pixel_mode5(self@, bg, pix_x, pix_y),
    {
        self.get_bg_pixel_mode5(bg, pix_x, pix_y)
    }

    /// Mode 7 without transformation: 8 bits per pixel on a 16x16-cell map.
    fn get_bg_pixel_mode7(&self, bg: u8, pix_x: u16, pix_y: u16) -> (r: (u8, bool))
        requires
            ppu_wf(self@),
        ensures
            r == bg_pixel_mode7(self@, bg, pix_x, pix_y),
    {
        proof {
            lemma_shift_mask_bounds();
        }
        if bg != 0 {
            return (0, false);
        }
        let bg_ctrl = self.bg_control[0];
        let tile_x = (pix_x >> 3u16) & 0x0F;
        let tile_y = (pix_y >> 3u16) & 0x0F;
        let in_tile_x = pix_x & 0x07;
        let in_tile_y = pix_y & 0x07;
        let (tile_num, flip_h, flip_v, _palette) = self.get_bg_tile(0, tile_x, tile_y);
        let tile_addr = bg_ctrl.tile_addr + (tile_num as u16 * 64);
        let mut pix_x_in_tile = in_tile_x;
        let mut pix_y_in_tile = in_tile_y;
        if flip_h {
            pix_x_in_tile = 7 - pix_x_in_tile;
        }
        if flip_v {
            pix_y_in_tile = 7 - pix_y_in_tile;
        }
        let byte_offset = pix_y_in_tile * 8 + pix_x_in_tile;
        let pixel = self.vram[(tile_addr + byte_offset) as usize];
        (pixel, pixel != 0)
    }

    /// Palette index of the first opaque background at column `x` of the current scanline.
    fn background_layer(&self, x: u16) -> (r: Option<u8>)
        requires
            ppu_wf(self@),
            self.scanline < 224,
            x < 256,
        ensures
            r == bg_hit(self@, x, 0),
    {
        let y = self.scanline;
        let mut bg: u8 = 0;
        while bg < 4
            invariant
                bg <= 4,
                ppu_wf(self@),
                y == self.scanline,
                y < 224,
                x < 256,
                bg_hit(self@, x, 0) == bg_hit(self@, x, bg as nat),
            decreases 4 - bg,
        {
            let bg_y = y + self.bg_offset[bg as usize].y;
            let bg_x = x + self.bg_offset[bg as usize].x;
            let (palette_idx, is_opaque) = self.get_bg_pixel(bg, bg_x, bg_y);
            if is_opaque {
                return Some(palette_idx);
            }
            bg = bg + 1;
        }
        None
    }

    /// Colour from the objects on the line at column `x`, scanning the list from its end.
    fn sprite_layer(&self, sprites: &Vec<SpriteEntry>, x: u16, has_bg: bool, bg_priority: u8) -> (r: Option<u32>)
        requires
            ppu_wf(self@),
            self.scanline < 224,
            x < 256,
            forall|i: int| 0 <= i < sprites@.len() ==> sprite_ok(#[trigger] sprites@[i]),
        ensures
            r == sprite_hit(self@, sprites@, x, sprites@.len(), has_bg, bg_priority),
    {
        let y = self.scanline;
        let sprite_size = self.get_sprite_size();
        let mut k = sprites.len();
        while k > 0
            invariant
                k <= sprites@.len(),
                ppu_wf(self@),
                y == self.scanline,
                y < 224,
                x < 256,
                sprite_size == sprite_size_of(self.control.obj_size),
                forall|i: int| 0 <= i < sprites@.len() ==> sprite_ok(#[trigger] sprites@[i]),
                sprite_hit(self@, sprites@, x, sprites@.len(), has_bg, bg_priority) == sprite_hit(
                    self@,
                    sprites@,
                    x,
                    k as nat,
                    has_bg,
                    bg_priority,
                ),
            decreases k,
        {
            let sprite = sprites[k - 1];
            let sprite_x = (sprite.x as i16) - 128;
            let sprite_x_end = sprite_x + sprite_size as i16;
            let pixel_x = x as i16;
            if pixel_x >= sprite_x && pixel_x < sprite_x_end {
                let sprite_y_wrapped = sprite.y.wrapping_add(1) as i16;
                let pix_y = (y as i16 - sprite_y_wrapped) as u16;
                let pix_x = (pixel_x - sprite_x) as u16;
                let (opaque, palette_idx) = self.get_sprite_pixel(&sprite, pix_x, pix_y);
                if opaque {
                    let sprite_color = self.get_color(palette_idx as u16);
                    let sprite_priority = sprite.priority;
                    let render_sprite = if sprite_priority == 3 {
                        true
                    } else if sprite_priority == 2 {
                        !has_bg || bg_priority == 0
                    } else {
                        !has_bg
                    };
                    if render_sprite {
                        return Some(sprite_color);
                    }
                }
            }
            k = k - 1;
        }
        None
    }

    /// Render the current scanline into the framebuffer: black under forced
    /// blank; otherwise, per column, the first opaque background layer (black
    /// backdrop otherwise) overdrawn by the first of up to 32 objects on the
    /// line, scanned from the last found, whose opaque pixel shows over it.
    pub fn render_scanline(&mut self)
        requires
            ppu_wf(old(self)@),
            old(self).scanline < 224,
        ensures
            final(self)@ == (PpuView { framebuffer: final(self)@.framebuffer, ..old(self)@ }),
            final(self)@.framebuffer.len() == FRAME_PIXELS,
            forall|i: int|
                0 <= i < FRAME_PIXELS && !(old(self).scanline * 256 <= i < old(self).scanline * 256 + 256)
                    ==> #[trigger] final(self)@.framebuffer[i] == old(self)@.framebuffer[i],
            forall|x: int|
                0 <= x < 256 ==> #[trigger] final(self)@.framebuffer[old(self).scanline * 256 + x]
                    == rendered_pixel(old(self)@, x),
    {
        let y = self.scanline;
        let mut row: Vec<u32> = Vec::new();
        if self.control.forced_blank {
            while row.len() < 256
                invariant
                    row@.len() <= 256,
                    forall|i: int| 0 <= i < row@.len() ==> #[trigger] row@[i] == rendered_pixel(self@, i),
                    self.control.forced_blank,
                decreases 256 - row@.len(),
            {
                row.push(0xFF000000);
            }
        } else {
            let sprite_size = self.get_sprite_size();
            let mut active_sprites: Vec<SpriteEntry> = Vec::new();
            let mut sprite_num: u8 = 0;
            while sprite_num < 128
                invariant_except_break
                    active_sprites@.len() < 32,
                invariant
                    sprite_num <= 128,
                    ppu_wf(self@),
                    y == self.scanline,
                    y < 224,
                    sprite_size == sprite_size_of(self.control.obj_size),
                    active_sprites@ == sprites_on_line(self@, sprite_num as nat),
                    forall|i: int| 0 <= i < active_sprites@.len() ==> sprite_ok(#[trigger] active_sprites@[i]),
                ensures
                    active_sprites@ == sprites_on_line(self@, 128),
                    forall|i: int| 0 <= i < active_sprites@.len() ==> sprite_ok(#[trigger] active_sprites@[i]),
                decreases 128 - sprite_num,
            {
                let sprite = self.parse_oam_entry(sprite_num);
                let sprite_y_wrapped = sprite.y.wrapping_add(1) & 0xFF;
                let sprite_end_y = sprite_y_wrapped.wrapping_add(sprite_size);
                if y >= sprite_y_wrapped && y < sprite_end_y {
                    active_sprites.push(sprite);
                }
                sprite_num = sprite_num + 1;
                if active_sprites.len() >= 32 {
                    proof {
                        lemma_active_sprites_full(self@, sprite_num as nat, 128);
                    }
                    break;
                }
            }
            let mut x: u16 = 0;
            while x < 256
                invariant
                    x <= 256,
                    row@.len() == x,
                    ppu_wf(self@),
                    y == self.scanline,
                    y < 224,
                    !self.control.forced_blank,
                    active_sprites@ == sprites_on_line(self@, 128),
                    forall|i: int| 0 <= i < active_sprites@.len() ==> sprite_ok(#[trigger] active_sprites@[i]),
                    forall|i: int| 0 <= i < row@.len() ==> #[trigger] row@[i] == rendered_pixel(self@, i),
                decreases 256 - x,
            {
                let bgh = self.background_layer(x);
                let (color, has_bg, bg_priority) = match bgh {
                    Some(palette_idx) => (self.get_color(palette_idx as u16), true, (palette_idx >> 5u8) & 0x03),
                    None => (0xFF000000u32, false, 0u8),
                };
                let c = match self.sprite_layer(&active_sprites, x, has_bg, bg_priority) {
                    Some(sc) => sc,
                    None => color,
                };
                row.push(c);
                x = x + 1;
            }
        }
        let base = y as usize * 256;
        let ghost p0 = self@;
        let mut i: usize = 0;
        while i < 256
            invariant
                i <= 256,
                row@.len() == 256,
                base == p0.scanline * 256,
                p0.scanline < 224,
                self@ == (PpuView { framebuffer: self@.framebuffer, ..p0 }),
                self@.framebuffer.len() == FRAME_PIXELS,
                forall|j: int| 0 <= j < row@.len() ==> #[trigger] row@[j] == rendered_pixel(p0, j),
                forall|j: int|
                    0 <= j < FRAME_PIXELS && !(base <= j < base + i) ==> #[trigger] self@.framebuffer[j] == p0.framebuffer[j],
                forall|j: int| 0 <= j < i ==> #[trigger] self@.framebuffer[base + j] == rendered_pixel(p0, j),
            decreases 256 - i,
        {
            self.framebuffer[base + i] = row[i];
            i = i + 1;
        }
    }
}

proof fn lemma_palette_opaque()
    ensures
        forall|cgram: Seq<u8>, idx: u16| #[trigger] palette_color(cgram, idx) >= 0xFF000000,
{
    reveal(palette_color);
}

proof fn lemma_sprite_hit_opaque(
    p: PpuView,
    sprites: Seq<SpriteEntry>,
    x: u16,
    k: nat,
    has_bg: bool,
    bg_priority: u8,
)
    ensures
        sprite_hit(p, sprites, x, k, has_bg, bg_priority) matches Some(c) ==> c >= 0xFF000000,
    decreases k,
{
    lemma_palette_opaque();
    if k > 0 {
        lemma_sprite_hit_opaque(p, sprites, x, (k - 1) as nat, has_bg, bg_priority);
    }
}

proof fn lemma_palette_index_fields(hi: u8, data: u8, bo: u16)
    by (bit_vector)
    ensures
        ((((((hi >> 2u8) & 0x07) as u16) << 4u16) | (((data >> bo) & 0x0F) as u16)) as u8) / 16u8
            == (hi >> 2u8) & 0x07,
        ((((((hi >> 2u8) & 0x07) as u16) << 4u16) | (((data >> bo) & 0x0F) as u16)) as u8) % 16u8
            == (data >> bo) & 0x0F,
        ((((((hi >> 2u8) & 0x07) as u16) << 2u16) | (((data >> bo) & 0x03) as u16)) as u8) / 4u8
            == (hi >> 2u8) & 0x07,
        ((((((hi >> 2u8) & 0x07) as u16) << 2u16) | (((data >> bo) & 0x03) as u16)) as u8) % 4u8
            == (data >> bo) & 0x03,
{
}

/// A background pixel's palette index combines the tile map entry's palette
/// with the tile's pixel value: in mode 1 (4 bits per pixel, backgrounds 0-2)
/// it is 16 times the palette plus the pixel, in mode 0 (2 bits per pixel) 4
/// times the palette plus the pixel; the pixel is opaque exactly when the
/// pixel value (the index's low bits) is not 0.
pub proof fn law_bg_palette_index(p: PpuView, bg: u8, x: u16, y: u16)
    ensures
        ({
            let t = bg_tile(p, bg as int, (x >> 3u16) & 0x1F, (y >> 3u16) & 0x1F);
            let r1 = bg_pixel_mode1(p, bg, x, y);
            let r0 = bg_pixel_mode0(p, bg, x, y);
            &&& bg < 3 ==> r1.0 / 16 == t.3 && (r1.1 <==> r1.0 % 16 != 0)
            &&& r0.0 / 4 == t.3 && (r0.1 <==> r0.0 % 4 != 0)
        }),
{
    let ctrl = p.bg_control[bg as int];
    let mx: u16 = ((x >> 3u16) & 0x1F) & 0x1F;
    let my: u16 = ((y >> 3u16) & 0x1F) & 0x1F;
    let hi = p.vram[ctrl.map_addr + my * 32 + mx + 1];
    let t = bg_tile(p, bg as int, (x >> 3u16) & 0x1F, (y >> 3u16) & 0x1F);
    let in_x: u16 = x & 0x07;
    let in_y: u16 = y & 0x07;
    let px: u16 = if t.1 { (7 - in_x) as u16 } else { in_x };
    let py: u16 = if t.2 { (7 - in_y) as u16 } else { in_y };
    let d1 = p.vram[ctrl.tile_addr + (t.0 as u16) * 32 + py * 4 + (px >> 1u16)];
    let b1: u16 = if px & 1 == 0 { 0 } else { 4 };
    lemma_palette_index_fields(hi, d1, b1);
    let d0 = p.vram[ctrl.tile_addr + (t.0 as u16) * 16 + py * 2 + (px >> 2u16)];
    let b0: u16 = (px & 0x03) << 1u16;
    lemma_palette_index_fields(hi, d0, b0);
}

proof fn lemma_nibble_bound()
    by (bit_vector)
    ensures
        forall|d: u8, b: u16| #[trigger] ((d >> b) & 0x0Fu8) <= 15u8,
{
}

/// An opaque object pixel's palette index is 128 + 16 times the object's
/// palette + the pixel's 4-bit value (never 0): objects use the upper half of
/// the palette, 16 colours per object palette.
pub proof fn law_sprite_palette_index(p: PpuView, s: SpriteEntry, px: u16, py: u16)
    requires
        s.palette <= 7,
    ensures
        ({
            let r = sprite_pixel(p, s, px, py);
            r.0 ==> r.1 >= 128 && (r.1 - 128) / 16 == s.palette && r.1 % 16 != 0
        }),
{
    lemma_nibble_bound();
}

/// Every rendered pixel is fully opaque: its alpha byte is 0xFF.
pub proof fn law_rendered_pixel_opaque(p: PpuView, x: int)
    ensures
        rendered_pixel(p, x) >= 0xFF000000,
{
    lemma_palette_opaque();
    let sprites = sprites_on_line(p, 128);
    let bgh = bg_hit(p, x as u16, 0);
    let has_bg = bgh is Some;
    let bg_priority: u8 = match bgh {
        Some(i) => (i >> 5u8) & 0x03,
        None => 0,
    };
    lemma_sprite_hit_opaque(p, sprites, x as u16, sprites.len(), has_bg, bg_priority);
}

/// Under forced blank every column of the scanline is black.
pub proof fn law_forced_blank_is_black(p: PpuView, x: int)
    requires
        p.control.forced_blank,
    ensures
        rendered_pixel(p, x) == 0xFF000000,
{
}

/// Every register write keeps the bounds the renderer relies on.
pub proof fn law_register_write_keeps_wf(p: PpuView, addr: u8, data: u8)
    requires
        ppu_wf(p),
    ensures
        ppu_wf(ppu_register_written(p, addr, data)),
{
    lemma_control_bounds(data);
}

/// One dot keeps the bounds the renderer relies on.
pub proof fn law_tick_keeps_wf(p: PpuView)
    requires
        ppu_wf(p),
    ensures
        ppu_wf(ticked(p)),
{
}

/// One dot keeps the timing invariant.
pub proof fn law_tick_keeps_timing(p: PpuView)
    requires
        timing_ok(p),
    ensures
        tick_defined(p),
        timing_ok(ticked(p)),
{
}

/// A palette byte written is read back at the same address.
pub proof fn law_cgram_round_trip(p: PpuView, addr: u16, data: u8)
    requires
        ppu_wf(p),
    ensures
        (PpuView { cgram: p.cgram.update((addr % 512) as int, data), ..p }).cgram[(addr % 512) as int] == data,
{
}

/// A byte written through the VRAM data port lands at the address that was
/// current, and the next access goes to the following address.
pub proof fn law_vram_port_write(p: PpuView, data: u8)
    requires
        ppu_wf(p),
    ensures
        ppu_register_written(p, 0x18, data).vram[p.vram_addr as int] == data,
        ppu_register_written(p, 0x18, data).vram_addr == vram_addr_after_step(p),
        ppu_register_value(
            PpuView { vram_addr: p.vram_addr, ..ppu_register_written(p, 0x18, data) },
            0x39,
        ) == data,
{
}

} // verus!
