//! The system bus: 128 KB of work RAM, the memory-mapped registers of the
//! picture processor, the CPU, DMA and the joypad, and the cartridge behind
//! them, decoded from a bank byte and a 16-bit address.
use vstd::prelude::*;
use crate::apu::{APU, ApuView, apu_power_on};
use crate::cart::{Cartridge, CartView, cart_access_defined, cart_read};
use crate::cpu::_65816;
use crate::dma::{
    DMAController,
    DMAChannel,
    DmaView,
    control_byte,
    control_written,
    channel_register,
    dma_register_value,
    dma_channels_written,
    dma_channel_of,
    dma_offset_of,
    in_dma_block,
    idle_channel,
};
use crate::input::{Input, serial_shift, strobe_written};
use crate::mapper::full_address;
use crate::ppu::{
    PPU,
    PpuView,
    ppu_register_value,
    ppu_register_written,
    ppu_power_on,
    ppu_wf,
    law_register_write_keeps_wf,
};

verus! {

/// Size of the work RAM in bytes.
pub const WRAM_SIZE: usize = 131072;

/// Work RAM, the units on the bus, and the CPU I/O registers 0x4200-0x420F.
pub struct Bus {
    /// 128 KB of work RAM.
    pub ram: Box<[u8; 131072]>,
    pub ppu: PPU,
    pub apu: APU,
    pub cart: Cartridge,
    pub input: Input,
    pub dma: DMAController,
    /// CPU I/O registers 0x4200-0x420F.
    pub cpu_io_registers: [u8; 16],
}

/// Everything on the bus as plain values.
#[verifier::ext_equal]
pub struct BusView {
    pub ram: Seq<u8>,
    pub ppu: PpuView,
    pub apu: ApuView,
    pub cart: CartView,
    pub input: Input,
    pub dma: DmaView,
    pub cpu_io: Seq<u8>,
}

impl View for Bus {
    type V = BusView;

    open spec fn view(&self) -> BusView {
        BusView {
            ram: self.ram@,
            ppu: self.ppu@,
            apu: self.apu@,
            cart: self.cart@,
            input: self.input,
            dma: self.dma@,
            cpu_io: self.cpu_io_registers@,
        }
    }
}

/// What a bank and address select.
pub enum MemRegion {
    /// Banks 00-3F and 80-BF, 0000-1FFF: the first 8 KB of work RAM.
    WramMirror,
    /// Banks 00-3F and 80-BF, 2100-21FF.
    PpuRegisters,
    /// Banks 00-3F and 80-BF, 4200-42FF.
    CpuRegisters,
    /// Banks 00-3F and 80-BF, 4300-437F.
    DmaRegisters,
    /// Banks 7E-7F: all of work RAM.
    Wram,
    /// The rest of banks 00-3F below 8000, banks 40-7D, the ROM half of
    /// banks 00-3F and 80-BF, and banks C0-FF.
    CartSpace,
    /// Nothing answers.
    Unmapped,
}

/// Banks 00-3F and their mirror 80-BF, where the system area is mapped.
pub open spec fn system_bank(bank: u8) -> bool {
    bank <= 0x3F || (0x80 <= bank && bank <= 0xBF)
}

/// The region an access to `bank:addr` reaches, the first match winning.
pub open spec fn region_of(bank: u8, addr: u16) -> MemRegion {
    if system_bank(bank) && addr <= 0x1FFF {
        MemRegion::WramMirror
    } else if system_bank(bank) && 0x2100 <= addr && addr <= 0x21FF {
        MemRegion::PpuRegisters
    } else if system_bank(bank) && 0x4200 <= addr && addr <= 0x42FF {
        MemRegion::CpuRegisters
    } else if system_bank(bank) && 0x4300 <= addr && addr <= 0x437F {
        MemRegion::DmaRegisters
    } else if 0x7E <= bank && bank <= 0x7F {
        MemRegion::Wram
    } else if (bank <= 0x3F && addr <= 0x7FFF) || (0x40 <= bank && bank <= 0x7D) || (system_bank(
        bank,
    ) && addr >= 0x8000) || bank >= 0xC0 {
        MemRegion::CartSpace
    } else {
        MemRegion::Unmapped
    }
}

/// Work RAM index of `bank:addr` in banks 7E-7F.
pub open spec fn wram_index(bank: u8, addr: u16) -> int {
    (bank - 0x7E) * 0x10000 + addr
}

/// H/V blank status byte 0x4212: bit 7 V-blank, bit 6 H-blank.
pub open spec fn blank_status(p: PpuView) -> u8 {
    let s0: u8 = if p.vblank { 0x80 } else { 0 };
    if p.hblank { s0 | 0x40 } else { s0 }
}

/// The byte read from CPU register `addr` (0x4200-0x42FF): the stored
/// register for 0x4200-0x420F, the blank flags at 0x4212, the next serial
/// joypad bit at 0x4217, the button mask at 0x4218-0x4219, 0 elsewhere.
pub open spec fn io_read_value(b: BusView, addr: u16) -> u8 {
    if 0x4200 <= addr && addr <= 0x420F {
        b.cpu_io[addr - 0x4200]
    } else if addr == 0x4212 {
        blank_status(b.ppu)
    } else if addr == 0x4217 {
        b.input.shift_register & 0x01
    } else if addr == 0x4218 || addr == 0x4219 {
        b.input.buttons
    } else {
        0
    }
}

/// The byte a read of `bank:addr` returns.
#[verifier::opaque]
pub open spec fn bus_read_value(b: BusView, bank: u8, addr: u16) -> u8 {
    match region_of(bank, addr) {
        MemRegion::WramMirror => b.ram[(addr % 0x2000) as int],
        MemRegion::PpuRegisters => ppu_register_value(b.ppu, (addr - 0x2100) as u8),
        MemRegion::CpuRegisters => io_read_value(b, addr),
        MemRegion::DmaRegisters => dma_register_value(b.dma.channels, addr),
        MemRegion::Wram => b.ram[wram_index(bank, addr)],
        MemRegion::CartSpace => cart_read(b.cart, full_address(bank, addr)),
        MemRegion::Unmapped => 0,
    }
}

/// The bus after a read of `bank:addr`: reading the serial joypad port
/// 0x4217 shifts the joypad's register; every other read changes nothing.
#[verifier::opaque]
pub open spec fn bus_after_read(b: BusView, bank: u8, addr: u16) -> BusView {
    if region_of(bank, addr) is CpuRegisters && addr == 0x4217 {
        BusView {
            input: Input { shift_register: serial_shift(b.input.shift_register), ..b.input },
            ..b
        }
    } else {
        b
    }
}

/// A read of `bank:addr` is defined unless it reaches a cartridge whose SRAM
/// lookup would divide by a zero SRAM size.
pub open spec fn bus_read_defined(b: BusView, bank: u8, addr: u16) -> bool {
    region_of(bank, addr) is CartSpace ==> cart_access_defined(b.cart, full_address(bank, addr))
}

/// No cartridge access can fault: every read of the bus is defined.
pub open spec fn bus_faultless(b: BusView) -> bool {
    forall|a: u32| #[trigger] cart_access_defined(b.cart, a)
}

/// The 24-bit source address of a channel, as its registers 2-4 show it.
pub open spec fn dma_source(ch: DMAChannel) -> u32 {
    ((channel_register(ch, 4) as u32) << 16u32) | ((channel_register(ch, 3) as u32) << 8u32) | (
    channel_register(ch, 2) as u32)
}

/// The byte count of a channel, as its registers 5-6 show it; 0 stands for 0x10000.
pub open spec fn dma_count(ch: DMAChannel) -> u32 {
    let lo = channel_register(ch, 5);
    let hi = channel_register(ch, 6);
    if lo == 0 && hi == 0 {
        0x10000
    } else {
        ((hi as u32) << 8u32) | (lo as u32)
    }
}

/// The work RAM byte a DMA reads at `addr`: 0 past the end of work RAM.
pub open spec fn wram_source_byte(ram: Seq<u8>, addr: int) -> u8 {
    if addr < ram.len() {
        ram[addr]
    } else {
        0
    }
}

/// The picture processor after the `n` work RAM bytes from `src` on are
/// written, in order, to its register `dest`.
pub open spec fn ppu_fed(p: PpuView, dest: u8, ram: Seq<u8>, src: int, n: nat) -> PpuView
    decreases n,
{
    if n == 0 {
        p
    } else {
        ppu_register_written(
            ppu_fed(p, dest, ram, src, (n - 1) as nat),
            dest,
            wram_source_byte(ram, src + n - 1),
        )
    }
}

/// Channel `i` run by the bus: when its control register has bit 7 set, its
/// bytes go to the picture processor and bit 7 is cleared.
pub open spec fn channel_ran(ram: Seq<u8>, p: PpuView, cs: Seq<DMAChannel>, i: int) -> (
    PpuView,
    Seq<DMAChannel>,
) {
    let ch = cs[i];
    let control = control_byte(ch);
    if control & 0x80 == 0 {
        (p, cs)
    } else {
        (
            ppu_fed(p, ch.destination, ram, dma_source(ch) as int, dma_count(ch) as nat),
            cs.update(i, control_written(ch, control & 0x7F)),
        )
    }
}

/// Channels `0..n` run in order.
pub open spec fn channels_ran(ram: Seq<u8>, p: PpuView, cs: Seq<DMAChannel>, n: nat) -> (
    PpuView,
    Seq<DMAChannel>,
)
    decreases n,
{
    if n == 0 {
        (p, cs)
    } else {
        let r = channels_ran(ram, p, cs, (n - 1) as nat);
        channel_ran(ram, r.0, r.1, n - 1)
    }
}

/// The channels after bit 7 of the control register of each channel named in
/// the mask `data` is set.
pub open spec fn channels_armed(cs: Seq<DMAChannel>, data: u8) -> Seq<DMAChannel> {
    Seq::new(
        cs.len(),
        |i: int|
            if (data & (1u8 << (i as u8))) != 0 {
                control_written(cs[i], control_byte(cs[i]) | 0x80)
            } else {
                cs[i]
            },
    )
}

/// A DMA started by a non-zero write to 0x420A: the named channels are armed,
/// every armed channel runs, and the master enable ends cleared.
pub open spec fn dma_started(b: BusView, data: u8) -> BusView {
    let r = channels_ran(b.ram, b.ppu, channels_armed(b.dma.channels, data), 8);
    BusView { ppu: r.0, dma: DmaView { channels: r.1, dma_enabled: false, ..b.dma }, ..b }
}

/// The bus after `data` is written to CPU register `addr` (0x4200-0x42FF).
pub open spec fn io_written(b: BusView, addr: u16, data: u8) -> BusView {
    if addr == 0x420A {
        let b1 = BusView { cpu_io: b.cpu_io.update(0x0A, data), ..b };
        if data != 0 {
            dma_started(b1, data)
        } else {
            b1
        }
    } else if 0x4200 <= addr && addr <= 0x420F {
        BusView { cpu_io: b.cpu_io.update(addr - 0x4200, data), ..b }
    } else {
        b
    }
}

/// The bus after `data` is written to `bank:addr`: the joypad strobe port
/// 0x4016 in the system banks reaches the joypad; writes outside work RAM
/// and the register blocks are otherwise ignored.
#[verifier::opaque]
pub open spec fn bus_written(b: BusView, bank: u8, addr: u16, data: u8) -> BusView {
    if system_bank(bank) && addr == 0x4016 {
        BusView { input: strobe_written(b.input, data), ..b }
    } else {
        bus_written_region(b, bank, addr, data)
    }
}

/// A write to `bank:addr` by the region it reaches.
pub open spec fn bus_written_region(b: BusView, bank: u8, addr: u16, data: u8) -> BusView {
    match region_of(bank, addr) {
        MemRegion::WramMirror => BusView { ram: b.ram.update((addr % 0x2000) as int, data), ..b },
        MemRegion::PpuRegisters => BusView {
            ppu: ppu_register_written(b.ppu, (addr - 0x2100) as u8, data),
            ..b
        },
        MemRegion::CpuRegisters => io_written(b, addr, data),
        MemRegion::DmaRegisters => BusView {
            dma: DmaView { channels: dma_channels_written(b.dma.channels, addr, data), ..b.dma },
            ..b
        },
        MemRegion::Wram => BusView { ram: b.ram.update(wram_index(bank, addr), data), ..b },
        _ => b,
    }
}

proof fn lemma_full_address_value(bank: u8, addr: u16)
    by (bit_vector)
    ensures
        ((bank as u32) << 16u32) | (addr as u32) == (bank as u32) * 65536 + (addr as u32),
{
}

proof fn lemma_channel_register_address(idx: u16, k: u16)
    requires
        idx < 8,
        k < 16,
    ensures
        in_dma_block((0x4300 + idx * 16 + k) as u16),
        dma_channel_of((0x4300 + idx * 16 + k) as u16) == idx,
        dma_offset_of((0x4300 + idx * 16 + k) as u16) == k,
{
    assert(((idx * 16 + k) as u16 / 16) as int == idx && ((idx * 16 + k) as u16 % 16) as int == k)
        by (nonlinear_arith)
        requires
            idx < 8,
            k < 16,
    ;
}

/// Write the `count` work RAM bytes from `source` on to picture processor
/// register `dest`, one after the other; bytes past the end of work RAM read as 0.
fn feed_ppu(ram: &[u8; 131072], ppu: &mut PPU, dest: u8, source: u32, count: u32)
    requires
        source < 0x1000000,
        count <= 0x10000,
    ensures
        final(ppu)@ == ppu_fed(old(ppu)@, dest, ram@, source as int, count as nat),
{
    let mut i: u32 = 0;
    while i < count
        invariant
            i <= count,
            count <= 0x10000,
            source < 0x1000000,
            ppu@ == ppu_fed(old(ppu)@, dest, ram@, source as int, i as nat),
        decreases count - i,
    {
        let addr = (source + i) as usize;
        let data = if addr < WRAM_SIZE {
            ram[addr]
        } else {
            0
        };
        ppu.write_register(dest, data);
        i = i + 1;
    }
}

/// Run DMA channel `channel_idx` through its registers: when bit 7 of its
/// control register is set, feed its bytes to the picture processor and clear the bit.
fn run_dma_channel(ram: &[u8; 131072], ppu: &mut PPU, dma: &mut DMAController, channel_idx: u16)
    requires
        channel_idx < 8,
    ensures
        (final(ppu)@, final(dma).channels@) == channel_ran(
            ram@,
            old(ppu)@,
            old(dma).channels@,
            channel_idx as int,
        ),
        final(dma).dma_enabled == old(dma).dma_enabled,
        final(dma).hdma_enabled == old(dma).hdma_enabled,
        final(dma).channel_priority == old(dma).channel_priority,
        final(dma).nmi_vector == old(dma).nmi_vector,
        final(dma).irq_vector == old(dma).irq_vector,
{
    let channel_addr: u16 = 0x4300 + channel_idx * 16;
    proof {
        lemma_channel_register_address(channel_idx, 0);
        lemma_channel_register_address(channel_idx, 1);
        lemma_channel_register_address(channel_idx, 2);
        lemma_channel_register_address(channel_idx, 3);
        lemma_channel_register_address(channel_idx, 4);
        lemma_channel_register_address(channel_idx, 5);
        lemma_channel_register_address(channel_idx, 6);
    }
    let control = dma.read_register(channel_addr);
    if (control & 0x80) == 0 {
        return ;
    }
    let dest = dma.read_register(channel_addr + 1);
    let src_low = dma.read_register(channel_addr + 2) as u32;
    let src_mid = dma.read_register(channel_addr + 3) as u32;
    let src_bank = dma.read_register(channel_addr + 4) as u32;
    let size_low = dma.read_register(channel_addr + 5) as u16;
    let size_high = dma.read_register(channel_addr + 6) as u16;
    let source_addr = (src_bank << 16u32) | (src_mid << 8u32) | src_low;
    let transfer_size = if size_low == 0 && size_high == 0 {
        0x10000u32
    } else {
        ((size_high as u32) << 8u32) | (size_low as u32)
    };
    proof {
        let b = src_bank as u8;
        let m = src_mid as u8;
        let l = src_low as u8;
        let h = size_high as u8;
        let lo = size_low as u8;
        assert(((b as u32) << 16u32) | ((m as u32) << 8u32) | (l as u32) < 0x1000000) by (bit_vector);
        assert(((h as u32) << 8u32) | (lo as u32) <= 0xFFFF) by (bit_vector);
    }
    feed_ppu(ram, ppu, dest, source_addr, transfer_size);
    dma.write_register(channel_addr, control & 0x7F);
}

/// Set bit 7 of the control register of every channel named in the mask `data`,
/// through the channel registers.
fn arm_dma_channels(dma: &mut DMAController, data: u8)
    ensures
        final(dma).channels@ == channels_armed(old(dma).channels@, data),
        final(dma).dma_enabled == old(dma).dma_enabled,
        final(dma).hdma_enabled == old(dma).hdma_enabled,
        final(dma).channel_priority == old(dma).channel_priority,
        final(dma).nmi_vector == old(dma).nmi_vector,
        final(dma).irq_vector == old(dma).irq_vector,
{
    let mut channel_idx: u16 = 0;
    while channel_idx < 8
        invariant
            channel_idx <= 8,
            forall|i: int|
                0 <= i < channel_idx ==> #[trigger] dma.channels@[i] == channels_armed(
                    old(dma).channels@,
                    data,
                )[i],
            forall|i: int| channel_idx <= i < 8 ==> #[trigger] dma.channels@[i] == old(dma).channels@[i],
            dma.dma_enabled == old(dma).dma_enabled,
            dma.hdma_enabled == old(dma).hdma_enabled,
            dma.channel_priority == old(dma).channel_priority,
            dma.nmi_vector == old(dma).nmi_vector,
            dma.irq_vector == old(dma).irq_vector,
        decreases 8 - channel_idx,
    {
        if (data & (1u8 << (channel_idx as u8))) != 0 {
            let channel_addr: u16 = 0x4300 + channel_idx * 16;
            proof {
                lemma_channel_register_address(channel_idx, 0);
            }
            let control = dma.read_register(channel_addr);
            dma.write_register(channel_addr, control | 0x80);
        }
        channel_idx = channel_idx + 1;
    }
    assert(dma.channels@ =~= channels_armed(old(dma).channels@, data));
}

/// Run channels `0..8` in order.
fn run_dma_channels(ram: &[u8; 131072], ppu: &mut PPU, dma: &mut DMAController)
    ensures
        (final(ppu)@, final(dma).channels@) == channels_ran(ram@, old(ppu)@, old(dma).channels@, 8),
        final(dma).dma_enabled == old(dma).dma_enabled,
        final(dma).hdma_enabled == old(dma).hdma_enabled,
        final(dma).channel_priority == old(dma).channel_priority,
        final(dma).nmi_vector == old(dma).nmi_vector,
        final(dma).irq_vector == old(dma).irq_vector,
{
    let mut channel_idx: u16 = 0;
    while channel_idx < 8
        invariant
            channel_idx <= 8,
            (ppu@, dma.channels@) == channels_ran(
                ram@,
                old(ppu)@,
                old(dma).channels@,
                channel_idx as nat,
            ),
            dma.dma_enabled == old(dma).dma_enabled,
            dma.hdma_enabled == old(dma).hdma_enabled,
            dma.channel_priority == old(dma).channel_priority,
            dma.nmi_vector == old(dma).nmi_vector,
            dma.irq_vector == old(dma).irq_vector,
        decreases 8 - channel_idx,
    {
        run_dma_channel(ram, ppu, dma, channel_idx);
        channel_idx = channel_idx + 1;
    }
}

impl Bus {
    /// Power-on state: work RAM cleared except byte 0x31, which holds 0x03 (the
    /// value the boot code waits for), every unit at power-on, no cartridge.
    pub fn new() -> (r: Self)
        ensures
            r@.ram == Seq::new(131072, |i: int| if i == 0x31 { 0x03u8 } else { 0u8 }),
            r@.cpu_io == Seq::new(16, |i: int| 0u8),
            ppu_power_on(r@.ppu),
            ppu_wf(r@.ppu),
            apu_power_on(r@.apu),
            r@.cart.rom == Seq::<u8>::empty(),
            r@.cart.sram == Seq::<u8>::empty(),
            r@.cart.mapper is None,
            r@.cart.rom_path is None,
            r@.input == (Input { buttons: 0xFF, shift_register: 0xFF, strobe_latch: false }),
            r@.dma == (DmaView {
                channels: Seq::new(8, |i: int| idle_channel()),
                dma_enabled: false,
                hdma_enabled: false,
                channel_priority: 0,
                nmi_vector: 0xFFFA,
                irq_vector: 0xFFFE,
            }),
            bus_faultless(r@),
    {
        let mut ram = Box::new([0u8;131072]);
        ram[0x31] = 0x03;
        let r = Bus {
            ram,
            ppu: PPU::new(),
            apu: APU::new(),
            cart: Cartridge::new(),
            input: Input::new(),
            dma: DMAController::new(),
            cpu_io_registers: [0;16],
        };
        assert(r@.ram =~= Seq::new(131072, |i: int| if i == 0x31 { 0x03u8 } else { 0u8 }));
        assert(r@.cpu_io =~= Seq::new(16, |i: int| 0u8));
        assert(r@.dma.channels =~= Seq::new(8, |i: int| idle_channel()));
        r
    }

    /// Read the byte at `bank:addr`.
    pub fn read(&mut self, bank: u8, addr: u16) -> (r: u8)
        requires
            bus_read_defined(old(self)@, bank, addr),
        ensures
            r == bus_read_value(old(self)@, bank, addr),
            final(self)@ == bus_after_read(old(self)@, bank, addr),
            final(self)@.cart == old(self)@.cart,
            final(self)@.ppu == old(self)@.ppu,
    {
        proof {
            reveal(bus_read_value);
            reveal(bus_after_read);
            lemma_full_address_value(bank, addr);
        }
        let full_addr = ((bank as u32) << 16u32) | (addr as u32);
        let system = bank <= 0x3F || (0x80 <= bank && bank <= 0xBF);
        if system && addr <= 0x1FFF {
            self.ram[(addr as usize) % 0x2000]
        } else if system && 0x2100 <= addr && addr <= 0x21FF {
            self.ppu.read_register((addr - 0x2100) as u8)
        } else if system && 0x4200 <= addr && addr <= 0x42FF {
            if 0x4200 <= addr && addr <= 0x420F {
                self.cpu_io_registers[(addr - 0x4200) as usize]
            } else if addr == 0x4212 {
                let mut status: u8 = if self.ppu.vblank {
                    0x80
                } else {
                    0
                };
                if self.ppu.hblank {
                    status = status | 0x40;
                }
                status
            } else if addr == 0x4217 {
                self.input.read_serial()
            } else if addr == 0x4218 || addr == 0x4219 {
                self.input.read_buttons()
            } else {
                0
            }
        } else if system && 0x4300 <= addr && addr <= 0x437F {
            self.dma.read_register(addr)
        } else if 0x7E <= bank && bank <= 0x7F {
            self.ram[(full_addr - 0x7E0000) as usize]
        } else if (bank <= 0x3F && addr <= 0x7FFF) || (0x40 <= bank && bank <= 0x7D) || (system
            && addr >= 0x8000) || bank >= 0xC0 {
            self.cart.read(full_addr)
        } else {
            0
        }
    }

    /// Write `data` to `bank:addr`. A non-zero write to 0x420A arms the named
    /// DMA channels and runs every armed channel at once.
    pub fn write(&mut self, bank: u8, addr: u16, data: u8)
        ensures
            final(self)@ == bus_written(old(self)@, bank, addr, data),
            final(self)@.cart == old(self)@.cart,
            ppu_wf(old(self)@.ppu) ==> ppu_wf(final(self)@.ppu),
    {
        proof {
            reveal(bus_written);
            lemma_full_address_value(bank, addr);
            if ppu_wf(old(self)@.ppu) {
                law_write_keeps_ppu_wf(old(self)@, bank, addr, data);
            }
        }
        let full_addr = ((bank as u32) << 16u32) | (addr as u32);
        let system = bank <= 0x3F || (0x80 <= bank && bank <= 0xBF);
        if system && addr <= 0x1FFF {
            self.ram[(addr as usize) % 0x2000] = data;
        } else if system && 0x2100 <= addr && addr <= 0x21FF {
            self.ppu.write_register((addr - 0x2100) as u8, data);
        } else if system && 0x4200 <= addr && addr <= 0x42FF {
            if addr == 0x420A {
                self.cpu_io_registers[(addr - 0x4200) as usize] = data;
                if data != 0 {
                    self.dma.dma_enabled = true;
                    arm_dma_channels(&mut self.dma, data);
                    self.execute_dma_transfer();
                }
            } else if 0x4200 <= addr && addr <= 0x420F {
                self.cpu_io_registers[(addr - 0x4200) as usize] = data;
            }
        } else if system && 0x4300 <= addr && addr <= 0x437F {
            self.dma.write_register(addr, data);
        } else if 0x7E <= bank && bank <= 0x7F {
            self.ram[(full_addr - 0x7E0000) as usize] = data;
        } else if system && addr == 0x4016 {
            self.input.write_strobe(data);
        }
    }

    /// Run every DMA channel whose control register has bit 7 set, then clear
    /// the master DMA enable.
    fn execute_dma_transfer(&mut self)
        ensures
            final(self)@ == (BusView {
                ppu: channels_ran(old(self)@.ram, old(self)@.ppu, old(self)@.dma.channels, 8).0,
                dma: DmaView {
                    channels: channels_ran(
                        old(self)@.ram,
                        old(self)@.ppu,
                        old(self)@.dma.channels,
                        8,
                    ).1,
                    dma_enabled: false,
                    ..old(self)@.dma
                },
                ..old(self)@
            }),
    {
        run_dma_channels(&self.ram, &mut self.ppu, &mut self.dma);
        self.dma.dma_enabled = false;
    }

    /// Raise the CPU's NMI line (V-blank).
    pub fn trigger_nmi(&mut self, cpu: &mut _65816)
        ensures
            *final(cpu) == (_65816 { nmi_pending: true, ..*old(cpu) }),
            *final(self) == *old(self),
    {
        cpu.nmi_pending = true;
    }

    /// Raise the CPU's IRQ line.
    pub fn trigger_irq(&mut self, cpu: &mut _65816)
        ensures
            *final(cpu) == (_65816 { irq_pending: true, ..*old(cpu) }),
            *final(self) == *old(self),
    {
        cpu.irq_pending = true;
    }
}

/// A byte written to work RAM through the low mirror in bank 00 is read back
/// from bank 7E at the same offset, and the other way round.
pub proof fn law_wram_mirror(b: BusView, addr: u16, data: u8)
    requires
        b.ram.len() == WRAM_SIZE,
        addr <= 0x1FFF,
    ensures
        bus_read_value(bus_written(b, 0x00, addr, data), 0x7E, addr) == data,
        bus_read_value(bus_written(b, 0x7E, addr, data), 0x00, addr) == data,
{
    reveal(bus_read_value);
    reveal(bus_written);
}

/// A byte written to work RAM (banks 7E-7F) is read back at the same address.
pub proof fn law_wram_round_trip(b: BusView, bank: u8, addr: u16, data: u8)
    requires
        b.ram.len() == WRAM_SIZE,
        0x7E <= bank <= 0x7F,
    ensures
        bus_read_value(bus_written(b, bank, addr, data), bank, addr) == data,
{
    reveal(bus_read_value);
    reveal(bus_written);
}

/// A CPU I/O register 0x4200-0x420F written through the bus reads back what
/// was written, a DMA that the write to 0x420A starts included.
pub proof fn law_io_register_round_trip(b: BusView, bank: u8, addr: u16, data: u8)
    requires
        b.cpu_io.len() == 16,
        system_bank(bank),
        0x4200 <= addr <= 0x420F,
    ensures
        bus_read_value(bus_written(b, bank, addr, data), bank, addr) == data,
{
    reveal(bus_read_value);
    reveal(bus_written);
}

/// Strobing the joypad through 0x4016 (1, then 0) latches the buttons, and
/// the serial port 0x4217 then gives button bit 0 first.
pub proof fn law_joypad_strobe(b: BusView)
    ensures
        bus_read_value(bus_written(bus_written(b, 0x00, 0x4016, 1), 0x00, 0x4016, 0), 0x00, 0x4217)
            == b.input.buttons & 0x01,
{
    reveal(bus_read_value);
    reveal(bus_written);
    assert((1u8 & 0x01) != 0 && (0u8 & 0x01) == 0) by (bit_vector);
}

/// Writes to the cartridge area, other than the joypad strobe port, never
/// change the bus.
pub proof fn law_rom_write_ignored(b: BusView, bank: u8, addr: u16, data: u8)
    requires
        region_of(bank, addr) is CartSpace,
        !(system_bank(bank) && addr == 0x4016),
    ensures
        bus_written(b, bank, addr, data) == b,
{
    reveal(bus_written);
}

/// Only the serial joypad port changes anything when read.
pub proof fn law_reads_are_pure(b: BusView, bank: u8, addr: u16)
    requires
        !(region_of(bank, addr) is CpuRegisters && addr == 0x4217),
    ensures
        bus_after_read(b, bank, addr) == b,
{
    reveal(bus_after_read);
}


proof fn lemma_ppu_fed_keeps_wf(p: PpuView, dest: u8, ram: Seq<u8>, src: int, n: nat)
    requires
        ppu_wf(p),
    ensures
        ppu_wf(ppu_fed(p, dest, ram, src, n)),
    decreases n,
{
    if n > 0 {
        lemma_ppu_fed_keeps_wf(p, dest, ram, src, (n - 1) as nat);
        law_register_write_keeps_wf(
            ppu_fed(p, dest, ram, src, (n - 1) as nat),
            dest,
            wram_source_byte(ram, src + n - 1),
        );
    }
}

proof fn lemma_channels_ran_keep_wf(ram: Seq<u8>, p: PpuView, cs: Seq<DMAChannel>, n: nat)
    requires
        ppu_wf(p),
        n <= cs.len(),
    ensures
        ppu_wf(channels_ran(ram, p, cs, n).0),
        channels_ran(ram, p, cs, n).1.len() == cs.len(),
    decreases n,
{
    if n > 0 {
        lemma_channels_ran_keep_wf(ram, p, cs, (n - 1) as nat);
        let r = channels_ran(ram, p, cs, (n - 1) as nat);
        let ch = r.1[n - 1];
        lemma_ppu_fed_keeps_wf(r.0, ch.destination, ram, dma_source(ch) as int, dma_count(ch) as nat);
    }
}

/// Every bus write, a DMA it starts included, keeps the bounds the picture
/// processor's renderer relies on.
pub proof fn law_write_keeps_ppu_wf(b: BusView, bank: u8, addr: u16, data: u8)
    requires
        ppu_wf(b.ppu),
        b.dma.channels.len() == 8,
    ensures
        ppu_wf(bus_written(b, bank, addr, data).ppu),
{
    reveal(bus_written);
    law_register_write_keeps_wf(b.ppu, (addr - 0x2100) as u8, data);
    lemma_channels_ran_keep_wf(b.ram, b.ppu, channels_armed(b.dma.channels, data), 8);
}


/// Reads and writes never change the cartridge, and on a cartridge where no
/// access faults every read is defined.
pub proof fn law_cart_kept()
    ensures
        forall|b: BusView, bank: u8, addr: u16| #[trigger]
            bus_after_read(b, bank, addr).cart == b.cart,
        forall|b: BusView, bank: u8, addr: u16, data: u8| #[trigger]
            bus_written(b, bank, addr, data).cart == b.cart,
        forall|b: BusView, bank: u8, addr: u16|
            bus_faultless(b) ==> #[trigger] bus_read_defined(b, bank, addr),
{
    reveal(bus_after_read);
    reveal(bus_written);
}

} // verus!
