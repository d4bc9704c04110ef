//! DMA channels and their register block at 0x4300-0x437F (eight channels of
//! sixteen registers each).
use vstd::prelude::*;
use crate::bus::Bus;

verus! {

/// One DMA channel as configured through its registers.
#[derive(Clone, Copy, Debug)]
pub struct DMAChannel {
    /// Transfer mode, bits 0-2 of the control register.
    pub mode: u8,
    /// Bit 3: 0 = CPU to PPU, 1 = PPU to CPU.
    pub direction: bool,
    /// Bit 4: indirect addressing.
    pub indirect: bool,
    /// Bit 5: address decrement.
    pub reverse: bool,
    /// Bit 6: fixed source address.
    pub fixed: bool,
    /// Bit 7: channel enabled.
    pub enabled: bool,
    /// Target PPU register (offset from 0x2100).
    pub destination: u8,
    /// 24-bit source address.
    pub source_addr: u32,
    /// Byte count; 0 stands for 0x10000.
    pub transfer_size: u16,
    pub hdma_line_counter: u8,
    pub hdma_table_addr: u16,
    pub hdma_finished: bool,
}

/// A channel with every register cleared.
pub open spec fn idle_channel() -> DMAChannel {
    DMAChannel {
        mode: 0,
        direction: false,
        indirect: false,
        reverse: false,
        fixed: false,
        enabled: false,
        destination: 0,
        source_addr: 0,
        transfer_size: 0,
        hdma_line_counter: 0,
        hdma_table_addr: 0,
        hdma_finished: false,
    }
}

/// The channel after its control register is written with `value`.
pub open spec fn control_written(ch: DMAChannel, value: u8) -> DMAChannel {
    DMAChannel {
        mode: value & 0x07,
        direction: (value & 0x08) != 0,
        indirect: (value & 0x10) != 0,
        reverse: (value & 0x20) != 0,
        fixed: (value & 0x40) != 0,
        enabled: (value & 0x80) != 0,
        ..ch
    }
}

/// The control register byte assembled from the channel's fields.
pub open spec fn control_byte(ch: DMAChannel) -> u8 {
    let v0 = ch.mode & 0x07;
    let v1 = if ch.direction { v0 | 0x08 } else { v0 };
    let v2 = if ch.indirect { v1 | 0x10 } else { v1 };
    let v3 = if ch.reverse { v2 | 0x20 } else { v2 };
    let v4 = if ch.fixed { v3 | 0x40 } else { v3 };
    if ch.enabled { v4 | 0x80 } else { v4 }
}

impl DMAChannel {
    /// A channel with every register cleared.
    pub fn new() -> (r: Self)
        ensures
            r == idle_channel(),
    {
        DMAChannel {
            mode: 0,
            direction: false,
            indirect: false,
            reverse: false,
            fixed: false,
            enabled: false,
            destination: 0,
            source_addr: 0,
            transfer_size: 0,
            hdma_line_counter: 0,
            hdma_table_addr: 0,
            hdma_finished: false,
        }
    }

    /// Decode a control register byte into the channel's flags and mode.
    pub fn set_control(&mut self, value: u8)
        ensures
            *final(self) == control_written(*old(self), value),
    {
        self.mode = value & 0x07;
        self.direction = (value & 0x08) != 0;
        self.indirect = (value & 0x10) != 0;
        self.reverse = (value & 0x20) != 0;
        self.fixed = (value & 0x40) != 0;
        self.enabled = (value & 0x80) != 0;
    }

    /// Encode the channel's flags and mode as a control register byte.
    pub fn get_control(&self) -> (r: u8)
        ensures
            r == control_byte(*self),
    {
        let mut value = self.mode & 0x07;
        if self.direction {
            value = value | 0x08;
        }
        if self.indirect {
            value = value | 0x10;
        }
        if self.reverse {
            value = value | 0x20;
        }
        if self.fixed {
            value = value | 0x40;
        }
        if self.enabled {
            value = value | 0x80;
        }
        value
    }
}

/// Reading the control register back after writing it yields the byte written.
pub proof fn law_control_round_trip(ch: DMAChannel, value: u8)
    ensures
        control_byte(control_written(ch, value)) == value,
{
    let m = value & 0x07;
    assert({
        let v0 = m & 0x07;
        let v1 = if (value & 0x08) != 0 { v0 | 0x08 } else { v0 };
        let v2 = if (value & 0x10) != 0 { v1 | 0x10 } else { v1 };
        let v3 = if (value & 0x20) != 0 { v2 | 0x20 } else { v2 };
        let v4 = if (value & 0x40) != 0 { v3 | 0x40 } else { v3 };
        (if (value & 0x80) != 0 { v4 | 0x80 } else { v4 }) == value
    }) by (bit_vector)
        requires
            m == value & 0x07,
    ;
}

/// The eight DMA channels and the global DMA/HDMA state.
pub struct DMAController {
    pub channels: [DMAChannel; 8],
    /// Master DMA enable.
    pub dma_enabled: bool,
    /// HDMA enable.
    pub hdma_enabled: bool,
    pub channel_priority: u8,
    pub nmi_vector: u16,
    pub irq_vector: u16,
}

/// The controller's state as plain values.
#[verifier::ext_equal]
pub struct DmaView {
    pub channels: Seq<DMAChannel>,
    pub dma_enabled: bool,
    pub hdma_enabled: bool,
    pub channel_priority: u8,
    pub nmi_vector: u16,
    pub irq_vector: u16,
}

impl View for DMAController {
    type V = DmaView;

    open spec fn view(&self) -> DmaView {
        DmaView {
            channels: self.channels@,
            dma_enabled: self.dma_enabled,
            hdma_enabled: self.hdma_enabled,
            channel_priority: self.channel_priority,
            nmi_vector: self.nmi_vector,
            irq_vector: self.irq_vector,
        }
    }
}

/// Whether `addr` lies in the DMA register block 0x4300-0x437F.
pub open spec fn in_dma_block(addr: u16) -> bool {
    0x4300 <= addr < 0x4380
}

/// Channel number of a register address in the block.
pub open spec fn dma_channel_of(addr: u16) -> int {
    ((addr - 0x4300) as u16 / 16) as int
}

/// Register offset (0-15) of an address in the block.
pub open spec fn dma_offset_of(addr: u16) -> int {
    ((addr - 0x4300) as u16 % 16) as int
}

/// The value a channel shows at register `offset`.
pub open spec fn channel_register(ch: DMAChannel, offset: int) -> u8 {
    if offset == 0 {
        control_byte(ch)
    } else if offset == 1 {
        ch.destination
    } else if offset == 2 {
        (ch.source_addr & 0xFF) as u8
    } else if offset == 3 {
        ((ch.source_addr >> 8) & 0xFF) as u8
    } else if offset == 4 {
        ((ch.source_addr >> 16) & 0xFF) as u8
    } else if offset == 5 {
        (ch.transfer_size & 0xFF) as u8
    } else if offset == 6 {
        ((ch.transfer_size >> 8) & 0xFF) as u8
    } else if offset == 7 {
        ch.hdma_table_addr as u8
    } else if offset == 8 {
        (ch.hdma_table_addr >> 8) as u8
    } else if offset == 9 {
        ch.hdma_line_counter
    } else {
        0
    }
}

/// The channel after `value` is written to its register `offset`; offsets
/// 10-15 are reserved and change nothing.
pub open spec fn channel_register_written(ch: DMAChannel, offset: int, value: u8) -> DMAChannel {
    if offset == 0 {
        control_written(ch, value)
    } else if offset == 1 {
        DMAChannel { destination: value, ..ch }
    } else if offset == 2 {
        DMAChannel { source_addr: (ch.source_addr & 0xFFFF00) | (value as u32), ..ch }
    } else if offset == 3 {
        DMAChannel { source_addr: (ch.source_addr & 0xFF00FF) | ((value as u32) << 8u32), ..ch }
    } else if offset == 4 {
        DMAChannel { source_addr: (ch.source_addr & 0x00FFFF) | ((value as u32) << 16u32), ..ch }
    } else if offset == 5 {
        DMAChannel { transfer_size: (ch.transfer_size & 0xFF00) | (value as u16), ..ch }
    } else if offset == 6 {
        DMAChannel { transfer_size: (ch.transfer_size & 0x00FF) | ((value as u16) << 8u16), ..ch }
    } else if offset == 7 {
        DMAChannel { hdma_table_addr: (ch.hdma_table_addr & 0xFF00) | (value as u16), ..ch }
    } else if offset == 8 {
        DMAChannel {
            hdma_table_addr: (ch.hdma_table_addr & 0x00FF) | ((value as u16) << 8u16),
            ..ch
        }
    } else if offset == 9 {
        DMAChannel { hdma_line_counter: value, ..ch }
    } else {
        ch
    }
}

/// The byte read from register address `addr` (0 outside the block).
pub open spec fn dma_register_value(channels: Seq<DMAChannel>, addr: u16) -> u8 {
    if in_dma_block(addr) {
        channel_register(channels[dma_channel_of(addr)], dma_offset_of(addr))
    } else {
        0
    }
}

/// The channels after `value` is written to register address `addr`.
pub open spec fn dma_channels_written(channels: Seq<DMAChannel>, addr: u16, value: u8) -> Seq<
    DMAChannel,
> {
    if in_dma_block(addr) {
        channels.update(
            dma_channel_of(addr),
            channel_register_written(channels[dma_channel_of(addr)], dma_offset_of(addr), value),
        )
    } else {
        channels
    }
}

/// The HDMA enable mask formed from the `enabled` flags of the first `n` channels.
pub open spec fn enabled_mask(channels: Seq<DMAChannel>, n: nat) -> u8
    decreases n,
{
    if n == 0 {
        0
    } else {
        let prev = enabled_mask(channels, (n - 1) as nat);
        if channels[n - 1].enabled {
            prev | (1u8 << ((n - 1) as u8))
        } else {
            prev
        }
    }
}

/// The channels after the HDMA enable mask `value` is written: channel `i`
/// takes bit `i` as its `enabled` flag.
pub open spec fn hdma_enable_written(channels: Seq<DMAChannel>, value: u8) -> Seq<DMAChannel> {
    Seq::new(
        channels.len(),
        |i: int| DMAChannel { enabled: (value & (1u8 << (i as u8))) != 0, ..channels[i] },
    )
}

/// The number of bytes a channel moves: `transfer_size`, with 0 meaning 0x10000.
pub open spec fn transfer_length(ch: DMAChannel) -> nat {
    if ch.transfer_size == 0 {
        0x10000
    } else {
        ch.transfer_size as nat
    }
}

/// The source address after a mode-0 transfer of `n` bytes: it advances by one
/// per byte unless fixed, and the transfer stops at the end of the 24-bit space.
pub open spec fn source_after_transfer(ch: DMAChannel, n: nat) -> u32 {
    if ch.fixed || ch.source_addr >= 0x1000000 {
        ch.source_addr
    } else if ch.source_addr + n >= 0x1000000 {
        0x1000000
    } else {
        (ch.source_addr + n) as u32
    }
}

/// A channel after the DMA engine has run it.
pub open spec fn channel_after_dma(ch: DMAChannel) -> DMAChannel {
    if ch.enabled && ch.mode == 0 {
        DMAChannel {
            source_addr: source_after_transfer(ch, transfer_length(ch)),
            transfer_size: 0,
            enabled: false,
            ..ch
        }
    } else {
        ch
    }
}

/// The work RAM byte a transfer reads at `addr`: 0 past the end of `wram`.
pub open spec fn wram_byte(wram: Seq<u8>, addr: int) -> u8 {
    if addr < wram.len() {
        wram[addr]
    } else {
        0
    }
}

/// The number of bytes a mode-0 transfer hands out: its length, cut short
/// where an advancing source reaches the end of the 24-bit space; none from a
/// source already past it.
pub open spec fn dma_write_count(ch: DMAChannel) -> nat {
    if ch.source_addr >= 0x1000000 {
        0
    } else if !ch.fixed && ch.source_addr + transfer_length(ch) > 0x1000000 {
        (0x1000000 - ch.source_addr) as nat
    } else {
        transfer_length(ch)
    }
}

/// The (register, byte) writes of one channel: for an enabled mode-0 channel,
/// its destination with the byte at the source address plus `k` (plus 0 when
/// fixed), for each `k` below its write count; nothing otherwise.
pub open spec fn channel_writes(ch: DMAChannel, wram: Seq<u8>) -> Seq<(u8, u8)> {
    if ch.enabled && ch.mode == 0 {
        Seq::new(
            dma_write_count(ch),
            |k: int|
                (
                    ch.destination,
                    wram_byte(
                        wram,
                        if ch.fixed {
                            ch.source_addr as int
                        } else {
                            ch.source_addr + k
                        },
                    ),
                ),
        )
    } else {
        Seq::empty()
    }
}

/// The writes of channels `0..n`, channel by channel.
pub open spec fn dma_writes(channels: Seq<DMAChannel>, wram: Seq<u8>, n: nat) -> Seq<(u8, u8)>
    decreases n,
{
    if n == 0 {
        Seq::empty()
    } else {
        dma_writes(channels, wram, (n - 1) as nat) + channel_writes(channels[n - 1], wram)
    }
}

impl DMAController {
    /// Eight idle channels, DMA and HDMA disabled, the default interrupt vectors.
    pub fn new() -> (r: Self)
        ensures
            forall|i: int| 0 <= i < 8 ==> r.channels[i] == idle_channel(),
            !r.dma_enabled,
            !r.hdma_enabled,
            r.channel_priority == 0,
            r.nmi_vector == 0xFFFA,
            r.irq_vector == 0xFFFE,
    {
        DMAController {
            channels: [DMAChannel::new();8],
            dma_enabled: false,
            hdma_enabled: false,
            channel_priority: 0,
            nmi_vector: 0xFFFA,
            irq_vector: 0xFFFE,
        }
    }

    /// Read register `addr`; 0 outside 0x4300-0x437F and for reserved offsets.
    pub fn read_register(&self, addr: u16) -> (r: u8)
        ensures
            r == dma_register_value(self.channels@, addr),
    {
        if addr < 0x4300 || addr >= 0x4380 {
            return 0;
        }
        let channel = ((addr - 0x4300) / 16) as usize;
        let offset = ((addr - 0x4300) % 16) as usize;
        if channel >= 8 {
            return 0;
        }
        let ch = self.channels[channel];
        match offset {
            0x00 => ch.get_control(),
            0x01 => ch.destination,
            0x02 => (ch.source_addr & 0xFF) as u8,
            0x03 => ((ch.source_addr >> 8u32) & 0xFF) as u8,
            0x04 => ((ch.source_addr >> 16u32) & 0xFF) as u8,
            0x05 => (ch.transfer_size & 0xFF) as u8,
            0x06 => ((ch.transfer_size >> 8u16) & 0xFF) as u8,
            0x07 => ch.hdma_table_addr as u8,
            0x08 => (ch.hdma_table_addr >> 8u16) as u8,
            0x09 => ch.hdma_line_counter,
            _ => 0,
        }
    }

    /// Write register `addr`; ignored outside 0x4300-0x437F and for reserved offsets.
    pub fn write_register(&mut self, addr: u16, value: u8)
        ensures
            final(self).channels@ == dma_channels_written(old(self).channels@, addr, value),
            final(self).dma_enabled == old(self).dma_enabled,
            final(self).hdma_enabled == old(self).hdma_enabled,
            final(self).channel_priority == old(self).channel_priority,
            final(self).nmi_vector == old(self).nmi_vector,
            final(self).irq_vector == old(self).irq_vector,
    {
        if addr < 0x4300 || addr >= 0x4380 {
            return ;
        }
        let channel = ((addr - 0x4300) / 16) as usize;
        let offset = ((addr - 0x4300) % 16) as usize;
        if channel >= 8 {
            return ;
        }
        let mut ch = self.channels[channel];
        match offset {
            0x00 => ch.set_control(value),
            0x01 => ch.destination = value,
            0x02 => ch.source_addr = (ch.source_addr & 0xFFFF00) | (value as u32),
            0x03 => ch.source_addr = (ch.source_addr & 0xFF00FF) | ((value as u32) << 8u32),
            0x04 => ch.source_addr = (ch.source_addr & 0x00FFFF) | ((value as u32) << 16u32),
            0x05 => ch.transfer_size = (ch.transfer_size & 0xFF00) | (value as u16),
            0x06 => ch.transfer_size = (ch.transfer_size & 0x00FF) | ((value as u16) << 8u16),
            0x07 => ch.hdma_table_addr = (ch.hdma_table_addr & 0xFF00) | (value as u16),
            0x08 => ch.hdma_table_addr = (ch.hdma_table_addr & 0x00FF) | ((value as u16) << 8u16),
            0x09 => ch.hdma_line_counter = value,
            _ => {},
        }
        self.channels[channel] = ch;
    }

    /// The master DMA enable flag.
    pub fn get_dma_enabled(&self) -> (r: bool)
        ensures
            r == self.dma_enabled,
    {
        self.dma_enabled
    }

    /// Set the master DMA enable flag.
    pub fn set_dma_enabled(&mut self, value: bool)
        ensures
            final(self).dma_enabled == value,
            final(self).channels == old(self).channels,
            final(self).hdma_enabled == old(self).hdma_enabled,
            final(self).channel_priority == old(self).channel_priority,
            final(self).nmi_vector == old(self).nmi_vector,
            final(self).irq_vector == old(self).irq_vector,
    {
        self.dma_enabled = value;
    }

    /// The HDMA enable mask: bit `i` is the `enabled` flag of channel `i`.
    pub fn get_hdma_enabled(&self) -> (r: u8)
        ensures
            r == enabled_mask(self.channels@, 8),
    {
        let mut value = 0u8;
        let mut i: usize = 0;
        while i < 8
            invariant
                i <= 8,
                value == enabled_mask(self.channels@, i as nat),
            decreases 8 - i,
        {
            if self.channels[i].enabled {
                value = value | (1u8 << (i as u8));
            }
            i = i + 1;
        }
        value
    }

    /// Set each channel's `enabled` flag from bit `i` of `value`.
    pub fn set_hdma_enabled(&mut self, value: u8)
        ensures
            final(self).channels@ == hdma_enable_written(old(self).channels@, value),
            final(self).dma_enabled == old(self).dma_enabled,
            final(self).hdma_enabled == old(self).hdma_enabled,
            final(self).channel_priority == old(self).channel_priority,
            final(self).nmi_vector == old(self).nmi_vector,
            final(self).irq_vector == old(self).irq_vector,
    {
        let mut i: usize = 0;
        while i < 8
            invariant
                i <= 8,
                forall|j: int|
                    0 <= j < i ==> #[trigger] self.channels[j] == (DMAChannel {
                        enabled: (value & (1u8 << (j as u8))) != 0,
                        ..old(self).channels[j]
                    }),
                forall|j: int| i <= j < 8 ==> #[trigger] self.channels[j] == old(self).channels[j],
                self.dma_enabled == old(self).dma_enabled,
                self.hdma_enabled == old(self).hdma_enabled,
                self.channel_priority == old(self).channel_priority,
                self.nmi_vector == old(self).nmi_vector,
                self.irq_vector == old(self).irq_vector,
            decreases 8 - i,
        {
            let mut ch = self.channels[i];
            ch.enabled = (value & (1u8 << (i as u8))) != 0;
            self.channels[i] = ch;
            i = i + 1;
        }
        assert(self.channels@ =~= hdma_enable_written(old(self).channels@, value));
    }

    /// Run every enabled mode-0 channel when the master enable is set: each byte
    /// of the transfer is read from `wram` at the source address (0 beyond its
    /// end) and handed to `ppu_write` with the channel's destination register;
    /// the source advances unless fixed. Afterwards such a channel has size 0
    /// and is disabled, and the master enable is cleared. Returns the
    /// (register, byte) pairs handed to `ppu_write`, in the order of the calls.
    pub fn execute_dma<F: Fn(u8, u8)>(&mut self, wram: &[u8], ppu_write: F) -> (r: Vec<(u8, u8)>)
        requires
            forall|d: u8, x: u8| call_requires(ppu_write, (d, x)),
        ensures
            r@ == (if old(self).dma_enabled {
                dma_writes(old(self).channels@, wram@, 8)
            } else {
                Seq::empty()
            }),
            forall|i: int|
                0 <= i < r@.len() ==> call_ensures(ppu_write, (#[trigger] r@[i].0, r@[i].1), ()),
            old(self).dma_enabled ==> {
                &&& forall|i: int|
                    0 <= i < 8 ==> #[trigger] final(self).channels[i] == channel_after_dma(
                        old(self).channels[i],
                    )
                &&& !final(self).dma_enabled
            },
            !old(self).dma_enabled ==> final(self).channels == old(self).channels
                && !final(self).dma_enabled,
            final(self).hdma_enabled == old(self).hdma_enabled,
            final(self).channel_priority == old(self).channel_priority,
            final(self).nmi_vector == old(self).nmi_vector,
            final(self).irq_vector == old(self).irq_vector,
    {
        let mut writes: Vec<(u8, u8)> = Vec::new();
        if !self.dma_enabled {
            return writes;
        }
        let mut channel_idx: usize = 0;
        while channel_idx < 8
            invariant
                channel_idx <= 8,
                forall|d: u8, x: u8| call_requires(ppu_write, (d, x)),
                old(self).dma_enabled,
                writes@ == dma_writes(old(self).channels@, wram@, channel_idx as nat),
                forall|i: int|
                    0 <= i < writes@.len() ==> call_ensures(
                        ppu_write,
                        (#[trigger] writes@[i].0, writes@[i].1),
                        (),
                    ),
                forall|j: int|
                    0 <= j < channel_idx ==> #[trigger] self.channels[j] == channel_after_dma(
                        old(self).channels[j],
                    ),
                forall|j: int|
                    channel_idx <= j < 8 ==> #[trigger] self.channels[j] == old(self).channels[j],
                self.dma_enabled == old(self).dma_enabled,
                self.hdma_enabled == old(self).hdma_enabled,
                self.channel_priority == old(self).channel_priority,
                self.nmi_vector == old(self).nmi_vector,
                self.irq_vector == old(self).irq_vector,
            decreases 8 - channel_idx,
        {
            let ghost base = writes@;
            if self.channels[channel_idx].enabled {
                let mut ch = self.channels[channel_idx];
                let bytes_to_transfer: u32 = if ch.transfer_size == 0 {
                    0x10000u32
                } else {
                    ch.transfer_size as u32
                };
                if ch.mode == 0 {
                    let ghost start = ch;
                    assert(channel_writes(start, wram@).len() == dma_write_count(start));
                    let mut k: u32 = 0;
                    while k < bytes_to_transfer
                        invariant
                            k <= bytes_to_transfer,
                            bytes_to_transfer == transfer_length(start),
                            forall|d: u8, x: u8| call_requires(ppu_write, (d, x)),
                            ch == (DMAChannel {
                                source_addr: source_after_transfer(start, k as nat),
                                ..start
                            }),
                            k <= dma_write_count(start),
                            start.enabled && start.mode == 0,
                            channel_writes(start, wram@).len() == dma_write_count(start),
                            writes@ == base + channel_writes(start, wram@).subrange(0, k as int),
                            forall|i: int|
                                0 <= i < writes@.len() ==> call_ensures(
                                    ppu_write,
                                    (#[trigger] writes@[i].0, writes@[i].1),
                                    (),
                                ),
                        ensures
                            ch == (DMAChannel {
                                source_addr: source_after_transfer(start, transfer_length(start)),
                                ..start
                            }),
                            writes@ == base + channel_writes(start, wram@),
                            forall|i: int|
                                0 <= i < writes@.len() ==> call_ensures(
                                    ppu_write,
                                    (#[trigger] writes@[i].0, writes@[i].1),
                                    (),
                                ),
                        decreases bytes_to_transfer - k,
                    {
                        if ch.source_addr >= 0x1000000 {
                            proof {
                                assert(source_after_transfer(start, bytes_to_transfer as nat)
                                    == ch.source_addr);
                                assert(k as nat == dma_write_count(start));
                                assert(channel_writes(start, wram@).subrange(0, k as int)
                                    =~= channel_writes(start, wram@));
                            }
                            break;
                        }
                        let data = if (ch.source_addr as usize) < wram.len() {
                            wram[ch.source_addr as usize]
                        } else {
                            0
                        };
                        ppu_write(ch.destination, data);
                        proof {
                            assert(k < dma_write_count(start));
                            assert(data == wram_byte(
                                wram@,
                                if start.fixed {
                                    start.source_addr as int
                                } else {
                                    start.source_addr + k
                                },
                            ));
                            assert(channel_writes(start, wram@)[k as int] == (ch.destination, data));
                        }
                        let ghost before = writes@;
                        writes.push((ch.destination, data));
                        proof {
                            assert(channel_writes(start, wram@).subrange(0, k + 1)
                                =~= channel_writes(start, wram@).subrange(0, k as int).push(
                                (ch.destination, data),
                            ));
                            assert(writes@ =~= base + channel_writes(start, wram@).subrange(
                                0,
                                k + 1,
                            ));
                        }
                        if !ch.fixed {
                            ch.source_addr = ch.source_addr.wrapping_add(1);
                        }
                        k = k + 1;
                        proof {
                            if k == bytes_to_transfer {
                                assert(channel_writes(start, wram@).subrange(0, k as int)
                                    =~= channel_writes(start, wram@));
                            }
                        }
                    }
                    ch.transfer_size = 0;
                    ch.enabled = false;
                    self.channels[channel_idx] = ch;
                }
            }
            proof {
                let ch0 = old(self).channels@[channel_idx as int];
                if !(ch0.enabled && ch0.mode == 0) {
                    assert(channel_writes(ch0, wram@) =~= Seq::<(u8, u8)>::empty());
                    assert(base + channel_writes(ch0, wram@) =~= base);
                }
            }
            channel_idx = channel_idx + 1;
        }
        self.dma_enabled = false;
        writes
    }

    /// Per-scanline HDMA step. HDMA tables are not processed: nothing changes.
    pub fn execute_hdma_scanline(&mut self, _bus: &mut Bus, _scanline: u16)
        ensures
            *final(self) == *old(self),
            *final(_bus) == *old(_bus),
    {
    }

    /// Clear every channel and both enable flags.
    pub fn reset(&mut self)
        ensures
            forall|i: int| 0 <= i < 8 ==> final(self).channels[i] == idle_channel(),
            !final(self).dma_enabled,
            !final(self).hdma_enabled,
            final(self).channel_priority == old(self).channel_priority,
            final(self).nmi_vector == old(self).nmi_vector,
            final(self).irq_vector == old(self).irq_vector,
    {
        let mut i: usize = 0;
        while i < 8
            invariant
                i <= 8,
                forall|j: int| 0 <= j < i ==> #[trigger] self.channels[j] == idle_channel(),
                self.channel_priority == old(self).channel_priority,
                self.nmi_vector == old(self).nmi_vector,
                self.irq_vector == old(self).irq_vector,
            decreases 8 - i,
        {
            self.channels[i] = DMAChannel::new();
            i = i + 1;
        }
        self.dma_enabled = false;
        self.hdma_enabled = false;
    }
}

proof fn lemma_byte_fields(s: u32, t: u16, v: u8)
    by (bit_vector)
    ensures
        ((s & 0xFFFF00) | (v as u32)) & 0xFF == v as u32,
        (((s & 0xFF00FF) | ((v as u32) << 8u32)) >> 8u32) & 0xFF == v as u32,
        (((s & 0x00FFFF) | ((v as u32) << 16u32)) >> 16u32) & 0xFF == v as u32,
        ((t & 0xFF00) | (v as u16)) & 0xFF == v as u16,
        (((t & 0x00FF) | ((v as u16) << 8u16)) >> 8u16) & 0xFF == v as u16,
        ((t & 0xFF00) | (v as u16)) as u8 == v,
        (((t & 0x00FF) | ((v as u16) << 8u16)) >> 8u16) as u8 == v,
{
}

/// Reading a DMA register back after writing it yields the value written, for
/// every non-reserved register (offsets 0-9) of every channel; the registers
/// of the other channels are untouched.
pub proof fn law_register_round_trip(channels: Seq<DMAChannel>, addr: u16, value: u8, other: u16)
    requires
        channels.len() == 8,
        in_dma_block(addr),
        dma_offset_of(addr) <= 9,
        dma_channel_of(other) != dma_channel_of(addr),
    ensures
        dma_register_value(dma_channels_written(channels, addr, value), addr) == value,
        dma_register_value(dma_channels_written(channels, addr, value), other)
            == dma_register_value(channels, other),
{
    let ch = channels[dma_channel_of(addr)];
    lemma_byte_fields(ch.source_addr, ch.transfer_size, value);
    lemma_byte_fields(ch.source_addr, ch.hdma_table_addr, value);
    if dma_offset_of(addr) == 0 {
        law_control_round_trip(ch, value);
    }
}

proof fn lemma_mask_bits(v: u8)
    by (bit_vector)
    ensures
        ({
            let x1 = if (v & (1u8 << 0u8)) != 0 { 0u8 | (1u8 << 0u8) } else { 0u8 };
            let x2 = if (v & (1u8 << 1u8)) != 0 { x1 | (1u8 << 1u8) } else { x1 };
            let x3 = if (v & (1u8 << 2u8)) != 0 { x2 | (1u8 << 2u8) } else { x2 };
            let x4 = if (v & (1u8 << 3u8)) != 0 { x3 | (1u8 << 3u8) } else { x3 };
            let x5 = if (v & (1u8 << 4u8)) != 0 { x4 | (1u8 << 4u8) } else { x4 };
            let x6 = if (v & (1u8 << 5u8)) != 0 { x5 | (1u8 << 5u8) } else { x5 };
            let x7 = if (v & (1u8 << 6u8)) != 0 { x6 | (1u8 << 6u8) } else { x6 };
            let x8 = if (v & (1u8 << 7u8)) != 0 { x7 | (1u8 << 7u8) } else { x7 };
            x8
        }) == v,
{
}

/// Reading the HDMA enable mask back after writing it yields the mask written.
pub proof fn law_hdma_mask_round_trip(channels: Seq<DMAChannel>, value: u8)
    requires
        channels.len() == 8,
    ensures
        enabled_mask(hdma_enable_written(channels, value), 8) == value,
{
    let w = hdma_enable_written(channels, value);
    reveal_with_fuel(enabled_mask, 9);
    lemma_mask_bits(value);
    assert(w[0].enabled == ((value & (1u8 << 0u8)) != 0));
    assert(w[1].enabled == ((value & (1u8 << 1u8)) != 0));
    assert(w[2].enabled == ((value & (1u8 << 2u8)) != 0));
    assert(w[3].enabled == ((value & (1u8 << 3u8)) != 0));
    assert(w[4].enabled == ((value & (1u8 << 4u8)) != 0));
    assert(w[5].enabled == ((value & (1u8 << 5u8)) != 0));
    assert(w[6].enabled == ((value & (1u8 << 6u8)) != 0));
    assert(w[7].enabled == ((value & (1u8 << 7u8)) != 0));
}

} // verus!
