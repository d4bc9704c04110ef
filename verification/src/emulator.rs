//! A running emulator session: the CPU and the bus stepped a frame at a time,
//! started from the cartridge's reset vector, and the joypad driven from the
//! front end.
use vstd::prelude::*;
use crate::bus::{Bus, BusView, bus_faultless, bus_read_defined};
use crate::cpu::{
    _65816,
    TICK_CYCLES,
    cpu_tick_ok,
    cpu_ticked,
    law_faultless_step,
    mem_read,
    power_on_cpu,
    word16,
};
use crate::input::button_update;
use crate::ppu::ppu_wf;

verus! {

/// CPU steps run per video frame.
pub const CYCLES_PER_FRAME: u32 = 88657;

/// Lines of the opcode trace the debugger window shows.
pub const TRACE_LINES: usize = 14;

/// The CPU and bus after `n` steps.
pub open spec fn ticks_run(c: _65816, b: BusView, n: nat) -> (_65816, BusView)
    decreases n,
{
    if n == 0 {
        (c, b)
    } else {
        let r = ticks_run(c, b, (n - 1) as nat);
        cpu_ticked(r.0, r.1)
    }
}

/// Every read of the first `n` steps is defined.
pub open spec fn ticks_ok(c: _65816, b: BusView, n: nat) -> bool
    decreases n,
{
    if n == 0 {
        true
    } else {
        let r = ticks_run(c, b, (n - 1) as nat);
        ticks_ok(c, b, (n - 1) as nat) && cpu_tick_ok(r.0, r.1)
    }
}

proof fn lemma_ticks_ok_step(c: _65816, b: BusView, i: nat, n: nat)
    requires
        i < n,
        ticks_ok(c, b, n),
    ensures
        cpu_tick_ok(ticks_run(c, b, i).0, ticks_run(c, b, i).1),
    decreases n,
{
    if i + 1 < n {
        lemma_ticks_ok_step(c, b, i, (n - 1) as nat);
    }
}

/// On a cartridge where no access faults, any number of steps can run: all
/// their reads are defined and the cartridge stays as it was.
pub proof fn law_faultless_run(c: _65816, b: BusView, n: nat)
    requires
        bus_faultless(b),
    ensures
        ticks_ok(c, b, n),
        bus_faultless(ticks_run(c, b, n).1),
    decreases n,
{
    if n > 0 {
        law_faultless_run(c, b, (n - 1) as nat);
        let r = ticks_run(c, b, (n - 1) as nat);
        law_faultless_step(r.0, r.1);
    }
}

/// Number of non-zero bytes in `s`.
pub open spec fn nonzero_count(s: Seq<u8>) -> nat
    decreases s.len(),
{
    if s.len() == 0 {
        0
    } else {
        nonzero_count(s.drop_last()) + if s.last() != 0 {
            1nat
        } else {
            0nat
        }
    }
}

/// Step the CPU `n` times against the bus.
pub fn run_ticks(cpu: &mut _65816, bus: &mut Bus, n: u32)
    requires
        ticks_ok(*old(cpu), old(bus)@, n as nat),
        old(cpu).cycles + TICK_CYCLES * n <= u64::MAX,
    ensures
        (*final(cpu), final(bus)@) == ticks_run(*old(cpu), old(bus)@, n as nat),
        final(bus)@.cart == old(bus)@.cart,
        ppu_wf(old(bus)@.ppu) ==> ppu_wf(final(bus)@.ppu),
        final(cpu).cycles <= old(cpu).cycles + TICK_CYCLES * n,
{
    let mut i: u32 = 0;
    while i < n
        invariant
            i <= n,
            (*cpu, bus@) == ticks_run(*old(cpu), old(bus)@, i as nat),
            bus@.cart == old(bus)@.cart,
            ppu_wf(old(bus)@.ppu) ==> ppu_wf(bus@.ppu),
            ticks_ok(*old(cpu), old(bus)@, n as nat),
            cpu.cycles <= old(cpu).cycles + TICK_CYCLES * i,
            old(cpu).cycles + TICK_CYCLES * n <= u64::MAX,
        decreases n - i,
    {
        proof {
            lemma_ticks_ok_step(*old(cpu), old(bus)@, i as nat, n as nat);
        }
        cpu.tick(bus);
        i = i + 1;
    }
}

/// The emulator: CPU, bus, whether it runs, and its counters.
pub struct EmuState {
    pub cpu: _65816,
    pub bus: Bus,
    /// Whether frames are being run.
    pub running: bool,
    /// CPU steps run so far.
    pub total_cycles: u64,
    /// Frames run so far.
    pub frame_count: u64,
}

impl EmuState {
    /// A stopped emulator at power-on.
    pub fn new() -> (r: Self)
        ensures
            r.cpu == power_on_cpu(),
            r.bus@.ram == Seq::new(131072, |i: int| if i == 0x31 { 0x03u8 } else { 0u8 }),
            r.bus@.cart.mapper is None,
            bus_faultless(r.bus@),
            ppu_wf(r.bus@.ppu),
            !r.running,
            r.total_cycles == 0,
            r.frame_count == 0,
    {
        EmuState { cpu: _65816::new(), bus: Bus::new(), running: false, total_cycles: 0, frame_count: 0 }
    }

    /// Start running from the reset vector: PC is loaded from the little-endian
    /// word at 00:FFFC, and the emulator is set running.
    pub fn reset_from_vector(&mut self)
        requires
            bus_read_defined(old(self).bus@, 0x00, 0xFFFC),
            bus_read_defined(mem_read(old(self).bus@, 0x00, 0xFFFC).1, 0x00, 0xFFFD),
        ensures
            ({
                let lo = mem_read(old(self).bus@, 0x00, 0xFFFC);
                let hi = mem_read(lo.1, 0x00, 0xFFFD);
                &&& final(self).cpu == (_65816 { pc: word16(lo.0, hi.0), ..old(self).cpu })
                &&& final(self).bus@ == hi.1
            }),
            final(self).running,
            final(self).total_cycles == old(self).total_cycles,
            final(self).frame_count == old(self).frame_count,
    {
        let vector_lo = self.bus.read(0x00, 0xFFFC) as u16;
        let vector_hi = self.bus.read(0x00, 0xFFFD) as u16;
        let reset_pc = (vector_hi << 8u16) | vector_lo;
        self.cpu.pc = reset_pc;
        self.running = true;
    }

    /// Run one frame of CPU steps when running, counting the steps and the
    /// frame. Returns whether a status report is due: a frame ran and the frame
    /// count is a multiple of 100.
    pub fn run_frame(&mut self) -> (r: bool)
        requires
            old(self).running ==> {
                &&& ticks_ok(old(self).cpu, old(self).bus@, CYCLES_PER_FRAME as nat)
                &&& old(self).cpu.cycles + TICK_CYCLES * CYCLES_PER_FRAME <= u64::MAX
                &&& old(self).total_cycles + CYCLES_PER_FRAME <= u64::MAX
                &&& old(self).frame_count + 1 <= u64::MAX
            },
        ensures
            old(self).running ==> {
                &&& (final(self).cpu, final(self).bus@) == ticks_run(
                    old(self).cpu,
                    old(self).bus@,
                    CYCLES_PER_FRAME as nat,
                )
                &&& final(self).total_cycles == old(self).total_cycles + CYCLES_PER_FRAME
                &&& final(self).frame_count == old(self).frame_count + 1
                &&& r == (final(self).frame_count % 100 == 0)
            },
            !old(self).running ==> {
                &&& final(self).cpu == old(self).cpu
                &&& final(self).bus@ == old(self).bus@
                &&& final(self).total_cycles == old(self).total_cycles
                &&& final(self).frame_count == old(self).frame_count
                &&& !r
            },
            final(self).running == old(self).running,
            final(self).bus@.cart == old(self).bus@.cart,
            ppu_wf(old(self).bus@.ppu) ==> ppu_wf(final(self).bus@.ppu),
            old(self).total_cycles == CYCLES_PER_FRAME * old(self).frame_count
                ==> final(self).total_cycles == CYCLES_PER_FRAME * final(self).frame_count,
    {
        if !self.running {
            return false;
        }
        run_ticks(&mut self.cpu, &mut self.bus, CYCLES_PER_FRAME);
        self.total_cycles = self.total_cycles + CYCLES_PER_FRAME as u64;
        self.frame_count = self.frame_count + 1;
        self.frame_count % 100 == 0
    }

    /// Press joypad button `button` (its bit number).
    pub fn press_button(&mut self, button: u8)
        ensures
            final(self).bus@.input.buttons == button_update(old(self).bus@.input.buttons, button as usize, true),
            final(self).bus@.input.shift_register == old(self).bus@.input.shift_register,
            final(self).bus@.input.strobe_latch == old(self).bus@.input.strobe_latch,
            final(self).bus@ == (BusView { input: final(self).bus@.input, ..old(self).bus@ }),
            final(self).cpu == old(self).cpu,
            final(self).running == old(self).running,
            final(self).total_cycles == old(self).total_cycles,
            final(self).frame_count == old(self).frame_count,
    {
        self.bus.input.set_button(button as usize, true);
    }

    /// Release joypad button `button` (its bit number).
    pub fn release_button(&mut self, button: u8)
        ensures
            final(self).bus@.input.buttons == button_update(old(self).bus@.input.buttons, button as usize, false),
            final(self).bus@.input.shift_register == old(self).bus@.input.shift_register,
            final(self).bus@.input.strobe_latch == old(self).bus@.input.strobe_latch,
            final(self).bus@ == (BusView { input: final(self).bus@.input, ..old(self).bus@ }),
            final(self).cpu == old(self).cpu,
            final(self).running == old(self).running,
            final(self).total_cycles == old(self).total_cycles,
            final(self).frame_count == old(self).frame_count,
    {
        self.bus.input.set_button(button as usize, false);
    }

    /// Number of non-zero bytes in video RAM, for the status report.
    pub fn vram_bytes_in_use(&self) -> (r: usize)
        ensures
            r == nonzero_count(self.bus.ppu@.vram),
    {
        let mut count: usize = 0;
        let mut i: usize = 0;
        while i < 65536
            invariant
                i <= 65536,
                count <= i,
                count == nonzero_count(self.bus.ppu@.vram.subrange(0, i as int)),
            decreases 65536 - i,
        {
            assert(self.bus.ppu@.vram.subrange(0, i + 1).drop_last() =~= self.bus.ppu@.vram.subrange(
                0,
                i as int,
            ));
            if self.bus.ppu.vram[i] != 0 {
                count = count + 1;
            }
            i = i + 1;
        }
        assert(self.bus.ppu@.vram.subrange(0, 65536) =~= self.bus.ppu@.vram);
        count
    }
}

/// The debugger window beside the emulator screen.
pub struct EmulatorWindow {}

impl EmulatorWindow {
    pub fn new() -> (r: Self) {
        EmulatorWindow {  }
    }

    /// Index of the first opcode trace line shown: only the last
    /// `TRACE_LINES` lines fit.
    pub fn trace_start(&self, trace_len: usize) -> (r: usize)
        ensures
            r == (if trace_len > TRACE_LINES { trace_len - TRACE_LINES } else { 0 }),
    {
        if trace_len > TRACE_LINES {
            trace_len - TRACE_LINES
        } else {
            0
        }
    }
}

} // verus!
