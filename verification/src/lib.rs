//! A Super Nintendo emulator core: the 65C816 CPU, the system bus with work
//! RAM and memory-mapped registers, the picture processor, the audio unit,
//! cartridge mapping, DMA and the joypad.
use vstd::prelude::*;

pub mod apu;
pub mod bits;
pub mod bus;
pub mod cart;
pub mod cpu;
pub mod cpu_flags;
pub mod dma;
pub mod emulator;
pub mod input;
pub mod mapper;
pub mod ppu;

verus! {

} // verus!
