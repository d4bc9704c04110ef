//! A 65C816 register file with each status flag held as its own boolean, and
//! the interrupt entries that act on it.
use vstd::prelude::*;

verus! {

/// Registers and separate status flags.
#[allow(non_snake_case)]
pub struct _65816 {
    /// Accumulator.
    pub a: u16,
    /// Data bank register.
    pub dbr: u8,
    /// Direct register.
    pub dr: u16,
    /// Program bank register.
    pub k: u8,
    /// Program counter.
    pub pc: u16,
    /// Status register.
    pub p: u8,
    /// Stack pointer.
    pub s: u16,
    /// X index register.
    pub X: u16,
    /// Y index register.
    pub Y: u16,
    /// Break.
    pub b: bool,
    /// Carry.
    pub c: bool,
    /// Decimal.
    pub d: bool,
    /// Emulation.
    pub e: bool,
    /// Interrupt disable.
    pub i: bool,
    /// Accumulator and memory width.
    pub m: bool,
    /// Negative.
    pub n: bool,
    /// Overflow.
    pub v: bool,
    /// Index register width.
    pub x: bool,
    /// Zero.
    pub z: bool,
}

impl _65816 {
    /// Interrupt request: B and E cleared, I set, PC at 0xFFFE.
    pub fn irq(&mut self)
        ensures
            *final(self) == (_65816 { b: false, e: false, i: true, pc: 0xfffe, ..*old(self) }),
    {
        self.b = false;
        self.e = false;
        self.i = true;
        self.pc = 0xfffe;
    }

    /// Non-maskable interrupt: B and E cleared, I set, PC at 0xFFFA.
    pub fn nmi(&mut self)
        ensures
            *final(self) == (_65816 { b: false, e: false, i: true, pc: 0xfffa, ..*old(self) }),
    {
        self.b = false;
        self.e = false;
        self.i = true;
        self.pc = 0xfffa;
    }
}

} // verus!
