//! The 65C816 main CPU: registers, status flags, addressing modes and the
//! instruction set it runs against the system bus.
use vstd::prelude::*;
use crate::bus::{
    Bus,
    BusView,
    WRAM_SIZE,
    bus_read_value,
    bus_after_read,
    bus_written,
    bus_read_defined,
    bus_faultless,
    law_cart_kept,
};
use crate::ppu::ppu_wf;

verus! {

/// The processor status flags.
#[derive(Clone, Copy)]
pub enum Flags {
    /// Carry.
    C,
    /// Zero.
    Z,
    /// Interrupt disable.
    I,
    /// Decimal.
    D,
    /// Index registers 8 bits wide.
    X,
    /// Accumulator and memory 8 bits wide.
    M,
    /// Overflow.
    V,
    /// Negative.
    N,
}

/// The bit of the status register that holds a flag.
pub open spec fn flag_mask(f: Flags) -> u8 {
    match f {
        Flags::C => 0x01,
        Flags::Z => 0x02,
        Flags::I => 0x04,
        Flags::D => 0x08,
        Flags::X => 0x10,
        Flags::M => 0x20,
        Flags::V => 0x40,
        Flags::N => 0x80,
    }
}

impl Flags {
    /// The bit of the status register that holds this flag.
    pub fn mask(self) -> (r: u8)
        ensures
            r == flag_mask(self),
    {
        match self {
            Flags::C => 0x01,
            Flags::Z => 0x02,
            Flags::I => 0x04,
            Flags::D => 0x08,
            Flags::X => 0x10,
            Flags::M => 0x20,
            Flags::V => 0x40,
            Flags::N => 0x80,
        }
    }
}

/// The addressing modes of the instruction set.
#[derive(Debug, Clone, Copy)]
pub enum AddrMode {
    Implied,
    Accumulator,
    Immediate,
    ZeroPage,
    ZeroPageX,
    ZeroPageY,
    ZeroPageIndirect,
    ZeroPageIndirectX,
    ZeroPageIndirectY,
    Absolute,
    AbsoluteX,
    AbsoluteY,
    AbsoluteIndirect,
    AbsoluteIndexedIndirect,
    IndirectIndexedAbsolute,
    LongAbsolute,
    LongAbsoluteX,
    Relative,
    LongRelative,
}

/// The CPU registers, the cycle counter and the pending interrupt lines.
pub struct _65816 {
    pub a: u16,
    /// Data bank register.
    pub dbr: u8,
    /// Direct register.
    pub dr: u16,
    /// Program bank register.
    pub k: u8,
    pub pc: u16,
    /// Status register.
    pub p: u8,
    pub s: u16,
    pub x: u16,
    pub y: u16,
    /// Emulation mode.
    pub e: bool,
    pub cycles: u64,
    pub nmi_pending: bool,
    pub irq_pending: bool,
}

/// Whether flag `f` is set in status byte `p`.
pub open spec fn flag_set(p: u8, f: Flags) -> bool {
    (p & flag_mask(f)) != 0
}

/// Status byte `p` with flag `f` set to `val`.
pub open spec fn with_flag(p: u8, f: Flags, val: bool) -> u8 {
    if val {
        p | flag_mask(f)
    } else {
        p & !flag_mask(f)
    }
}

/// The CPU with flag `f` set to `val`.
pub open spec fn flag_updated(c: _65816, f: Flags, val: bool) -> _65816 {
    _65816 { p: with_flag(c.p, f, val), ..c }
}

/// Room in the cycle counter for `n` more cycles.
pub open spec fn cycles_room(c: _65816, n: int) -> bool {
    c.cycles + n <= u64::MAX
}

/// N and Z set from a 16-bit result.
pub open spec fn nz16(c: _65816, v: u16) -> _65816 {
    flag_updated(flag_updated(c, Flags::Z, v == 0), Flags::N, (v & 0x8000) != 0)
}

/// N and Z set from an 8-bit result.
pub open spec fn nz8(c: _65816, v: u8) -> _65816 {
    flag_updated(flag_updated(c, Flags::Z, v == 0), Flags::N, (v & 0x80) != 0)
}

/// N and Z from a register value: from its low byte when the register is 8 bits wide.
pub open spec fn nz_of(c: _65816, reg: u16, narrow: bool) -> _65816 {
    if narrow {
        nz8(c, (reg & 0xFF) as u8)
    } else {
        nz16(c, reg)
    }
}

/// A register loaded with `val`: an 8-bit register keeps its high byte.
pub open spec fn loaded(reg: u16, val: u16, narrow: bool) -> u16 {
    if narrow {
        (reg & 0xFF00) | (val & 0x00FF)
    } else {
        val
    }
}

/// LDA: A loaded with `val`, N and Z from the result.
pub open spec fn lda_result(c: _65816, val: u16) -> _65816 {
    let narrow = flag_set(c.p, Flags::M);
    let a = loaded(c.a, val, narrow);
    nz_of(_65816 { a, ..c }, a, narrow)
}

/// LDX: X loaded with `val`, N and Z from the result.
pub open spec fn ldx_result(c: _65816, val: u16) -> _65816 {
    let narrow = flag_set(c.p, Flags::X);
    let x = loaded(c.x, val, narrow);
    nz_of(_65816 { x, ..c }, x, narrow)
}

/// LDY: Y loaded with `val`, N and Z from the result.
pub open spec fn ldy_result(c: _65816, val: u16) -> _65816 {
    let narrow = flag_set(c.p, Flags::X);
    let y = loaded(c.y, val, narrow);
    nz_of(_65816 { y, ..c }, y, narrow)
}

/// ADC: A plus `val` plus carry, binary; C is the carry out and V the signed
/// overflow of the register width (both operands of one sign, the result of
/// the other).
pub open spec fn adc_result(c: _65816, val: u16) -> _65816 {
    let carry: u16 = if flag_set(c.p, Flags::C) { 1 } else { 0 };
    if flag_set(c.p, Flags::M) {
        let a_low = (c.a & 0xFF) as u8;
        let result = ((a_low as u16) + (val & 0xFF) + carry) as u16;
        let a = (c.a & 0xFF00) | (result & 0xFF);
        let c1 = flag_updated(_65816 { a, ..c }, Flags::C, result > 0xFF);
        let c2 = flag_updated(c1, Flags::V, (((a_low as u16) ^ result) & (val ^ result) & 0x80) != 0);
        nz8(c2, (a & 0xFF) as u8)
    } else {
        let result = ((c.a as u32) + (val as u32) + (carry as u32)) as u32;
        let a = result as u16;
        let c1 = flag_updated(_65816 { a, ..c }, Flags::C, result > 0xFFFF);
        let c2 = flag_updated(
            c1,
            Flags::V,
            ((c.a ^ (result as u16)) & (val ^ (result as u16)) & 0x8000) != 0,
        );
        nz16(c2, a)
    }
}

/// SBC: A minus `val` minus the borrow (clear carry), wrapping; C set when no
/// borrow out of the register width, V the signed overflow (operands of
/// different signs, the result's sign differing from A's).
pub open spec fn sbc_result(c: _65816, val: u16) -> _65816 {
    let carry: u16 = if flag_set(c.p, Flags::C) { 0 } else { 1 };
    if flag_set(c.p, Flags::M) {
        let a_low = (c.a & 0xFF) as u8;
        let result = vstd::wrapping::u16_specs::wrapping_sub(
            vstd::wrapping::u16_specs::wrapping_sub(a_low as u16, val & 0xFF),
            carry,
        );
        let a = (c.a & 0xFF00) | (result & 0xFF);
        let c1 = flag_updated(_65816 { a, ..c }, Flags::C, result <= 0xFF);
        let c2 = flag_updated(
            c1,
            Flags::V,
            (((a_low as u16) ^ result) & ((a_low as u16) ^ val) & 0x80) != 0,
        );
        nz8(c2, (a & 0xFF) as u8)
    } else {
        let result = vstd::wrapping::u32_specs::wrapping_sub(
            vstd::wrapping::u32_specs::wrapping_sub(c.a as u32, val as u32),
            carry as u32,
        );
        let a = result as u16;
        let c1 = flag_updated(_65816 { a, ..c }, Flags::C, result <= 0xFFFF);
        let c2 = flag_updated(
            c1,
            Flags::V,
            ((c.a ^ (result as u16)) & (c.a ^ val) & 0x8000) != 0,
        );
        nz16(c2, a)
    }
}

/// AND: A and `val`; an 8-bit A keeps its high byte.
pub open spec fn and_result(c: _65816, val: u16) -> _65816 {
    if flag_set(c.p, Flags::M) {
        let a = (c.a & 0xFF00) | ((c.a & val) & 0xFF);
        nz8(_65816 { a, ..c }, (a & 0xFF) as u8)
    } else {
        nz16(_65816 { a: c.a & val, ..c }, c.a & val)
    }
}

/// ORA: A or `val`; an 8-bit A keeps its high byte.
pub open spec fn ora_result(c: _65816, val: u16) -> _65816 {
    if flag_set(c.p, Flags::M) {
        let a = (c.a & 0xFF00) | ((c.a | val) & 0xFF);
        nz8(_65816 { a, ..c }, (a & 0xFF) as u8)
    } else {
        nz16(_65816 { a: c.a | val, ..c }, c.a | val)
    }
}

/// EOR: A exclusive-or `val`; an 8-bit A keeps its high byte.
pub open spec fn eor_result(c: _65816, val: u16) -> _65816 {
    if flag_set(c.p, Flags::M) {
        let a = (c.a & 0xFF00) | ((c.a ^ val) & 0xFF);
        nz8(_65816 { a, ..c }, (a & 0xFF) as u8)
    } else {
        nz16(_65816 { a: c.a ^ val, ..c }, c.a ^ val)
    }
}

/// ASL A: shift left, C from the top bit of the register width.
pub open spec fn asl_result(c: _65816) -> _65816 {
    if flag_set(c.p, Flags::M) {
        let val = (c.a & 0xFF) as u8;
        let c1 = flag_updated(c, Flags::C, (val & 0x80) != 0);
        let a = (c.a & 0xFF00) | (((val << 1u8) as u16) & 0xFF);
        nz8(_65816 { a, ..c1 }, (a & 0xFF) as u8)
    } else {
        let c1 = flag_updated(c, Flags::C, (c.a & 0x8000) != 0);
        let a = vstd::wrapping::u16_specs::wrapping_shl(c.a, 1);
        nz16(_65816 { a, ..c1 }, a)
    }
}

/// LSR A: shift right, C from bit 0.
pub open spec fn lsr_result(c: _65816) -> _65816 {
    if flag_set(c.p, Flags::M) {
        let val = (c.a & 0xFF) as u8;
        let c1 = flag_updated(c, Flags::C, (val & 0x01) != 0);
        let a = (c.a & 0xFF00) | (((val >> 1u8) as u16) & 0xFF);
        nz8(_65816 { a, ..c1 }, (a & 0xFF) as u8)
    } else {
        let c1 = flag_updated(c, Flags::C, (c.a & 0x01) != 0);
        let a = vstd::wrapping::u16_specs::wrapping_shr(c.a, 1);
        nz16(_65816 { a, ..c1 }, a)
    }
}

/// ROL A: rotate left through carry.
pub open spec fn rol_result(c: _65816) -> _65816 {
    if flag_set(c.p, Flags::M) {
        let val = (c.a & 0xFF) as u8;
        let carry: u8 = if flag_set(c.p, Flags::C) { 1 } else { 0 };
        let c1 = flag_updated(c, Flags::C, (val & 0x80) != 0);
        let a = (c.a & 0xFF00) | ((((val << 1u8) | carry) as u16) & 0xFF);
        nz8(_65816 { a, ..c1 }, (a & 0xFF) as u8)
    } else {
        let carry: u16 = if flag_set(c.p, Flags::C) { 1 } else { 0 };
        let c1 = flag_updated(c, Flags::C, (c.a & 0x8000) != 0);
        let a = vstd::wrapping::u16_specs::wrapping_shl(c.a, 1) | carry;
        nz16(_65816 { a, ..c1 }, a)
    }
}

/// ROR A: rotate right through carry.
pub open spec fn ror_result(c: _65816) -> _65816 {
    if flag_set(c.p, Flags::M) {
        let val = (c.a & 0xFF) as u8;
        let carry: u8 = if flag_set(c.p, Flags::C) { 0x80 } else { 0 };
        let c1 = flag_updated(c, Flags::C, (val & 0x01) != 0);
        let a = (c.a & 0xFF00) | ((((val >> 1u8) | carry) as u16) & 0xFF);
        nz8(_65816 { a, ..c1 }, (a & 0xFF) as u8)
    } else {
        let carry: u16 = if flag_set(c.p, Flags::C) { 0x8000 } else { 0 };
        let c1 = flag_updated(c, Flags::C, (c.a & 0x01) != 0);
        let a = vstd::wrapping::u16_specs::wrapping_shr(c.a, 1) | carry;
        nz16(_65816 { a, ..c1 }, a)
    }
}

/// CMP, CPX, CPY: C set when `reg >= val` in the register width, N and Z from
/// the wrapped difference.
pub open spec fn compared(c: _65816, reg: u16, val: u16, narrow: bool) -> _65816 {
    if narrow {
        let low = (reg & 0xFF) as u8;
        let v = (val & 0xFF) as u8;
        nz8(flag_updated(c, Flags::C, low >= v), vstd::wrapping::u8_specs::wrapping_sub(low, v))
    } else {
        nz16(flag_updated(c, Flags::C, reg >= val), vstd::wrapping::u16_specs::wrapping_sub(reg, val))
    }
}

/// BIT: Z from A and `val`, N and V copied from the top two bits of `val`.
pub open spec fn bit_result(c: _65816, val: u16) -> _65816 {
    if flag_set(c.p, Flags::M) {
        let c1 = flag_updated(c, Flags::Z, ((c.a & val) as u8) == 0);
        let c2 = flag_updated(c1, Flags::N, (val & 0x80) != 0);
        flag_updated(c2, Flags::V, (val & 0x40) != 0)
    } else {
        let c1 = flag_updated(c, Flags::Z, (c.a & val) == 0);
        let c2 = flag_updated(c1, Flags::N, (val & 0x8000) != 0);
        flag_updated(c2, Flags::V, (val & 0x4000) != 0)
    }
}

/// A register plus one, wrapping in its width; an 8-bit register keeps its high byte.
pub open spec fn incremented(reg: u16, narrow: bool) -> u16 {
    if narrow {
        (reg & 0xFF00) | (vstd::wrapping::u16_specs::wrapping_add(reg & 0xFF, 1) & 0xFF)
    } else {
        vstd::wrapping::u16_specs::wrapping_add(reg, 1)
    }
}

/// A register minus one, wrapping in its width; an 8-bit register keeps its high byte.
pub open spec fn decremented(reg: u16, narrow: bool) -> u16 {
    if narrow {
        (reg & 0xFF00) | (vstd::wrapping::u16_specs::wrapping_sub(reg & 0xFF, 1) & 0xFF)
    } else {
        vstd::wrapping::u16_specs::wrapping_sub(reg, 1)
    }
}

/// A byte read at `bank:addr`, with the bus after the read.
pub open spec fn mem_read(b: BusView, bank: u8, addr: u16) -> (u8, BusView) {
    (bus_read_value(b, bank, addr), bus_after_read(b, bank, addr))
}

/// A 16-bit value from its low and high bytes.
pub open spec fn word16(lo: u8, hi: u8) -> u16 {
    ((hi as u16) << 8u16) | (lo as u16)
}

/// An instruction byte fetched at `k:pc`: PC moves on by one (wrapping in the
/// bank) and the fetch costs eight cycles.
pub open spec fn pc_fetch(c: _65816, b: BusView) -> (u8, _65816, BusView) {
    (
        bus_read_value(b, c.k, c.pc),
        _65816 {
            pc: vstd::wrapping::u16_specs::wrapping_add(c.pc, 1),
            cycles: (c.cycles + 8) as u64,
            ..c
        },
        bus_after_read(b, c.k, c.pc),
    )
}

/// A 16-bit operand fetched low byte first.
pub open spec fn pc_fetch16(c: _65816, b: BusView) -> (u16, _65816, BusView) {
    let lo = pc_fetch(c, b);
    let hi = pc_fetch(lo.1, lo.2);
    (word16(lo.0, hi.0), hi.1, hi.2)
}

/// Absolute: a 16-bit operand in the data bank.
pub open spec fn ea_absolute(c: _65816, b: BusView) -> (u32, _65816, BusView) {
    let w = pc_fetch16(c, b);
    (((c.dbr as u32) << 16u32) | (w.0 as u32), w.1, w.2)
}

/// Absolute indexed: the operand plus an index, wrapping inside the data bank.
pub open spec fn ea_absolute_indexed(c: _65816, b: BusView, index: u16) -> (u32, _65816, BusView) {
    let w = pc_fetch16(c, b);
    (
        ((c.dbr as u32) << 16u32) | ((vstd::wrapping::u32_specs::wrapping_add(
            w.0 as u32,
            index as u32,
        ) as u16) as u32),
        w.1,
        w.2,
    )
}

/// Zero page: an 8-bit operand.
pub open spec fn ea_zeropage(c: _65816, b: BusView) -> (u16, _65816, BusView) {
    let f = pc_fetch(c, b);
    (f.0 as u16, f.1, f.2)
}

/// Zero page indexed: the operand plus the low byte of an index, wrapping in the page.
pub open spec fn ea_zeropage_indexed(c: _65816, b: BusView, index: u16) -> (u16, _65816, BusView) {
    let f = pc_fetch(c, b);
    (vstd::wrapping::u8_specs::wrapping_add(f.0, index as u8) as u16, f.1, f.2)
}

/// (Indirect,X): a pointer read from bank 0 at the operand plus the low byte of X.
pub open spec fn ea_indirect_x(c: _65816, b: BusView) -> (u16, _65816, BusView) {
    let f = pc_fetch(c, b);
    let zp = vstd::wrapping::u8_specs::wrapping_add(f.0, c.x as u8);
    let lo = mem_read(f.2, 0, zp as u16);
    let hi = mem_read(lo.1, 0, vstd::wrapping::u8_specs::wrapping_add(zp, 1) as u16);
    (word16(lo.0, hi.0), f.1, hi.1)
}

/// (Indirect),Y: a pointer read from bank 0 at the operand, plus Y, wrapping.
pub open spec fn ea_indirect_y(c: _65816, b: BusView) -> (u16, _65816, BusView) {
    let f = pc_fetch(c, b);
    let lo = mem_read(f.2, 0, f.0 as u16);
    let hi = mem_read(lo.1, 0, vstd::wrapping::u8_specs::wrapping_add(f.0, 1) as u16);
    (vstd::wrapping::u16_specs::wrapping_add(word16(lo.0, hi.0), c.y), f.1, hi.1)
}

/// Long absolute: a 24-bit operand, low byte first.
pub open spec fn ea_long(c: _65816, b: BusView) -> (u32, _65816, BusView) {
    let l = pc_fetch(c, b);
    let m = pc_fetch(l.1, l.2);
    let h = pc_fetch(m.1, m.2);
    (((h.0 as u32) << 16u32) | ((m.0 as u32) << 8u32) | (l.0 as u32), h.1, h.2)
}

/// The bus after a register is stored at `addr`: its low byte, and when it is
/// 16 bits wide its high byte at the next address in the same bank.
pub open spec fn stored(b: BusView, addr: u32, val: u16, narrow: bool) -> BusView {
    let bank = (addr >> 16u32) as u8;
    let b1 = bus_written(b, bank, addr as u16, (val & 0xFF) as u8);
    if narrow {
        b1
    } else {
        bus_written(b1, bank, (addr + 1) as u16, ((val >> 8u16) & 0xFF) as u8)
    }
}

/// A byte pushed: written to bank 0 at S, then S decremented (wrapping).
pub open spec fn pushed8(c: _65816, b: BusView, val: u8) -> (_65816, BusView) {
    (
        _65816 { s: vstd::wrapping::u16_specs::wrapping_sub(c.s, 1), ..c },
        bus_written(b, 0, c.s, val),
    )
}

/// A word pushed high byte first.
pub open spec fn pushed16(c: _65816, b: BusView, val: u16) -> (_65816, BusView) {
    let h = pushed8(c, b, ((val >> 8u16) & 0xFF) as u8);
    pushed8(h.0, h.1, (val & 0xFF) as u8)
}

/// A byte pulled: S incremented (wrapping), then read from bank 0 at S.
pub open spec fn pulled8(c: _65816, b: BusView) -> (u8, _65816, BusView) {
    let s = vstd::wrapping::u16_specs::wrapping_add(c.s, 1);
    (bus_read_value(b, 0, s), _65816 { s, ..c }, bus_after_read(b, 0, s))
}

/// A word pulled low byte first.
pub open spec fn pulled16(c: _65816, b: BusView) -> (u16, _65816, BusView) {
    let lo = pulled8(c, b);
    let hi = pulled8(lo.1, lo.2);
    (word16(lo.0, hi.0), hi.1, hi.2)
}

/// A register pushed in its width.
pub open spec fn pushed_reg(c: _65816, b: BusView, reg: u16, narrow: bool) -> (_65816, BusView) {
    if narrow {
        pushed8(c, b, (reg & 0xFF) as u8)
    } else {
        pushed16(c, b, reg)
    }
}

/// A value pulled in a register's width.
pub open spec fn pulled_reg(c: _65816, b: BusView, narrow: bool) -> (u16, _65816, BusView) {
    if narrow {
        let r = pulled8(c, b);
        (r.0 as u16, r.1, r.2)
    } else {
        pulled16(c, b)
    }
}

/// A relative branch: the offset byte is fetched, and when `take` holds PC
/// moves by the signed offset, wrapping in the bank.
pub open spec fn branched(c: _65816, b: BusView, take: bool) -> (_65816, BusView) {
    let f = pc_fetch(c, b);
    if take {
        (
            _65816 {
                pc: vstd::wrapping::u16_specs::wrapping_add(f.1.pc, (f.0 as i8) as u16),
                ..f.1
            },
            f.2,
        )
    } else {
        (f.1, f.2)
    }
}

/// The CPU after a jump to a 24-bit address.
pub open spec fn jumped(c: _65816, addr: u32) -> _65816 {
    _65816 { k: (addr >> 16u32) as u8, pc: addr as u16, ..c }
}

/// JSR: PC minus one pushed, then a jump.
pub open spec fn called(c: _65816, b: BusView, addr: u32) -> (_65816, BusView) {
    let p = pushed16(c, b, vstd::wrapping::u16_specs::wrapping_sub(c.pc, 1));
    (jumped(p.0, addr), p.1)
}

/// RTS: a word pulled, PC set to it plus one.
pub open spec fn returned(c: _65816, b: BusView) -> (_65816, BusView) {
    let r = pulled16(c, b);
    (_65816 { pc: vstd::wrapping::u16_specs::wrapping_add(r.0, 1), ..r.1 }, r.2)
}

/// RTI: PC pulled, then the status byte, undoing interrupt entry's pushes.
pub open spec fn returned_from_interrupt(c: _65816, b: BusView) -> (_65816, BusView) {
    let w = pulled16(c, b);
    let p = pulled8(_65816 { pc: w.0, ..w.1 }, w.2);
    (_65816 { p: p.0, ..p.1 }, p.2)
}

/// A byte pushed during interrupt entry: like a push, and eight cycles.
pub open spec fn pushed_byte(c: _65816, b: BusView, val: u8) -> (_65816, BusView) {
    (
        _65816 {
            s: vstd::wrapping::u16_specs::wrapping_sub(c.s, 1),
            cycles: (c.cycles + 8) as u64,
            ..c
        },
        bus_written(b, 0, c.s, val),
    )
}

/// A word pushed during interrupt entry, high byte first.
pub open spec fn pushed_word(c: _65816, b: BusView, val: u16) -> (_65816, BusView) {
    let h = pushed_byte(c, b, (val >> 8u16) as u8);
    pushed_byte(h.0, h.1, val as u8)
}

/// Interrupt entry through the vector at bank 0 `vector`: P then PC pushed, I
/// set, PC loaded from the vector, 24 cycles more.
pub open spec fn interrupt_entered(c: _65816, b: BusView, vector: u16) -> (_65816, BusView) {
    let p1 = pushed_byte(c, b, c.p);
    let p2 = pushed_word(p1.0, p1.1, c.pc);
    let c3 = flag_updated(p2.0, Flags::I, true);
    let lo = mem_read(p2.1, 0, vector);
    let hi = mem_read(lo.1, 0, (vector + 1) as u16);
    (_65816 { pc: word16(lo.0, hi.0), cycles: (c3.cycles + 24) as u64, ..c3 }, hi.1)
}

/// NMI entry: through the vector at 0xFFEA.
pub open spec fn nmi_entered(c: _65816, b: BusView) -> (_65816, BusView) {
    interrupt_entered(c, b, 0xFFEA)
}

/// IRQ entry: ignored while I is set, otherwise through the vector at 0xFFEE.
pub open spec fn irq_entered(c: _65816, b: BusView) -> (_65816, BusView) {
    if flag_set(c.p, Flags::I) {
        (c, b)
    } else {
        interrupt_entered(c, b, 0xFFEE)
    }
}

/// The operations of the instruction set the CPU implements.
#[derive(Clone, Copy)]
pub enum Op {
    /// Add with carry.
    Adc,
    /// And with A.
    And,
    /// Shift A left.
    Asl,
    /// Branch if carry clear.
    Bcc,
    /// Branch if carry set.
    Bcs,
    /// Branch if zero.
    Beq,
    /// Test bits against A.
    Bit,
    /// Branch if negative.
    Bmi,
    /// Branch if not zero.
    Bne,
    /// Branch if not negative.
    Bpl,
    /// Branch always.
    Bra,
    /// Branch if overflow clear.
    Bvc,
    /// Branch if overflow set.
    Bvs,
    /// Clear carry.
    Clc,
    /// Clear decimal.
    Cld,
    /// Clear interrupt disable.
    Cli,
    /// Clear overflow.
    Clv,
    /// Compare with A.
    Cmp,
    /// Compare with X.
    Cpx,
    /// Compare with Y.
    Cpy,
    /// Decrement memory.
    Dec,
    /// Decrement X.
    Dex,
    /// Decrement Y.
    Dey,
    /// Exclusive-or with A.
    Eor,
    /// Increment memory.
    Inc,
    /// Increment X.
    Inx,
    /// Increment Y.
    Iny,
    /// Jump.
    Jmp,
    /// Jump to subroutine.
    Jsr,
    /// Load A.
    Lda,
    /// Load X.
    Ldx,
    /// Load Y.
    Ldy,
    /// Shift A right.
    Lsr,
    /// No operation.
    Nop,
    /// Or with A.
    Ora,
    /// Push A.
    Pha,
    /// Push the status register.
    Php,
    /// Pull A.
    Pla,
    /// Pull the status register.
    Plp,
    /// Push X.
    Phx,
    /// Pull X.
    Plx,
    /// Push Y.
    Phy,
    /// Pull Y.
    Ply,
    /// Clear status bits.
    Rep,
    /// Rotate A left.
    Rol,
    /// Rotate A right.
    Ror,
    /// Return from interrupt.
    Rti,
    /// Return from subroutine.
    Rts,
    /// Subtract with borrow.
    Sbc,
    /// Set carry.
    Sec,
    /// Set decimal.
    Sed,
    /// Set interrupt disable.
    Sei,
    /// Set status bits.
    Sep,
    /// Store A.
    Sta,
    /// Store X.
    Stx,
    /// Store Y.
    Sty,
    /// A to X.
    Tax,
    /// A to Y.
    Tay,
    /// X to A.
    Txa,
    /// Y to A.
    Tya,
    /// S to X.
    Tsx,
    /// X to S.
    Txs,
    /// An opcode the CPU does not implement; it costs two cycles.
    Unknown,
}

/// The operation and addressing mode of each opcode.
pub open spec fn decoded(opcode: u8) -> (Op, AddrMode) {
    match opcode {
        0x69 => (Op::Adc, AddrMode::Immediate),
        0x65 => (Op::Adc, AddrMode::ZeroPage),
        0x75 => (Op::Adc, AddrMode::ZeroPageX),
        0x6D => (Op::Adc, AddrMode::Absolute),
        0x7D => (Op::Adc, AddrMode::AbsoluteX),
        0x79 => (Op::Adc, AddrMode::AbsoluteY),
        0x61 => (Op::Adc, AddrMode::ZeroPageIndirectX),
        0x71 => (Op::Adc, AddrMode::ZeroPageIndirectY),
        0x29 => (Op::And, AddrMode::Immediate),
        0x25 => (Op::And, AddrMode::ZeroPage),
        0x35 => (Op::And, AddrMode::ZeroPageX),
        0x2D => (Op::And, AddrMode::Absolute),
        0x3D => (Op::And, AddrMode::AbsoluteX),
        0x39 => (Op::And, AddrMode::AbsoluteY),
        0x21 => (Op::And, AddrMode::ZeroPageIndirectX),
        0x31 => (Op::And, AddrMode::ZeroPageIndirectY),
        0x0A => (Op::Asl, AddrMode::Accumulator),
        0x90 => (Op::Bcc, AddrMode::Relative),
        0xB0 => (Op::Bcs, AddrMode::Relative),
        0xF0 => (Op::Beq, AddrMode::Relative),
        0x24 => (Op::Bit, AddrMode::ZeroPage),
        0x2C => (Op::Bit, AddrMode::Absolute),
        0x30 => (Op::Bmi, AddrMode::Relative),
        0xD0 => (Op::Bne, AddrMode::Relative),
        0x10 => (Op::Bpl, AddrMode::Relative),
        0x80 => (Op::Bra, AddrMode::Relative),
        0x50 => (Op::Bvc, AddrMode::Relative),
        0x70 => (Op::Bvs, AddrMode::Relative),
        0x18 => (Op::Clc, AddrMode::Implied),
        0xD8 => (Op::Cld, AddrMode::Implied),
        0x58 => (Op::Cli, AddrMode::Implied),
        0xB8 => (Op::Clv, AddrMode::Implied),
        0xC9 => (Op::Cmp, AddrMode::Immediate),
        0xC5 => (Op::Cmp, AddrMode::ZeroPage),
        0xD5 => (Op::Cmp, AddrMode::ZeroPageX),
        0xCD => (Op::Cmp, AddrMode::Absolute),
        0xDD => (Op::Cmp, AddrMode::AbsoluteX),
        0xD9 => (Op::Cmp, AddrMode::AbsoluteY),
        0xC1 => (Op::Cmp, AddrMode::ZeroPageIndirectX),
        0xD1 => (Op::Cmp, AddrMode::ZeroPageIndirectY),
        0xE0 => (Op::Cpx, AddrMode::Immediate),
        0xE4 => (Op::Cpx, AddrMode::ZeroPage),
        0xEC => (Op::Cpx, AddrMode::Absolute),
        0xC0 => (Op::Cpy, AddrMode::Immediate),
        0xC4 => (Op::Cpy, AddrMode::ZeroPage),
        0xCC => (Op::Cpy, AddrMode::Absolute),
        0xC6 => (Op::Dec, AddrMode::ZeroPage),
        0xD6 => (Op::Dec, AddrMode::ZeroPageX),
        0xCE => (Op::Dec, AddrMode::Absolute),
        0xDE => (Op::Dec, AddrMode::AbsoluteX),
        0xCA => (Op::Dex, AddrMode::Implied),
        0x88 => (Op::Dey, AddrMode::Implied),
        0x49 => (Op::Eor, AddrMode::Immediate),
        0x45 => (Op::Eor, AddrMode::ZeroPage),
        0x55 => (Op::Eor, AddrMode::ZeroPageX),
        0x4D => (Op::Eor, AddrMode::Absolute),
        0x5D => (Op::Eor, AddrMode::AbsoluteX),
        0x59 => (Op::Eor, AddrMode::AbsoluteY),
        0x41 => (Op::Eor, AddrMode::ZeroPageIndirectX),
        0x51 => (Op::Eor, AddrMode::ZeroPageIndirectY),
        0xE6 => (Op::Inc, AddrMode::ZeroPage),
        0xF6 => (Op::Inc, AddrMode::ZeroPageX),
        0xEE => (Op::Inc, AddrMode::Absolute),
        0xFE => (Op::Inc, AddrMode::AbsoluteX),
        0xE8 => (Op::Inx, AddrMode::Implied),
        0xC8 => (Op::Iny, AddrMode::Implied),
        0x4C => (Op::Jmp, AddrMode::Absolute),
        0x5C => (Op::Jmp, AddrMode::LongAbsolute),
        0x20 => (Op::Jsr, AddrMode::Absolute),
        0xA9 => (Op::Lda, AddrMode::Immediate),
        0xA5 => (Op::Lda, AddrMode::ZeroPage),
        0xB5 => (Op::Lda, AddrMode::ZeroPageX),
        0xAD => (Op::Lda, AddrMode::Absolute),
        0xBD => (Op::Lda, AddrMode::AbsoluteX),
        0xB9 => (Op::Lda, AddrMode::AbsoluteY),
        0xA1 => (Op::Lda, AddrMode::ZeroPageIndirectX),
        0xB1 => (Op::Lda, AddrMode::ZeroPageIndirectY),
        0xA2 => (Op::Ldx, AddrMode::Immediate),
        0xA6 => (Op::Ldx, AddrMode::ZeroPage),
        0xB6 => (Op::Ldx, AddrMode::ZeroPageY),
        0xAE => (Op::Ldx, AddrMode::Absolute),
        0xBE => (Op::Ldx, AddrMode::AbsoluteY),
        0xA0 => (Op::Ldy, AddrMode::Immediate),
        0xA4 => (Op::Ldy, AddrMode::ZeroPage),
        0xB4 => (Op::Ldy, AddrMode::ZeroPageX),
        0xAC => (Op::Ldy, AddrMode::Absolute),
        0xBC => (Op::Ldy, AddrMode::AbsoluteX),
        0x4A => (Op::Lsr, AddrMode::Accumulator),
        0xEA => (Op::Nop, AddrMode::Implied),
        0x09 => (Op::Ora, AddrMode::Immediate),
        0x05 => (Op::Ora, AddrMode::ZeroPage),
        0x15 => (Op::Ora, AddrMode::ZeroPageX),
        0x0D => (Op::Ora, AddrMode::Absolute),
        0x1D => (Op::Ora, AddrMode::AbsoluteX),
        0x19 => (Op::Ora, AddrMode::AbsoluteY),
        0x01 => (Op::Ora, AddrMode::ZeroPageIndirectX),
        0x11 => (Op::Ora, AddrMode::ZeroPageIndirectY),
        0x48 => (Op::Pha, AddrMode::Implied),
        0x08 => (Op::Php, AddrMode::Implied),
        0x68 => (Op::Pla, AddrMode::Implied),
        0x28 => (Op::Plp, AddrMode::Implied),
        0xDA => (Op::Phx, AddrMode::Implied),
        0xFA => (Op::Plx, AddrMode::Implied),
        0x5A => (Op::Phy, AddrMode::Implied),
        0x7A => (Op::Ply, AddrMode::Implied),
        0xC2 => (Op::Rep, AddrMode::Immediate),
        0x2A => (Op::Rol, AddrMode::Accumulator),
        0x6A => (Op::Ror, AddrMode::Accumulator),
        0x40 => (Op::Rti, AddrMode::Implied),
        0x60 => (Op::Rts, AddrMode::Implied),
        0xE9 => (Op::Sbc, AddrMode::Immediate),
        0xE5 => (Op::Sbc, AddrMode::ZeroPage),
        0xF5 => (Op::Sbc, AddrMode::ZeroPageX),
        0xED => (Op::Sbc, AddrMode::Absolute),
        0xFD => (Op::Sbc, AddrMode::AbsoluteX),
        0xF9 => (Op::Sbc, AddrMode::AbsoluteY),
        0xE1 => (Op::Sbc, AddrMode::ZeroPageIndirectX),
        0xF1 => (Op::Sbc, AddrMode::ZeroPageIndirectY),
        0x38 => (Op::Sec, AddrMode::Implied),
        0xF8 => (Op::Sed, AddrMode::Implied),
        0x78 => (Op::Sei, AddrMode::Implied),
        0xE2 => (Op::Sep, AddrMode::Immediate),
        0x85 => (Op::Sta, AddrMode::ZeroPage),
        0x95 => (Op::Sta, AddrMode::ZeroPageX),
        0x8D => (Op::Sta, AddrMode::Absolute),
        0x9D => (Op::Sta, AddrMode::AbsoluteX),
        0x99 => (Op::Sta, AddrMode::AbsoluteY),
        0x81 => (Op::Sta, AddrMode::ZeroPageIndirectX),
        0x91 => (Op::Sta, AddrMode::ZeroPageIndirectY),
        0x86 => (Op::Stx, AddrMode::ZeroPage),
        0x96 => (Op::Stx, AddrMode::ZeroPageY),
        0x8E => (Op::Stx, AddrMode::Absolute),
        0x84 => (Op::Sty, AddrMode::ZeroPage),
        0x94 => (Op::Sty, AddrMode::ZeroPageX),
        0x8C => (Op::Sty, AddrMode::Absolute),
        0xAA => (Op::Tax, AddrMode::Implied),
        0xA8 => (Op::Tay, AddrMode::Implied),
        0x8A => (Op::Txa, AddrMode::Implied),
        0x98 => (Op::Tya, AddrMode::Implied),
        0xBA => (Op::Tsx, AddrMode::Implied),
        0x9A => (Op::Txs, AddrMode::Implied),
        _ => (Op::Unknown, AddrMode::Implied),
    }
}

/// Operations that read an operand and change only registers.
pub open spec fn is_read_op(op: Op) -> bool {
    op is Adc || op is And || op is Bit || op is Cmp || op is Cpx || op is Cpy || op is Eor || op is Lda || op is Ldx || op is Ldy || op is Ora || op is Sbc
}

/// Operations that store a register.
pub open spec fn is_store_op(op: Op) -> bool {
    op is Sta || op is Stx || op is Sty
}

/// Operations that change a byte of memory.
pub open spec fn is_rmw_op(op: Op) -> bool {
    op is Inc || op is Dec
}

/// Branches, jumps, returns, stack operations and status-bit operations.
pub open spec fn is_control_op(op: Op) -> bool {
    op is Bcc || op is Bcs || op is Beq || op is Bmi || op is Bne || op is Bpl || op is Bra || op is Bvc || op is Bvs || op is Jmp || op is Jsr || op is Rts || op is Rti || op is Sep || op is Rep || op is Pha || op is Php || op is Pla || op is Plp || op is Phx || op is Plx || op is Phy || op is Ply
}

/// The operand of a read instruction in `mode`, with the CPU and bus after
/// fetching it: the immediate byte, or the byte at the effective address
/// (bank 0 for the zero page and indirect modes, the address's bank otherwise).
pub open spec fn operand_fetch(mode: AddrMode, c: _65816, b: BusView) -> (u16, _65816, BusView) {
    match mode {
        AddrMode::Immediate => {
            let f = pc_fetch(c, b);
            (f.0 as u16, f.1, f.2)
        },
        AddrMode::ZeroPage => {
            let e = ea_zeropage(c, b);
            let r = mem_read(e.2, 0, e.0);
            (r.0 as u16, e.1, r.1)
        },
        AddrMode::ZeroPageX => {
            let e = ea_zeropage_indexed(c, b, c.x);
            let r = mem_read(e.2, 0, e.0);
            (r.0 as u16, e.1, r.1)
        },
        AddrMode::ZeroPageY => {
            let e = ea_zeropage_indexed(c, b, c.y);
            let r = mem_read(e.2, 0, e.0);
            (r.0 as u16, e.1, r.1)
        },
        AddrMode::ZeroPageIndirectX => {
            let e = ea_indirect_x(c, b);
            let r = mem_read(e.2, 0, e.0);
            (r.0 as u16, e.1, r.1)
        },
        AddrMode::ZeroPageIndirectY => {
            let e = ea_indirect_y(c, b);
            let r = mem_read(e.2, 0, e.0);
            (r.0 as u16, e.1, r.1)
        },
        AddrMode::Absolute => {
            let e = ea_absolute(c, b);
            let r = mem_read(e.2, (e.0 >> 16u32) as u8, e.0 as u16);
            (r.0 as u16, e.1, r.1)
        },
        AddrMode::AbsoluteX => {
            let e = ea_absolute_indexed(c, b, c.x);
            let r = mem_read(e.2, (e.0 >> 16u32) as u8, e.0 as u16);
            (r.0 as u16, e.1, r.1)
        },
        AddrMode::AbsoluteY => {
            let e = ea_absolute_indexed(c, b, c.y);
            let r = mem_read(e.2, (e.0 >> 16u32) as u8, e.0 as u16);
            (r.0 as u16, e.1, r.1)
        },
        _ => (0, c, b),
    }
}

/// The effective address of a store, read-modify-write or jump in `mode`, with
/// the CPU and bus after fetching the operand.
pub open spec fn address_fetch(mode: AddrMode, c: _65816, b: BusView) -> (u32, _65816, BusView) {
    match mode {
        AddrMode::ZeroPage => {
            let e = ea_zeropage(c, b);
            (e.0 as u32, e.1, e.2)
        },
        AddrMode::ZeroPageX => {
            let e = ea_zeropage_indexed(c, b, c.x);
            (e.0 as u32, e.1, e.2)
        },
        AddrMode::ZeroPageY => {
            let e = ea_zeropage_indexed(c, b, c.y);
            (e.0 as u32, e.1, e.2)
        },
        AddrMode::ZeroPageIndirectX => {
            let e = ea_indirect_x(c, b);
            (e.0 as u32, e.1, e.2)
        },
        AddrMode::ZeroPageIndirectY => {
            let e = ea_indirect_y(c, b);
            (e.0 as u32, e.1, e.2)
        },
        AddrMode::Absolute => ea_absolute(c, b),
        AddrMode::AbsoluteX => ea_absolute_indexed(c, b, c.x),
        AddrMode::AbsoluteY => ea_absolute_indexed(c, b, c.y),
        AddrMode::LongAbsolute => ea_long(c, b),
        _ => (0, c, b),
    }
}

/// A read operation applied to its operand.
pub open spec fn read_op_applied(op: Op, c: _65816, val: u16) -> _65816 {
    match op {
        Op::Adc => adc_result(c, val),
        Op::And => and_result(c, val),
        Op::Bit => bit_result(c, val),
        Op::Cmp => compared(c, c.a, val, flag_set(c.p, Flags::M)),
        Op::Cpx => compared(c, c.x, val, flag_set(c.p, Flags::X)),
        Op::Cpy => compared(c, c.y, val, flag_set(c.p, Flags::X)),
        Op::Eor => eor_result(c, val),
        Op::Lda => lda_result(c, val),
        Op::Ldx => ldx_result(c, val),
        Op::Ldy => ldy_result(c, val),
        Op::Ora => ora_result(c, val),
        Op::Sbc => sbc_result(c, val),
        _ => c,
    }
}

/// A read instruction: operand fetched, operation applied.
pub open spec fn read_op_done(op: Op, mode: AddrMode, c: _65816, b: BusView) -> (_65816, BusView) {
    let f = operand_fetch(mode, c, b);
    (read_op_applied(op, f.1, f.0), f.2)
}

/// A store instruction: address fetched, register stored in its width.
pub open spec fn store_op_done(op: Op, mode: AddrMode, c: _65816, b: BusView) -> (_65816, BusView) {
    let e = address_fetch(mode, c, b);
    let b2 = match op {
        Op::Sta => stored(e.2, e.0, e.1.a, flag_set(e.1.p, Flags::M)),
        Op::Stx => stored(e.2, e.0, e.1.x, flag_set(e.1.p, Flags::X)),
        _ => stored(e.2, e.0, e.1.y, flag_set(e.1.p, Flags::X)),
    };
    (e.1, b2)
}

/// INC or DEC on memory: the byte at the effective address read, stepped by
/// one (wrapping) and written back, flags untouched; zero page modes use bank 0.
pub open spec fn rmw_op_done(op: Op, mode: AddrMode, c: _65816, b: BusView) -> (_65816, BusView) {
    let e = address_fetch(mode, c, b);
    let bank: u8 = if mode is Absolute || mode is AbsoluteX {
        (e.0 >> 16u32) as u8
    } else {
        0
    };
    let r = mem_read(e.2, bank, e.0 as u16);
    let v = if op is Inc {
        vstd::wrapping::u8_specs::wrapping_add(r.0, 1)
    } else {
        vstd::wrapping::u8_specs::wrapping_sub(r.0, 1)
    };
    (e.1, bus_written(r.1, bank, e.0 as u16, v))
}

/// A branch, jump, return, stack or status-bit instruction.
pub open spec fn control_op_done(op: Op, mode: AddrMode, c: _65816, b: BusView) -> (_65816, BusView) {
    match op {
        Op::Bcc => branched(c, b, !flag_set(c.p, Flags::C)),
        Op::Bcs => branched(c, b, flag_set(c.p, Flags::C)),
        Op::Beq => branched(c, b, flag_set(c.p, Flags::Z)),
        Op::Bmi => branched(c, b, flag_set(c.p, Flags::N)),
        Op::Bne => branched(c, b, !flag_set(c.p, Flags::Z)),
        Op::Bpl => branched(c, b, !flag_set(c.p, Flags::N)),
        Op::Bra => branched(c, b, true),
        Op::Bvc => branched(c, b, !flag_set(c.p, Flags::V)),
        Op::Bvs => branched(c, b, flag_set(c.p, Flags::V)),
        Op::Jmp => {
            let e = address_fetch(mode, c, b);
            (jumped(e.1, e.0), e.2)
        },
        Op::Jsr => {
            let e = address_fetch(mode, c, b);
            called(e.1, e.2, e.0)
        },
        Op::Rts => returned(c, b),
        Op::Rti => returned_from_interrupt(c, b),
        Op::Sep => {
            let f = pc_fetch(c, b);
            (_65816 { p: f.1.p | f.0, ..f.1 }, f.2)
        },
        Op::Rep => {
            let f = pc_fetch(c, b);
            (_65816 { p: f.1.p & !f.0, ..f.1 }, f.2)
        },
        Op::Pha => pushed_reg(c, b, c.a, flag_set(c.p, Flags::M)),
        Op::Php => pushed8(c, b, c.p),
        Op::Pla => {
            let v = pulled_reg(c, b, flag_set(c.p, Flags::M));
            (lda_result(v.1, v.0), v.2)
        },
        Op::Plp => {
            let r = pulled8(c, b);
            (_65816 { p: r.0, ..r.1 }, r.2)
        },
        Op::Phx => pushed_reg(c, b, c.x, flag_set(c.p, Flags::X)),
        Op::Plx => {
            let v = pulled_reg(c, b, flag_set(c.p, Flags::X));
            (ldx_result(v.1, v.0), v.2)
        },
        Op::Phy => pushed_reg(c, b, c.y, flag_set(c.p, Flags::X)),
        Op::Ply => {
            let v = pulled_reg(c, b, flag_set(c.p, Flags::X));
            (ldy_result(v.1, v.0), v.2)
        },
        _ => (c, b),
    }
}

/// An instruction that touches only registers.
pub open spec fn implied_op_done(op: Op, c: _65816) -> _65816 {
    match op {
        Op::Asl => asl_result(c),
        Op::Lsr => lsr_result(c),
        Op::Rol => rol_result(c),
        Op::Ror => ror_result(c),
        Op::Clc => flag_updated(c, Flags::C, false),
        Op::Cld => flag_updated(c, Flags::D, false),
        Op::Cli => flag_updated(c, Flags::I, false),
        Op::Clv => flag_updated(c, Flags::V, false),
        Op::Sec => flag_updated(c, Flags::C, true),
        Op::Sed => flag_updated(c, Flags::D, true),
        Op::Sei => flag_updated(c, Flags::I, true),
        Op::Dex => {
            let x = decremented(c.x, flag_set(c.p, Flags::X));
            nz_of(_65816 { x, ..c }, x, flag_set(c.p, Flags::X))
        },
        Op::Dey => {
            let y = decremented(c.y, flag_set(c.p, Flags::X));
            nz_of(_65816 { y, ..c }, y, flag_set(c.p, Flags::X))
        },
        Op::Inx => {
            let x = incremented(c.x, flag_set(c.p, Flags::X));
            nz_of(_65816 { x, ..c }, x, flag_set(c.p, Flags::X))
        },
        Op::Iny => {
            let y = incremented(c.y, flag_set(c.p, Flags::X));
            nz_of(_65816 { y, ..c }, y, flag_set(c.p, Flags::X))
        },
        Op::Tax => nz16(_65816 { x: c.a, ..c }, c.a),
        Op::Tay => nz16(_65816 { y: c.a, ..c }, c.a),
        Op::Txa => nz16(_65816 { a: c.x, ..c }, c.x),
        Op::Tya => nz16(_65816 { a: c.y, ..c }, c.y),
        Op::Tsx => nz16(_65816 { x: c.s, ..c }, c.s),
        Op::Txs => _65816 { s: c.x, ..c },
        _ => _65816 { cycles: (c.cycles + 2) as u64, ..c },
    }
}

/// One decoded instruction executed.
pub open spec fn executed(op: Op, mode: AddrMode, c: _65816, b: BusView) -> (_65816, BusView) {
    if is_read_op(op) {
        read_op_done(op, mode, c, b)
    } else if is_store_op(op) {
        store_op_done(op, mode, c, b)
    } else if is_rmw_op(op) {
        rmw_op_done(op, mode, c, b)
    } else if is_control_op(op) {
        control_op_done(op, mode, c, b)
    } else {
        (implied_op_done(op, c), b)
    }
}

/// A pending NMI, else a pending IRQ, served and its line cleared.
pub open spec fn interrupts_served(c: _65816, b: BusView) -> (_65816, BusView) {
    if c.nmi_pending {
        let r = nmi_entered(c, b);
        (_65816 { nmi_pending: false, ..r.0 }, r.1)
    } else if c.irq_pending {
        let r = irq_entered(c, b);
        (_65816 { irq_pending: false, ..r.0 }, r.1)
    } else {
        (c, b)
    }
}

/// One CPU step: pending interrupts served, then one instruction fetched,
/// decoded and executed.
pub open spec fn cpu_ticked(c: _65816, b: BusView) -> (_65816, BusView) {
    let s = interrupts_served(c, b);
    let f = pc_fetch(s.0, s.1);
    let d = decoded(f.0);
    executed(d.0, d.1, f.1, f.2)
}

/// The fetch at PC is defined (its cartridge access does not fault).
pub open spec fn pc_fetch_ok(c: _65816, b: BusView) -> bool {
    bus_read_defined(b, c.k, c.pc)
}

/// Both bytes of a 16-bit operand fetch are defined.
pub open spec fn pc_fetch16_ok(c: _65816, b: BusView) -> bool {
    let lo = pc_fetch(c, b);
    pc_fetch_ok(c, b) && pc_fetch_ok(lo.1, lo.2)
}

/// The reads of the (Indirect,X) address computation are defined.
pub open spec fn ea_indirect_x_ok(c: _65816, b: BusView) -> bool {
    let f = pc_fetch(c, b);
    let zp = vstd::wrapping::u8_specs::wrapping_add(f.0, c.x as u8);
    let lo = mem_read(f.2, 0, zp as u16);
    &&& pc_fetch_ok(c, b)
    &&& bus_read_defined(f.2, 0, zp as u16)
    &&& bus_read_defined(lo.1, 0, vstd::wrapping::u8_specs::wrapping_add(zp, 1) as u16)
}

/// The reads of the (Indirect),Y address computation are defined.
pub open spec fn ea_indirect_y_ok(c: _65816, b: BusView) -> bool {
    let f = pc_fetch(c, b);
    let lo = mem_read(f.2, 0, f.0 as u16);
    &&& pc_fetch_ok(c, b)
    &&& bus_read_defined(f.2, 0, f.0 as u16)
    &&& bus_read_defined(lo.1, 0, vstd::wrapping::u8_specs::wrapping_add(f.0, 1) as u16)
}

/// The three fetches of a long address are defined.
pub open spec fn ea_long_ok(c: _65816, b: BusView) -> bool {
    let l = pc_fetch(c, b);
    let m = pc_fetch(l.1, l.2);
    pc_fetch_ok(c, b) && pc_fetch_ok(l.1, l.2) && pc_fetch_ok(m.1, m.2)
}

/// The reads of an operand fetch in `mode` are defined.
pub open spec fn operand_fetch_ok(mode: AddrMode, c: _65816, b: BusView) -> bool {
    match mode {
        AddrMode::Immediate => pc_fetch_ok(c, b),
        AddrMode::ZeroPage => {
            let e = ea_zeropage(c, b);
            pc_fetch_ok(c, b) && bus_read_defined(e.2, 0, e.0)
        },
        AddrMode::ZeroPageX => {
            let e = ea_zeropage_indexed(c, b, c.x);
            pc_fetch_ok(c, b) && bus_read_defined(e.2, 0, e.0)
        },
        AddrMode::ZeroPageY => {
            let e = ea_zeropage_indexed(c, b, c.y);
            pc_fetch_ok(c, b) && bus_read_defined(e.2, 0, e.0)
        },
        AddrMode::ZeroPageIndirectX => {
            let e = ea_indirect_x(c, b);
            ea_indirect_x_ok(c, b) && bus_read_defined(e.2, 0, e.0)
        },
        AddrMode::ZeroPageIndirectY => {
            let e = ea_indirect_y(c, b);
            ea_indirect_y_ok(c, b) && bus_read_defined(e.2, 0, e.0)
        },
        AddrMode::Absolute => {
            let e = ea_absolute(c, b);
            pc_fetch16_ok(c, b) && bus_read_defined(e.2, (e.0 >> 16u32) as u8, e.0 as u16)
        },
        AddrMode::AbsoluteX => {
            let e = ea_absolute_indexed(c, b, c.x);
            pc_fetch16_ok(c, b) && bus_read_defined(e.2, (e.0 >> 16u32) as u8, e.0 as u16)
        },
        AddrMode::AbsoluteY => {
            let e = ea_absolute_indexed(c, b, c.y);
            pc_fetch16_ok(c, b) && bus_read_defined(e.2, (e.0 >> 16u32) as u8, e.0 as u16)
        },
        _ => true,
    }
}

/// The reads of an address fetch in `mode` are defined.
pub open spec fn address_fetch_ok(mode: AddrMode, c: _65816, b: BusView) -> bool {
    match mode {
        AddrMode::ZeroPage | AddrMode::ZeroPageX | AddrMode::ZeroPageY => pc_fetch_ok(c, b),
        AddrMode::ZeroPageIndirectX => ea_indirect_x_ok(c, b),
        AddrMode::ZeroPageIndirectY => ea_indirect_y_ok(c, b),
        AddrMode::Absolute | AddrMode::AbsoluteX | AddrMode::AbsoluteY => pc_fetch16_ok(c, b),
        AddrMode::LongAbsolute => ea_long_ok(c, b),
        _ => true,
    }
}

/// A pull's read is defined.
pub open spec fn pulled8_ok(c: _65816, b: BusView) -> bool {
    bus_read_defined(b, 0, vstd::wrapping::u16_specs::wrapping_add(c.s, 1))
}

/// Both reads of a 16-bit pull are defined.
pub open spec fn pulled16_ok(c: _65816, b: BusView) -> bool {
    let lo = pulled8(c, b);
    pulled8_ok(c, b) && pulled8_ok(lo.1, lo.2)
}

/// The reads of a pull in a register's width are defined.
pub open spec fn pulled_reg_ok(c: _65816, b: BusView, narrow: bool) -> bool {
    if narrow {
        pulled8_ok(c, b)
    } else {
        pulled16_ok(c, b)
    }
}

/// The reads of RTI are defined.
pub open spec fn rti_ok(c: _65816, b: BusView) -> bool {
    let w = pulled16(c, b);
    pulled16_ok(c, b) && pulled8_ok(_65816 { pc: w.0, ..w.1 }, w.2)
}

/// The vector reads of interrupt entry are defined.
pub open spec fn interrupt_entered_ok(c: _65816, b: BusView, vector: u16) -> bool {
    let p1 = pushed_byte(c, b, c.p);
    let p2 = pushed_word(p1.0, p1.1, c.pc);
    let lo = mem_read(p2.1, 0, vector);
    bus_read_defined(p2.1, 0, vector) && bus_read_defined(lo.1, 0, (vector + 1) as u16)
}

/// The reads of IRQ entry are defined.
pub open spec fn irq_entered_ok(c: _65816, b: BusView) -> bool {
    flag_set(c.p, Flags::I) || interrupt_entered_ok(c, b, 0xFFEE)
}

/// The reads of INC or DEC on memory are defined.
pub open spec fn rmw_op_ok(mode: AddrMode, c: _65816, b: BusView) -> bool {
    let e = address_fetch(mode, c, b);
    let bank: u8 = if mode is Absolute || mode is AbsoluteX {
        (e.0 >> 16u32) as u8
    } else {
        0
    };
    address_fetch_ok(mode, c, b) && bus_read_defined(e.2, bank, e.0 as u16)
}

/// The reads of a branch, jump, return, stack or status-bit instruction are defined.
pub open spec fn control_op_ok(op: Op, mode: AddrMode, c: _65816, b: BusView) -> bool {
    match op {
        Op::Bcc | Op::Bcs | Op::Beq | Op::Bmi | Op::Bne | Op::Bpl | Op::Bra | Op::Bvc | Op::Bvs
        | Op::Sep | Op::Rep => pc_fetch_ok(c, b),
        Op::Jmp | Op::Jsr => address_fetch_ok(mode, c, b),
        Op::Rts => pulled16_ok(c, b),
        Op::Rti => rti_ok(c, b),
        Op::Pla => pulled_reg_ok(c, b, flag_set(c.p, Flags::M)),
        Op::Plp => pulled8_ok(c, b),
        Op::Plx | Op::Ply => pulled_reg_ok(c, b, flag_set(c.p, Flags::X)),
        _ => true,
    }
}

/// Every read of one decoded instruction is defined.
pub open spec fn executed_ok(op: Op, mode: AddrMode, c: _65816, b: BusView) -> bool {
    if is_read_op(op) {
        operand_fetch_ok(mode, c, b)
    } else if is_store_op(op) {
        address_fetch_ok(mode, c, b)
    } else if is_rmw_op(op) {
        rmw_op_ok(mode, c, b)
    } else if is_control_op(op) {
        control_op_ok(op, mode, c, b)
    } else {
        true
    }
}

/// Every read of one CPU step is defined: interrupt entry, the opcode fetch
/// and the instruction. Only a cartridge whose SRAM lookup divides by a zero
/// size makes a read undefined.
pub open spec fn cpu_tick_ok(c: _65816, b: BusView) -> bool {
    let s = interrupts_served(c, b);
    let f = pc_fetch(s.0, s.1);
    let d = decoded(f.0);
    &&& (if c.nmi_pending {
        interrupt_entered_ok(c, b, 0xFFEA)
    } else if c.irq_pending {
        irq_entered_ok(c, b)
    } else {
        true
    })
    &&& pc_fetch_ok(s.0, s.1)
    &&& executed_ok(d.0, d.1, f.1, f.2)
}

/// The cycles one step may add: interrupt entry, the opcode and up to three
/// operand bytes, or the two cycles of a NOP.
pub const TICK_CYCLES: u64 = 80;

/// Decode an opcode into its operation and addressing mode.
fn decode(opcode: u8) -> (r: (Op, AddrMode))
    ensures
        r == decoded(opcode),
{
    match opcode {
        0x69 => (Op::Adc, AddrMode::Immediate),
        0x65 => (Op::Adc, AddrMode::ZeroPage),
        0x75 => (Op::Adc, AddrMode::ZeroPageX),
        0x6D => (Op::Adc, AddrMode::Absolute),
        0x7D => (Op::Adc, AddrMode::AbsoluteX),
        0x79 => (Op::Adc, AddrMode::AbsoluteY),
        0x61 => (Op::Adc, AddrMode::ZeroPageIndirectX),
        0x71 => (Op::Adc, AddrMode::ZeroPageIndirectY),
        0x29 => (Op::And, AddrMode::Immediate),
        0x25 => (Op::And, AddrMode::ZeroPage),
        0x35 => (Op::And, AddrMode::ZeroPageX),
        0x2D => (Op::And, AddrMode::Absolute),
        0x3D => (Op::And, AddrMode::AbsoluteX),
        0x39 => (Op::And, AddrMode::AbsoluteY),
        0x21 => (Op::And, AddrMode::ZeroPageIndirectX),
        0x31 => (Op::And, AddrMode::ZeroPageIndirectY),
        0x0A => (Op::Asl, AddrMode::Accumulator),
        0x90 => (Op::Bcc, AddrMode::Relative),
        0xB0 => (Op::Bcs, AddrMode::Relative),
        0xF0 => (Op::Beq, AddrMode::Relative),
        0x24 => (Op::Bit, AddrMode::ZeroPage),
        0x2C => (Op::Bit, AddrMode::Absolute),
        0x30 => (Op::Bmi, AddrMode::Relative),
        0xD0 => (Op::Bne, AddrMode::Relative),
        0x10 => (Op::Bpl, AddrMode::Relative),
        0x80 => (Op::Bra, AddrMode::Relative),
        0x50 => (Op::Bvc, AddrMode::Relative),
        0x70 => (Op::Bvs, AddrMode::Relative),
        0x18 => (Op::Clc, AddrMode::Implied),
        0xD8 => (Op::Cld, AddrMode::Implied),
        0x58 => (Op::Cli, AddrMode::Implied),
        0xB8 => (Op::Clv, AddrMode::Implied),
        0xC9 => (Op::Cmp, AddrMode::Immediate),
        0xC5 => (Op::Cmp, AddrMode::ZeroPage),
        0xD5 => (Op::Cmp, AddrMode::ZeroPageX),
        0xCD => (Op::Cmp, AddrMode::Absolute),
        0xDD => (Op::Cmp, AddrMode::AbsoluteX),
        0xD9 => (Op::Cmp, AddrMode::AbsoluteY),
        0xC1 => (Op::Cmp, AddrMode::ZeroPageIndirectX),
        0xD1 => (Op::Cmp, AddrMode::ZeroPageIndirectY),
        0xE0 => (Op::Cpx, AddrMode::Immediate),
        0xE4 => (Op::Cpx, AddrMode::ZeroPage),
        0xEC => (Op::Cpx, AddrMode::Absolute),
        0xC0 => (Op::Cpy, AddrMode::Immediate),
        0xC4 => (Op::Cpy, AddrMode::ZeroPage),
        0xCC => (Op::Cpy, AddrMode::Absolute),
        0xC6 => (Op::Dec, AddrMode::ZeroPage),
        0xD6 => (Op::Dec, AddrMode::ZeroPageX),
        0xCE => (Op::Dec, AddrMode::Absolute),
        0xDE => (Op::Dec, AddrMode::AbsoluteX),
        0xCA => (Op::Dex, AddrMode::Implied),
        0x88 => (Op::Dey, AddrMode::Implied),
        0x49 => (Op::Eor, AddrMode::Immediate),
        0x45 => (Op::Eor, AddrMode::ZeroPage),
        0x55 => (Op::Eor, AddrMode::ZeroPageX),
        0x4D => (Op::Eor, AddrMode::Absolute),
        0x5D => (Op::Eor, AddrMode::AbsoluteX),
        0x59 => (Op::Eor, AddrMode::AbsoluteY),
        0x41 => (Op::Eor, AddrMode::ZeroPageIndirectX),
        0x51 => (Op::Eor, AddrMode::ZeroPageIndirectY),
        0xE6 => (Op::Inc, AddrMode::ZeroPage),
        0xF6 => (Op::Inc, AddrMode::ZeroPageX),
        0xEE => (Op::Inc, AddrMode::Absolute),
        0xFE => (Op::Inc, AddrMode::AbsoluteX),
        0xE8 => (Op::Inx, AddrMode::Implied),
        0xC8 => (Op::Iny, AddrMode::Implied),
        0x4C => (Op::Jmp, AddrMode::Absolute),
        0x5C => (Op::Jmp, AddrMode::LongAbsolute),
        0x20 => (Op::Jsr, AddrMode::Absolute),
        0xA9 => (Op::Lda, AddrMode::Immediate),
        0xA5 => (Op::Lda, AddrMode::ZeroPage),
        0xB5 => (Op::Lda, AddrMode::ZeroPageX),
        0xAD => (Op::Lda, AddrMode::Absolute),
        0xBD => (Op::Lda, AddrMode::AbsoluteX),
        0xB9 => (Op::Lda, AddrMode::AbsoluteY),
        0xA1 => (Op::Lda, AddrMode::ZeroPageIndirectX),
        0xB1 => (Op::Lda, AddrMode::ZeroPageIndirectY),
        0xA2 => (Op::Ldx, AddrMode::Immediate),
        0xA6 => (Op::Ldx, AddrMode::ZeroPage),
        0xB6 => (Op::Ldx, AddrMode::ZeroPageY),
        0xAE => (Op::Ldx, AddrMode::Absolute),
        0xBE => (Op::Ldx, AddrMode::AbsoluteY),
        0xA0 => (Op::Ldy, AddrMode::Immediate),
        0xA4 => (Op::Ldy, AddrMode::ZeroPage),
        0xB4 => (Op::Ldy, AddrMode::ZeroPageX),
        0xAC => (Op::Ldy, AddrMode::Absolute),
        0xBC => (Op::Ldy, AddrMode::AbsoluteX),
        0x4A => (Op::Lsr, AddrMode::Accumulator),
        0xEA => (Op::Nop, AddrMode::Implied),
        0x09 => (Op::Ora, AddrMode::Immediate),
        0x05 => (Op::Ora, AddrMode::ZeroPage),
        0x15 => (Op::Ora, AddrMode::ZeroPageX),
        0x0D => (Op::Ora, AddrMode::Absolute),
        0x1D => (Op::Ora, AddrMode::AbsoluteX),
        0x19 => (Op::Ora, AddrMode::AbsoluteY),
        0x01 => (Op::Ora, AddrMode::ZeroPageIndirectX),
        0x11 => (Op::Ora, AddrMode::ZeroPageIndirectY),
        0x48 => (Op::Pha, AddrMode::Implied),
        0x08 => (Op::Php, AddrMode::Implied),
        0x68 => (Op::Pla, AddrMode::Implied),
        0x28 => (Op::Plp, AddrMode::Implied),
        0xDA => (Op::Phx, AddrMode::Implied),
        0xFA => (Op::Plx, AddrMode::Implied),
        0x5A => (Op::Phy, AddrMode::Implied),
        0x7A => (Op::Ply, AddrMode::Implied),
        0xC2 => (Op::Rep, AddrMode::Immediate),
        0x2A => (Op::Rol, AddrMode::Accumulator),
        0x6A => (Op::Ror, AddrMode::Accumulator),
        0x40 => (Op::Rti, AddrMode::Implied),
        0x60 => (Op::Rts, AddrMode::Implied),
        0xE9 => (Op::Sbc, AddrMode::Immediate),
        0xE5 => (Op::Sbc, AddrMode::ZeroPage),
        0xF5 => (Op::Sbc, AddrMode::ZeroPageX),
        0xED => (Op::Sbc, AddrMode::Absolute),
        0xFD => (Op::Sbc, AddrMode::AbsoluteX),
        0xF9 => (Op::Sbc, AddrMode::AbsoluteY),
        0xE1 => (Op::Sbc, AddrMode::ZeroPageIndirectX),
        0xF1 => (Op::Sbc, AddrMode::ZeroPageIndirectY),
        0x38 => (Op::Sec, AddrMode::Implied),
        0xF8 => (Op::Sed, AddrMode::Implied),
        0x78 => (Op::Sei, AddrMode::Implied),
        0xE2 => (Op::Sep, AddrMode::Immediate),
        0x85 => (Op::Sta, AddrMode::ZeroPage),
        0x95 => (Op::Sta, AddrMode::ZeroPageX),
        0x8D => (Op::Sta, AddrMode::Absolute),
        0x9D => (Op::Sta, AddrMode::AbsoluteX),
        0x99 => (Op::Sta, AddrMode::AbsoluteY),
        0x81 => (Op::Sta, AddrMode::ZeroPageIndirectX),
        0x91 => (Op::Sta, AddrMode::ZeroPageIndirectY),
        0x86 => (Op::Stx, AddrMode::ZeroPage),
        0x96 => (Op::Stx, AddrMode::ZeroPageY),
        0x8E => (Op::Stx, AddrMode::Absolute),
        0x84 => (Op::Sty, AddrMode::ZeroPage),
        0x94 => (Op::Sty, AddrMode::ZeroPageX),
        0x8C => (Op::Sty, AddrMode::Absolute),
        0xAA => (Op::Tax, AddrMode::Implied),
        0xA8 => (Op::Tay, AddrMode::Implied),
        0x8A => (Op::Txa, AddrMode::Implied),
        0x98 => (Op::Tya, AddrMode::Implied),
        0xBA => (Op::Tsx, AddrMode::Implied),
        0x9A => (Op::Txs, AddrMode::Implied),
        _ => (Op::Unknown, AddrMode::Implied),
    }
}

/// The power-on state: emulation mode, stack at 0x01FF, everything else 0.
pub open spec fn power_on_cpu() -> _65816 {
    _65816 {
        a: 0,
        dbr: 0,
        dr: 0,
        k: 0,
        pc: 0,
        p: 0,
        s: 0x01FF,
        x: 0,
        y: 0,
        e: true,
        cycles: 0,
        nmi_pending: false,
        irq_pending: false,
    }
}

impl _65816 {
    /// Power-on state: emulation mode, stack at 0x01FF, everything else 0.
    pub fn new() -> (r: Self)
        ensures
            r == power_on_cpu(),
    {
        _65816 {
            a: 0,
            dbr: 0,
            dr: 0,
            k: 0,
            pc: 0,
            p: 0,
            s: 0x01FF,
            x: 0,
            y: 0,
            e: true,
            cycles: 0,
            nmi_pending: false,
            irq_pending: false,
        }
    }

    /// Whether flag `flag` is set.
    fn get_flag(&self, flag: Flags) -> (r: bool)
        ensures
            r == flag_set(self.p, flag),
    {
        (self.p & flag.mask()) > 0
    }

    /// Set or clear flag `flag`.
    fn set_flag(&mut self, flag: Flags, val: bool)
        ensures
            *final(self) == flag_updated(*old(self), flag, val),
    {
        if val {
            self.p = self.p | flag.mask();
        } else {
            self.p = self.p & !flag.mask();
        }
    }

    /// Set N and Z from a 16-bit result.
    fn update_flags_nz(&mut self, val: u16)
        ensures
            *final(self) == nz16(*old(self), val),
    {
        self.set_flag(Flags::Z, val == 0);
        self.set_flag(Flags::N, (val & 0x8000) != 0);
    }

    /// Set N and Z from an 8-bit result.
    fn update_flags_nz_8bit(&mut self, val: u8)
        ensures
            *final(self) == nz8(*old(self), val),
    {
        self.set_flag(Flags::Z, val == 0);
        self.set_flag(Flags::N, (val & 0x80) != 0);
    }

    /// LDA.
    fn lda(&mut self, val: u16)
        ensures
            *final(self) == lda_result(*old(self), val),
    {
        if self.get_flag(Flags::M) {
            self.a = (self.a & 0xFF00) | (val & 0x00FF);
            self.update_flags_nz_8bit((self.a & 0xFF) as u8);
        } else {
            self.a = val;
            self.update_flags_nz(self.a);
        }
    }

    /// LDX.
    fn ldx(&mut self, val: u16)
        ensures
            *final(self) == ldx_result(*old(self), val),
    {
        if self.get_flag(Flags::X) {
            self.x = (self.x & 0xFF00) | (val & 0x00FF);
            self.update_flags_nz_8bit((self.x & 0xFF) as u8);
        } else {
            self.x = val;
            self.update_flags_nz(self.x);
        }
    }

    /// LDY.
    fn ldy(&mut self, val: u16)
        ensures
            *final(self) == ldy_result(*old(self), val),
    {
        if self.get_flag(Flags::X) {
            self.y = (self.y & 0xFF00) | (val & 0x00FF);
            self.update_flags_nz_8bit((self.y & 0xFF) as u8);
        } else {
            self.y = val;
            self.update_flags_nz(self.y);
        }
    }

    /// ADC.
    fn adc(&mut self, val: u16)
        ensures
            *final(self) == adc_result(*old(self), val),
    {
        let carry: u16 = if self.get_flag(Flags::C) {
            1
        } else {
            0
        };
        if self.get_flag(Flags::M) {
            let a_low = (self.a & 0xFF) as u8;
            let masked = val & 0xFF;
            assert(masked <= 0xFF) by (bit_vector)
                requires
                    masked == val & 0xFF,
            ;
            let result = (a_low as u16) + masked + carry;
            self.a = (self.a & 0xFF00) | (result & 0xFF);
            self.set_flag(Flags::C, result > 0xFF);
            self.set_flag(Flags::V, ((a_low as u16 ^ result) & (val ^ result) & 0x80) != 0);
            self.update_flags_nz_8bit((self.a & 0xFF) as u8);
        } else {
            let old_a = self.a;
            let result = (self.a as u32) + (val as u32) + (carry as u32);
            self.a = result as u16;
            self.set_flag(Flags::C, result > 0xFFFF);
            self.set_flag(Flags::V, ((old_a ^ result as u16) & (val ^ result as u16) & 0x8000) != 0);
            self.update_flags_nz(self.a);
        }
    }

    /// SBC.
    fn sbc(&mut self, val: u16)
        ensures
            *final(self) == sbc_result(*old(self), val),
    {
        let carry: u16 = if self.get_flag(Flags::C) {
            0
        } else {
            1
        };
        if self.get_flag(Flags::M) {
            let a_low = (self.a & 0xFF) as u8;
            let result = (a_low as u16).wrapping_sub((val & 0xFF) as u16).wrapping_sub(carry);
            self.a = (self.a & 0xFF00) | (result & 0xFF);
            self.set_flag(Flags::C, result <= 0xFF);
            self.set_flag(
                Flags::V,
                ((a_low as u16 ^ result) & (a_low as u16 ^ val) & 0x80) != 0,
            );
            self.update_flags_nz_8bit((self.a & 0xFF) as u8);
        } else {
            let old_a = self.a;
            let result = (self.a as u32).wrapping_sub(val as u32).wrapping_sub(carry as u32);
            self.a = result as u16;
            self.set_flag(Flags::C, result <= 0xFFFF);
            self.set_flag(Flags::V, ((old_a ^ result as u16) & (old_a ^ val) & 0x8000) != 0);
            self.update_flags_nz(self.a);
        }
    }

    /// AND.
    fn and(&mut self, val: u16)
        ensures
            *final(self) == and_result(*old(self), val),
    {
        if self.get_flag(Flags::M) {
            self.a = (self.a & 0xFF00) | ((self.a & val) & 0xFF);
            self.update_flags_nz_8bit((self.a & 0xFF) as u8);
        } else {
            self.a = self.a & val;
            self.update_flags_nz(self.a);
        }
    }

    /// ORA.
    fn ora(&mut self, val: u16)
        ensures
            *final(self) == ora_result(*old(self), val),
    {
        if self.get_flag(Flags::M) {
            self.a = (self.a & 0xFF00) | ((self.a | val) & 0xFF);
            self.update_flags_nz_8bit((self.a & 0xFF) as u8);
        } else {
            self.a = self.a | val;
            self.update_flags_nz(self.a);
        }
    }

    /// EOR.
    fn eor(&mut self, val: u16)
        ensures
            *final(self) == eor_result(*old(self), val),
    {
        if self.get_flag(Flags::M) {
            self.a = (self.a & 0xFF00) | ((self.a ^ val) & 0xFF);
            self.update_flags_nz_8bit((self.a & 0xFF) as u8);
        } else {
            self.a = self.a ^ val;
            self.update_flags_nz(self.a);
        }
    }

    /// ASL A.
    fn asl_a(&mut self)
        ensures
            *final(self) == asl_result(*old(self)),
    {
        if self.get_flag(Flags::M) {
            let val = (self.a & 0xFF) as u8;
            self.set_flag(Flags::C, (val & 0x80) != 0);
            self.a = (self.a & 0xFF00) | ((val << 1u8) as u16 & 0xFF);
            self.update_flags_nz_8bit((self.a & 0xFF) as u8);
        } else {
            self.set_flag(Flags::C, (self.a & 0x8000) != 0);
            self.a = self.a.wrapping_shl(1);
            self.update_flags_nz(self.a);
        }
    }

    /// LSR A.
    fn lsr_a(&mut self)
        ensures
            *final(self) == lsr_result(*old(self)),
    {
        if self.get_flag(Flags::M) {
            let val = (self.a & 0xFF) as u8;
            self.set_flag(Flags::C, (val & 0x01) != 0);
            self.a = (self.a & 0xFF00) | ((val >> 1u8) as u16 & 0xFF);
            self.update_flags_nz_8bit((self.a & 0xFF) as u8);
        } else {
            self.set_flag(Flags::C, (self.a & 0x01) != 0);
            self.a = self.a.wrapping_shr(1);
            self.update_flags_nz(self.a);
        }
    }

    /// ROL A.
    fn rol_a(&mut self)
        ensures
            *final(self) == rol_result(*old(self)),
    {
        if self.get_flag(Flags::M) {
            let val = (self.a & 0xFF) as u8;
            let carry: u8 = if self.get_flag(Flags::C) {
                1
            } else {
                0
            };
            self.set_flag(Flags::C, (val & 0x80) != 0);
            self.a = (self.a & 0xFF00) | (((val << 1u8) | carry) as u16 & 0xFF);
            self.update_flags_nz_8bit((self.a & 0xFF) as u8);
        } else {
            let carry: u16 = if self.get_flag(Flags::C) {
                1
            } else {
                0
            };
            self.set_flag(Flags::C, (self.a & 0x8000) != 0);
            self.a = (self.a.wrapping_shl(1)) | carry;
            self.update_flags_nz(self.a);
        }
    }

    /// ROR A.
    fn ror_a(&mut self)
        ensures
            *final(self) == ror_result(*old(self)),
    {
        if self.get_flag(Flags::M) {
            let val = (self.a & 0xFF) as u8;
            let carry: u8 = if self.get_flag(Flags::C) {
                0x80
            } else {
                0
            };
            self.set_flag(Flags::C, (val & 0x01) != 0);
            self.a = (self.a & 0xFF00) | (((val >> 1u8) | carry) as u16 & 0xFF);
            self.update_flags_nz_8bit((self.a & 0xFF) as u8);
        } else {
            let carry: u16 = if self.get_flag(Flags::C) {
                0x8000
            } else {
                0
            };
            self.set_flag(Flags::C, (self.a & 0x01) != 0);
            self.a = (self.a.wrapping_shr(1)) | carry;
            self.update_flags_nz(self.a);
        }
    }

    /// CMP: compare A with `val`.
    fn compare_accumulator(&mut self, val: u16)
        ensures
            *final(self) == compared(*old(self), old(self).a, val, flag_set(old(self).p, Flags::M)),
    {
        if self.get_flag(Flags::M) {
            let a_low = (self.a & 0xFF) as u8;
            let result = a_low.wrapping_sub((val & 0xFF) as u8);
            self.set_flag(Flags::C, a_low >= (val & 0xFF) as u8);
            self.update_flags_nz_8bit(result);
        } else {
            let result = self.a.wrapping_sub(val);
            self.set_flag(Flags::C, self.a >= val);
            self.update_flags_nz(result);
        }
    }

    /// CPX.
    fn cpx(&mut self, val: u16)
        ensures
            *final(self) == compared(*old(self), old(self).x, val, flag_set(old(self).p, Flags::X)),
    {
        if self.get_flag(Flags::X) {
            let x_low = (self.x & 0xFF) as u8;
            let result = x_low.wrapping_sub((val & 0xFF) as u8);
            self.set_flag(Flags::C, x_low >= (val & 0xFF) as u8);
            self.update_flags_nz_8bit(result);
        } else {
            let result = self.x.wrapping_sub(val);
            self.set_flag(Flags::C, self.x >= val);
            self.update_flags_nz(result);
        }
    }

    /// CPY.
    fn cpy(&mut self, val: u16)
        ensures
            *final(self) == compared(*old(self), old(self).y, val, flag_set(old(self).p, Flags::X)),
    {
        if self.get_flag(Flags::X) {
            let y_low = (self.y & 0xFF) as u8;
            let result = y_low.wrapping_sub((val & 0xFF) as u8);
            self.set_flag(Flags::C, y_low >= (val & 0xFF) as u8);
            self.update_flags_nz_8bit(result);
        } else {
            let result = self.y.wrapping_sub(val);
            self.set_flag(Flags::C, self.y >= val);
            self.update_flags_nz(result);
        }
    }

    /// BIT.
    fn bit(&mut self, val: u16)
        ensures
            *final(self) == bit_result(*old(self), val),
    {
        if self.get_flag(Flags::M) {
            let result = (self.a & val) as u8;
            self.set_flag(Flags::Z, result == 0);
            self.set_flag(Flags::N, (val & 0x80) != 0);
            self.set_flag(Flags::V, (val & 0x40) != 0);
        } else {
            let result = self.a & val;
            self.set_flag(Flags::Z, result == 0);
            self.set_flag(Flags::N, (val & 0x8000) != 0);
            self.set_flag(Flags::V, (val & 0x4000) != 0);
        }
    }

    /// INC A.
    fn inc_a(&mut self)
        ensures
            *final(self) == ({
                let a = incremented(old(self).a, flag_set(old(self).p, Flags::M));
                nz_of(_65816 { a, ..*old(self) }, a, flag_set(old(self).p, Flags::M))
            }),
    {
        if self.get_flag(Flags::M) {
            self.a = (self.a & 0xFF00) | ((self.a & 0xFF).wrapping_add(1) & 0xFF);
            self.update_flags_nz_8bit((self.a & 0xFF) as u8);
        } else {
            self.a = self.a.wrapping_add(1);
            self.update_flags_nz(self.a);
        }
    }

    /// DEC A.
    fn dec_a(&mut self)
        ensures
            *final(self) == ({
                let a = decremented(old(self).a, flag_set(old(self).p, Flags::M));
                nz_of(_65816 { a, ..*old(self) }, a, flag_set(old(self).p, Flags::M))
            }),
    {
        if self.get_flag(Flags::M) {
            self.a = (self.a & 0xFF00) | ((self.a & 0xFF).wrapping_sub(1) & 0xFF);
            self.update_flags_nz_8bit((self.a & 0xFF) as u8);
        } else {
            self.a = self.a.wrapping_sub(1);
            self.update_flags_nz(self.a);
        }
    }

    /// INX.
    fn inx(&mut self)
        ensures
            *final(self) == ({
                let x = incremented(old(self).x, flag_set(old(self).p, Flags::X));
                nz_of(_65816 { x, ..*old(self) }, x, flag_set(old(self).p, Flags::X))
            }),
    {
        if self.get_flag(Flags::X) {
            self.x = (self.x & 0xFF00) | ((self.x & 0xFF).wrapping_add(1) & 0xFF);
            self.update_flags_nz_8bit((self.x & 0xFF) as u8);
        } else {
            self.x = self.x.wrapping_add(1);
            self.update_flags_nz(self.x);
        }
    }

    /// DEX.
    fn dex(&mut self)
        ensures
            *final(self) == ({
                let x = decremented(old(self).x, flag_set(old(self).p, Flags::X));
                nz_of(_65816 { x, ..*old(self) }, x, flag_set(old(self).p, Flags::X))
            }),
    {
        if self.get_flag(Flags::X) {
            self.x = (self.x & 0xFF00) | ((self.x & 0xFF).wrapping_sub(1) & 0xFF);
            self.update_flags_nz_8bit((self.x & 0xFF) as u8);
        } else {
            self.x = self.x.wrapping_sub(1);
            self.update_flags_nz(self.x);
        }
    }

    /// INY.
    fn iny(&mut self)
        ensures
            *final(self) == ({
                let y = incremented(old(self).y, flag_set(old(self).p, Flags::X));
                nz_of(_65816 { y, ..*old(self) }, y, flag_set(old(self).p, Flags::X))
            }),
    {
        if self.get_flag(Flags::X) {
            self.y = (self.y & 0xFF00) | ((self.y & 0xFF).wrapping_add(1) & 0xFF);
            self.update_flags_nz_8bit((self.y & 0xFF) as u8);
        } else {
            self.y = self.y.wrapping_add(1);
            self.update_flags_nz(self.y);
        }
    }

    /// DEY.
    fn dey(&mut self)
        ensures
            *final(self) == ({
                let y = decremented(old(self).y, flag_set(old(self).p, Flags::X));
                nz_of(_65816 { y, ..*old(self) }, y, flag_set(old(self).p, Flags::X))
            }),
    {
        if self.get_flag(Flags::X) {
            self.y = (self.y & 0xFF00) | ((self.y & 0xFF).wrapping_sub(1) & 0xFF);
            self.update_flags_nz_8bit((self.y & 0xFF) as u8);
        } else {
            self.y = self.y.wrapping_sub(1);
            self.update_flags_nz(self.y);
        }
    }

    /// TAX: X = A, N and Z from all 16 bits.
    fn tax(&mut self)
        ensures
            *final(self) == nz16(_65816 { x: old(self).a, ..*old(self) }, old(self).a),
    {
        self.x = self.a;
        self.update_flags_nz(self.x);
    }

    /// TAY: Y = A, N and Z from all 16 bits.
    fn tay(&mut self)
        ensures
            *final(self) == nz16(_65816 { y: old(self).a, ..*old(self) }, old(self).a),
    {
        self.y = self.a;
        self.update_flags_nz(self.y);
    }

    /// TXA: A = X, N and Z from all 16 bits.
    fn txa(&mut self)
        ensures
            *final(self) == nz16(_65816 { a: old(self).x, ..*old(self) }, old(self).x),
    {
        self.a = self.x;
        self.update_flags_nz(self.a);
    }

    /// TYA: A = Y, N and Z from all 16 bits.
    fn tya(&mut self)
        ensures
            *final(self) == nz16(_65816 { a: old(self).y, ..*old(self) }, old(self).y),
    {
        self.a = self.y;
        self.update_flags_nz(self.a);
    }

    /// TSX: X = S, N and Z from all 16 bits.
    fn tsx(&mut self)
        ensures
            *final(self) == nz16(_65816 { x: old(self).s, ..*old(self) }, old(self).s),
    {
        self.x = self.s;
        self.update_flags_nz(self.x);
    }

    /// TXS: S = X, no flags.
    fn txs(&mut self)
        ensures
            *final(self) == (_65816 { s: old(self).x, ..*old(self) }),
    {
        self.s = self.x;
    }

    /// CLC.
    fn clc(&mut self)
        ensures
            *final(self) == flag_updated(*old(self), Flags::C, false),
    {
        self.set_flag(Flags::C, false);
    }

    /// SEC.
    fn sec(&mut self)
        ensures
            *final(self) == flag_updated(*old(self), Flags::C, true),
    {
        self.set_flag(Flags::C, true);
    }

    /// CLD.
    fn cld(&mut self)
        ensures
            *final(self) == flag_updated(*old(self), Flags::D, false),
    {
        self.set_flag(Flags::D, false);
    }

    /// SED.
    fn sed(&mut self)
        ensures
            *final(self) == flag_updated(*old(self), Flags::D, true),
    {
        self.set_flag(Flags::D, true);
    }

    /// CLI.
    fn cli(&mut self)
        ensures
            *final(self) == flag_updated(*old(self), Flags::I, false),
    {
        self.set_flag(Flags::I, false);
    }

    /// SEI.
    fn sei(&mut self)
        ensures
            *final(self) == flag_updated(*old(self), Flags::I, true),
    {
        self.set_flag(Flags::I, true);
    }

    /// CLV.
    fn clv(&mut self)
        ensures
            *final(self) == flag_updated(*old(self), Flags::V, false),
    {
        self.set_flag(Flags::V, false);
    }

    /// JMP: bank and PC from a 24-bit address.
    fn jmp(&mut self, addr: u32)
        ensures
            *final(self) == (_65816 { k: (addr >> 16u32) as u8, pc: addr as u16, ..*old(self) }),
    {
        self.k = (addr >> 16u32) as u8;
        self.pc = addr as u16;
    }

    /// Fetch the byte at PC and step PC.
    fn read_pc(&mut self, bus: &mut Bus) -> (r: u8)
        requires
            cycles_room(*old(self), 8),
            pc_fetch_ok(*old(self), old(bus)@),
        ensures
            (r, *final(self), final(bus)@) == pc_fetch(*old(self), old(bus)@),
            final(bus)@.cart == old(bus)@.cart,
            ppu_wf(old(bus)@.ppu) ==> ppu_wf(final(bus)@.ppu),
    {
        let val = bus.read(self.k, self.pc);
        self.pc = self.pc.wrapping_add(1);
        self.cycles = self.cycles + 8;
        val
    }

    /// Fetch a 16-bit operand at PC, low byte first.
    fn read_pc16(&mut self, bus: &mut Bus) -> (r: u16)
        requires
            cycles_room(*old(self), 16),
            pc_fetch16_ok(*old(self), old(bus)@),
        ensures
            (r, *final(self), final(bus)@) == pc_fetch16(*old(self), old(bus)@),
            final(bus)@.cart == old(bus)@.cart,
            ppu_wf(old(bus)@.ppu) ==> ppu_wf(final(bus)@.ppu),
    {
        let low = self.read_pc(bus) as u16;
        let high = self.read_pc(bus) as u16;
        (high << 8u16) | low
    }

    /// Absolute address in the data bank.
    fn addr_absolute(&mut self, bus: &mut Bus) -> (r: u32)
        requires
            cycles_room(*old(self), 16),
            pc_fetch16_ok(*old(self), old(bus)@),
        ensures
            (r, *final(self), final(bus)@) == ea_absolute(*old(self), old(bus)@),
            r < 0x1000000,
            final(bus)@.cart == old(bus)@.cart,
            ppu_wf(old(bus)@.ppu) ==> ppu_wf(final(bus)@.ppu),
    {
        let addr = self.read_pc16(bus) as u32;
        let r = ((self.dbr as u32) << 16u32) | addr;
        proof {
            let d = self.dbr;
            let w = addr as u16;
            assert(((d as u32) << 16u32) | (w as u32) < 0x1000000) by (bit_vector);
        }
        r
    }

    /// Absolute address indexed by X.
    fn addr_absolute_x(&mut self, bus: &mut Bus) -> (r: u32)
        requires
            cycles_room(*old(self), 16),
            pc_fetch16_ok(*old(self), old(bus)@),
        ensures
            (r, *final(self), final(bus)@) == ea_absolute_indexed(*old(self), old(bus)@, old(self).x),
            r < 0x1000000,
            final(bus)@.cart == old(bus)@.cart,
            ppu_wf(old(bus)@.ppu) ==> ppu_wf(final(bus)@.ppu),
    {
        let addr = self.read_pc16(bus) as u32;
        let offset = self.x as u32;
        let r = ((self.dbr as u32) << 16u32) | ((addr.wrapping_add(offset)) as u16 as u32);
        proof {
            let d = self.dbr;
            let w = (addr.wrapping_add(offset)) as u16;
            assert(((d as u32) << 16u32) | (w as u32) < 0x1000000) by (bit_vector);
        }
        r
    }

    /// Absolute address indexed by Y.
    fn addr_absolute_y(&mut self, bus: &mut Bus) -> (r: u32)
        requires
            cycles_room(*old(self), 16),
            pc_fetch16_ok(*old(self), old(bus)@),
        ensures
            (r, *final(self), final(bus)@) == ea_absolute_indexed(*old(self), old(bus)@, old(self).y),
            r < 0x1000000,
            final(bus)@.cart == old(bus)@.cart,
            ppu_wf(old(bus)@.ppu) ==> ppu_wf(final(bus)@.ppu),
    {
        let addr = self.read_pc16(bus) as u32;
        let offset = self.y as u32;
        let r = ((self.dbr as u32) << 16u32) | ((addr.wrapping_add(offset)) as u16 as u32);
        proof {
            let d = self.dbr;
            let w = (addr.wrapping_add(offset)) as u16;
            assert(((d as u32) << 16u32) | (w as u32) < 0x1000000) by (bit_vector);
        }
        r
    }

    /// Zero page address.
    fn addr_zeropage(&mut self, bus: &mut Bus) -> (r: u16)
        requires
            cycles_room(*old(self), 8),
            pc_fetch_ok(*old(self), old(bus)@),
        ensures
            (r, *final(self), final(bus)@) == ea_zeropage(*old(self), old(bus)@),
            final(bus)@.cart == old(bus)@.cart,
            ppu_wf(old(bus)@.ppu) ==> ppu_wf(final(bus)@.ppu),
    {
        self.read_pc(bus) as u16
    }

    /// Zero page address indexed by X.
    fn addr_zeropage_x(&mut self, bus: &mut Bus) -> (r: u16)
        requires
            cycles_room(*old(self), 8),
            pc_fetch_ok(*old(self), old(bus)@),
        ensures
            (r, *final(self), final(bus)@) == ea_zeropage_indexed(*old(self), old(bus)@, old(self).x),
            final(bus)@.cart == old(bus)@.cart,
            ppu_wf(old(bus)@.ppu) ==> ppu_wf(final(bus)@.ppu),
    {
        let addr = self.read_pc(bus);
        addr.wrapping_add(self.x as u8) as u16
    }

    /// Zero page address indexed by Y.
    fn addr_zeropage_y(&mut self, bus: &mut Bus) -> (r: u16)
        requires
            cycles_room(*old(self), 8),
            pc_fetch_ok(*old(self), old(bus)@),
        ensures
            (r, *final(self), final(bus)@) == ea_zeropage_indexed(*old(self), old(bus)@, old(self).y),
            final(bus)@.cart == old(bus)@.cart,
            ppu_wf(old(bus)@.ppu) ==> ppu_wf(final(bus)@.ppu),
    {
        let addr = self.read_pc(bus);
        addr.wrapping_add(self.y as u8) as u16
    }

    /// (Indirect,X) address.
    fn addr_indirect_x(&mut self, bus: &mut Bus) -> (r: u16)
        requires
            cycles_room(*old(self), 8),
            ea_indirect_x_ok(*old(self), old(bus)@),
        ensures
            (r, *final(self), final(bus)@) == ea_indirect_x(*old(self), old(bus)@),
            final(bus)@.cart == old(bus)@.cart,
            ppu_wf(old(bus)@.ppu) ==> ppu_wf(final(bus)@.ppu),
    {
        let addr = self.read_pc(bus).wrapping_add(self.x as u8);
        let low = bus.read(0, addr as u16) as u16;
        let high = bus.read(0, addr.wrapping_add(1) as u16) as u16;
        (high << 8u16) | low
    }

    /// (Indirect),Y address.
    fn addr_indirect_y(&mut self, bus: &mut Bus) -> (r: u16)
        requires
            cycles_room(*old(self), 8),
            ea_indirect_y_ok(*old(self), old(bus)@),
        ensures
            (r, *final(self), final(bus)@) == ea_indirect_y(*old(self), old(bus)@),
            final(bus)@.cart == old(bus)@.cart,
            ppu_wf(old(bus)@.ppu) ==> ppu_wf(final(bus)@.ppu),
    {
        let addr = self.read_pc(bus);
        let low = bus.read(0, addr as u16) as u16;
        let high = bus.read(0, addr.wrapping_add(1) as u16) as u16;
        let base = (high << 8u16) | low;
        base.wrapping_add(self.y as u16)
    }

    /// Long absolute 24-bit address.
    fn addr_long_absolute(&mut self, bus: &mut Bus) -> (r: u32)
        requires
            cycles_room(*old(self), 24),
            ea_long_ok(*old(self), old(bus)@),
        ensures
            (r, *final(self), final(bus)@) == ea_long(*old(self), old(bus)@),
            r < 0x1000000,
            final(bus)@.cart == old(bus)@.cart,
            ppu_wf(old(bus)@.ppu) ==> ppu_wf(final(bus)@.ppu),
    {
        let low = self.read_pc(bus) as u32;
        let mid = self.read_pc(bus) as u32;
        let high = self.read_pc(bus) as u32;
        proof {
            let l = low as u8;
            let m = mid as u8;
            let h = high as u8;
            assert(((h as u32) << 16u32) | ((m as u32) << 8u32) | (l as u32) < 0x1000000) by (bit_vector);
        }
        (high << 16u32) | (mid << 8u32) | low
    }

    /// STA: store A in its width.
    fn sta(&mut self, bus: &mut Bus, addr: u32)
        requires
            addr < 0xFFFF_FFFF,
        ensures
            *final(self) == *old(self),
            final(bus)@ == stored(old(bus)@, addr, old(self).a, flag_set(old(self).p, Flags::M)),
            final(bus)@.cart == old(bus)@.cart,
            ppu_wf(old(bus)@.ppu) ==> ppu_wf(final(bus)@.ppu),
    {
        if self.get_flag(Flags::M) {
            bus.write((addr >> 16u32) as u8, addr as u16, (self.a & 0xFF) as u8);
        } else {
            bus.write((addr >> 16u32) as u8, addr as u16, (self.a & 0xFF) as u8);
            bus.write((addr >> 16u32) as u8, (addr + 1) as u16, ((self.a >> 8u16) & 0xFF) as u8);
        }
    }

    /// STX: store X in its width.
    fn stx(&mut self, bus: &mut Bus, addr: u32)
        requires
            addr < 0xFFFF_FFFF,
        ensures
            *final(self) == *old(self),
            final(bus)@ == stored(old(bus)@, addr, old(self).x, flag_set(old(self).p, Flags::X)),
            final(bus)@.cart == old(bus)@.cart,
            ppu_wf(old(bus)@.ppu) ==> ppu_wf(final(bus)@.ppu),
    {
        if self.get_flag(Flags::X) {
            bus.write((addr >> 16u32) as u8, addr as u16, (self.x & 0xFF) as u8);
        } else {
            bus.write((addr >> 16u32) as u8, addr as u16, (self.x & 0xFF) as u8);
            bus.write((addr >> 16u32) as u8, (addr + 1) as u16, ((self.x >> 8u16) & 0xFF) as u8);
        }
    }

    /// STY: store Y in its width.
    fn sty(&mut self, bus: &mut Bus, addr: u32)
        requires
            addr < 0xFFFF_FFFF,
        ensures
            *final(self) == *old(self),
            final(bus)@ == stored(old(bus)@, addr, old(self).y, flag_set(old(self).p, Flags::X)),
            final(bus)@.cart == old(bus)@.cart,
            ppu_wf(old(bus)@.ppu) ==> ppu_wf(final(bus)@.ppu),
    {
        if self.get_flag(Flags::X) {
            bus.write((addr >> 16u32) as u8, addr as u16, (self.y & 0xFF) as u8);
        } else {
            bus.write((addr >> 16u32) as u8, addr as u16, (self.y & 0xFF) as u8);
            bus.write((addr >> 16u32) as u8, (addr + 1) as u16, ((self.y >> 8u16) & 0xFF) as u8);
        }
    }

    /// Push a byte.
    fn push_8(&mut self, bus: &mut Bus, val: u8)
        ensures
            (*final(self), final(bus)@) == pushed8(*old(self), old(bus)@, val),
            final(bus)@.cart == old(bus)@.cart,
            ppu_wf(old(bus)@.ppu) ==> ppu_wf(final(bus)@.ppu),
    {
        bus.write(0, self.s, val);
        self.s = self.s.wrapping_sub(1);
    }

    /// Push a word, high byte first.
    fn push_16(&mut self, bus: &mut Bus, val: u16)
        ensures
            (*final(self), final(bus)@) == pushed16(*old(self), old(bus)@, val),
            final(bus)@.cart == old(bus)@.cart,
            ppu_wf(old(bus)@.ppu) ==> ppu_wf(final(bus)@.ppu),
    {
        self.push_8(bus, ((val >> 8u16) & 0xFF) as u8);
        self.push_8(bus, (val & 0xFF) as u8);
    }

    /// Pull a byte.
    fn pop_8(&mut self, bus: &mut Bus) -> (r: u8)
        requires
            pulled8_ok(*old(self), old(bus)@),
        ensures
            (r, *final(self), final(bus)@) == pulled8(*old(self), old(bus)@),
            final(bus)@.cart == old(bus)@.cart,
            ppu_wf(old(bus)@.ppu) ==> ppu_wf(final(bus)@.ppu),
    {
        self.s = self.s.wrapping_add(1);
        bus.read(0, self.s)
    }

    /// Pull a word, low byte first.
    fn pop_16(&mut self, bus: &mut Bus) -> (r: u16)
        requires
            pulled16_ok(*old(self), old(bus)@),
        ensures
            (r, *final(self), final(bus)@) == pulled16(*old(self), old(bus)@),
            final(bus)@.cart == old(bus)@.cart,
            ppu_wf(old(bus)@.ppu) ==> ppu_wf(final(bus)@.ppu),
    {
        let low = self.pop_8(bus) as u16;
        let high = self.pop_8(bus) as u16;
        (high << 8u16) | low
    }

    /// PHA: push A in its width.
    fn pha(&mut self, bus: &mut Bus)
        ensures
            (*final(self), final(bus)@) == pushed_reg(
                *old(self),
                old(bus)@,
                old(self).a,
                flag_set(old(self).p, Flags::M),
            ),
            final(bus)@.cart == old(bus)@.cart,
            ppu_wf(old(bus)@.ppu) ==> ppu_wf(final(bus)@.ppu),
    {
        if self.get_flag(Flags::M) {
            self.push_8(bus, (self.a & 0xFF) as u8);
        } else {
            self.push_16(bus, self.a);
        }
    }

    /// PHX: push X in its width.
    fn phx(&mut self, bus: &mut Bus)
        ensures
            (*final(self), final(bus)@) == pushed_reg(
                *old(self),
                old(bus)@,
                old(self).x,
                flag_set(old(self).p, Flags::X),
            ),
            final(bus)@.cart == old(bus)@.cart,
            ppu_wf(old(bus)@.ppu) ==> ppu_wf(final(bus)@.ppu),
    {
        if self.get_flag(Flags::X) {
            self.push_8(bus, (self.x & 0xFF) as u8);
        } else {
            self.push_16(bus, self.x);
        }
    }

    /// PHY: push Y in its width.
    fn phy(&mut self, bus: &mut Bus)
        ensures
            (*final(self), final(bus)@) == pushed_reg(
                *old(self),
                old(bus)@,
                old(self).y,
                flag_set(old(self).p, Flags::X),
            ),
            final(bus)@.cart == old(bus)@.cart,
            ppu_wf(old(bus)@.ppu) ==> ppu_wf(final(bus)@.ppu),
    {
        if self.get_flag(Flags::X) {
            self.push_8(bus, (self.y & 0xFF) as u8);
        } else {
            self.push_16(bus, self.y);
        }
    }

    /// PLA: pull A in its width.
    fn pla(&mut self, bus: &mut Bus)
        requires
            pulled_reg_ok(*old(self), old(bus)@, flag_set(old(self).p, Flags::M)),
        ensures
            (*final(self), final(bus)@) == ({
                let v = pulled_reg(*old(self), old(bus)@, flag_set(old(self).p, Flags::M));
                (lda_result(v.1, v.0), v.2)
            }),
            final(bus)@.cart == old(bus)@.cart,
            ppu_wf(old(bus)@.ppu) ==> ppu_wf(final(bus)@.ppu),
    {
        let val = if self.get_flag(Flags::M) {
            self.pop_8(bus) as u16
        } else {
            self.pop_16(bus)
        };
        self.lda(val);
    }

    /// PLX: pull X in its width.
    fn plx(&mut self, bus: &mut Bus)
        requires
            pulled_reg_ok(*old(self), old(bus)@, flag_set(old(self).p, Flags::X)),
        ensures
            (*final(self), final(bus)@) == ({
                let v = pulled_reg(*old(self), old(bus)@, flag_set(old(self).p, Flags::X));
                (ldx_result(v.1, v.0), v.2)
            }),
            final(bus)@.cart == old(bus)@.cart,
            ppu_wf(old(bus)@.ppu) ==> ppu_wf(final(bus)@.ppu),
    {
        let val = if self.get_flag(Flags::X) {
            self.pop_8(bus) as u16
        } else {
            self.pop_16(bus)
        };
        self.ldx(val);
    }

    /// PLY: pull Y in its width.
    fn ply(&mut self, bus: &mut Bus)
        requires
            pulled_reg_ok(*old(self), old(bus)@, flag_set(old(self).p, Flags::X)),
        ensures
            (*final(self), final(bus)@) == ({
                let v = pulled_reg(*old(self), old(bus)@, flag_set(old(self).p, Flags::X));
                (ldy_result(v.1, v.0), v.2)
            }),
            final(bus)@.cart == old(bus)@.cart,
            ppu_wf(old(bus)@.ppu) ==> ppu_wf(final(bus)@.ppu),
    {
        let val = if self.get_flag(Flags::X) {
            self.pop_8(bus) as u16
        } else {
            self.pop_16(bus)
        };
        self.ldy(val);
    }

    /// BRA: branch always.
    fn bra(&mut self, bus: &mut Bus)
        requires
            cycles_room(*old(self), 8),
            pc_fetch_ok(*old(self), old(bus)@),
        ensures
            (*final(self), final(bus)@) == branched(*old(self), old(bus)@, true),
            final(bus)@.cart == old(bus)@.cart,
            ppu_wf(old(bus)@.ppu) ==> ppu_wf(final(bus)@.ppu),
    {
        let offset = self.read_pc(bus) as i8;
        self.pc = self.pc.wrapping_add(offset as u16);
    }

    /// BCC: branch if carry clear.
    fn bcc(&mut self, bus: &mut Bus)
        requires
            cycles_room(*old(self), 8),
            pc_fetch_ok(*old(self), old(bus)@),
        ensures
            (*final(self), final(bus)@) == branched(*old(self), old(bus)@, !flag_set(old(self).p, Flags::C)),
            final(bus)@.cart == old(bus)@.cart,
            ppu_wf(old(bus)@.ppu) ==> ppu_wf(final(bus)@.ppu),
    {
        let offset = self.read_pc(bus) as i8;
        if !self.get_flag(Flags::C) {
            self.pc = self.pc.wrapping_add(offset as u16);
        }
    }

    /// BCS: branch if carry set.
    fn bcs(&mut self, bus: &mut Bus)
        requires
            cycles_room(*old(self), 8),
            pc_fetch_ok(*old(self), old(bus)@),
        ensures
            (*final(self), final(bus)@) == branched(*old(self), old(bus)@, flag_set(old(self).p, Flags::C)),
            final(bus)@.cart == old(bus)@.cart,
            ppu_wf(old(bus)@.ppu) ==> ppu_wf(final(bus)@.ppu),
    {
        let offset = self.read_pc(bus) as i8;
        if self.get_flag(Flags::C) {
            self.pc = self.pc.wrapping_add(offset as u16);
        }
    }

    /// BEQ: branch if zero set.
    fn beq(&mut self, bus: &mut Bus)
        requires
            cycles_room(*old(self), 8),
            pc_fetch_ok(*old(self), old(bus)@),
        ensures
            (*final(self), final(bus)@) == branched(*old(self), old(bus)@, flag_set(old(self).p, Flags::Z)),
            final(bus)@.cart == old(bus)@.cart,
            ppu_wf(old(bus)@.ppu) ==> ppu_wf(final(bus)@.ppu),
    {
        let offset = self.read_pc(bus) as i8;
        if self.get_flag(Flags::Z) {
            self.pc = self.pc.wrapping_add(offset as u16);
        }
    }

    /// BNE: branch if zero clear.
    fn bne(&mut self, bus: &mut Bus)
        requires
            cycles_room(*old(self), 8),
            pc_fetch_ok(*old(self), old(bus)@),
        ensures
            (*final(self), final(bus)@) == branched(*old(self), old(bus)@, !flag_set(old(self).p, Flags::Z)),
            final(bus)@.cart == old(bus)@.cart,
            ppu_wf(old(bus)@.ppu) ==> ppu_wf(final(bus)@.ppu),
    {
        let offset = self.read_pc(bus) as i8;
        if !self.get_flag(Flags::Z) {
            self.pc = self.pc.wrapping_add(offset as u16);
        }
    }

    /// BMI: branch if negative set.
    fn bmi(&mut self, bus: &mut Bus)
        requires
            cycles_room(*old(self), 8),
            pc_fetch_ok(*old(self), old(bus)@),
        ensures
            (*final(self), final(bus)@) == branched(*old(self), old(bus)@, flag_set(old(self).p, Flags::N)),
            final(bus)@.cart == old(bus)@.cart,
            ppu_wf(old(bus)@.ppu) ==> ppu_wf(final(bus)@.ppu),
    {
        let offset = self.read_pc(bus) as i8;
        if self.get_flag(Flags::N) {
            self.pc = self.pc.wrapping_add(offset as u16);
        }
    }

    /// BPL: branch if negative clear.
    fn bpl(&mut self, bus: &mut Bus)
        requires
            cycles_room(*old(self), 8),
            pc_fetch_ok(*old(self), old(bus)@),
        ensures
            (*final(self), final(bus)@) == branched(*old(self), old(bus)@, !flag_set(old(self).p, Flags::N)),
            final(bus)@.cart == old(bus)@.cart,
            ppu_wf(old(bus)@.ppu) ==> ppu_wf(final(bus)@.ppu),
    {
        let offset = self.read_pc(bus) as i8;
        if !self.get_flag(Flags::N) {
            self.pc = self.pc.wrapping_add(offset as u16);
        }
    }

    /// BVS: branch if overflow set.
    fn bvs(&mut self, bus: &mut Bus)
        requires
            cycles_room(*old(self), 8),
            pc_fetch_ok(*old(self), old(bus)@),
        ensures
            (*final(self), final(bus)@) == branched(*old(self), old(bus)@, flag_set(old(self).p, Flags::V)),
            final(bus)@.cart == old(bus)@.cart,
            ppu_wf(old(bus)@.ppu) ==> ppu_wf(final(bus)@.ppu),
    {
        let offset = self.read_pc(bus) as i8;
        if self.get_flag(Flags::V) {
            self.pc = self.pc.wrapping_add(offset as u16);
        }
    }

    /// BVC: branch if overflow clear.
    fn bvc(&mut self, bus: &mut Bus)
        requires
            cycles_room(*old(self), 8),
            pc_fetch_ok(*old(self), old(bus)@),
        ensures
            (*final(self), final(bus)@) == branched(*old(self), old(bus)@, !flag_set(old(self).p, Flags::V)),
            final(bus)@.cart == old(bus)@.cart,
            ppu_wf(old(bus)@.ppu) ==> ppu_wf(final(bus)@.ppu),
    {
        let offset = self.read_pc(bus) as i8;
        if !self.get_flag(Flags::V) {
            self.pc = self.pc.wrapping_add(offset as u16);
        }
    }

    /// JSR: push PC minus one and jump.
    fn jsr(&mut self, bus: &mut Bus, addr: u32)
        ensures
            (*final(self), final(bus)@) == called(*old(self), old(bus)@, addr),
            final(bus)@.cart == old(bus)@.cart,
            ppu_wf(old(bus)@.ppu) ==> ppu_wf(final(bus)@.ppu),
    {
        self.push_16(bus, self.pc.wrapping_sub(1));
        self.k = (addr >> 16u32) as u8;
        self.pc = addr as u16;
    }

    /// RTS: pull PC and add one.
    fn rts(&mut self, bus: &mut Bus)
        requires
            pulled16_ok(*old(self), old(bus)@),
        ensures
            (*final(self), final(bus)@) == returned(*old(self), old(bus)@),
            final(bus)@.cart == old(bus)@.cart,
            ppu_wf(old(bus)@.ppu) ==> ppu_wf(final(bus)@.ppu),
    {
        self.pc = self.pop_16(bus).wrapping_add(1);
    }

    /// RTI: pull PC, then the status byte.
    fn rti(&mut self, bus: &mut Bus)
        requires
            rti_ok(*old(self), old(bus)@),
        ensures
            (*final(self), final(bus)@) == returned_from_interrupt(*old(self), old(bus)@),
            final(bus)@.cart == old(bus)@.cart,
            ppu_wf(old(bus)@.ppu) ==> ppu_wf(final(bus)@.ppu),
    {
        self.pc = self.pop_16(bus);
        self.p = self.pop_8(bus);
    }

    /// SEP: set the status bits named by the operand.
    fn sep(&mut self, bus: &mut Bus)
        requires
            cycles_room(*old(self), 8),
            pc_fetch_ok(*old(self), old(bus)@),
        ensures
            (*final(self), final(bus)@) == ({
                let f = pc_fetch(*old(self), old(bus)@);
                (_65816 { p: f.1.p | f.0, ..f.1 }, f.2)
            }),
            final(bus)@.cart == old(bus)@.cart,
            ppu_wf(old(bus)@.ppu) ==> ppu_wf(final(bus)@.ppu),
    {
        let val = self.read_pc(bus);
        self.p = self.p | val;
    }

    /// REP: clear the status bits named by the operand.
    fn rep(&mut self, bus: &mut Bus)
        requires
            cycles_room(*old(self), 8),
            pc_fetch_ok(*old(self), old(bus)@),
        ensures
            (*final(self), final(bus)@) == ({
                let f = pc_fetch(*old(self), old(bus)@);
                (_65816 { p: f.1.p & !f.0, ..f.1 }, f.2)
            }),
            final(bus)@.cart == old(bus)@.cart,
            ppu_wf(old(bus)@.ppu) ==> ppu_wf(final(bus)@.ppu),
    {
        let val = self.read_pc(bus);
        self.p = self.p & !val;
    }

    /// Push a byte during interrupt entry.
    fn push_byte(&mut self, bus: &mut Bus, val: u8)
        requires
            cycles_room(*old(self), 8),
        ensures
            (*final(self), final(bus)@) == pushed_byte(*old(self), old(bus)@, val),
            final(bus)@.cart == old(bus)@.cart,
            ppu_wf(old(bus)@.ppu) ==> ppu_wf(final(bus)@.ppu),
    {
        bus.write(0, self.s, val);
        self.s = self.s.wrapping_sub(1);
        self.cycles = self.cycles + 8;
    }

    /// Push a word during interrupt entry, high byte first.
    fn push_word(&mut self, bus: &mut Bus, val: u16)
        requires
            cycles_room(*old(self), 16),
        ensures
            (*final(self), final(bus)@) == pushed_word(*old(self), old(bus)@, val),
            final(bus)@.cart == old(bus)@.cart,
            ppu_wf(old(bus)@.ppu) ==> ppu_wf(final(bus)@.ppu),
    {
        let high = (val >> 8u16) as u8;
        let low = val as u8;
        self.push_byte(bus, high);
        self.push_byte(bus, low);
    }

    /// Enter the NMI handler.
    fn handle_nmi(&mut self, bus: &mut Bus)
        requires
            cycles_room(*old(self), 48),
            interrupt_entered_ok(*old(self), old(bus)@, 0xFFEA),
        ensures
            (*final(self), final(bus)@) == nmi_entered(*old(self), old(bus)@),
            final(bus)@.cart == old(bus)@.cart,
            ppu_wf(old(bus)@.ppu) ==> ppu_wf(final(bus)@.ppu),
            final(self).cycles <= old(self).cycles + 48,
    {
        self.push_byte(bus, self.p);
        self.push_word(bus, self.pc);
        self.set_flag(Flags::I, true);
        let nmi_vector: u16 = 0xFFEA;
        let low = bus.read(0, nmi_vector) as u16;
        let high = bus.read(0, nmi_vector + 1) as u16;
        self.pc = (high << 8u16) | low;
        self.cycles = self.cycles + 24;
    }

    /// Enter the IRQ handler unless interrupts are disabled.
    fn handle_irq(&mut self, bus: &mut Bus)
        requires
            cycles_room(*old(self), 48),
            irq_entered_ok(*old(self), old(bus)@),
        ensures
            (*final(self), final(bus)@) == irq_entered(*old(self), old(bus)@),
            final(bus)@.cart == old(bus)@.cart,
            ppu_wf(old(bus)@.ppu) ==> ppu_wf(final(bus)@.ppu),
            final(self).cycles <= old(self).cycles + 48,
    {
        if self.get_flag(Flags::I) {
            return ;
        }
        self.push_byte(bus, self.p);
        self.push_word(bus, self.pc);
        self.set_flag(Flags::I, true);
        let irq_vector: u16 = 0xFFEE;
        let low = bus.read(0, irq_vector) as u16;
        let high = bus.read(0, irq_vector + 1) as u16;
        self.pc = (high << 8u16) | low;
        self.cycles = self.cycles + 24;
    }

    /// Fetch the operand of a read instruction.
    fn read_operand(&mut self, bus: &mut Bus, mode: AddrMode) -> (r: u16)
        requires
            cycles_room(*old(self), 16),
            operand_fetch_ok(mode, *old(self), old(bus)@),
        ensures
            (r, *final(self), final(bus)@) == operand_fetch(mode, *old(self), old(bus)@),
            final(bus)@.cart == old(bus)@.cart,
            ppu_wf(old(bus)@.ppu) ==> ppu_wf(final(bus)@.ppu),
            final(self).cycles <= old(self).cycles + 16,
    {
        match mode {
            AddrMode::Immediate => self.read_pc(bus) as u16,
            AddrMode::ZeroPage => {
                let addr = self.addr_zeropage(bus);
                bus.read(0, addr) as u16
            },
            AddrMode::ZeroPageX => {
                let addr = self.addr_zeropage_x(bus);
                bus.read(0, addr) as u16
            },
            AddrMode::ZeroPageY => {
                let addr = self.addr_zeropage_y(bus);
                bus.read(0, addr) as u16
            },
            AddrMode::ZeroPageIndirectX => {
                let addr = self.addr_indirect_x(bus);
                bus.read(0, addr) as u16
            },
            AddrMode::ZeroPageIndirectY => {
                let addr = self.addr_indirect_y(bus);
                bus.read(0, addr) as u16
            },
            AddrMode::Absolute => {
                let addr = self.addr_absolute(bus);
                bus.read((addr >> 16u32) as u8, addr as u16) as u16
            },
            AddrMode::AbsoluteX => {
                let addr = self.addr_absolute_x(bus);
                bus.read((addr >> 16u32) as u8, addr as u16) as u16
            },
            AddrMode::AbsoluteY => {
                let addr = self.addr_absolute_y(bus);
                bus.read((addr >> 16u32) as u8, addr as u16) as u16
            },
            _ => 0,
        }
    }

    /// Fetch the effective address of a store, read-modify-write or jump.
    fn operand_address(&mut self, bus: &mut Bus, mode: AddrMode) -> (r: u32)
        requires
            cycles_room(*old(self), 24),
            address_fetch_ok(mode, *old(self), old(bus)@),
        ensures
            (r, *final(self), final(bus)@) == address_fetch(mode, *old(self), old(bus)@),
            r < 0x1000000,
            final(bus)@.cart == old(bus)@.cart,
            ppu_wf(old(bus)@.ppu) ==> ppu_wf(final(bus)@.ppu),
            final(self).cycles <= old(self).cycles + 24,
    {
        match mode {
            AddrMode::ZeroPage => self.addr_zeropage(bus) as u32,
            AddrMode::ZeroPageX => self.addr_zeropage_x(bus) as u32,
            AddrMode::ZeroPageY => self.addr_zeropage_y(bus) as u32,
            AddrMode::ZeroPageIndirectX => self.addr_indirect_x(bus) as u32,
            AddrMode::ZeroPageIndirectY => self.addr_indirect_y(bus) as u32,
            AddrMode::Absolute => self.addr_absolute(bus),
            AddrMode::AbsoluteX => self.addr_absolute_x(bus),
            AddrMode::AbsoluteY => self.addr_absolute_y(bus),
            AddrMode::LongAbsolute => self.addr_long_absolute(bus),
            _ => 0,
        }
    }

    /// ADC, AND, BIT, CMP, CPX, CPY, EOR, LDA, LDX, LDY, ORA, SBC.
    fn exec_read_op(&mut self, bus: &mut Bus, op: Op, mode: AddrMode)
        requires
            cycles_room(*old(self), 16),
            operand_fetch_ok(mode, *old(self), old(bus)@),
        ensures
            (*final(self), final(bus)@) == read_op_done(op, mode, *old(self), old(bus)@),
            final(bus)@.cart == old(bus)@.cart,
            ppu_wf(old(bus)@.ppu) ==> ppu_wf(final(bus)@.ppu),
            final(self).cycles <= old(self).cycles + 16,
    {
        let val = self.read_operand(bus, mode);
        match op {
            Op::Adc => self.adc(val),
            Op::And => self.and(val),
            Op::Bit => self.bit(val),
            Op::Cmp => self.compare_accumulator(val),
            Op::Cpx => self.cpx(val),
            Op::Cpy => self.cpy(val),
            Op::Eor => self.eor(val),
            Op::Lda => self.lda(val),
            Op::Ldx => self.ldx(val),
            Op::Ldy => self.ldy(val),
            Op::Ora => self.ora(val),
            Op::Sbc => self.sbc(val),
            _ => {},
        }
    }

    /// STA, STX, STY.
    fn exec_store_op(&mut self, bus: &mut Bus, op: Op, mode: AddrMode)
        requires
            cycles_room(*old(self), 24),
            address_fetch_ok(mode, *old(self), old(bus)@),
        ensures
            (*final(self), final(bus)@) == store_op_done(op, mode, *old(self), old(bus)@),
            final(bus)@.cart == old(bus)@.cart,
            ppu_wf(old(bus)@.ppu) ==> ppu_wf(final(bus)@.ppu),
            final(self).cycles <= old(self).cycles + 24,
    {
        let addr = self.operand_address(bus, mode);
        match op {
            Op::Sta => self.sta(bus, addr),
            Op::Stx => self.stx(bus, addr),
            _ => self.sty(bus, addr),
        }
    }

    /// INC and DEC on memory.
    fn exec_rmw_op(&mut self, bus: &mut Bus, op: Op, mode: AddrMode)
        requires
            cycles_room(*old(self), 24),
            rmw_op_ok(mode, *old(self), old(bus)@),
        ensures
            (*final(self), final(bus)@) == rmw_op_done(op, mode, *old(self), old(bus)@),
            final(bus)@.cart == old(bus)@.cart,
            ppu_wf(old(bus)@.ppu) ==> ppu_wf(final(bus)@.ppu),
            final(self).cycles <= old(self).cycles + 24,
    {
        let addr = self.operand_address(bus, mode);
        let bank: u8 = match mode {
            AddrMode::Absolute | AddrMode::AbsoluteX => (addr >> 16u32) as u8,
            _ => 0,
        };
        let old_val = bus.read(bank, addr as u16);
        let val = match op {
            Op::Inc => old_val.wrapping_add(1),
            _ => old_val.wrapping_sub(1),
        };
        bus.write(bank, addr as u16, val);
    }

    /// Branches, jumps, returns, pushes, pulls, SEP and REP.
    fn exec_control_op(&mut self, bus: &mut Bus, op: Op, mode: AddrMode)
        requires
            cycles_room(*old(self), 24),
            control_op_ok(op, mode, *old(self), old(bus)@),
        ensures
            (*final(self), final(bus)@) == control_op_done(op, mode, *old(self), old(bus)@),
            final(bus)@.cart == old(bus)@.cart,
            ppu_wf(old(bus)@.ppu) ==> ppu_wf(final(bus)@.ppu),
            final(self).cycles <= old(self).cycles + 24,
    {
        match op {
            Op::Bcc => self.bcc(bus),
            Op::Bcs => self.bcs(bus),
            Op::Beq => self.beq(bus),
            Op::Bmi => self.bmi(bus),
            Op::Bne => self.bne(bus),
            Op::Bpl => self.bpl(bus),
            Op::Bra => self.bra(bus),
            Op::Bvc => self.bvc(bus),
            Op::Bvs => self.bvs(bus),
            Op::Jmp => {
                let addr = self.operand_address(bus, mode);
                self.jmp(addr);
            },
            Op::Jsr => {
                let addr = self.operand_address(bus, mode);
                self.jsr(bus, addr);
            },
            Op::Rts => self.rts(bus),
            Op::Rti => self.rti(bus),
            Op::Sep => self.sep(bus),
            Op::Rep => self.rep(bus),
            Op::Pha => self.pha(bus),
            Op::Php => {
                let p = self.p;
                self.push_8(bus, p);
            },
            Op::Pla => self.pla(bus),
            Op::Plp => {
                self.p = self.pop_8(bus);
            },
            Op::Phx => self.phx(bus),
            Op::Plx => self.plx(bus),
            Op::Phy => self.phy(bus),
            Op::Ply => self.ply(bus),
            _ => {},
        }
    }

    /// Instructions that touch only registers; NOP and unknown opcodes cost two cycles.
    fn exec_implied_op(&mut self, op: Op)
        requires
            cycles_room(*old(self), 2),
        ensures
            *final(self) == implied_op_done(op, *old(self)),
            final(self).cycles <= old(self).cycles + 2,
    {
        match op {
            Op::Asl => self.asl_a(),
            Op::Lsr => self.lsr_a(),
            Op::Rol => self.rol_a(),
            Op::Ror => self.ror_a(),
            Op::Clc => self.clc(),
            Op::Cld => self.cld(),
            Op::Cli => self.cli(),
            Op::Clv => self.clv(),
            Op::Sec => self.sec(),
            Op::Sed => self.sed(),
            Op::Sei => self.sei(),
            Op::Dex => self.dex(),
            Op::Dey => self.dey(),
            Op::Inx => self.inx(),
            Op::Iny => self.iny(),
            Op::Tax => self.tax(),
            Op::Tay => self.tay(),
            Op::Txa => self.txa(),
            Op::Tya => self.tya(),
            Op::Tsx => self.tsx(),
            Op::Txs => self.txs(),
            _ => {
                self.cycles = self.cycles + 2;
            },
        }
    }

    /// Execute one decoded instruction.
    fn execute(&mut self, bus: &mut Bus, op: Op, mode: AddrMode)
        requires
            cycles_room(*old(self), 24),
            executed_ok(op, mode, *old(self), old(bus)@),
        ensures
            (*final(self), final(bus)@) == executed(op, mode, *old(self), old(bus)@),
            final(bus)@.cart == old(bus)@.cart,
            ppu_wf(old(bus)@.ppu) ==> ppu_wf(final(bus)@.ppu),
            final(self).cycles <= old(self).cycles + 24,
    {
        match op {
            Op::Adc | Op::And | Op::Bit | Op::Cmp | Op::Cpx | Op::Cpy | Op::Eor | Op::Lda
            | Op::Ldx | Op::Ldy | Op::Ora | Op::Sbc => self.exec_read_op(bus, op, mode),
            Op::Sta | Op::Stx | Op::Sty => self.exec_store_op(bus, op, mode),
            Op::Inc | Op::Dec => self.exec_rmw_op(bus, op, mode),
            Op::Bcc | Op::Bcs | Op::Beq | Op::Bmi | Op::Bne | Op::Bpl | Op::Bra | Op::Bvc
            | Op::Bvs | Op::Jmp | Op::Jsr | Op::Rts | Op::Rti | Op::Sep | Op::Rep | Op::Pha
            | Op::Php | Op::Pla | Op::Plp | Op::Phx | Op::Plx | Op::Phy | Op::Ply => self.exec_control_op(bus, op, mode),
            _ => self.exec_implied_op(op),
        }
    }

    /// One CPU step: serve a pending NMI (else a pending IRQ), then fetch,
    /// decode and execute one instruction.
    pub fn tick(&mut self, bus: &mut Bus)
        requires
            cycles_room(*old(self), TICK_CYCLES as int),
            cpu_tick_ok(*old(self), old(bus)@),
        ensures
            (*final(self), final(bus)@) == cpu_ticked(*old(self), old(bus)@),
            final(bus)@.cart == old(bus)@.cart,
            ppu_wf(old(bus)@.ppu) ==> ppu_wf(final(bus)@.ppu),
            final(self).cycles <= old(self).cycles + TICK_CYCLES,
    {
        if self.nmi_pending {
            self.handle_nmi(bus);
            self.nmi_pending = false;
        } else if self.irq_pending {
            self.handle_irq(bus);
            self.irq_pending = false;
        }
        let opcode = self.read_pc(bus);
        let (op, mode) = decode(opcode);
        self.execute(bus, op, mode);
    }
}


proof fn lemma_single_bit_update(p: u8, m: u8, n: u8)
    by (bit_vector)
    requires
        m != 0,
        m == n || m & n == 0,
    ensures
        ((p | m) & n != 0) == (m == n || p & n != 0),
        ((p & !m) & n != 0) == (m != n && p & n != 0),
{
}

proof fn lemma_flag_masks_disjoint()
    by (bit_vector)
    ensures
        0x01u8 & 0x02u8 == 0 && 0x01u8 & 0x04u8 == 0 && 0x01u8 & 0x08u8 == 0 && 0x01u8 & 0x10u8 == 0
            && 0x01u8 & 0x20u8 == 0 && 0x01u8 & 0x40u8 == 0 && 0x01u8 & 0x80u8 == 0,
        0x02u8 & 0x01u8 == 0 && 0x02u8 & 0x04u8 == 0 && 0x02u8 & 0x08u8 == 0 && 0x02u8 & 0x10u8 == 0
            && 0x02u8 & 0x20u8 == 0 && 0x02u8 & 0x40u8 == 0 && 0x02u8 & 0x80u8 == 0,
        0x04u8 & 0x01u8 == 0 && 0x04u8 & 0x02u8 == 0 && 0x04u8 & 0x08u8 == 0 && 0x04u8 & 0x10u8 == 0
            && 0x04u8 & 0x20u8 == 0 && 0x04u8 & 0x40u8 == 0 && 0x04u8 & 0x80u8 == 0,
        0x08u8 & 0x01u8 == 0 && 0x08u8 & 0x02u8 == 0 && 0x08u8 & 0x04u8 == 0 && 0x08u8 & 0x10u8 == 0
            && 0x08u8 & 0x20u8 == 0 && 0x08u8 & 0x40u8 == 0 && 0x08u8 & 0x80u8 == 0,
        0x10u8 & 0x01u8 == 0 && 0x10u8 & 0x02u8 == 0 && 0x10u8 & 0x04u8 == 0 && 0x10u8 & 0x08u8 == 0
            && 0x10u8 & 0x20u8 == 0 && 0x10u8 & 0x40u8 == 0 && 0x10u8 & 0x80u8 == 0,
        0x20u8 & 0x01u8 == 0 && 0x20u8 & 0x02u8 == 0 && 0x20u8 & 0x04u8 == 0 && 0x20u8 & 0x08u8 == 0
            && 0x20u8 & 0x10u8 == 0 && 0x20u8 & 0x40u8 == 0 && 0x20u8 & 0x80u8 == 0,
        0x40u8 & 0x01u8 == 0 && 0x40u8 & 0x02u8 == 0 && 0x40u8 & 0x04u8 == 0 && 0x40u8 & 0x08u8 == 0
            && 0x40u8 & 0x10u8 == 0 && 0x40u8 & 0x20u8 == 0 && 0x40u8 & 0x80u8 == 0,
        0x80u8 & 0x01u8 == 0 && 0x80u8 & 0x02u8 == 0 && 0x80u8 & 0x04u8 == 0 && 0x80u8 & 0x08u8 == 0
            && 0x80u8 & 0x10u8 == 0 && 0x80u8 & 0x20u8 == 0 && 0x80u8 & 0x40u8 == 0,
{
}

/// Setting or clearing one status flag makes it read back as written and
/// leaves every other flag as it was.
pub proof fn law_flag_update(p: u8, f: Flags, g: Flags, val: bool)
    ensures
        flag_set(with_flag(p, f, val), g) == (if f == g { val } else { flag_set(p, g) }),
{
    lemma_flag_masks_disjoint();
    lemma_single_bit_update(p, flag_mask(f), flag_mask(g));
}

/// A byte pushed on a stack in the low 8 KB of work RAM is pulled back
/// unchanged, and the stack pointer returns to where it was.
pub proof fn law_push_pull_byte(c: _65816, b: BusView, val: u8)
    requires
        b.ram.len() == WRAM_SIZE,
        c.s <= 0x1FFF,
    ensures
        ({
            let pushed = pushed8(c, b, val);
            let pulled = pulled8(pushed.0, pushed.1);
            pulled.0 == val && pulled.1.s == c.s
        }),
{
    reveal(bus_read_value);
    reveal(bus_written);
}

proof fn lemma_word_bytes(v: u16)
    by (bit_vector)
    ensures
        ((((((v >> 8u16) & 0xFF) as u8) as u16) << 8u16) | ((((v & 0xFF) as u8) as u16))) == v,
{
}

/// RTS after JSR, with the stack in the low 8 KB of work RAM, returns to the
/// byte after the JSR's operand, with the stack pointer restored.
pub proof fn law_call_return(c: _65816, b: BusView, addr: u32)
    requires
        b.ram.len() == WRAM_SIZE,
        1 <= c.s <= 0x1FFF,
    ensures
        ({
            let call = called(c, b, addr);
            let ret = returned(call.0, call.1);
            ret.0.pc == c.pc && ret.0.s == c.s
        }),
{
    reveal(bus_read_value);
    reveal(bus_written);
    reveal(bus_after_read);
    let v = vstd::wrapping::u16_specs::wrapping_sub(c.pc, 1);
    lemma_word_bytes(v);
}


proof fn lemma_word_split(v: u16)
    by (bit_vector)
    ensures
        ((((v >> 8u16) as u8) as u16) << 8u16) | (((v as u8) as u16)) == v,
{
}

/// RTI after interrupt entry, with the stack in the low 8 KB of work RAM,
/// returns to the interrupted PC with the interrupted status byte and the
/// stack pointer restored.
pub proof fn law_interrupt_return(c: _65816, b: BusView, vector: u16)
    requires
        b.ram.len() == WRAM_SIZE,
        2 <= c.s <= 0x1FFF,
        vector < 0xFFFF,
        !(vector == 0x4217 || vector + 1 == 0x4217),
    ensures
        ({
            let entry = interrupt_entered(c, b, vector);
            let ret = returned_from_interrupt(entry.0, entry.1);
            ret.0.pc == c.pc && ret.0.p == c.p && ret.0.s == c.s
        }),
{
    reveal(bus_read_value);
    reveal(bus_written);
    reveal(bus_after_read);
    lemma_word_split(c.pc);
}


proof fn lemma_fetches_kept(c: _65816, b: BusView, mode: AddrMode)
    requires
        bus_faultless(b),
    ensures
        pc_fetch_ok(c, b) && pc_fetch(c, b).2.cart == b.cart,
        pc_fetch16_ok(c, b) && pc_fetch16(c, b).2.cart == b.cart,
        operand_fetch_ok(mode, c, b) && operand_fetch(mode, c, b).2.cart == b.cart,
        address_fetch_ok(mode, c, b) && address_fetch(mode, c, b).2.cart == b.cart,
        pulled8_ok(c, b) && pulled8(c, b).2.cart == b.cart,
        pulled16_ok(c, b) && pulled16(c, b).2.cart == b.cart,
        rti_ok(c, b) && returned_from_interrupt(c, b).1.cart == b.cart,
{
    law_cart_kept();
}

proof fn lemma_executed_kept(op: Op, mode: AddrMode, c: _65816, b: BusView)
    requires
        bus_faultless(b),
    ensures
        executed_ok(op, mode, c, b),
        executed(op, mode, c, b).1.cart == b.cart,
{
    law_cart_kept();
    lemma_fetches_kept(c, b, mode);
    let e = address_fetch(mode, c, b);
    lemma_fetches_kept(e.1, e.2, mode);
}

/// On a cartridge where no access faults, every step's reads are defined,
/// and a step leaves the cartridge as it was.
pub proof fn law_faultless_step(c: _65816, b: BusView)
    requires
        bus_faultless(b),
    ensures
        cpu_tick_ok(c, b),
        bus_faultless(cpu_ticked(c, b).1),
{
    law_cart_kept();
    let s = interrupts_served(c, b);
    assert(s.1.cart == b.cart);
    let f = pc_fetch(s.0, s.1);
    let d = decoded(f.0);
    lemma_executed_kept(d.0, d.1, f.1, f.2);
}

/// EOR immediate (opcode 0x49), with no interrupt pending, exclusive-ors the
/// byte after the opcode into A. With an 8-bit accumulator the low byte of A
/// becomes the old low byte XOR the operand (so a value EORed with itself
/// gives 0 and sets Z), the high byte is kept, and N is bit 7 of the new low
/// byte; with a 16-bit accumulator all of A is XORed with the operand byte.
/// X, Y and S are unchanged and PC moves past the two bytes.
pub proof fn law_eor_immediate(c: _65816, b: BusView)
    requires
        !c.nmi_pending,
        !c.irq_pending,
        pc_fetch(c, b).0 == 0x49,
    ensures
        ({
            let f = pc_fetch(c, b);
            let v = pc_fetch(f.1, f.2).0;
            let r = cpu_ticked(c, b).0;
            &&& flag_set(c.p, Flags::M) ==> {
                &&& (r.a as u8) == (c.a as u8) ^ v
                &&& r.a >> 8u16 == c.a >> 8u16
                &&& flag_set(r.p, Flags::Z) == (c.a as u8 == v)
                &&& flag_set(r.p, Flags::N) == ((c.a as u8) ^ v >= 0x80)
            }
            &&& !flag_set(c.p, Flags::M) ==> r.a == c.a ^ (v as u16)
            &&& r.x == c.x && r.y == c.y && r.s == c.s
            &&& r.pc == vstd::wrapping::u16_specs::wrapping_add(
                vstd::wrapping::u16_specs::wrapping_add(c.pc, 1),
                1,
            )
        }),
{
    let f = pc_fetch(c, b);
    let g = pc_fetch(f.1, f.2);
    let v = g.0;
    assert(interrupts_served(c, b) == (c, b));
    assert(decoded(0x49) == (Op::Eor, AddrMode::Immediate));
    assert(cpu_ticked(c, b).0 == eor_result(g.1, v as u16));
    lemma_acc_bytes(c.a, c.a ^ (v as u16), v);
    let a = (c.a & 0xFF00) | ((c.a ^ (v as u16)) & 0xFF);
    lemma_acc_bytes(a, a, (c.a as u8) ^ v);
    law_flag_update(with_flag(c.p, Flags::Z, (a & 0xFF) as u8 == 0), Flags::N, Flags::Z, ((a & 0xFF) as u8 & 0x80) != 0);
    law_flag_update(with_flag(c.p, Flags::Z, (a & 0xFF) as u8 == 0), Flags::N, Flags::N, ((a & 0xFF) as u8 & 0x80) != 0);
    law_flag_update(c.p, Flags::Z, Flags::Z, (a & 0xFF) as u8 == 0);
    law_flag_update(c.p, Flags::Z, Flags::M, (a & 0xFF) as u8 == 0);
}

/// The accumulator after an 8-bit operation whose result byte is `low`: the
/// low byte of A is `low`, the high byte is kept, and N and Z follow `low`.
pub open spec fn a8_result(c: _65816, r: _65816, low: u8) -> bool {
    &&& r.a as u8 == low
    &&& r.a >> 8u16 == c.a >> 8u16
    &&& flag_set(r.p, Flags::Z) == (low == 0)
    &&& flag_set(r.p, Flags::N) == (low >= 0x80)
}

proof fn lemma_nz8_flags(c: _65816, v: u8)
    ensures
        flag_set(nz8(c, v).p, Flags::Z) == (v == 0),
        flag_set(nz8(c, v).p, Flags::N) == (v >= 0x80),
        forall|g: Flags|
            g != Flags::Z && g != Flags::N ==> #[trigger] flag_set(nz8(c, v).p, g) == flag_set(c.p, g),
        nz8(c, v) == (_65816 { p: nz8(c, v).p, ..c }),
{
    let z = v == 0;
    let n = (v & 0x80) != 0;
    lemma_acc_bytes(0, 0, v);
    let p1 = with_flag(c.p, Flags::Z, z);
    law_flag_update(p1, Flags::N, Flags::N, n);
    law_flag_update(p1, Flags::N, Flags::Z, n);
    law_flag_update(c.p, Flags::Z, Flags::Z, z);
    assert forall|g: Flags| g != Flags::Z && g != Flags::N implies #[trigger] flag_set(
        nz8(c, v).p,
        g,
    ) == flag_set(c.p, g) by {
        law_flag_update(p1, Flags::N, g, n);
        law_flag_update(c.p, Flags::Z, g, z);
    }
}

proof fn lemma_acc_bytes(a: u16, x: u16, v: u8)
    by (bit_vector)
    ensures
        ((a & 0xFF00) | (x & 0xFF)) as u8 == x as u8,
        ((a & 0xFF00) | (x & 0xFF)) >> 8u16 == a >> 8u16,
        (((a & 0xFF00) | (x & 0xFF)) & 0xFF) as u8 == x as u8,
        (x & 0xFF) as u8 == x as u8,
        (a & (v as u16)) as u8 == (a as u8) & v,
        (a | (v as u16)) as u8 == (a as u8) | v,
        (a ^ (v as u16)) as u8 == (a as u8) ^ v,
        (v as u16) & 0xFF == v as u16,
        (a & 0xFF) as u8 == a as u8,
        (x as u8) as u16 == x % 256u16,
        ((v & 0x80u8) != 0u8) == (v >= 0x80u8),
        ((x & 0x8000u16) != 0u16) == (x >= 0x8000u16),
        ((a as u8) ^ v == 0u8) == ((a as u8) == v),
{
}

/// AND, ORA and EOR with an 8-bit accumulator combine the low byte of A with
/// the operand bit by bit (and, or, exclusive or), keep the high byte, set N
/// and Z from the new low byte and leave every other flag as it was.
pub proof fn law_logic_8bit(c: _65816, v: u8)
    requires
        flag_set(c.p, Flags::M),
    ensures
        a8_result(c, read_op_applied(Op::And, c, v as u16), (c.a as u8) & v),
        a8_result(c, read_op_applied(Op::Ora, c, v as u16), (c.a as u8) | v),
        a8_result(c, read_op_applied(Op::Eor, c, v as u16), (c.a as u8) ^ v),
        flag_set(read_op_applied(Op::And, c, v as u16).p, Flags::C) == flag_set(c.p, Flags::C),
        flag_set(read_op_applied(Op::Ora, c, v as u16).p, Flags::C) == flag_set(c.p, Flags::C),
        flag_set(read_op_applied(Op::Eor, c, v as u16).p, Flags::C) == flag_set(c.p, Flags::C),
{
    let w = v as u16;
    lemma_acc_bytes(c.a, c.a & w, v);
    lemma_acc_bytes(c.a, c.a | w, v);
    lemma_acc_bytes(c.a, c.a ^ w, v);
    let a1 = (c.a & 0xFF00) | ((c.a & w) & 0xFF);
    let a2 = (c.a & 0xFF00) | ((c.a | w) & 0xFF);
    let a3 = (c.a & 0xFF00) | ((c.a ^ w) & 0xFF);
    lemma_nz8_flags(_65816 { a: a1, ..c }, (a1 & 0xFF) as u8);
    lemma_nz8_flags(_65816 { a: a2, ..c }, (a2 & 0xFF) as u8);
    lemma_nz8_flags(_65816 { a: a3, ..c }, (a3 & 0xFF) as u8);
}

/// LDA with an 8-bit accumulator loads the operand into the low byte of A,
/// keeps the high byte and sets N and Z from the byte loaded.
pub proof fn law_lda_8bit(c: _65816, v: u8)
    requires
        flag_set(c.p, Flags::M),
    ensures
        a8_result(c, read_op_applied(Op::Lda, c, v as u16), v),
{
    let w = v as u16;
    lemma_acc_bytes(c.a, w, v);
    let a = (c.a & 0xFF00) | (w & 0x00FF);
    lemma_nz8_flags(_65816 { a, ..c }, (a & 0xFF) as u8);
}

/// CMP with an 8-bit accumulator leaves A alone; C tells whether the low byte
/// of A is at least the operand, Z whether they are equal, and N is bit 7 of
/// their difference modulo 256.
pub proof fn law_compare_8bit(c: _65816, v: u8)
    requires
        flag_set(c.p, Flags::M),
    ensures
        ({
            let r = read_op_applied(Op::Cmp, c, v as u16);
            &&& r.a == c.a
            &&& flag_set(r.p, Flags::C) == (c.a as u8 >= v)
            &&& flag_set(r.p, Flags::Z) == (c.a as u8 == v)
            &&& flag_set(r.p, Flags::N) == (((c.a as u8) - v + 256) % 256 >= 0x80)
        }),
{
    let w = v as u16;
    lemma_acc_bytes(c.a, w, v);
    let low = (c.a & 0xFF) as u8;
    let d = vstd::wrapping::u8_specs::wrapping_sub(low, v);
    let c1 = flag_updated(c, Flags::C, low >= v);
    lemma_nz8_flags(c1, d);
    law_flag_update(c.p, Flags::C, Flags::C, low >= v);
}

proof fn lemma_adc_overflow(a: u8, v: u8, cin: u16)
    by (bit_vector)
    requires
        cin <= 1,
    ensures
        ((((a as u16) ^ ((a as u16) + (v as u16) + cin) as u16) & ((v as u16) ^ ((a as u16)
            + (v as u16) + cin) as u16) & 0x80u16) != 0u16) == ((a >= 128u8) == (v >= 128u8) && ((((
        a as u16) + (v as u16) + cin) as u16) as u8 >= 128u8) != (a >= 128u8)),
{
}

proof fn lemma_sbc_overflow(a: u8, v: u8, r: u16)
    by (bit_vector)
    ensures
        ((((a as u16) ^ r) & ((a as u16) ^ (v as u16)) & 0x80u16) != 0u16) == ((a >= 128u8) != (v
            >= 128u8) && ((r as u8) >= 128u8) != (a >= 128u8)),
{
}

/// ADC with an 8-bit accumulator (binary): the low byte of A plus the operand
/// plus the carry, as a 9-bit sum, gives the new low byte (the sum modulo 256)
/// and the new carry (the sum exceeds 255); V is set when both operands have
/// the same sign and the result's sign differs from it.
pub proof fn law_adc_8bit(c: _65816, v: u8)
    requires
        flag_set(c.p, Flags::M),
    ensures
        ({
            let r = read_op_applied(Op::Adc, c, v as u16);
            let cin: int = if flag_set(c.p, Flags::C) { 1 } else { 0 };
            let sum = (c.a as u8) + v + cin;
            let low = (sum % 256) as u8;
            &&& a8_result(c, r, low)
            &&& flag_set(r.p, Flags::C) == (sum > 255)
            &&& flag_set(r.p, Flags::V) == ((c.a as u8 >= 128) == (v >= 128) && (low >= 128) != (
            c.a as u8 >= 128))
        }),
{
    let w = v as u16;
    let carry: u16 = if flag_set(c.p, Flags::C) { 1 } else { 0 };
    let a_low = (c.a & 0xFF) as u8;
    lemma_acc_bytes(c.a, w, v);
    let result = ((a_low as u16) + (w & 0xFF) + carry) as u16;
    lemma_acc_bytes(c.a, result, v);
    lemma_adc_overflow(a_low, v, carry);
    let a = (c.a & 0xFF00) | (result & 0xFF);
    let c1 = flag_updated(_65816 { a, ..c }, Flags::C, result > 0xFF);
    let vf = (((a_low as u16) ^ result) & (w ^ result) & 0x80) != 0;
    let c2 = flag_updated(c1, Flags::V, vf);
    lemma_nz8_flags(c2, (a & 0xFF) as u8);
    law_flag_update(c1.p, Flags::V, Flags::V, vf);
    law_flag_update(c1.p, Flags::V, Flags::C, vf);
    law_flag_update(c.p, Flags::C, Flags::C, result > 0xFF);
}

/// SBC with an 8-bit accumulator (binary): the low byte of A minus the
/// operand minus the borrow (clear carry) gives the new low byte (the
/// difference modulo 256); C is set exactly when the difference is not
/// negative; V is set when the operands have different signs and the result's
/// sign differs from A's.
pub proof fn law_sbc_8bit(c: _65816, v: u8)
    requires
        flag_set(c.p, Flags::M),
    ensures
        ({
            let r = read_op_applied(Op::Sbc, c, v as u16);
            let borrow: int = if flag_set(c.p, Flags::C) { 0 } else { 1 };
            let diff = (c.a as u8) - v - borrow;
            let low = ((diff + 256) % 256) as u8;
            &&& a8_result(c, r, low)
            &&& flag_set(r.p, Flags::C) == (diff >= 0)
            &&& flag_set(r.p, Flags::V) == ((c.a as u8 >= 128) != (v >= 128) && (low >= 128) != (
            c.a as u8 >= 128))
        }),
{
    let w = v as u16;
    let carry: u16 = if flag_set(c.p, Flags::C) { 0 } else { 1 };
    let a_low = (c.a & 0xFF) as u8;
    lemma_acc_bytes(c.a, w, v);
    let result = vstd::wrapping::u16_specs::wrapping_sub(
        vstd::wrapping::u16_specs::wrapping_sub(a_low as u16, w & 0xFF),
        carry,
    );
    lemma_acc_bytes(c.a, result, v);
    lemma_sbc_overflow(a_low, v, result);
    let a = (c.a & 0xFF00) | (result & 0xFF);
    let c1 = flag_updated(_65816 { a, ..c }, Flags::C, result <= 0xFF);
    let vf = (((a_low as u16) ^ result) & ((a_low as u16) ^ w) & 0x80) != 0;
    let c2 = flag_updated(c1, Flags::V, vf);
    lemma_nz8_flags(c2, (a & 0xFF) as u8);
    law_flag_update(c1.p, Flags::V, Flags::V, vf);
    law_flag_update(c1.p, Flags::V, Flags::C, vf);
    law_flag_update(c.p, Flags::C, Flags::C, result <= 0xFF);
}

proof fn lemma_byte_shifts(a: u8, x: u8)
    by (bit_vector)
    ensures
        a < 128u8 ==> (a << 1u8) == (2u8 * a) as u8,
        a >= 128u8 ==> (a << 1u8) == (2u8 * (a - 128u8)) as u8,
        a >> 1u8 == a / 2u8,
        ((a & 0x01u8) != 0u8) == (a % 2u8 == 1u8),
        ((a & 0x80u8) != 0u8) == (a >= 128u8),
        x % 2u8 == 0u8 ==> (x | 0x01u8) == (x + 1u8) as u8,
        x < 128u8 ==> (x | 0x80u8) == (x + 128u8) as u8,
        x | 0u8 == x,
{
}

/// ASL, LSR, ROL and ROR of an 8-bit accumulator, as arithmetic on its low
/// byte: ASL doubles it modulo 256, ROL doubles it and adds the old carry, LSR
/// halves it (rounding down), ROR halves it and adds 128 when the old carry was
/// set. The left shifts take the new carry from the old bit 7, the right shifts
/// from the old bit 0; the high byte of A is kept and N and Z follow the new
/// low byte.
pub proof fn law_shift_8bit(c: _65816)
    requires
        flag_set(c.p, Flags::M),
    ensures
        ({
            let low = c.a as u8;
            let cin: int = if flag_set(c.p, Flags::C) { 1 } else { 0 };
            let asl = implied_op_done(Op::Asl, c);
            let lsr = implied_op_done(Op::Lsr, c);
            let rol = implied_op_done(Op::Rol, c);
            let ror = implied_op_done(Op::Ror, c);
            &&& a8_result(c, asl, ((2 * low) % 256) as u8)
            &&& flag_set(asl.p, Flags::C) == (low >= 128)
            &&& a8_result(c, lsr, low / 2)
            &&& flag_set(lsr.p, Flags::C) == (low % 2 == 1)
            &&& a8_result(c, rol, ((2 * low + cin) % 256) as u8)
            &&& flag_set(rol.p, Flags::C) == (low >= 128)
            &&& a8_result(c, ror, (low / 2 + 128 * cin) as u8)
            &&& flag_set(ror.p, Flags::C) == (low % 2 == 1)
        }),
{
    let val = (c.a & 0xFF) as u8;
    lemma_acc_bytes(c.a, 0, 0);
    assert(val == c.a as u8);
    lemma_byte_shifts(val, val << 1u8);
    lemma_byte_shifts(val, val >> 1u8);
    let cr: u8 = if flag_set(c.p, Flags::C) { 1 } else { 0 };
    let cr2: u8 = if flag_set(c.p, Flags::C) { 0x80 } else { 0 };
    let sl = ((val << 1u8) as u16) & 0xFF;
    let sr = ((val >> 1u8) as u16) & 0xFF;
    let rl = (((val << 1u8) | cr) as u16) & 0xFF;
    let rr = (((val >> 1u8) | cr2) as u16) & 0xFF;
    lemma_acc_bytes(c.a, (val << 1u8) as u16, 0);
    lemma_acc_bytes(c.a, (val >> 1u8) as u16, 0);
    lemma_acc_bytes(c.a, ((val << 1u8) | cr) as u16, 0);
    lemma_acc_bytes(c.a, ((val >> 1u8) | cr2) as u16, 0);
    let c_hi = flag_updated(c, Flags::C, (val & 0x80) != 0);
    let c_lo = flag_updated(c, Flags::C, (val & 0x01) != 0);
    law_flag_update(c.p, Flags::C, Flags::C, (val & 0x80) != 0);
    law_flag_update(c.p, Flags::C, Flags::C, (val & 0x01) != 0);
    let a1 = (c.a & 0xFF00) | sl;
    let a2 = (c.a & 0xFF00) | sr;
    let a3 = (c.a & 0xFF00) | rl;
    let a4 = (c.a & 0xFF00) | rr;
    lemma_nz8_flags(_65816 { a: a1, ..c_hi }, (a1 & 0xFF) as u8);
    lemma_nz8_flags(_65816 { a: a2, ..c_lo }, (a2 & 0xFF) as u8);
    lemma_nz8_flags(_65816 { a: a3, ..c_hi }, (a3 & 0xFF) as u8);
    lemma_nz8_flags(_65816 { a: a4, ..c_lo }, (a4 & 0xFF) as u8);
}

proof fn lemma_sign_extend(o: u8)
    by (bit_vector)
    ensures
        o < 128u8 ==> (o as i8) as u16 == o as u16,
        o >= 128u8 ==> (o as i8) as u16 == ((o as u16) + 0xFF00u16) as u16,
{
}

/// A branch reads its signed offset byte after the opcode and, exactly when its
/// condition holds (BRA always; BEQ/BNE on Z set/clear; BCS/BCC on C; BMI/BPL
/// on N; BVS/BVC on V), moves PC from the next instruction by that offset,
/// modulo 64 KB; otherwise PC is the next instruction. Only PC and the cycle
/// count change.
pub proof fn law_branch(op: Op, mode: AddrMode, c: _65816, b: BusView)
    requires
        op is Bra || op is Beq || op is Bne || op is Bcs || op is Bcc || op is Bmi || op is Bpl
            || op is Bvs || op is Bvc,
    ensures
        ({
            let f = pc_fetch(c, b);
            let off: int = if f.0 >= 128 { f.0 - 256 } else { f.0 as int };
            let next: int = (c.pc + 1) % 65536;
            let taken = match op {
                Op::Bra => true,
                Op::Beq => flag_set(c.p, Flags::Z),
                Op::Bne => !flag_set(c.p, Flags::Z),
                Op::Bcs => flag_set(c.p, Flags::C),
                Op::Bcc => !flag_set(c.p, Flags::C),
                Op::Bmi => flag_set(c.p, Flags::N),
                Op::Bpl => !flag_set(c.p, Flags::N),
                Op::Bvs => flag_set(c.p, Flags::V),
                _ => !flag_set(c.p, Flags::V),
            };
            let r = control_op_done(op, mode, c, b).0;
            &&& r.pc == (if taken { (next + off + 65536) % 65536 } else { next })
            &&& r == (_65816 { pc: r.pc, cycles: r.cycles, ..c })
        }),
{
    let f = pc_fetch(c, b);
    lemma_sign_extend(f.0);
}

proof fn lemma_step_byte(x: u16)
    by (bit_vector)
    ensures
        (((x & 0xFF00) | (((x & 0xFF) + 1u16) as u16 & 0xFF)) as u8) as u16 == (((x as u8) as u16
            + 1u16) as u16) % 256u16,
        ((x & 0xFF00) | (((x & 0xFF) + 1u16) as u16 & 0xFF)) >> 8u16 == x >> 8u16,
        (x & 0xFF) >= 1u16 ==> ((x & 0xFF00) | (((x & 0xFF) - 1u16) as u16 & 0xFF)) as u8 == ((x
            as u8) - 1u8) as u8,
        (x & 0xFF) == 0u16 ==> ((x & 0xFF00) | (((x & 0xFF) + 0xFFFFu16) as u16 & 0xFF)) as u8
            == 0xFFu8,
        ((x & 0xFF00) | (((x & 0xFF) + 0xFFFFu16) as u16 & 0xFF)) >> 8u16 == x >> 8u16,
        ((x & 0xFF00) | (((x & 0xFF) - 1u16) as u16 & 0xFF)) >> 8u16 == x >> 8u16,
        (x & 0xFF) as u8 == x as u8,
        (x & 0xFF) == (x as u8) as u16,
{
}

/// INX, INY, DEX and DEY with 8-bit index registers add or subtract one
/// modulo 256 in the register's low byte, keep its high byte, and set N and Z
/// from the new low byte; A and the other index register are untouched.
pub proof fn law_index_step_8bit(c: _65816)
    requires
        flag_set(c.p, Flags::X),
    ensures
        ({
            let inx = implied_op_done(Op::Inx, c);
            let dex = implied_op_done(Op::Dex, c);
            let iny = implied_op_done(Op::Iny, c);
            let dey = implied_op_done(Op::Dey, c);
            let xi = (((c.x as u8) + 1) % 256) as u8;
            let xd = (((c.x as u8) + 255) % 256) as u8;
            let yi = (((c.y as u8) + 1) % 256) as u8;
            let yd = (((c.y as u8) + 255) % 256) as u8;
            &&& inx.x as u8 == xi && inx.x >> 8u16 == c.x >> 8u16 && inx.y == c.y && inx.a == c.a
            &&& flag_set(inx.p, Flags::Z) == (xi == 0) && flag_set(inx.p, Flags::N) == (xi >= 128)
            &&& dex.x as u8 == xd && dex.x >> 8u16 == c.x >> 8u16 && dex.y == c.y && dex.a == c.a
            &&& flag_set(dex.p, Flags::Z) == (xd == 0) && flag_set(dex.p, Flags::N) == (xd >= 128)
            &&& iny.y as u8 == yi && iny.y >> 8u16 == c.y >> 8u16 && iny.x == c.x && iny.a == c.a
            &&& flag_set(iny.p, Flags::Z) == (yi == 0) && flag_set(iny.p, Flags::N) == (yi >= 128)
            &&& dey.y as u8 == yd && dey.y >> 8u16 == c.y >> 8u16 && dey.x == c.x && dey.a == c.a
            &&& flag_set(dey.p, Flags::Z) == (yd == 0) && flag_set(dey.p, Flags::N) == (yd >= 128)
        }),
{
    lemma_step_byte(c.x);
    lemma_step_byte(c.y);
    let x1 = incremented(c.x, true);
    let x2 = decremented(c.x, true);
    let y1 = incremented(c.y, true);
    let y2 = decremented(c.y, true);
    lemma_step_byte(x1);
    lemma_step_byte(x2);
    lemma_step_byte(y1);
    lemma_step_byte(y2);
    lemma_nz8_flags(_65816 { x: x1, ..c }, (x1 & 0xFF) as u8);
    lemma_nz8_flags(_65816 { x: x2, ..c }, (x2 & 0xFF) as u8);
    lemma_nz8_flags(_65816 { y: y1, ..c }, (y1 & 0xFF) as u8);
    lemma_nz8_flags(_65816 { y: y2, ..c }, (y2 & 0xFF) as u8);
}

proof fn lemma_nz16_flags(c: _65816, v: u16)
    ensures
        flag_set(nz16(c, v).p, Flags::Z) == (v == 0),
        flag_set(nz16(c, v).p, Flags::N) == (v >= 0x8000),
        forall|g: Flags|
            g != Flags::Z && g != Flags::N ==> #[trigger] flag_set(nz16(c, v).p, g) == flag_set(c.p, g),
        nz16(c, v) == (_65816 { p: nz16(c, v).p, ..c }),
{
    let z = v == 0;
    let n = (v & 0x8000) != 0;
    lemma_acc_bytes(0, v, 0);
    let p1 = with_flag(c.p, Flags::Z, z);
    law_flag_update(p1, Flags::N, Flags::N, n);
    law_flag_update(p1, Flags::N, Flags::Z, n);
    law_flag_update(c.p, Flags::Z, Flags::Z, z);
    assert forall|g: Flags| g != Flags::Z && g != Flags::N implies #[trigger] flag_set(
        nz16(c, v).p,
        g,
    ) == flag_set(c.p, g) by {
        law_flag_update(p1, Flags::N, g, n);
        law_flag_update(c.p, Flags::Z, g, z);
    }
}

/// With a 16-bit accumulator, AND, ORA, EOR and LDA act on all of A, and ADC
/// adds operand and carry as a 17-bit sum whose low 16 bits are the new A and
/// whose top bit is the new carry; N and Z follow the new A.
pub proof fn law_accumulator_16bit(c: _65816, w: u16)
    requires
        !flag_set(c.p, Flags::M),
    ensures
        ({
            let and = read_op_applied(Op::And, c, w);
            let ora = read_op_applied(Op::Ora, c, w);
            let eor = read_op_applied(Op::Eor, c, w);
            let lda = read_op_applied(Op::Lda, c, w);
            let adc = read_op_applied(Op::Adc, c, w);
            let cin: int = if flag_set(c.p, Flags::C) { 1 } else { 0 };
            let sum = c.a + w + cin;
            &&& and.a == c.a & w && ora.a == c.a | w && eor.a == c.a ^ w && lda.a == w
            &&& flag_set(and.p, Flags::Z) == (and.a == 0) && flag_set(and.p, Flags::N) == (and.a >= 0x8000)
            &&& flag_set(ora.p, Flags::Z) == (ora.a == 0) && flag_set(ora.p, Flags::N) == (ora.a >= 0x8000)
            &&& flag_set(eor.p, Flags::Z) == (eor.a == 0) && flag_set(eor.p, Flags::N) == (eor.a >= 0x8000)
            &&& flag_set(lda.p, Flags::Z) == (w == 0) && flag_set(lda.p, Flags::N) == (w >= 0x8000)
            &&& adc.a == sum % 65536
            &&& flag_set(adc.p, Flags::C) == (sum > 65535)
            &&& flag_set(adc.p, Flags::Z) == (adc.a == 0) && flag_set(adc.p, Flags::N) == (adc.a >= 0x8000)
        }),
{
    lemma_nz16_flags(_65816 { a: c.a & w, ..c }, c.a & w);
    lemma_nz16_flags(_65816 { a: c.a | w, ..c }, c.a | w);
    lemma_nz16_flags(_65816 { a: c.a ^ w, ..c }, c.a ^ w);
    lemma_nz16_flags(_65816 { a: w, ..c }, w);
    let carry: u16 = if flag_set(c.p, Flags::C) { 1 } else { 0 };
    let result = ((c.a as u32) + (w as u32) + (carry as u32)) as u32;
    let a = result as u16;
    assert((result as u16) as u32 == result % 0x10000u32) by (bit_vector);
    let c1 = flag_updated(_65816 { a, ..c }, Flags::C, result > 0xFFFF);
    let vf = ((c.a ^ (result as u16)) & (w ^ (result as u16)) & 0x8000) != 0;
    let c2 = flag_updated(c1, Flags::V, vf);
    lemma_nz16_flags(c2, a);
    law_flag_update(c1.p, Flags::V, Flags::C, vf);
    law_flag_update(c.p, Flags::C, Flags::C, result > 0xFFFF);
}

} // verus!
