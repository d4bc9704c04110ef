//! Joypad handling: the button bitmask, the strobe latch and the serial
//! shift register that games read one bit at a time.
use vstd::prelude::*;

verus! {

/// Controller state. Every bit of `buttons` is one button, 0 meaning pressed:
/// bit 7 B, 6 Y, 5 SELECT, 4 START, 3 Up, 2 Down, 1 Left, 0 Right.
#[derive(Debug, Clone)]
pub struct Input {
    pub buttons: u8,
    /// Shift register of the serial protocol; bit 0 is the next bit read.
    pub shift_register: u8,
    /// Current level of the strobe line.
    pub strobe_latch: bool,
}

/// Buttons after pressing (`pressed`) or releasing button `bit`.
pub open spec fn button_update(buttons: u8, bit: usize, pressed: bool) -> u8 {
    if bit < 8 {
        if pressed {
            buttons & !(1u8 << (bit as u8))
        } else {
            buttons | (1u8 << (bit as u8))
        }
    } else {
        buttons
    }
}

/// The shift register after one serial read: shifted right, filled with 1 from the left.
pub open spec fn serial_shift(s: u8) -> u8 {
    (s >> 1u8) | 0x80u8
}

/// The shift register after `k` serial reads.
pub open spec fn serial_after(s: u8, k: nat) -> u8
    decreases k,
{
    if k == 0 {
        s
    } else {
        serial_shift(serial_after(s, (k - 1) as nat))
    }
}

/// The controller after `value` is written to the strobe line: bit 0 is the
/// new level, and a falling edge latches the buttons into the shift register.
pub open spec fn strobe_written(i: Input, value: u8) -> Input {
    Input {
        buttons: i.buttons,
        shift_register: if i.strobe_latch && (value & 0x01) == 0 {
            i.buttons
        } else {
            i.shift_register
        },
        strobe_latch: (value & 0x01) != 0,
    }
}

impl Input {
    /// A controller with every button released.
    pub fn new() -> (r: Self)
        ensures
            r.buttons == 0xFF,
            r.shift_register == 0xFF,
            !r.strobe_latch,
    {
        Input { buttons: 0xFF, shift_register: 0xFF, strobe_latch: false }
    }

    /// Replace the whole button mask (0 = pressed, 1 = released).
    pub fn update_buttons(&mut self, buttons: u8)
        ensures
            final(self).buttons == buttons,
            final(self).shift_register == old(self).shift_register,
            final(self).strobe_latch == old(self).strobe_latch,
    {
        self.buttons = buttons;
    }

    /// Press (`pressed == true`, bit cleared) or release (bit set) button `bit`;
    /// a `bit` of 8 or more changes nothing.
    pub fn set_button(&mut self, bit: usize, pressed: bool)
        ensures
            final(self).buttons == button_update(old(self).buttons, bit, pressed),
            final(self).shift_register == old(self).shift_register,
            final(self).strobe_latch == old(self).strobe_latch,
    {
        if bit < 8 {
            if pressed {
                self.buttons = self.buttons & !(1u8 << (bit as u8));
            } else {
                self.buttons = self.buttons | (1u8 << (bit as u8));
            }
        }
    }

    /// Write the strobe line (bit 0 of `value`). On a falling edge the buttons
    /// are latched into the shift register.
    pub fn write_strobe(&mut self, value: u8)
        ensures
            *final(self) == strobe_written(*old(self), value),
            final(self).buttons == old(self).buttons,
            final(self).strobe_latch == ((value & 0x01) != 0),
            final(self).shift_register == (if old(self).strobe_latch && (value & 0x01) == 0 {
                old(self).buttons
            } else {
                old(self).shift_register
            }),
    {
        let new_strobe = (value & 0x01) != 0;
        if self.strobe_latch && !new_strobe {
            self.shift_register = self.buttons;
        }
        self.strobe_latch = new_strobe;
    }

    /// Read one bit of the serial protocol: bit 0 of the shift register, which
    /// then shifts right and fills with 1 (released) from the left.
    pub fn read_serial(&mut self) -> (r: u8)
        ensures
            r == old(self).shift_register & 0x01,
            final(self).shift_register == serial_shift(old(self).shift_register),
            final(self).buttons == old(self).buttons,
            final(self).strobe_latch == old(self).strobe_latch,
    {
        let current = self.shift_register;
        let bit = current & 0x01;
        self.shift_register = (current >> 1u8) | 0x80u8;
        bit
    }

    /// The button mask as it stands.
    pub fn read_buttons(&self) -> (r: u8)
        ensures
            r == self.buttons,
    {
        self.buttons
    }
}

proof fn lemma_serial_step(s: u8, k: u8)
    by (bit_vector)
    requires
        k < 8,
    ensures
        (((s >> k) | !(0xFFu8 >> k)) >> 1u8) | 0x80u8 == (s >> (k + 1) as u8) | !(0xFFu8 >> (k
            + 1) as u8),
        ((s >> k) | !(0xFFu8 >> k)) & 1 == (s >> k) & 1,
        (s >> 0u8) | !(0xFFu8 >> 0u8) == s,
        (s >> 8u8) | !(0xFFu8 >> 8u8) == 0xFFu8,
        (0xFFu8 >> 1u8) | 0x80u8 == 0xFFu8,
{
}

proof fn lemma_serial_after_closed(s: u8, k: nat)
    ensures
        k <= 8 ==> serial_after(s, k) == (s >> (k as u8)) | !(0xFFu8 >> (k as u8)),
        k >= 8 ==> serial_after(s, k) == 0xFFu8,
    decreases k,
{
    if k == 0 {
        lemma_serial_step(s, 0);
    } else {
        lemma_serial_after_closed(s, (k - 1) as nat);
        if k <= 8 {
            lemma_serial_step(s, (k - 1) as u8);
        } else {
            lemma_serial_step(s, 0);
        }
    }
}

/// After the buttons are latched into the shift register, the `k`-th serial
/// read (counting from 0) returns button bit `k` for the first eight reads and
/// 1 (released) from then on.
pub proof fn law_serial_reads_buttons_in_order(buttons: u8, k: nat)
    ensures
        serial_after(buttons, k) & 1 == (if k < 8 {
            (buttons >> (k as u8)) & 1
        } else {
            1u8
        }),
{
    lemma_serial_after_closed(buttons, k);
    if k < 8 {
        lemma_serial_step(buttons, k as u8);
    } else {
        assert(0xFFu8 & 1 == 1u8) by (bit_vector);
    }
}

/// Pressing and then releasing a button restores the button mask bit for bit.
pub proof fn law_press_release_restores(buttons: u8, bit: usize)
    requires
        bit < 8,
        buttons & (1u8 << (bit as u8)) != 0,
    ensures
        button_update(button_update(buttons, bit, true), bit, false) == buttons,
        button_update(buttons, bit, true) & (1u8 << (bit as u8)) == 0,
{
    let b = bit as u8;
    assert((buttons & !(1u8 << b)) | (1u8 << b) == buttons && (buttons & !(1u8 << b)) & (1u8 << b)
        == 0) by (bit_vector)
        requires
            b < 8,
            buttons & (1u8 << b) != 0,
    ;
}

} // verus!
