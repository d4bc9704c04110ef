//! The audio unit: the SPC700 sound CPU with its 64 KB of RAM, and the DSP
//! with eight voices, BRR sample decoding, envelopes and the stereo mixer.
use vstd::prelude::*;

verus! {

/// One DSP voice.
#[derive(Clone, Copy, Debug)]
pub struct Voice {
    pub left_vol: i8,
    pub right_vol: i8,
    pub pitch: u16,
    /// Sample number.
    pub srcn: u8,
    pub adsr1: u8,
    pub adsr2: u8,
    pub gain: u8,
    /// Envelope level.
    pub envx: u16,
    /// Last output value.
    pub outx: i8,
    pub enabled: bool,
    pub current_sample_idx: u16,
    pub fraction: u16,
    /// Header byte of the last decoded BRR block.
    pub brr_header: u8,
    /// Samples decoded from the last BRR block.
    pub brr_buffer: [i16; 16],
    pub prev_sample: i16,
}

/// Whether an integer fits in an `i16`.
pub open spec fn fits_i16(x: int) -> bool {
    -32768 <= x <= 32767
}

/// Prediction filter (0-3) named by a BRR header byte.
pub open spec fn brr_filter(header: u8) -> u8 {
    (header >> 2u8) & 0x03
}

/// Shift amount (0-15) named by a BRR header byte.
pub open spec fn brr_shift(header: u8) -> u8 {
    (header >> 4u8) & 0x0F
}

/// Nibble `i` (0-15) of a BRR block: high nibble first, from byte 1 on.
pub open spec fn brr_nibble(data: Seq<u8>, i: int) -> u8 {
    if i % 2 == 0 {
        (data[1 + i / 2] >> 4u8) & 0x0F
    } else {
        data[1 + i / 2] & 0x0F
    }
}

/// A nibble sign-extended from 4 bits and doubled.
pub open spec fn brr_signed(nibble: u8) -> i16 {
    if (nibble & 0x08) != 0 {
        ((nibble as i16) | (-16i16)) << 1u8
    } else {
        (nibble as i16) << 1u8
    }
}

/// Sample `i` before prediction: the signed nibble shifted left by the header's shift.
pub open spec fn brr_shifted(data: Seq<u8>, i: int) -> i16 {
    brr_signed(brr_nibble(data, i)) << brr_shift(data[0])
}

/// The predicted sample from the shifted nibble and the previous samples `s1`, `s2`,
/// computed without overflow (the filter products are taken in 32 bits).
pub open spec fn brr_predict(filter: u8, shifted: i16, s1: i16, s2: i16) -> int {
    if filter == 1 {
        shifted + (s1 >> 1u8)
    } else if filter == 2 {
        shifted + (((s1 * 61) as i32) >> 6u8) - (((s2 * 15) as i32) >> 4u8)
    } else if filter == 3 {
        shifted + (((s1 * 115) as i32) >> 7u8) - (((s2 * 13) as i32) >> 4u8)
    } else {
        shifted as int
    }
}

/// Index of the `d`-th previous sample, clamped at 0.
pub open spec fn back(i: int, d: int) -> int {
    if i - d < 0 {
        0
    } else {
        i - d
    }
}

/// The sample buffer after the first `k` samples of a BRR block are decoded in
/// place, each predicted from the (already updated) previous two.
pub open spec fn brr_decoded(buf: Seq<i16>, data: Seq<u8>, k: nat) -> Seq<i16>
    decreases k,
{
    if k == 0 {
        buf
    } else {
        let b = brr_decoded(buf, data, (k - 1) as nat);
        let i = k - 1;
        b.update(
            i,
            clamp_i16(
                brr_predict(brr_filter(data[0]), brr_shifted(data, i), b[back(i, 1)], b[back(i, 2)]),
            ) as i16,
        )
    }
}

proof fn lemma_brr_products(x: i32)
    by (bit_vector)
    requires
        -0x400000i32 <= x && x <= 0x400000i32,
    ensures
        -0x40000i32 <= (x >> 4u8) && (x >> 4u8) <= 0x40000i32,
        -0x40000i32 <= (x >> 6u8) && (x >> 6u8) <= 0x40000i32,
        -0x40000i32 <= (x >> 7u8) && (x >> 7u8) <= 0x40000i32,
{
}

proof fn lemma_brr_decoded_len(buf: Seq<i16>, data: Seq<u8>, k: nat)
    requires
        k <= buf.len(),
    ensures
        brr_decoded(buf, data, k).len() == buf.len(),
    decreases k,
{
    if k > 0 {
        lemma_brr_decoded_len(buf, data, (k - 1) as nat);
    }
}

proof fn lemma_shr_floor(x: i32, y: i16)
    by (bit_vector)
    requires
        -0x400000i32 <= x && x <= 0x400000i32,
    ensures
        ((x >> 4u8) * 16i32) as i32 <= x && x < ((x >> 4u8) * 16i32 + 16i32) as i32,
        ((x >> 6u8) * 64i32) as i32 <= x && x < ((x >> 6u8) * 64i32 + 64i32) as i32,
        ((x >> 7u8) * 128i32) as i32 <= x && x < ((x >> 7u8) * 128i32 + 128i32) as i32,
        -0x40000i32 <= (x >> 4u8) && (x >> 4u8) <= 0x40000i32,
        -0x40000i32 <= (x >> 6u8) && (x >> 6u8) <= 0x40000i32,
        -0x40000i32 <= (x >> 7u8) && (x >> 7u8) <= 0x40000i32,
        ((y >> 1u8) as i32 * 2i32) as i32 <= y as i32 && (y as i32) < ((y >> 1u8) as i32 * 2i32 + 2i32) as i32,
{
}

proof fn lemma_floor_div(x: int, q: int, d: int)
    by (nonlinear_arith)
    requires
        d > 0,
        q * d <= x < q * d + d,
    ensures
        q == x / d,
{
}

/// The filter arithmetic of one prediction as floor divisions.
proof fn lemma_brr_predict_floor(f: u8, shifted: i16, s1: i16, s2: i16)
    ensures
        brr_predict(f, shifted, s1, s2) == shifted + (if f == 1 {
            (s1 as int) / 2
        } else if f == 2 {
            (s1 * 61) / 64 - (s2 * 15) / 16
        } else if f == 3 {
            (s1 * 115) / 128 - (s2 * 13) / 16
        } else {
            0
        }),
{
    let a1: i32 = (s1 * 61) as i32;
    let a2: i32 = (s2 * 15) as i32;
    let a3: i32 = (s1 * 115) as i32;
    let a4: i32 = (s2 * 13) as i32;
    lemma_shr_floor(a1, s1);
    lemma_shr_floor(a2, s2);
    lemma_shr_floor(a3, s1);
    lemma_shr_floor(a4, s2);
    lemma_floor_div(a1 as int, (a1 >> 6u8) as int, 64);
    lemma_floor_div(a2 as int, (a2 >> 4u8) as int, 16);
    lemma_floor_div(a3 as int, (a3 >> 7u8) as int, 128);
    lemma_floor_div(a4 as int, (a4 >> 4u8) as int, 16);
    lemma_floor_div(s1 as int, (s1 >> 1u8) as int, 2);
}

/// Samples already decoded are not touched by the later steps of a block.
proof fn lemma_brr_decoded_stable(buf: Seq<i16>, data: Seq<u8>, k: nat, n: nat, j: int)
    requires
        k <= n <= buf.len(),
        0 <= j < k,
    ensures
        brr_decoded(buf, data, n)[j] == brr_decoded(buf, data, k)[j],
    decreases n - k,
{
    if k < n {
        lemma_brr_decoded_stable(buf, data, k, (n - 1) as nat, j);
        lemma_brr_decoded_len(buf, data, (n - 1) as nat);
    }
}

/// Each sample of a decoded BRR block is the shifted nibble plus the filter's
/// prediction, clamped to the 16-bit range. With `s1` the previous sample and
/// `s2` the one before it (the first sample of the block looks back at the
/// buffer's old first sample for both, the second at the new first sample for
/// `s2`), the prediction is 0 for filter 0, floor(s1 / 2) for filter 1,
/// floor(61 s1 / 64) - floor(15 s2 / 16) for filter 2 and
/// floor(115 s1 / 128) - floor(13 s2 / 16) for filter 3.
pub proof fn law_brr_prediction(buf: Seq<i16>, data: Seq<u8>, i: int)
    requires
        buf.len() == 16,
        data.len() >= 9,
        0 <= i < 16,
    ensures
        ({
            let fin = brr_decoded(buf, data, 16);
            let s1: int = if i == 0 { buf[0] as int } else { fin[i - 1] as int };
            let s2: int = if i == 0 {
                buf[0] as int
            } else if i == 1 {
                fin[0] as int
            } else {
                fin[i - 2] as int
            };
            let f = brr_filter(data[0]);
            let pred: int = if f == 0 {
                0
            } else if f == 1 {
                s1 / 2
            } else if f == 2 {
                (s1 * 61) / 64 - (s2 * 15) / 16
            } else {
                (s1 * 115) / 128 - (s2 * 13) / 16
            };
            let v = brr_shifted(data, i) + pred;
            fin[i] == (if v < -32768 { -32768 } else if v > 32767 { 32767 } else { v })
        }),
{
    lemma_brr_decoded_len(buf, data, i as nat);
    lemma_brr_decoded_len(buf, data, (i + 1) as nat);
    lemma_brr_decoded_stable(buf, data, (i + 1) as nat, 16, i);
    let b = brr_decoded(buf, data, i as nat);
    if i >= 1 {
        lemma_brr_decoded_stable(buf, data, i as nat, 16, i - 1);
        lemma_brr_decoded_stable(buf, data, i as nat, 16, back(i, 2));
    }
    lemma_brr_decoded_len(buf, data, 16);
    lemma_u8_bounds();
    assert(brr_filter(data[0]) <= 3);
    lemma_brr_predict_floor(brr_filter(data[0]), brr_shifted(data, i), b[back(i, 1)], b[back(i, 2)]);
    let p = brr_predict(brr_filter(data[0]), brr_shifted(data, i), b[back(i, 1)], b[back(i, 2)]);
    assert(brr_decoded(buf, data, (i + 1) as nat) == b.update(i, clamp_i16(p) as i16));
    assert(brr_decoded(buf, data, (i + 1) as nat)[i] == clamp_i16(p) as i16);
}

/// The envelope level after one update: in ADSR mode (ADSR1 bit 7) it rises,
/// saturating, by 8 times the attack, decay or sustain rate plus one, chosen
/// by comparing it with the sustain level, unless it is already 0x7FFF or
/// more; in gain mode it is the gain's low 7 bits times 0x80.
pub open spec fn envelope_after(v: Voice) -> u16 {
    if v.adsr1 & 0x80 != 0 {
        let ar = (v.adsr1 >> 4u8) & 0x0F;
        let dr = v.adsr1 & 0x0F;
        let sl = (v.adsr2 >> 5u8) & 0x07;
        let sr = v.adsr2 & 0x1F;
        if v.envx < 0x7FFF {
            let level = (sl as u16) << 11u16;
            let rate = if v.envx < level {
                ar + 1
            } else if v.envx > level {
                dr + 1
            } else {
                sr + 1
            };
            let raised = v.envx + rate * 8;
            if raised > 0xFFFF {
                0xFFFF
            } else {
                raised as u16
            }
        } else {
            v.envx
        }
    } else {
        ((v.gain & 0x7F) as u16 * 0x80) as u16
    }
}

/// One envelope update in ADSR mode never lowers the level, raises it by at
/// most 256 (eight times the largest rate plus one), and leaves a level of
/// 0x7FFF or more alone; in gain mode the level becomes the gain's low seven
/// bits times 128.
pub proof fn law_envelope_update(v: Voice)
    ensures
        v.adsr1 & 0x80 != 0 ==> envelope_after(v) >= v.envx && envelope_after(v) <= v.envx + 256,
        v.adsr1 & 0x80 != 0 && v.envx >= 0x7FFF ==> envelope_after(v) == v.envx,
        v.adsr1 & 0x80 == 0 ==> envelope_after(v) == (v.gain % 128) * 128,
{
    lemma_u8_bounds();
}

proof fn lemma_u8_bounds()
    by (bit_vector)
    ensures
        forall|x: u8| #[trigger] ((x >> 4u8) & 0x0F) <= 15,
        forall|x: u8| #[trigger] (x & 0x0F) <= 15,
        forall|x: u8| #[trigger] ((x >> 5u8) & 0x07) <= 7,
        forall|x: u8| #[trigger] (x & 0x1F) <= 31,
        forall|x: u8| #[trigger] (x & 0x7F) <= 127,
        forall|x: u8| #[trigger] ((x >> 2u8) & 0x03) <= 3,
        forall|x: u8| #[trigger] (x & 0x7F) == x % 128,
{
}

/// A voice at power-on: every register, counter and sample cleared, disabled.
pub open spec fn voice_silent(v: Voice) -> bool {
    &&& v.left_vol == 0 && v.right_vol == 0 && v.pitch == 0 && v.srcn == 0
    &&& v.adsr1 == 0 && v.adsr2 == 0 && v.gain == 0 && v.envx == 0 && v.outx == 0
    &&& !v.enabled && v.current_sample_idx == 0 && v.fraction == 0 && v.brr_header == 0
    &&& v.brr_buffer@ == Seq::new(16, |i: int| 0i16)
    &&& v.prev_sample == 0
}

impl Voice {
    /// A silent voice with every register cleared.
    pub fn new() -> (r: Self)
        ensures
            r.left_vol == 0 && r.right_vol == 0 && r.pitch == 0 && r.srcn == 0,
            r.adsr1 == 0 && r.adsr2 == 0 && r.gain == 0 && r.envx == 0 && r.outx == 0,
            !r.enabled && r.current_sample_idx == 0 && r.fraction == 0 && r.brr_header == 0,
            r.brr_buffer@ == Seq::new(16, |i: int| 0i16),
            r.prev_sample == 0,
            voice_silent(r),
    {
        let r = Voice {
            left_vol: 0,
            right_vol: 0,
            pitch: 0,
            srcn: 0,
            adsr1: 0,
            adsr2: 0,
            gain: 0,
            envx: 0,
            outx: 0,
            enabled: false,
            current_sample_idx: 0,
            fraction: 0,
            brr_header: 0,
            brr_buffer: [0;16],
            prev_sample: 0,
        };
        assert(r.brr_buffer@ =~= Seq::new(16, |i: int| 0i16));
        r
    }

    /// Decode a BRR block (header byte and eight bytes of 4-bit samples) into
    /// the 16-sample buffer, each sample predicted by the header's filter from
    /// the previous two and clamped to the 16-bit range. Blocks shorter than 9
    /// bytes are ignored.
    pub fn decode_brr_block(&mut self, data: &[u8])
        ensures
            data@.len() < 9 ==> *final(self) == *old(self),
            data@.len() >= 9 ==> {
                &&& final(self).brr_header == data@[0]
                &&& final(self).brr_buffer@ == brr_decoded(old(self).brr_buffer@, data@, 16)
                &&& *final(self) == (Voice {
                    brr_header: data@[0],
                    brr_buffer: final(self).brr_buffer,
                    ..*old(self)
                })
            },
    {
        if data.len() < 9 {
            return ;
        }
        self.brr_header = data[0];
        let filter = (self.brr_header >> 2u8) & 0x03;
        let shift = (self.brr_header >> 4u8) & 0x0F;
        proof {
            lemma_u8_bounds();
            lemma_brr_decoded_len(old(self).brr_buffer@, data@, 0);
        }
        let ghost start = old(self).brr_buffer@;
        let mut i: usize = 0;
        while i < 16
            invariant
                i <= 16,
                data@.len() >= 9,
                filter == brr_filter(data@[0]),
                shift == brr_shift(data@[0]),
                shift <= 15,
                start.len() == 16,
                self.brr_buffer@ == brr_decoded(start, data@, i as nat),
                *self == (Voice { brr_header: data@[0], brr_buffer: self.brr_buffer, ..*old(self) }),
            decreases 16 - i,
        {
            proof {
                lemma_brr_decoded_len(start, data@, i as nat);
            }
            let byte_idx = 1 + i / 2;
            let nibble: u8 = if i % 2 == 0 {
                (data[byte_idx] >> 4u8) & 0x0F
            } else {
                data[byte_idx] & 0x0F
            };
            let signed: i16 = if (nibble & 0x08) != 0 {
                ((nibble as i16) | (-16i16)) << 1u8
            } else {
                (nibble as i16) << 1u8
            };
            let shifted: i16 = signed << shift;
            let i1: usize = if i >= 1 { i - 1 } else { 0 };
            let i2: usize = if i >= 2 { i - 2 } else { 0 };
            let s1 = self.brr_buffer[i1];
            let s2 = self.brr_buffer[i2];
            let wide: i32 = if filter == 1 {
                (shifted as i32) + ((s1 >> 1u8) as i32)
            } else if filter == 2 {
                let t1: i32 = (s1 as i32) * 61;
                let t2: i32 = (s2 as i32) * 15;
                proof {
                    lemma_brr_products(t1);
                    lemma_brr_products(t2);
                }
                (shifted as i32) + (t1 >> 6u8) - (t2 >> 4u8)
            } else if filter == 3 {
                let t1: i32 = (s1 as i32) * 115;
                let t2: i32 = (s2 as i32) * 13;
                proof {
                    lemma_brr_products(t1);
                    lemma_brr_products(t2);
                }
                (shifted as i32) + (t1 >> 7u8) - (t2 >> 4u8)
            } else {
                shifted as i32
            };
            let sample: i16 = if wide < -32768 {
                -32768
            } else if wide > 32767 {
                32767
            } else {
                wide as i16
            };
            self.brr_buffer[i] = sample;
            i = i + 1;
        }
    }

    /// Advance the envelope by one step (ADSR or gain mode).
    pub fn update_envelope(&mut self)
        ensures
            *final(self) == (Voice { envx: envelope_after(*old(self)), ..*old(self) }),
    {
        proof {
            lemma_u8_bounds();
        }
        if self.adsr1 & 0x80 != 0 {
            let ar = (self.adsr1 >> 4u8) & 0x0F;
            let dr = self.adsr1 & 0x0F;
            let sl = (self.adsr2 >> 5u8) & 0x07;
            let sr = self.adsr2 & 0x1F;
            if self.envx < 0x7FFF {
                let level = (sl as u16) << 11u16;
                let rate = if self.envx < level {
                    ar + 1
                } else if self.envx > level {
                    dr + 1
                } else {
                    sr + 1
                };
                self.envx = self.envx.saturating_add(rate as u16 * 8);
            }
        } else {
            self.envx = (self.gain & 0x7F) as u16 * 0x80;
        }
    }
}

/// The SPC700 sound CPU's registers and flags (NV-BDIZC, with P the direct page flag).
#[derive(Clone, Copy)]
pub struct SPC700 {
    pub a: u8,
    pub x: u8,
    pub y: u8,
    pub sp: u8,
    pub pc: u16,
    pub n: bool,
    pub v: bool,
    pub p: bool,
    pub b: bool,
    pub d: bool,
    pub i: bool,
    pub z: bool,
    pub c: bool,
}

/// The processor status byte: flags N V P B D I Z C from bit 7 down to bit 0.
pub open spec fn psw_of(s: SPC700) -> u8 {
    (if s.n { 0x80u8 } else { 0 }) | (if s.v { 0x40u8 } else { 0 }) | (if s.p { 0x20u8 } else { 0 })
        | (if s.b { 0x10u8 } else { 0 }) | (if s.d { 0x08u8 } else { 0 }) | (if s.i { 0x04u8 } else {
        0
    }) | (if s.z { 0x02u8 } else { 0 }) | (if s.c { 0x01u8 } else { 0 })
}

/// The CPU with its flags loaded from a status byte.
pub open spec fn psw_loaded(s: SPC700, val: u8) -> SPC700 {
    SPC700 {
        n: (val & 0x80) != 0,
        v: (val & 0x40) != 0,
        p: (val & 0x20) != 0,
        b: (val & 0x10) != 0,
        d: (val & 0x08) != 0,
        i: (val & 0x04) != 0,
        z: (val & 0x02) != 0,
        c: (val & 0x01) != 0,
        ..s
    }
}

impl SPC700 {
    /// Reset state: stack pointer 0xEF, PC 0xFFC0, B and I set.
    pub fn new() -> (r: Self)
        ensures
            r == (SPC700 {
                a: 0,
                x: 0,
                y: 0,
                sp: 0xEF,
                pc: 0xFFC0,
                n: false,
                v: false,
                p: false,
                b: true,
                d: false,
                i: true,
                z: false,
                c: false,
            }),
    {
        SPC700 {
            a: 0,
            x: 0,
            y: 0,
            sp: 0xEF,
            pc: 0xFFC0,
            n: false,
            v: false,
            p: false,
            b: true,
            d: false,
            i: true,
            z: false,
            c: false,
        }
    }

    /// Assemble the processor status byte.
    pub fn get_psw(&self) -> (r: u8)
        ensures
            r == psw_of(*self),
    {
        (if self.n { 0x80u8 } else { 0 }) | (if self.v { 0x40u8 } else { 0 }) | (if self.p { 0x20u8 } else { 0 })
            | (if self.b { 0x10u8 } else { 0 }) | (if self.d { 0x08u8 } else { 0 }) | (if self.i { 0x04u8 } else {
            0
        }) | (if self.z { 0x02u8 } else { 0 }) | (if self.c { 0x01u8 } else { 0 })
    }

    /// Set N and Z from a result byte.
    fn update_nz(&mut self, val: u8)
        ensures
            *final(self) == with_nz(*old(self), val),
    {
        self.n = (val & 0x80) != 0;
        self.z = val == 0;
    }

    /// Load the flags from a processor status byte.
    pub fn set_psw(&mut self, val: u8)
        ensures
            *final(self) == psw_loaded(*old(self), val),
    {
        self.n = (val & 0x80) != 0;
        self.v = (val & 0x40) != 0;
        self.p = (val & 0x20) != 0;
        self.b = (val & 0x10) != 0;
        self.d = (val & 0x08) != 0;
        self.i = (val & 0x04) != 0;
        self.z = (val & 0x02) != 0;
        self.c = (val & 0x01) != 0;
    }
}

/// Reading the status byte back after loading it yields the byte loaded, and
/// loading the byte read leaves the flags as they were.
pub proof fn law_psw_round_trip(s: SPC700, val: u8)
    ensures
        psw_of(psw_loaded(s, val)) == val,
        psw_loaded(s, psw_of(s)) == s,
{
    assert(((if (val & 0x80) != 0 { 0x80u8 } else { 0 }) | (if (val & 0x40) != 0 { 0x40u8 } else { 0 }) | (if (val & 0x20) != 0 { 0x20u8 } else { 0 })
        | (if (val & 0x10) != 0 { 0x10u8 } else { 0 }) | (if (val & 0x08) != 0 { 0x08u8 } else { 0 }) | (if (val & 0x04) != 0 { 0x04u8 } else {
        0
    }) | (if (val & 0x02) != 0 { 0x02u8 } else { 0 }) | (if (val & 0x01) != 0 { 0x01u8 } else { 0 })) == val) by (bit_vector);
    let w = psw_of(s);
    let (n, v, p, b, d, i, z, c) = (s.n, s.v, s.p, s.b, s.d, s.i, s.z, s.c);
    assert({
        let w = (if n { 0x80u8 } else { 0 }) | (if v { 0x40u8 } else { 0 }) | (if p { 0x20u8 } else { 0 })
            | (if b { 0x10u8 } else { 0 }) | (if d { 0x08u8 } else { 0 }) | (if i { 0x04u8 } else {
            0
        }) | (if z { 0x02u8 } else { 0 }) | (if c { 0x01u8 } else { 0 });
        &&& ((w & 0x80) != 0) == n
        &&& ((w & 0x40) != 0) == v
        &&& ((w & 0x20) != 0) == p
        &&& ((w & 0x10) != 0) == b
        &&& ((w & 0x08) != 0) == d
        &&& ((w & 0x04) != 0) == i
        &&& ((w & 0x02) != 0) == z
        &&& ((w & 0x01) != 0) == c
    }) by (bit_vector);
}

/// Sound DSP state: registers, voices, volumes, echo and the output buffer.
#[derive(Clone)]
pub struct DSP {
    pub registers: [u8; 128],
    pub voices: [Voice; 8],
    pub master_vol_left: i8,
    pub master_vol_right: i8,
    pub echo_vol_left: i8,
    pub echo_vol_right: i8,
    pub echo_buffer: Vec<i16>,
    pub echo_buffer_pos: usize,
    pub echo_enabled: bool,
    pub noise_counter: u16,
    /// Interleaved stereo samples: left, right, left, right, ...
    pub output_buffer: Vec<i16>,
    pub sample_rate: u32,
}

/// The DSP's state as plain values.
#[verifier::ext_equal]
pub struct DspView {
    pub registers: Seq<u8>,
    pub voices: Seq<Voice>,
    pub master_vol_left: i8,
    pub master_vol_right: i8,
    pub echo_vol_left: i8,
    pub echo_vol_right: i8,
    pub echo_buffer: Seq<i16>,
    pub echo_buffer_pos: usize,
    pub echo_enabled: bool,
    pub noise_counter: u16,
    pub output_buffer: Seq<i16>,
    pub sample_rate: u32,
}

impl View for DSP {
    type V = DspView;

    open spec fn view(&self) -> DspView {
        DspView {
            registers: self.registers@,
            voices: self.voices@,
            master_vol_left: self.master_vol_left,
            master_vol_right: self.master_vol_right,
            echo_vol_left: self.echo_vol_left,
            echo_vol_right: self.echo_vol_right,
            echo_buffer: self.echo_buffer@,
            echo_buffer_pos: self.echo_buffer_pos,
            echo_enabled: self.echo_enabled,
            noise_counter: self.noise_counter,
            output_buffer: self.output_buffer@,
            sample_rate: self.sample_rate,
        }
    }
}

/// The byte read from DSP register `addr`, decoded on `addr % 128` (0x80-0xFF
/// mirror the 128 registers): the voice fields for registers 0-9 of each voice
/// block (0x00-0x6F), 0 for the master registers 0x70-0x79, the raw register
/// array otherwise.
pub open spec fn dsp_register_value(d: DspView, addr: u8) -> u8 {
    let a = addr % 128;
    if a <= 0x6F {
        let v = d.voices[(a / 16) as int];
        let reg = a % 16;
        if reg == 0 {
            v.left_vol as u8
        } else if reg == 1 {
            v.right_vol as u8
        } else if reg == 2 {
            (v.pitch & 0xFF) as u8
        } else if reg == 3 {
            ((v.pitch >> 8u16) & 0x3F) as u8
        } else if reg == 4 {
            v.srcn
        } else if reg == 5 {
            v.adsr1
        } else if reg == 6 {
            v.adsr2
        } else if reg == 7 {
            v.gain
        } else if reg == 8 {
            v.envx as u8
        } else if reg == 9 {
            v.outx as u8
        } else {
            d.registers[a as int]
        }
    } else if a <= 0x79 {
        0
    } else {
        d.registers[a as int]
    }
}

/// A voice after `val` is written to its register `reg` (0-9).
pub open spec fn voice_register_written(v: Voice, reg: u8, val: u8) -> Voice {
    if reg == 0 {
        Voice { left_vol: val as i8, ..v }
    } else if reg == 1 {
        Voice { right_vol: val as i8, ..v }
    } else if reg == 2 {
        Voice { pitch: (v.pitch & 0xFF00) | (val as u16), ..v }
    } else if reg == 3 {
        Voice { pitch: (v.pitch & 0x00FF) | (((val & 0x3F) as u16) << 8u16), ..v }
    } else if reg == 4 {
        Voice { srcn: val, ..v }
    } else if reg == 5 {
        Voice { adsr1: val, ..v }
    } else if reg == 6 {
        Voice { adsr2: val, ..v }
    } else if reg == 7 {
        Voice { gain: val, ..v }
    } else if reg == 8 {
        Voice { envx: (val as u16) << 8u16, ..v }
    } else if reg == 9 {
        Voice { outx: val as i8, ..v }
    } else {
        v
    }
}

/// The DSP after `val` is written to register `addr`: voice fields for
/// registers 0-9 of each voice block, the raw array for the other voice-block
/// registers and for 0x7A-0x7F, the echo enable for 0x75; other master
/// registers ignore writes.
pub open spec fn dsp_register_written(d: DspView, addr: u8, val: u8) -> DspView {
    let a = addr % 128;
    if a <= 0x6F {
        let vi = (a / 16) as int;
        let reg = a % 16;
        if reg <= 9 {
            DspView { voices: d.voices.update(vi, voice_register_written(d.voices[vi], reg, val)), ..d }
        } else {
            DspView { registers: d.registers.update(a as int, val), ..d }
        }
    } else if a == 0x75 {
        DspView { echo_enabled: val != 0, ..d }
    } else if a >= 0x7A {
        DspView { registers: d.registers.update(a as int, val), ..d }
    } else {
        d
    }
}

/// Quotient rounded toward zero, as integer division does.
pub open spec fn trunc_div(a: int, b: int) -> int {
    if a >= 0 {
        a / b
    } else {
        -((-a) / b)
    }
}

/// Whether a voice sounds: enabled with a non-zero envelope.
pub open spec fn voice_sounds(v: Voice) -> bool {
    v.enabled && v.envx != 0
}

/// A voice after one mixer step: its envelope advances when it sounds.
pub open spec fn voice_mixed(v: Voice) -> Voice {
    if voice_sounds(v) {
        Voice { envx: envelope_after(v), ..v }
    } else {
        v
    }
}

/// Contribution of a sounding voice (after its envelope step) to one side:
/// first buffered sample times volume times envelope level (high byte) / 255, / 128.
pub open spec fn voice_output(v: Voice, left: bool) -> int {
    let vol: int = if left { v.left_vol as int } else { v.right_vol as int };
    let level = trunc_div(vol * ((v.envx >> 8u16) as int), 255);
    trunc_div(v.brr_buffer[0] as int * level, 128)
}

/// Sum of the contributions of the sounding voices among the first `n`.
pub open spec fn mix_sum(voices: Seq<Voice>, n: nat, left: bool) -> int
    decreases n,
{
    if n == 0 {
        0
    } else {
        mix_sum(voices, (n - 1) as nat, left) + if voice_sounds(voices[n - 1]) {
            voice_output(voice_mixed(voices[n - 1]), left)
        } else {
            0
        }
    }
}

/// Clamp to the 16-bit sample range.
pub open spec fn clamp_i16(x: int) -> int {
    if x < -32768 {
        -32768
    } else if x > 32767 {
        32767
    } else {
        x
    }
}

/// One mixed stereo sample for one side: the voice sum scaled by the master
/// volume / 128 and clamped.
pub open spec fn mixed_sample(d: DspView, left: bool) -> i16 {
    let master: int = if left { d.master_vol_left as int } else { d.master_vol_right as int };
    clamp_i16(trunc_div(mix_sum(d.voices, 8, left) * master, 128)) as i16
}

/// The DSP after one output sample: sounding voices step their envelopes, the
/// left and right samples are appended, and when the buffer then exceeds two
/// seconds' worth its oldest min(1024, half) samples are dropped.
pub open spec fn dsp_mixed(d: DspView) -> DspView {
    let out = d.output_buffer.push(mixed_sample(d, true)).push(mixed_sample(d, false));
    let out2 = if out.len() > d.sample_rate * 2 {
        let k = if 1024 < out.len() / 2 { 1024 } else { out.len() / 2 };
        out.subrange(k as int, out.len() as int)
    } else {
        out
    };
    DspView {
        voices: Seq::new(8, |i: int| voice_mixed(d.voices[i])),
        output_buffer: out2,
        ..d
    }
}

proof fn lemma_voice_output_bounds(v: Voice, left: bool)
    ensures
        -32768 <= voice_output(v, left) <= 32768,
{
    let vol: int = if left { v.left_vol as int } else { v.right_vol as int };
    let env = (v.envx >> 8u16) as int;
    assert(0 <= env <= 255) by {
        let e = v.envx;
        assert((e >> 8u16) <= 255) by (bit_vector);
    }
    let prod = vol * env;
    assert(-128 * 255 <= prod <= 127 * 255) by (nonlinear_arith)
        requires
            -128 <= vol <= 127,
            0 <= env <= 255,
            prod == vol * env,
    ;
    let level = trunc_div(prod, 255);
    assert(-128 <= level <= 127);
    let s = v.brr_buffer[0] as int;
    let p2 = s * level;
    assert(-32768 * 128 <= p2 <= 32768 * 128) by (nonlinear_arith)
        requires
            -32768 <= s <= 32767,
            -128 <= level <= 127,
            p2 == s * level,
    ;
}

proof fn lemma_mix_sum_bounds(voices: Seq<Voice>, n: nat, left: bool)
    ensures
        -32768 * n <= mix_sum(voices, n, left) <= 32768 * n,
    decreases n,
{
    if n > 0 {
        lemma_mix_sum_bounds(voices, (n - 1) as nat, left);
        lemma_voice_output_bounds(voice_mixed(voices[n - 1]), left);
    }
}

impl DSP {
    /// Power-on state: registers and voices cleared, an 8192-sample echo buffer, 32 kHz output.
    pub fn new() -> (r: Self)
        ensures
            r@.registers == Seq::new(128, |i: int| 0u8),
            forall|i: int| 0 <= i < 8 ==> #[trigger] voice_silent(r@.voices[i]),
            r@.voices.len() == 8,
            r@.master_vol_left == 0 && r@.master_vol_right == 0,
            r@.echo_vol_left == 0 && r@.echo_vol_right == 0,
            r@.echo_buffer == Seq::new(8192, |i: int| 0i16),
            r@.echo_buffer_pos == 0,
            !r@.echo_enabled,
            r@.noise_counter == 0,
            r@.output_buffer == Seq::<i16>::empty(),
            r@.sample_rate == 32000,
    {
        let mut echo_buffer: Vec<i16> = Vec::new();
        while echo_buffer.len() < 8192
            invariant
                echo_buffer@.len() <= 8192,
                forall|i: int| 0 <= i < echo_buffer@.len() ==> #[trigger] echo_buffer@[i] == 0i16,
            decreases 8192 - echo_buffer@.len(),
        {
            echo_buffer.push(0);
        }
        let r = DSP {
            registers: [0;128],
            voices: [Voice::new();8],
            master_vol_left: 0,
            master_vol_right: 0,
            echo_vol_left: 0,
            echo_vol_right: 0,
            echo_buffer,
            echo_buffer_pos: 0,
            echo_enabled: false,
            noise_counter: 0,
            output_buffer: Vec::with_capacity(32000),
            sample_rate: 32000,
        };
        assert(r@.registers =~= Seq::new(128, |i: int| 0u8));
        assert(r@.echo_buffer =~= Seq::new(8192, |i: int| 0i16));
        assert(r@.output_buffer =~= Seq::<i16>::empty());
        r
    }

    /// Read DSP register `addr`.
    pub fn read_register(&self, addr: u8) -> (r: u8)
        ensures
            r == dsp_register_value(self@, addr),
    {
        proof {
            lemma_u8_bounds();
        }
        let a = addr & 0x7F;
        if a <= 0x6F {
            let voice_idx = a as usize / 16;
            let reg = a as usize % 16;
            let v = self.voices[voice_idx];
            match reg {
                0x0 => v.left_vol as u8,
                0x1 => v.right_vol as u8,
                0x2 => (v.pitch & 0xFF) as u8,
                0x3 => ((v.pitch >> 8u16) & 0x3F) as u8,
                0x4 => v.srcn,
                0x5 => v.adsr1,
                0x6 => v.adsr2,
                0x7 => v.gain,
                0x8 => v.envx as u8,
                0x9 => v.outx as u8,
                _ => self.registers[a as usize],
            }
        } else if a <= 0x79 {
            0
        } else {
            self.registers[a as usize]
        }
    }

    /// Write DSP register `addr`.
    pub fn write_register(&mut self, addr: u8, val: u8)
        ensures
            final(self)@ == dsp_register_written(old(self)@, addr, val),
    {
        proof {
            lemma_u8_bounds();
        }
        let a = addr & 0x7F;
        if a <= 0x6F {
            let voice_idx = a as usize / 16;
            let reg = a as usize % 16;
            let mut v = self.voices[voice_idx];
            match reg {
                0x0 => v.left_vol = val as i8,
                0x1 => v.right_vol = val as i8,
                0x2 => v.pitch = (v.pitch & 0xFF00) | (val as u16),
                0x3 => v.pitch = (v.pitch & 0x00FF) | (((val & 0x3F) as u16) << 8u16),
                0x4 => v.srcn = val,
                0x5 => v.adsr1 = val,
                0x6 => v.adsr2 = val,
                0x7 => v.gain = val,
                0x8 => v.envx = (val as u16) << 8u16,
                0x9 => v.outx = val as i8,
                _ => {
                    self.registers[a as usize] = val;
                    return ;
                },
            }
            self.voices[voice_idx] = v;
        } else if a == 0x75 {
            self.echo_enabled = (val & 0xFF) != 0;
            proof {
                assert((val & 0xFF) == val) by (bit_vector);
            }
        } else if a >= 0x7A {
            self.registers[a as usize] = val;
        }
    }
}

/// The 128 DSP registers are mirrored at 0x80-0xFF, for reads and for writes.
pub proof fn law_register_mirror(d: DspView, addr: u8, val: u8)
    ensures
        dsp_register_value(d, addr) == dsp_register_value(d, addr & 0x7F),
        dsp_register_written(d, addr, val) == dsp_register_written(d, addr & 0x7F, val),
{
    lemma_u8_bounds();
    assert((addr & 0x7F) % 128 == addr % 128) by (bit_vector);
}

/// A voice register written is read back, except that the pitch high byte
/// keeps only 6 bits and the envelope register reads back as 0 (the byte
/// lands in the envelope's high byte).
pub proof fn law_voice_register_round_trip(d: DspView, addr: u8, val: u8)
    requires
        addr < 0x70,
        addr % 16 <= 9,
        d.voices.len() == 8,
    ensures
        dsp_register_value(dsp_register_written(d, addr, val), addr) == (if addr % 16 == 3 {
            val & 0x3F
        } else if addr % 16 == 8 {
            0u8
        } else {
            val
        }),
{
    let v = d.voices[(addr / 16) as int];
    let p = v.pitch;
    assert(((val as i8) as u8 == val) && ((((p & 0xFF00) | (val as u16)) & 0xFF) as u8 == val) && (((((p
        & 0x00FF) | (((val & 0x3F) as u16) << 8u16)) >> 8u16) & 0x3F) as u8 == val & 0x3F) && (((
    val as u16) << 8u16) as u8 == 0)) by (bit_vector);
}


/// The whole audio unit.
pub struct APU {
    pub spc700: SPC700,
    pub dsp: DSP,
    /// 64 KB of sound RAM.
    pub ram: [u8; 65536],
    pub cycles: u32,
    pub sample_counter: u32,
    /// Ticks per output sample.
    pub samples_per_update: u32,
}

/// The audio unit's state as plain values.
#[verifier::ext_equal]
pub struct ApuView {
    pub spc700: SPC700,
    pub dsp: DspView,
    pub ram: Seq<u8>,
    pub cycles: u32,
    pub sample_counter: u32,
    pub samples_per_update: u32,
}

impl View for APU {
    type V = ApuView;

    open spec fn view(&self) -> ApuView {
        ApuView {
            spc700: self.spc700,
            dsp: self.dsp@,
            ram: self.ram@,
            cycles: self.cycles,
            sample_counter: self.sample_counter,
            samples_per_update: self.samples_per_update,
        }
    }
}

/// The next address, wrapping at 64 KB.
pub open spec fn pc_next(pc: u16) -> u16 {
    vstd::wrapping::u16_specs::wrapping_add(pc, 1)
}

/// The stack pointer after a push (decrement, wrapping).
pub open spec fn sp_down(sp: u8) -> u8 {
    vstd::wrapping::u8_specs::wrapping_sub(sp, 1)
}

/// The stack pointer after a pull (increment, wrapping).
pub open spec fn sp_up(sp: u8) -> u8 {
    vstd::wrapping::u8_specs::wrapping_add(sp, 1)
}

/// A register byte plus one, wrapping.
pub open spec fn inc8(x: u8) -> u8 {
    vstd::wrapping::u8_specs::wrapping_add(x, 1)
}

/// A register byte minus one, wrapping.
pub open spec fn dec8(x: u8) -> u8 {
    vstd::wrapping::u8_specs::wrapping_sub(x, 1)
}

/// Address of the stack slot `sp` in page 1.
pub open spec fn stack_slot(sp: u8) -> int {
    0x100 + sp
}

/// N and Z set from a result byte.
pub open spec fn with_nz(c: SPC700, v: u8) -> SPC700 {
    SPC700 { n: (v & 0x80) != 0, z: v == 0, ..c }
}

/// Target of a relative branch: the address after the instruction plus the
/// signed offset, computed in 16-bit signed arithmetic.
pub open spec fn branch_target(next: u16, offset: u8) -> u16 {
    ((next as i16) + (offset as i8)) as u16
}

/// The signed branch arithmetic stays in range.
pub open spec fn branch_fits(next: u16, offset: u8) -> bool {
    fits_i16((next as i16) + (offset as i8))
}

/// A 16-bit value from its low and high bytes.
pub open spec fn word(lo: u8, hi: u8) -> u16 {
    ((hi as u16) << 8u16) | (lo as u16)
}

/// Branch taken or not: the target when `cond` holds, the next instruction otherwise.
pub open spec fn branch(c: SPC700, r: Seq<u8>, cond: bool) -> (SPC700, Seq<u8>) {
    let p2 = pc_next(pc_next(c.pc));
    let off = r[pc_next(c.pc) as int];
    (SPC700 { pc: if cond { branch_target(p2, off) } else { p2 }, ..c }, r)
}

/// Whether the instruction at PC can execute: the 16-bit signed branch sum of
/// a taken branch stays in range, and the indirect jump's pointer is not 0xFFFF.
pub open spec fn spc_step_defined(c: SPC700, r: Seq<u8>) -> bool {
    let op = r[c.pc as int];
    let p2 = pc_next(pc_next(c.pc));
    let b1 = r[pc_next(c.pc) as int];
    let b2 = r[p2 as int];
    &&& r.len() == 65536
    &&& (op == 0x7F ==> word(b1, b2) != 0xFFFF)
    &&& (op == 0x2F || (op == 0xF0 && c.z) || (op == 0xD0 && !c.z) || (op == 0xB0 && c.c) || (op
        == 0x90 && !c.c) || (op == 0x30 && c.n) || (op == 0x10 && !c.n) || (op == 0x70 && c.v) || (op
        == 0x50 && !c.v) ==> branch_fits(p2, b1))
}

/// Whether `op` is one of the opcodes of the register loads, transfers and stores.
pub open spec fn is_transfer_op(op: u8) -> bool {
    op == 0xE8 || op == 0xCD || op == 0xCF || op == 0x7D || op == 0xDD || op == 0x5D || op == 0xFD || op == 0xC6 || op == 0xC5 || op == 0xE4 || op == 0xC4 || op == 0xD4 || op == 0xD8 || op == 0xF4 || op == 0xEB
}

/// Whether `op` is one of the opcodes of the increments and decrements of A, X and Y.
pub open spec fn is_inc_dec_op(op: u8) -> bool {
    op == 0xDB || op == 0xBC || op == 0x9C || op == 0x3D || op == 0x1D
}

/// Whether `op` is one of the opcodes of the addition and subtraction on A.
pub open spec fn is_add_sub_op(op: u8) -> bool {
    op == 0x84 || op == 0x94 || op == 0x64 || op == 0xA4
}

/// Whether `op` is one of the opcodes of the AND, OR and exclusive OR on A.
pub open spec fn is_logic_op(op: u8) -> bool {
    op == 0x24 || op == 0x34 || op == 0x04 || op == 0x14 || op == 0x44 || op == 0x54
}

/// Whether `op` is one of the opcodes of the comparisons of A, X and Y with an immediate.
pub open spec fn is_compare_op(op: u8) -> bool {
    op == 0xC8 || op == 0xAD || op == 0xEC
}

/// Whether `op` is one of the opcodes of the shifts and rotations of A.
pub open spec fn is_shift_op(op: u8) -> bool {
    op == 0x1C || op == 0x5C || op == 0x3C || op == 0x7C
}

/// Whether `op` is one of the opcodes of the jumps, calls and returns.
pub open spec fn is_jump_op(op: u8) -> bool {
    op == 0x5F || op == 0x7F || op == 0x3F || op == 0x6F || op == 0x8F
}

/// Whether `op` is one of the opcodes of the relative branches.
pub open spec fn is_branch_op(op: u8) -> bool {
    op == 0x2F || op == 0xF0 || op == 0xD0 || op == 0xB0 || op == 0x90 || op == 0x30 || op == 0x10 || op == 0x70 || op == 0x50
}

/// Whether `op` is one of the opcodes of the pushes and pulls.
pub open spec fn is_stack_op(op: u8) -> bool {
    op == 0x2D || op == 0x0D || op == 0x4D || op == 0x0F || op == 0xAE || op == 0x2E || op == 0x6E || op == 0xCE
}

/// Whether `op` is one of the opcodes of the clearing and setting one bit of a direct-page byte.
pub open spec fn is_bit_op(op: u8) -> bool {
    op == 0x12 || op == 0x02
}

/// One SPC700 instruction of the register loads, transfers and stores.
pub open spec fn spc_transfer(c: SPC700, r: Seq<u8>, op: u8) -> (SPC700, Seq<u8>) {
    let pc = c.pc;
    let p1 = pc_next(pc);
    let p2 = pc_next(p1);
    let b1 = r[p1 as int];
    let b2 = r[p2 as int];
    let carry: int = if c.c { 1 } else { 0 };
    match op {
        0xE8 => (SPC700 { a: b1, pc: p2, ..with_nz(c, b1) }, r),
        0xCD => (SPC700 { x: b1, pc: p2, ..with_nz(c, b1) }, r),
        0xCF => (SPC700 { y: b1, pc: p2, ..with_nz(c, b1) }, r),
        0x7D => (SPC700 { a: c.x, pc: p1, ..with_nz(c, c.x) }, r),
        0xDD => (SPC700 { a: c.y, pc: p1, ..with_nz(c, c.y) }, r),
        0x5D => (SPC700 { x: c.a, pc: p1, ..with_nz(c, c.a) }, r),
        0xFD => (SPC700 { y: c.a, pc: p1, ..with_nz(c, c.a) }, r),
        0xC6 => (SPC700 { a: r[c.x as int], pc: p1, ..with_nz(c, r[c.x as int]) }, r),
        0xC5 => (SPC700 { pc: p1, ..c }, r.update(c.x as int, c.a)),
        0xE4 => (SPC700 { a: r[b1 as int], pc: p2, ..with_nz(c, r[b1 as int]) }, r),
        0xC4 => (SPC700 { pc: p2, ..c }, r.update(b1 as int, c.a)),
        0xD4 => (SPC700 { pc: p2, ..c }, r.update(b1 as int, c.x)),
        0xD8 => (SPC700 { pc: p2, ..c }, r.update(b1 as int, c.y)),
        0xF4 => (SPC700 { x: r[b1 as int], pc: p2, ..with_nz(c, r[b1 as int]) }, r),
        0xEB => (SPC700 { y: r[b1 as int], pc: p2, ..with_nz(c, r[b1 as int]) }, r),
        _ => (c, r),
    }
}

/// One SPC700 instruction of the increments and decrements of A, X and Y.
pub open spec fn spc_inc_dec(c: SPC700, r: Seq<u8>, op: u8) -> (SPC700, Seq<u8>) {
    let pc = c.pc;
    let p1 = pc_next(pc);
    let p2 = pc_next(p1);
    let b1 = r[p1 as int];
    let b2 = r[p2 as int];
    let carry: int = if c.c { 1 } else { 0 };
    match op {
        0xDB => {
            let y = inc8(c.y);
            (SPC700 { y, pc: p1, ..with_nz(c, y) }, r)
        },
        0xBC => {
            let a = inc8(c.a);
            (SPC700 { a, pc: p1, ..with_nz(c, a) }, r)
        },
        0x9C => {
            let a = dec8(c.a);
            (SPC700 { a, pc: p1, ..with_nz(c, a) }, r)
        },
        0x3D => {
            let x = inc8(c.x);
            (SPC700 { x, pc: p1, ..with_nz(c, x) }, r)
        },
        0x1D => {
            let x = dec8(c.x);
            (SPC700 { x, pc: p1, ..with_nz(c, x) }, r)
        },
        _ => (c, r),
    }
}

/// One SPC700 instruction of the addition and subtraction on A.
pub open spec fn spc_add_sub(c: SPC700, r: Seq<u8>, op: u8) -> (SPC700, Seq<u8>) {
    let pc = c.pc;
    let p1 = pc_next(pc);
    let p2 = pc_next(p1);
    let b1 = r[p1 as int];
    let b2 = r[p2 as int];
    let carry: int = if c.c { 1 } else { 0 };
    match op {
        0x84 | 0x94 => {
            let cin: int = if op == 0x94 { carry } else { 0 };
            let result = (c.a + b1 + cin) as u16;
            let v = ((c.a ^ b1) & 0x80) == 0 && ((c.a ^ (result as u8)) & 0x80) != 0;
            let a = result as u8;
            (SPC700 { a, c: result > 0xFF, v, pc: p2, ..with_nz(c, a) }, r)
        },
        0x64 | 0xA4 => {
            let borrow: int = if op == 0xA4 && !c.c { 1 } else { 0 };
            let result = (c.a - b1 - borrow) as i16;
            let v = ((c.a ^ b1) & 0x80) != 0 && ((c.a ^ (result as u8)) & 0x80) != 0;
            let a = result as u8;
            (SPC700 { a, c: result >= 0, v, pc: p2, ..with_nz(c, a) }, r)
        },
        _ => (c, r),
    }
}

/// One SPC700 instruction of the AND, OR and exclusive OR on A.
pub open spec fn spc_logic(c: SPC700, r: Seq<u8>, op: u8) -> (SPC700, Seq<u8>) {
    let pc = c.pc;
    let p1 = pc_next(pc);
    let p2 = pc_next(p1);
    let b1 = r[p1 as int];
    let b2 = r[p2 as int];
    let carry: int = if c.c { 1 } else { 0 };
    match op {
        0x24 => {
            let a = c.a & b1;
            (SPC700 { a, pc: p2, ..with_nz(c, a) }, r)
        },
        0x34 => {
            let a = c.a & r[b1 as int];
            (SPC700 { a, pc: p2, ..with_nz(c, a) }, r)
        },
        0x04 => {
            let a = c.a | b1;
            (SPC700 { a, pc: p2, ..with_nz(c, a) }, r)
        },
        0x14 => {
            let a = c.a | r[b1 as int];
            (SPC700 { a, pc: p2, ..with_nz(c, a) }, r)
        },
        0x44 => {
            let a = c.a ^ b1;
            (SPC700 { a, pc: p2, ..with_nz(c, a) }, r)
        },
        0x54 => {
            let a = c.a ^ r[b1 as int];
            (SPC700 { a, pc: p2, ..with_nz(c, a) }, r)
        },
        _ => (c, r),
    }
}

/// One SPC700 instruction of the comparisons of A, X and Y with an immediate.
pub open spec fn spc_compare(c: SPC700, r: Seq<u8>, op: u8) -> (SPC700, Seq<u8>) {
    let pc = c.pc;
    let p1 = pc_next(pc);
    let p2 = pc_next(p1);
    let b1 = r[p1 as int];
    let b2 = r[p2 as int];
    let carry: int = if c.c { 1 } else { 0 };
    match op {
        0xC8 | 0xAD | 0xEC => {
            let reg = if op == 0xC8 { c.a } else if op == 0xAD { c.x } else { c.y };
            let result = (reg - b1) as i16;
            (SPC700 { c: result >= 0, pc: p2, ..with_nz(c, result as u8) }, r)
        },
        _ => (c, r),
    }
}

/// One SPC700 instruction of the shifts and rotations of A.
pub open spec fn spc_shift(c: SPC700, r: Seq<u8>, op: u8) -> (SPC700, Seq<u8>) {
    let pc = c.pc;
    let p1 = pc_next(pc);
    let p2 = pc_next(p1);
    let b1 = r[p1 as int];
    let b2 = r[p2 as int];
    let carry: int = if c.c { 1 } else { 0 };
    match op {
        0x1C => {
            let a = c.a << 1u8;
            (SPC700 { a, c: (c.a & 0x80) != 0, pc: p1, ..with_nz(c, a) }, r)
        },
        0x5C => {
            let a = c.a >> 1u8;
            (SPC700 { a, c: (c.a & 0x01) != 0, pc: p1, ..with_nz(c, a) }, r)
        },
        0x3C => {
            let a = if c.c { (c.a << 1u8) | 0x01 } else { c.a << 1u8 };
            (SPC700 { a, c: (c.a & 0x80) != 0, pc: p1, ..with_nz(c, a) }, r)
        },
        0x7C => {
            let a = if c.c { (c.a >> 1u8) | 0x80 } else { c.a >> 1u8 };
            (SPC700 { a, c: (c.a & 0x01) != 0, pc: p1, ..with_nz(c, a) }, r)
        },
        _ => (c, r),
    }
}

/// One SPC700 instruction of the jumps, calls and returns.
pub open spec fn spc_jump(c: SPC700, r: Seq<u8>, op: u8) -> (SPC700, Seq<u8>) {
    let pc = c.pc;
    let p1 = pc_next(pc);
    let p2 = pc_next(p1);
    let b1 = r[p1 as int];
    let b2 = r[p2 as int];
    let carry: int = if c.c { 1 } else { 0 };
    match op {
        0x5F => (SPC700 { pc: word(b1, b2), ..c }, r),
        0x7F => {
            let addr = word(b1, b2);
            (SPC700 { pc: word(r[addr as int], r[addr + 1]), ..c }, r)
        },
        0x3F => {
            let ret = pc_next(p2);
            let r1 = r.update(stack_slot(c.sp), (ret >> 8u16) as u8);
            let sp1 = sp_down(c.sp);
            let r2 = r1.update(stack_slot(sp1), ret as u8);
            (SPC700 { sp: sp_down(sp1), pc: word(b1, b2), ..c }, r2)
        },
        0x6F => {
            let sp1 = sp_up(c.sp);
            let lo = r[stack_slot(sp1)];
            let sp2 = sp_up(sp1);
            let hi = r[stack_slot(sp2)];
            (SPC700 { sp: sp2, pc: word(lo, hi), ..c }, r)
        },
        0x8F => {
            let sp1 = sp_up(c.sp);
            let psw = r[stack_slot(sp1)];
            let sp2 = sp_up(sp1);
            let lo = r[stack_slot(sp2)];
            let sp3 = sp_up(sp2);
            let hi = r[stack_slot(sp3)];
            (SPC700 { sp: sp3, pc: word(lo, hi), ..psw_loaded(c, psw) }, r)
        },
        _ => (c, r),
    }
}

/// One SPC700 instruction of the relative branches.
pub open spec fn spc_branch(c: SPC700, r: Seq<u8>, op: u8) -> (SPC700, Seq<u8>) {
    let pc = c.pc;
    let p1 = pc_next(pc);
    let p2 = pc_next(p1);
    let b1 = r[p1 as int];
    let b2 = r[p2 as int];
    let carry: int = if c.c { 1 } else { 0 };
    match op {
        0x2F => branch(c, r, true),
        0xF0 => branch(c, r, c.z),
        0xD0 => branch(c, r, !c.z),
        0xB0 => branch(c, r, c.c),
        0x90 => branch(c, r, !c.c),
        0x30 => branch(c, r, c.n),
        0x10 => branch(c, r, !c.n),
        0x70 => branch(c, r, c.v),
        0x50 => branch(c, r, !c.v),
        _ => (c, r),
    }
}

/// One SPC700 instruction of the pushes and pulls.
pub open spec fn spc_stack(c: SPC700, r: Seq<u8>, op: u8) -> (SPC700, Seq<u8>) {
    let pc = c.pc;
    let p1 = pc_next(pc);
    let p2 = pc_next(p1);
    let b1 = r[p1 as int];
    let b2 = r[p2 as int];
    let carry: int = if c.c { 1 } else { 0 };
    match op {
        0x2D => (SPC700 { sp: sp_down(c.sp), pc: p1, ..c }, r.update(stack_slot(c.sp), c.a)),
        0x0D => (SPC700 { sp: sp_down(c.sp), pc: p1, ..c }, r.update(stack_slot(c.sp), c.x)),
        0x4D => (SPC700 { sp: sp_down(c.sp), pc: p1, ..c }, r.update(stack_slot(c.sp), c.y)),
        0x0F => (SPC700 { sp: sp_down(c.sp), pc: p1, ..c }, r.update(stack_slot(c.sp), psw_of(c))),
        0xAE => {
            let sp = sp_up(c.sp);
            let a = r[stack_slot(sp)];
            (SPC700 { sp, a, pc: p1, ..with_nz(c, a) }, r)
        },
        0x2E => {
            let sp = sp_up(c.sp);
            let x = r[stack_slot(sp)];
            (SPC700 { sp, x, pc: p1, ..with_nz(c, x) }, r)
        },
        0x6E => {
            let sp = sp_up(c.sp);
            let y = r[stack_slot(sp)];
            (SPC700 { sp, y, pc: p1, ..with_nz(c, y) }, r)
        },
        0xCE => {
            let sp = sp_up(c.sp);
            (SPC700 { sp, pc: p1, ..psw_loaded(c, r[stack_slot(sp)]) }, r)
        },
        _ => (c, r),
    }
}

/// One SPC700 instruction of the clearing and setting one bit of a direct-page byte.
pub open spec fn spc_bit(c: SPC700, r: Seq<u8>, op: u8) -> (SPC700, Seq<u8>) {
    let pc = c.pc;
    let p1 = pc_next(pc);
    let p2 = pc_next(p1);
    let b1 = r[p1 as int];
    let b2 = r[p2 as int];
    let carry: int = if c.c { 1 } else { 0 };
    match op {
        0x12 | 0x02 => {
            let bit = (b1 >> 5u8) & 7;
            let addr = (b1 & 0x1F) as int;
            let val = r[addr];
            let new_val = if op == 0x12 { val & !(1u8 << bit) } else { val | (1u8 << bit) };
            (SPC700 { pc: p2, ..c }, r.update(addr, new_val))
        },
        _ => (c, r),
    }
}

/// One SPC700 instruction of the flag clears and sets; every other opcode only advances PC.
pub open spec fn spc_flag(c: SPC700, r: Seq<u8>, op: u8) -> (SPC700, Seq<u8>) {
    let pc = c.pc;
    let p1 = pc_next(pc);
    let p2 = pc_next(p1);
    let b1 = r[p1 as int];
    let b2 = r[p2 as int];
    let carry: int = if c.c { 1 } else { 0 };
    match op {
        0x60 => (SPC700 { c: false, pc: p1, ..c }, r),
        0x20 => (SPC700 { d: false, pc: p1, ..c }, r),
        0x40 => (SPC700 { i: false, pc: p1, ..c }, r),
        0xED => (SPC700 { v: false, pc: p1, ..c }, r),
        0x80 => (SPC700 { c: true, pc: p1, ..c }, r),
        0xA0 => (SPC700 { d: true, pc: p1, ..c }, r),
        0xC0 => (SPC700 { i: true, pc: p1, ..c }, r),
        _ => (SPC700 { pc: p1, ..c }, r),
    }
}

/// One SPC700 instruction at PC, on the CPU and the 64 KB of sound RAM.
/// Unknown opcodes advance PC by one.
pub open spec fn spc_step(c: SPC700, r: Seq<u8>) -> (SPC700, Seq<u8>) {
    let op = r[c.pc as int];
    if is_transfer_op(op) {
        spc_transfer(c, r, op)
    } else if is_inc_dec_op(op) {
        spc_inc_dec(c, r, op)
    } else if is_add_sub_op(op) {
        spc_add_sub(c, r, op)
    } else if is_logic_op(op) {
        spc_logic(c, r, op)
    } else if is_compare_op(op) {
        spc_compare(c, r, op)
    } else if is_shift_op(op) {
        spc_shift(c, r, op)
    } else if is_jump_op(op) {
        spc_jump(c, r, op)
    } else if is_branch_op(op) {
        spc_branch(c, r, op)
    } else if is_stack_op(op) {
        spc_stack(c, r, op)
    } else if is_bit_op(op) {
        spc_bit(c, r, op)
    } else {
        spc_flag(c, r, op)
    }
}

/// Whether one audio tick can run: the instruction at PC executes and the
/// cycle and sample counters do not overflow.
pub open spec fn apu_tick_defined(a: ApuView) -> bool {
    &&& spc_step_defined(a.spc700, a.ram)
    &&& a.cycles < 0xFFFF_FFFF
    &&& a.sample_counter < 0xFFFF_FFFF
}

/// The unit after one tick: one SPC700 instruction, both counters advanced,
/// and every `samples_per_update` ticks one mixed output sample.
pub open spec fn apu_ticked(a: ApuView) -> ApuView {
    let step = spc_step(a.spc700, a.ram);
    let counter = a.sample_counter + 1;
    if counter >= a.samples_per_update {
        ApuView {
            spc700: step.0,
            ram: step.1,
            cycles: (a.cycles + 1) as u32,
            sample_counter: 0,
            dsp: dsp_mixed(a.dsp),
            ..a
        }
    } else {
        ApuView {
            spc700: step.0,
            ram: step.1,
            cycles: (a.cycles + 1) as u32,
            sample_counter: counter as u32,
            ..a
        }
    }
}

/// The power-on state: SPC700 reset to 0xFFC0 with SP 0xEF and flags B and I,
/// DSP registers, voices and echo buffer cleared, sound RAM cleared, one
/// sample every 64 ticks.
pub open spec fn apu_power_on(a: ApuView) -> bool {
    &&& a.spc700 == (SPC700 {
        a: 0,
        x: 0,
        y: 0,
        sp: 0xEF,
        pc: 0xFFC0,
        n: false,
        v: false,
        p: false,
        b: true,
        d: false,
        i: true,
        z: false,
        c: false,
    })
    &&& a.ram == Seq::new(65536, |i: int| 0u8)
    &&& a.dsp.registers == Seq::new(128, |i: int| 0u8)
    &&& a.dsp.voices.len() == 8
    &&& forall|i: int| 0 <= i < 8 ==> #[trigger] voice_silent(a.dsp.voices[i])
    &&& a.dsp.master_vol_left == 0 && a.dsp.master_vol_right == 0
    &&& a.dsp.echo_vol_left == 0 && a.dsp.echo_vol_right == 0
    &&& a.dsp.echo_buffer == Seq::new(8192, |i: int| 0i16)
    &&& a.dsp.echo_buffer_pos == 0
    &&& !a.dsp.echo_enabled
    &&& a.dsp.noise_counter == 0
    &&& a.dsp.output_buffer == Seq::<i16>::empty()
    &&& a.dsp.sample_rate == 32000
    &&& a.cycles == 0
    &&& a.sample_counter == 0
    &&& a.samples_per_update == 64
}

impl APU {
    /// Power-on state: reset SPC700, fresh DSP, cleared RAM, one sample every 64 ticks.
    pub fn new() -> (r: Self)
        ensures
            apu_power_on(r@),
            r@.spc700 == (SPC700 {
                a: 0,
                x: 0,
                y: 0,
                sp: 0xEF,
                pc: 0xFFC0,
                n: false,
                v: false,
                p: false,
                b: true,
                d: false,
                i: true,
                z: false,
                c: false,
            }),
            r@.ram == Seq::new(65536, |i: int| 0u8),
            r@.dsp.output_buffer == Seq::<i16>::empty(),
            r@.dsp.sample_rate == 32000,
            r@.cycles == 0,
            r@.sample_counter == 0,
            r@.samples_per_update == 64,
    {
        let r = APU {
            spc700: SPC700::new(),
            dsp: DSP::new(),
            ram: [0;65536],
            cycles: 0,
            sample_counter: 0,
            samples_per_update: 64,
        };
        assert(r@.ram =~= Seq::new(65536, |i: int| 0u8));
        r
    }

    /// Run one SPC700 instruction, count the tick, and mix an output sample
    /// every `samples_per_update` ticks.
    pub fn tick(&mut self)
        requires
            apu_tick_defined(old(self)@),
        ensures
            final(self)@ == apu_ticked(old(self)@),
    {
        self.execute_instruction();
        self.cycles = self.cycles + 1;
        self.sample_counter = self.sample_counter + 1;
        if self.sample_counter >= self.samples_per_update {
            self.sample_counter = 0;
            self.dsp_update();
        }
    }

    /// Mix one stereo output sample from the sounding voices.
    fn dsp_update(&mut self)
        ensures
            final(self)@ == (ApuView { dsp: dsp_mixed(old(self)@.dsp), ..old(self)@ }),
    {
        let ghost d0 = self.dsp@;
        let mut left_out: i32 = 0;
        let mut right_out: i32 = 0;
        let mut voice_idx: usize = 0;
        while voice_idx < 8
            invariant
                voice_idx <= 8,
                d0.voices.len() == 8,
                left_out == mix_sum(d0.voices, voice_idx as nat, true),
                right_out == mix_sum(d0.voices, voice_idx as nat, false),
                forall|j: int| 0 <= j < voice_idx ==> #[trigger] self.dsp.voices@[j] == voice_mixed(d0.voices[j]),
                forall|j: int| voice_idx <= j < 8 ==> #[trigger] self.dsp.voices@[j] == d0.voices[j],
                self@ == (ApuView { dsp: DspView { voices: self.dsp.voices@, ..d0 }, ..old(self)@ }),
            decreases 8 - voice_idx,
        {
            proof {
                lemma_mix_sum_bounds(d0.voices, voice_idx as nat, true);
                lemma_mix_sum_bounds(d0.voices, voice_idx as nat, false);
            }
            let mut voice = self.dsp.voices[voice_idx];
            if voice.enabled && voice.envx != 0 {
                voice.update_envelope();
                proof {
                    lemma_voice_output_bounds(voice, true);
                    lemma_voice_output_bounds(voice, false);
                    let e = voice.envx;
                    assert((e >> 8u16) <= 255) by (bit_vector);
                }
                let sample = voice.brr_buffer[0];
                let envelope_level = (voice.envx >> 8u16) as i32;
                assert(-128 * 255 <= (voice.left_vol as i32) * envelope_level <= 127 * 255) by (nonlinear_arith)
                    requires
                        -128 <= voice.left_vol <= 127,
                        0 <= envelope_level <= 255,
                ;
                assert(-128 * 255 <= (voice.right_vol as i32) * envelope_level <= 127 * 255) by (nonlinear_arith)
                    requires
                        -128 <= voice.right_vol <= 127,
                        0 <= envelope_level <= 255,
                ;
                let left_prod: i32 = (voice.left_vol as i32) * envelope_level;
                let right_prod: i32 = (voice.right_vol as i32) * envelope_level;
                let left_level = left_prod / 255;
                let right_level = right_prod / 255;
                assert(-32768 * 128 <= (sample as i32) * left_level <= 32768 * 128) by (nonlinear_arith)
                    requires
                        -32768 <= sample <= 32767,
                        -128 <= left_level <= 128,
                ;
                assert(-32768 * 128 <= (sample as i32) * right_level <= 32768 * 128) by (nonlinear_arith)
                    requires
                        -32768 <= sample <= 32767,
                        -128 <= right_level <= 128,
                ;
                left_out = left_out + (sample as i32) * left_level / 128;
                right_out = right_out + (sample as i32) * right_level / 128;
                self.dsp.voices[voice_idx] = voice;
            }
            voice_idx = voice_idx + 1;
        }
        proof {
            lemma_mix_sum_bounds(d0.voices, 8, true);
            lemma_mix_sum_bounds(d0.voices, 8, false);
        }
        let ml = self.dsp.master_vol_left as i32;
        let mr = self.dsp.master_vol_right as i32;
        assert(-262144 * 128 <= left_out * ml <= 262144 * 128) by (nonlinear_arith)
            requires
                -262144 <= left_out <= 262144,
                -128 <= ml <= 127,
        ;
        assert(-262144 * 128 <= right_out * mr <= 262144 * 128) by (nonlinear_arith)
            requires
                -262144 <= right_out <= 262144,
                -128 <= mr <= 127,
        ;
        left_out = left_out * ml / 128;
        right_out = right_out * mr / 128;
        if left_out < -32768 {
            left_out = -32768;
        }
        if left_out > 32767 {
            left_out = 32767;
        }
        if right_out < -32768 {
            right_out = -32768;
        }
        if right_out > 32767 {
            right_out = 32767;
        }
        self.dsp.output_buffer.push(left_out as i16);
        self.dsp.output_buffer.push(right_out as i16);
        let len = self.dsp.output_buffer.len();
        if (len as u64) > (self.dsp.sample_rate as u64) * 2 {
            let k = if 1024 < len / 2 { 1024 } else { len / 2 };
            self.dsp.output_buffer = self.dsp.output_buffer.split_off(k);
        }
        assert(self.dsp.voices@ =~= Seq::new(8, |i: int| voice_mixed(d0.voices[i])));
    }

    /// Take the buffered output samples, leaving the buffer empty.
    pub fn get_audio_samples(&mut self) -> (r: Vec<i16>)
        ensures
            r@ == old(self)@.dsp.output_buffer,
            final(self)@ == (ApuView {
                dsp: DspView { output_buffer: Seq::empty(), ..old(self)@.dsp },
                ..old(self)@
            }),
    {
        let samples = self.dsp.output_buffer.split_off(0);
        assert(self.dsp.output_buffer@ =~= Seq::<i16>::empty());
        assert(samples@ =~= old(self)@.dsp.output_buffer);
        samples
    }

    /// Number of buffered output samples.
    pub fn audio_buffer_len(&self) -> (r: usize)
        ensures
            r == self@.dsp.output_buffer.len(),
    {
        self.dsp.output_buffer.len()
    }

    /// Sound RAM byte at `addr`.
    pub fn read_ram(&self, addr: u16) -> (r: u8)
        ensures
            r == self@.ram[addr as int],
    {
        self.ram[addr as usize]
    }

    /// Store a byte in sound RAM at `addr`.
    pub fn write_ram(&mut self, addr: u16, val: u8)
        ensures
            final(self)@ == (ApuView { ram: old(self)@.ram.update(addr as int, val), ..old(self)@ }),
    {
        self.ram[addr as usize] = val;
    }
}

proof fn lemma_word_of_bytes(v: u16)
    by (bit_vector)
    ensures
        ((((v >> 8u16) as u8) as u16) << 8u16) | ((v as u8) as u16) == v,
{
}

/// CALL then RET (the subroutine being a bare RET) resumes right after the
/// three-byte CALL, with the stack pointer restored, when the RET opcode does
/// not sit in one of the two stack slots the CALL writes.
pub proof fn law_call_return(c: SPC700, r: Seq<u8>)
    requires
        r.len() == 65536,
        r[c.pc as int] == 0x3F,
        r[word(r[pc_next(c.pc) as int], r[pc_next(pc_next(c.pc)) as int]) as int] == 0x6F,
        word(r[pc_next(c.pc) as int], r[pc_next(pc_next(c.pc)) as int]) != stack_slot(c.sp),
        word(r[pc_next(c.pc) as int], r[pc_next(pc_next(c.pc)) as int]) != stack_slot(
            sp_down(c.sp),
        ),
    ensures
        ({
            let call = spc_step(c, r);
            let ret = spc_step(call.0, call.1);
            ret.0.pc == pc_next(pc_next(pc_next(c.pc))) && ret.0.sp == c.sp
        }),
{
    lemma_word_of_bytes(pc_next(pc_next(pc_next(c.pc))));
}

/// PUSH A then POP X copies A into X through the stack: the byte lands in
/// the stack slot, X and the N and Z flags take it, and the stack pointer is
/// restored, when the POP opcode is not in the slot the PUSH writes.
pub proof fn law_push_pop(c: SPC700, r: Seq<u8>)
    requires
        r.len() == 65536,
        r[c.pc as int] == 0x2D,
        r[pc_next(c.pc) as int] == 0x2E,
        pc_next(c.pc) != stack_slot(c.sp),
    ensures
        ({
            let push = spc_step(c, r);
            let pop = spc_step(push.0, push.1);
            &&& pop.0.x == c.a
            &&& pop.0.a == c.a
            &&& pop.0.sp == c.sp
            &&& pop.1[stack_slot(c.sp)] == c.a
            &&& pop.0.z == (c.a == 0)
            &&& pop.0.n == ((c.a & 0x80) != 0)
            &&& pop.0.pc == pc_next(pc_next(c.pc))
        }),
{
}

proof fn lemma_or_low_high(x: u8)
    by (bit_vector)
    ensures
        x % 2u8 == 0u8 ==> (x | 0x01u8) == (x + 1u8) as u8,
        x < 128u8 ==> (x | 0x80u8) == (x + 128u8) as u8,
{
}

proof fn lemma_shift_arith(a: u8)
    by (bit_vector)
    ensures
        a < 128u8 ==> (a << 1u8) == (2u8 * a) as u8,
        a >= 128u8 ==> (a << 1u8) == (2u8 * (a - 128u8)) as u8,
        a >> 1u8 == a / 2u8,
        ((a & 0x01u8) != 0u8) == (a % 2u8 == 1u8),
        ((a & 0x80u8) != 0u8) == (a >= 128u8),
{
}

/// The shifts and rotations of A, as arithmetic on the byte: ASL (0x1C)
/// doubles A modulo 256, ROL (0x3C) doubles it and adds the old carry, LSR
/// (0x5C) halves it (rounding down), ROR (0x7C) halves it and adds 128 when
/// the old carry was set. The left shifts take the new carry from the old bit
/// 7, the right shifts from the old bit 0. N and Z follow the new A, PC moves
/// past the one-byte instruction, and nothing else changes.
#[verifier::rlimit(40)]
pub proof fn law_shift_a(c: SPC700, r: Seq<u8>)
    requires
        r.len() == 65536,
        is_shift_op(r[c.pc as int]),
    ensures
        ({
            let op = r[c.pc as int];
            let s = spc_step(c, r).0;
            let carry: int = if c.c { 1 } else { 0 };
            &&& op == 0x1C ==> s.a == (2 * c.a) % 256 && s.c == (c.a >= 128)
            &&& op == 0x3C ==> s.a == (2 * c.a + carry) % 256 && s.c == (c.a >= 128)
            &&& op == 0x5C ==> s.a == c.a / 2 && s.c == (c.a % 2 == 1)
            &&& op == 0x7C ==> s.a == c.a / 2 + 128 * carry && s.c == (c.a % 2 == 1)
            &&& s.z == (s.a == 0)
            &&& s.n == (s.a >= 128)
            &&& s.pc == pc_next(c.pc)
            &&& s == (SPC700 { a: s.a, c: s.c, n: s.n, z: s.z, pc: s.pc, ..c })
            &&& spc_step(c, r).1 == r
        }),
{
    assert(spc_step(c, r) == spc_shift(c, r, r[c.pc as int]));
    lemma_shift_arith(c.a);
    lemma_or_low_high(c.a << 1u8);
    lemma_or_low_high(c.a >> 1u8);
    let s = spc_step(c, r).0;
    lemma_shift_arith(s.a);
}

proof fn lemma_byte_signs(a: u8, b: u8, x: u16, d: i16)
    by (bit_vector)
    ensures
        (((a ^ b) & 0x80u8) == 0u8) == ((a >= 128u8) == (b >= 128u8)),
        (((a ^ b) & 0x80u8) != 0u8) == ((a >= 128u8) != (b >= 128u8)),
        ((b & 0x80u8) != 0u8) == (b >= 128u8),
        (x as u8) as u16 == x % 256u16,
        0i16 <= d && d <= 255i16 ==> (d as u8) as i16 == d,
        -256i16 <= d && d < 0i16 ==> (d as u8) as i16 == (d + 256i16) as i16,
        (a ^ b) ^ b == a,
{
}

/// Addition (0x84 without the carry, 0x94 with it) and subtraction (0x64
/// without the borrow, 0xA4 with it) of the immediate byte after the opcode on
/// A, as arithmetic: the new A is
/// the sum or difference modulo 256, C tells whether the sum exceeds 255 or
/// the difference is not negative, V is set when the signed result overflows
/// (for a sum: operands of one sign, result of the other; for a difference:
/// operands of different signs, result's sign unlike A's), and N and Z follow
/// the new A. PC moves past the two bytes.
pub proof fn law_spc_add_sub(c: SPC700, r: Seq<u8>)
    requires
        r.len() == 65536,
        is_add_sub_op(r[c.pc as int]),
    ensures
        ({
            let op = r[c.pc as int];
            let b = r[pc_next(c.pc) as int];
            let s = spc_step(c, r).0;
            let carry: int = if c.c { 1 } else { 0 };
            let sum: int = c.a + b + (if op == 0x94 { carry } else { 0 });
            let diff: int = c.a - b - (if op == 0xA4 { 1 - carry } else { 0 });
            &&& (op == 0x84 || op == 0x94) ==> {
                &&& s.a == sum % 256
                &&& s.c == (sum > 255)
                &&& s.v == ((c.a >= 128) == (b >= 128) && (s.a >= 128) != (c.a >= 128))
            }
            &&& (op == 0x64 || op == 0xA4) ==> {
                &&& s.a == (diff + 256) % 256
                &&& s.c == (diff >= 0)
                &&& s.v == ((c.a >= 128) != (b >= 128) && (s.a >= 128) != (c.a >= 128))
            }
            &&& s.z == (s.a == 0)
            &&& s.n == (s.a >= 128)
            &&& s.pc == pc_next(pc_next(c.pc))
            &&& s.x == c.x && s.y == c.y && s.sp == c.sp
            &&& spc_step(c, r).1 == r
        }),
{
    let op = r[c.pc as int];
    let b = r[pc_next(c.pc) as int];
    assert(spc_step(c, r) == spc_add_sub(c, r, op));
    let carry: int = if c.c { 1 } else { 0 };
    let cin: int = if op == 0x94 { carry } else { 0 };
    let result = (c.a + b + cin) as u16;
    let borrow: int = if op == 0xA4 && !c.c { 1 } else { 0 };
    let d = (c.a - b - borrow) as i16;
    lemma_byte_signs(c.a, b, result, d);
    let s = spc_step(c, r).0;
    lemma_byte_signs(c.a, s.a, result, d);
    lemma_byte_signs(s.a, s.a, result, d);
}

/// AND, OR and EOR on A, with the byte after the opcode (0x24, 0x04, 0x44) or
/// with the direct-page byte it names (0x34, 0x14, 0x54): A becomes the
/// bitwise combination, EOR being undone by a second EOR with the same byte;
/// N and Z follow the new A, C is untouched and PC moves past the two bytes.
pub proof fn law_spc_logic(c: SPC700, r: Seq<u8>)
    requires
        r.len() == 65536,
        is_logic_op(r[c.pc as int]),
    ensures
        ({
            let op = r[c.pc as int];
            let b = r[pc_next(c.pc) as int];
            let m = if op == 0x34 || op == 0x14 || op == 0x54 { r[b as int] } else { b };
            let s = spc_step(c, r).0;
            &&& (op == 0x24 || op == 0x34) ==> s.a == c.a & m
            &&& (op == 0x04 || op == 0x14) ==> s.a == c.a | m
            &&& (op == 0x44 || op == 0x54) ==> s.a == c.a ^ m && s.a ^ m == c.a
            &&& s.z == (s.a == 0)
            &&& s.n == (s.a >= 128)
            &&& s.c == c.c && s.v == c.v
            &&& s.pc == pc_next(pc_next(c.pc))
            &&& spc_step(c, r).1 == r
        }),
{
    let op = r[c.pc as int];
    assert(spc_step(c, r) == spc_logic(c, r, op));
    let s = spc_step(c, r).0;
    let b = r[pc_next(c.pc) as int];
    let m = if op == 0x34 || op == 0x14 || op == 0x54 { r[b as int] } else { b };
    lemma_byte_signs(s.a, s.a, 0, 0);
    lemma_byte_signs(c.a, m, 0, 0);
}

/// Comparison of A (0xC8), X (0xAD) or Y (0xEC) with the immediate byte after
/// the opcode: no register changes; C tells whether the
/// register is at least the operand, Z whether they are equal, and N is bit 7
/// of their difference modulo 256.
pub proof fn law_spc_compare(c: SPC700, r: Seq<u8>)
    requires
        r.len() == 65536,
        is_compare_op(r[c.pc as int]),
    ensures
        ({
            let op = r[c.pc as int];
            let b = r[pc_next(c.pc) as int];
            let reg = if op == 0xC8 { c.a } else if op == 0xAD { c.x } else { c.y };
            let s = spc_step(c, r).0;
            &&& s.c == (reg >= b)
            &&& s.z == (reg == b)
            &&& s.n == ((reg - b + 256) % 256 >= 128)
            &&& s.a == c.a && s.x == c.x && s.y == c.y
            &&& s.pc == pc_next(pc_next(c.pc))
        }),
{
    let op = r[c.pc as int];
    let b = r[pc_next(c.pc) as int];
    assert(spc_step(c, r) == spc_compare(c, r, op));
    let reg = if op == 0xC8 { c.a } else if op == 0xAD { c.x } else { c.y };
    let d = (reg - b) as i16;
    lemma_byte_signs(reg, b, 0, d);
    lemma_byte_signs(d as u8, d as u8, 0, d);
}

/// INC and DEC of A, X and Y add or subtract one modulo 256; N and Z follow
/// the new value, the other registers and C are untouched and PC moves past the
/// one-byte instruction.
pub proof fn law_spc_inc_dec(c: SPC700, r: Seq<u8>)
    requires
        r.len() == 65536,
        is_inc_dec_op(r[c.pc as int]),
    ensures
        ({
            let op = r[c.pc as int];
            let s = spc_step(c, r).0;
            let v = if op == 0xDB { s.y } else if op == 0x3D || op == 0x1D { s.x } else { s.a };
            &&& op == 0xBC ==> s.a == (c.a + 1) % 256 && s.x == c.x && s.y == c.y
            &&& op == 0x9C ==> s.a == (c.a + 255) % 256 && s.x == c.x && s.y == c.y
            &&& op == 0x3D ==> s.x == (c.x + 1) % 256 && s.a == c.a && s.y == c.y
            &&& op == 0x1D ==> s.x == (c.x + 255) % 256 && s.a == c.a && s.y == c.y
            &&& op == 0xDB ==> s.y == (c.y + 1) % 256 && s.a == c.a && s.x == c.x
            &&& s.z == (v == 0)
            &&& s.n == (v >= 128)
            &&& s.c == c.c
            &&& s.pc == pc_next(c.pc)
        }),
{
    let op = r[c.pc as int];
    assert(spc_step(c, r) == spc_inc_dec(c, r, op));
    let s = spc_step(c, r).0;
    lemma_byte_signs(s.a, s.a, 0, 0);
    lemma_byte_signs(s.x, s.x, 0, 0);
    lemma_byte_signs(s.y, s.y, 0, 0);
}

/// A conditional branch goes to its target exactly when its flag test holds:
/// BRA (0x2F) always, BEQ/BNE (0xF0/0xD0) on Z set/clear, BCS/BCC (0xB0/0x90)
/// on C, BMI/BPL (0x30/0x10) on N, BVS/BVC (0x70/0x50) on V; otherwise it
/// falls through past its two bytes. No register or flag other than PC changes.
pub proof fn law_spc_branch(c: SPC700, r: Seq<u8>)
    requires
        r.len() == 65536,
        is_branch_op(r[c.pc as int]),
    ensures
        ({
            let op = r[c.pc as int];
            let next = pc_next(pc_next(c.pc));
            let taken = if op == 0x2F {
                true
            } else if op == 0xF0 {
                c.z
            } else if op == 0xD0 {
                !c.z
            } else if op == 0xB0 {
                c.c
            } else if op == 0x90 {
                !c.c
            } else if op == 0x30 {
                c.n
            } else if op == 0x10 {
                !c.n
            } else if op == 0x70 {
                c.v
            } else {
                !c.v
            };
            let s = spc_step(c, r);
            &&& s.0.pc == (if taken { branch_target(next, r[pc_next(c.pc) as int]) } else { next })
            &&& s.0 == (SPC700 { pc: s.0.pc, ..c })
            &&& s.1 == r
        }),
{
    let op = r[c.pc as int];
    assert(spc_step(c, r) == spc_branch(c, r, op));
}

/// The flag instructions: CLRC/SETC (0x60/0x80) clear and set C, 0x20 and
/// 0xA0 clear and set D, DI/EI
/// (0x40/0xC0) clear and set I, CLRV (0xED) clears V; nothing else changes
/// but PC, which moves past the one-byte instruction.
pub proof fn law_spc_flags(c: SPC700, r: Seq<u8>, op: u8)
    requires
        r.len() == 65536,
        r[c.pc as int] == op,
        op == 0x60 || op == 0x80 || op == 0x20 || op == 0xA0 || op == 0x40 || op == 0xC0 || op
            == 0xED,
    ensures
        ({
            let s = spc_step(c, r).0;
            &&& s.c == (if op == 0x60 { false } else if op == 0x80 { true } else { c.c })
            &&& s.d == (if op == 0x20 { false } else if op == 0xA0 { true } else { c.d })
            &&& s.i == (if op == 0x40 { false } else if op == 0xC0 { true } else { c.i })
            &&& s.v == (if op == 0xED { false } else { c.v })
            &&& s.a == c.a && s.x == c.x && s.y == c.y && s.sp == c.sp
            &&& s.n == c.n && s.z == c.z
            &&& s.pc == pc_next(c.pc)
        }),
{
    assert(spc_step(c, r) == spc_flag(c, r, op));
}

/// The moves: an immediate load (0xE8 A, 0xCD X, 0xCF Y), a register copy
/// (0x7D X to A, 0xDD Y to A, 0x5D A to X, 0xFD A to Y) or a direct-page load
/// (0xE4 A, 0xF4 X, 0xEB Y) puts the byte in the destination only, with N and Z
/// from it; a direct-page store (0xC4 A, 0xD4 X, 0xD8 Y) writes the register to
/// the byte the operand names and changes no register but PC.
pub proof fn law_spc_moves(c: SPC700, r: Seq<u8>)
    requires
        r.len() == 65536,
        is_transfer_op(r[c.pc as int]),
        r[c.pc as int] != 0xC6 && r[c.pc as int] != 0xC5,
    ensures
        ({
            let op = r[c.pc as int];
            let b = r[pc_next(c.pc) as int];
            let step = spc_step(c, r);
            let s = step.0;
            let val: u8 = if op == 0xE8 || op == 0xCD || op == 0xCF {
                b
            } else if op == 0x7D {
                c.x
            } else if op == 0xDD {
                c.y
            } else if op == 0x5D || op == 0xFD || op == 0xC4 {
                c.a
            } else if op == 0xD4 {
                c.x
            } else if op == 0xD8 {
                c.y
            } else {
                r[b as int]
            };
            let to_a = op == 0xE8 || op == 0x7D || op == 0xDD || op == 0xE4;
            let to_x = op == 0xCD || op == 0x5D || op == 0xF4;
            let to_y = op == 0xCF || op == 0xFD || op == 0xEB;
            let store = op == 0xC4 || op == 0xD4 || op == 0xD8;
            &&& s.a == (if to_a { val } else { c.a })
            &&& s.x == (if to_x { val } else { c.x })
            &&& s.y == (if to_y { val } else { c.y })
            &&& store ==> step.1 == r.update(b as int, val) && s.z == c.z && s.n == c.n
            &&& !store ==> step.1 == r && s.z == (val == 0) && s.n == ((val & 0x80) != 0)
            &&& s.c == c.c && s.sp == c.sp
        }),
{
    let op = r[c.pc as int];
    assert(spc_step(c, r) == spc_transfer(c, r, op));
}

/// ROL A then ROR A gives back A and the carry flag as they were.
pub proof fn law_rotate_round_trip(c: SPC700, r: Seq<u8>)
    requires
        r.len() == 65536,
        r[c.pc as int] == 0x3C,
        r[pc_next(c.pc) as int] == 0x7C,
    ensures
        ({
            let rol = spc_step(c, r);
            let ror = spc_step(rol.0, rol.1);
            ror.0.a == c.a && ror.0.c == c.c && ror.0.pc == pc_next(pc_next(c.pc))
        }),
{
    law_shift_a(c, r);
    let rol = spc_step(c, r);
    law_shift_a(rol.0, rol.1);
}

/// A byte written to sound RAM is read back at the same address.
pub proof fn law_ram_round_trip(a: ApuView, addr: u16, val: u8)
    requires
        a.ram.len() == 65536,
    ensures
        a.ram.update(addr as int, val)[addr as int] == val,
{
}


impl APU {
    /// Fetch, decode and execute one SPC700 instruction.
    fn execute_instruction(&mut self)
        requires
            spc_step_defined(old(self).spc700, old(self)@.ram),
        ensures
            final(self).spc700 == spc_step(old(self).spc700, old(self)@.ram).0,
            final(self)@.ram == spc_step(old(self).spc700, old(self)@.ram).1,
            final(self).dsp == old(self).dsp,
            final(self).cycles == old(self).cycles,
            final(self).sample_counter == old(self).sample_counter,
            final(self).samples_per_update == old(self).samples_per_update,
    {
        let opcode = self.ram[self.spc700.pc as usize];
        match opcode {
            0xE8 | 0xCD | 0xCF | 0x7D | 0xDD | 0x5D | 0xFD | 0xC6 | 0xC5 | 0xE4 | 0xC4 | 0xD4 | 0xD8 | 0xF4 | 0xEB => self.exec_transfer(opcode),
            0xDB | 0xBC | 0x9C | 0x3D | 0x1D => self.exec_inc_dec(opcode),
            0x84 | 0x94 | 0x64 | 0xA4 => self.exec_add_sub(opcode),
            0x24 | 0x34 | 0x04 | 0x14 | 0x44 | 0x54 => self.exec_logic(opcode),
            0xC8 | 0xAD | 0xEC => self.exec_compare(opcode),
            0x1C | 0x5C | 0x3C | 0x7C => self.exec_shift(opcode),
            0x5F | 0x7F | 0x3F | 0x6F | 0x8F => self.exec_jump(opcode),
            0x2F | 0xF0 | 0xD0 | 0xB0 | 0x90 | 0x30 | 0x10 | 0x70 | 0x50 => self.exec_branch(opcode),
            0x2D | 0x0D | 0x4D | 0x0F | 0xAE | 0x2E | 0x6E | 0xCE => self.exec_stack(opcode),
            0x12 | 0x02 => self.exec_bit(opcode),
            _ => self.exec_flag(opcode),
        }
    }

    /// Register loads, transfers and stores.
    #[verifier::rlimit(80)]
    #[verifier::spinoff_prover]
    fn exec_transfer(&mut self, opcode: u8)
        requires
            opcode == old(self)@.ram[old(self).spc700.pc as int],
            is_transfer_op(opcode),
            spc_step_defined(old(self).spc700, old(self)@.ram),
        ensures
            final(self).spc700 == spc_transfer(old(self).spc700, old(self)@.ram, opcode).0,
            final(self)@.ram == spc_transfer(old(self).spc700, old(self)@.ram, opcode).1,
            final(self).dsp == old(self).dsp,
            final(self).cycles == old(self).cycles,
            final(self).sample_counter == old(self).sample_counter,
            final(self).samples_per_update == old(self).samples_per_update,
    {
        let mut c = self.spc700;
        match opcode {
            0xE8 => {
                c.pc = c.pc.wrapping_add(1);
                let imm = self.ram[c.pc as usize];
                c.a = imm;
                {
                    let nz_val = c.a;
                    c.update_nz(nz_val);
                }
                c.pc = c.pc.wrapping_add(1);
            },
            0xCD => {
                c.pc = c.pc.wrapping_add(1);
                let imm = self.ram[c.pc as usize];
                c.x = imm;
                {
                    let nz_val = c.x;
                    c.update_nz(nz_val);
                }
                c.pc = c.pc.wrapping_add(1);
            },
            0xCF => {
                c.pc = c.pc.wrapping_add(1);
                let imm = self.ram[c.pc as usize];
                c.y = imm;
                {
                    let nz_val = c.y;
                    c.update_nz(nz_val);
                }
                c.pc = c.pc.wrapping_add(1);
            },
            0x7D => {
                c.a = c.x;
                {
                    let nz_val = c.a;
                    c.update_nz(nz_val);
                }
                c.pc = c.pc.wrapping_add(1);
            },
            0xDD => {
                c.a = c.y;
                {
                    let nz_val = c.a;
                    c.update_nz(nz_val);
                }
                c.pc = c.pc.wrapping_add(1);
            },
            0x5D => {
                c.x = c.a;
                {
                    let nz_val = c.x;
                    c.update_nz(nz_val);
                }
                c.pc = c.pc.wrapping_add(1);
            },
            0xFD => {
                c.y = c.a;
                {
                    let nz_val = c.y;
                    c.update_nz(nz_val);
                }
                c.pc = c.pc.wrapping_add(1);
            },
            0xC6 => {
                let addr = c.x as u16;
                c.a = self.ram[addr as usize];
                {
                    let nz_val = c.a;
                    c.update_nz(nz_val);
                }
                c.pc = c.pc.wrapping_add(1);
            },
            0xC5 => {
                let addr = c.x as u16;
                self.ram[addr as usize] = c.a;
                c.pc = c.pc.wrapping_add(1);
            },
            0xE4 => {
                c.pc = c.pc.wrapping_add(1);
                let addr = self.ram[c.pc as usize] as u16;
                c.a = self.ram[addr as usize];
                {
                    let nz_val = c.a;
                    c.update_nz(nz_val);
                }
                c.pc = c.pc.wrapping_add(1);
            },
            0xC4 => {
                c.pc = c.pc.wrapping_add(1);
                let addr = self.ram[c.pc as usize] as u16;
                self.ram[addr as usize] = c.a;
                c.pc = c.pc.wrapping_add(1);
            },
            0xD4 => {
                c.pc = c.pc.wrapping_add(1);
                let addr = self.ram[c.pc as usize] as u16;
                self.ram[addr as usize] = c.x;
                c.pc = c.pc.wrapping_add(1);
            },
            0xD8 => {
                c.pc = c.pc.wrapping_add(1);
                let addr = self.ram[c.pc as usize] as u16;
                self.ram[addr as usize] = c.y;
                c.pc = c.pc.wrapping_add(1);
            },
            0xF4 => {
                c.pc = c.pc.wrapping_add(1);
                let addr = self.ram[c.pc as usize] as u16;
                c.x = self.ram[addr as usize];
                {
                    let nz_val = c.x;
                    c.update_nz(nz_val);
                }
                c.pc = c.pc.wrapping_add(1);
            },
            0xEB => {
                c.pc = c.pc.wrapping_add(1);
                let addr = self.ram[c.pc as usize] as u16;
                c.y = self.ram[addr as usize];
                {
                    let nz_val = c.y;
                    c.update_nz(nz_val);
                }
                c.pc = c.pc.wrapping_add(1);
            },
            _ => {},
        }
        self.spc700 = c;
    }

    /// Increments and decrements of A, X and Y.
    #[verifier::rlimit(80)]
    #[verifier::spinoff_prover]
    fn exec_inc_dec(&mut self, opcode: u8)
        requires
            opcode == old(self)@.ram[old(self).spc700.pc as int],
            is_inc_dec_op(opcode),
            spc_step_defined(old(self).spc700, old(self)@.ram),
        ensures
            final(self).spc700 == spc_inc_dec(old(self).spc700, old(self)@.ram, opcode).0,
            final(self)@.ram == spc_inc_dec(old(self).spc700, old(self)@.ram, opcode).1,
            final(self).dsp == old(self).dsp,
            final(self).cycles == old(self).cycles,
            final(self).sample_counter == old(self).sample_counter,
            final(self).samples_per_update == old(self).samples_per_update,
    {
        let mut c = self.spc700;
        match opcode {
            0xDB => {
                c.y = c.y.wrapping_add(1);
                {
                    let nz_val = c.y;
                    c.update_nz(nz_val);
                }
                c.pc = c.pc.wrapping_add(1);
            },
            0xBC => {
                c.a = c.a.wrapping_add(1);
                {
                    let nz_val = c.a;
                    c.update_nz(nz_val);
                }
                c.pc = c.pc.wrapping_add(1);
            },
            0x9C => {
                c.a = c.a.wrapping_sub(1);
                {
                    let nz_val = c.a;
                    c.update_nz(nz_val);
                }
                c.pc = c.pc.wrapping_add(1);
            },
            0x3D => {
                c.x = c.x.wrapping_add(1);
                {
                    let nz_val = c.x;
                    c.update_nz(nz_val);
                }
                c.pc = c.pc.wrapping_add(1);
            },
            0x1D => {
                c.x = c.x.wrapping_sub(1);
                {
                    let nz_val = c.x;
                    c.update_nz(nz_val);
                }
                c.pc = c.pc.wrapping_add(1);
            },
            _ => {},
        }
        self.spc700 = c;
    }

    /// Addition and subtraction on A.
    #[verifier::rlimit(80)]
    #[verifier::spinoff_prover]
    fn exec_add_sub(&mut self, opcode: u8)
        requires
            opcode == old(self)@.ram[old(self).spc700.pc as int],
            is_add_sub_op(opcode),
            spc_step_defined(old(self).spc700, old(self)@.ram),
        ensures
            final(self).spc700 == spc_add_sub(old(self).spc700, old(self)@.ram, opcode).0,
            final(self)@.ram == spc_add_sub(old(self).spc700, old(self)@.ram, opcode).1,
            final(self).dsp == old(self).dsp,
            final(self).cycles == old(self).cycles,
            final(self).sample_counter == old(self).sample_counter,
            final(self).samples_per_update == old(self).samples_per_update,
    {
        let mut c = self.spc700;
        match opcode {
            0x84 | 0x94 => {
                c.pc = c.pc.wrapping_add(1);
                let imm = self.ram[c.pc as usize];
                let carry: u16 = if opcode == 0x94 && c.c { 1 } else { 0 };
                let result: u16 = (c.a as u16) + (imm as u16) + carry;
                c.c = result > 0xFF;
                c.v = ((c.a ^ imm) & 0x80) == 0 && ((c.a ^ result as u8)
                    & 0x80) != 0;
                c.a = result as u8;
                {
                    let nz_val = c.a;
                    c.update_nz(nz_val);
                }
                c.pc = c.pc.wrapping_add(1);
            },
            0x64 | 0xA4 => {
                c.pc = c.pc.wrapping_add(1);
                let imm = self.ram[c.pc as usize];
                let borrow: i16 = if opcode == 0xA4 && !c.c { 1 } else { 0 };
                let result: i16 = (c.a as i16) - (imm as i16) - borrow;
                c.c = result >= 0;
                c.v = ((c.a ^ imm) & 0x80) != 0 && ((c.a ^ (result as u8))
                    & 0x80) != 0;
                c.a = result as u8;
                {
                    let nz_val = c.a;
                    c.update_nz(nz_val);
                }
                c.pc = c.pc.wrapping_add(1);
            },
            _ => {},
        }
        self.spc700 = c;
    }

    /// AND, OR and exclusive OR on A.
    #[verifier::rlimit(80)]
    #[verifier::spinoff_prover]
    fn exec_logic(&mut self, opcode: u8)
        requires
            opcode == old(self)@.ram[old(self).spc700.pc as int],
            is_logic_op(opcode),
            spc_step_defined(old(self).spc700, old(self)@.ram),
        ensures
            final(self).spc700 == spc_logic(old(self).spc700, old(self)@.ram, opcode).0,
            final(self)@.ram == spc_logic(old(self).spc700, old(self)@.ram, opcode).1,
            final(self).dsp == old(self).dsp,
            final(self).cycles == old(self).cycles,
            final(self).sample_counter == old(self).sample_counter,
            final(self).samples_per_update == old(self).samples_per_update,
    {
        let mut c = self.spc700;
        match opcode {
            0x24 => {
                c.pc = c.pc.wrapping_add(1);
                let imm = self.ram[c.pc as usize];
                c.a = c.a & imm;
                {
                    let nz_val = c.a;
                    c.update_nz(nz_val);
                }
                c.pc = c.pc.wrapping_add(1);
            },
            0x34 => {
                c.pc = c.pc.wrapping_add(1);
                let addr = self.ram[c.pc as usize] as u16;
                let val = self.ram[addr as usize];
                c.a = c.a & val;
                {
                    let nz_val = c.a;
                    c.update_nz(nz_val);
                }
                c.pc = c.pc.wrapping_add(1);
            },
            0x04 => {
                c.pc = c.pc.wrapping_add(1);
                let imm = self.ram[c.pc as usize];
                c.a = c.a | imm;
                {
                    let nz_val = c.a;
                    c.update_nz(nz_val);
                }
                c.pc = c.pc.wrapping_add(1);
            },
            0x14 => {
                c.pc = c.pc.wrapping_add(1);
                let addr = self.ram[c.pc as usize] as u16;
                let val = self.ram[addr as usize];
                c.a = c.a | val;
                {
                    let nz_val = c.a;
                    c.update_nz(nz_val);
                }
                c.pc = c.pc.wrapping_add(1);
            },
            0x44 => {
                c.pc = c.pc.wrapping_add(1);
                let imm = self.ram[c.pc as usize];
                c.a = c.a ^ imm;
                {
                    let nz_val = c.a;
                    c.update_nz(nz_val);
                }
                c.pc = c.pc.wrapping_add(1);
            },
            0x54 => {
                c.pc = c.pc.wrapping_add(1);
                let addr = self.ram[c.pc as usize] as u16;
                let val = self.ram[addr as usize];
                c.a = c.a ^ val;
                {
                    let nz_val = c.a;
                    c.update_nz(nz_val);
                }
                c.pc = c.pc.wrapping_add(1);
            },
            _ => {},
        }
        self.spc700 = c;
    }

    /// Comparisons of A, X and Y with an immediate.
    #[verifier::rlimit(80)]
    #[verifier::spinoff_prover]
    fn exec_compare(&mut self, opcode: u8)
        requires
            opcode == old(self)@.ram[old(self).spc700.pc as int],
            is_compare_op(opcode),
            spc_step_defined(old(self).spc700, old(self)@.ram),
        ensures
            final(self).spc700 == spc_compare(old(self).spc700, old(self)@.ram, opcode).0,
            final(self)@.ram == spc_compare(old(self).spc700, old(self)@.ram, opcode).1,
            final(self).dsp == old(self).dsp,
            final(self).cycles == old(self).cycles,
            final(self).sample_counter == old(self).sample_counter,
            final(self).samples_per_update == old(self).samples_per_update,
    {
        let mut c = self.spc700;
        match opcode {
            0xC8 | 0xAD | 0xEC => {
                c.pc = c.pc.wrapping_add(1);
                let imm = self.ram[c.pc as usize];
                let reg = if opcode == 0xC8 {
                    c.a
                } else if opcode == 0xAD {
                    c.x
                } else {
                    c.y
                };
                let result: i16 = (reg as i16) - (imm as i16);
                c.c = result >= 0;
                {
                    let nz_val = result as u8;
                    c.update_nz(nz_val);
                }
                c.pc = c.pc.wrapping_add(1);
            },
            _ => {},
        }
        self.spc700 = c;
    }

    /// Shifts and rotations of A.
    #[verifier::rlimit(80)]
    #[verifier::spinoff_prover]
    fn exec_shift(&mut self, opcode: u8)
        requires
            opcode == old(self)@.ram[old(self).spc700.pc as int],
            is_shift_op(opcode),
            spc_step_defined(old(self).spc700, old(self)@.ram),
        ensures
            final(self).spc700 == spc_shift(old(self).spc700, old(self)@.ram, opcode).0,
            final(self)@.ram == spc_shift(old(self).spc700, old(self)@.ram, opcode).1,
            final(self).dsp == old(self).dsp,
            final(self).cycles == old(self).cycles,
            final(self).sample_counter == old(self).sample_counter,
            final(self).samples_per_update == old(self).samples_per_update,
    {
        let mut c = self.spc700;
        match opcode {
            0x1C => {
                c.c = (c.a & 0x80) != 0;
                c.a = c.a << 1u8;
                {
                    let nz_val = c.a;
                    c.update_nz(nz_val);
                }
                c.pc = c.pc.wrapping_add(1);
            },
            0x5C => {
                c.c = (c.a & 0x01) != 0;
                c.a = c.a >> 1u8;
                {
                    let nz_val = c.a;
                    c.update_nz(nz_val);
                }
                c.pc = c.pc.wrapping_add(1);
            },
            0x3C => {
                let new_c = (c.a & 0x80) != 0;
                c.a = c.a << 1u8;
                if c.c {
                    c.a = c.a | 0x01;
                }
                c.c = new_c;
                {
                    let nz_val = c.a;
                    c.update_nz(nz_val);
                }
                c.pc = c.pc.wrapping_add(1);
            },
            0x7C => {
                let new_c = (c.a & 0x01) != 0;
                c.a = c.a >> 1u8;
                if c.c {
                    c.a = c.a | 0x80;
                }
                c.c = new_c;
                {
                    let nz_val = c.a;
                    c.update_nz(nz_val);
                }
                c.pc = c.pc.wrapping_add(1);
            },
            _ => {},
        }
        self.spc700 = c;
    }

    /// Jumps, calls and returns.
    #[verifier::rlimit(80)]
    #[verifier::spinoff_prover]
    fn exec_jump(&mut self, opcode: u8)
        requires
            opcode == old(self)@.ram[old(self).spc700.pc as int],
            is_jump_op(opcode),
            spc_step_defined(old(self).spc700, old(self)@.ram),
        ensures
            final(self).spc700 == spc_jump(old(self).spc700, old(self)@.ram, opcode).0,
            final(self)@.ram == spc_jump(old(self).spc700, old(self)@.ram, opcode).1,
            final(self).dsp == old(self).dsp,
            final(self).cycles == old(self).cycles,
            final(self).sample_counter == old(self).sample_counter,
            final(self).samples_per_update == old(self).samples_per_update,
    {
        let mut c = self.spc700;
        match opcode {
            0x5F => {
                c.pc = c.pc.wrapping_add(1);
                let lo = self.ram[c.pc as usize] as u16;
                c.pc = c.pc.wrapping_add(1);
                let hi = self.ram[c.pc as usize] as u16;
                c.pc = (hi << 8u16) | lo;
            },
            0x7F => {
                c.pc = c.pc.wrapping_add(1);
                let addr_lo = self.ram[c.pc as usize] as u16;
                c.pc = c.pc.wrapping_add(1);
                let addr_hi = self.ram[c.pc as usize] as u16;
                let addr = (addr_hi << 8u16) | addr_lo;
                let lo = self.ram[addr as usize] as u16;
                let hi = self.ram[(addr + 1) as usize] as u16;
                c.pc = (hi << 8u16) | lo;
            },
            0x3F => {
                c.pc = c.pc.wrapping_add(1);
                let lo = self.ram[c.pc as usize] as u16;
                c.pc = c.pc.wrapping_add(1);
                let hi = self.ram[c.pc as usize] as u16;
                let ret_addr = c.pc.wrapping_add(1);
                self.ram[0x100 + c.sp as usize] = (ret_addr >> 8u16) as u8;
                c.sp = c.sp.wrapping_sub(1);
                self.ram[0x100 + c.sp as usize] = ret_addr as u8;
                c.sp = c.sp.wrapping_sub(1);
                c.pc = (hi << 8u16) | lo;
            },
            0x6F => {
                c.sp = c.sp.wrapping_add(1);
                let lo = self.ram[0x100 + c.sp as usize] as u16;
                c.sp = c.sp.wrapping_add(1);
                let hi = self.ram[0x100 + c.sp as usize] as u16;
                c.pc = (hi << 8u16) | lo;
            },
            0x8F => {
                c.sp = c.sp.wrapping_add(1);
                let psw = self.ram[0x100 + c.sp as usize];
                c.sp = c.sp.wrapping_add(1);
                let lo = self.ram[0x100 + c.sp as usize] as u16;
                c.sp = c.sp.wrapping_add(1);
                let hi = self.ram[0x100 + c.sp as usize] as u16;
                c.set_psw(psw);
                c.pc = (hi << 8u16) | lo;
            },
            _ => {},
        }
        self.spc700 = c;
    }

    /// Relative branches.
    #[verifier::rlimit(80)]
    #[verifier::spinoff_prover]
    fn exec_branch(&mut self, opcode: u8)
        requires
            opcode == old(self)@.ram[old(self).spc700.pc as int],
            is_branch_op(opcode),
            spc_step_defined(old(self).spc700, old(self)@.ram),
        ensures
            final(self).spc700 == spc_branch(old(self).spc700, old(self)@.ram, opcode).0,
            final(self)@.ram == spc_branch(old(self).spc700, old(self)@.ram, opcode).1,
            final(self).dsp == old(self).dsp,
            final(self).cycles == old(self).cycles,
            final(self).sample_counter == old(self).sample_counter,
            final(self).samples_per_update == old(self).samples_per_update,
    {
        let mut c = self.spc700;
        match opcode {
            0x2F | 0xF0 | 0xD0 | 0xB0 | 0x90 | 0x30 | 0x10 | 0x70 | 0x50 => {
                let taken = match opcode {
                    0x2F => true,
                    0xF0 => c.z,
                    0xD0 => !c.z,
                    0xB0 => c.c,
                    0x90 => !c.c,
                    0x30 => c.n,
                    0x10 => !c.n,
                    0x70 => c.v,
                    _ => !c.v,
                };
                c.pc = c.pc.wrapping_add(1);
                let offset = self.ram[c.pc as usize] as i8;
                c.pc = c.pc.wrapping_add(1);
                if taken {
                    c.pc = (c.pc as i16 + offset as i16) as u16;
                }
            },
            _ => {},
        }
        self.spc700 = c;
    }

    /// Pushes and pulls.
    #[verifier::rlimit(80)]
    #[verifier::spinoff_prover]
    fn exec_stack(&mut self, opcode: u8)
        requires
            opcode == old(self)@.ram[old(self).spc700.pc as int],
            is_stack_op(opcode),
            spc_step_defined(old(self).spc700, old(self)@.ram),
        ensures
            final(self).spc700 == spc_stack(old(self).spc700, old(self)@.ram, opcode).0,
            final(self)@.ram == spc_stack(old(self).spc700, old(self)@.ram, opcode).1,
            final(self).dsp == old(self).dsp,
            final(self).cycles == old(self).cycles,
            final(self).sample_counter == old(self).sample_counter,
            final(self).samples_per_update == old(self).samples_per_update,
    {
        let mut c = self.spc700;
        match opcode {
            0x2D => {
                self.ram[0x100 + c.sp as usize] = c.a;
                c.sp = c.sp.wrapping_sub(1);
                c.pc = c.pc.wrapping_add(1);
            },
            0x0D => {
                self.ram[0x100 + c.sp as usize] = c.x;
                c.sp = c.sp.wrapping_sub(1);
                c.pc = c.pc.wrapping_add(1);
            },
            0x4D => {
                self.ram[0x100 + c.sp as usize] = c.y;
                c.sp = c.sp.wrapping_sub(1);
                c.pc = c.pc.wrapping_add(1);
            },
            0x0F => {
                self.ram[0x100 + c.sp as usize] = c.get_psw();
                c.sp = c.sp.wrapping_sub(1);
                c.pc = c.pc.wrapping_add(1);
            },
            0xAE => {
                c.sp = c.sp.wrapping_add(1);
                c.a = self.ram[0x100 + c.sp as usize];
                {
                    let nz_val = c.a;
                    c.update_nz(nz_val);
                }
                c.pc = c.pc.wrapping_add(1);
            },
            0x2E => {
                c.sp = c.sp.wrapping_add(1);
                c.x = self.ram[0x100 + c.sp as usize];
                {
                    let nz_val = c.x;
                    c.update_nz(nz_val);
                }
                c.pc = c.pc.wrapping_add(1);
            },
            0x6E => {
                c.sp = c.sp.wrapping_add(1);
                c.y = self.ram[0x100 + c.sp as usize];
                {
                    let nz_val = c.y;
                    c.update_nz(nz_val);
                }
                c.pc = c.pc.wrapping_add(1);
            },
            0xCE => {
                c.sp = c.sp.wrapping_add(1);
                let psw = self.ram[0x100 + c.sp as usize];
                c.set_psw(psw);
                c.pc = c.pc.wrapping_add(1);
            },
            _ => {},
        }
        self.spc700 = c;
    }

    /// Clearing and setting one bit of a direct-page byte.
    #[verifier::rlimit(80)]
    #[verifier::spinoff_prover]
    fn exec_bit(&mut self, opcode: u8)
        requires
            opcode == old(self)@.ram[old(self).spc700.pc as int],
            is_bit_op(opcode),
            spc_step_defined(old(self).spc700, old(self)@.ram),
        ensures
            final(self).spc700 == spc_bit(old(self).spc700, old(self)@.ram, opcode).0,
            final(self)@.ram == spc_bit(old(self).spc700, old(self)@.ram, opcode).1,
            final(self).dsp == old(self).dsp,
            final(self).cycles == old(self).cycles,
            final(self).sample_counter == old(self).sample_counter,
            final(self).samples_per_update == old(self).samples_per_update,
    {
        let mut c = self.spc700;
        proof {
            lemma_u8_bounds();
        }
        match opcode {
            0x12 | 0x02 => {
                c.pc = c.pc.wrapping_add(1);
                let bit = (self.ram[c.pc as usize] >> 5u8) & 7;
                let addr = (self.ram[c.pc as usize] & 0x1F) as u16;
                let val = self.ram[addr as usize];
                if opcode == 0x12 {
                    self.ram[addr as usize] = val & !(1u8 << bit);
                } else {
                    self.ram[addr as usize] = val | (1u8 << bit);
                }
                c.pc = c.pc.wrapping_add(1);
            },
            _ => {},
        }
        self.spc700 = c;
    }

    /// Flag clears and sets, NOP and unknown opcodes.
    #[verifier::rlimit(80)]
    #[verifier::spinoff_prover]
    fn exec_flag(&mut self, opcode: u8)
        requires
            opcode == old(self)@.ram[old(self).spc700.pc as int],
            !is_transfer_op(opcode) && !is_inc_dec_op(opcode) && !is_add_sub_op(opcode) && !is_logic_op(opcode) && !is_compare_op(opcode) && !is_shift_op(opcode) && !is_jump_op(opcode) && !is_branch_op(opcode) && !is_stack_op(opcode) && !is_bit_op(opcode),
            spc_step_defined(old(self).spc700, old(self)@.ram),
        ensures
            final(self).spc700 == spc_flag(old(self).spc700, old(self)@.ram, opcode).0,
            final(self)@.ram == spc_flag(old(self).spc700, old(self)@.ram, opcode).1,
            final(self).dsp == old(self).dsp,
            final(self).cycles == old(self).cycles,
            final(self).sample_counter == old(self).sample_counter,
            final(self).samples_per_update == old(self).samples_per_update,
    {
        let mut c = self.spc700;
        match opcode {
            0xEA => {
                c.pc = c.pc.wrapping_add(1);
            },
            0x60 => {
                c.c = false;
                c.pc = c.pc.wrapping_add(1);
            },
            0x20 => {
                c.d = false;
                c.pc = c.pc.wrapping_add(1);
            },
            0x40 => {
                c.i = false;
                c.pc = c.pc.wrapping_add(1);
            },
            0xED => {
                c.v = false;
                c.pc = c.pc.wrapping_add(1);
            },
            0x80 => {
                c.c = true;
                c.pc = c.pc.wrapping_add(1);
            },
            0xA0 => {
                c.d = true;
                c.pc = c.pc.wrapping_add(1);
            },
            0xC0 => {
                c.i = true;
                c.pc = c.pc.wrapping_add(1);
            },
            _ => {
                c.pc = c.pc.wrapping_add(1);
            },
        }
        self.spc700 = c;
    }
}

} // verus!
