use vstd::prelude::*;
use vstd::arithmetic::div_mod::{lemma_div_by_multiple, lemma_div_is_ordered, lemma_div_pos_is_pos};

verus! {

/// Full intensity of an 8-bit channel.
pub const MAX_CHANNEL8: i64 = 255;

/// Full intensity of a 16-bit channel. The host defines full white as 32768,
/// not the naive 65535; this constant must match the host's documented value.
pub const MAX_CHANNEL16: i64 = 32_768;

/// Canonical units per 8-bit step: `CANON_ONE / 255`.
pub const UNITS_PER_8: i64 = 4_096_000;

/// Canonical units per 16-bit step: `CANON_ONE / 32768`.
pub const UNITS_PER_16: i64 = 31_875;

/// Canonical units per hundredth of a percent: `CANON_ONE / 10000`.
pub const UNITS_PER_CENTIPERCENT: i64 = 104_448;

/// Full intensity in the canonical color space. All adjustments are computed
/// in this space. The value is the least common multiple of 255 (8-bit full
/// white), 32768 (16-bit full white) and 10000 (hundredths of a percent), so
/// every fixed-point channel and every slider amount is represented exactly.
pub const CANON_ONE: i64 = 1_044_480_000;

/// An 8-bit pixel: four channels, each in [0, 255].
#[derive(Clone, Copy, Debug, PartialEq, Eq, Structural)]
pub struct Pixel8 {
    pub red: u8,
    pub green: u8,
    pub blue: u8,
    pub alpha: u8,
}

/// A 16-bit pixel: four channels, each in [0, `MAX_CHANNEL16`] when valid.
#[derive(Clone, Copy, Debug, PartialEq, Eq, Structural)]
pub struct Pixel16 {
    pub red: u16,
    pub green: u16,
    pub blue: u16,
    pub alpha: u16,
}

/// A pixel in the canonical color space: four channels in canonical units,
/// where `CANON_ONE` units are full intensity. A channel stands for the
/// host's 32-bit float value times `CANON_ONE`; since `CANON_ONE` is a
/// common multiple of every scale in play, the conversions and the
/// adjustment are exact on this representation. The nominal range is
/// [0, `CANON_ONE`], but a channel is not invariantly clamped: it may exceed
/// the range transiently and is clamped on conversion to fixed point.
#[derive(Clone, Copy, Debug, PartialEq, Eq, Structural)]
pub struct PixelF32 {
    pub red: i64,
    pub green: i64,
    pub blue: i64,
    pub alpha: i64,
}

/// A 16-bit pixel is valid when every channel is at most full white.
pub open spec fn pixel16_valid(p: Pixel16) -> bool {
    p.red <= MAX_CHANNEL16 && p.green <= MAX_CHANNEL16 && p.blue <= MAX_CHANNEL16
        && p.alpha <= MAX_CHANNEL16
}

/// Clamp a canonical channel to the nominal range [0, `CANON_ONE`].
pub open spec fn clamp_canon(v: int) -> int {
    if v < 0 {
        0
    } else if v > CANON_ONE {
        CANON_ONE as int
    } else {
        v
    }
}

/// Canonical value of an 8-bit channel: `c / 255` of full intensity, exactly.
pub open spec fn canon_of_8(c: u8) -> int {
    c * UNITS_PER_8
}

/// Canonical value of a 16-bit channel: `c / 32768` of full intensity, exactly.
pub open spec fn canon_of_16(c: u16) -> int {
    c * UNITS_PER_16
}

/// 8-bit value of a canonical channel: clamp to nominal range, scale by 255,
/// truncate.
pub open spec fn canon_to_8(v: int) -> int {
    clamp_canon(v) * MAX_CHANNEL8 / (CANON_ONE as int)
}

/// 16-bit value of a canonical channel: clamp to nominal range, scale by the
/// host's full white, truncate.
pub open spec fn canon_to_16(v: int) -> int {
    clamp_canon(v) * MAX_CHANNEL16 / (CANON_ONE as int)
}

/// One adjusted canonical channel: add `amount` hundredths of a percent of
/// full intensity, then clamp to the nominal range — in that order.
pub open spec fn adjust_canon(v: int, amount: int) -> int {
    clamp_canon(v + amount * UNITS_PER_CENTIPERCENT)
}

/// The canonical pixel an 8-bit pixel converts to.
pub open spec fn pixel8_to_canon(p: Pixel8) -> PixelF32 {
    PixelF32 {
        red: canon_of_8(p.red) as i64,
        green: canon_of_8(p.green) as i64,
        blue: canon_of_8(p.blue) as i64,
        alpha: canon_of_8(p.alpha) as i64,
    }
}

/// The canonical pixel a 16-bit pixel converts to.
pub open spec fn pixel16_to_canon(p: Pixel16) -> PixelF32 {
    PixelF32 {
        red: canon_of_16(p.red) as i64,
        green: canon_of_16(p.green) as i64,
        blue: canon_of_16(p.blue) as i64,
        alpha: canon_of_16(p.alpha) as i64,
    }
}

/// The 8-bit pixel a canonical pixel converts to.
pub open spec fn canon_to_pixel8(p: PixelF32) -> Pixel8 {
    Pixel8 {
        red: canon_to_8(p.red as int) as u8,
        green: canon_to_8(p.green as int) as u8,
        blue: canon_to_8(p.blue as int) as u8,
        alpha: canon_to_8(p.alpha as int) as u8,
    }
}

/// The 16-bit pixel a canonical pixel converts to.
pub open spec fn canon_to_pixel16(p: PixelF32) -> Pixel16 {
    Pixel16 {
        red: canon_to_16(p.red as int) as u16,
        green: canon_to_16(p.green as int) as u16,
        blue: canon_to_16(p.blue as int) as u16,
        alpha: canon_to_16(p.alpha as int) as u16,
    }
}

/// The adjusted canonical pixel: red, green and blue are lifted and clamped,
/// alpha is passed through unchanged.
pub open spec fn adjust_pixel(p: PixelF32, amount: int) -> PixelF32 {
    PixelF32 {
        red: adjust_canon(p.red as int, amount) as i64,
        green: adjust_canon(p.green as int, amount) as i64,
        blue: adjust_canon(p.blue as int, amount) as i64,
        alpha: p.alpha,
    }
}

/// Truncating conversion of one canonical channel to 8 bits.
fn channel_to_8(v: i64) -> (r: u8)
    ensures
        r == canon_to_8(v as int),
{
    let c: i64 = if v < 0 {
        0
    } else if v > CANON_ONE {
        CANON_ONE
    } else {
        v
    };
    let q: i64 = (c * MAX_CHANNEL8) / CANON_ONE;
    proof {
        lemma_div_pos_is_pos(c * MAX_CHANNEL8, CANON_ONE as int);
        lemma_div_is_ordered(c * MAX_CHANNEL8, (CANON_ONE * MAX_CHANNEL8) as int, CANON_ONE as int);
        lemma_div_by_multiple(MAX_CHANNEL8 as int, CANON_ONE as int);
    }
    q as u8
}

/// Truncating conversion of one canonical channel to 16 bits.
fn channel_to_16(v: i64) -> (r: u16)
    ensures
        r == canon_to_16(v as int),
{
    let c: i64 = if v < 0 {
        0
    } else if v > CANON_ONE {
        CANON_ONE
    } else {
        v
    };
    let q: i64 = (c * MAX_CHANNEL16) / CANON_ONE;
    proof {
        lemma_div_pos_is_pos(c * MAX_CHANNEL16, CANON_ONE as int);
        lemma_div_is_ordered(
            c * MAX_CHANNEL16,
            (CANON_ONE * MAX_CHANNEL16) as int,
            CANON_ONE as int,
        );
        lemma_div_by_multiple(MAX_CHANNEL16 as int, CANON_ONE as int);
    }
    q as u16
}

/// One adjusted canonical channel: add, then clamp.
fn adjust_channel(v: i64, amount: i64) -> (r: i64)
    ensures
        r == adjust_canon(v as int, amount as int),
{
    let a: i128 = amount as i128;
    proof {
        assert(-9_223_372_036_854_775_808i128 * 104_448i128 <= a * 104_448i128
            <= 9_223_372_036_854_775_807i128 * 104_448i128) by (nonlinear_arith)
            requires
                -9_223_372_036_854_775_808i128 <= a <= 9_223_372_036_854_775_807i128,
        ;
    }
    let s: i128 = v as i128 + a * 104_448i128;
    let c: i128 = if s < 0 {
        0
    } else if s > CANON_ONE as i128 {
        CANON_ONE as i128
    } else {
        s
    };
    c as i64
}

impl Pixel8 {
    /// Convert to the canonical color space: each channel divided by 255,
    /// exactly.
    pub fn to_pixel32(&self) -> (r: PixelF32)
        ensures
            r == pixel8_to_canon(*self),
    {
        PixelF32 {
            red: self.red as i64 * UNITS_PER_8,
            green: self.green as i64 * UNITS_PER_8,
            blue: self.blue as i64 * UNITS_PER_8,
            alpha: self.alpha as i64 * UNITS_PER_8,
        }
    }

    /// Convert to 16 bits, routed through the canonical color space; there is
    /// no direct 8-to-16 path.
    pub fn to_pixel16(&self) -> (r: Pixel16)
        ensures
            r == canon_to_pixel16(pixel8_to_canon(*self)),
    {
        self.to_pixel32().to_pixel16()
    }

    /// Identity conversion.
    pub fn to_pixel8(&self) -> (r: Pixel8)
        ensures
            r == *self,
    {
        *self
    }
}

impl Pixel16 {
    /// Convert to the canonical color space: each channel divided by the
    /// host's full white, exactly.
    pub fn to_pixel32(&self) -> (r: PixelF32)
        ensures
            r == pixel16_to_canon(*self),
    {
        PixelF32 {
            red: self.red as i64 * UNITS_PER_16,
            green: self.green as i64 * UNITS_PER_16,
            blue: self.blue as i64 * UNITS_PER_16,
            alpha: self.alpha as i64 * UNITS_PER_16,
        }
    }

    /// Identity conversion.
    pub fn to_pixel16(&self) -> (r: Pixel16)
        ensures
            r == *self,
    {
        *self
    }

    /// Convert to 8 bits, routed through the canonical color space; there is
    /// no direct 16-to-8 path.
    pub fn to_pixel8(&self) -> (r: Pixel8)
        ensures
            r == canon_to_pixel8(pixel16_to_canon(*self)),
    {
        self.to_pixel32().to_pixel8()
    }
}

impl PixelF32 {
    /// Identity conversion: the value is returned unchanged, with no clamping.
    pub fn to_pixel32(&self) -> (r: PixelF32)
        ensures
            r == *self,
    {
        *self
    }

    /// Convert to 16 bits: clamp each channel to the nominal range, scale by
    /// the host's full white, truncate.
    pub fn to_pixel16(&self) -> (r: Pixel16)
        ensures
            r == canon_to_pixel16(*self),
    {
        Pixel16 {
            red: channel_to_16(self.red),
            green: channel_to_16(self.green),
            blue: channel_to_16(self.blue),
            alpha: channel_to_16(self.alpha),
        }
    }

    /// Convert to 8 bits: clamp each channel to the nominal range, scale by
    /// 255, truncate.
    pub fn to_pixel8(&self) -> (r: Pixel8)
        ensures
            r == canon_to_pixel8(*self),
    {
        Pixel8 {
            red: channel_to_8(self.red),
            green: channel_to_8(self.green),
            blue: channel_to_8(self.blue),
            alpha: channel_to_8(self.alpha),
        }
    }

    /// The adjustment operator: lift red, green and blue by `amount`
    /// hundredths of a percent of full intensity and clamp each to the
    /// nominal range — addition first, clamping second. Alpha is passed
    /// through unchanged, for every pixel and every amount.
    pub fn add(&self, amount: i64) -> (r: PixelF32)
        ensures
            r == adjust_pixel(*self, amount as int),
            r.alpha == self.alpha,
            0 <= r.red <= CANON_ONE,
            0 <= r.green <= CANON_ONE,
            0 <= r.blue <= CANON_ONE,
    {
        PixelF32 {
            red: adjust_channel(self.red, amount),
            green: adjust_channel(self.green, amount),
            blue: adjust_channel(self.blue, amount),
            alpha: self.alpha,
        }
    }
}

proof fn lemma_channel_roundtrip_8(c: u8)
    ensures
        canon_to_8(canon_of_8(c)) == c,
{
    assert(clamp_canon(canon_of_8(c)) == c * 4_096_000);
    assert(c * 4_096_000 * 255 == c * 1_044_480_000) by (nonlinear_arith);
    lemma_div_by_multiple(c as int, 1_044_480_000);
}

proof fn lemma_channel_roundtrip_16(c: u16)
    requires
        c <= MAX_CHANNEL16,
    ensures
        canon_to_16(canon_of_16(c)) == c,
{
    assert(clamp_canon(canon_of_16(c)) == c * 31_875);
    assert(c * 31_875 * 32_768 == c * 1_044_480_000) by (nonlinear_arith);
    lemma_div_by_multiple(c as int, 1_044_480_000);
}

/// Law: converting any 8-bit pixel to the canonical color space and back is
/// lossless — the round trip is the identity.
pub proof fn lemma_pixel8_roundtrip(p: Pixel8)
    ensures
        canon_to_pixel8(pixel8_to_canon(p)) == p,
{
    lemma_channel_roundtrip_8(p.red);
    lemma_channel_roundtrip_8(p.green);
    lemma_channel_roundtrip_8(p.blue);
    lemma_channel_roundtrip_8(p.alpha);
}

/// Law: converting any valid 16-bit pixel to the canonical color space and
/// back is lossless — the round trip is the identity.
pub proof fn lemma_pixel16_roundtrip(p: Pixel16)
    requires
        pixel16_valid(p),
    ensures
        canon_to_pixel16(pixel16_to_canon(p)) == p,
{
    lemma_channel_roundtrip_16(p.red);
    lemma_channel_roundtrip_16(p.green);
    lemma_channel_roundtrip_16(p.blue);
    lemma_channel_roundtrip_16(p.alpha);
}

/// Law: routing an 8-bit channel through the canonical color space to 16
/// bits gives the same relative brightness as scaling directly by the 16-bit
/// full-white constant — there is no separate direct path to diverge from.
pub proof fn lemma_cross_encoding_consistent(c: u8)
    ensures
        canon_to_16(canon_of_8(c)) == c * MAX_CHANNEL16 / (MAX_CHANNEL8 as int),
{
    assert(clamp_canon(canon_of_8(c)) == c * 4_096_000);
    assert(c * 4_096_000 * 32_768 == 4_096_000 * (c * 32_768)) by (nonlinear_arith);
    vstd::arithmetic::div_mod::lemma_div_multiples_vanish_quotient(
        4_096_000,
        c * 32_768,
        255,
    );
    assert(4_096_000 * 255 == 1_044_480_000) by (nonlinear_arith);
}

/// Law: the adjusted alpha channel equals the original alpha channel, for
/// every pixel and every amount.
pub proof fn lemma_adjust_alpha_invariant(p: PixelF32, amount: int)
    ensures
        adjust_pixel(p, amount).alpha == p.alpha,
{
}

/// Law: an adjusted color channel never leaves the nominal range, whatever
/// the input channel and the amount; in particular it is never below zero.
pub proof fn lemma_adjust_in_range(p: PixelF32, amount: int)
    ensures
        0 <= adjust_pixel(p, amount).red <= CANON_ONE,
        0 <= adjust_pixel(p, amount).green <= CANON_ONE,
        0 <= adjust_pixel(p, amount).blue <= CANON_ONE,
{
}

/// Law: a full-strength lift (one hundred percent) saturates any
/// nonnegative color channel to full intensity.
pub proof fn lemma_adjust_saturates(p: PixelF32)
    ensures
        p.red >= 0 ==> adjust_pixel(p, 10_000).red == CANON_ONE,
        p.green >= 0 ==> adjust_pixel(p, 10_000).green == CANON_ONE,
        p.blue >= 0 ==> adjust_pixel(p, 10_000).blue == CANON_ONE,
{
}

/// Law: a full-strength negative lift (minus one hundred percent) drives any
/// color channel in the nominal range down to zero.
pub proof fn lemma_adjust_drains(p: PixelF32)
    ensures
        p.red <= CANON_ONE ==> adjust_pixel(p, -10_000).red == 0,
        p.green <= CANON_ONE ==> adjust_pixel(p, -10_000).green == 0,
        p.blue <= CANON_ONE ==> adjust_pixel(p, -10_000).blue == 0,
{
}

/// Law: an adjustment by zero is the identity on every pixel whose color
/// channels are already in the nominal range.
pub proof fn lemma_adjust_identity(p: PixelF32)
    requires
        0 <= p.red <= CANON_ONE,
        0 <= p.green <= CANON_ONE,
        0 <= p.blue <= CANON_ONE,
    ensures
        adjust_pixel(p, 0) == p,
{
}

} // verus!
