//! Colours in the perceptual working space: a lightness, two chroma axes and
//! an opacity, each in whole millionths. Gradients are blended here, and the
//! default background of a stop is derived here.

use vstd::prelude::*;
use vstd::arithmetic::div_mod::lemma_fundamental_div_mod_converse;
use crate::level::{Level, FULL};

verus! {

/// One whole, in the millionths that every channel is counted in.
pub const UNIT: i32 = 1_000_000;

/// The mathematical value of a colour: its four channels as integers.
pub struct ColorValue {
    pub l: int,
    pub a: int,
    pub b: int,
    pub alpha: int,
}

/// `x`, moved into `lo ..= hi` where it lies outside.
pub open spec fn clamp(x: int, lo: int, hi: int) -> int {
    if x < lo {
        lo
    } else if x > hi {
        hi
    } else {
        x
    }
}

/// The point that lies `gone` parts of `span` of the way from `from` to
/// `to`, rounded down: one division, so the result is less than one below the
/// exact point.
pub open spec fn interpolate(from: int, to: int, gone: int, span: int) -> int {
    from + ((to - from) * gone) / span
}

/// The colour that lies `gone` parts of `span` of the way from one colour to
/// another, channel by channel.
pub open spec fn blend(from: ColorValue, to: ColorValue, gone: int, span: int) -> ColorValue {
    ColorValue {
        l: interpolate(from.l, to.l, gone, span),
        a: interpolate(from.a, to.a, gone, span),
        b: interpolate(from.b, to.b, gone, span),
        alpha: interpolate(from.alpha, to.alpha, gone, span),
    }
}

/// The channel-wise blend of two colours by `factor` millionths.
pub open spec fn mix(from: ColorValue, to: ColorValue, factor: int) -> ColorValue {
    blend(from, to, factor, FULL as int)
}

/// The colour with half the lightness: what lies above black is halved, and
/// the result is kept between black and white. Chroma and opacity stay.
pub open spec fn darken(c: ColorValue) -> ColorValue {
    ColorValue {
        l: clamp(c.l - (if c.l > 0 { c.l } else { 0 }) / 2, 0, UNIT as int),
        a: c.a,
        b: c.b,
        alpha: c.alpha,
    }
}

/// The four bytes of an ARGB8888 pixel as they lie in memory.
pub open spec fn argb_bytes(red: u8, green: u8, blue: u8, alpha: u8) -> Seq<u8> {
    seq![blue, green, red, alpha]
}

/// An interpolated channel never leaves the interval between its two ends,
/// is the one end where nothing of the way is gone and the other where all of
/// it is, and lies less than one millionth below the exact point of the
/// straight line.
pub proof fn lemma_interpolate(from: int, to: int, gone: int, span: int)
    requires
        0 <= gone <= span,
        0 < span,
    ensures
        from <= to ==> from <= interpolate(from, to, gone, span) <= to,
        to <= from ==> to <= interpolate(from, to, gone, span) <= from,
        gone == 0 ==> interpolate(from, to, gone, span) == from,
        gone == span ==> interpolate(from, to, gone, span) == to,
        span * interpolate(from, to, gone, span) <= span * from + (to - from) * gone < span * (
        interpolate(from, to, gone, span) + 1),
{
    let d = to - from;
    let p = d * gone;
    let q = p / span;
    let r = p % span;
    assert(p == span * q + r && 0 <= r < span) by (nonlinear_arith)
        requires
            span > 0,
            q == p / span,
            r == p % span,
    ;
    assert(span * (from + q) == span * from + span * q && span * (from + q + 1) == span * from
        + span * q + span) by (nonlinear_arith);
    if d >= 0 {
        assert(0 <= d * gone <= d * span) by (nonlinear_arith)
            requires
                d >= 0,
                0 <= gone <= span,
        ;
        assert(0 <= q <= d) by (nonlinear_arith)
            requires
                0 <= p <= d * span,
                p == span * q + r,
                0 <= r < span,
                span > 0,
        ;
    } else {
        assert(d * span <= d * gone <= 0) by (nonlinear_arith)
            requires
                d < 0,
                0 <= gone <= span,
        ;
        assert(d <= q <= 0) by (nonlinear_arith)
            requires
                d * span <= p <= 0,
                p == span * q + r,
                0 <= r < span,
                span > 0,
        ;
    }
    if gone == 0 {
        assert(d * gone == 0) by (nonlinear_arith)
            requires
                gone == 0,
        ;
        lemma_fundamental_div_mod_converse(p, span, 0, 0);
    }
    if gone == span {
        assert(d * gone == d * span + 0) by (nonlinear_arith)
            requires
                gone == span,
        ;
        lemma_fundamental_div_mod_converse(p, span, d, 0);
    }
}

/// The quotient of `a` by a positive `b`, rounded towards minus infinity.
fn floor_div(a: i128, b: i128) -> (q: i128)
    requires
        b > 0,
        a > i128::MIN + b,
    ensures
        q == a / b,
{
    if a >= 0 {
        a / b
    } else {
        let n: i128 = -a;
        let up: i128 = (n - 1) / b + 1;
        proof {
            let k = (n - 1) / (b as int);
            let s = (n - 1) % (b as int);
            assert(n - 1 == k * b + s && 0 <= s < b) by (nonlinear_arith)
                requires
                    b > 0,
                    n >= 1,
                    k == (n - 1) / (b as int),
                    s == (n - 1) % (b as int),
            ;
            assert(a == (-(k + 1)) * b + (b - 1 - s)) by (nonlinear_arith)
                requires
                    n - 1 == k * b + s,
                    a == -n,
            ;
            lemma_fundamental_div_mod_converse(a as int, b as int, -(k + 1), b - 1 - s);
        }
        -up
    }
}

/// One channel of a blend.
fn interpolate_channel(from: i32, to: i32, gone: u32, span: u32) -> (r: i32)
    requires
        gone <= span,
        0 < span,
    ensures
        r == interpolate(from as int, to as int, gone as int, span as int),
{
    let d: i128 = to as i128 - from as i128;
    assert(-0x1_0000_0000 * 0x1_0000_0000 <= d * gone <= 0x1_0000_0000 * 0x1_0000_0000)
        by (nonlinear_arith)
        requires
            -0x1_0000_0000 <= d <= 0x1_0000_0000,
            0 <= gone <= 0x1_0000_0000,
    ;
    let q: i128 = floor_div(d * (gone as i128), span as i128);
    proof {
        lemma_interpolate(from as int, to as int, gone as int, span as int);
    }
    (from as i128 + q) as i32
}

/// A colour of the working space.
#[derive(Copy, Clone, Debug, PartialEq, Eq, Structural)]
pub struct Color {
    pub(crate) l: i32,
    pub(crate) a: i32,
    pub(crate) b: i32,
    pub(crate) alpha: i32,
}

impl View for Color {
    type V = ColorValue;

    open(crate) spec fn view(&self) -> ColorValue {
        ColorValue {
            l: self.l as int,
            a: self.a as int,
            b: self.b as int,
            alpha: self.alpha as int,
        }
    }
}

impl Color {
    /// The opacity of every colour lies between transparent and opaque.
    #[verifier::type_invariant]
    pub open(crate) spec fn wf(self) -> bool {
        0 <= self.alpha <= UNIT
    }

    /// The colour with these channels; an opacity outside `0 ..= UNIT` is
    /// moved to the nearer end.
    pub fn new(l: i32, a: i32, b: i32, alpha: i32) -> (c: Color)
        ensures
            c@ == (ColorValue { l: l as int, a: a as int, b: b as int, alpha: clamp(alpha as int, 0, UNIT as int) }),
    {
        let alpha: i32 = if alpha < 0 {
            0
        } else if alpha > UNIT {
            UNIT
        } else {
            alpha
        };
        Color { l, a, b, alpha }
    }

    /// The lightness, in millionths.
    pub fn lightness(&self) -> (v: i32)
        ensures
            v == self@.l,
    {
        self.l
    }

    /// The green-red axis, in millionths.
    pub fn a(&self) -> (v: i32)
        ensures
            v == self@.a,
    {
        self.a
    }

    /// The blue-yellow axis, in millionths.
    pub fn b(&self) -> (v: i32)
        ensures
            v == self@.b,
    {
        self.b
    }

    /// The opacity, in millionths.
    pub fn alpha(&self) -> (v: i32)
        ensures
            v == self@.alpha,
            0 <= v <= UNIT,
    {
        proof {
            use_type_invariant(self);
        }
        self.alpha
    }

    /// The colour that lies `gone` parts of `span` of the way from this
    /// colour to `other`. The parts are not more than the span, and the span
    /// is not nought.
    pub fn blend(&self, other: &Color, gone: u32, span: u32) -> (c: Color)
        requires
            gone <= span,
            0 < span,
        ensures
            c@ == blend(self@, other@, gone as int, span as int),
    {
        proof {
            use_type_invariant(self);
            use_type_invariant(other);
            lemma_interpolate(self.alpha as int, other.alpha as int, gone as int, span as int);
        }
        Color {
            l: interpolate_channel(self.l, other.l, gone, span),
            a: interpolate_channel(self.a, other.a, gone, span),
            b: interpolate_channel(self.b, other.b, gone, span),
            alpha: interpolate_channel(self.alpha, other.alpha, gone, span),
        }
    }

    /// The blend that lies `factor` of the way from this colour to `other`.
    pub fn mix(&self, other: &Color, factor: Level) -> (c: Color)
        ensures
            c@ == mix(self@, other@, factor@),
    {
        self.blend(other, factor.millionths(), FULL)
    }

    /// This colour at half its lightness.
    pub fn darken(&self) -> (c: Color)
        ensures
            c@ == darken(self@),
    {
        proof {
            use_type_invariant(self);
        }
        let l: i32 = if self.l <= 0 {
            0
        } else if self.l - self.l / 2 > UNIT {
            UNIT
        } else {
            self.l - self.l / 2
        };
        Color { l, a: self.a, b: self.b, alpha: self.alpha }
    }
}

/// `palette`'s `Rgba::into_u32` in its `Argb` channel order: the four bytes
/// become one word with the opacity in the highest byte, then red, then green,
/// and blue in the lowest.
#[verifier::external_body]
fn argb_word(red: u8, green: u8, blue: u8, alpha: u8) -> (word: u32)
    ensures
        word == alpha * 0x100_0000 + red * 0x1_0000 + green * 0x100 + blue,
{
    palette::Srgba::<u8>::new(red, green, blue, alpha).into_u32::<palette::rgb::channels::Argb>()
}

/// The ARGB8888 pixel of these four channels, in the little-endian byte order
/// in which it is written to a buffer.
pub fn pack_argb(red: u8, green: u8, blue: u8, alpha: u8) -> (pixel: [u8; 4])
    ensures
        pixel@ == argb_bytes(red, green, blue, alpha),
{
    let word: u32 = argb_word(red, green, blue, alpha);
    proof {
        let top = alpha * 0x1_0000 + red * 0x100 + green;
        let upper = alpha * 0x100 + red;
        lemma_fundamental_div_mod_converse(word as int, 0x100, top, blue as int);
        lemma_fundamental_div_mod_converse(top, 0x100, upper, green as int);
        lemma_fundamental_div_mod_converse(upper, 0x100, alpha as int, red as int);
        assert(word / 0x1_0000 == word / 0x100 / 0x100 && word / 0x100_0000 == word / 0x100 / 0x100
            / 0x100) by (bit_vector);
    }
    let pixel: [u8; 4] = [
        (word % 0x100) as u8,
        (word / 0x100 % 0x100) as u8,
        (word / 0x1_0000 % 0x100) as u8,
        (word / 0x100_0000) as u8,
    ];
    assert(pixel@ =~= argb_bytes(red, green, blue, alpha));
    pixel
}

} // verus!
