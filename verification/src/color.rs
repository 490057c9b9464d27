//! Color encoding: linear RGB scalars quantized into 8-bit channels, with
//! square-root gamma correction for image output.

use vstd::prelude::*;
use crate::fx::Fx;
use crate::fx::SCALE;
use crate::fx::s_mul;
use crate::fx::s_sqrt;
use crate::fx::fx_mul;
use crate::fx::fx_sqrt;
use crate::vector3::Vector3;

verus! {

pub type Color = Vector3;

/// The channel scale `255.999` in fixed-point bits.
pub const CHANNEL_SCALE_BITS: i64 = 16777150;

/// An 8-bit RGB triple, the quantized form of a linear color.
#[derive(Clone, Copy, PartialEq, Eq, Structural, Debug)]
pub struct Rgb {
    pub r: u8,
    pub g: u8,
    pub b: u8,
}

/// A channel scaled by `255.999`, clamped into `[0, 255]` and truncated.
pub open spec fn spec_quantize_channel(c: Fx) -> u8 {
    let scaled = s_mul(c, Fx { bits: CHANNEL_SCALE_BITS });
    if scaled.bits < 0 {
        0
    } else if scaled.bits > 255 * SCALE {
        255
    } else {
        (scaled.bits / SCALE) as u8
    }
}

pub fn quantize_channel(c: Fx) -> (r: u8)
    ensures
        r == spec_quantize_channel(c),
{
    let scaled = fx_mul(c, Fx { bits: CHANNEL_SCALE_BITS });
    if scaled.bits < 0 {
        0
    } else if scaled.bits > 255 * SCALE {
        255
    } else {
        proof {
            vstd::arithmetic::div_mod::lemma_div_is_ordered(
                scaled.bits as int,
                255 * SCALE,
                SCALE as int,
            );
            vstd::arithmetic::div_mod::lemma_div_pos_is_pos(scaled.bits as int, SCALE as int);
        }
        ((scaled.bits as u64) / (SCALE as u64)) as u8
    }
}

/// Gamma-corrected quantization of a channel: square root, then byte scale.
pub open spec fn spec_gamma_channel(c: Fx) -> u8 {
    spec_quantize_channel(s_sqrt(c))
}

/// The 8-bit pixel for a linear color, gamma-corrected by square root.
pub fn get_rgb(color: &Color) -> (rgb: Rgb)
    ensures
        rgb.r == spec_gamma_channel(color.x),
        rgb.g == spec_gamma_channel(color.y),
        rgb.b == spec_gamma_channel(color.z),
{
    Rgb {
        r: quantize_channel(fx_sqrt(color.x)),
        g: quantize_channel(fx_sqrt(color.y)),
        b: quantize_channel(fx_sqrt(color.z)),
    }
}

/// The decimal digit character for `d`.
pub open spec fn spec_digit(d: int) -> char {
    if d == 0 {
        '0'
    } else if d == 1 {
        '1'
    } else if d == 2 {
        '2'
    } else if d == 3 {
        '3'
    } else if d == 4 {
        '4'
    } else if d == 5 {
        '5'
    } else if d == 6 {
        '6'
    } else if d == 7 {
        '7'
    } else if d == 8 {
        '8'
    } else {
        '9'
    }
}

/// The decimal numeral of a byte, most significant digit first.
pub open spec fn spec_decimal(n: int) -> Seq<char> {
    if n < 10 {
        seq![spec_digit(n)]
    } else if n < 100 {
        seq![spec_digit(n / 10), spec_digit(n % 10)]
    } else {
        seq![spec_digit(n / 100), spec_digit((n / 10) % 10), spec_digit(n % 10)]
    }
}

fn push_digit(s: &mut String, d: u8)
    requires
        d < 10,
    ensures
        final(s)@ == old(s)@ + seq![spec_digit(d as int)],
{
    proof {
        reveal_strlit("0");
        reveal_strlit("1");
        reveal_strlit("2");
        reveal_strlit("3");
        reveal_strlit("4");
        reveal_strlit("5");
        reveal_strlit("6");
        reveal_strlit("7");
        reveal_strlit("8");
        reveal_strlit("9");
    }
    let ds: &str = match d {
        0 => "0",
        1 => "1",
        2 => "2",
        3 => "3",
        4 => "4",
        5 => "5",
        6 => "6",
        7 => "7",
        8 => "8",
        _ => "9",
    };
    s.append(ds);
    proof {
        assert(final(s)@ =~= old(s)@ + seq![spec_digit(d as int)]);
    }
}

fn push_decimal(s: &mut String, n: u8)
    ensures
        final(s)@ == old(s)@ + spec_decimal(n as int),
{
    if n < 10 {
        push_digit(s, n);
    } else if n < 100 {
        push_digit(s, n / 10);
        push_digit(s, n % 10);
        proof {
            assert(final(s)@ =~= old(s)@ + spec_decimal(n as int));
        }
    } else {
        push_digit(s, n / 100);
        push_digit(s, (n / 10) % 10);
        push_digit(s, n % 10);
        proof {
            assert(final(s)@ =~= old(s)@ + spec_decimal(n as int));
        }
    }
}

/// The text line for a quantized color: the three channel numerals separated
/// by spaces, ending in a newline.
pub open spec fn spec_color_line(c: Color) -> Seq<char> {
    spec_decimal(spec_quantize_channel(c.x) as int) + seq![' ']
        + spec_decimal(spec_quantize_channel(c.y) as int) + seq![' ']
        + spec_decimal(spec_quantize_channel(c.z) as int) + seq!['\n']
}

/// Render a color as its quantized text line.
pub fn write_color(color: &Color) -> (s: String)
    ensures
        s@ == spec_color_line(*color),
{
    proof {
        reveal_strlit(" ");
        reveal_strlit("\n");
    }
    let mut s = String::new();
    push_decimal(&mut s, quantize_channel(color.x));
    s.append(" ");
    push_decimal(&mut s, quantize_channel(color.y));
    s.append(" ");
    push_decimal(&mut s, quantize_channel(color.z));
    s.append("\n");
    proof {
        assert(s@ =~= spec_color_line(*color));
    }
    s
}

} // verus!
