//! Fixed-point trigonometry for camera setup: degree-to-radian conversion
//! and truncated Maclaurin series for sine, cosine and tangent. The series
//! are accurate to a few fixed-point units over the half-angles a camera
//! uses; each function's contract pins it to its defining polynomial.

use vstd::prelude::*;
use crate::fx::Fx;
use crate::fx::s_add;
use crate::fx::s_sub;
use crate::fx::s_mul;
use crate::fx::s_div;
use crate::fx::fx_add;
use crate::fx::fx_sub;
use crate::fx::fx_mul;
use crate::fx::fx_div;

verus! {

/// The circle constant in fixed-point bits.
pub const PI_BITS: i64 = 205887;

pub open spec fn spec_deg_to_rad(d: Fx) -> Fx {
    s_div(s_mul(d, Fx { bits: PI_BITS }), Fx::spec_from_int(180))
}

pub fn deg_to_rad(d: Fx) -> (r: Fx)
    ensures
        r == spec_deg_to_rad(d),
{
    fx_div(fx_mul(d, Fx { bits: PI_BITS }), Fx::from_int(180))
}

/// `x - x^3/6 + x^5/120 - x^7/5040`.
pub open spec fn spec_sin(x: Fx) -> Fx {
    let x2 = s_mul(x, x);
    let x3 = s_mul(x2, x);
    let x5 = s_mul(x3, x2);
    let x7 = s_mul(x5, x2);
    s_sub(
        s_add(s_sub(x, s_div(x3, Fx::spec_from_int(6))), s_div(x5, Fx::spec_from_int(120))),
        s_div(x7, Fx::spec_from_int(5040)),
    )
}

pub fn sin(x: Fx) -> (r: Fx)
    ensures
        r == spec_sin(x),
{
    let x2 = fx_mul(x, x);
    let x3 = fx_mul(x2, x);
    let x5 = fx_mul(x3, x2);
    let x7 = fx_mul(x5, x2);
    fx_sub(
        fx_add(fx_sub(x, fx_div(x3, Fx::from_int(6))), fx_div(x5, Fx::from_int(120))),
        fx_div(x7, Fx::from_int(5040)),
    )
}

/// `1 - x^2/2 + x^4/24 - x^6/720`.
pub open spec fn spec_cos(x: Fx) -> Fx {
    let x2 = s_mul(x, x);
    let x4 = s_mul(x2, x2);
    let x6 = s_mul(x4, x2);
    s_sub(
        s_add(
            s_sub(Fx::spec_one(), s_div(x2, Fx::spec_from_int(2))),
            s_div(x4, Fx::spec_from_int(24)),
        ),
        s_div(x6, Fx::spec_from_int(720)),
    )
}

pub fn cos(x: Fx) -> (r: Fx)
    ensures
        r == spec_cos(x),
{
    let x2 = fx_mul(x, x);
    let x4 = fx_mul(x2, x2);
    let x6 = fx_mul(x4, x2);
    fx_sub(
        fx_add(fx_sub(Fx::one(), fx_div(x2, Fx::from_int(2))), fx_div(x4, Fx::from_int(24))),
        fx_div(x6, Fx::from_int(720)),
    )
}

/// The quotient of the sine and cosine series.
pub open spec fn spec_tan(x: Fx) -> Fx {
    s_div(spec_sin(x), spec_cos(x))
}

pub fn tan(x: Fx) -> (r: Fx)
    ensures
        r == spec_tan(x),
{
    fx_div(sin(x), cos(x))
}

} // verus!
