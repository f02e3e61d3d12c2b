//! Texture coordinates, derived from where a vertex lies on the map.

use vstd::prelude::*;
use vstd::math::abs;
use crate::fraction::{Fraction, Ratio};
use crate::point::Position;

verus! {

/// The model of a [`Uv2`]: two ratios.
pub struct TexCoord {
    pub u: Ratio,
    pub v: Ratio,
}

/// A texture coordinate as two exact fractions. For a vertex inside the
/// square that the map parameters describe both lie between 0 and 1; for a
/// vertex outside they fall outside too, and are not clamped.
#[derive(Clone, Copy, Debug, PartialEq, Eq, Structural)]
pub struct Uv2 {
    pub u: Fraction,
    pub v: Fraction,
}

impl View for Uv2 {
    type V = TexCoord;

    open spec fn view(&self) -> TexCoord {
        TexCoord { u: self.u@, v: self.v@ }
    }
}

impl DeepView for Uv2 {
    type V = TexCoord;

    open spec fn deep_view(&self) -> TexCoord {
        self@
    }
}

/// The texture coordinate of the map coordinate `c`, as a ratio:
/// `(c + |min_x|) / map_side_len`.
pub open spec fn uv_ratio(c: int, map_side_len: int, min_x: int) -> Ratio {
    Ratio { num: c + abs(min_x), den: map_side_len }
}

/// The texture coordinate of a vertex at `p`. The axes are swapped on
/// purpose: `u` follows `z` and `v` follows `x`.
pub open spec fn uv_at(p: Position, map_side_len: int, min_x: int) -> TexCoord {
    TexCoord {
        u: uv_ratio(p.z, map_side_len, min_x),
        v: uv_ratio(p.x, map_side_len, min_x),
    }
}

/// The texture coordinate of one map coordinate: `(c + |min_x|) / map_side_len`,
/// not reduced. With `map_side_len` zero the fraction has no value.
pub fn uv_calculate(c: i32, map_side_len: i32, min_x: i32) -> (r: Fraction)
    ensures
        r@ == uv_ratio(c as int, map_side_len as int, min_x as int),
        r@.value() == (c as real + abs(min_x as int) as real) / (map_side_len as real),
{
    let offset: i64 = if min_x < 0 {
        -(min_x as i64)
    } else {
        min_x as i64
    };
    Fraction { num: c as i64 + offset, den: map_side_len as i64 }
}

/// The texture coordinate of a vertex at `x` and `z`.
pub fn get_uv(x: i32, z: i32, map_side_len: i32, min_x: i32) -> (uv: Uv2)
    ensures
        uv@.u == uv_ratio(z as int, map_side_len as int, min_x as int),
        uv@.v == uv_ratio(x as int, map_side_len as int, min_x as int),
{
    Uv2 { u: uv_calculate(z, map_side_len, min_x), v: uv_calculate(x, map_side_len, min_x) }
}

/// The value of a texture coordinate is the real number
/// `(c + |min_x|) / map_side_len`.
pub proof fn lemma_uv_value(c: int, map_side_len: int, min_x: int)
    ensures
        uv_ratio(c, map_side_len, min_x).value() == (c as real + abs(min_x) as real) / (
        map_side_len as real),
{
}

/// Where `min_x` is the least coordinate of the map, so not above zero, a
/// coordinate inside the map's span has a texture coordinate between 0 and 1.
pub proof fn lemma_uv_within_unit_range(c: int, map_side_len: int, min_x: int)
    requires
        map_side_len > 0,
        min_x <= 0,
        min_x <= c <= min_x + map_side_len,
    ensures
        0 as real <= uv_ratio(c, map_side_len, min_x).value() <= 1 as real,
{
    lemma_quotient_within_unit(c + abs(min_x), map_side_len);
}

/// Texture coordinates do not depend on the length of the grid unit: with
/// every length counted in units `k` times finer, the value is the same.
pub proof fn lemma_uv_scale_invariant(c: int, map_side_len: int, min_x: int, k: int)
    requires
        map_side_len != 0,
        k > 0,
    ensures
        uv_ratio(k * c, k * map_side_len, k * min_x).value() == uv_ratio(
            c,
            map_side_len,
            min_x,
        ).value(),
{
    assert(abs(k * min_x) == k * abs(min_x)) by (nonlinear_arith)
        requires
            k > 0,
    ;
    assert(k * c + k * abs(min_x) == k * (c + abs(min_x))) by (nonlinear_arith);
    lemma_quotient_scaled(c + abs(min_x), map_side_len, k);
}

proof fn lemma_quotient_within_unit(n: int, d: int)
    by (nonlinear_arith)
    requires
        d > 0,
        0 <= n <= d,
    ensures
        0 as real <= n as real / d as real <= 1 as real,
{
}

proof fn lemma_quotient_scaled(n: int, d: int, k: int)
    by (nonlinear_arith)
    requires
        d != 0,
        k != 0,
    ensures
        (k * n) as real / (k * d) as real == n as real / d as real,
{
}

} // verus!
