//! Integer colour mathematics for the preview swatches: gamma-corrected
//! dimming through a fixed-point fourth root, green/magenta tinting as a
//! rational blend, and hue/saturation/intensity conversion to RGB. All of it
//! is exact integer arithmetic with the rounding the contracts state.

use vstd::prelude::*;

verus! {

/// The floor of the square root of `n`.
pub open spec fn sqrt_floor(n: nat) -> nat
    decreases n,
{
    if n == 0 {
        0
    } else {
        let r = sqrt_floor((n - 1) as nat);
        if (r + 1) * (r + 1) <= n {
            r + 1
        } else {
            r
        }
    }
}

/// `sqrt_floor` really is the floor of the square root.
pub proof fn lemma_sqrt_floor_bounds(n: nat)
    ensures
        sqrt_floor(n) * sqrt_floor(n) <= n,
        n < (sqrt_floor(n) + 1) * (sqrt_floor(n) + 1),
    decreases n,
{
    if n > 0 {
        lemma_sqrt_floor_bounds((n - 1) as nat);
        let r = sqrt_floor((n - 1) as nat);
        let s = sqrt_floor(n);
        if (r + 1) * (r + 1) <= n {
            assert(s == r + 1);
            assert(n == (r + 1) * (r + 1));
            assert((r + 1) * (r + 1) < (r + 2) * (r + 2)) by (nonlinear_arith);
            assert(s * s <= n);
            assert(n < (sqrt_floor(n) + 1) * (sqrt_floor(n) + 1));
        } else {
            assert(s == r);
            assert(s * s <= n);
            assert(n < (sqrt_floor(n) + 1) * (sqrt_floor(n) + 1));
        }
    } else {
        assert(sqrt_floor(n) == 0);
        assert((sqrt_floor(n) + 1) * (sqrt_floor(n) + 1) == 1) by (nonlinear_arith)
            requires
                sqrt_floor(n) == 0,
        ;
    }
}

/// Any value with the square-root bounds is `sqrt_floor`.
pub proof fn lemma_sqrt_floor_unique(n: nat, r: nat)
    requires
        r * r <= n,
        n < (r + 1) * (r + 1),
    ensures
        r == sqrt_floor(n),
{
    lemma_sqrt_floor_bounds(n);
    let s = sqrt_floor(n);
    if r < s {
        assert((r + 1) * (r + 1) <= s * s) by (nonlinear_arith)
            requires
                r + 1 <= s,
        ;
    }
    if s < r {
        assert((s + 1) * (s + 1) <= r * r) by (nonlinear_arith)
            requires
                s + 1 <= r,
        ;
    }
}

/// Computes the floor of the square root by binary search.
pub fn isqrt(n: u64) -> (r: u64)
    ensures
        r == sqrt_floor(n as nat),
        r <= 0x1_0000_0000u64,
{
    let mut lo: u64 = 0;
    let mut hi: u64 = 0x1_0000_0000;
    proof {
        assert((hi as int) * (hi as int) > n as int) by (nonlinear_arith)
            requires
                hi == 0x1_0000_0000u64,
                n <= 0xffff_ffff_ffff_ffffu64,
        ;
    }
    while hi - lo > 1
        invariant
            lo < hi <= 0x1_0000_0000u64,
            (lo as int) * (lo as int) <= n as int,
            (n as int) < (hi as int) * (hi as int),
        decreases hi - lo,
    {
        let mid = lo + (hi - lo) / 2;
        proof {
            assert((mid as int) * (mid as int) <= 0x1_0000_0000 * 0x1_0000_0000)
                by (nonlinear_arith)
                requires
                    0 <= mid <= 0x1_0000_0000u64,
            ;
        }
        if (mid as u128) * (mid as u128) <= n as u128 {
            lo = mid;
        } else {
            hi = mid;
        }
    }
    proof {
        lemma_sqrt_floor_unique(n as nat, lo as nat);
    }
    lo
}

/// The dimming factor for a dim level, in 1/256ths: the fourth root of
/// `dim / 100`, scaled by 256 and rounded down. Level 100 gives a factor of
/// one (256/256); levels above 100 brighten.
pub open spec fn dim_factor(dim: nat) -> nat {
    sqrt_floor(sqrt_floor(dim * 0x1_0000_0000 / 100))
}

/// One colour channel dimmed by a level: scaled by the dimming factor and
/// saturated at full brightness.
pub open spec fn dim_channel(v: nat, dim: nat) -> nat {
    let scaled = v * dim_factor(dim) / 256;
    if scaled > 255 {
        255
    } else {
        scaled
    }
}

/// Dims an RGB colour by a level 0..100 (levels above 100 brighten, up to
/// saturation), applying the gamma curve of the display: each channel is
/// scaled by the fourth root of `dim / 100`.
pub fn apply_dimming(rgb: (u8, u8, u8), dim: u16) -> (r: (u8, u8, u8))
    ensures
        r.0 as nat == dim_channel(rgb.0 as nat, dim as nat),
        r.1 as nat == dim_channel(rgb.1 as nat, dim as nat),
        r.2 as nat == dim_channel(rgb.2 as nat, dim as nat),
{
    let scaled: u64 = (dim as u64) * 0x1_0000_0000 / 100;
    let q: u64 = isqrt(isqrt(scaled));
    proof {
        lemma_sqrt_floor_bounds(scaled as nat);
        lemma_sqrt_floor_bounds(sqrt_floor(scaled as nat));
        assert(sqrt_floor(sqrt_floor(scaled as nat)) <= 0x10000) by (nonlinear_arith)
            requires
                sqrt_floor(scaled as nat) * sqrt_floor(scaled as nat) <= scaled as int,
                sqrt_floor(sqrt_floor(scaled as nat)) * sqrt_floor(sqrt_floor(scaled as nat))
                    <= sqrt_floor(scaled as nat),
                scaled <= 0xffff_ffff_ffff_ffffu64,
        ;
    }
    (dim_one(rgb.0, q), dim_one(rgb.1, q), dim_one(rgb.2, q))
}

/// Scales one channel by a dimming factor in 1/256ths, saturating at 255.
fn dim_one(v: u8, q: u64) -> (r: u8)
    requires
        q <= 0x10000,
    ensures
        r as nat == (if (v as nat) * (q as nat) / 256 > 255 {
            255nat
        } else {
            (v as nat) * (q as nat) / 256
        }),
{
    proof {
        assert((v as int) * (q as int) <= 255 * 0x10000) by (nonlinear_arith)
            requires
                v <= 255,
                q <= 0x10000,
        ;
    }
    let scaled = (v as u64) * q / 256;
    if scaled > 255 {
        255
    } else {
        scaled as u8
    }
}

/// The strength of a green/magenta tint: its distance from neutral.
pub open spec fn gm_strength(gm: i16) -> int {
    if gm < 0 {
        -(gm as int)
    } else {
        gm as int
    }
}

/// One channel of a colour blended towards a tint target: the blend
/// `v * (1 - a/500) + t * (a/500)` in exact integer arithmetic, saturated
/// into 0..255.
pub open spec fn gm_channel(v: int, t: int, a: int) -> int {
    let num = v * (500 - a) + t * a;
    if num <= 0 {
        0
    } else if num / 500 > 255 {
        255
    } else {
        num / 500
    }
}

/// Tints an RGB colour towards magenta (negative `gm`) or green (positive
/// `gm`), with a fifth of the tint's relative strength; a neutral tint
/// returns the colour unchanged.
pub fn apply_gm(rgb: (u8, u8, u8), gm: i16) -> (r: (u8, u8, u8))
    ensures
        gm < 0 ==> (r.0 as int == gm_channel(rgb.0 as int, 255, gm_strength(gm)) && r.1 as int
            == gm_channel(rgb.1 as int, 0, gm_strength(gm)) && r.2 as int == gm_channel(
            rgb.2 as int,
            255,
            gm_strength(gm),
        )),
        gm >= 0 ==> (r.0 as int == gm_channel(rgb.0 as int, 0, gm_strength(gm)) && r.1 as int
            == gm_channel(rgb.1 as int, 255, gm_strength(gm)) && r.2 as int == gm_channel(
            rgb.2 as int,
            0,
            gm_strength(gm),
        )),
{
    if gm == 0 {
        proof {
            assert(gm_channel(rgb.0 as int, 0, 0) == rgb.0 as int);
            assert(gm_channel(rgb.1 as int, 255, 0) == rgb.1 as int);
            assert(gm_channel(rgb.2 as int, 0, 0) == rgb.2 as int);
        }
        return rgb;
    }
    let a: i32 = if gm < 0 {
        -(gm as i32)
    } else {
        gm as i32
    };
    let (tr, tg, tb): (i32, i32, i32) = if gm < 0 {
        (255, 0, 255)
    } else {
        (0, 255, 0)
    };
    (blend_one(rgb.0, tr, a), blend_one(rgb.1, tg, a), blend_one(rgb.2, tb, a))
}

/// Blends one channel towards a target with strength `a` out of 500.
fn blend_one(v: u8, t: i32, a: i32) -> (r: u8)
    requires
        0 <= t <= 255,
        0 <= a <= 0x8000,
    ensures
        r as int == gm_channel(v as int, t as int, a as int),
{
    proof {
        assert(-255 * 0x8000 <= (v as int) * (500 - a as int) <= 255 * 500 && 0 <= (t as int) * (
        a as int) <= 255 * 0x8000) by (nonlinear_arith)
            requires
                0 <= v <= 255,
                0 <= t <= 255,
                0 <= a <= 0x8000,
        ;
    }
    let num: i64 = (v as i64) * (500 - a as i64) + (t as i64) * (a as i64);
    if num <= 0 {
        0
    } else {
        let d = (num as u64) / 500;
        if d > 255 {
            255
        } else {
            d as u8
        }
    }
}

/// The distance of a hue from the centre of its 120-degree sector.
pub open spec fn hue_dist(h: u16) -> int {
    let m = (h as int) % 120;
    if m < 60 {
        60 - m
    } else {
        m - 60
    }
}

/// The sloped channel of the hue sector, scaled to 0..255: the blend
/// `1 - s/100 * dist/60` over the common denominator 6000, floored at zero.
pub open spec fn hsi_channel_x(h: u16, s: u16) -> int {
    let num = 6000 - (s as int) * hue_dist(h);
    if num <= 0 {
        0
    } else {
        num * 255 / 6000
    }
}

/// The flat channel of the hue sector, scaled to 0..255: `1 - s/100`,
/// floored at zero.
pub open spec fn hsi_channel_m(s: u16) -> int {
    if s > 100 {
        0
    } else {
        (100 - s as int) * 255 / 100
    }
}

/// The RGB colour of a hue/saturation pair at full intensity: the sector of
/// the hue decides which channel is full, sloped and flat.
pub open spec fn hsi_base(h: u16, s: u16) -> (int, int, int) {
    let x = hsi_channel_x(h, s);
    let m = hsi_channel_m(s);
    if h < 60 {
        (255int, x, m)
    } else if h < 120 {
        (x, 255int, m)
    } else if h < 180 {
        (m, 255int, x)
    } else if h < 240 {
        (m, x, 255int)
    } else if h < 300 {
        (x, m, 255int)
    } else {
        (255int, m, x)
    }
}

/// Converts hue (degrees), saturation (percent) and intensity (percent) to
/// an RGB colour: the hue's sector colour at full value, then dimmed by the
/// intensity through the gamma curve.
pub fn hsi_to_rgb(h: u16, s: u16, i: u16) -> (r: (u8, u8, u8))
    ensures
        r.0 as nat == dim_channel(hsi_base(h, s).0 as nat, i as nat),
        r.1 as nat == dim_channel(hsi_base(h, s).1 as nat, i as nat),
        r.2 as nat == dim_channel(hsi_base(h, s).2 as nat, i as nat),
{
    let md = h % 120;
    let d: u16 = if md < 60 {
        60 - md
    } else {
        md - 60
    };
    proof {
        assert(0 <= (s as int) * (d as int) <= 65535 * 60) by (nonlinear_arith)
            requires
                0 <= s <= 65535,
                0 <= d <= 60,
        ;
    }
    let num: i64 = 6000 - (s as i64) * (d as i64);
    let x: u8 = if num <= 0 {
        0
    } else {
        ((num as u64) * 255 / 6000) as u8
    };
    let m: u8 = if s > 100 {
        0
    } else {
        (((100 - s) as u64) * 255 / 100) as u8
    };
    let base: (u8, u8, u8) = if h < 60 {
        (255, x, m)
    } else if h < 120 {
        (x, 255, m)
    } else if h < 180 {
        (m, 255, x)
    } else if h < 240 {
        (m, x, 255)
    } else if h < 300 {
        (x, m, 255)
    } else {
        (255, m, x)
    };
    apply_dimming(base, i)
}

} // verus!
