use vstd::prelude::*;
use vstd::arithmetic::div_mod::{lemma_div_is_ordered, lemma_div_by_multiple, lemma_fundamental_div_mod, lemma_mod_bound};

verus! {

/// The limit that applies to one dimension: the configured limit, if any,
/// never above the hardware maximum.
pub open spec fn effective_limit(limit: Option<u32>, hw_max: u32) -> nat {
    match limit {
        Some(m) => if m <= hw_max { m as nat } else { hw_max as nat },
        None => hw_max as nat,
    }
}

/// The limit of a dimension is the smaller of its configured maximum and the
/// hardware maximum; with no configured maximum it is exactly the hardware maximum.
pub proof fn lemma_effective_limit_is_min(limit: Option<u32>, hw_max: u32)
    ensures
        effective_limit(limit, hw_max) <= hw_max,
        limit is None ==> effective_limit(limit, hw_max) == hw_max,
        limit matches Some(m) ==> {
            &&& effective_limit(limit, hw_max) <= m
            &&& (effective_limit(limit, hw_max) == m || effective_limit(limit, hw_max) == hw_max)
        },
{
}

/// The dimensions that `clamp_dimensions` yields.
///
/// Within both limits the size is kept. Otherwise it is scaled by the smaller of
/// the two ratios `max_w / w` and `max_h / h`: the side whose ratio is smaller
/// lands on its limit and the other side is scaled by the same ratio, rounded down.
pub open spec fn clamped_size(
    width: nat,
    height: nat,
    max_w: nat,
    max_h: nat,
) -> (nat, nat) {
    if width <= max_w && height <= max_h {
        (width, height)
    } else if max_w * height <= max_h * width {
        (max_w, height * max_w / width)
    } else {
        (width * max_h / height, max_h)
    }
}

/// Floor division bounds: `q * d <= a < (q + 1) * d` for `q = a / d`.
proof fn lemma_floor_div_bounds(a: int, d: int)
    requires
        0 <= a,
        0 < d,
    ensures
        (a / d) * d <= a < (a / d + 1) * d,
        0 <= a / d,
{
    lemma_fundamental_div_mod(a, d);
    lemma_mod_bound(a, d);
    assert((a / d) * d <= a < (a / d + 1) * d) by (nonlinear_arith)
        requires
            a == d * (a / d) + (a % d),
            0 <= a % d < d,
    ;
    assert(0 <= a / d) by (nonlinear_arith)
        requires
            a == d * (a / d) + (a % d),
            0 <= a % d < d,
            0 <= a,
            0 < d,
    ;
}

/// Scaling `n` by `num / den` with `num <= den` never enlarges it and stays
/// within `bound` when `n * num <= bound * den`.
proof fn lemma_scaled_le(n: nat, num: nat, den: nat, bound: nat)
    requires
        0 < den,
        n * num <= bound * den,
    ensures
        n * num / den <= bound,
{
    lemma_div_is_ordered((n * num) as int, (bound * den) as int, den as int);
    lemma_div_by_multiple(bound as int, den as int);
}

/// In the scaled branches the scaled side strictly exceeded its limit, so the
/// other side never grows.
proof fn lemma_clamped_size_bounds(width: nat, height: nat, max_w: nat, max_h: nat)
    requires
        width > 0,
        height > 0,
    ensures
        clamped_size(width, height, max_w, max_h).0 <= max_w,
        clamped_size(width, height, max_w, max_h).1 <= max_h,
        clamped_size(width, height, max_w, max_h).0 <= width,
        clamped_size(width, height, max_w, max_h).1 <= height,
{
    if width <= max_w && height <= max_h {
    } else if max_w * height <= max_h * width {
        // width-limited: the width must have been over its limit
        assert(max_w < width) by (nonlinear_arith)
            requires
                !(width <= max_w && height <= max_h),
                max_w * height <= max_h * width,
                width > 0,
                height > 0,
        ;
        lemma_scaled_le(height, max_w, width, max_h);
        assert(height * max_w <= height * width) by (nonlinear_arith)
            requires max_w < width;
        lemma_scaled_le(height, max_w, width, height);
    } else {
        assert(max_h < height) by (nonlinear_arith)
            requires
                !(width <= max_w && height <= max_h),
                max_w * height > max_h * width,
                width > 0,
                height > 0,
        ;
        assert(width * max_h <= max_w * height) by (nonlinear_arith)
            requires max_w * height > max_h * width;
        lemma_scaled_le(width, max_h, height, max_w);
        assert(width * max_h <= width * height) by (nonlinear_arith)
            requires max_h < height;
        lemma_scaled_le(width, max_h, height, width);
    }
}

/// The effective limit for one dimension, as computed at run time.
fn effective_limit_of(limit: Option<u32>, hw_max: u32) -> (r: u32)
    ensures
        r == effective_limit(limit, hw_max),
{
    match limit {
        Some(m) => if m <= hw_max { m } else { hw_max },
        None => hw_max,
    }
}

/// Clamp dimensions to max limits while maintaining aspect ratio.
///
/// Returns the clamped width and height. If the dimensions don't exceed the
/// limits, returns them unchanged. Otherwise, scales them down proportionally.
/// The limit of each dimension is its configured maximum, if any, capped by
/// the hardware maximum texture size `hw_max`.
pub fn clamp_dimensions(
    width: u32,
    height: u32,
    max_width: Option<u32>,
    max_height: Option<u32>,
    hw_max: u32,
) -> (r: (u32, u32))
    requires
        width > 0,
        height > 0,
    ensures
        (r.0 as nat, r.1 as nat) == clamped_size(
            width as nat,
            height as nat,
            effective_limit(max_width, hw_max),
            effective_limit(max_height, hw_max),
        ),
        r.0 <= effective_limit(max_width, hw_max),
        r.1 <= effective_limit(max_height, hw_max),
        r.0 <= width,
        r.1 <= height,
        (width <= effective_limit(max_width, hw_max) && height <= effective_limit(
            max_height,
            hw_max,
        )) ==> r == (width, height),
        !(width <= effective_limit(max_width, hw_max) && height <= effective_limit(
            max_height,
            hw_max,
        )) ==> {
            ||| (r.0 == effective_limit(max_width, hw_max) && r.1 * width <= height * r.0 < (r.1
                + 1) * width)
            ||| (r.1 == effective_limit(max_height, hw_max) && r.0 * height <= width * r.1 < (r.0
                + 1) * height)
        },
        r.0 <= hw_max,
        r.1 <= hw_max,
        max_width matches Some(m) ==> r.0 <= m,
        max_height matches Some(m) ==> r.1 <= m,
        (width <= hw_max && height <= hw_max && (max_width matches Some(m) ==> width <= m) && (
        max_height matches Some(m) ==> height <= m)) ==> r == (width, height),
        r != (width, height) ==> {
            ||| r.0 == hw_max
            ||| max_width == Some(r.0)
            ||| r.1 == hw_max
            ||| max_height == Some(r.1)
        },
{
    let max_w = effective_limit_of(max_width, hw_max);
    let max_h = effective_limit_of(max_height, hw_max);
    proof {
        lemma_effective_limit_is_min(max_width, hw_max);
        lemma_effective_limit_is_min(max_height, hw_max);
        lemma_clamped_size_bounds(width as nat, height as nat, max_w as nat, max_h as nat);
        if width > max_w || height > max_h {
            lemma_clamp_keeps_aspect_ratio(width as nat, height as nat, max_w as nat, max_h as nat);
        }
    }
    if width > max_w || height > max_h {
        let w = width as u64;
        let h = height as u64;
        let mw = max_w as u64;
        let mh = max_h as u64;
        assert(mw * h <= 0xffff_ffff * 0xffff_ffffu64) by (nonlinear_arith)
            requires mw <= 0xffff_ffff, h <= 0xffff_ffff;
        assert(mh * w <= 0xffff_ffff * 0xffff_ffffu64) by (nonlinear_arith)
            requires mh <= 0xffff_ffff, w <= 0xffff_ffff;
        assert(h * mw == mw * h) by (nonlinear_arith);
        assert(w * mh == mh * w) by (nonlinear_arith);
        if mw * h <= mh * w {
            let scaled = h * mw / w;
            (max_w, scaled as u32)
        } else {
            let scaled = w * mh / h;
            (scaled as u32, max_h)
        }
    } else {
        (width, height)
    }
}

/// Proportional scaling: when the size exceeds a limit, one side lands exactly
/// on its limit and the other is the largest whole number that does not exceed
/// the original aspect ratio, i.e. the cross products differ by less than one
/// step of the limited side.
pub proof fn lemma_clamp_keeps_aspect_ratio(width: nat, height: nat, max_w: nat, max_h: nat)
    requires
        width > 0,
        height > 0,
        !(width <= max_w && height <= max_h),
    ensures
        ({
            let r = clamped_size(width, height, max_w, max_h);
            ||| (r.0 == max_w && r.1 * width <= height * r.0 < (r.1 + 1) * width)
            ||| (r.1 == max_h && r.0 * height <= width * r.1 < (r.0 + 1) * height)
        }),
{
    if max_w * height <= max_h * width {
        lemma_floor_div_bounds((height * max_w) as int, width as int);
        let q = height * max_w / width;
        assert(q * width <= height * max_w < (q + 1) * width);
    } else {
        lemma_floor_div_bounds((width * max_h) as int, height as int);
        let q = width * max_h / height;
        assert(q * height <= width * max_h < (q + 1) * height);
    }
}

/// Clamping is idempotent: a clamped size (with both sides non-zero, as the
/// function requires of its input) is left unchanged by a second clamp
/// against the same limits.
pub proof fn lemma_clamp_is_idempotent(width: nat, height: nat, max_w: nat, max_h: nat)
    requires
        width > 0,
        height > 0,
        clamped_size(width, height, max_w, max_h).0 > 0,
        clamped_size(width, height, max_w, max_h).1 > 0,
    ensures
        ({
            let r = clamped_size(width, height, max_w, max_h);
            clamped_size(r.0, r.1, max_w, max_h) == r
        }),
{
    lemma_clamped_size_bounds(width, height, max_w, max_h);
}

/// With no configured limits and the hardware maximum that native targets
/// report (`u32::MAX`), every size passes through unchanged.
pub proof fn lemma_clamp_unlimited_is_identity(width: u32, height: u32)
    ensures
        clamped_size(
            width as nat,
            height as nat,
            effective_limit(None, u32::MAX),
            effective_limit(None, u32::MAX),
        ) == (width as nat, height as nat),
{
}

/// The maximum texture size that WebGL 1.0 guarantees; used when the
/// browser cannot be asked.
pub const WEBGL1_MIN_MAX_TEXTURE_SIZE: u32 = 2048;

/// The maximum texture size to use, given what the WebGL 2 context reported
/// (if one could be created and answered) and what the WebGL 1 context
/// reported: the first answer wins, and without any the WebGL 1.0 minimum applies.
pub fn pick_max_texture_size(webgl2: Option<u32>, webgl1: Option<u32>) -> (r: u32)
    ensures
        r == match webgl2 {
            Some(v) => v,
            None => match webgl1 {
                Some(v) => v,
                None => WEBGL1_MIN_MAX_TEXTURE_SIZE,
            },
        },
{
    match webgl2 {
        Some(v) => v,
        None => match webgl1 {
            Some(v) => v,
            None => WEBGL1_MIN_MAX_TEXTURE_SIZE,
        },
    }
}

/// Query the maximum texture size supported by the GPU.
///
/// On native targets there is no browser limit to ask, so the maximum is
/// `u32::MAX`; in the browser the query goes through WebGL and its answer is
/// combined by `pick_max_texture_size`.
pub fn query_max_texture_size() -> (r: u32)
    ensures
        r == u32::MAX,
{
    u32::MAX
}

} // verus!
