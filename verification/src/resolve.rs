use vstd::prelude::*;

verus! {

/// Device pixel ratio, stored in thousandths so that the scaling arithmetic
/// stays exact. A ratio of 1.0 is `milli == 1000`.
#[derive(Clone, Copy, PartialEq, Eq, Structural, Debug)]
pub struct Dpr {
    pub milli: u32,
}

impl Dpr {
    /// A ratio is meaningful only when strictly positive.
    pub open spec fn wf(&self) -> bool {
        1 <= self.milli
    }

    /// The identity ratio, used when a request names none.
    pub fn identity() -> (r: Dpr)
        ensures
            r.milli == 1000,
    {
        Dpr { milli: 1000 }
    }
}

/// The optional, mutually overlapping resize parameters of one request.
/// Every integer field is a positive pixel count when present.
pub struct ResizeRequest {
    pub size: Option<u32>,
    pub width: Option<u32>,
    pub height: Option<u32>,
    pub max_side: Option<u32>,
    pub fit: Option<String>,
    pub dpr: Option<Dpr>,
}

impl ResizeRequest {
    /// Well-formed parameters: each present dimension and the ratio are positive.
    pub open spec fn wf(&self) -> bool {
        &&& (self.size is Some ==> 1 <= self.size->0)
        &&& (self.width is Some ==> 1 <= self.width->0)
        &&& (self.height is Some ==> 1 <= self.height->0)
        &&& (self.max_side is Some ==> 1 <= self.max_side->0)
        &&& (self.dpr is Some ==> self.dpr->0.wf())
    }

    /// The ratio in thousandths that applies to this request.
    pub open spec fn spec_dpr_milli(&self) -> int {
        if self.dpr is Some {
            self.dpr->0.milli as int
        } else {
            1000
        }
    }
}

/// Exact target dimensions selected for a transcode; both axes positive.
#[derive(Clone, Copy, PartialEq, Eq, Structural, Debug)]
pub struct TargetDimensions {
    pub width: u32,
    pub height: u32,
}

impl TargetDimensions {
    pub open spec fn wf(&self) -> bool {
        1 <= self.width && 1 <= self.height
    }
}

/// Validates raw query values: each present dimension and the ratio must be
/// positive; anything else is malformed and rejected before the pipeline runs.
pub fn validate(req: &ResizeRequest) -> (r: Result<(), crate::ServeError>)
    ensures
        r is Ok <==> req.wf(),
        r is Err ==> r == Err::<(), crate::ServeError>(crate::ServeError::InvalidParameters),
{
    let size_ok = match req.size {
        Some(v) => 1 <= v,
        None => true,
    };
    let width_ok = match req.width {
        Some(v) => 1 <= v,
        None => true,
    };
    let height_ok = match req.height {
        Some(v) => 1 <= v,
        None => true,
    };
    let max_side_ok = match req.max_side {
        Some(v) => 1 <= v,
        None => true,
    };
    let dpr_ok = match req.dpr {
        Some(d) => 1 <= d.milli,
        None => true,
    };
    if size_ok && width_ok && height_ok && max_side_ok && dpr_ok {
        Ok(())
    } else {
        Err(crate::ServeError::InvalidParameters)
    }
}

/// The smaller of two mathematical integers.
pub open spec fn min_int(a: int, b: int) -> int {
    if a <= b {
        a
    } else {
        b
    }
}

/// Ordered precedence over the overlapping parameters, before any ratio
/// scaling. `w` and `h` are the positive source dimensions. Division is
/// integer division, which truncates toward zero on these non-negative
/// values. `None` means the original is served unchanged.
pub open spec fn spec_resolved_core(
    size: Option<u32>,
    max_side: Option<u32>,
    rw: Option<u32>,
    rh: Option<u32>,
    w: int,
    h: int,
) -> Option<(int, int)> {
    if size is Some {
        let s = min_int(size->0 as int, min_int(w, h));
        Some((s, s))
    } else if max_side is Some {
        let m = max_side->0 as int;
        if w <= h {
            let th = min_int(h, m);
            Some(((th * w) / h, th))
        } else {
            let tw = min_int(w, m);
            Some((tw, (tw * h) / w))
        }
    } else if rw is Some && rh is Some {
        Some((min_int(w, rw->0 as int), min_int(h, rh->0 as int)))
    } else if rw is Some {
        let tw = min_int(w, rw->0 as int);
        Some((tw, (tw * h) / w))
    } else if rh is Some {
        let th = min_int(h, rh->0 as int);
        Some(((th * w) / h, th))
    } else {
        None
    }
}

/// One axis after ratio scaling: multiply by the ratio in thousandths,
/// truncate, saturate at the machine bound, and never fall below one pixel.
pub open spec fn spec_dpr_scaled(dim: int, milli: int) -> int {
    let scaled = (dim * milli) / 1000;
    let capped = if scaled > u32::MAX as int {
        u32::MAX as int
    } else {
        scaled
    };
    if capped < 1 {
        1
    } else {
        capped
    }
}

/// The whole resolution: precedence first, then the ratio on each axis.
pub open spec fn spec_resolve(req: &ResizeRequest, w: int, h: int) -> Option<(int, int)> {
    match spec_resolved_core(req.size, req.max_side, req.width, req.height, w, h) {
        Some(pair) => Some(
            (spec_dpr_scaled(pair.0, req.spec_dpr_milli()), spec_dpr_scaled(pair.1, req.spec_dpr_milli())),
        ),
        None => None,
    }
}

/// The product of two values of the pixel type fits the wide machine type.
proof fn lemma_u32_product_fits(a: int, b: int)
    requires
        0 <= a <= 0xffff_ffff,
        0 <= b <= 0xffff_ffff,
    ensures
        0 <= a * b <= 0xffff_fffe_0000_0001,
{
    assert(0 <= a * b <= 0xffff_fffe_0000_0001) by (nonlinear_arith)
        requires
            0 <= a <= 0xffff_ffff,
            0 <= b <= 0xffff_ffff,
    ;
}

/// The smaller of two pixel counts.
fn min_u32(a: u32, b: u32) -> (r: u32)
    ensures
        r as int == min_int(a as int, b as int),
{
    if a <= b {
        a
    } else {
        b
    }
}

/// `(a * b) / c` on one axis, computed without overflow. Because `a <= c`,
/// the quotient never exceeds `b`, so it fits the pixel type.
fn scale_axis(a: u32, b: u32, c: u32) -> (r: u32)
    requires
        1 <= c,
        a <= c,
    ensures
        r as int == (a as int * b as int) / (c as int),
        r <= b,
{
    proof {
        lemma_u32_product_fits(a as int, b as int);
    }
    let p: u64 = (a as u64) * (b as u64);
    let q: u64 = p / (c as u64);
    proof {
        vstd::arithmetic::mul::lemma_mul_inequality(a as int, c as int, b as int);
        vstd::arithmetic::mul::lemma_mul_is_commutative(c as int, b as int);
        vstd::arithmetic::div_mod::lemma_div_is_ordered(
            a as int * b as int,
            b as int * c as int,
            c as int,
        );
        vstd::arithmetic::div_mod::lemma_div_by_multiple(b as int, c as int);
    }
    q as u32
}

/// One axis after ratio scaling, exactly `spec_dpr_scaled`.
fn apply_dpr(dim: u32, milli: u32) -> (r: u32)
    requires
        1 <= milli,
    ensures
        r as int == spec_dpr_scaled(dim as int, milli as int),
        1 <= r,
{
    proof {
        lemma_u32_product_fits(dim as int, milli as int);
    }
    let p: u64 = (dim as u64) * (milli as u64);
    let scaled: u64 = p / 1000;
    let capped: u32 = if scaled > u32::MAX as u64 {
        u32::MAX
    } else {
        scaled as u32
    };
    if capped < 1 {
        1
    } else {
        capped
    }
}

/// Maps the overlapping optional parameters and the positive source
/// dimensions to exact target dimensions, or `None` when no resize was
/// requested. Pure and deterministic; never upscales past the source except
/// through the final ratio multiplier, and both axes stay positive.
pub fn resolve(req: &ResizeRequest, width: u32, height: u32) -> (r: Option<TargetDimensions>)
    requires
        req.wf(),
        1 <= width,
        1 <= height,
    ensures
        match r {
            Some(t) => {
                &&& spec_resolve(req, width as int, height as int) == Some(
                    (t.width as int, t.height as int),
                )
                &&& t.wf()
            },
            None => spec_resolve(req, width as int, height as int) is None,
        },
{
    let core: (u32, u32) = if let Some(s) = req.size {
        let shortest = min_u32(width, height);
        let side = min_u32(s, shortest);
        (side, side)
    } else if let Some(m) = req.max_side {
        if width <= height {
            let th = min_u32(height, m);
            (scale_axis(th, width, height), th)
        } else {
            let tw = min_u32(width, m);
            (tw, scale_axis(tw, height, width))
        }
    } else if req.width.is_some() && req.height.is_some() {
        let rw = match req.width {
            Some(v) => v,
            None => 1,
        };
        let rh = match req.height {
            Some(v) => v,
            None => 1,
        };
        (min_u32(width, rw), min_u32(height, rh))
    } else if let Some(rw) = req.width {
        let tw = min_u32(width, rw);
        (tw, scale_axis(tw, height, width))
    } else if let Some(rh) = req.height {
        let th = min_u32(height, rh);
        (scale_axis(th, width, height), th)
    } else {
        return None;
    };
    let milli: u32 = match req.dpr {
        Some(d) => d.milli,
        None => 1000,
    };
    Some(
        TargetDimensions {
            width: apply_dpr(core.0, milli),
            height: apply_dpr(core.1, milli),
        },
    )
}

/// `(a * b) / c` lies between zero and `b` whenever `a <= c`.
proof fn lemma_scale_bounds(a: int, b: int, c: int)
    requires
        0 <= a <= c,
        0 <= b,
        1 <= c,
    ensures
        0 <= (a * b) / c <= b,
{
    vstd::arithmetic::mul::lemma_mul_inequality(a, c, b);
    vstd::arithmetic::mul::lemma_mul_is_commutative(c, b);
    vstd::arithmetic::div_mod::lemma_div_is_ordered(a * b, b * c, c);
    vstd::arithmetic::div_mod::lemma_div_by_multiple(b, c);
    vstd::arithmetic::mul::lemma_mul_upper_bound(a, c, b, b);
    vstd::arithmetic::div_mod::lemma_div_pos_is_pos(a * b, c);
}

/// Scaling by the identity ratio changes nothing within the pixel range.
proof fn lemma_dpr_identity(dim: int)
    requires
        1 <= dim <= u32::MAX,
    ensures
        spec_dpr_scaled(dim, 1000) == dim,
{
    vstd::arithmetic::div_mod::lemma_div_by_multiple(dim, 1000);
}

/// No branch of the precedence list upscales: before the ratio multiplier,
/// each resolved axis is bounded by the matching source axis.
pub proof fn lemma_no_upscale(req: &ResizeRequest, w: int, h: int)
    requires
        req.wf(),
        1 <= w,
        1 <= h,
        spec_resolved_core(req.size, req.max_side, req.width, req.height, w, h) is Some,
    ensures
        ({
            let pair = spec_resolved_core(req.size, req.max_side, req.width, req.height, w, h)->0;
            0 <= pair.0 <= w && 0 <= pair.1 <= h
        }),
{
    if req.size is Some {
    } else if req.max_side is Some {
        let m = req.max_side->0 as int;
        if w <= h {
            lemma_scale_bounds(min_int(h, m), w, h);
        } else {
            lemma_scale_bounds(min_int(w, m), h, w);
        }
    } else if req.width is Some && req.height is Some {
    } else if req.width is Some {
        lemma_scale_bounds(min_int(w, req.width->0 as int), h, w);
    } else if req.height is Some {
        lemma_scale_bounds(min_int(h, req.height->0 as int), w, h);
    }
}

/// With `size` set, both resolved axes equal the requested size bounded by
/// the shorter source side; no other parameter interferes, and the default
/// ratio leaves the square unchanged.
pub proof fn lemma_size_square(req: &ResizeRequest, w: int, h: int)
    requires
        req.wf(),
        1 <= w <= u32::MAX,
        1 <= h <= u32::MAX,
        req.size is Some,
        req.dpr is None,
    ensures
        ({
            let s = min_int(req.size->0 as int, min_int(w, h));
            spec_resolve(req, w, h) == Some((s, s))
        }),
{
    let s = min_int(req.size->0 as int, min_int(w, h));
    lemma_dpr_identity(s);
}

/// With only `width` set, the resolved width is the request bounded by the
/// source width, and the height follows the source aspect ratio with the
/// quotient truncated. Stated away from the degenerate sources on which the
/// truncated height would vanish and the floor of one pixel takes over.
pub proof fn lemma_width_only(req: &ResizeRequest, w: int, h: int)
    requires
        req.wf(),
        1 <= w <= u32::MAX,
        1 <= h <= u32::MAX,
        req.size is None,
        req.max_side is None,
        req.height is None,
        req.width is Some,
        req.dpr is None,
        1 <= (min_int(w, req.width->0 as int) * h) / w,
    ensures
        ({
            let tw = min_int(w, req.width->0 as int);
            spec_resolve(req, w, h) == Some((tw, (tw * h) / w))
        }),
{
    let tw = min_int(w, req.width->0 as int);
    lemma_scale_bounds(tw, h, w);
    lemma_dpr_identity(tw);
    lemma_dpr_identity((tw * h) / w);
}

/// Resolution is idempotent: feeding a resolved pair back as the `width` and
/// `height` parameters of a fresh request resolves to the same pair — there
/// is no further shrink. Stated of pairs with both axes positive, which is
/// every pair the pipeline passes onward.
pub proof fn lemma_idempotent(req: &ResizeRequest, again: &ResizeRequest, w: int, h: int)
    requires
        req.wf(),
        1 <= w <= u32::MAX,
        1 <= h <= u32::MAX,
        spec_resolved_core(req.size, req.max_side, req.width, req.height, w, h) is Some,
        ({
            let pair = spec_resolved_core(req.size, req.max_side, req.width, req.height, w, h)->0;
            1 <= pair.0 && 1 <= pair.1
        }),
        again.size is None,
        again.max_side is None,
        again.width is Some,
        again.height is Some,
        again.dpr is None,
        ({
            let pair = spec_resolved_core(req.size, req.max_side, req.width, req.height, w, h)->0;
            again.width->0 as int == pair.0 && again.height->0 as int == pair.1
        }),
    ensures
        spec_resolve(again, w, h) == spec_resolved_core(
            req.size,
            req.max_side,
            req.width,
            req.height,
            w,
            h,
        ),
{
    let pair = spec_resolved_core(req.size, req.max_side, req.width, req.height, w, h)->0;
    lemma_no_upscale(req, w, h);
    lemma_dpr_identity(pair.0);
    lemma_dpr_identity(pair.1);
}

/// Ratio scaling is monotonic on one axis: a larger ratio never gives a
/// smaller dimension.
pub proof fn lemma_dpr_monotonic(dim: int, m1: int, m2: int)
    requires
        0 <= dim,
        1 <= m1 <= m2,
    ensures
        spec_dpr_scaled(dim, m1) <= spec_dpr_scaled(dim, m2),
{
    if dim == 0 {
    } else {
        vstd::arithmetic::mul::lemma_mul_left_inequality(dim, m1, m2);
        vstd::arithmetic::div_mod::lemma_div_is_ordered(dim * m1, dim * m2, 1000);
    }
}

/// Whole-request monotonicity: two requests that agree on every dimension
/// parameter and differ only in the ratio resolve to axis-wise ordered
/// targets — increasing the ratio never decreases either output dimension.
pub proof fn lemma_resolve_dpr_monotonic(req1: &ResizeRequest, req2: &ResizeRequest, w: int, h: int)
    requires
        req1.wf(),
        req2.wf(),
        req1.size == req2.size,
        req1.max_side == req2.max_side,
        req1.width == req2.width,
        req1.height == req2.height,
        req1.spec_dpr_milli() <= req2.spec_dpr_milli(),
        1 <= w,
        1 <= h,
    ensures
        match (spec_resolve(req1, w, h), spec_resolve(req2, w, h)) {
            (Some(smaller), Some(larger)) => smaller.0 <= larger.0 && smaller.1 <= larger.1,
            (None, None) => true,
            _ => false,
        },
{
    let core = spec_resolved_core(req1.size, req1.max_side, req1.width, req1.height, w, h);
    if core is Some {
        let pair = core->0;
        lemma_no_upscale(req1, w, h);
        lemma_dpr_monotonic(pair.0, req1.spec_dpr_milli(), req2.spec_dpr_milli());
        lemma_dpr_monotonic(pair.1, req1.spec_dpr_milli(), req2.spec_dpr_milli());
    }
}

} // verus!
