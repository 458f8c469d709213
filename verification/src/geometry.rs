use vstd::prelude::*;

verus! {

/// An axis-aligned rectangle in image pixel coordinates, derived from a
/// detection's two corner points. Side lengths are never negative.
#[derive(Clone, Copy, Debug, PartialEq, Eq, Structural)]
pub struct BoundingBox {
    pub x: i64,
    pub y: i64,
    pub width: i64,
    pub height: i64,
}

impl BoundingBox {
    /// A box produced by normalizing two corners has non-negative sides.
    pub open spec fn valid(self) -> bool {
        self.width >= 0 && self.height >= 0
    }
}

/// A crop window that lies inside the image and has strictly positive area.
#[derive(Clone, Copy, Debug, PartialEq, Eq, Structural)]
pub struct CropRect {
    pub x: i32,
    pub y: i32,
    pub width: i32,
    pub height: i32,
}

impl CropRect {
    /// The window lies within `[0, img_width] x [0, img_height]` and its
    /// area is strictly positive.
    pub open spec fn in_bounds(self, img_width: int, img_height: int) -> bool {
        &&& 0 <= self.x
        &&& 0 <= self.y
        &&& self.width > 0
        &&& self.height > 0
        &&& self.x + self.width <= img_width
        &&& self.y + self.height <= img_height
    }
}

/// Why no crop window could be produced.
#[derive(Clone, Copy, Debug, PartialEq, Eq, Structural)]
pub enum GeometryError {
    /// The scaled crop size came out non-positive.
    InvalidCropSize,
    /// Clamping to the image borders left a window with no area.
    DegenerateCrop,
}

/// The longer side of the box.
pub open spec fn max_dim(b: BoundingBox) -> int {
    if b.width >= b.height {
        b.width as int
    } else {
        b.height as int
    }
}

/// Side of the square crop window: the longer box side scaled by
/// `num / den`, with the quotient floored.
pub open spec fn crop_size_of(b: BoundingBox, num: u32, den: u32) -> int {
    max_dim(b) * (num as int) / (den as int)
}

/// Horizontal center of the box, with the half width floored.
pub open spec fn center_x_of(b: BoundingBox) -> int {
    b.x + b.width as int / 2
}

/// Vertical center of the box, with the half height floored.
pub open spec fn center_y_of(b: BoundingBox) -> int {
    b.y + b.height as int / 2
}

/// An edge coordinate clamped to `[0, hi]`.
pub open spec fn clamp_to(v: int, hi: int) -> int {
    if v < 0 {
        0
    } else if v > hi {
        hi
    } else {
        v
    }
}

/// Left edge of the crop window after clamping.
pub open spec fn start_x_of(img_width: i32, b: BoundingBox, num: u32, den: u32) -> int {
    clamp_to(center_x_of(b) - crop_size_of(b, num, den) / 2, img_width as int)
}

/// Right edge of the crop window after clamping.
pub open spec fn end_x_of(img_width: i32, b: BoundingBox, num: u32, den: u32) -> int {
    clamp_to(center_x_of(b) + crop_size_of(b, num, den) / 2, img_width as int)
}

/// Top edge of the crop window after clamping.
pub open spec fn start_y_of(img_height: i32, b: BoundingBox, num: u32, den: u32) -> int {
    clamp_to(center_y_of(b) - crop_size_of(b, num, den) / 2, img_height as int)
}

/// Bottom edge of the crop window after clamping.
pub open spec fn end_y_of(img_height: i32, b: BoundingBox, num: u32, den: u32) -> int {
    clamp_to(center_y_of(b) + crop_size_of(b, num, den) / 2, img_height as int)
}

/// Everything `center_crop` returns, as one total function of its inputs:
/// a square window of the scaled size around the box center, each edge
/// clamped to the image independently, or the error that rules it out.
pub open spec fn center_crop_spec(
    img_width: i32,
    img_height: i32,
    b: BoundingBox,
    num: u32,
    den: u32,
) -> Result<CropRect, GeometryError> {
    let cs = crop_size_of(b, num, den);
    let sx = start_x_of(img_width, b, num, den);
    let ex = end_x_of(img_width, b, num, den);
    let sy = start_y_of(img_height, b, num, den);
    let ey = end_y_of(img_height, b, num, den);
    if cs <= 0 {
        Err(GeometryError::InvalidCropSize)
    } else if ex - sx <= 0 || ey - sy <= 0 {
        Err(GeometryError::DegenerateCrop)
    } else {
        Ok(CropRect {
            x: sx as i32,
            y: sy as i32,
            width: (ex - sx) as i32,
            height: (ey - sy) as i32,
        })
    }
}

/// An edge coordinate clamped to `[0, hi]`.
fn clamp_edge(v: i128, hi: i128) -> (r: i128)
    requires
        hi >= 0,
    ensures
        r == clamp_to(v as int, hi as int),
{
    if v < 0 {
        0
    } else if v > hi {
        hi
    } else {
        v
    }
}

/// Compute a clamped, centered crop window: a square of side
/// `floor(max(width, height) * num / den)` around the box center, each edge
/// clamped to the image independently (a box near a border therefore yields
/// an asymmetric crop rather than a shifted one).
pub fn center_crop(
    img_width: i32,
    img_height: i32,
    bbox: &BoundingBox,
    scale_num: u32,
    scale_den: u32,
) -> (r: Result<CropRect, GeometryError>)
    requires
        img_width >= 0,
        img_height >= 0,
        bbox.valid(),
        scale_den > 0,
    ensures
        r == center_crop_spec(img_width, img_height, *bbox, scale_num, scale_den),
        r matches Ok(c) ==> c.in_bounds(img_width as int, img_height as int),
        (crop_size_of(*bbox, scale_num, scale_den) <= 0) <==> r == Err::<
            CropRect,
            GeometryError,
        >(GeometryError::InvalidCropSize),
{
    let m: i64 = if bbox.width >= bbox.height {
        bbox.width
    } else {
        bbox.height
    };
    proof {
        assert((m as int) * (scale_num as int) <= 0x7fff_ffff_ffff_ffff * 0xffff_ffff)
            by (nonlinear_arith)
            requires
                0 <= m as int <= 0x7fff_ffff_ffff_ffff,
                0 <= scale_num as int <= 0xffff_ffff,
        ;
    }
    let prod: u128 = (m as u128) * (scale_num as u128);
    let cs: u128 = prod / (scale_den as u128);
    if cs == 0 {
        return Err(GeometryError::InvalidCropSize);
    }
    let half: i128 = (cs / 2) as i128;
    let half_w: i128 = ((bbox.width as u64) / 2) as i128;
    let half_h: i128 = ((bbox.height as u64) / 2) as i128;
    let cx: i128 = bbox.x as i128 + half_w;
    let cy: i128 = bbox.y as i128 + half_h;
    let w_hi: i128 = img_width as i128;
    let h_hi: i128 = img_height as i128;
    let sx: i128 = clamp_edge(cx - half, w_hi);
    let ex: i128 = clamp_edge(cx + half, w_hi);
    let sy: i128 = clamp_edge(cy - half, h_hi);
    let ey: i128 = clamp_edge(cy + half, h_hi);
    let width: i128 = ex - sx;
    let height: i128 = ey - sy;
    if width <= 0 || height <= 0 {
        return Err(GeometryError::DegenerateCrop);
    }
    Ok(CropRect { x: sx as i32, y: sy as i32, width: width as i32, height: height as i32 })
}

/// Law: for a box inside the image whose longer side is positive, when the
/// doubled window around the box center also stays inside the image, the
/// doubling crop succeeds, is square with side twice the longer box side, and
/// is centered on the box's exact center to within one pixel. Centers are
/// stated doubled (`2 * x + width`) so that no fractions appear.
pub proof fn lemma_centered_crop_inside(img_width: i32, img_height: i32, b: BoundingBox)
    requires
        img_width >= 0,
        img_height >= 0,
        b.valid(),
        max_dim(b) > 0,
        0 <= b.x,
        0 <= b.y,
        b.x + b.width <= img_width,
        b.y + b.height <= img_height,
        center_x_of(b) - max_dim(b) >= 0,
        center_x_of(b) + max_dim(b) <= img_width,
        center_y_of(b) - max_dim(b) >= 0,
        center_y_of(b) + max_dim(b) <= img_height,
    ensures
        center_crop_spec(img_width, img_height, b, 2, 1) matches Ok(c) && {
            &&& c.width == 2 * max_dim(b)
            &&& c.height == 2 * max_dim(b)
            &&& 2 * c.x + c.width == 2 * center_x_of(b)
            &&& 2 * c.y + c.height == 2 * center_y_of(b)
            &&& -1 <= 2 * center_x_of(b) - (2 * b.x + b.width) <= 0
            &&& -1 <= 2 * center_y_of(b) - (2 * b.y + b.height) <= 0
        },
{
    let m = max_dim(b);
    vstd::arithmetic::div_mod::lemma_div_basics(2 * m);
    assert(crop_size_of(b, 2, 1) == 2 * m);
    vstd::arithmetic::div_mod::lemma_div_multiples_vanish(m, 2);
    assert(crop_size_of(b, 2, 1) / 2 == m);
    vstd::arithmetic::div_mod::lemma_fundamental_div_mod(b.width as int, 2);
    vstd::arithmetic::div_mod::lemma_mod_bound(b.width as int, 2);
    vstd::arithmetic::div_mod::lemma_fundamental_div_mod(b.height as int, 2);
    vstd::arithmetic::div_mod::lemma_mod_bound(b.height as int, 2);
}

/// Law: for a box whose floored center sits at the origin, clamping never
/// yields negative coordinates; the call either returns a window of strictly
/// positive width and height or signals an error.
pub proof fn lemma_origin_center_clamps_safely(
    img_width: i32,
    img_height: i32,
    b: BoundingBox,
    num: u32,
    den: u32,
)
    requires
        img_width >= 0,
        img_height >= 0,
        b.valid(),
        den > 0,
        center_x_of(b) == 0,
        center_y_of(b) == 0,
    ensures
        match center_crop_spec(img_width, img_height, b, num, den) {
            Ok(c) => c.x >= 0 && c.y >= 0 && c.width > 0 && c.height > 0,
            Err(e) => e == GeometryError::InvalidCropSize || e == GeometryError::DegenerateCrop,
        },
{
}

} // verus!
