use face_crop::geometry::BoundingBox;
use face_crop::geometry::CropRect;
use face_crop::geometry::GeometryError;
use face_crop::geometry::center_crop;

fn bbox(x: i64, y: i64, width: i64, height: i64) -> BoundingBox {
    BoundingBox { x, y, width, height }
}

#[test]
fn doubled_crop_is_centered_inside() {
    // Box well inside a 100x100 image: the doubled window fits, so the crop
    // is exactly square, twice the longer side, centered on the box center.
    let r = center_crop(100, 100, &bbox(40, 40, 20, 20), 2, 1);
    assert_eq!(r, Ok(CropRect { x: 30, y: 30, width: 40, height: 40 }));
}

#[test]
fn doubled_crop_uses_longer_side() {
    // max(10, 30) * 2 = 60; center (45, 55).
    let r = center_crop(200, 200, &bbox(40, 40, 10, 30), 2, 1);
    assert_eq!(r, Ok(CropRect { x: 15, y: 25, width: 60, height: 60 }));
}

#[test]
fn border_box_clamps_asymmetrically() {
    // A box at the corner: each edge clamps on its own, so the crop goes
    // off-center instead of shifting back inside.
    let r = center_crop(100, 100, &bbox(0, 0, 10, 10), 2, 1);
    assert_eq!(r, Ok(CropRect { x: 0, y: 0, width: 15, height: 15 }));
}

#[test]
fn center_at_origin_never_negative() {
    // Floored box center exactly at (0, 0).
    let r = center_crop(100, 100, &bbox(-5, -5, 10, 10), 2, 1);
    assert_eq!(r, Ok(CropRect { x: 0, y: 0, width: 10, height: 10 }));
}

#[test]
fn zero_box_signals_invalid_crop_size() {
    let r = center_crop(100, 100, &bbox(50, 50, 0, 0), 2, 1);
    assert_eq!(r, Err(GeometryError::InvalidCropSize));
}

#[test]
fn scale_rounding_to_zero_signals_invalid_crop_size() {
    // max side 1 scaled by 1/2 floors to 0.
    let r = center_crop(100, 100, &bbox(10, 10, 1, 1), 1, 2);
    assert_eq!(r, Err(GeometryError::InvalidCropSize));
}

#[test]
fn box_outside_image_signals_degenerate_crop() {
    // Both horizontal edges clamp to the right border: no width remains.
    let r = center_crop(100, 100, &bbox(200, 200, 10, 10), 2, 1);
    assert_eq!(r, Err(GeometryError::DegenerateCrop));
}

#[test]
fn box_on_border_signals_degenerate_crop() {
    // Center sits exactly on the right and bottom border of the image.
    let r = center_crop(10, 10, &bbox(5, 5, 10, 10), 2, 1);
    assert_eq!(r, Ok(CropRect { x: 0, y: 0, width: 10, height: 10 }));
    let r2 = center_crop(0, 0, &bbox(0, 0, 0, 3), 2, 1);
    assert_eq!(r2, Err(GeometryError::DegenerateCrop));
}

#[test]
fn fractional_scale_floors() {
    // max side 7 scaled by 3/2 floors to 10.
    let r = center_crop(100, 100, &bbox(40, 40, 7, 7), 3, 2);
    assert_eq!(r, Ok(CropRect { x: 38, y: 38, width: 10, height: 10 }));
}
