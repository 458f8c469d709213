use vstd::prelude::*;

use crate::detection::DetectionSet;
use crate::detection::select_single_face;
use crate::detection::select_spec;
use crate::geometry::CropRect;
use crate::geometry::GeometryError;
use crate::geometry::center_crop;
use crate::geometry::center_crop_spec;

verus! {

/// The fixed scale applied to the accepted box: the crop window doubles the
/// longer box side.
pub const SCALE_NUM: u32 = 2;

/// Denominator of the fixed scale.
pub const SCALE_DEN: u32 = 1;

/// Why an image was passed over without an error.
#[derive(Clone, Copy, Debug, PartialEq, Eq, Structural)]
pub enum SkipReason {
    /// The decoded buffer was empty or the file was unreadable.
    UnreadableImage,
    /// Zero qualifying detections, several of them, or malformed output.
    NoSingleFace,
}

/// Per-image outcome of the pipeline's decisions: a crop window to apply,
/// a reason to pass the image over, or a geometry failure to report.
#[derive(Clone, Copy, Debug, PartialEq, Eq, Structural)]
pub enum ProcessOutcome {
    Cropped(CropRect),
    Skipped(SkipReason),
    Failed(GeometryError),
}

/// What `process_detections` returns: filtering reduced to one box and the
/// doubling crop applied to it, or the skip or failure that stops the image.
pub open spec fn process_spec(
    img_width: i32,
    img_height: i32,
    s: Seq<Seq<i32>>,
    conf_thresh: i32,
) -> ProcessOutcome {
    match select_spec(s, conf_thresh) {
        None => ProcessOutcome::Skipped(SkipReason::NoSingleFace),
        Some(b) => match center_crop_spec(img_width, img_height, b, SCALE_NUM, SCALE_DEN) {
            Ok(c) => ProcessOutcome::Cropped(c),
            Err(e) => ProcessOutcome::Failed(e),
        },
    }
}

/// Gate applied right after decoding: an empty buffer is an expected input
/// condition and skips the image; it is not an error.
pub fn decode_gate(img_width: i32, img_height: i32) -> (r: Option<SkipReason>)
    ensures
        r == if img_width <= 0 || img_height <= 0 {
            Some(SkipReason::UnreadableImage)
        } else {
            None::<SkipReason>
        },
{
    if img_width <= 0 || img_height <= 0 {
        Some(SkipReason::UnreadableImage)
    } else {
        None
    }
}

/// Decision core of per-image processing, applied once decoding and
/// inference have handed back plain values: reduce the detections to at most
/// one box, then compute the doubled, clamped crop window around it. Every
/// failure becomes an outcome; nothing here panics or performs I/O.
pub fn process_detections(
    img_width: i32,
    img_height: i32,
    dets: &DetectionSet,
    conf_thresh: i32,
) -> (r: ProcessOutcome)
    requires
        img_width >= 0,
        img_height >= 0,
    ensures
        r == process_spec(img_width, img_height, dets@, conf_thresh),
{
    match select_single_face(dets, conf_thresh) {
        None => ProcessOutcome::Skipped(SkipReason::NoSingleFace),
        Some(bbox) => match center_crop(img_width, img_height, &bbox, SCALE_NUM, SCALE_DEN) {
            Ok(c) => ProcessOutcome::Cropped(c),
            Err(e) => ProcessOutcome::Failed(e),
        },
    }
}

} // verus!

