use face_crop::detection::DetectionSet;
use face_crop::geometry::CropRect;
use face_crop::geometry::GeometryError;
use face_crop::pipeline::ProcessOutcome;
use face_crop::pipeline::SkipReason;
use face_crop::pipeline::decode_gate;
use face_crop::pipeline::process_detections;

fn set(rows: Vec<Vec<i32>>) -> DetectionSet {
    DetectionSet { rows }
}

#[test]
fn empty_decode_is_skipped() {
    assert_eq!(decode_gate(0, 480), Some(SkipReason::UnreadableImage));
    assert_eq!(decode_gate(640, 0), Some(SkipReason::UnreadableImage));
    assert_eq!(decode_gate(640, 480), None);
}

#[test]
fn single_clear_face_is_cropped() {
    // One confident detection in a 640x480 image: box (200, 100) to
    // (300, 200), so the doubled window is the square of side 200 around
    // (250, 150).
    let dets = set(vec![vec![200, 100, 300, 200, 900, 0]]);
    assert_eq!(
        process_detections(640, 480, &dets, 500),
        ProcessOutcome::Cropped(CropRect { x: 150, y: 50, width: 200, height: 200 })
    );
}

#[test]
fn two_overlapping_faces_are_skipped() {
    // Both detections qualify; the image is ambiguous and is passed over.
    let dets = set(vec![vec![200, 100, 300, 200, 900, 0], vec![210, 110, 310, 210, 850, 0]]);
    assert_eq!(
        process_detections(640, 480, &dets, 500),
        ProcessOutcome::Skipped(SkipReason::NoSingleFace)
    );
}

#[test]
fn no_detections_are_skipped() {
    assert_eq!(
        process_detections(640, 480, &set(vec![]), 500),
        ProcessOutcome::Skipped(SkipReason::NoSingleFace)
    );
}

#[test]
fn point_detection_fails_geometry() {
    // The two corners coincide: the crop size is zero, which is a failure,
    // not a skip.
    let dets = set(vec![vec![300, 200, 300, 200, 900, 0]]);
    assert_eq!(
        process_detections(640, 480, &dets, 500),
        ProcessOutcome::Failed(GeometryError::InvalidCropSize)
    );
}

#[test]
fn face_outside_image_fails_geometry() {
    // A confident detection entirely right of and below the image: every
    // edge clamps to the same border and no area remains.
    let dets = set(vec![vec![700, 500, 720, 520, 900, 0]]);
    assert_eq!(
        process_detections(640, 480, &dets, 500),
        ProcessOutcome::Failed(GeometryError::DegenerateCrop)
    );
}

#[test]
fn border_face_is_cropped_off_center() {
    // A face at the top-left corner: the window clamps edge by edge and the
    // crop is kept asymmetric rather than shifted.
    let dets = set(vec![vec![0, 0, 10, 10, 900, 0]]);
    assert_eq!(
        process_detections(640, 480, &dets, 500),
        ProcessOutcome::Cropped(CropRect { x: 0, y: 0, width: 15, height: 15 })
    );
}
