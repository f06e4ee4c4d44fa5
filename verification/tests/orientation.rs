use footage::orientation::{VideoOrientation, VideoOrientationTransformation};

const ALL: [VideoOrientation; 8] = [
    VideoOrientation::Identity,
    VideoOrientation::Rotate90Right,
    VideoOrientation::Rotate180,
    VideoOrientation::Rotate90Left,
    VideoOrientation::HorizontalFlip,
    VideoOrientation::VerticalFlip,
    VideoOrientation::UpperLeftLowerRight,
    VideoOrientation::UpperRightLowerLeft,
];

const TRANSFORMS: [VideoOrientationTransformation; 4] = [
    VideoOrientationTransformation::RotateRight,
    VideoOrientationTransformation::RotateLeft,
    VideoOrientationTransformation::HorizontalFlip,
    VideoOrientationTransformation::VerticalFlip,
];

fn inverse(t: VideoOrientationTransformation) -> VideoOrientationTransformation {
    match t {
        VideoOrientationTransformation::RotateRight => VideoOrientationTransformation::RotateLeft,
        VideoOrientationTransformation::RotateLeft => VideoOrientationTransformation::RotateRight,
        other => other,
    }
}

#[test]
fn rotations_and_flips_compose() {
    assert_eq!(VideoOrientation::Identity.transformed(VideoOrientationTransformation::RotateRight), VideoOrientation::Rotate90Right);
    assert_eq!(VideoOrientation::Rotate90Right.transformed(VideoOrientationTransformation::RotateRight), VideoOrientation::Rotate180);
    assert_eq!(VideoOrientation::Rotate180.transformed(VideoOrientationTransformation::RotateRight), VideoOrientation::Rotate90Left);
    assert_eq!(VideoOrientation::Rotate90Left.transformed(VideoOrientationTransformation::RotateRight), VideoOrientation::Identity);
    assert_eq!(VideoOrientation::Identity.transformed(VideoOrientationTransformation::HorizontalFlip), VideoOrientation::HorizontalFlip);
    assert_eq!(VideoOrientation::HorizontalFlip.transformed(VideoOrientationTransformation::VerticalFlip), VideoOrientation::Rotate180);
    assert_eq!(VideoOrientation::Rotate90Right.transformed(VideoOrientationTransformation::HorizontalFlip), VideoOrientation::UpperLeftLowerRight);
    assert_eq!(VideoOrientation::Rotate90Right.transformed(VideoOrientationTransformation::VerticalFlip), VideoOrientation::UpperRightLowerLeft);
}

#[test]
fn every_transformation_is_undone_by_its_inverse() {
    for o in ALL {
        for t in TRANSFORMS {
            assert_eq!(o.transformed(t).transformed(inverse(t)), o);
            assert_eq!(
                o.transformed(t).is_width_height_swapped(),
                o.is_width_height_swapped() != t.swaps_width_height()
            );
        }
    }
}

#[test]
fn swapped_orientations_and_nicks() {
    let swapped: Vec<bool> = ALL.iter().map(|o| o.is_width_height_swapped()).collect();
    assert_eq!(swapped, vec![false, true, false, true, false, false, true, true]);
    let nicks: Vec<&str> = ALL.iter().map(|o| o.gst_method_nick()).collect();
    assert_eq!(
        nicks,
        vec!["identity", "90r", "180", "90l", "horiz", "vert", "ul-lr", "ur-ll"]
    );
}
