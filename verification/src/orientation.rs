use vstd::prelude::*;

verus! {

/// A quarter turn or a mirroring applied to the video by the user.
#[derive(Clone, Copy, Debug, PartialEq, Eq, Structural)]
pub enum VideoOrientationTransformation {
    RotateRight,
    RotateLeft,
    HorizontalFlip,
    VerticalFlip,
}

impl VideoOrientationTransformation {
    /// Whether the transformation exchanges the frame's width and height: quarter
    /// turns do, mirrorings do not.
    pub fn swaps_width_height(self) -> (b: bool)
        ensures
            b == (self == VideoOrientationTransformation::RotateRight || self
                == VideoOrientationTransformation::RotateLeft),
    {
        match self {
            VideoOrientationTransformation::RotateRight | VideoOrientationTransformation::RotateLeft => true,
            VideoOrientationTransformation::HorizontalFlip | VideoOrientationTransformation::VerticalFlip => false,
        }
    }
}

/// The orientation applied to the source: one of the eight symmetries of a
/// rectangle, named as GStreamer's `GstVideoOrientationMethod` values.
#[derive(Clone, Copy, Debug, PartialEq, Eq, Structural)]
pub enum VideoOrientation {
    Identity,
    Rotate90Right,
    Rotate180,
    Rotate90Left,
    HorizontalFlip,
    VerticalFlip,
    UpperLeftLowerRight,
    UpperRightLowerLeft,
}

/// A 2×2 integer matrix `(a, b, c, d)` acting on picture coordinates `(x, y)`,
/// measured from the centre with `y` growing downwards: `(x, y)` goes to
/// `(a·x + b·y, c·x + d·y)`.
pub type Matrix = (int, int, int, int);

/// The matrix of `t` applied after `m`, that is, `m` multiplied on the left by
/// `t`'s matrix: a clockwise quarter turn `(0, -1, 1, 0)` takes the right edge to
/// the bottom, a counterclockwise one is `(0, 1, -1, 0)`, a horizontal flip
/// `(-1, 0, 0, 1)` exchanges left and right, a vertical flip `(1, 0, 0, -1)`
/// exchanges top and bottom.
pub open spec fn then_apply(m: Matrix, t: VideoOrientationTransformation) -> Matrix {
    let (a, b, c, d) = m;
    match t {
        VideoOrientationTransformation::RotateRight => (-c, -d, a, b),
        VideoOrientationTransformation::RotateLeft => (c, d, -a, -b),
        VideoOrientationTransformation::HorizontalFlip => (-a, -b, c, d),
        VideoOrientationTransformation::VerticalFlip => (a, b, -c, -d),
    }
}

impl VideoOrientation {
    /// How this orientation moves the source's picture coordinates.
    pub open spec fn spec_matrix(self) -> Matrix {
        match self {
            VideoOrientation::Identity => (1, 0, 0, 1),
            VideoOrientation::Rotate90Right => (0, -1, 1, 0),
            VideoOrientation::Rotate180 => (-1, 0, 0, -1),
            VideoOrientation::Rotate90Left => (0, 1, -1, 0),
            VideoOrientation::HorizontalFlip => (-1, 0, 0, 1),
            VideoOrientation::VerticalFlip => (1, 0, 0, -1),
            VideoOrientation::UpperLeftLowerRight => (0, 1, 1, 0),
            VideoOrientation::UpperRightLowerLeft => (0, -1, -1, 0),
        }
    }

    /// The orientation reached by applying `t` on top of this one.
    pub open spec fn spec_transformed(self, t: VideoOrientationTransformation) -> VideoOrientation {
        choose|o: VideoOrientation| o.spec_matrix() == then_apply(self.spec_matrix(), t)
    }

    /// Whether the frame's width and height are exchanged: the orientation maps
    /// the horizontal axis onto the vertical one.
    pub open spec fn spec_is_width_height_swapped(self) -> bool {
        self.spec_matrix().0 == 0
    }

    pub open spec fn spec_gst_method_nick(self) -> Seq<char> {
        match self {
            VideoOrientation::Identity => "identity"@,
            VideoOrientation::Rotate90Right => "90r"@,
            VideoOrientation::Rotate180 => "180"@,
            VideoOrientation::Rotate90Left => "90l"@,
            VideoOrientation::HorizontalFlip => "horiz"@,
            VideoOrientation::VerticalFlip => "vert"@,
            VideoOrientation::UpperLeftLowerRight => "ul-lr"@,
            VideoOrientation::UpperRightLowerLeft => "ur-ll"@,
        }
    }

    /// Different orientations move the picture differently.
    pub proof fn lemma_matrix_injective(a: VideoOrientation, b: VideoOrientation)
        ensures
            a.spec_matrix() == b.spec_matrix() <==> a == b,
    {
    }

    /// The orientation after applying `transformation` to this one: its matrix is
    /// this orientation's matrix with the transformation applied after it.
    pub fn transformed(self, transformation: VideoOrientationTransformation) -> (o: VideoOrientation)
        ensures
            o.spec_matrix() == then_apply(self.spec_matrix(), transformation),
            o == self.spec_transformed(transformation),
    {
        let o = match (self, transformation) {
            (VideoOrientation::Identity, VideoOrientationTransformation::RotateRight) => VideoOrientation::Rotate90Right,
            (VideoOrientation::Identity, VideoOrientationTransformation::RotateLeft) => VideoOrientation::Rotate90Left,
            (VideoOrientation::Identity, VideoOrientationTransformation::HorizontalFlip) => VideoOrientation::HorizontalFlip,
            (VideoOrientation::Identity, VideoOrientationTransformation::VerticalFlip) => VideoOrientation::VerticalFlip,
            (VideoOrientation::Rotate90Right, VideoOrientationTransformation::RotateRight) => VideoOrientation::Rotate180,
            (VideoOrientation::Rotate90Right, VideoOrientationTransformation::RotateLeft) => VideoOrientation::Identity,
            (VideoOrientation::Rotate90Right, VideoOrientationTransformation::HorizontalFlip) => VideoOrientation::UpperLeftLowerRight,
            (VideoOrientation::Rotate90Right, VideoOrientationTransformation::VerticalFlip) => VideoOrientation::UpperRightLowerLeft,
            (VideoOrientation::Rotate180, VideoOrientationTransformation::RotateRight) => VideoOrientation::Rotate90Left,
            (VideoOrientation::Rotate180, VideoOrientationTransformation::RotateLeft) => VideoOrientation::Rotate90Right,
            (VideoOrientation::Rotate180, VideoOrientationTransformation::HorizontalFlip) => VideoOrientation::VerticalFlip,
            (VideoOrientation::Rotate180, VideoOrientationTransformation::VerticalFlip) => VideoOrientation::HorizontalFlip,
            (VideoOrientation::Rotate90Left, VideoOrientationTransformation::RotateRight) => VideoOrientation::Identity,
            (VideoOrientation::Rotate90Left, VideoOrientationTransformation::RotateLeft) => VideoOrientation::Rotate180,
            (VideoOrientation::Rotate90Left, VideoOrientationTransformation::HorizontalFlip) => VideoOrientation::UpperRightLowerLeft,
            (VideoOrientation::Rotate90Left, VideoOrientationTransformation::VerticalFlip) => VideoOrientation::UpperLeftLowerRight,
            (VideoOrientation::HorizontalFlip, VideoOrientationTransformation::RotateRight) => VideoOrientation::UpperRightLowerLeft,
            (VideoOrientation::HorizontalFlip, VideoOrientationTransformation::RotateLeft) => VideoOrientation::UpperLeftLowerRight,
            (VideoOrientation::HorizontalFlip, VideoOrientationTransformation::HorizontalFlip) => VideoOrientation::Identity,
            (VideoOrientation::HorizontalFlip, VideoOrientationTransformation::VerticalFlip) => VideoOrientation::Rotate180,
            (VideoOrientation::VerticalFlip, VideoOrientationTransformation::RotateRight) => VideoOrientation::UpperLeftLowerRight,
            (VideoOrientation::VerticalFlip, VideoOrientationTransformation::RotateLeft) => VideoOrientation::UpperRightLowerLeft,
            (VideoOrientation::VerticalFlip, VideoOrientationTransformation::HorizontalFlip) => VideoOrientation::Rotate180,
            (VideoOrientation::VerticalFlip, VideoOrientationTransformation::VerticalFlip) => VideoOrientation::Identity,
            (VideoOrientation::UpperLeftLowerRight, VideoOrientationTransformation::RotateRight) => VideoOrientation::HorizontalFlip,
            (VideoOrientation::UpperLeftLowerRight, VideoOrientationTransformation::RotateLeft) => VideoOrientation::VerticalFlip,
            (VideoOrientation::UpperLeftLowerRight, VideoOrientationTransformation::HorizontalFlip) => VideoOrientation::Rotate90Right,
            (VideoOrientation::UpperLeftLowerRight, VideoOrientationTransformation::VerticalFlip) => VideoOrientation::Rotate90Left,
            (VideoOrientation::UpperRightLowerLeft, VideoOrientationTransformation::RotateRight) => VideoOrientation::VerticalFlip,
            (VideoOrientation::UpperRightLowerLeft, VideoOrientationTransformation::RotateLeft) => VideoOrientation::HorizontalFlip,
            (VideoOrientation::UpperRightLowerLeft, VideoOrientationTransformation::HorizontalFlip) => VideoOrientation::Rotate90Left,
            (VideoOrientation::UpperRightLowerLeft, VideoOrientationTransformation::VerticalFlip) => VideoOrientation::Rotate90Right,
        };
        proof {
            Self::lemma_matrix_injective(o, self.spec_transformed(transformation));
        }
        o
    }

    /// Whether the frame's width and height are exchanged in this orientation.
    pub fn is_width_height_swapped(self) -> (b: bool)
        ensures
            b == self.spec_is_width_height_swapped(),
    {
        match self {
            VideoOrientation::Rotate90Right | VideoOrientation::Rotate90Left
            | VideoOrientation::UpperLeftLowerRight | VideoOrientation::UpperRightLowerLeft => true,
            VideoOrientation::Identity | VideoOrientation::Rotate180
            | VideoOrientation::HorizontalFlip | VideoOrientation::VerticalFlip => false,
        }
    }

    /// The nick of the matching `GstVideoOrientationMethod` value.
    pub fn gst_method_nick(self) -> (nick: &'static str)
        ensures
            nick@ == self.spec_gst_method_nick(),
    {
        match self {
            VideoOrientation::Identity => "identity",
            VideoOrientation::Rotate90Right => "90r",
            VideoOrientation::Rotate180 => "180",
            VideoOrientation::Rotate90Left => "90l",
            VideoOrientation::HorizontalFlip => "horiz",
            VideoOrientation::VerticalFlip => "vert",
            VideoOrientation::UpperLeftLowerRight => "ul-lr",
            VideoOrientation::UpperRightLowerLeft => "ur-ll",
        }
    }
}

/// The transformation that undoes `t`.
pub open spec fn inverse(t: VideoOrientationTransformation) -> VideoOrientationTransformation {
    match t {
        VideoOrientationTransformation::RotateRight => VideoOrientationTransformation::RotateLeft,
        VideoOrientationTransformation::RotateLeft => VideoOrientationTransformation::RotateRight,
        VideoOrientationTransformation::HorizontalFlip => VideoOrientationTransformation::HorizontalFlip,
        VideoOrientationTransformation::VerticalFlip => VideoOrientationTransformation::VerticalFlip,
    }
}

/// Every transformation leads each orientation to one, applying its inverse
/// afterwards returns to where it started, and the width and height end up
/// exchanged exactly when one of the orientation and the transformation exchanges
/// them.
pub proof fn law_orientation_transforms(o: VideoOrientation, t: VideoOrientationTransformation)
    ensures
        o.spec_transformed(t).spec_matrix() == then_apply(o.spec_matrix(), t),
        o.spec_transformed(t).spec_transformed(inverse(t)) == o,
        o.spec_transformed(t).spec_is_width_height_swapped() == (o.spec_is_width_height_swapped()
            != (t == VideoOrientationTransformation::RotateRight || t
            == VideoOrientationTransformation::RotateLeft)),
{
    lemma_transformed_exists(o, t);
    let p = o.spec_transformed(t);
    lemma_transformed_exists(p, inverse(t));
    VideoOrientation::lemma_matrix_injective(p.spec_transformed(inverse(t)), o);
}

/// Some orientation has the resulting matrix, so `spec_transformed` picks it.
proof fn lemma_transformed_exists(o: VideoOrientation, t: VideoOrientationTransformation)
    ensures
        o.spec_transformed(t).spec_matrix() == then_apply(o.spec_matrix(), t),
{
    let m = then_apply(o.spec_matrix(), t);
    assert(exists|w: VideoOrientation| w.spec_matrix() == m) by {
        assert({
            ||| VideoOrientation::Identity.spec_matrix() == m
            ||| VideoOrientation::Rotate90Right.spec_matrix() == m
            ||| VideoOrientation::Rotate180.spec_matrix() == m
            ||| VideoOrientation::Rotate90Left.spec_matrix() == m
            ||| VideoOrientation::HorizontalFlip.spec_matrix() == m
            ||| VideoOrientation::VerticalFlip.spec_matrix() == m
            ||| VideoOrientation::UpperLeftLowerRight.spec_matrix() == m
            ||| VideoOrientation::UpperRightLowerLeft.spec_matrix() == m
        });
    }
}

} // verus!
