use vstd::prelude::*;

use crate::orientation::{inverse, VideoOrientationTransformation};

verus! {

/// A crop box as insets from each edge of the frame. The editor keeps them as
/// fractions of the frame's size.
#[derive(Clone, Copy, Debug, Default)]
pub struct Selection<T> {
    pub top: T,
    pub right: T,
    pub bottom: T,
    pub left: T,
}

/// The insets after mirroring left and right.
pub open spec fn spec_flipped_horizontal<T>(s: Selection<T>) -> Selection<T> {
    Selection { top: s.top, right: s.left, bottom: s.bottom, left: s.right }
}

/// The insets after mirroring top and bottom.
pub open spec fn spec_flipped_vertical<T>(s: Selection<T>) -> Selection<T> {
    Selection { top: s.bottom, right: s.right, bottom: s.top, left: s.left }
}

/// The insets after a quarter turn clockwise: the left edge becomes the top.
pub open spec fn spec_rotated_right<T>(s: Selection<T>) -> Selection<T> {
    Selection { top: s.left, right: s.top, bottom: s.right, left: s.bottom }
}

/// The insets after a quarter turn counterclockwise: the right edge becomes the top.
pub open spec fn spec_rotated_left<T>(s: Selection<T>) -> Selection<T> {
    Selection { top: s.right, right: s.bottom, bottom: s.left, left: s.top }
}

/// The insets after `t`.
pub open spec fn spec_transformed<T>(s: Selection<T>, t: VideoOrientationTransformation) -> Selection<T> {
    match t {
        VideoOrientationTransformation::RotateRight => spec_rotated_right(s),
        VideoOrientationTransformation::RotateLeft => spec_rotated_left(s),
        VideoOrientationTransformation::HorizontalFlip => spec_flipped_horizontal(s),
        VideoOrientationTransformation::VerticalFlip => spec_flipped_vertical(s),
    }
}

impl<T: Copy> Selection<T> {
    pub fn flipped_horizontal(&self) -> (s: Selection<T>)
        ensures
            s == spec_flipped_horizontal(*self),
    {
        Selection { top: self.top, right: self.left, bottom: self.bottom, left: self.right }
    }

    pub fn flipped_vertical(&self) -> (s: Selection<T>)
        ensures
            s == spec_flipped_vertical(*self),
    {
        Selection { top: self.bottom, right: self.right, bottom: self.top, left: self.left }
    }

    pub fn rotated_right(&self) -> (s: Selection<T>)
        ensures
            s == spec_rotated_right(*self),
    {
        Selection { top: self.left, right: self.top, bottom: self.right, left: self.bottom }
    }

    pub fn rotated_left(&self) -> (s: Selection<T>)
        ensures
            s == spec_rotated_left(*self),
    {
        Selection { top: self.right, right: self.bottom, bottom: self.left, left: self.top }
    }

    /// The selection remapped for an orientation change, so that it keeps covering
    /// the same pixels after the transform.
    pub fn transformed(&self, transformation: VideoOrientationTransformation) -> (s: Selection<T>)
        ensures
            s == spec_transformed(*self, transformation),
    {
        match transformation {
            VideoOrientationTransformation::RotateRight => self.rotated_right(),
            VideoOrientationTransformation::RotateLeft => self.rotated_left(),
            VideoOrientationTransformation::HorizontalFlip => self.flipped_horizontal(),
            VideoOrientationTransformation::VerticalFlip => self.flipped_vertical(),
        }
    }
}

/// Every orientation change of a selection is undone by its inverse.
pub proof fn law_transform_then_inverse<T>(s: Selection<T>, t: VideoOrientationTransformation)
    ensures
        spec_transformed(spec_transformed(s, t), inverse(t)) == s,
        spec_transformed(spec_transformed(s, inverse(t)), t) == s,
{
}

/// Four quarter turns in the same direction give back the selection.
pub proof fn law_four_quarter_turns<T>(s: Selection<T>)
    ensures
        spec_rotated_right(spec_rotated_right(spec_rotated_right(spec_rotated_right(s)))) == s,
        spec_rotated_left(spec_rotated_left(spec_rotated_left(spec_rotated_left(s)))) == s,
{
}

/// A half turn is the same as mirroring both ways, in either order, and the two
/// mirrorings commute.
pub proof fn law_half_turn_is_double_flip<T>(s: Selection<T>)
    ensures
        spec_rotated_right(spec_rotated_right(s)) == spec_flipped_horizontal(spec_flipped_vertical(s)),
        spec_rotated_left(spec_rotated_left(s)) == spec_flipped_vertical(spec_flipped_horizontal(s)),
        spec_flipped_horizontal(spec_flipped_vertical(s)) == spec_flipped_vertical(spec_flipped_horizontal(s)),
{
}

/// Whether a crop edge runs across (top, bottom) or along (left, right) the frame.
#[derive(Clone, Copy, Debug, PartialEq, Eq, Structural)]
pub enum SideOrientation {
    Horizontal,
    Vertical,
}

/// One edge of the crop box.
#[derive(Clone, Copy, Debug, PartialEq, Eq, Structural)]
pub enum Side {
    Top,
    Right,
    Bottom,
    Left,
}

impl Side {
    pub open spec fn spec_orientation(self) -> SideOrientation {
        match self {
            Side::Top | Side::Bottom => SideOrientation::Vertical,
            Side::Left | Side::Right => SideOrientation::Horizontal,
        }
    }

    /// Which pointer axis moves this edge: top and bottom move vertically.
    pub fn orientation(self) -> (o: SideOrientation)
        ensures
            o == self.spec_orientation(),
    {
        match self {
            Side::Top | Side::Bottom => SideOrientation::Vertical,
            Side::Left | Side::Right => SideOrientation::Horizontal,
        }
    }
}

/// One corner of the crop box.
#[derive(Clone, Copy, Debug, PartialEq, Eq, Structural)]
pub enum Corner {
    TopLeft,
    TopRight,
    BottomLeft,
    BottomRight,
}

impl Corner {
    pub open spec fn spec_sides(self) -> (Side, Side) {
        match self {
            Corner::TopLeft => (Side::Top, Side::Left),
            Corner::TopRight => (Side::Top, Side::Right),
            Corner::BottomLeft => (Side::Bottom, Side::Left),
            Corner::BottomRight => (Side::Bottom, Side::Right),
        }
    }

    /// The two sides that meet at this corner, returned as `(vertical, horizontal)`.
    pub fn sides(self) -> (s: (Side, Side))
        ensures
            s == self.spec_sides(),
            s.0.spec_orientation() == SideOrientation::Vertical,
            s.1.spec_orientation() == SideOrientation::Horizontal,
    {
        match self {
            Corner::TopLeft => (Side::Top, Side::Left),
            Corner::TopRight => (Side::Top, Side::Right),
            Corner::BottomLeft => (Side::Bottom, Side::Left),
            Corner::BottomRight => (Side::Bottom, Side::Right),
        }
    }
}

/// What a pointer drag on the crop box moves.
#[derive(Clone, Copy, Debug, PartialEq, Eq, Structural)]
pub enum DragType {
    Side(Side),
    Corner(Corner),
    Whole,
}

impl DragType {
    pub open spec fn spec_cursor_name(self) -> Seq<char> {
        match self {
            DragType::Side(Side::Top) => "n-resize"@,
            DragType::Side(Side::Bottom) => "s-resize"@,
            DragType::Side(Side::Left) => "w-resize"@,
            DragType::Side(Side::Right) => "e-resize"@,
            DragType::Corner(Corner::TopRight) => "ne-resize"@,
            DragType::Corner(Corner::BottomLeft) => "sw-resize"@,
            DragType::Corner(Corner::TopLeft) => "nw-resize"@,
            DragType::Corner(Corner::BottomRight) => "se-resize"@,
            DragType::Whole => "move"@,
        }
    }

    /// GDK cursor name to display for this hover state.
    pub fn gtk_cursor_name(self) -> (name: &'static str)
        ensures
            name@ == self.spec_cursor_name(),
    {
        match self {
            DragType::Side(Side::Top) => "n-resize",
            DragType::Side(Side::Bottom) => "s-resize",
            DragType::Side(Side::Left) => "w-resize",
            DragType::Side(Side::Right) => "e-resize",
            DragType::Corner(Corner::TopRight) => "ne-resize",
            DragType::Corner(Corner::BottomLeft) => "sw-resize",
            DragType::Corner(Corner::TopLeft) => "nw-resize",
            DragType::Corner(Corner::BottomRight) => "se-resize",
            DragType::Whole => "move",
        }
    }

    pub open spec fn spec_sides(self) -> Seq<Side> {
        match self {
            DragType::Side(side) => seq![side],
            DragType::Corner(corner) => seq![corner.spec_sides().0, corner.spec_sides().1],
            DragType::Whole => seq![Side::Top, Side::Right, Side::Bottom, Side::Left],
        }
    }

    /// The edges that this drag moves.
    pub fn sides(self) -> (s: Vec<Side>)
        ensures
            s@ == self.spec_sides(),
    {
        match self {
            DragType::Side(side) => vec![side],
            DragType::Corner(corner) => vec![corner.sides().0, corner.sides().1],
            DragType::Whole => vec![Side::Top, Side::Right, Side::Bottom, Side::Left],
        }
    }
}

/// The cursor name for a hover state, `"default"` where no drag would start.
pub fn cursor_name(drag: Option<DragType>) -> (name: &'static str)
    ensures
        name@ == match drag {
            Some(d) => d.spec_cursor_name(),
            None => "default"@,
        },
{
    match drag {
        Some(d) => d.gtk_cursor_name(),
        None => "default",
    }
}

/// Positive means moving down for top and bottom, and right for left and right.
/// Negative means the opposite.
#[derive(Clone, Copy, Debug, PartialEq, Eq, Structural)]
pub enum MoveDirection {
    Positive,
    Negative,
}

/// For each edge of the crop box, whether the pointer is within reach of it.
#[derive(Clone, Copy, Debug)]
pub struct NearSides {
    pub top: bool,
    pub right: bool,
    pub bottom: bool,
    pub left: bool,
}

/// The edges within reach, in the order top, right, bottom, left.
pub open spec fn spec_closest_sides(near: NearSides) -> Seq<Side> {
    (if near.top { seq![Side::Top] } else { seq![] }) + (if near.right {
        seq![Side::Right]
    } else {
        seq![]
    }) + (if near.bottom { seq![Side::Bottom] } else { seq![] }) + (if near.left {
        seq![Side::Left]
    } else {
        seq![]
    })
}

impl NearSides {
    /// The edges within reach, in the order top, right, bottom, left.
    pub fn closest_sides(&self) -> (s: Vec<Side>)
        ensures
            s@ == spec_closest_sides(*self),
    {
        let mut s: Vec<Side> = Vec::new();
        if self.top {
            s.push(Side::Top);
        }
        if self.right {
            s.push(Side::Right);
        }
        if self.bottom {
            s.push(Side::Bottom);
        }
        if self.left {
            s.push(Side::Left);
        }
        assert(s@ =~= spec_closest_sides(*self));
        s
    }
}

/// The drag for a pointer within reach of two edges, the first of them listed first.
pub open spec fn spec_pair_drag(first: Side, second: Side) -> DragType {
    match (first, second) {
        (Side::Top, Side::Left) | (Side::Left, Side::Top) => DragType::Corner(Corner::TopLeft),
        (Side::Top, Side::Right) | (Side::Right, Side::Top) => DragType::Corner(Corner::TopRight),
        (Side::Bottom, Side::Left) | (Side::Left, Side::Bottom) => DragType::Corner(
            Corner::BottomLeft,
        ),
        (Side::Bottom, Side::Right) | (Side::Right, Side::Bottom) => DragType::Corner(
            Corner::BottomRight,
        ),
        (side, _) => DragType::Side(side),
    }
}

/// The drag that a press would start, given the edges within reach of the pointer
/// (closest first) and whether the pointer is inside the crop box.
pub open spec fn spec_drag_type_for(closest: Seq<Side>, inside: bool) -> Option<DragType> {
    if closest.len() == 0 {
        if inside {
            Some(DragType::Whole)
        } else {
            None
        }
    } else if closest.len() == 1 {
        Some(DragType::Side(closest[0]))
    } else {
        Some(spec_pair_drag(closest[0], closest[1]))
    }
}

/// Classifies a press as a side, corner, whole-box, or no-op drag: no edge within
/// reach moves the whole box when inside it, one edge moves that edge, and two
/// edges that meet move their corner.
pub fn drag_type_for(closest: &[Side], inside: bool) -> (d: Option<DragType>)
    ensures
        d == spec_drag_type_for(closest@, inside),
{
    if closest.len() == 0 {
        if inside {
            Some(DragType::Whole)
        } else {
            None
        }
    } else if closest.len() == 1 {
        Some(DragType::Side(closest[0]))
    } else {
        Some(
            match (closest[0], closest[1]) {
                (Side::Top, Side::Left) | (Side::Left, Side::Top) => DragType::Corner(
                    Corner::TopLeft,
                ),
                (Side::Top, Side::Right) | (Side::Right, Side::Top) => DragType::Corner(
                    Corner::TopRight,
                ),
                (Side::Bottom, Side::Left) | (Side::Left, Side::Bottom) => DragType::Corner(
                    Corner::BottomLeft,
                ),
                (Side::Bottom, Side::Right) | (Side::Right, Side::Bottom) => DragType::Corner(
                    Corner::BottomRight,
                ),
                (Side::Top, _) => DragType::Side(Side::Top),
                (Side::Bottom, _) => DragType::Side(Side::Bottom),
                (Side::Left, _) => DragType::Side(Side::Left),
                (Side::Right, _) => DragType::Side(Side::Right),
            },
        )
    }
}

/// A press near one edge grabs that edge; near two edges that meet, it grabs
/// their corner, and the corner's drag moves exactly those two edges.
pub proof fn law_corner_drag_moves_its_edges(c: Corner)
    ensures
        spec_drag_type_for(seq![c.spec_sides().0, c.spec_sides().1], false) == Some(
            DragType::Corner(c),
        ),
        DragType::Corner(c).spec_sides() == seq![c.spec_sides().0, c.spec_sides().1],
{
}

/// A press within reach of exactly the two edges that meet at a corner grabs that
/// corner, whether or not it is inside the box; one within reach of no edge grabs
/// the whole box exactly when inside it.
pub proof fn law_press_near_corner(c: Corner, inside: bool)
    ensures
        spec_drag_type_for(
            spec_closest_sides(
                NearSides {
                    top: c.spec_sides().0 == Side::Top,
                    right: c.spec_sides().1 == Side::Right,
                    bottom: c.spec_sides().0 == Side::Bottom,
                    left: c.spec_sides().1 == Side::Left,
                },
            ),
            inside,
        ) == Some(DragType::Corner(c)),
        spec_drag_type_for(
            spec_closest_sides(NearSides { top: false, right: false, bottom: false, left: false }),
            inside,
        ) == if inside {
            Some(DragType::Whole)
        } else {
            None
        },
{
    let near = NearSides {
        top: c.spec_sides().0 == Side::Top,
        right: c.spec_sides().1 == Side::Right,
        bottom: c.spec_sides().0 == Side::Bottom,
        left: c.spec_sides().1 == Side::Left,
    };
    match c {
        Corner::TopLeft => assert(spec_closest_sides(near) =~= seq![Side::Top, Side::Left]),
        Corner::TopRight => assert(spec_closest_sides(near) =~= seq![Side::Top, Side::Right]),
        Corner::BottomLeft => assert(spec_closest_sides(near) =~= seq![Side::Bottom, Side::Left]),
        Corner::BottomRight => assert(spec_closest_sides(near) =~= seq![Side::Right, Side::Bottom]),
    }
    assert(spec_closest_sides(NearSides { top: false, right: false, bottom: false, left: false })
        =~= Seq::<Side>::empty());
}

/// Keys that the crop box reacts to.
#[derive(Clone, Copy, Debug, PartialEq, Eq, Structural)]
pub enum ArrowKey {
    Up,
    Down,
    Left,
    Right,
    Other,
}

pub open spec fn spec_key_move(key: ArrowKey) -> Option<(SideOrientation, MoveDirection)> {
    match key {
        ArrowKey::Up => Some((SideOrientation::Vertical, MoveDirection::Negative)),
        ArrowKey::Down => Some((SideOrientation::Vertical, MoveDirection::Positive)),
        ArrowKey::Left => Some((SideOrientation::Horizontal, MoveDirection::Negative)),
        ArrowKey::Right => Some((SideOrientation::Horizontal, MoveDirection::Positive)),
        ArrowKey::Other => None,
    }
}

impl ArrowKey {
    /// The axis and direction an arrow key moves an edge in; other keys move nothing.
    pub fn move_side(&self) -> (m: Option<(SideOrientation, MoveDirection)>)
        ensures
            m == spec_key_move(*self),
    {
        match *self {
            ArrowKey::Up => Some((SideOrientation::Vertical, MoveDirection::Negative)),
            ArrowKey::Down => Some((SideOrientation::Vertical, MoveDirection::Positive)),
            ArrowKey::Left => Some((SideOrientation::Horizontal, MoveDirection::Negative)),
            ArrowKey::Right => Some((SideOrientation::Horizontal, MoveDirection::Positive)),
            ArrowKey::Other => None,
        }
    }
}

/// The edge and direction that an arrow key pressed on a corner handle moves:
/// vertical arrows move the corner's vertical side, horizontal arrows its
/// horizontal side.
pub fn corner_key_move(corner: Corner, key: ArrowKey) -> (m: Option<(Side, MoveDirection)>)
    ensures
        m == match spec_key_move(key) {
            Some((SideOrientation::Vertical, d)) => Some((corner.spec_sides().0, d)),
            Some((SideOrientation::Horizontal, d)) => Some((corner.spec_sides().1, d)),
            None => None,
        },
        m matches Some((side, _)) ==> side == corner.spec_sides().0 || side == corner.spec_sides().1,
{
    let (vertical_side, horizontal_side) = corner.sides();
    match key.move_side() {
        Some((side, direction)) => Some(
            (
                match side {
                    SideOrientation::Vertical => vertical_side,
                    SideOrientation::Horizontal => horizontal_side,
                },
                direction,
            ),
        ),
        None => None,
    }
}

/// A press within reach of exactly one edge grabs that very edge, inside the box
/// or not, and the drag moves that edge alone.
pub proof fn law_single_edge_grabs_it(s: Side, inside: bool)
    ensures
        spec_drag_type_for(seq![s], inside) == Some(DragType::Side(s)),
        DragType::Side(s).spec_sides() == seq![s],
{
}

} // verus!
