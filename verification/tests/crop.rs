use footage::crop::{
    corner_key_move, cursor_name, drag_type_for, ArrowKey, Corner, DragType, MoveDirection,
    NearSides, Selection, Side, SideOrientation,
};
use footage::orientation::VideoOrientationTransformation;

fn sel() -> Selection<u8> {
    Selection { top: 1, right: 2, bottom: 3, left: 4 }
}

fn parts(s: Selection<u8>) -> (u8, u8, u8, u8) {
    (s.top, s.right, s.bottom, s.left)
}

#[test]
fn flips_exchange_opposite_insets() {
    assert_eq!(parts(sel().flipped_horizontal()), (1, 4, 3, 2));
    assert_eq!(parts(sel().flipped_vertical()), (3, 2, 1, 4));
}

#[test]
fn rotations_move_insets_around() {
    assert_eq!(parts(sel().rotated_right()), (4, 1, 2, 3));
    assert_eq!(parts(sel().rotated_left()), (2, 3, 4, 1));
}

#[test]
fn transformed_matches_each_operation() {
    let s = sel();
    assert_eq!(
        parts(s.transformed(VideoOrientationTransformation::RotateRight)),
        parts(s.rotated_right())
    );
    assert_eq!(
        parts(s.transformed(VideoOrientationTransformation::RotateLeft)),
        parts(s.rotated_left())
    );
    assert_eq!(
        parts(s.transformed(VideoOrientationTransformation::HorizontalFlip)),
        parts(s.flipped_horizontal())
    );
    assert_eq!(
        parts(s.transformed(VideoOrientationTransformation::VerticalFlip)),
        parts(s.flipped_vertical())
    );
}

#[test]
fn transform_then_inverse_restores_selection() {
    let s = sel();
    assert_eq!(parts(s.rotated_right().rotated_left()), parts(s));
    assert_eq!(parts(s.flipped_horizontal().flipped_horizontal()), parts(s));
    assert_eq!(parts(s.flipped_vertical().flipped_vertical()), parts(s));
}

#[test]
fn four_quarter_turns_and_half_turn() {
    let s = sel();
    assert_eq!(
        parts(s.rotated_right().rotated_right().rotated_right().rotated_right()),
        parts(s)
    );
    assert_eq!(
        parts(s.rotated_right().rotated_right()),
        parts(s.flipped_vertical().flipped_horizontal())
    );
}

#[test]
fn transformations_that_swap_width_and_height() {
    assert!(VideoOrientationTransformation::RotateRight.swaps_width_height());
    assert!(VideoOrientationTransformation::RotateLeft.swaps_width_height());
    assert!(!VideoOrientationTransformation::HorizontalFlip.swaps_width_height());
    assert!(!VideoOrientationTransformation::VerticalFlip.swaps_width_height());
}

#[test]
fn sides_corners_and_orientation() {
    assert_eq!(Side::Top.orientation(), SideOrientation::Vertical);
    assert_eq!(Side::Left.orientation(), SideOrientation::Horizontal);
    assert_eq!(Corner::TopRight.sides(), (Side::Top, Side::Right));
    assert_eq!(Corner::BottomLeft.sides(), (Side::Bottom, Side::Left));
    assert_eq!(DragType::Side(Side::Left).sides(), vec![Side::Left]);
    assert_eq!(
        DragType::Corner(Corner::BottomRight).sides(),
        vec![Side::Bottom, Side::Right]
    );
    assert_eq!(
        DragType::Whole.sides(),
        vec![Side::Top, Side::Right, Side::Bottom, Side::Left]
    );
}

#[test]
fn crop_cursor_names() {
    assert_eq!(DragType::Side(Side::Top).gtk_cursor_name(), "n-resize");
    assert_eq!(DragType::Side(Side::Right).gtk_cursor_name(), "e-resize");
    assert_eq!(DragType::Corner(Corner::TopLeft).gtk_cursor_name(), "nw-resize");
    assert_eq!(DragType::Corner(Corner::BottomLeft).gtk_cursor_name(), "sw-resize");
    assert_eq!(DragType::Whole.gtk_cursor_name(), "move");
    assert_eq!(cursor_name(None), "default");
    assert_eq!(cursor_name(Some(DragType::Whole)), "move");
}

#[test]
fn closest_sides_in_fixed_order() {
    let near = NearSides { top: true, right: false, bottom: false, left: true };
    assert_eq!(near.closest_sides(), vec![Side::Top, Side::Left]);
    let none = NearSides { top: false, right: false, bottom: false, left: false };
    assert!(none.closest_sides().is_empty());
}

#[test]
fn drag_type_classification() {
    assert_eq!(drag_type_for(&[], true), Some(DragType::Whole));
    assert_eq!(drag_type_for(&[], false), None);
    assert_eq!(drag_type_for(&[Side::Bottom], false), Some(DragType::Side(Side::Bottom)));
    assert_eq!(
        drag_type_for(&[Side::Top, Side::Left], true),
        Some(DragType::Corner(Corner::TopLeft))
    );
    assert_eq!(
        drag_type_for(&[Side::Right, Side::Bottom], false),
        Some(DragType::Corner(Corner::BottomRight))
    );
    // Opposite edges (a very thin box): the first one wins.
    assert_eq!(
        drag_type_for(&[Side::Top, Side::Bottom], false),
        Some(DragType::Side(Side::Top))
    );
    assert_eq!(
        drag_type_for(&[Side::Right, Side::Bottom, Side::Left], false),
        Some(DragType::Corner(Corner::BottomRight))
    );
}

#[test]
fn arrow_keys_on_corner_handles() {
    assert_eq!(
        ArrowKey::Up.move_side(),
        Some((SideOrientation::Vertical, MoveDirection::Negative))
    );
    assert_eq!(ArrowKey::Other.move_side(), None);
    assert_eq!(
        corner_key_move(Corner::TopLeft, ArrowKey::Down),
        Some((Side::Top, MoveDirection::Positive))
    );
    assert_eq!(
        corner_key_move(Corner::BottomRight, ArrowKey::Left),
        Some((Side::Right, MoveDirection::Negative))
    );
    assert_eq!(corner_key_move(Corner::TopRight, ArrowKey::Other), None);
}
