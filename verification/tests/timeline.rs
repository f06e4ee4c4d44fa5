use footage::time::Span;
use footage::timeline::{cursor_for, CursorType, DragType, Handle, Nudge, TimeRange, Timeline};

fn ms(v: u64) -> Span {
    Span::from_millis(v)
}

fn range(start: u64, end: u64) -> Option<TimeRange> {
    Some(TimeRange { start: ms(start), end: ms(end) })
}

fn loaded(start: u64, end: u64, duration: u64) -> Timeline {
    let mut t = Timeline::new();
    t.set_duration(ms(duration));
    t.set_range(range(start, end));
    t
}

fn millis_of(s: Span) -> u128 {
    s.as_nanos() / 1_000_000
}

#[test]
fn new_timeline_is_empty_and_hidden() {
    let t = Timeline::new();
    assert!(t.position.is_zero());
    assert!(t.duration.is_zero());
    let r = t.range.unwrap();
    assert!(r.start.is_zero() && r.end.is_zero());
    assert!(t.drag_type.is_none());
    let v = t.refresh();
    assert!(!v.position && !v.selection);
}

#[test]
fn visibility_follows_duration_and_range() {
    let mut t = Timeline::new();
    let v = t.set_duration(ms(1000));
    assert!(v.position && v.selection);
    let v = t.set_range(None);
    assert!(v.position && !v.selection);
    let v = t.set_duration(Span::zero());
    assert!(!v.position && !v.selection);
}

#[test]
fn set_position_is_clamped_to_selection() {
    let mut t = loaded(1000, 3000, 5000);
    t.set_position(ms(500));
    assert_eq!(millis_of(t.position), 1000);
    t.set_position(ms(4000));
    assert_eq!(millis_of(t.position), 3000);
    t.set_position(ms(2000));
    assert_eq!(millis_of(t.position), 2000);
}

#[test]
fn nudge_start_forward_and_back() {
    let mut t = loaded(1000, 3000, 5000);
    let e = t.nudge(Handle::Start, Nudge::Forward);
    assert_eq!(millis_of(e.range.start), 1250);
    assert_eq!(millis_of(e.range.end), 3000);
    assert_eq!(millis_of(e.position), 1250);
    let e = t.nudge(Handle::Start, Nudge::Back);
    assert_eq!(millis_of(e.range.start), 1000);
}

#[test]
fn nudge_start_stops_at_end_and_at_zero() {
    let mut t = loaded(2900, 3000, 5000);
    let e = t.nudge(Handle::Start, Nudge::Forward);
    assert_eq!(millis_of(e.range.start), 3000);
    let mut t = loaded(100, 3000, 5000);
    let e = t.nudge(Handle::Start, Nudge::Back);
    assert_eq!(millis_of(e.range.start), 0);
    assert_eq!(millis_of(e.position), 0);
}

#[test]
fn nudge_end_stops_at_clip_end_and_at_start() {
    let mut t = loaded(1000, 4900, 5000);
    let e = t.nudge(Handle::End, Nudge::Forward);
    assert_eq!(millis_of(e.range.end), 5000);
    assert_eq!(millis_of(e.position), 5000);
    let mut t = loaded(1000, 1100, 5000);
    let e = t.nudge(Handle::End, Nudge::Back);
    assert_eq!(millis_of(e.range.end), 1000);
    let e = t.nudge(Handle::End, Nudge::Forward);
    assert_eq!(millis_of(e.range.end), 1250);
}

#[test]
fn begin_drag_prefers_end_handle() {
    let mut t = loaded(1000, 1000, 5000);
    assert_eq!(t.begin_drag(true, true), DragType::End);
    assert_eq!(t.begin_drag(true, false), DragType::Start);
    assert_eq!(t.begin_drag(false, false), DragType::Playback);
    assert_eq!(t.drag_type, Some(DragType::Playback));
}

#[test]
fn dragging_start_past_end_swaps_handles() {
    let mut t = loaded(1000, 3000, 5000);
    t.begin_drag(true, false);
    t.drag_to(ms(2000));
    let r = t.range.unwrap();
    assert_eq!((millis_of(r.start), millis_of(r.end)), (2000, 3000));
    t.drag_to(ms(4000));
    let r = t.range.unwrap();
    assert_eq!((millis_of(r.start), millis_of(r.end)), (3000, 4000));
    assert_eq!(t.drag_type, Some(DragType::End));
    // The playback position follows, clamped to the selection as it was.
    assert_eq!(millis_of(t.position), 3000);
}

#[test]
fn dragging_end_before_start_swaps_handles() {
    let mut t = loaded(1000, 3000, 5000);
    t.begin_drag(false, true);
    t.drag_to(ms(500));
    let r = t.range.unwrap();
    assert_eq!((millis_of(r.start), millis_of(r.end)), (500, 1000));
    assert_eq!(t.drag_type, Some(DragType::Start));
}

#[test]
fn scrubbing_moves_only_the_position() {
    let mut t = loaded(1000, 3000, 5000);
    t.begin_drag(false, false);
    t.drag_to(ms(2500));
    let r = t.range.unwrap();
    assert_eq!((millis_of(r.start), millis_of(r.end)), (1000, 3000));
    assert_eq!(millis_of(t.position), 2500);
    let e = t.end_drag();
    assert_eq!(millis_of(e.position), 2500);
}

#[test]
fn dragging_without_duration_does_nothing() {
    let mut t = Timeline::new();
    t.set_range(None);
    t.drag_to(ms(10));
    assert!(t.position.is_zero());
    assert!(t.range.is_none());
}

#[test]
fn timeline_cursor_names() {
    assert_eq!(CursorType::Normal.gtk_cursor_name(), "default");
    assert_eq!(CursorType::StartEnd.gtk_cursor_name(), "col-resize");
    assert_eq!(cursor_for(true), CursorType::StartEnd);
    assert_eq!(cursor_for(false), CursorType::Normal);
}
