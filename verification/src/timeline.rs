use vstd::prelude::*;

use crate::time::{clamp_nat, Span, MAX_NANOS};

verus! {

/// How far one arrow-key press moves a selection handle: a quarter second.
pub const KEYBOARD_MOVE_NANOS: u128 = 250_000_000u128;

/// The trimmed-in/out selection on the timeline.
#[derive(Clone, Copy, Debug)]
pub struct TimeRange {
    pub start: Span,
    pub end: Span,
}

impl View for TimeRange {
    type V = (nat, nat);

    open spec fn view(&self) -> (nat, nat) {
        (self.start@, self.end@)
    }
}

/// What a pointer drag on the timeline moves.
#[derive(Clone, Copy, Debug, PartialEq, Eq, Structural)]
pub enum DragType {
    Playback,
    Start,
    End,
}

/// Which edge of the selection a keyboard nudge moves.
#[derive(Clone, Copy, Debug, PartialEq, Eq, Structural)]
pub enum Handle {
    Start,
    End,
}

/// Direction of a keyboard nudge along the timeline.
#[derive(Clone, Copy, Debug, PartialEq, Eq, Structural)]
pub enum Nudge {
    Back,
    Forward,
}

/// The pointer shape shown over the timeline.
#[derive(Clone, Copy, Debug, PartialEq, Eq, Structural)]
pub enum CursorType {
    Normal,
    StartEnd,
}

impl CursorType {
    pub open spec fn spec_cursor_name(self) -> Seq<char> {
        match self {
            CursorType::Normal => "default"@,
            CursorType::StartEnd => "col-resize"@,
        }
    }

    /// GDK cursor name for this cursor type.
    pub fn gtk_cursor_name(self) -> (name: &'static str)
        ensures
            name@ == self.spec_cursor_name(),
    {
        match self {
            CursorType::Normal => "default",
            CursorType::StartEnd => "col-resize",
        }
    }
}

/// The cursor to show for a pointer that is, or is not, within reach of a handle.
pub fn cursor_for(near_handle: bool) -> (c: CursorType)
    ensures
        c == (if near_handle { CursorType::StartEnd } else { CursorType::Normal }),
{
    if near_handle {
        CursorType::StartEnd
    } else {
        CursorType::Normal
    }
}

/// Which of the timeline's boxes are shown.
#[derive(Clone, Copy, Debug)]
pub struct Visibility {
    pub position: bool,
    pub selection: bool,
}

/// The range and playback position that the timeline reports to its listeners.
#[derive(Clone, Copy, Debug)]
pub struct Emission {
    pub range: TimeRange,
    pub position: Span,
}

/// The state behind the timeline widget: playback position, clip length, the
/// trimmed selection and the drag in progress.
#[derive(Clone, Copy, Debug)]
pub struct Timeline {
    pub position: Span,
    pub duration: Span,
    pub range: Option<TimeRange>,
    pub drag_type: Option<DragType>,
}

/// The selection after one keyboard nudge of `handle` in `direction`, for a clip of
/// length `duration`, as (start, end) in nanoseconds.
pub open spec fn nudged(range: (nat, nat), duration: nat, handle: Handle, direction: Nudge) -> (
    nat,
    nat,
) {
    let (start, end) = range;
    let step = KEYBOARD_MOVE_NANOS as nat;
    match (handle, direction) {
        (Handle::Start, Nudge::Forward) => (
            if start + step <= end {
                start + step
            } else {
                end
            },
            end,
        ),
        (Handle::Start, Nudge::Back) => (
            if step <= start {
                (start - step) as nat
            } else {
                0
            },
            end,
        ),
        (Handle::End, Nudge::Forward) => (
            start,
            if end + step <= duration {
                end + step
            } else {
                duration
            },
        ),
        (Handle::End, Nudge::Back) => (
            start,
            if step <= end && start <= end - step {
                (end - step) as nat
            } else {
                start
            },
        ),
    }
}

/// The edge that a nudge of `handle` moved, which playback seeks to.
pub open spec fn nudge_anchor(range: (nat, nat), handle: Handle) -> nat {
    match handle {
        Handle::Start => range.0,
        Handle::End => range.1,
    }
}

/// The selection after dragging the `drag` edge to `time`: the dragged edge
/// follows the pointer, and the edges trade places when it crosses the other one.
/// Also gives the drag type afterwards.
pub open spec fn dragged(range: (nat, nat), drag: DragType, time: nat) -> ((nat, nat), DragType) {
    let (start, end) = range;
    match drag {
        DragType::Start => if time <= end {
            ((time, end), DragType::Start)
        } else {
            ((end, time), DragType::End)
        },
        DragType::End => if start <= time {
            ((start, time), DragType::End)
        } else {
            ((time, start), DragType::Start)
        },
        DragType::Playback => (range, DragType::Playback),
    }
}

/// The nudge preconditions: a selection exists whose start is not after its end,
/// moving forward stays within `Duration`'s range, and a forward-moved end stays
/// at or after the start.
pub open spec fn nudge_allowed(t: Timeline, handle: Handle, direction: Nudge) -> bool {
    &&& t.range is Some
    &&& t.range.unwrap().start@ <= t.range.unwrap().end@
    &&& (handle == Handle::Start && direction == Nudge::Forward) ==> t.range.unwrap().start@
        + KEYBOARD_MOVE_NANOS <= MAX_NANOS
    &&& (handle == Handle::End && direction == Nudge::Forward) ==> {
        &&& t.range.unwrap().end@ + KEYBOARD_MOVE_NANOS <= MAX_NANOS
        &&& t.range.unwrap().start@ <= t.duration@
    }
}

/// A keyboard nudge never turns the selection around, and a selection that lies
/// within the clip stays within it.
pub proof fn law_nudge_keeps_selection_in_clip(
    range: (nat, nat),
    duration: nat,
    handle: Handle,
    direction: Nudge,
)
    requires
        range.0 <= range.1 <= duration,
    ensures
        ({
            let r = nudged(range, duration, handle, direction);
            r.0 <= r.1 <= duration
        }),
{
}

/// Nudging a handle forward and then back restores the selection, as long as the
/// forward nudge was not stopped by the other handle or by the end of the clip.
pub proof fn law_nudge_forward_then_back(range: (nat, nat), duration: nat, handle: Handle)
    requires
        range.0 <= range.1 <= duration,
        handle == Handle::Start ==> range.0 + KEYBOARD_MOVE_NANOS <= range.1,
        handle == Handle::End ==> range.1 + KEYBOARD_MOVE_NANOS <= duration,
    ensures
        nudged(nudged(range, duration, handle, Nudge::Forward), duration, handle, Nudge::Back)
            == range,
{
}

/// Nudging a handle back and then forward restores the selection, as long as the
/// back nudge was not stopped by the start of the clip or by the other handle.
pub proof fn law_nudge_back_then_forward(range: (nat, nat), duration: nat, handle: Handle)
    requires
        range.0 <= range.1 <= duration,
        handle == Handle::Start ==> KEYBOARD_MOVE_NANOS <= range.0,
        handle == Handle::End ==> range.0 + KEYBOARD_MOVE_NANOS <= range.1,
    ensures
        nudged(nudged(range, duration, handle, Nudge::Back), duration, handle, Nudge::Forward)
            == range,
{
}

/// Whichever edge a drag holds and wherever the pointer goes, the selection comes
/// out with its start not after its end, spanning the pointer and the edge that
/// was not held.
pub proof fn law_drag_orders_selection(range: (nat, nat), drag: DragType, time: nat)
    requires
        range.0 <= range.1,
    ensures
        ({
            let (r, d) = dragged(range, drag, time);
            &&& r.0 <= r.1
            &&& drag == DragType::Start ==> (r == (time, range.1) || r == (range.1, time))
            &&& drag == DragType::End ==> (r == (range.0, time) || r == (time, range.0))
            &&& drag == DragType::Playback ==> r == range && d == DragType::Playback
        }),
{
}

/// Wherever playback is asked to go, the position lands inside the selection,
/// and a position already inside it is kept.
pub proof fn law_position_within_selection(position: nat, range: (nat, nat))
    requires
        range.0 <= range.1,
    ensures
        range.0 <= clamp_nat(position, range.0, range.1) <= range.1,
        range.0 <= position <= range.1 ==> clamp_nat(position, range.0, range.1) == position,
{
}

impl Timeline {
    /// Visibility of the position marker and of the selection for this state.
    pub open spec fn spec_visibility(self) -> (bool, bool) {
        if self.duration@ == 0 {
            (false, false)
        } else {
            (true, self.range is Some)
        }
    }

    /// An empty timeline: nothing loaded, an empty selection at the start.
    pub fn new() -> (t: Timeline)
        ensures
            t.position@ == 0,
            t.duration@ == 0,
            t.range matches Some(r) && r@ == (0nat, 0nat),
            t.drag_type is None,
    {
        Timeline {
            position: Span::zero(),
            duration: Span::zero(),
            range: Some(TimeRange { start: Span::zero(), end: Span::zero() }),
            drag_type: None,
        }
    }

    /// Which boxes to show: none while no clip length is known; otherwise the
    /// position marker, and the selection when there is one.
    pub fn refresh(&self) -> (v: Visibility)
        ensures
            (v.position, v.selection) == self.spec_visibility(),
    {
        if self.duration.is_zero() {
            Visibility { position: false, selection: false }
        } else {
            Visibility { position: true, selection: self.range.is_some() }
        }
    }

    pub fn set_range(&mut self, range: Option<TimeRange>) -> (v: Visibility)
        ensures
            *final(self) == (Timeline { range, ..*old(self) }),
            (v.position, v.selection) == final(self).spec_visibility(),
    {
        self.range = range;
        self.refresh()
    }

    pub fn set_duration(&mut self, duration: Span) -> (v: Visibility)
        ensures
            *final(self) == (Timeline { duration, ..*old(self) }),
            (v.position, v.selection) == final(self).spec_visibility(),
    {
        self.duration = duration;
        self.refresh()
    }

    /// Moves the playback position to `position`, kept within the selection.
    pub fn set_position(&mut self, position: Span) -> (v: Visibility)
        requires
            old(self).range is Some,
            old(self).range.unwrap().start@ <= old(self).range.unwrap().end@,
        ensures
            final(self).position@ == clamp_nat(
                position@,
                old(self).range.unwrap().start@,
                old(self).range.unwrap().end@,
            ),
            final(self).duration == old(self).duration,
            final(self).range == old(self).range,
            final(self).drag_type == old(self).drag_type,
            (v.position, v.selection) == final(self).spec_visibility(),
    {
        let range = self.range.unwrap();
        self.position = position.clamp(range.start, range.end);
        self.refresh()
    }

    /// Starts a pointer drag: it grabs the end handle when the pointer is within
    /// reach of it, else the start handle when within reach of that, else it scrubs
    /// the playback position.
    pub fn begin_drag(&mut self, near_start: bool, near_end: bool) -> (d: DragType)
        ensures
            d == (if near_end {
                DragType::End
            } else if near_start {
                DragType::Start
            } else {
                DragType::Playback
            }),
            *final(self) == (Timeline { drag_type: Some(d), ..*old(self) }),
    {
        let d = if near_end {
            DragType::End
        } else if near_start {
            DragType::Start
        } else {
            DragType::Playback
        };
        self.drag_type = Some(d);
        d
    }

    /// Follows the pointer of a drag to the clip time `time`: seeks there, and
    /// moves the grabbed selection edge with it. Nothing happens while no clip
    /// length is known.
    pub fn drag_to(&mut self, time: Span) -> (v: Visibility)
        requires
            old(self).duration@ != 0 ==> {
                &&& old(self).range is Some
                &&& old(self).range.unwrap().start@ <= old(self).range.unwrap().end@
                &&& old(self).drag_type is Some
            },
        ensures
            old(self).duration@ == 0 ==> *final(self) == *old(self),
            old(self).duration@ != 0 ==> {
                let r = old(self).range.unwrap();
                let (new_range, new_drag) = dragged(r@, old(self).drag_type.unwrap(), time@);
                &&& final(self).position@ == clamp_nat(time@, r.start@, r.end@)
                &&& final(self).duration == old(self).duration
                &&& final(self).range matches Some(nr) && nr@ == new_range
                &&& final(self).drag_type == Some(new_drag)
                &&& new_range.0 <= new_range.1
            },
            (v.position, v.selection) == final(self).spec_visibility(),
    {
        if self.duration.is_zero() {
            return self.refresh();
        }
        self.set_position(time);
        let range = self.range.unwrap();
        let (start, end, drag) = match self.drag_type.unwrap() {
            DragType::Start => {
                if time.le(&range.end) {
                    (time, range.end, DragType::Start)
                } else {
                    (range.end, time, DragType::End)
                }
            },
            DragType::End => {
                if range.start.le(&time) {
                    (range.start, time, DragType::End)
                } else {
                    (time, range.start, DragType::Start)
                }
            },
            DragType::Playback => {
                return self.refresh();
            },
        };
        self.drag_type = Some(drag);
        self.range = Some(TimeRange { start, end });
        self.refresh()
    }

    /// What the timeline reports when a drag ends: the selection and the position.
    pub fn end_drag(&self) -> (e: Emission)
        requires
            self.range is Some,
        ensures
            e.range == self.range.unwrap(),
            e.position == self.position,
    {
        Emission { range: self.range.unwrap(), position: self.position }
    }

    /// Moves one handle of the selection by a quarter second, without crossing the
    /// other handle or leaving the clip, then seeks to the moved handle and reports
    /// the new selection and position.
    pub fn nudge(&mut self, handle: Handle, direction: Nudge) -> (e: Emission)
        requires
            nudge_allowed(*old(self), handle, direction),
        ensures
            ({
                let new_range = nudged(old(self).range.unwrap()@, old(self).duration@, handle, direction);
                &&& final(self).range matches Some(r) && r@ == new_range
                &&& final(self).position@ == nudge_anchor(new_range, handle)
                &&& final(self).duration == old(self).duration
                &&& final(self).drag_type == old(self).drag_type
                &&& e.range == final(self).range.unwrap()
                &&& e.position == final(self).position
                &&& new_range.0 <= new_range.1
            }),
    {
        let range = self.range.unwrap();
        let step = Span::from_nanos(KEYBOARD_MOVE_NANOS);
        let (new_range, anchor) = match handle {
            Handle::Start => {
                let start = match direction {
                    Nudge::Forward => range.start.add(&step).min(range.end),
                    Nudge::Back => range.start.saturating_sub(&step),
                };
                (TimeRange { start, end: range.end }, start)
            },
            Handle::End => {
                let end = match direction {
                    Nudge::Forward => range.end.add(&step).min(self.duration),
                    Nudge::Back => range.end.saturating_sub(&step).max(range.start),
                };
                (TimeRange { start: range.start, end }, end)
            },
        };
        self.range = Some(new_range);
        self.commit(anchor)
    }

    /// Seeks to `anchor` and reports the current selection and position.
    fn commit(&mut self, anchor: Span) -> (e: Emission)
        requires
            old(self).range is Some,
            old(self).range.unwrap().start@ <= old(self).range.unwrap().end@,
        ensures
            final(self).position@ == clamp_nat(
                anchor@,
                old(self).range.unwrap().start@,
                old(self).range.unwrap().end@,
            ),
            final(self).duration == old(self).duration,
            final(self).range == old(self).range,
            final(self).drag_type == old(self).drag_type,
            e.range == final(self).range.unwrap(),
            e.position == final(self).position,
    {
        self.set_position(anchor);
        self.end_drag()
    }
}

/// A drag holds the edge it grabbed until the pointer crosses the other edge:
/// dragging the end to a time not before the start keeps holding the end and
/// moves only the end there; dragging the start to a time not after the end keeps
/// holding the start and moves only the start. Crossing the other edge hands the
/// drag over to it, and the edge that was not held becomes the other bound.
pub proof fn law_drag_holds_its_edge(range: (nat, nat), time: nat)
    requires
        range.0 <= range.1,
    ensures
        range.0 <= time ==> dragged(range, DragType::End, time) == ((range.0, time), DragType::End),
        time < range.0 ==> dragged(range, DragType::End, time) == ((time, range.0), DragType::Start),
        time <= range.1 ==> dragged(range, DragType::Start, time) == ((time, range.1), DragType::Start),
        range.1 < time ==> dragged(range, DragType::Start, time) == ((range.1, time), DragType::End),
        dragged(range, DragType::Playback, time) == (range, DragType::Playback),
{
}

/// Two steps of one drag that stay on the held edge's side keep moving that edge:
/// after dragging the end to `t1` and then to `t2`, both not before the start,
/// the start is untouched and the end is at `t2`; likewise for the start.
pub proof fn law_drag_steps_keep_the_other_edge(range: (nat, nat), t1: nat, t2: nat)
    requires
        range.0 <= range.1,
    ensures
        range.0 <= t1 && range.0 <= t2 ==> {
            let (r1, d1) = dragged(range, DragType::End, t1);
            dragged(r1, d1, t2) == ((range.0, t2), DragType::End)
        },
        t1 <= range.1 && t2 <= range.1 ==> {
            let (r1, d1) = dragged(range, DragType::Start, t1);
            dragged(r1, d1, t2) == ((t2, range.1), DragType::Start)
        },
{
}

/// A nudge moves only the handle it is for, by a quarter second (250 000 000 ns)
/// in its direction when there is room, and otherwise stops at the other handle or
/// at the clip's bounds.
pub proof fn law_nudge_moves_a_quarter_second(range: (nat, nat), duration: nat)
    requires
        range.0 <= range.1 <= duration,
    ensures
        nudged(range, duration, Handle::Start, Nudge::Forward) == (if range.0 + 250_000_000
            <= range.1 {
            (range.0 + 250_000_000, range.1)
        } else {
            (range.1, range.1)
        }),
        nudged(range, duration, Handle::Start, Nudge::Back) == (if 250_000_000 <= range.0 {
            ((range.0 - 250_000_000) as nat, range.1)
        } else {
            (0, range.1)
        }),
        nudged(range, duration, Handle::End, Nudge::Forward) == (if range.1 + 250_000_000
            <= duration {
            (range.0, range.1 + 250_000_000)
        } else {
            (range.0, duration)
        }),
        nudged(range, duration, Handle::End, Nudge::Back) == (if range.0 + 250_000_000
            <= range.1 {
            (range.0, (range.1 - 250_000_000) as nat)
        } else {
            (range.0, range.0)
        }),
{
}

} // verus!
