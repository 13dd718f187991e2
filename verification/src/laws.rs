//! What holds of the passes on every input, proved from their contracts.

use vstd::prelude::*;
use crate::camera::PanningLock;
use crate::geometry::{
    clamp_extent, lemma_distance_bounds, on_edge, one_beyond_edge, spec_contains, spec_distance,
    spec_near_edge, Vec2, EDGE_THRESHOLD, MAX_SIZE, MIN_SIZE,
};
use crate::widget::{
    distinct_entities, drag_pass_lock, drag_pass_state, drag_pass_widgets, drag_press,
    frame_lock, frame_state, frame_widgets, is_first_where, lemma_first_where,
    lemma_first_where_is, lock_follows_gesture, resize_pass_lock, resize_pass_state,
    resize_pass_widgets, resize_press, spec_edge_test, spec_find, spec_hit_test, DragState,
    Gesture, PointerInput, Widget,
};

verus! {

/// A drag and a resize are never in progress together: neither pass, nor a
/// whole frame, leads from a state with at most one gesture to a state with
/// both. A resize that starts ends the drag, and the drag pass stands still
/// while a resize is in progress.
pub proof fn lemma_gestures_exclusive(state: DragState, input: PointerInput, widgets: Seq<Widget>)
    requires
        state.exclusive(),
    ensures
        drag_pass_state(state, input, widgets).exclusive(),
        resize_pass_state(state, input, widgets).exclusive(),
        frame_state(state, input, widgets).exclusive(),
        state.resizing_entity is Some ==> drag_pass_state(state, input, widgets) == state,
        resize_press(state, input, widgets).resizing_entity != state.resizing_entity
            ==> resize_press(state, input, widgets).dragged_entity is None,
{
}

/// A release ends every gesture: whatever the state, the resize pass and the
/// whole frame lead to the idle state with the lock dropped and no widget
/// touched, and so does the drag pass unless a resize is in progress. From
/// the idle state a release leads to the idle state again.
pub proof fn lemma_release_resets(state: DragState, locked: bool, input: PointerInput, widgets: Seq<Widget>)
    requires
        input.just_released,
    ensures
        resize_pass_state(state, input, widgets) == DragState::idle(),
        !resize_pass_lock(locked, input, widgets),
        resize_pass_widgets(state, input, widgets) == widgets,
        frame_state(state, input, widgets) == DragState::idle(),
        frame_state(state, input, widgets)@ == Gesture::Idle,
        !frame_lock(state, locked, input, widgets),
        frame_widgets(state, input, widgets) == widgets,
        state.resizing_entity is None ==> drag_pass_state(state, input, widgets) == DragState::idle()
            && !drag_pass_lock(state, locked, input, widgets),
        frame_state(DragState::idle(), input, widgets) == DragState::idle(),
{
}

/// The lock is held exactly while a gesture is in progress: where that is so
/// before a pass or a frame, it is so after it.
pub proof fn lemma_lock_follows_gesture(
    state: DragState,
    lock: PanningLock,
    input: PointerInput,
    widgets: Seq<Widget>,
)
    requires
        lock_follows_gesture(state, lock),
    ensures
        lock_follows_gesture(
            drag_pass_state(state, input, widgets),
            PanningLock { is_locked: drag_pass_lock(state, lock.is_locked, input, widgets) },
        ),
        lock_follows_gesture(
            resize_pass_state(state, input, widgets),
            PanningLock { is_locked: resize_pass_lock(lock.is_locked, input, widgets) },
        ),
        lock_follows_gesture(
            frame_state(state, input, widgets),
            PanningLock { is_locked: frame_lock(state, lock.is_locked, input, widgets) },
        ),
{
}

/// A frame without a pointer position is skipped: unless the button was
/// released, the gesture, the lock and every widget stay as they are, also
/// in the middle of a drag or a resize.
pub proof fn lemma_lost_pointer_skips_frame(
    state: DragState,
    locked: bool,
    input: PointerInput,
    widgets: Seq<Widget>,
)
    requires
        input.cursor is None,
        !input.just_released,
    ensures
        drag_pass_state(state, input, widgets) == state,
        drag_pass_lock(state, locked, input, widgets) == locked,
        drag_pass_widgets(state, input, widgets) == widgets,
        resize_pass_state(state, input, widgets) == state,
        resize_pass_lock(locked, input, widgets) == locked,
        resize_pass_widgets(state, input, widgets) == widgets,
        frame_state(state, input, widgets) == state,
        frame_lock(state, locked, input, widgets) == locked,
        frame_widgets(state, input, widgets) == widgets,
{
}

/// A press that finds no widget starts nothing: from the idle state, with no
/// box under the pointer and no edge near it, the frame ends in the idle
/// state, with the lock and the widgets as they were.
pub proof fn lemma_missed_press_stays_idle(locked: bool, input: PointerInput, widgets: Seq<Widget>)
    requires
        !input.just_released,
        input.cursor is Some,
        spec_hit_test(widgets, input.cursor->0) is None,
        spec_edge_test(widgets, input.cursor->0) is None,
    ensures
        frame_state(DragState::idle(), input, widgets) == DragState::idle(),
        frame_lock(DragState::idle(), locked, input, widgets) == locked,
        frame_widgets(DragState::idle(), input, widgets) == widgets,
{
}

/// Whatever a resize leaves is within bounds: a widget whose size the resize
/// pass has changed has both its width and its height in
/// `[MIN_SIZE, MAX_SIZE]`. No pass changes the number of widgets or the
/// identity of one, the drag pass changes no size, and the resize pass moves
/// no center.
pub proof fn lemma_sizes_within_bounds(state: DragState, input: PointerInput, widgets: Seq<Widget>, j: int)
    requires
        0 <= j < widgets.len(),
    ensures
        ({
            let dragged = drag_pass_widgets(state, input, widgets);
            let resized = resize_pass_widgets(state, input, widgets);
            &&& dragged.len() == widgets.len()
            &&& dragged[j].size == widgets[j].size
            &&& dragged[j].entity == widgets[j].entity
            &&& resized.len() == widgets.len()
            &&& resized[j].center == widgets[j].center
            &&& resized[j].entity == widgets[j].entity
            &&& resized[j].size != widgets[j].size ==> {
                &&& MIN_SIZE <= resized[j].size.x <= MAX_SIZE
                &&& MIN_SIZE <= resized[j].size.y <= MAX_SIZE
            }
        }),
{
    let started = resize_press(state, input, widgets);
    if started.resizing_entity is Some {
        let entity = started.resizing_entity->0;
        lemma_first_where(widgets, |w: Widget| w.entity == entity);
    }
    let moving = drag_press(state, input, widgets);
    if moving.dragged_entity is Some {
        let entity = moving.dragged_entity->0;
        lemma_first_where(widgets, |w: Widget| w.entity == entity);
    }
}

/// In a list of widgets with distinct identities, each widget is the one
/// found under its own identity.
pub proof fn lemma_find_own_entity(widgets: Seq<Widget>, i: int)
    requires
        distinct_entities(widgets),
        0 <= i < widgets.len(),
    ensures
        spec_find(widgets, widgets[i].entity) == Some(i),
{
    let entity = widgets[i].entity;
    lemma_first_where_is(widgets, |w: Widget| w.entity == entity, i);
}

/// A dragged widget keeps its place under the pointer. A press at
/// `press_point` inside the box of widget `i`, the first under the pointer,
/// starts a drag whose click offset is the displacement from the center of
/// the widget to the press; the widget stays where it is on that frame. When
/// the pointer is then at `cursor`, the center of the widget is `cursor` less
/// that offset, so the vector from the center to the pointer is what it was
/// at the press, and no other widget has moved. The law is stated for the
/// pointer positions at which that center lies in the coordinate range.
pub proof fn lemma_drag_tracks_cursor(
    state: DragState,
    widgets: Seq<Widget>,
    i: int,
    press_point: Vec2,
    cursor: Vec2,
)
    requires
        state.resizing_entity is None,
        distinct_entities(widgets),
        spec_hit_test(widgets, press_point) == Some(i),
        i32::MIN <= cursor.x - (press_point.x - widgets[i].center.x) <= i32::MAX,
        i32::MIN <= cursor.y - (press_point.y - widgets[i].center.y) <= i32::MAX,
    ensures
        ({
            let press = PointerInput { just_pressed: true, just_released: false, cursor: Some(press_point) };
            let motion = PointerInput { just_pressed: false, just_released: false, cursor: Some(cursor) };
            let started = drag_pass_state(state, press, widgets);
            let held = drag_pass_widgets(state, press, widgets);
            let moved = drag_pass_widgets(started, motion, held);
            &&& spec_contains(press_point, widgets[i].center, widgets[i].size)
            &&& started.dragged_entity == Some(widgets[i].entity)
            &&& started.click_offset is Some
            &&& started.click_offset->0.x == press_point.x - widgets[i].center.x
            &&& started.click_offset->0.y == press_point.y - widgets[i].center.y
            &&& drag_pass_lock(state, false, press, widgets)
            &&& held == widgets
            &&& drag_pass_state(started, motion, held) == started
            &&& moved.len() == widgets.len()
            &&& moved[i].center.x == cursor.x - (press_point.x - widgets[i].center.x)
            &&& moved[i].center.y == cursor.y - (press_point.y - widgets[i].center.y)
            &&& cursor.x - moved[i].center.x == press_point.x - widgets[i].center.x
            &&& cursor.y - moved[i].center.y == press_point.y - widgets[i].center.y
            &&& moved[i].size == widgets[i].size
            &&& moved[i].entity == widgets[i].entity
            &&& forall|j: int| 0 <= j < widgets.len() && j != i ==> moved[j] == widgets[j]
        }),
{
    let press = PointerInput { just_pressed: true, just_released: false, cursor: Some(press_point) };
    lemma_first_where(widgets, |w: Widget| spec_contains(press_point, w.center, w.size));
    lemma_find_own_entity(widgets, i);
    let held = drag_pass_widgets(state, press, widgets);
    assert(held =~= widgets);
}

/// A resized widget is its initial size scaled by the ratio of distances.
/// While widget `i` is being resized from `initial` with initial distance
/// `d0 > 0`, and the pointer is at `cursor`, at distance `d1` from the center
/// of the widget, each axis of its size is `initial * d1 / d0` clamped to
/// `[MIN_SIZE, MAX_SIZE]`; its center stays, and so does every other widget.
pub proof fn lemma_resize_scales(
    state: DragState,
    widgets: Seq<Widget>,
    i: int,
    initial: Vec2,
    d0: u64,
    cursor: Vec2,
)
    requires
        distinct_entities(widgets),
        0 <= i < widgets.len(),
        state.resizing_entity == Some(widgets[i].entity),
        state.initial_size == Some(initial),
        state.initial_distance == Some(d0),
        d0 > 0,
    ensures
        ({
            let motion = PointerInput { just_pressed: false, just_released: false, cursor: Some(cursor) };
            let resized = resize_pass_widgets(state, motion, widgets);
            let d1 = spec_distance(cursor, widgets[i].center);
            &&& resize_pass_state(state, motion, widgets) == state
            &&& resized.len() == widgets.len()
            &&& resized[i].size.x == clamp_extent(initial.x * d1 / (d0 as int))
            &&& resized[i].size.y == clamp_extent(initial.y * d1 / (d0 as int))
            &&& MIN_SIZE <= resized[i].size.x <= MAX_SIZE
            &&& MIN_SIZE <= resized[i].size.y <= MAX_SIZE
            &&& resized[i].center == widgets[i].center
            &&& resized[i].entity == widgets[i].entity
            &&& forall|j: int| 0 <= j < widgets.len() && j != i ==> resized[j] == widgets[j]
        }),
{
    lemma_find_own_entity(widgets, i);
    lemma_distance_bounds(cursor, widgets[i].center);
}

/// A press near an edge starts a resize. When widget `i` is the first with an
/// edge line within the threshold of `press_point`, the resize pass records
/// its identity, its size and the distance from its center to the press,
/// ends any drag and takes the lock.
pub proof fn lemma_resize_starts(state: DragState, widgets: Seq<Widget>, i: int, press_point: Vec2)
    requires
        spec_edge_test(widgets, press_point) == Some(i),
    ensures
        ({
            let press = PointerInput { just_pressed: true, just_released: false, cursor: Some(press_point) };
            let started = resize_pass_state(state, press, widgets);
            &&& spec_near_edge(press_point, widgets[i].center, widgets[i].size, EDGE_THRESHOLD)
            &&& started.resizing_entity == Some(widgets[i].entity)
            &&& started.dragged_entity is None
            &&& started.initial_size == Some(widgets[i].size)
            &&& started.initial_distance is Some
            &&& started.initial_distance->0 == spec_distance(press_point, widgets[i].center)
            &&& resize_pass_lock(false, press, widgets)
        }),
{
    lemma_first_where(widgets, |w: Widget| spec_near_edge(press_point, w.center, w.size, EDGE_THRESHOLD));
    lemma_distance_bounds(press_point, widgets[i].center);
}

/// The bounds of a box belong to it: a point on an edge of a box of
/// non-negative size is inside.
pub proof fn lemma_edge_is_inside(point: Vec2, center: Vec2, size: Vec2)
    requires
        0 <= size.x,
        0 <= size.y,
        on_edge(point, center, size),
    ensures
        spec_contains(point, center, size),
{
}

/// A point one unit beyond an edge is outside the box.
pub proof fn lemma_beyond_edge_is_outside(point: Vec2, center: Vec2, size: Vec2)
    requires
        one_beyond_edge(point, center, size),
    ensures
        !spec_contains(point, center, size),
{
}

/// The first match wins. Where the boxes of widgets `i` and `j`, `i` before
/// `j`, both contain the press point, the press drags a widget at or before
/// `i`, never `j`; and it drags `i` itself when no widget before `i`
/// contains the point.
pub proof fn lemma_first_match_wins(state: DragState, widgets: Seq<Widget>, point: Vec2, i: int, j: int)
    requires
        0 <= i < j < widgets.len(),
        spec_contains(point, widgets[i].center, widgets[i].size),
        spec_contains(point, widgets[j].center, widgets[j].size),
    ensures
        ({
            let press = PointerInput { just_pressed: true, just_released: false, cursor: Some(point) };
            let hit = spec_hit_test(widgets, point);
            &&& hit is Some
            &&& 0 <= hit->0 <= i
            &&& hit->0 != j
            &&& spec_contains(point, widgets[hit->0].center, widgets[hit->0].size)
            &&& drag_press(state, press, widgets).dragged_entity == Some(widgets[hit->0].entity)
            &&& (forall|k: int| 0 <= k < i ==> !spec_contains(point, (#[trigger] widgets[k]).center, widgets[k].size))
                ==> hit == Some(i)
        }),
{
    let pred = |w: Widget| spec_contains(point, w.center, w.size);
    lemma_first_where(widgets, pred);
    assert(pred(widgets[i]));
    if forall|k: int| 0 <= k < i ==> !spec_contains(point, (#[trigger] widgets[k]).center, widgets[k].size) {
        assert(is_first_where(widgets, pred, i));
        lemma_first_where_is(widgets, pred, i);
    }
}

} // verus!
