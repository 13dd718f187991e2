//! Widgets, the gesture in progress, and the two passes that run every frame.
//!
//! The host hands each pass the pointer state of the frame and the live list
//! of widgets. The drag pass and the resize pass scan that list in order and
//! take the first match; what they decide is recorded in the [`DragState`]
//! and the [`PanningLock`] that are carried from frame to frame.

use vstd::prelude::*;
use crate::camera::PanningLock;
use crate::geometry::{
    contains, difference, distance, near_edge, scaled_size, spec_contains, spec_difference,
    spec_distance, spec_near_edge, spec_scaled_size, Vec2, EDGE_THRESHOLD,
};

verus! {

/// Identity of a widget, as the host hands it out. The passes only compare it.
#[derive(Clone, Copy, PartialEq, Eq, Hash, Debug)]
pub struct Entity(pub u64);

/// A rectangle on the canvas that the pointer can drag and resize.
#[derive(Clone, Copy, PartialEq, Eq, Debug)]
pub struct Widget {
    pub entity: Entity,
    pub center: Vec2,
    pub size: Vec2,
}

/// What the pointer did this frame.
#[derive(Clone, Copy, PartialEq, Eq, Debug)]
pub struct PointerInput {
    /// The manipulation button went down this frame.
    pub just_pressed: bool,
    /// The manipulation button went up this frame.
    pub just_released: bool,
    /// World position of the pointer; `None` while it cannot be told, as when
    /// the pointer has left the surface or nothing has been rendered yet.
    pub cursor: Option<Vec2>,
}

/// The gesture in progress, carried from frame to frame.
#[derive(Clone, Copy, PartialEq, Eq, Debug)]
pub struct DragState {
    pub dragged_entity: Option<Entity>,
    pub click_offset: Option<Vec2>,
    pub resizing_entity: Option<Entity>,
    pub initial_size: Option<Vec2>,
    pub initial_distance: Option<u64>,
}

/// The gesture that a [`DragState`] stands for.
#[derive(Clone, Copy, PartialEq, Eq, Debug)]
pub enum Gesture {
    Idle,
    Dragging { target: Entity, click_offset: Option<Vec2> },
    Resizing { target: Entity, initial_size: Option<Vec2>, initial_distance: Option<u64> },
}

impl DragState {
    /// The state with no gesture in progress.
    pub open spec fn idle() -> DragState {
        DragState {
            dragged_entity: None,
            click_offset: None,
            resizing_entity: None,
            initial_size: None,
            initial_distance: None,
        }
    }

    /// A drag and a resize are never in progress together.
    pub open spec fn exclusive(&self) -> bool {
        !(self.dragged_entity is Some && self.resizing_entity is Some)
    }

    /// The gesture in progress. A resize takes precedence over a drag.
    pub open spec fn view(&self) -> Gesture {
        if self.resizing_entity is Some {
            Gesture::Resizing {
                target: self.resizing_entity->0,
                initial_size: self.initial_size,
                initial_distance: self.initial_distance,
            }
        } else if self.dragged_entity is Some {
            Gesture::Dragging { target: self.dragged_entity->0, click_offset: self.click_offset }
        } else {
            Gesture::Idle
        }
    }

    /// The gesture in progress. While both a resized and a dragged widget are
    /// recorded, the resize is the gesture.
    pub fn gesture(&self) -> (gesture: Gesture)
        ensures
            gesture == self@,
    {
        if let Some(target) = self.resizing_entity {
            Gesture::Resizing {
                target,
                initial_size: self.initial_size,
                initial_distance: self.initial_distance,
            }
        } else if let Some(target) = self.dragged_entity {
            Gesture::Dragging { target, click_offset: self.click_offset }
        } else {
            Gesture::Idle
        }
    }

    /// Forgets the gesture in progress, whichever it was.
    pub fn reset(&mut self)
        ensures
            *final(self) == DragState::idle(),
            final(self)@ == Gesture::Idle,
            final(self).exclusive(),
    {
        self.dragged_entity = None;
        self.click_offset = None;
        self.resizing_entity = None;
        self.initial_size = None;
        self.initial_distance = None;
    }
}

impl Default for DragState {
    fn default() -> (state: DragState)
        ensures
            state == DragState::idle(),
            state@ == Gesture::Idle,
            state.exclusive(),
    {
        DragState {
            dragged_entity: None,
            click_offset: None,
            resizing_entity: None,
            initial_size: None,
            initial_distance: None,
        }
    }
}

/// `i` is the least index whose widget satisfies `pred`.
pub open spec fn is_first_where(widgets: Seq<Widget>, pred: spec_fn(Widget) -> bool, i: int) -> bool {
    &&& 0 <= i < widgets.len()
    &&& pred(widgets[i])
    &&& forall|j: int| 0 <= j < i ==> !pred(#[trigger] widgets[j])
}

/// The least index whose widget satisfies `pred`, if any does.
pub open spec fn first_where(widgets: Seq<Widget>, pred: spec_fn(Widget) -> bool) -> Option<int> {
    if exists|i: int| 0 <= i < widgets.len() && pred(#[trigger] widgets[i]) {
        Some(choose|i: int| is_first_where(widgets, pred, i))
    } else {
        None
    }
}

/// Index of the widget that a press at `point` drags: the first whose box
/// contains the point.
pub open spec fn spec_hit_test(widgets: Seq<Widget>, point: Vec2) -> Option<int> {
    first_where(widgets, |w: Widget| spec_contains(point, w.center, w.size))
}

/// Index of the widget that a press at `point` resizes: the first with an
/// edge line within [`EDGE_THRESHOLD`] of the point.
pub open spec fn spec_edge_test(widgets: Seq<Widget>, point: Vec2) -> Option<int> {
    first_where(widgets, |w: Widget| spec_near_edge(point, w.center, w.size, EDGE_THRESHOLD))
}

/// Index of the first widget with the given identity.
pub open spec fn spec_find(widgets: Seq<Widget>, entity: Entity) -> Option<int> {
    first_where(widgets, |w: Widget| w.entity == entity)
}

/// No two widgets of the list share an identity.
pub open spec fn distinct_entities(widgets: Seq<Widget>) -> bool {
    forall|i: int, j: int|
        0 <= i < j < widgets.len() ==> (#[trigger] widgets[i]).entity != (#[trigger] widgets[j]).entity
}

proof fn lemma_least_exists(widgets: Seq<Widget>, pred: spec_fn(Widget) -> bool, i: int)
    requires
        0 <= i < widgets.len(),
        pred(widgets[i]),
    ensures
        exists|k: int| is_first_where(widgets, pred, k),
    decreases i,
{
    if exists|j: int| 0 <= j < i && pred(#[trigger] widgets[j]) {
        let j = choose|j: int| 0 <= j < i && pred(#[trigger] widgets[j]);
        lemma_least_exists(widgets, pred, j);
    } else {
        assert(is_first_where(widgets, pred, i));
    }
}

/// What `first_where` returns: the least matching index, or `None` exactly
/// when no widget matches.
pub proof fn lemma_first_where(widgets: Seq<Widget>, pred: spec_fn(Widget) -> bool)
    ensures
        match first_where(widgets, pred) {
            Some(i) => is_first_where(widgets, pred, i),
            None => forall|j: int| 0 <= j < widgets.len() ==> !pred(#[trigger] widgets[j]),
        },
{
    if exists|i: int| 0 <= i < widgets.len() && pred(#[trigger] widgets[i]) {
        let i = choose|i: int| 0 <= i < widgets.len() && pred(#[trigger] widgets[i]);
        lemma_least_exists(widgets, pred, i);
    }
}

/// The least matching index is the value of `first_where`.
pub proof fn lemma_first_where_is(widgets: Seq<Widget>, pred: spec_fn(Widget) -> bool, i: int)
    requires
        is_first_where(widgets, pred, i),
    ensures
        first_where(widgets, pred) == Some(i),
{
    lemma_first_where(widgets, pred);
}

/// Finds the widget under a press: the first in list order whose box contains
/// `point`. Widgets after the first match are not looked at.
pub fn hit_test(widgets: &Vec<Widget>, point: Vec2) -> (found: Option<usize>)
    ensures
        found matches Some(i) ==> i < widgets.len() && spec_hit_test(widgets@, point) == Some(i as int),
        found is None ==> spec_hit_test(widgets@, point) is None,
{
    let mut i: usize = 0;
    while i < widgets.len()
        invariant
            i <= widgets.len(),
            forall|j: int| 0 <= j < i ==> !spec_contains(point, (#[trigger] widgets@[j]).center, widgets@[j].size),
        decreases widgets.len() - i,
    {
        let w = widgets[i];
        if contains(point, w.center, w.size) {
            proof {
                lemma_first_where_is(widgets@, |w: Widget| spec_contains(point, w.center, w.size), i as int);
            }
            return Some(i);
        }
        i += 1;
    }
    None
}

/// Finds the widget whose edge a press has caught: the first in list order
/// with an edge line within [`EDGE_THRESHOLD`] of `point`.
pub fn edge_test(widgets: &Vec<Widget>, point: Vec2) -> (found: Option<usize>)
    ensures
        found matches Some(i) ==> i < widgets.len() && spec_edge_test(widgets@, point) == Some(i as int),
        found is None ==> spec_edge_test(widgets@, point) is None,
{
    let mut i: usize = 0;
    while i < widgets.len()
        invariant
            i <= widgets.len(),
            forall|j: int| 0 <= j < i ==> !spec_near_edge(point, (#[trigger] widgets@[j]).center, widgets@[j].size, EDGE_THRESHOLD),
        decreases widgets.len() - i,
    {
        let w = widgets[i];
        if near_edge(point, w.center, w.size, EDGE_THRESHOLD) {
            proof {
                lemma_first_where_is(widgets@, |w: Widget| spec_near_edge(point, w.center, w.size, EDGE_THRESHOLD), i as int);
            }
            return Some(i);
        }
        i += 1;
    }
    None
}

/// Finds the first widget with the given identity.
pub fn find(widgets: &Vec<Widget>, entity: Entity) -> (found: Option<usize>)
    ensures
        found matches Some(i) ==> i < widgets.len() && spec_find(widgets@, entity) == Some(i as int),
        found is None ==> spec_find(widgets@, entity) is None,
{
    let mut i: usize = 0;
    while i < widgets.len()
        invariant
            i <= widgets.len(),
            forall|j: int| 0 <= j < i ==> (#[trigger] widgets@[j]).entity != entity,
        decreases widgets.len() - i,
    {
        if widgets[i].entity.0 == entity.0 {
            proof {
                lemma_first_where_is(widgets@, |w: Widget| w.entity == entity, i as int);
            }
            return Some(i);
        }
        i += 1;
    }
    None
}

/// The drag pass's answer to a press: a press on a widget starts a drag of
/// the first widget under the pointer, with the displacement from its center
/// to the pointer as the click offset. Any other frame leaves the state alone.
pub open spec fn drag_press(state: DragState, input: PointerInput, widgets: Seq<Widget>) -> DragState {
    if input.just_pressed && input.cursor is Some && spec_hit_test(widgets, input.cursor->0) is Some {
        let point = input.cursor->0;
        let hit = widgets[spec_hit_test(widgets, point)->0];
        DragState {
            dragged_entity: Some(hit.entity),
            click_offset: Some(spec_difference(point, hit.center)),
            ..state
        }
    } else {
        state
    }
}

/// Where a dragged widget goes: the pointer less the click offset, or the
/// pointer itself where no offset was recorded.
pub open spec fn dragged_center(cursor: Vec2, click_offset: Option<Vec2>) -> Vec2 {
    match click_offset {
        Some(offset) => spec_difference(cursor, offset),
        None => cursor,
    }
}

/// The widgets after the dragged one has followed the pointer. Nothing moves
/// while the pointer position is unknown or the dragged widget is gone.
pub open spec fn drag_continue(state: DragState, input: PointerInput, widgets: Seq<Widget>) -> Seq<Widget> {
    if state.dragged_entity is Some && input.cursor is Some && spec_find(
        widgets,
        state.dragged_entity->0,
    ) is Some {
        let i = spec_find(widgets, state.dragged_entity->0)->0;
        widgets.update(
            i,
            Widget { center: dragged_center(input.cursor->0, state.click_offset), ..widgets[i] },
        )
    } else {
        widgets
    }
}

/// The gesture after the drag pass.
pub open spec fn drag_pass_state(state: DragState, input: PointerInput, widgets: Seq<Widget>) -> DragState {
    if state.resizing_entity is Some {
        state
    } else if input.just_released {
        DragState::idle()
    } else {
        drag_press(state, input, widgets)
    }
}

/// The panning lock after the drag pass.
pub open spec fn drag_pass_lock(state: DragState, locked: bool, input: PointerInput, widgets: Seq<Widget>) -> bool {
    if state.resizing_entity is Some {
        locked
    } else if input.just_released {
        false
    } else if input.just_pressed && input.cursor is Some && spec_hit_test(widgets, input.cursor->0) is Some {
        true
    } else {
        locked
    }
}

/// The widgets after the drag pass.
pub open spec fn drag_pass_widgets(state: DragState, input: PointerInput, widgets: Seq<Widget>) -> Seq<Widget> {
    if state.resizing_entity is Some || input.just_released {
        widgets
    } else {
        drag_continue(drag_press(state, input, widgets), input, widgets)
    }
}

/// The resize pass's answer to a press: a press near an edge starts a resize
/// of the first such widget and ends any drag. The size of the widget and the
/// distance from its center to the pointer are recorded for scaling.
pub open spec fn resize_press(state: DragState, input: PointerInput, widgets: Seq<Widget>) -> DragState {
    if input.just_pressed && input.cursor is Some && spec_edge_test(widgets, input.cursor->0) is Some {
        let point = input.cursor->0;
        let hit = widgets[spec_edge_test(widgets, point)->0];
        DragState {
            dragged_entity: None,
            resizing_entity: Some(hit.entity),
            initial_size: Some(hit.size),
            initial_distance: Some(spec_distance(point, hit.center) as u64),
            ..state
        }
    } else {
        state
    }
}

/// The widgets after the resized one has been scaled by the ratio of the
/// pointer's distance from its center now to that distance at the press.
pub open spec fn resize_continue(state: DragState, input: PointerInput, widgets: Seq<Widget>) -> Seq<Widget> {
    if state.resizing_entity is Some && input.cursor is Some && spec_find(
        widgets,
        state.resizing_entity->0,
    ) is Some && state.initial_size is Some && state.initial_distance is Some {
        let i = spec_find(widgets, state.resizing_entity->0)->0;
        let current_distance = spec_distance(input.cursor->0, widgets[i].center) as u64;
        widgets.update(
            i,
            Widget {
                size: spec_scaled_size(state.initial_size->0, state.initial_distance->0, current_distance),
                ..widgets[i]
            },
        )
    } else {
        widgets
    }
}

/// The gesture after the resize pass.
pub open spec fn resize_pass_state(state: DragState, input: PointerInput, widgets: Seq<Widget>) -> DragState {
    if input.just_released {
        DragState::idle()
    } else {
        resize_press(state, input, widgets)
    }
}

/// The panning lock after the resize pass.
pub open spec fn resize_pass_lock(locked: bool, input: PointerInput, widgets: Seq<Widget>) -> bool {
    if input.just_released {
        false
    } else if input.just_pressed && input.cursor is Some && spec_edge_test(widgets, input.cursor->0) is Some {
        true
    } else {
        locked
    }
}

/// The widgets after the resize pass.
pub open spec fn resize_pass_widgets(state: DragState, input: PointerInput, widgets: Seq<Widget>) -> Seq<Widget> {
    if input.just_released {
        widgets
    } else {
        resize_continue(resize_press(state, input, widgets), input, widgets)
    }
}

/// The lock is held exactly while a gesture is in progress.
pub open spec fn lock_follows_gesture(state: DragState, lock: PanningLock) -> bool {
    lock.is_locked == (state.dragged_entity is Some || state.resizing_entity is Some)
}

impl Widget {
    /// The drag pass of one frame, in this order: nothing at all while a
    /// resize is in progress; on release, the gesture is forgotten and the
    /// lock dropped; on a press, the first widget under the pointer becomes
    /// the dragged one and the lock is taken; and while a drag is in
    /// progress, the dragged widget follows the pointer at its click offset.
    pub fn update_position(
        input: &PointerInput,
        drag_state: &mut DragState,
        panning_lock: &mut PanningLock,
        widgets: &mut Vec<Widget>,
    )
        ensures
            *final(drag_state) == drag_pass_state(*old(drag_state), *input, old(widgets)@),
            final(panning_lock).is_locked == drag_pass_lock(
                *old(drag_state),
                old(panning_lock).is_locked,
                *input,
                old(widgets)@,
            ),
            final(widgets)@ == drag_pass_widgets(*old(drag_state), *input, old(widgets)@),
            final(widgets)@.len() == old(widgets)@.len(),
            old(drag_state).exclusive() ==> final(drag_state).exclusive(),
            lock_follows_gesture(*old(drag_state), *old(panning_lock)) ==> lock_follows_gesture(
                *final(drag_state),
                *final(panning_lock),
            ),
    {
        if drag_state.resizing_entity.is_some() {
            return ;
        }
        if input.just_released {
            drag_state.reset();
            panning_lock.is_locked = false;
            return ;
        }
        if input.just_pressed {
            if let Some(world_pos) = input.cursor {
                if let Some(i) = hit_test(widgets, world_pos) {
                    let hit = widgets[i];
                    drag_state.dragged_entity = Some(hit.entity);
                    drag_state.click_offset = Some(difference(world_pos, hit.center));
                    panning_lock.is_locked = true;
                }
            }
        }
        if let Some(dragged_entity) = drag_state.dragged_entity {
            if let Some(world_pos) = input.cursor {
                if let Some(i) = find(widgets, dragged_entity) {
                    let center = match drag_state.click_offset {
                        Some(offset) => difference(world_pos, offset),
                        None => world_pos,
                    };
                    let moved = Widget { center, ..widgets[i] };
                    widgets.set(i, moved);
                }
            }
        }
    }

    /// The resize pass of one frame, in this order: on release, the gesture is
    /// forgotten and the lock dropped; on a press, the first widget with an
    /// edge near the pointer becomes the resized one, any drag ends and the
    /// lock is taken; and while a resize is in progress, the resized widget is
    /// scaled by the pointer's distance from its center and clamped.
    pub fn resize(
        input: &PointerInput,
        drag_state: &mut DragState,
        panning_lock: &mut PanningLock,
        widgets: &mut Vec<Widget>,
    )
        ensures
            *final(drag_state) == resize_pass_state(*old(drag_state), *input, old(widgets)@),
            final(panning_lock).is_locked == resize_pass_lock(
                old(panning_lock).is_locked,
                *input,
                old(widgets)@,
            ),
            final(widgets)@ == resize_pass_widgets(*old(drag_state), *input, old(widgets)@),
            final(widgets)@.len() == old(widgets)@.len(),
            old(drag_state).exclusive() ==> final(drag_state).exclusive(),
            lock_follows_gesture(*old(drag_state), *old(panning_lock)) ==> lock_follows_gesture(
                *final(drag_state),
                *final(panning_lock),
            ),
    {
        if input.just_released {
            drag_state.reset();
            panning_lock.is_locked = false;
            return ;
        }
        if input.just_pressed {
            if let Some(world_pos) = input.cursor {
                if let Some(i) = edge_test(widgets, world_pos) {
                    let hit = widgets[i];
                    drag_state.dragged_entity = None;
                    drag_state.resizing_entity = Some(hit.entity);
                    drag_state.initial_size = Some(hit.size);
                    drag_state.initial_distance = Some(distance(world_pos, hit.center));
                    panning_lock.is_locked = true;
                }
            }
        }
        if let Some(resizing_entity) = drag_state.resizing_entity {
            if let Some(world_pos) = input.cursor {
                if let Some(i) = find(widgets, resizing_entity) {
                    let current_distance = distance(world_pos, widgets[i].center);
                    if let (Some(initial_size), Some(initial_distance)) = (
                        drag_state.initial_size,
                        drag_state.initial_distance,
                    ) {
                        let size = scaled_size(initial_size, initial_distance, current_distance);
                        let resized = Widget { size, ..widgets[i] };
                        widgets.set(i, resized);
                    }
                }
            }
        }
    }

    /// One frame of widget manipulation: the drag pass, then the resize pass,
    /// each run to its end on the same pointer input.
    pub fn manipulate(
        input: &PointerInput,
        drag_state: &mut DragState,
        panning_lock: &mut PanningLock,
        widgets: &mut Vec<Widget>,
    )
        ensures
            *final(drag_state) == frame_state(*old(drag_state), *input, old(widgets)@),
            final(panning_lock).is_locked == frame_lock(
                *old(drag_state),
                old(panning_lock).is_locked,
                *input,
                old(widgets)@,
            ),
            final(widgets)@ == frame_widgets(*old(drag_state), *input, old(widgets)@),
            final(widgets)@.len() == old(widgets)@.len(),
            old(drag_state).exclusive() ==> final(drag_state).exclusive(),
            lock_follows_gesture(*old(drag_state), *old(panning_lock)) ==> lock_follows_gesture(
                *final(drag_state),
                *final(panning_lock),
            ),
            input.just_released ==> {
                &&& *final(drag_state) == DragState::idle()
                &&& !final(panning_lock).is_locked
                &&& final(widgets)@ == old(widgets)@
            },
    {
        Widget::update_position(input, drag_state, panning_lock, widgets);
        Widget::resize(input, drag_state, panning_lock, widgets);
    }
}

/// The gesture after a whole frame.
pub open spec fn frame_state(state: DragState, input: PointerInput, widgets: Seq<Widget>) -> DragState {
    resize_pass_state(
        drag_pass_state(state, input, widgets),
        input,
        drag_pass_widgets(state, input, widgets),
    )
}

/// The panning lock after a whole frame.
pub open spec fn frame_lock(state: DragState, locked: bool, input: PointerInput, widgets: Seq<Widget>) -> bool {
    resize_pass_lock(
        drag_pass_lock(state, locked, input, widgets),
        input,
        drag_pass_widgets(state, input, widgets),
    )
}

/// The widgets after a whole frame.
pub open spec fn frame_widgets(state: DragState, input: PointerInput, widgets: Seq<Widget>) -> Seq<Widget> {
    resize_pass_widgets(
        drag_pass_state(state, input, widgets),
        input,
        drag_pass_widgets(state, input, widgets),
    )
}

/// Width and height of a freshly spawned sticky note.
pub const STICKY_SIZE: i32 = 150;

/// A sticky note about to be put on the canvas. The host gives it an identity
/// and a look, and adds it to the widgets of the next frame.
#[derive(Clone, Copy, PartialEq, Eq, Debug)]
pub struct Sticky {
    pub center: Vec2,
    pub size: Vec2,
}

impl Sticky {
    /// The sticky note that a spawn puts at `center`.
    pub open spec fn at(center: Vec2) -> Sticky {
        Sticky { center, size: Vec2 { x: STICKY_SIZE, y: STICKY_SIZE } }
    }

    /// Spawns a sticky note of the default size at the center of the viewport
    /// on the frame in which the spawn key goes down. `viewport_center` is
    /// that center in world space, `None` while the surface or the camera is
    /// not there; nothing is spawned then. Widgets already at that place are
    /// no obstacle.
    pub fn spawn(spawn_key_just_pressed: bool, viewport_center: Option<Vec2>) -> (spawned: Option<Sticky>)
        ensures
            spawned == if spawn_key_just_pressed && viewport_center is Some {
                Some(Sticky::at(viewport_center->0))
            } else {
                None
            },
    {
        if spawn_key_just_pressed {
            if let Some(world_position) = viewport_center {
                return Some(
                    Sticky { center: world_position, size: Vec2 { x: STICKY_SIZE, y: STICKY_SIZE } },
                );
            }
        }
        None
    }
}

} // verus!
