//! The lock through which widget manipulation keeps the camera from panning,
//! and the zoom limits of the camera.

use vstd::prelude::*;

verus! {

/// Set while a drag or a resize owns the pointer. The widget passes write it;
/// the camera reads it each frame and must not pan while it is set.
#[derive(Clone, Copy, PartialEq, Eq, Debug)]
pub struct PanningLock {
    pub is_locked: bool,
}

impl Default for PanningLock {
    fn default() -> (lock: PanningLock)
        ensures
            !lock.is_locked,
    {
        PanningLock { is_locked: false }
    }
}

/// Smallest and largest scale that the camera may zoom to.
#[derive(Clone, Copy, PartialEq, Eq, Debug)]
pub struct ZoomLimits {
    pub min_scale: u32,
    pub max_scale: u32,
}

/// Scale of the camera when it is not zoomed.
pub const UNIT_SCALE: u32 = 1;

/// Largest scale of the camera while zooming is allowed.
pub const MAX_ZOOM_SCALE: u32 = 40;

/// The zoom limits for this frame. Zooming is allowed only while the zoom key
/// is held; otherwise both limits are the unit scale, which pins the zoom
/// and leaves panning alone.
pub fn toggle_zoom(zoom_key_pressed: bool) -> (limits: ZoomLimits)
    ensures
        limits.min_scale == UNIT_SCALE,
        limits.max_scale == if zoom_key_pressed { MAX_ZOOM_SCALE } else { UNIT_SCALE },
{
    if zoom_key_pressed {
        ZoomLimits { min_scale: UNIT_SCALE, max_scale: MAX_ZOOM_SCALE }
    } else {
        ZoomLimits { min_scale: UNIT_SCALE, max_scale: UNIT_SCALE }
    }
}

/// Tells whether the camera may pan this frame: exactly when no gesture holds
/// the lock.
pub fn update_panning_state(panning_lock: &PanningLock) -> (enabled: bool)
    ensures
        enabled == !panning_lock.is_locked,
{
    !panning_lock.is_locked
}

} // verus!
