//! Pointer interaction for a 2D diagramming canvas.
//!
//! The crate holds the interaction state machine of the canvas: hit-testing,
//! drag tracking, resize tracking and the lock that keeps camera panning and
//! widget manipulation from fighting over one pointer gesture.
//!
//! World coordinates are whole world units (`i32`) and distances are rounded
//! down to whole units. Every intermediate value is computed in a wider
//! integer type, so no operation overflows and no function panics.

pub mod camera;
pub mod geometry;
pub mod laws;
pub mod style;
pub mod widget;
