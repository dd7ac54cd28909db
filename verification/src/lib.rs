//! Overlay composition and event routing for a retained-mode GUI toolkit.
//!
//! A widget may spawn a floating layer (an overlay) positioned relative to a
//! trigger, and such a layer may itself expose one further layer (a submenu),
//! forming a chain of stacked surfaces. The [`nested`] module threads one
//! operation — layout, draw, event dispatch, mouse feedback, hit test —
//! through the whole chain and resolves occlusion between adjacent levels.
//! The [`menu`] module builds the canonical consumer: a virtualized,
//! selectable dropdown list placed above or below its trigger.
//!
//! Geometry is integral: every coordinate is an `i64` number of pixels.

pub mod draw;
pub mod event;
pub mod geometry;
pub mod list;
pub mod menu;
pub mod nested;
pub mod operation;
pub mod pane;
pub mod surface;
