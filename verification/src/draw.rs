//! The display list a draw pass produces.
//!
//! Surfaces do not talk to a renderer: a draw pass returns data, and the
//! embedding maps each command onto the toolkit's fill-quad and fill-text
//! primitives with the colors its style sheet resolves.

use vstd::prelude::*;

use crate::geometry::Rectangle;

verus! {

/// One primitive of a surface's rendering.
#[derive(Clone, Copy, Debug, PartialEq, Eq, Structural)]
pub enum DrawCmd {
    /// The surface's background and border, filling `bounds`.
    Background { bounds: Rectangle },
    /// A hover highlight over `bounds`, drawn because the cursor given to
    /// the draw pass was over the surface.
    Hover { bounds: Rectangle },
    /// The highlight behind the hovered option row `index`.
    RowHighlight { bounds: Rectangle, index: usize },
    /// The text of option row `index`, left-aligned and vertically
    /// centered in `bounds`; `selected` picks the highlighted text color.
    RowText { bounds: Rectangle, index: usize, selected: bool },
}

/// The rendering of one overlay level: its commands, clipped to `clip`
/// so overlapping levels do not bleed outside their bounds.
#[derive(Debug)]
pub struct Layer {
    /// The clip rectangle: the level's own bounds.
    pub clip: Rectangle,
    /// The level's commands, in drawing order.
    pub cmds: Vec<DrawCmd>,
}

} // verus!
