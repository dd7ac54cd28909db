//! A plain rectangular layer.
//!
//! The simplest surface an overlay chain can hold: a fixed-size box at a
//! fixed offset from its anchor. It shows a hover highlight while the
//! cursor it is drawn with lies over it, and it can be told to capture
//! presses inside its bounds — enough to stand in for a popover or a
//! backdrop, and to compose with any other surface.

use vstd::prelude::*;

use crate::draw::DrawCmd;
use crate::event::{Event, Interaction, Shell, Status};
use crate::geometry::{small, Point, Rectangle, Size};
use crate::surface::Surface;

verus! {

/// A fixed-size rectangular surface.
#[derive(Clone, Copy, Debug, PartialEq, Eq, Structural)]
pub struct Pane {
    /// Horizontal offset of the pane from its anchor.
    pub dx: i64,
    /// Vertical offset of the pane from its anchor.
    pub dy: i64,
    /// The pane's width.
    pub width: i64,
    /// The pane's height.
    pub height: i64,
    /// Whether a press or touch inside the pane is captured.
    pub captures_press: bool,
    /// How many presses the pane has captured; saturates at `i64::MAX`.
    pub presses: i64,
}

impl Pane {
    /// A pane of the given size, flush with its anchor, capturing
    /// presses inside its bounds.
    pub fn new(width: i64, height: i64) -> (p: Pane)
        requires
            0 <= width <= 0x4000_0000,
            0 <= height <= 0x4000_0000,
        ensures
            p == (Pane { dx: 0i64, dy: 0i64, width, height, captures_press: true, presses: 0i64 }),
    {
        Pane { dx: 0i64, dy: 0i64, width, height, captures_press: true, presses: 0 }
    }
}

impl Surface for Pane {
    open spec fn wf(&self) -> bool {
        &&& small(self.dx as int)
        &&& small(self.dy as int)
        &&& 0 <= self.width <= 0x4000_0000
        &&& 0 <= self.height <= 0x4000_0000
        &&& 0 <= self.presses
    }

    open spec fn spec_layout(&self, area: Size, anchor: Point) -> Rectangle {
        Rectangle {
            x: (anchor.x + self.dx) as i64,
            y: (anchor.y + self.dy) as i64,
            width: self.width,
            height: self.height,
        }
    }

    open spec fn spec_is_over(&self, layout: Rectangle, cursor: Point) -> bool {
        layout.spec_contains(cursor)
    }

    open spec fn spec_on_event(&self, event: Event, layout: Rectangle, cursor: Point) -> (
        Pane,
        Status,
        Seq<String>,
    ) {
        let captured = (event == Event::MousePressed || event == Event::TouchPressed)
            && layout.spec_contains(cursor) && self.captures_press;
        if captured {
            let counted = if self.presses < 0x7FFF_FFFF_FFFF_FFFFi64 {
                (self.presses + 1) as i64
            } else {
                self.presses
            };
            (Pane { presses: counted, ..*self }, Status::Captured, Seq::empty())
        } else {
            (*self, Status::Ignored, Seq::empty())
        }
    }

    open spec fn spec_interaction(&self, layout: Rectangle, cursor: Point) -> Interaction {
        if layout.spec_contains(cursor) {
            Interaction::Pointer
        } else {
            Interaction::Idle
        }
    }

    open spec fn spec_draw(&self, layout: Rectangle, cursor: Point) -> Seq<DrawCmd> {
        if layout.spec_contains(cursor) {
            seq![DrawCmd::Background { bounds: layout }, DrawCmd::Hover { bounds: layout }]
        } else {
            seq![DrawCmd::Background { bounds: layout }]
        }
    }

    fn layout(&self, area: Size, anchor: Point) -> (r: Rectangle) {
        Rectangle {
            x: anchor.x + self.dx,
            y: anchor.y + self.dy,
            width: self.width,
            height: self.height,
        }
    }

    fn is_over(&self, layout: Rectangle, cursor: Point) -> (r: bool) {
        layout.contains(cursor)
    }

    fn on_event(
        &mut self,
        event: Event,
        layout: Rectangle,
        cursor: Point,
        shell: &mut Shell,
    ) -> (status: Status) {
        let pressed = matches!(event, Event::MousePressed | Event::TouchPressed);
        if pressed && layout.contains(cursor) && self.captures_press {
            if self.presses < 0x7FFF_FFFF_FFFF_FFFF {
                self.presses = self.presses + 1;
            }
            Status::Captured
        } else {
            Status::Ignored
        }
    }

    fn mouse_interaction(&self, layout: Rectangle, cursor: Point) -> (i: Interaction) {
        if layout.contains(cursor) {
            Interaction::Pointer
        } else {
            Interaction::Idle
        }
    }

    fn draw(&self, layout: Rectangle, cursor: Point) -> (cmds: Vec<DrawCmd>) {
        let mut cmds: Vec<DrawCmd> = Vec::new();
        cmds.push(DrawCmd::Background { bounds: layout });
        if layout.contains(cursor) {
            cmds.push(DrawCmd::Hover { bounds: layout });
        }
        proof {
            assert(cmds@ =~= self.spec_draw(layout, cursor));
        }
        cmds
    }
}

} // verus!
