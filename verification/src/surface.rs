//! The capability contract of a floating layer.
//!
//! Anything that can lay itself out, draw itself, answer hit tests,
//! handle input and report mouse feedback can stand in an overlay chain.
//! Each executable operation is pinned to a specification function, so
//! the chain composer in [`crate::nested`] can state exactly what a whole
//! pass over the chain does, whatever the surfaces are.

use vstd::prelude::*;

use crate::draw::DrawCmd;
use crate::event::{Event, Shell, Status};
use crate::event::Interaction;
use crate::geometry::{Point, Rectangle, Size};

verus! {

/// A floating layer: the unit of polymorphism of the overlay chain.
pub trait Surface: Sized {
    /// The surface's own invariant; every operation keeps it.
    spec fn wf(&self) -> bool;

    /// The bounds the surface chooses inside the available `area` when
    /// anchored at `anchor`.
    spec fn spec_layout(&self, area: Size, anchor: Point) -> Rectangle;

    /// Whether `cursor` is over the surface once laid out at `layout`.
    spec fn spec_is_over(&self, layout: Rectangle, cursor: Point) -> bool;

    /// The surface after handling `event`, the capture status it
    /// reports, and the messages it publishes, in order.
    spec fn spec_on_event(&self, event: Event, layout: Rectangle, cursor: Point) -> (
        Self,
        Status,
        Seq<String>,
    );

    /// The mouse feedback the surface reports at `cursor`.
    spec fn spec_interaction(&self, layout: Rectangle, cursor: Point) -> Interaction;

    /// The display list the surface produces at `layout` when the draw
    /// pass hands it `cursor`.
    spec fn spec_draw(&self, layout: Rectangle, cursor: Point) -> Seq<DrawCmd>;

    /// Computes the surface's bounds inside `area`, anchored at `anchor`.
    fn layout(&self, area: Size, anchor: Point) -> (r: Rectangle)
        requires
            self.wf(),
            area.wf(),
            anchor.wf(),
        ensures
            r == self.spec_layout(area, anchor),
            r.wf(),
    ;

    /// Hit-tests the surface.
    fn is_over(&self, layout: Rectangle, cursor: Point) -> (r: bool)
        requires
            self.wf(),
            layout.wf(),
        ensures
            r == self.spec_is_over(layout, cursor),
    ;

    /// Handles one input event, publishing any messages to `shell`.
    fn on_event(
        &mut self,
        event: Event,
        layout: Rectangle,
        cursor: Point,
        shell: &mut Shell,
    ) -> (status: Status)
        requires
            old(self).wf(),
            layout.wf(),
        ensures
            final(self).wf(),
            *final(self) == old(self).spec_on_event(event, layout, cursor).0,
            status == old(self).spec_on_event(event, layout, cursor).1,
            final(shell).messages@ == old(shell).messages@ + old(self).spec_on_event(
                event,
                layout,
                cursor,
            ).2,
    ;

    /// Reports mouse feedback at `cursor`.
    fn mouse_interaction(&self, layout: Rectangle, cursor: Point) -> (i: Interaction)
        requires
            self.wf(),
            layout.wf(),
        ensures
            i == self.spec_interaction(layout, cursor),
    ;

    /// Draws the surface: returns its display list.
    fn draw(&self, layout: Rectangle, cursor: Point) -> (cmds: Vec<DrawCmd>)
        requires
            self.wf(),
            layout.wf(),
        ensures
            cmds@ == self.spec_draw(layout, cursor),
    ;
}

} // verus!
