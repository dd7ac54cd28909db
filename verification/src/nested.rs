//! The nested overlay composer.
//!
//! A [`Nested`] owns the materialized overlay chain of one pass:
//! `levels[0]` is the outermost surface, each following level the one
//! nested beneath it. The chain is rebuilt for every pass, because
//! whether a surface currently exposes a nested one depends on its
//! state. One uniform walk threads each operation through every level:
//!
//! * layout, draw and hit tests run outer to inner;
//! * event dispatch and mouse feedback run inner to outer, so the
//!   visually topmost surface gets first refusal;
//! * when the level nested above a surface reports the cursor as over
//!   itself, the surface below is handed the sentinel off-screen cursor
//!   instead, so an occluded layer never reacts to a cursor that
//!   belongs to the layer stacked above it.
//!
//! All occlusion facts of a pass are computed against the state the
//! pass started from, before any side effect of that pass.

use vstd::prelude::*;

use crate::draw::{DrawCmd, Layer};
use crate::event::{Event, Interaction, Shell, Status};
use crate::geometry::{sentinel, spec_sentinel, Point, Rectangle, Size};
use crate::operation::Operation;
use crate::surface::Surface;

verus! {

/// Whether every rectangle of a layout is well-formed.
pub open spec fn rects_wf(rects: Seq<Rectangle>) -> bool {
    forall|i: int| 0 <= i < rects.len() ==> (#[trigger] rects[i]).wf()
}

/// An overlay chain: one surface per nesting level, outermost first.
pub struct Nested<S> {
    /// The materialized chain, outermost first; never empty.
    pub levels: Vec<S>,
}

impl<S: Surface> Nested<S> {
    /// Every level is well-formed and the chain is not empty.
    pub open spec fn wf(&self) -> bool {
        &&& self.levels@.len() >= 1
        &&& forall|i: int| 0 <= i < self.levels@.len() ==> (#[trigger] self.levels@[i]).wf()
    }

    /// Creates a chain of the single outermost surface.
    pub fn new(element: S) -> (n: Nested<S>)
        ensures
            n.levels@ =~= seq![element],
    {
        let mut levels: Vec<S> = Vec::new();
        levels.push(element);
        Nested { levels }
    }

    /// Appends the surface nested beneath the current innermost level.
    pub fn push(&mut self, element: S)
        ensures
            final(self).levels@ == old(self).levels@.push(element),
    {
        self.levels.push(element);
    }

    /// How many levels the chain currently holds.
    pub fn len(&self) -> (n: usize)
        ensures
            n == self.levels@.len(),
    {
        self.levels.len()
    }

    /// Lays out the whole chain inside `area`, translated by `anchor`:
    /// one rectangle per level, in chain order.
    pub fn layout(&self, area: Size, anchor: Point) -> (rects: Vec<Rectangle>)
        requires
            self.wf(),
            area.wf(),
            anchor.wf(),
        ensures
            rects@.len() == self.levels@.len(),
            forall|i: int|
                0 <= i < rects@.len() ==> #[trigger] rects@[i] == self.levels@[i].spec_layout(
                    area,
                    anchor,
                ),
            rects_wf(rects@),
    {
        let n = self.levels.len();
        let mut rects: Vec<Rectangle> = Vec::new();
        let mut i: usize = 0;
        while i < n
            invariant
                n == self.levels@.len(),
                self.wf(),
                area.wf(),
                anchor.wf(),
                i <= n,
                rects@.len() == i,
                forall|j: int|
                    0 <= j < i ==> #[trigger] rects@[j] == self.levels@[j].spec_layout(
                        area,
                        anchor,
                    ),
                rects_wf(rects@),
            decreases n - i,
        {
            let r = self.levels[i].layout(area, anchor);
            rects.push(r);
            i += 1;
        }
        rects
    }

    /// Whether the cursor is over some level of the chain.
    pub open spec fn spec_any_over(levels: Seq<S>, rects: Seq<Rectangle>, cursor: Point) -> bool {
        exists|i: int| 0 <= i < levels.len() && levels[i].spec_is_over(rects[i], cursor)
    }

    /// Hit-tests the chain: true when the cursor is over any level,
    /// consulted outer first and stopping at the first match.
    pub fn is_over(&self, rects: &Vec<Rectangle>, cursor: Point) -> (r: bool)
        requires
            self.wf(),
            rects@.len() == self.levels@.len(),
            rects_wf(rects@),
        ensures
            r == Self::spec_any_over(self.levels@, rects@, cursor),
    {
        let n = self.levels.len();
        let mut i: usize = 0;
        while i < n
            invariant
                n == self.levels@.len(),
                self.wf(),
                rects@.len() == n,
                rects_wf(rects@),
                i <= n,
                forall|j: int| 0 <= j < i ==> !self.levels@[j].spec_is_over(rects@[j], cursor),
            decreases n - i,
        {
            if self.levels[i].is_over(rects[i], cursor) {
                return true;
            }
            i += 1;
        }
        false
    }

    /// The cursor level `i` is handed during a pass at `cursor`: the
    /// sentinel when the level nested directly above reports the cursor
    /// as over itself, the real cursor otherwise.
    pub open spec fn spec_eff_cursor(
        levels: Seq<S>,
        rects: Seq<Rectangle>,
        cursor: Point,
        i: int,
    ) -> Point {
        if i + 1 < levels.len() && levels[i + 1].spec_is_over(rects[i + 1], cursor) {
            spec_sentinel()
        } else {
            cursor
        }
    }

    /// The display list of level `i` in a draw pass at `cursor`.
    pub open spec fn spec_layer(
        levels: Seq<S>,
        rects: Seq<Rectangle>,
        cursor: Point,
        i: int,
    ) -> Seq<DrawCmd> {
        levels[i].spec_draw(rects[i], Self::spec_eff_cursor(levels, rects, cursor, i))
    }

    /// Draws the chain, outer to inner, one clipped layer per level.
    /// Occlusion is decided for every level first, against the state the
    /// pass started from; only then is anything drawn.
    pub fn draw(&self, rects: &Vec<Rectangle>, cursor: Point) -> (frame: Vec<Layer>)
        requires
            self.wf(),
            rects@.len() == self.levels@.len(),
            rects_wf(rects@),
        ensures
            frame@.len() == self.levels@.len(),
            forall|i: int|
                0 <= i < frame@.len() ==> (#[trigger] frame@[i]).clip == rects@[i]
                    && frame@[i].cmds@ == Self::spec_layer(self.levels@, rects@, cursor, i),
    {
        let n = self.levels.len();
        let mut over: Vec<bool> = Vec::new();
        let mut i: usize = 0;
        while i < n
            invariant
                n == self.levels@.len(),
                self.wf(),
                rects@.len() == n,
                rects_wf(rects@),
                i <= n,
                over@.len() == i,
                forall|j: int|
                    0 <= j < i ==> over@[j] == self.levels@[j].spec_is_over(rects@[j], cursor),
            decreases n - i,
        {
            over.push(self.levels[i].is_over(rects[i], cursor));
            i += 1;
        }
        let mut frame: Vec<Layer> = Vec::new();
        let mut i: usize = 0;
        while i < n
            invariant
                n == self.levels@.len(),
                self.wf(),
                rects@.len() == n,
                rects_wf(rects@),
                over@.len() == n,
                forall|j: int|
                    0 <= j < n ==> over@[j] == self.levels@[j].spec_is_over(rects@[j], cursor),
                i <= n,
                frame@.len() == i,
                forall|j: int|
                    0 <= j < i ==> (#[trigger] frame@[j]).clip == rects@[j] && frame@[j].cmds@
                        == Self::spec_layer(self.levels@, rects@, cursor, j),
            decreases n - i,
        {
            let eff = if i + 1 < n && over[i + 1] {
                sentinel()
            } else {
                cursor
            };
            let cmds = self.levels[i].draw(rects[i], eff);
            frame.push(Layer { clip: rects[i], cmds });
            i += 1;
        }
        frame
    }

    /// What handling one event does to level `i`: its new state, the
    /// status it reports, and the messages it publishes.
    pub open spec fn spec_step(
        levels: Seq<S>,
        rects: Seq<Rectangle>,
        event: Event,
        cursor: Point,
        i: int,
    ) -> (S, Status, Seq<String>) {
        levels[i].spec_on_event(event, rects[i], Self::spec_eff_cursor(levels, rects, cursor, i))
    }

    /// The level that captures the event when dispatch starts at level
    /// `i` and proceeds outward, or `-1` when every consulted level
    /// ignores it.
    pub open spec fn spec_capture_index(
        levels: Seq<S>,
        rects: Seq<Rectangle>,
        event: Event,
        cursor: Point,
        i: int,
    ) -> int
        decreases i + 1,
    {
        if i < 0 {
            -1
        } else if Self::spec_step(levels, rects, event, cursor, i).1 == Status::Captured {
            i
        } else {
            Self::spec_capture_index(levels, rects, event, cursor, i - 1)
        }
    }

    /// The messages published when dispatch starts at level `i` and
    /// proceeds outward until a level captures the event.
    pub open spec fn spec_published(
        levels: Seq<S>,
        rects: Seq<Rectangle>,
        event: Event,
        cursor: Point,
        i: int,
    ) -> Seq<String>
        decreases i + 1,
    {
        if i < 0 {
            Seq::empty()
        } else {
            let step = Self::spec_step(levels, rects, event, cursor, i);
            if step.1 == Status::Captured {
                step.2
            } else {
                step.2 + Self::spec_published(levels, rects, event, cursor, i - 1)
            }
        }
    }

    /// Dispatches one event through the chain, innermost first,
    /// bubbling outward only while levels ignore it. A level whose
    /// nested level reports the cursor as over itself is handed the
    /// sentinel cursor. Returns the final capture status and whether
    /// the cursor was over any level, for the caller's own hit testing.
    pub fn on_event(
        &mut self,
        event: Event,
        rects: &Vec<Rectangle>,
        cursor: Point,
        shell: &mut Shell,
    ) -> (r: (Status, bool))
        requires
            old(self).wf(),
            rects@.len() == old(self).levels@.len(),
            rects_wf(rects@),
        ensures
            final(self).wf(),
            final(self).levels@.len() == old(self).levels@.len(),
            ({
                let levels = old(self).levels@;
                let n = levels.len() as int;
                let fc = Self::spec_capture_index(levels, rects@, event, cursor, n - 1);
                &&& (r.0 == Status::Captured <==> fc >= 0)
                &&& forall|j: int|
                    0 <= j < n ==> #[trigger] final(self).levels@[j] == (if j >= fc {
                        Self::spec_step(levels, rects@, event, cursor, j).0
                    } else {
                        levels[j]
                    })
                &&& final(shell).messages@ == old(shell).messages@ + Self::spec_published(
                    levels,
                    rects@,
                    event,
                    cursor,
                    n - 1,
                )
            }),
            r.1 == Self::spec_any_over(old(self).levels@, rects@, cursor),
    {
        let ghost levels0 = self.levels@;
        let ghost shell0 = shell.messages@;
        let n = self.levels.len();
        let mut over: Vec<bool> = Vec::new();
        let mut any = false;
        let mut i: usize = 0;
        while i < n
            invariant
                n == self.levels@.len(),
                self.levels@ == levels0,
                self.wf(),
                rects@.len() == n,
                rects_wf(rects@),
                i <= n,
                over@.len() == i,
                forall|j: int|
                    0 <= j < i ==> over@[j] == levels0[j].spec_is_over(rects@[j], cursor),
                any == exists|j: int| 0 <= j < i && levels0[j].spec_is_over(rects@[j], cursor),
            decreases n - i,
        {
            let o = self.levels[i].is_over(rects[i], cursor);
            over.push(o);
            any = any || o;
            i += 1;
        }
        let mut status = Status::Ignored;
        let mut i: usize = n;
        while i > 0 && matches!(status, Status::Ignored)
            invariant
                n == self.levels@.len(),
                n == levels0.len(),
                self.wf(),
                rects@.len() == n,
                rects_wf(rects@),
                over@.len() == n,
                forall|j: int|
                    0 <= j < n ==> over@[j] == levels0[j].spec_is_over(rects@[j], cursor),
                i <= n,
                forall|j: int| 0 <= j < i ==> #[trigger] self.levels@[j] == levels0[j],
                status == Status::Ignored ==> {
                    &&& forall|j: int|
                        i <= j < n ==> Self::spec_step(levels0, rects@, event, cursor, j).1
                            == Status::Ignored
                    &&& Self::spec_capture_index(levels0, rects@, event, cursor, n - 1)
                        == Self::spec_capture_index(levels0, rects@, event, cursor, i as int - 1)
                    &&& Self::spec_published(levels0, rects@, event, cursor, n - 1)
                        == shell.messages@.skip(shell0.len() as int) + Self::spec_published(
                        levels0,
                        rects@,
                        event,
                        cursor,
                        i as int - 1,
                    )
                    &&& forall|j: int|
                        i <= j < n ==> #[trigger] self.levels@[j] == Self::spec_step(
                            levels0,
                            rects@,
                            event,
                            cursor,
                            j,
                        ).0
                },
                status == Status::Captured ==> {
                    &&& Self::spec_capture_index(levels0, rects@, event, cursor, n - 1) == i as int
                    &&& Self::spec_published(levels0, rects@, event, cursor, n - 1)
                        == shell.messages@.skip(shell0.len() as int)
                    &&& forall|j: int|
                        i <= j < n ==> #[trigger] self.levels@[j] == Self::spec_step(
                            levels0,
                            rects@,
                            event,
                            cursor,
                            j,
                        ).0
                },
                shell.messages@.len() >= shell0.len(),
                shell.messages@.take(shell0.len() as int) == shell0,
            decreases i,
        {
            i -= 1;
            let eff = if i + 1 < n && over[i + 1] {
                sentinel()
            } else {
                cursor
            };
            proof {
                assert(eff == Self::spec_eff_cursor(levels0, rects@, cursor, i as int));
            }
            status = self.levels[i].on_event(event, rects[i], eff, shell);
        }
        proof {
            if status == Status::Ignored {
                assert(i == 0);
                assert(Self::spec_capture_index(levels0, rects@, event, cursor, -1) == -1);
                assert(Self::spec_published(levels0, rects@, event, cursor, -1)
                    =~= Seq::<String>::empty());
                assert(Self::spec_published(levels0, rects@, event, cursor, n as int - 1)
                    =~= shell.messages@.skip(shell0.len() as int));
            }
            assert(shell.messages@ =~= shell0 + shell.messages@.skip(shell0.len() as int));
        }
        (status, any)
    }

    /// The state an operation reaches after visiting the levels from
    /// `i` on, outer to inner.
    pub open spec fn spec_operate<O: Operation>(op: O, rects: Seq<Rectangle>, i: int) -> O
        decreases rects.len() - i,
    {
        if i < 0 || i >= rects.len() {
            op
        } else {
            Self::spec_operate(op.spec_apply(rects[i]), rects, i + 1)
        }
    }

    /// Applies an externally supplied tree-walking operation to every
    /// level, depth-first, outer to inner.
    pub fn operate<O: Operation>(&self, rects: &Vec<Rectangle>, op: &mut O)
        requires
            self.wf(),
            rects@.len() == self.levels@.len(),
            rects_wf(rects@),
        ensures
            *final(op) == Self::spec_operate(*old(op), rects@, 0),
    {
        let n = self.levels.len();
        let mut i: usize = 0;
        while i < n
            invariant
                n == self.levels@.len(),
                rects@.len() == n,
                rects_wf(rects@),
                i <= n,
                Self::spec_operate(*old(op), rects@, 0) == Self::spec_operate(*op, rects@, i as int),
            decreases n - i,
        {
            op.apply(rects[i]);
            i += 1;
        }
    }

    /// The mouse feedback of the chain when consultation starts at
    /// level `i`: the first preference found walking outward.
    pub open spec fn spec_interaction_from(
        levels: Seq<S>,
        rects: Seq<Rectangle>,
        cursor: Point,
        i: int,
    ) -> Interaction
        decreases i + 1,
    {
        if i < 0 {
            Interaction::Idle
        } else {
            let it = levels[i].spec_interaction(rects[i], cursor);
            if it != Interaction::Idle {
                it
            } else {
                Self::spec_interaction_from(levels, rects, cursor, i - 1)
            }
        }
    }

    /// Reports the chain's mouse feedback: the innermost level is asked
    /// first, and an outer level only while every inner one reports no
    /// preference.
    pub fn mouse_interaction(&self, rects: &Vec<Rectangle>, cursor: Point) -> (it: Interaction)
        requires
            self.wf(),
            rects@.len() == self.levels@.len(),
            rects_wf(rects@),
        ensures
            it == Self::spec_interaction_from(
                self.levels@,
                rects@,
                cursor,
                self.levels@.len() - 1,
            ),
    {
        let n = self.levels.len();
        let mut i: usize = n;
        while i > 0
            invariant
                n == self.levels@.len(),
                self.wf(),
                rects@.len() == n,
                rects_wf(rects@),
                i <= n,
                Self::spec_interaction_from(self.levels@, rects@, cursor, n - 1)
                    == Self::spec_interaction_from(self.levels@, rects@, cursor, i as int - 1),
            decreases i,
        {
            i -= 1;
            let it = self.levels[i].mouse_interaction(rects[i], cursor);
            if !matches!(it, Interaction::Idle) {
                return it;
            }
        }
        Interaction::Idle
    }

    /// Occlusion, stated for the two-level chain: when the inner level
    /// reports the cursor as over itself, the outer level's share of the
    /// draw pass is exactly what it draws under the sentinel cursor, so
    /// its pointer-reactive visuals cannot react to the real cursor.
    pub proof fn lemma_occluded_outer_drawn_with_sentinel(
        levels: Seq<S>,
        rects: Seq<Rectangle>,
        cursor: Point,
    )
        requires
            levels.len() == 2,
            rects.len() == 2,
            levels[1].spec_is_over(rects[1], cursor),
        ensures
            Self::spec_eff_cursor(levels, rects, cursor, 0) == spec_sentinel(),
            Self::spec_layer(levels, rects, cursor, 0) == levels[0].spec_draw(
                rects[0],
                spec_sentinel(),
            ),
    {
    }

    /// Bubbling, stated for the two-level chain: when the inner level
    /// ignores the event the dispatch reaches the outer level — the
    /// capture index `on_event` is specified by is at most 0, so the
    /// outer level handles the same event; when the inner level captures
    /// it the capture index is 1, and `on_event`'s contract then leaves
    /// the outer level exactly as it was.
    pub proof fn lemma_event_bubbling(
        levels: Seq<S>,
        rects: Seq<Rectangle>,
        event: Event,
        cursor: Point,
    )
        requires
            levels.len() == 2,
            rects.len() == 2,
        ensures
            Self::spec_step(levels, rects, event, cursor, 1).1 == Status::Ignored
                ==> Self::spec_capture_index(levels, rects, event, cursor, 1) <= 0,
            Self::spec_step(levels, rects, event, cursor, 1).1 == Status::Captured
                ==> Self::spec_capture_index(levels, rects, event, cursor, 1) == 1,
            Self::spec_step(levels, rects, event, cursor, 1).1 == Status::Ignored
                ==> Self::spec_published(levels, rects, event, cursor, 1) == Self::spec_step(
                levels,
                rects,
                event,
                cursor,
                1,
            ).2 + Self::spec_published(levels, rects, event, cursor, 0),
    {
        if Self::spec_step(levels, rects, event, cursor, 1).1 == Status::Ignored {
            assert(Self::spec_capture_index(levels, rects, event, cursor, 1)
                == Self::spec_capture_index(levels, rects, event, cursor, 0));
            if Self::spec_step(levels, rects, event, cursor, 0).1 == Status::Captured {
                assert(Self::spec_capture_index(levels, rects, event, cursor, 0) == 0);
            } else {
                assert(Self::spec_capture_index(levels, rects, event, cursor, 0)
                    == Self::spec_capture_index(levels, rects, event, cursor, -1));
            }
        }
    }
}

} // verus!
