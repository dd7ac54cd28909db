//! The dropdown menu: a positioned, scrollable list of selectable
//! options, presented as one overlay surface.
//!
//! A [`Menu`] gathers the option list, the open/closing/closed
//! [`State`], the shared hovered-option slot and the presentation
//! configuration; [`Menu::overlay`] turns it into an [`Overlay`], the
//! surface the chain composer drives. The overlay places the list below
//! its target when more space is free there than above it, virtualizes
//! its rows, tracks hover on pointer moves, and publishes the chosen
//! option on a press or tap.

use vstd::prelude::*;

use crate::draw::DrawCmd;
use crate::event::{Event, Interaction, Shell};
use crate::event::Status as EventStatus;
use crate::geometry::{Padding, Point, Rectangle, Size, MAX_EXTENT};
use crate::list::{intrinsic_height, row_at, spec_visible_end, spec_visible_start, visible_range};
use crate::surface::Surface;

verus! {

/// The text size used when none is configured.
pub const DEFAULT_TEXT_SIZE: i64 = 16;

/// The status of a [`Menu`].
#[derive(Clone, Copy, Debug, PartialEq, Eq, Structural)]
pub enum Status {
    /// The menu is closed: initial and terminal, inert.
    Closed,
    /// Interactive input has requested dismissal; the owning widget is
    /// expected to observe this and finalize closure.
    Closing,
    /// The menu is open and accepting hover and selection.
    Open,
}

impl Default for Status {
    /// A menu starts closed.
    fn default() -> (s: Status)
        ensures
            s == Status::Closed,
    {
        Status::Closed
    }
}

/// The local state of a [`Menu`].
#[derive(Clone, Copy, Debug, PartialEq, Eq, Structural)]
pub struct State {
    /// The open/closing/closed status.
    pub status: Status,
}

impl State {
    /// Creates a new [`State`] for a [`Menu`], closed.
    pub fn new() -> (s: State)
        ensures
            s.status == Status::Closed,
    {
        State { status: Status::Closed }
    }

    /// Returns true if the [`Menu`] is open.
    pub fn is_open(&self) -> (r: bool)
        ensures
            r == (self.status == Status::Open),
    {
        matches!(self.status, Status::Open)
    }

    /// Returns true if the [`Menu`] is closing.
    pub fn is_closing(&self) -> (r: bool)
        ensures
            r == (self.status == Status::Closing),
    {
        matches!(self.status, Status::Closing)
    }

    /// Opens the [`Menu`].
    pub fn open(&mut self)
        ensures
            final(self).status == Status::Open,
    {
        self.status = Status::Open;
    }

    /// Closes the [`Menu`].
    pub fn close(&mut self)
        ensures
            final(self).status == Status::Closed,
    {
        self.status = Status::Closed;
    }
}

impl Default for State {
    /// The state of a menu that was never opened.
    fn default() -> (s: State)
        ensures
            s.status == Status::Closed,
    {
        State { status: Status::Closed }
    }
}

/// A list of selectable options, with its state and presentation
/// configuration. Selections are published to the [`Shell`] as the
/// chosen option's text; the owner maps them onto its own messages.
pub struct Menu {
    /// The menu's open/closing/closed state.
    pub state: State,
    /// The selectable options, in display order.
    pub options: Vec<String>,
    /// The option currently under the pointer, if any; shared between
    /// hover tracking and draw-time highlighting.
    pub hovered_option: Option<usize>,
    /// The configured width of the list.
    pub width: i64,
    /// The padding of every option row.
    pub padding: Padding,
    /// The text size of the options.
    pub text_size: i64,
}

impl Menu {
    /// The fixed height of one option row.
    pub open spec fn spec_row_height(&self) -> int {
        self.text_size + self.padding.spec_vertical()
    }

    /// The configuration bounds every menu operation relies on.
    pub open spec fn wf(&self) -> bool {
        &&& 0 <= self.width <= MAX_EXTENT
        &&& self.padding.wf()
        &&& 1 <= self.text_size <= MAX_EXTENT
        &&& self.spec_row_height() <= MAX_EXTENT
        &&& self.options@.len() <= MAX_EXTENT
        &&& self.options@.len() * self.spec_row_height() <= MAX_EXTENT
    }

    /// Creates a new [`Menu`] with the given [`State`], a list of
    /// options and the shared hovered-option slot.
    pub fn new(state: State, options: Vec<String>, hovered_option: Option<usize>) -> (m: Menu)
        ensures
            m.state == state,
            m.options == options,
            m.hovered_option == hovered_option,
            m.width == 0,
            m.padding == (Padding { top: 0i64, right: 0i64, bottom: 0i64, left: 0i64 }),
            m.text_size == DEFAULT_TEXT_SIZE,
    {
        Menu {
            state,
            options,
            hovered_option,
            width: 0,
            padding: Padding::zero(),
            text_size: DEFAULT_TEXT_SIZE,
        }
    }

    /// Sets the width of the [`Menu`].
    pub fn width(self, width: i64) -> (m: Menu)
        ensures
            m == (Menu { width, ..self }),
    {
        Menu { width, ..self }
    }

    /// Sets the [`Padding`] of the [`Menu`].
    pub fn padding(self, padding: Padding) -> (m: Menu)
        ensures
            m == (Menu { padding, ..self }),
    {
        Menu { padding, ..self }
    }

    /// Sets the text size of the [`Menu`].
    pub fn text_size(self, text_size: i64) -> (m: Menu)
        ensures
            m == (Menu { text_size, ..self }),
    {
        Menu { text_size, ..self }
    }

    /// Turns the [`Menu`] into an [`Overlay`] anchored at the given
    /// target position. `target_height` is the height of the triggering
    /// control, so placement can decide between the space below it and
    /// the space above it.
    pub fn overlay(self, position: Point, target_height: i64) -> (o: Overlay)
        requires
            self.wf(),
            position.wf(),
            0 <= target_height <= MAX_EXTENT,
        ensures
            o == Overlay::spec_new(self, position, target_height),
            o.wf(),
    {
        Overlay::new(self, position, target_height)
    }
}

/// The menu's overlay surface: the list placed at a screen position,
/// inside a scroll region whose offset it carries.
pub struct Overlay {
    /// The menu's open/closing/closed status.
    pub status: Status,
    /// The selectable options, in display order.
    pub options: Vec<String>,
    /// The option currently under the pointer, if any.
    pub hovered_option: Option<usize>,
    /// The configured width of the list.
    pub width: i64,
    /// The padding of every option row.
    pub padding: Padding,
    /// The text size of the options.
    pub text_size: i64,
    /// The target position the overlay is anchored at.
    pub position: Point,
    /// The height of the triggering control.
    pub target_height: i64,
    /// How far the scroll region is scrolled down into the list.
    pub scroll_offset: i64,
}

impl Overlay {
    /// The overlay [`Menu::overlay`] constructs.
    pub open spec fn spec_new(menu: Menu, position: Point, target_height: i64) -> Overlay {
        Overlay {
            status: menu.state.status,
            options: menu.options,
            hovered_option: menu.hovered_option,
            width: menu.width,
            padding: menu.padding,
            text_size: menu.text_size,
            position,
            target_height,
            scroll_offset: 0i64,
        }
    }

    /// Wraps a [`Menu`] as an overlay surface.
    pub fn new(menu: Menu, position: Point, target_height: i64) -> (o: Overlay)
        requires
            menu.wf(),
            position.wf(),
            0 <= target_height <= MAX_EXTENT,
        ensures
            o == Self::spec_new(menu, position, target_height),
            o.wf(),
    {
        let Menu { state, options, hovered_option, width, padding, text_size } = menu;
        Overlay {
            status: state.status,
            options,
            hovered_option,
            width,
            padding,
            text_size,
            position,
            target_height,
            scroll_offset: 0,
        }
    }

    /// The fixed height of one option row.
    pub open spec fn spec_row_height(&self) -> int {
        self.text_size + self.padding.spec_vertical()
    }

    /// The list's intrinsic height: one row per option.
    pub open spec fn spec_intrinsic_height(&self) -> int {
        self.options@.len() * self.spec_row_height()
    }

    /// The menu [`State`] the overlay currently implies; the owner
    /// reads it back after a pass.
    pub fn state(&self) -> (s: State)
        ensures
            s.status == self.status,
    {
        State { status: self.status }
    }

    /// Scrolls the list region to `offset`.
    pub fn scroll_to(&mut self, offset: i64)
        requires
            0 <= offset <= MAX_EXTENT,
        ensures
            *final(self) == (Overlay { scroll_offset: offset, ..*old(self) }),
    {
        self.scroll_offset = offset;
    }

    /// Computes one row's height.
    pub fn row_height(&self) -> (h: i64)
        requires
            self.wf(),
        ensures
            h == self.spec_row_height(),
    {
        self.text_size + self.padding.vertical()
    }

    /// The option row under `cursor` once the overlay occupies
    /// `layout`: rows start at the layout's top edge, shifted up by the
    /// scroll offset. May point past the last option; selection
    /// bounds-checks it.
    pub open spec fn spec_hovered_at(&self, layout: Rectangle, cursor: Point) -> usize {
        (((cursor.y - layout.y) + self.scroll_offset) / self.spec_row_height()) as usize
    }
}

impl Surface for Overlay {
    open spec fn wf(&self) -> bool {
        &&& 0 <= self.width <= MAX_EXTENT
        &&& self.padding.wf()
        &&& 1 <= self.text_size <= MAX_EXTENT
        &&& self.spec_row_height() <= MAX_EXTENT
        &&& self.options@.len() <= MAX_EXTENT
        &&& self.options@.len() * self.spec_row_height() <= MAX_EXTENT
        &&& self.position.wf()
        &&& 0 <= self.target_height <= MAX_EXTENT
        &&& 0 <= self.scroll_offset <= MAX_EXTENT
    }

    open spec fn spec_layout(&self, area: Size, anchor: Point) -> Rectangle {
        let px = self.position.x + anchor.x;
        let py = self.position.y + anchor.y;
        let space_below = area.height - (py + self.target_height);
        let space_above = py;
        let max_h = if space_below > space_above {
            space_below
        } else {
            space_above
        };
        let max_h = if max_h < 0 {
            0
        } else {
            max_h
        };
        let avail_w = area.width - px;
        let avail_w = if avail_w < 0 {
            0
        } else {
            avail_w
        };
        let w = if self.width <= avail_w {
            self.width as int
        } else {
            avail_w
        };
        let ih = self.spec_intrinsic_height();
        let h = if ih <= max_h {
            ih
        } else {
            max_h
        };
        let y = if space_below > space_above {
            py + self.target_height
        } else {
            py - h
        };
        Rectangle { x: px as i64, y: y as i64, width: w as i64, height: h as i64 }
    }

    open spec fn spec_is_over(&self, layout: Rectangle, cursor: Point) -> bool {
        layout.spec_contains(cursor)
    }

    open spec fn spec_on_event(&self, event: Event, layout: Rectangle, cursor: Point) -> (
        Overlay,
        EventStatus,
        Seq<String>,
    ) {
        match event {
            Event::CursorMoved => {
                if layout.spec_contains(cursor) {
                    (
                        Overlay {
                            hovered_option: Some(self.spec_hovered_at(layout, cursor)),
                            ..*self
                        },
                        EventStatus::Ignored,
                        Seq::empty(),
                    )
                } else {
                    (*self, EventStatus::Ignored, Seq::empty())
                }
            },
            Event::MousePressed => {
                if layout.spec_contains(cursor) {
                    if self.hovered_option is Some && self.hovered_option->0 < self.options@.len() {
                        (
                            Overlay { status: Status::Closed, ..*self },
                            EventStatus::Captured,
                            seq![self.options@[self.hovered_option->0 as int]],
                        )
                    } else {
                        (*self, EventStatus::Ignored, Seq::empty())
                    }
                } else {
                    (Overlay { status: Status::Closing, ..*self }, EventStatus::Ignored, Seq::empty())
                }
            },
            Event::TouchPressed => {
                if layout.spec_contains(cursor) {
                    let idx = self.spec_hovered_at(layout, cursor);
                    if idx < self.options@.len() {
                        (
                            Overlay {
                                status: Status::Closed,
                                hovered_option: Some(idx),
                                ..*self
                            },
                            EventStatus::Captured,
                            seq![self.options@[idx as int]],
                        )
                    } else {
                        (
                            Overlay { hovered_option: Some(idx), ..*self },
                            EventStatus::Ignored,
                            Seq::empty(),
                        )
                    }
                } else {
                    (Overlay { status: Status::Closing, ..*self }, EventStatus::Ignored, Seq::empty())
                }
            },
            Event::Other => (*self, EventStatus::Ignored, Seq::empty()),
        }
    }

    open spec fn spec_interaction(&self, layout: Rectangle, cursor: Point) -> Interaction {
        if layout.spec_contains(cursor) {
            Interaction::Pointer
        } else {
            Interaction::Idle
        }
    }

    open spec fn spec_draw(&self, layout: Rectangle, cursor: Point) -> Seq<DrawCmd> {
        let start = spec_visible_start(
            self.scroll_offset as int,
            layout.height as int,
            self.spec_row_height(),
            self.options@.len() as int,
        );
        let end = spec_visible_end(
            self.scroll_offset as int,
            layout.height as int,
            self.spec_row_height(),
            self.options@.len() as int,
        );
        seq![DrawCmd::Background { bounds: layout }] + self.spec_rows(layout, start, end)
    }

    fn layout(&self, area: Size, anchor: Point) -> (r: Rectangle) {
        let px = self.position.x + anchor.x;
        let py = self.position.y + anchor.y;
        let space_below = area.height - (py + self.target_height);
        let space_above = py;
        let mut max_h = if space_below > space_above {
            space_below
        } else {
            space_above
        };
        if max_h < 0 {
            max_h = 0;
        }
        let mut avail_w = area.width - px;
        if avail_w < 0 {
            avail_w = 0;
        }
        let w = if self.width <= avail_w {
            self.width
        } else {
            avail_w
        };
        let ih = intrinsic_height(self.options.len(), self.row_height());
        let h = if ih <= max_h {
            ih
        } else {
            max_h
        };
        let y = if space_below > space_above {
            py + self.target_height
        } else {
            py - h
        };
        Rectangle { x: px, y, width: w, height: h }
    }

    fn is_over(&self, layout: Rectangle, cursor: Point) -> (r: bool) {
        layout.contains(cursor)
    }

    fn on_event(
        &mut self,
        event: Event,
        layout: Rectangle,
        cursor: Point,
        shell: &mut Shell,
    ) -> (status: EventStatus) {
        match event {
            Event::CursorMoved => {
                if layout.contains(cursor) {
                    let idx = row_at(
                        cursor.y,
                        layout.y - self.scroll_offset,
                        self.row_height(),
                    );
                    self.hovered_option = Some(idx);
                }
                EventStatus::Ignored
            },
            Event::MousePressed => {
                if layout.contains(cursor) {
                    let hovered = self.hovered_option;
                    if let Some(i) = hovered {
                        if i < self.options.len() {
                            let chosen = self.options[i].clone();
                            shell.publish(chosen);
                            self.status = Status::Closed;
                            return EventStatus::Captured;
                        }
                    }
                    EventStatus::Ignored
                } else {
                    self.status = Status::Closing;
                    EventStatus::Ignored
                }
            },
            Event::TouchPressed => {
                if layout.contains(cursor) {
                    let idx = row_at(
                        cursor.y,
                        layout.y - self.scroll_offset,
                        self.row_height(),
                    );
                    self.hovered_option = Some(idx);
                    if idx < self.options.len() {
                        let chosen = self.options[idx].clone();
                        shell.publish(chosen);
                        self.status = Status::Closed;
                        return EventStatus::Captured;
                    }
                    EventStatus::Ignored
                } else {
                    self.status = Status::Closing;
                    EventStatus::Ignored
                }
            },
            Event::Other => EventStatus::Ignored,
        }
    }

    fn mouse_interaction(&self, layout: Rectangle, cursor: Point) -> (i: Interaction) {
        if layout.contains(cursor) {
            Interaction::Pointer
        } else {
            Interaction::Idle
        }
    }

    fn draw(&self, layout: Rectangle, cursor: Point) -> (cmds: Vec<DrawCmd>) {
        let mut cmds: Vec<DrawCmd> = Vec::new();
        cmds.push(DrawCmd::Background { bounds: layout });
        let rh = self.row_height();
        let (start, end) = visible_range(
            self.scroll_offset,
            layout.height,
            rh,
            self.options.len(),
        );
        let mut row = start;
        proof {
            vstd::arithmetic::mul::lemma_mul_inequality(
                end as int,
                self.options@.len() as int,
                rh as int,
            );
            assert(cmds@ =~= seq![DrawCmd::Background { bounds: layout }] + self.spec_rows(
                layout,
                start as int,
                start as int,
            ));
        }
        while row < end
            invariant
                self.wf(),
                layout.wf(),
                rh == self.spec_row_height(),
                start <= row <= end,
                end <= self.options@.len(),
                (end as int) * (rh as int) <= MAX_EXTENT,
                cmds@ == seq![DrawCmd::Background { bounds: layout }] + self.spec_rows(
                    layout,
                    start as int,
                    row as int,
                ),
            decreases end - row,
        {
            proof {
                vstd::arithmetic::mul::lemma_mul_inequality(row as int, end as int, rh as int);
                vstd::arithmetic::mul::lemma_mul_nonnegative(row as int, rh as int);
            }
            let b = Rectangle {
                x: layout.x,
                y: layout.y - self.scroll_offset + (row as i64) * rh,
                width: layout.width,
                height: rh,
            };
            let selected = match self.hovered_option {
                Some(h) => h == row,
                None => false,
            };
            if selected {
                cmds.push(DrawCmd::RowHighlight { bounds: b, index: row });
            }
            cmds.push(DrawCmd::RowText { bounds: b, index: row, selected });
            proof {
                self.lemma_rows_snoc(layout, start as int, row as int);
                assert(cmds@ =~= seq![DrawCmd::Background { bounds: layout }] + self.spec_rows(
                    layout,
                    start as int,
                    row as int + 1,
                ));
            }
            row += 1;
        }
        proof {
            assert(end as int == spec_visible_end(
                self.scroll_offset as int,
                layout.height as int,
                self.spec_row_height(),
                self.options@.len() as int,
            ));
        }
        cmds
    }
}

impl Overlay {
    /// The rectangle of option row `row` once the overlay occupies
    /// `layout`.
    pub open spec fn spec_row_bounds(&self, layout: Rectangle, row: int) -> Rectangle {
        Rectangle {
            x: layout.x,
            y: (layout.y - self.scroll_offset + row * self.spec_row_height()) as i64,
            width: layout.width,
            height: self.spec_row_height() as i64,
        }
    }

    /// The commands drawing option row `row`: its highlight when it is
    /// the hovered option, then its text.
    pub open spec fn spec_row_cmds(&self, layout: Rectangle, row: int) -> Seq<DrawCmd> {
        let b = self.spec_row_bounds(layout, row);
        let selected = self.hovered_option is Some && self.hovered_option->0 == row;
        if selected {
            seq![
                DrawCmd::RowHighlight { bounds: b, index: row as usize },
                DrawCmd::RowText { bounds: b, index: row as usize, selected: true },
            ]
        } else {
            seq![DrawCmd::RowText { bounds: b, index: row as usize, selected: false }]
        }
    }

    /// The commands drawing the rows `[from, to)`, in row order.
    pub open spec fn spec_rows(&self, layout: Rectangle, from: int, to: int) -> Seq<DrawCmd>
        decreases to - from,
    {
        if from >= to {
            Seq::empty()
        } else {
            self.spec_row_cmds(layout, from) + self.spec_rows(layout, from + 1, to)
        }
    }

    /// Placement: when the space below the target exceeds the space
    /// above it, the list's top edge sits flush under the target;
    /// otherwise — ties included — its bottom edge sits flush with the
    /// target's top.
    pub proof fn lemma_placement(o: Overlay, area: Size, anchor: Point)
        requires
            o.wf(),
            area.wf(),
            anchor.wf(),
        ensures
            ({
                let r = o.spec_layout(area, anchor);
                let py = o.position.y + anchor.y;
                let space_below = area.height - (py + o.target_height);
                let space_above = py;
                &&& space_below > space_above ==> r.y == py + o.target_height
                &&& space_below <= space_above ==> r.y + r.height == py
            }),
    {
    }

    /// Hover tracking: a pointer move inside the list's bounds sets the
    /// hovered option to the row under the cursor, publishes nothing,
    /// and leaves the event unconsumed; a move outside changes nothing.
    pub proof fn lemma_move_sets_hover(o: Overlay, layout: Rectangle, cursor: Point)
        ensures
            ({
                let (o2, st, msgs) = o.spec_on_event(Event::CursorMoved, layout, cursor);
                &&& st == EventStatus::Ignored
                &&& msgs == Seq::<String>::empty()
                &&& layout.spec_contains(cursor) ==> o2 == (Overlay {
                    hovered_option: Some(o.spec_hovered_at(layout, cursor)),
                    ..o
                })
                &&& !layout.spec_contains(cursor) ==> o2 == o
            }),
    {
    }

    /// Selection: a press inside the list's bounds while a valid option
    /// `i` is hovered publishes exactly one message, the text of option
    /// `i`, closes the menu, and captures the event — whatever state
    /// the menu was in.
    pub proof fn lemma_press_selects(o: Overlay, layout: Rectangle, cursor: Point, i: usize)
        requires
            o.hovered_option == Some(i),
            i < o.options@.len(),
            layout.spec_contains(cursor),
        ensures
            ({
                let (o2, st, msgs) = o.spec_on_event(Event::MousePressed, layout, cursor);
                &&& st == EventStatus::Captured
                &&& msgs == seq![o.options@[i as int]]
                &&& o2 == (Overlay { status: Status::Closed, ..o })
            }),
    {
    }

    /// Dismissal: a press outside the list's bounds publishes nothing,
    /// leaves the event unconsumed, and moves the menu to `Closing`;
    /// everything else stays as it was.
    pub proof fn lemma_press_outside_closes(o: Overlay, layout: Rectangle, cursor: Point)
        requires
            !layout.spec_contains(cursor),
        ensures
            ({
                let (o2, st, msgs) = o.spec_on_event(Event::MousePressed, layout, cursor);
                &&& st == EventStatus::Ignored
                &&& msgs == Seq::<String>::empty()
                &&& o2 == (Overlay { status: Status::Closing, ..o })
            }),
    {
    }

    /// Round trip: in the chain made of the freshly built menu overlay
    /// alone, a hit test at any point answers exactly whether the point
    /// lies inside the overlay's laid-out bounds.
    pub proof fn lemma_overlay_round_trip(o: Overlay, area: Size, anchor: Point, cursor: Point)
        requires
            o.wf(),
            area.wf(),
            anchor.wf(),
        ensures
            ({
                let r = o.spec_layout(area, anchor);
                crate::nested::Nested::<Overlay>::spec_any_over(seq![o], seq![r], cursor)
                    == r.spec_contains(cursor)
            }),
    {
        let r = o.spec_layout(area, anchor);
        if r.spec_contains(cursor) {
            assert(seq![o][0].spec_is_over(seq![r][0], cursor));
        }
    }

    /// Appending one more row to a row range appends its commands.
    pub proof fn lemma_rows_snoc(&self, layout: Rectangle, from: int, to: int)
        requires
            from <= to,
        ensures
            self.spec_rows(layout, from, to + 1) == self.spec_rows(layout, from, to)
                + self.spec_row_cmds(layout, to),
        decreases to - from,
    {
        if from == to {
            assert(self.spec_rows(layout, from, to + 1) =~= self.spec_rows(layout, from, to)
                + self.spec_row_cmds(layout, to));
        } else {
            self.lemma_rows_snoc(layout, from + 1, to);
            assert(self.spec_rows(layout, from, to + 1) == self.spec_row_cmds(layout, from)
                + self.spec_rows(layout, from + 1, to + 1));
            assert(self.spec_rows(layout, from, to) == self.spec_row_cmds(layout, from)
                + self.spec_rows(layout, from + 1, to));
            assert(self.spec_row_cmds(layout, from) + (self.spec_rows(layout, from + 1, to)
                + self.spec_row_cmds(layout, to)) =~= (self.spec_row_cmds(layout, from)
                + self.spec_rows(layout, from + 1, to)) + self.spec_row_cmds(layout, to));
        }
    }
}

} // verus!
