//! The dropdown menu: sizing, placement, hover, selection, dismissal,
//! and virtualized drawing.

use overlay_menu::draw::DrawCmd;
use overlay_menu::event::{Event, Interaction, Shell, Status as EventStatus};
use overlay_menu::geometry::{Padding, Point, Rectangle, Size};
use overlay_menu::list::{intrinsic_height, row_at, visible_range};
use overlay_menu::menu::{Menu, Overlay, State, Status, DEFAULT_TEXT_SIZE};
use overlay_menu::nested::Nested;
use overlay_menu::surface::Surface;

fn options(names: &[&str]) -> Vec<String> {
    names.iter().map(|n| n.to_string()).collect()
}

fn open_overlay(names: &[&str], position: Point, target_height: i64) -> Overlay {
    let mut state = State::new();
    state.open();
    Menu::new(state, options(names), None)
        .width(100)
        .overlay(position, target_height)
}

#[test]
fn intrinsic_height_is_count_times_row_height() {
    assert_eq!(intrinsic_height(5, 7), 35);
    assert_eq!(intrinsic_height(1, 16), 16);
}

#[test]
fn intrinsic_height_of_empty_list_is_zero() {
    assert_eq!(intrinsic_height(0, 16), 0);
}

#[test]
fn visible_range_covers_intersecting_rows() {
    // viewport [10, 35) over rows of height 10: rows 1..4 intersect
    assert_eq!(visible_range(10, 25, 10, 100), (1, 4));
    // rows aligned with the viewport edges: [20, 40) is rows 2..4
    assert_eq!(visible_range(20, 20, 10, 100), (2, 4));
}

#[test]
fn visible_range_clamps_to_count() {
    assert_eq!(visible_range(10, 25, 10, 2), (1, 2));
    // viewport entirely past the list: empty range
    assert_eq!(visible_range(50, 10, 10, 3), (3, 3));
}

#[test]
fn row_under_cursor() {
    assert_eq!(row_at(25, 0, 10), 2);
    assert_eq!(row_at(9, 0, 10), 0);
    assert_eq!(row_at(46, 30, 16), 1);
    // a row's first pixel belongs to it
    assert_eq!(row_at(32, 0, 16), 2);
}

#[test]
fn visible_range_starts_at_the_top_unscrolled() {
    assert_eq!(visible_range(0, 48, 16, 3), (0, 3));
    assert_eq!(visible_range(0, 47, 16, 3), (0, 3));
    assert_eq!(visible_range(0, 0, 16, 3), (0, 0));
}

#[test]
fn menu_builder_defaults() {
    let m = Menu::new(State::new(), options(&["a"]), None);
    assert_eq!(m.width, 0);
    assert_eq!(m.padding, Padding { top: 0, right: 0, bottom: 0, left: 0 });
    assert_eq!(m.text_size, DEFAULT_TEXT_SIZE);
    let m = m.width(120).text_size(20).padding(Padding { top: 2, right: 0, bottom: 2, left: 4 });
    assert_eq!(m.width, 120);
    assert_eq!(m.text_size, 20);
    assert_eq!(m.padding.left, 4);
}

#[test]
fn state_transitions() {
    let mut state = State::new();
    assert!(!state.is_open());
    assert!(!state.is_closing());
    state.open();
    assert!(state.is_open());
    state.close();
    assert!(!state.is_open());
    assert_eq!(State::default().status, Status::Closed);
    assert_eq!(Status::default(), Status::Closed);
}

#[test]
fn placement_below_when_more_space_below() {
    let overlay = open_overlay(&["a", "b", "c"], Point::new(10, 10), 20);
    let rect = overlay.layout(Size::new(400, 300), Point::new(0, 0));
    // space below (270) beats space above (10): flush under the target
    assert_eq!(rect, Rectangle { x: 10, y: 30, width: 100, height: 48 });
}

#[test]
fn placement_above_when_more_space_above() {
    let overlay = open_overlay(&["a", "b", "c"], Point::new(10, 250), 20);
    let rect = overlay.layout(Size::new(400, 300), Point::new(0, 0));
    // space below (30) loses to space above (250): bottom edge at the target's top
    assert_eq!(rect.y + rect.height, 250);
    assert_eq!(rect.height, 48);
}

#[test]
fn placement_tie_goes_above() {
    // space below == space above == 140: the tie places the list above
    let overlay = open_overlay(&["a", "b", "c"], Point::new(10, 140), 20);
    let rect = overlay.layout(Size::new(400, 300), Point::new(0, 0));
    assert_eq!(rect.y + rect.height, 140);
}

#[test]
fn list_height_capped_by_free_space() {
    let names: Vec<&str> = std::iter::repeat("x").take(100).collect();
    let overlay = open_overlay(&names, Point::new(10, 10), 20);
    let rect = overlay.layout(Size::new(400, 300), Point::new(0, 0));
    // 100 rows of 16 would be 1600; only 270 pixels are free below
    assert_eq!(rect.height, 270);
}

#[test]
fn width_capped_by_remaining_horizontal_space() {
    let overlay = open_overlay(&["a"], Point::new(350, 10), 20);
    let rect = overlay.layout(Size::new(400, 300), Point::new(0, 0));
    assert_eq!(rect.width, 50);
}

#[test]
fn move_then_press_selects_hovered_option() {
    let mut chain = Nested::new(open_overlay(&["alpha", "beta", "gamma"], Point::new(10, 10), 20));
    let rects = chain.layout(Size::new(400, 300), Point::new(0, 0));
    let mut shell = Shell::new();
    // rows are 16 tall from y = 30: (50, 50) hovers row 1
    let (status, over) = chain.on_event(Event::CursorMoved, &rects, Point::new(50, 50), &mut shell);
    assert_eq!(status, EventStatus::Ignored);
    assert!(over);
    assert_eq!(chain.levels[0].hovered_option, Some(1));
    assert!(shell.messages.is_empty());
    let (status, _) = chain.on_event(Event::MousePressed, &rects, Point::new(50, 50), &mut shell);
    assert_eq!(status, EventStatus::Captured);
    assert_eq!(shell.messages, vec!["beta".to_string()]);
    assert_eq!(chain.levels[0].status, Status::Closed);
}

#[test]
fn touch_selects_in_one_step() {
    let mut chain = Nested::new(open_overlay(&["alpha", "beta", "gamma"], Point::new(10, 10), 20));
    let rects = chain.layout(Size::new(400, 300), Point::new(0, 0));
    let mut shell = Shell::new();
    let (status, _) = chain.on_event(Event::TouchPressed, &rects, Point::new(50, 63), &mut shell);
    assert_eq!(status, EventStatus::Captured);
    assert_eq!(chain.levels[0].hovered_option, Some(2));
    assert_eq!(shell.messages, vec!["gamma".to_string()]);
    assert_eq!(chain.levels[0].status, Status::Closed);
}

#[test]
fn press_outside_moves_to_closing_without_selection() {
    let mut chain = Nested::new(open_overlay(&["alpha", "beta"], Point::new(10, 10), 20));
    let rects = chain.layout(Size::new(400, 300), Point::new(0, 0));
    let mut shell = Shell::new();
    let (status, over) = chain.on_event(
        Event::MousePressed,
        &rects,
        Point::new(200, 200),
        &mut shell,
    );
    assert_eq!(status, EventStatus::Ignored);
    assert!(!over);
    assert!(shell.messages.is_empty());
    assert_eq!(chain.levels[0].status, Status::Closing);
    assert!(chain.levels[0].state().is_closing());
}

#[test]
fn press_with_stale_out_of_range_hover_is_ignored() {
    let mut overlay = open_overlay(&["alpha", "beta"], Point::new(10, 10), 20);
    overlay.hovered_option = Some(9);
    let mut chain = Nested::new(overlay);
    let rects = chain.layout(Size::new(400, 300), Point::new(0, 0));
    let mut shell = Shell::new();
    let (status, _) = chain.on_event(Event::MousePressed, &rects, Point::new(50, 40), &mut shell);
    assert_eq!(status, EventStatus::Ignored);
    assert!(shell.messages.is_empty());
    assert_eq!(chain.levels[0].status, Status::Open);
}

#[test]
fn press_with_no_hover_is_ignored() {
    let mut chain = Nested::new(open_overlay(&["alpha", "beta"], Point::new(10, 10), 20));
    let rects = chain.layout(Size::new(400, 300), Point::new(0, 0));
    let mut shell = Shell::new();
    let (status, _) = chain.on_event(Event::MousePressed, &rects, Point::new(50, 40), &mut shell);
    assert_eq!(status, EventStatus::Ignored);
    assert!(shell.messages.is_empty());
    assert_eq!(chain.levels[0].status, Status::Open);
}

#[test]
fn empty_menu_treats_every_press_as_outside() {
    let mut chain = Nested::new(open_overlay(&[], Point::new(10, 10), 20));
    let rects = chain.layout(Size::new(400, 300), Point::new(0, 0));
    assert_eq!(rects[0].height, 0);
    let mut shell = Shell::new();
    let (status, over) = chain.on_event(Event::MousePressed, &rects, Point::new(10, 30), &mut shell);
    assert_eq!(status, EventStatus::Ignored);
    assert!(!over);
    assert!(shell.messages.is_empty());
    assert_eq!(chain.levels[0].status, Status::Closing);
}

#[test]
fn menu_is_over_round_trip() {
    let chain = Nested::new(open_overlay(&["a", "b", "c"], Point::new(10, 10), 20));
    let rects = chain.layout(Size::new(400, 300), Point::new(0, 0));
    // strictly inside the drawn bounds
    assert!(chain.is_over(&rects, Point::new(50, 50)));
    // strictly outside
    assert!(!chain.is_over(&rects, Point::new(200, 200)));
    assert!(!chain.is_over(&rects, Point::new(10, 29)));
}

#[test]
fn menu_mouse_interaction_is_pointer_inside() {
    let chain = Nested::new(open_overlay(&["a", "b"], Point::new(10, 10), 20));
    let rects = chain.layout(Size::new(400, 300), Point::new(0, 0));
    assert_eq!(chain.mouse_interaction(&rects, Point::new(50, 40)), Interaction::Pointer);
    assert_eq!(chain.mouse_interaction(&rects, Point::new(200, 200)), Interaction::Idle);
}

#[test]
fn draw_renders_only_visible_rows() {
    let names: Vec<&str> = (0..10).map(|_| "x").collect();
    let mut overlay = open_overlay(&names, Point::new(0, 0), 0);
    // free space above is 0, below is 300: the list sits at y = 0, capped
    overlay.scroll_to(25);
    let chain = Nested::new(overlay);
    let area = Size::new(400, 30);
    let rects = chain.layout(area, Point::new(0, 0));
    assert_eq!(rects[0].height, 30);
    let frame = chain.draw(&rects, Point::new(-100, -100));
    assert_eq!(frame.len(), 1);
    let cmds = &frame[0].cmds;
    // viewport [25, 55) over 16-tall rows: rows 1..4
    assert_eq!(cmds.len(), 4);
    assert_eq!(cmds[0], DrawCmd::Background { bounds: rects[0] });
    for (k, row) in (1..4).zip(1..) {
        match cmds[row] {
            DrawCmd::RowText { index, selected, bounds } => {
                assert_eq!(index, k);
                assert!(!selected);
                // rows stack from the list top, shifted up by the scroll
                assert_eq!(bounds.y, rects[0].y - 25 + (k as i64) * 16);
                assert_eq!(bounds.height, 16);
            }
            _ => panic!("expected row text"),
        }
    }
}

#[test]
fn draw_highlights_the_hovered_row() {
    let mut overlay = open_overlay(&["a", "b", "c"], Point::new(10, 10), 20);
    overlay.hovered_option = Some(1);
    let chain = Nested::new(overlay);
    let rects = chain.layout(Size::new(400, 300), Point::new(0, 0));
    let frame = chain.draw(&rects, Point::new(-100, -100));
    let cmds = &frame[0].cmds;
    // background, row 0 text, row 1 highlight + text, row 2 text
    assert_eq!(cmds.len(), 5);
    match (&cmds[2], &cmds[3]) {
        (
            DrawCmd::RowHighlight { index: hi, bounds: hb },
            DrawCmd::RowText { index: ti, selected, .. },
        ) => {
            assert_eq!(*hi, 1);
            assert_eq!(*ti, 1);
            assert!(*selected);
            assert_eq!(hb.y, rects[0].y + 16);
        }
        other => panic!("expected highlighted row, got {:?}", other),
    }
}

#[test]
fn overlay_keeps_menu_configuration() {
    let mut state = State::new();
    state.open();
    let overlay = Menu::new(state, options(&["a"]), Some(0))
        .width(80)
        .text_size(20)
        .padding(Padding { top: 2, right: 0, bottom: 2, left: 0 })
        .overlay(Point::new(5, 6), 12);
    assert_eq!(overlay.width, 80);
    assert_eq!(overlay.text_size, 20);
    assert_eq!(overlay.hovered_option, Some(0));
    assert_eq!(overlay.status, Status::Open);
    assert_eq!(overlay.position, Point::new(5, 6));
    assert_eq!(overlay.target_height, 12);
    assert_eq!(overlay.scroll_offset, 0);
    // row height = text size + vertical padding = 24
    let rect = overlay.layout(Size::new(400, 300), Point::new(0, 0));
    assert_eq!(rect.height, 24);
}
