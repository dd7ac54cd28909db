//! The composer over a two-level chain: occlusion, bubbling, hit
//! tests, mouse feedback and tree operations.

use overlay_menu::draw::DrawCmd;
use overlay_menu::event::{Event, Interaction, Shell, Status as EventStatus};
use overlay_menu::geometry::{Point, Rectangle, Size};
use overlay_menu::nested::Nested;
use overlay_menu::operation::HitProbe;
use overlay_menu::pane::Pane;

fn two_level_chain(inner_captures: bool) -> Nested<Pane> {
    // outer pane: (0, 0) to (100, 100), captures presses
    let mut chain = Nested::new(Pane::new(100, 100));
    // inner pane: (10, 10) to (60, 60)
    let inner = Pane {
        dx: 10,
        dy: 10,
        width: 50,
        height: 50,
        captures_press: inner_captures,
        presses: 0,
    };
    chain.push(inner);
    chain
}

fn area() -> Size {
    Size::new(400, 300)
}

#[test]
fn chain_layout_translates_each_level() {
    let chain = two_level_chain(true);
    assert_eq!(chain.len(), 2);
    let rects = chain.layout(area(), Point::new(5, 7));
    assert_eq!(rects.len(), 2);
    assert_eq!(rects[0], Rectangle { x: 5, y: 7, width: 100, height: 100 });
    assert_eq!(rects[1], Rectangle { x: 15, y: 17, width: 50, height: 50 });
}

#[test]
fn occluded_outer_level_draws_without_hover() {
    let chain = two_level_chain(true);
    let rects = chain.layout(area(), Point::new(0, 0));
    // (20, 20) is over the inner level, so the outer level is drawn
    // with the sentinel cursor: no hover highlight on it
    let frame = chain.draw(&rects, Point::new(20, 20));
    assert_eq!(frame.len(), 2);
    assert_eq!(frame[0].clip, rects[0]);
    assert_eq!(frame[1].clip, rects[1]);
    assert_eq!(frame[0].cmds, vec![DrawCmd::Background { bounds: rects[0] }]);
    assert_eq!(
        frame[1].cmds,
        vec![
            DrawCmd::Background { bounds: rects[1] },
            DrawCmd::Hover { bounds: rects[1] },
        ]
    );
}

#[test]
fn unoccluded_outer_level_draws_hover() {
    let chain = two_level_chain(true);
    let rects = chain.layout(area(), Point::new(0, 0));
    // (80, 80) is over the outer level only
    let frame = chain.draw(&rects, Point::new(80, 80));
    assert_eq!(
        frame[0].cmds,
        vec![
            DrawCmd::Background { bounds: rects[0] },
            DrawCmd::Hover { bounds: rects[0] },
        ]
    );
    assert_eq!(frame[1].cmds, vec![DrawCmd::Background { bounds: rects[1] }]);
}

#[test]
fn inner_level_captures_first() {
    let mut chain = two_level_chain(true);
    let rects = chain.layout(area(), Point::new(0, 0));
    let mut shell = Shell::new();
    let (status, over) = chain.on_event(Event::MousePressed, &rects, Point::new(20, 20), &mut shell);
    assert_eq!(status, EventStatus::Captured);
    assert!(over);
    assert_eq!(chain.levels[1].presses, 1);
    // the outer level was never invoked
    assert_eq!(chain.levels[0].presses, 0);
}

#[test]
fn ignored_event_bubbles_to_outer_level() {
    let mut chain = two_level_chain(true);
    let rects = chain.layout(area(), Point::new(0, 0));
    let mut shell = Shell::new();
    // (80, 80) misses the inner level, which ignores; the outer captures
    let (status, over) = chain.on_event(Event::MousePressed, &rects, Point::new(80, 80), &mut shell);
    assert_eq!(status, EventStatus::Captured);
    assert!(over);
    assert_eq!(chain.levels[1].presses, 0);
    assert_eq!(chain.levels[0].presses, 1);
}

#[test]
fn occluded_outer_level_gets_sentinel_cursor() {
    // the inner level is over the cursor but refuses the press; the
    // outer level is then consulted with the sentinel cursor, so it
    // cannot capture a press that visually belongs to the inner level
    let mut chain = two_level_chain(false);
    let rects = chain.layout(area(), Point::new(0, 0));
    let mut shell = Shell::new();
    let (status, over) = chain.on_event(Event::MousePressed, &rects, Point::new(20, 20), &mut shell);
    assert_eq!(status, EventStatus::Ignored);
    assert!(over);
    assert_eq!(chain.levels[0].presses, 0);
    assert_eq!(chain.levels[1].presses, 0);
}

#[test]
fn chain_is_over_any_level() {
    let chain = two_level_chain(true);
    let rects = chain.layout(area(), Point::new(0, 0));
    assert!(chain.is_over(&rects, Point::new(20, 20)));
    assert!(chain.is_over(&rects, Point::new(99, 99)));
    assert!(!chain.is_over(&rects, Point::new(150, 20)));
}

#[test]
fn single_level_chain_handles_events_alone() {
    let mut chain = Nested::new(Pane::new(100, 100));
    let rects = chain.layout(area(), Point::new(0, 0));
    assert_eq!(rects.len(), 1);
    let mut shell = Shell::new();
    let (status, _) = chain.on_event(Event::MousePressed, &rects, Point::new(50, 50), &mut shell);
    assert_eq!(status, EventStatus::Captured);
    assert_eq!(chain.levels[0].presses, 1);
    let (status, over) = chain.on_event(Event::MousePressed, &rects, Point::new(150, 50), &mut shell);
    assert_eq!(status, EventStatus::Ignored);
    assert!(!over);
}

#[test]
fn moves_are_ignored_by_panes() {
    let mut chain = two_level_chain(true);
    let rects = chain.layout(area(), Point::new(0, 0));
    let mut shell = Shell::new();
    let (status, over) = chain.on_event(Event::CursorMoved, &rects, Point::new(20, 20), &mut shell);
    assert_eq!(status, EventStatus::Ignored);
    assert!(over);
    assert_eq!(chain.levels[0].presses, 0);
    assert_eq!(chain.levels[1].presses, 0);
}

#[test]
fn mouse_feedback_prefers_the_inner_level() {
    let chain = two_level_chain(true);
    let rects = chain.layout(area(), Point::new(0, 0));
    // over both: the inner level answers first
    assert_eq!(chain.mouse_interaction(&rects, Point::new(20, 20)), Interaction::Pointer);
    // over the outer level only: its feedback is consulted
    assert_eq!(chain.mouse_interaction(&rects, Point::new(80, 80)), Interaction::Pointer);
    // over neither
    assert_eq!(chain.mouse_interaction(&rects, Point::new(200, 200)), Interaction::Idle);
}

#[test]
fn operate_visits_every_level() {
    let chain = two_level_chain(true);
    let rects = chain.layout(area(), Point::new(0, 0));
    let mut probe = HitProbe::new(Point::new(20, 20));
    chain.operate(&rects, &mut probe);
    assert!(probe.hit);
    let mut probe = HitProbe::new(Point::new(200, 200));
    chain.operate(&rects, &mut probe);
    assert!(!probe.hit);
}

#[test]
fn occlusion_is_between_adjacent_levels() {
    // outer at (0,0)-(100,100); middle at (200,0)-(250,50), disjoint
    // from the outer; inner at (10,10)-(60,60) over the outer
    let mut chain = Nested::new(Pane::new(100, 100));
    chain.push(Pane { dx: 200, dy: 0, width: 50, height: 50, captures_press: true, presses: 0 });
    chain.push(Pane { dx: 10, dy: 10, width: 50, height: 50, captures_press: true, presses: 0 });
    let rects = chain.layout(area(), Point::new(0, 0));
    // (20, 20) is over the outer and the inner level, not the middle:
    // each level consults only the level nested directly above it, so
    // the outer level keeps the real cursor and shows its hover
    let frame = chain.draw(&rects, Point::new(20, 20));
    assert_eq!(frame[0].cmds.len(), 2);
    assert_eq!(frame[1].cmds.len(), 1);
    assert_eq!(frame[2].cmds.len(), 2);
    // dispatch still reaches the innermost level first
    let mut shell = Shell::new();
    let (status, _) = chain.on_event(Event::MousePressed, &rects, Point::new(20, 20), &mut shell);
    assert_eq!(status, EventStatus::Captured);
    assert_eq!(chain.levels[2].presses, 1);
    assert_eq!(chain.levels[1].presses, 0);
    assert_eq!(chain.levels[0].presses, 0);
}

#[test]
fn sentinel_cursor_is_outside_every_on_screen_rectangle() {
    let r = Rectangle { x: 0, y: 0, width: 4000, height: 4000 };
    assert!(!r.contains(overlay_menu::geometry::sentinel()));
}

#[test]
fn capture_stops_publication_below() {
    // messages published by a captured dispatch end with the capturing
    // level; a fully ignored dispatch consults every level
    let mut chain = two_level_chain(true);
    let rects = chain.layout(area(), Point::new(0, 0));
    let mut shell = Shell::new();
    let (_, _) = chain.on_event(Event::TouchPressed, &rects, Point::new(20, 20), &mut shell);
    assert!(shell.messages.is_empty());
    assert_eq!(chain.levels[1].presses, 1);
    assert_eq!(chain.levels[0].presses, 0);
}
