use panther::gesture::{
    Delta, GestureTracker, Position, TouchAction, TouchPhase, TouchState, TAP_DISTANCE,
};

fn at(x: i32, y: i32) -> Position {
    Position { x, y }
}

#[test]
fn tap_ends_in_press() {
    let mut tracker = GestureTracker::new();
    let down = at(100, 200);
    assert_eq!(tracker.on_touch(7, down, TouchPhase::Started, true), TouchAction::Idle);
    assert_eq!(tracker.state(7), Some(TouchState::MovingStart(down, 0, true)));
    let up = at(101, 200);
    assert_eq!(tracker.on_touch(7, up, TouchPhase::Ended, false), TouchAction::Press(up));
    assert_eq!(tracker.state(7), None);
    assert_eq!(tracker.active(), 0);
}

#[test]
fn small_moves_keep_the_tap_and_scroll_live() {
    let mut tracker = GestureTracker::new();
    tracker.on_touch(1, at(0, 0), TouchPhase::Started, true);
    assert_eq!(
        tracker.on_touch(1, at(10, -5), TouchPhase::Moved, false),
        TouchAction::Scroll(Delta { dx: 10, dy: -5 })
    );
    assert_eq!(tracker.state(1), Some(TouchState::MovingStart(at(10, -5), 15, true)));
    assert_eq!(
        tracker.on_touch(1, at(10, 30), TouchPhase::Moved, false),
        TouchAction::Scroll(Delta { dx: 0, dy: 35 })
    );
    assert_eq!(tracker.state(1), Some(TouchState::MovingStart(at(10, 30), 50, true)));
    assert_eq!(
        tracker.on_touch(1, at(10, 30), TouchPhase::Ended, false),
        TouchAction::Press(at(10, 30))
    );
}

#[test]
fn travelled_distance_is_summed_not_net() {
    let mut tracker = GestureTracker::new();
    tracker.on_touch(1, at(0, 0), TouchPhase::Started, false);
    tracker.on_touch(1, at(30, 0), TouchPhase::Moved, false);
    tracker.on_touch(1, at(0, 0), TouchPhase::Moved, false);
    assert_eq!(tracker.state(1), Some(TouchState::Moving(at(0, 0), false)));
    assert_eq!(tracker.on_touch(1, at(0, 0), TouchPhase::Ended, false), TouchAction::Idle);
}

#[test]
fn threshold_is_exceeded_only_above_fifty() {
    assert_eq!(TAP_DISTANCE, 50);
    let mut tracker = GestureTracker::new();
    tracker.on_touch(1, at(0, 0), TouchPhase::Started, false);
    tracker.on_touch(1, at(25, 25), TouchPhase::Moved, false);
    assert_eq!(tracker.state(1), Some(TouchState::MovingStart(at(25, 25), 50, false)));
    tracker.on_touch(1, at(25, 26), TouchPhase::Moved, false);
    assert_eq!(tracker.state(1), Some(TouchState::Moving(at(25, 26), false)));
}

#[test]
fn drag_never_presses() {
    let mut tracker = GestureTracker::new();
    let mut actions = vec![tracker.on_touch(3, at(0, 0), TouchPhase::Started, true)];
    for step in 1..=10 {
        actions.push(tracker.on_touch(3, at(step * 10, 0), TouchPhase::Moved, true));
    }
    actions.push(tracker.on_touch(3, at(100, 0), TouchPhase::Ended, true));
    assert!(actions.iter().all(|a| !matches!(a, TouchAction::Press(_))));
    let scrolls = actions.iter().filter(|a| matches!(a, TouchAction::Scroll(_))).count();
    assert_eq!(scrolls, 10);
    assert_eq!(tracker.active(), 0);
}

#[test]
fn declined_scrolling_forwards_nothing() {
    let mut tracker = GestureTracker::new();
    let mut actions = vec![tracker.on_touch(3, at(0, 0), TouchPhase::Started, false)];
    for step in 1..=4 {
        actions.push(tracker.on_touch(3, at(step * 10, step), TouchPhase::Moved, true));
    }
    actions.push(tracker.on_touch(3, at(40, 4), TouchPhase::Ended, true));
    let presses = actions.iter().filter(|a| matches!(a, TouchAction::Press(_))).count();
    let scrolls = actions.iter().filter(|a| matches!(a, TouchAction::Scroll(_))).count();
    assert_eq!(presses, 1);
    assert_eq!(scrolls, 0);
    assert_eq!(actions.last(), Some(&TouchAction::Press(at(40, 4))));
}

#[test]
fn drag_keeps_scrolling_after_the_threshold() {
    let mut tracker = GestureTracker::new();
    tracker.on_touch(9, at(0, 0), TouchPhase::Started, true);
    assert_eq!(
        tracker.on_touch(9, at(0, 60), TouchPhase::Moved, false),
        TouchAction::Scroll(Delta { dx: 0, dy: 60 })
    );
    assert_eq!(tracker.state(9), Some(TouchState::Moving(at(0, 60), true)));
    assert_eq!(
        tracker.on_touch(9, at(-5, 58), TouchPhase::Moved, false),
        TouchAction::Scroll(Delta { dx: -5, dy: -2 })
    );
    assert_eq!(tracker.state(9), Some(TouchState::Moving(at(-5, 58), true)));
}

#[test]
fn move_without_touch_down_is_ignored() {
    let mut tracker = GestureTracker::new();
    assert_eq!(tracker.on_touch(5, at(1, 1), TouchPhase::Moved, true), TouchAction::Idle);
    assert_eq!(tracker.state(5), None);
    assert_eq!(tracker.on_touch(5, at(1, 1), TouchPhase::Ended, true), TouchAction::Idle);
    assert_eq!(tracker.on_touch(5, at(1, 1), TouchPhase::Cancelled, true), TouchAction::Idle);
    assert_eq!(tracker.active(), 0);
}

#[test]
fn cancelled_touch_is_forgotten_without_press() {
    let mut tracker = GestureTracker::new();
    tracker.on_touch(2, at(4, 4), TouchPhase::Started, true);
    assert_eq!(tracker.on_touch(2, at(4, 4), TouchPhase::Cancelled, true), TouchAction::Idle);
    assert_eq!(tracker.state(2), None);
    assert_eq!(tracker.on_touch(2, at(4, 4), TouchPhase::Ended, true), TouchAction::Idle);
}

#[test]
fn touches_are_tracked_apart() {
    let mut tracker = GestureTracker::new();
    tracker.on_touch(1, at(0, 0), TouchPhase::Started, true);
    tracker.on_touch(2, at(500, 500), TouchPhase::Started, false);
    assert_eq!(tracker.active(), 2);
    tracker.on_touch(1, at(0, 80), TouchPhase::Moved, false);
    assert_eq!(tracker.state(1), Some(TouchState::Moving(at(0, 80), true)));
    assert_eq!(tracker.state(2), Some(TouchState::MovingStart(at(500, 500), 0, false)));
    assert_eq!(tracker.on_touch(1, at(0, 80), TouchPhase::Ended, false), TouchAction::Idle);
    assert_eq!(
        tracker.on_touch(2, at(500, 500), TouchPhase::Ended, false),
        TouchAction::Press(at(500, 500))
    );
    assert_eq!(tracker.active(), 0);
}

#[test]
fn second_touch_down_starts_over() {
    let mut tracker = GestureTracker::new();
    tracker.on_touch(1, at(0, 0), TouchPhase::Started, true);
    tracker.on_touch(1, at(0, 90), TouchPhase::Moved, true);
    tracker.on_touch(1, at(7, 7), TouchPhase::Started, false);
    assert_eq!(tracker.state(1), Some(TouchState::MovingStart(at(7, 7), 0, false)));
}

#[test]
fn extreme_positions_do_not_overflow() {
    let mut tracker = GestureTracker::new();
    tracker.on_touch(1, at(i32::MIN, i32::MIN), TouchPhase::Started, true);
    assert_eq!(
        tracker.on_touch(1, at(i32::MAX, i32::MAX), TouchPhase::Moved, true),
        TouchAction::Scroll(Delta { dx: 4_294_967_295, dy: 4_294_967_295 })
    );
    assert_eq!(tracker.state(1), Some(TouchState::Moving(at(i32::MAX, i32::MAX), true)));
}
