use panther::gesture::{Delta, Position, TouchPhase, TouchState};
use panther::runtime::App;
use panther::screens::{AppState, ScreenManagementCmd, ScreenTrait};
use std::cell::RefCell;
use std::rc::Rc;

type Log = Rc<RefCell<Vec<String>>>;

/// A screen that writes down what it is told, and answers as it was set up.
struct Probe {
    name: &'static str,
    log: Log,
    expanded: bool,
    forward: bool,
    on_press: Option<&'static str>,
    on_back: Option<&'static str>,
    on_update: Option<&'static str>,
}

impl Probe {
    fn new(name: &'static str, log: &Log) -> Probe {
        Probe {
            name,
            log: log.clone(),
            expanded: false,
            forward: true,
            on_press: None,
            on_back: None,
            on_update: None,
        }
    }

    fn note(&self, what: String) {
        self.log.borrow_mut().push(format!("{}:{}", self.name, what));
    }

    fn cmd(&self, wish: Option<&'static str>) -> ScreenManagementCmd<Probe> {
        match wish {
            None => ScreenManagementCmd::Stay,
            Some("pop") => ScreenManagementCmd::PopScreen,
            Some(name) => ScreenManagementCmd::PushScreen(Probe::new(name, &self.log)),
        }
    }
}

impl ScreenTrait for Probe {
    fn start_scroll(&mut self, pos: Position) -> bool {
        self.note(format!("start_scroll({},{})", pos.x, pos.y));
        self.forward
    }

    fn scroll(&mut self, delta: Delta) {
        self.note(format!("scroll({},{})", delta.dx, delta.dy));
    }

    fn press(&mut self, pos: Position) -> ScreenManagementCmd<Probe> {
        self.note(format!("press({},{})", pos.x, pos.y));
        self.cmd(self.on_press)
    }

    fn back(&mut self) -> ScreenManagementCmd<Probe> {
        self.note("back".to_string());
        self.cmd(self.on_back)
    }

    fn update(&mut self) -> ScreenManagementCmd<Probe> {
        self.note("update".to_string());
        self.cmd(self.on_update)
    }

    fn draw(&mut self) {
        self.note("draw".to_string());
    }

    fn is_expanded(&self) -> bool {
        self.expanded
    }
}

/// A screen that relies on every default.
struct Plain {
    draws: u32,
}

impl ScreenTrait for Plain {
    fn draw(&mut self) {
        self.draws += 1;
    }
}

fn names(state: &AppState<Probe>) -> Vec<&'static str> {
    (0..state.len()).map(|i| state.screen(i).unwrap().name).collect()
}

fn app_names(app: &App<Probe>) -> Vec<&'static str> {
    (0..app.screen_count()).map(|i| app.screen(i).unwrap().name).collect()
}

fn log() -> Log {
    Rc::new(RefCell::new(Vec::new()))
}

fn taken(log: &Log) -> Vec<String> {
    log.borrow_mut().drain(..).collect()
}

fn at(x: i32, y: i32) -> Position {
    Position { x, y }
}

#[test]
fn new_stack_is_empty_and_not_ready() {
    let mut state: AppState<Probe> = AppState::new();
    assert_eq!(state.len(), 0);
    assert!(!state.renderer_ready());
    assert!(!state.is_exit_requested());
    assert!(state.get_input_screen().is_none());
    assert!(state.screen(0).is_none());
}

#[test]
fn push_makes_the_new_screen_the_input_target() {
    let log = log();
    let mut state = AppState::new();
    state.push_screen(Probe::new("a", &log));
    assert!(state.renderer_ready());
    assert_eq!(state.get_input_screen().map(|s| s.name), Some("a"));
    state.push_screen(Probe::new("b", &log));
    assert_eq!(names(&state), vec!["a", "b"]);
    assert_eq!(state.get_input_screen().map(|s| s.name), Some("b"));
}

#[test]
fn input_screen_can_be_changed_in_place() {
    let log = log();
    let mut state = AppState::new();
    state.push_screen(Probe::new("a", &log));
    state.push_screen(Probe::new("b", &log));
    state.get_input_screen().unwrap().expanded = true;
    assert!(state.screen(1).unwrap().expanded);
    assert!(!state.screen(0).unwrap().expanded);
}

#[test]
fn popping_the_last_screen_asks_for_exit_once() {
    let log = log();
    let mut state = AppState::new();
    state.push_screen(Probe::new("a", &log));
    state.push_screen(Probe::new("b", &log));
    assert!(!state.pop_screen());
    assert!(!state.is_exit_requested());
    assert_eq!(names(&state), vec!["a"]);
    assert!(state.pop_screen());
    assert!(state.is_exit_requested());
    assert_eq!(state.len(), 0);
    // nothing left: no new request, no panic
    assert!(!state.pop_screen());
    assert!(!state.pop_screen());
    assert!(state.is_exit_requested());
    assert_eq!(state.len(), 0);
}

#[test]
fn popping_a_stack_that_never_had_a_screen_asks_for_nothing() {
    let mut state: AppState<Probe> = AppState::new();
    assert!(!state.pop_screen());
    assert!(!state.is_exit_requested());
}

#[test]
fn apply_carries_out_each_command() {
    let log = log();
    let mut state = AppState::new();
    assert!(!state.apply(ScreenManagementCmd::PushScreen(Probe::new("a", &log))));
    assert!(!state.apply(ScreenManagementCmd::Stay));
    assert_eq!(names(&state), vec!["a"]);
    assert!(!state.apply(ScreenManagementCmd::PushScreen(Probe::new("b", &log))));
    assert!(!state.apply(ScreenManagementCmd::PopScreen));
    assert_eq!(names(&state), vec!["a"]);
    assert!(state.apply(ScreenManagementCmd::PopScreen));
    assert!(!state.apply(ScreenManagementCmd::PopScreen));
    assert!(state.is_exit_requested());
}

#[test]
fn draw_goes_from_the_bottom_up() {
    let log = log();
    let mut state = AppState::new();
    state.push_screen(Probe::new("a", &log));
    state.push_screen(Probe::new("b", &log));
    state.push_screen(Probe::new("c", &log));
    state.draw();
    assert_eq!(taken(&log), vec!["a:draw", "b:draw", "c:draw"]);
    assert_eq!(names(&state), vec!["a", "b", "c"]);
}

#[test]
fn expanded_top_screen_drops_the_one_below() {
    let log = log();
    let mut state = AppState::new();
    state.push_screen(Probe::new("a", &log));
    let mut b = Probe::new("b", &log);
    b.expanded = true;
    state.push_screen(b);
    state.draw();
    assert_eq!(taken(&log), vec!["a:draw", "b:draw"]);
    assert_eq!(names(&state), vec!["b"]);
    assert!(!state.is_exit_requested());
    // the next frame draws what is left, once
    state.draw();
    assert_eq!(taken(&log), vec!["b:draw"]);
    assert_eq!(names(&state), vec!["b"]);
}

#[test]
fn expanded_lowest_screen_drops_nothing() {
    let log = log();
    let mut state = AppState::new();
    let mut a = Probe::new("a", &log);
    a.expanded = true;
    state.push_screen(a);
    state.push_screen(Probe::new("b", &log));
    state.draw();
    assert_eq!(names(&state), vec!["a", "b"]);
}

#[test]
fn last_expanded_screen_becomes_the_lowest() {
    let log = log();
    let mut state = AppState::new();
    for (name, expanded) in [("a", false), ("b", true), ("c", false), ("d", true), ("e", false)] {
        let mut s = Probe::new(name, &log);
        s.expanded = expanded;
        state.push_screen(s);
    }
    state.draw();
    // every screen was drawn once, in order, also those that were dropped
    assert_eq!(taken(&log), vec!["a:draw", "b:draw", "c:draw", "d:draw", "e:draw"]);
    assert_eq!(names(&state), vec!["d", "e"]);
}

#[test]
fn settle_says_where_the_pass_goes_on() {
    let log = log();
    let mut state = AppState::new();
    for name in ["a", "b", "c", "d"] {
        state.push_screen(Probe::new(name, &log));
    }
    assert_eq!(state.settle(0, true), 1);
    assert_eq!(names(&state), vec!["a", "b", "c", "d"]);
    assert_eq!(state.settle(1, false), 2);
    assert_eq!(names(&state), vec!["a", "b", "c", "d"]);
    assert_eq!(state.settle(2, true), 1);
    assert_eq!(names(&state), vec!["c", "d"]);
    assert_eq!(state.settle(1, true), 1);
    assert_eq!(names(&state), vec!["d"]);
    assert_eq!(state.settle(0, false), 1);
    assert_eq!(names(&state), vec!["d"]);
}

#[test]
fn update_goes_to_the_top_screen_only() {
    let log = log();
    let mut state = AppState::new();
    state.push_screen(Probe::new("a", &log));
    let mut b = Probe::new("b", &log);
    b.on_update = Some("c");
    state.push_screen(b);
    let cmd = state.update();
    assert_eq!(taken(&log), vec!["b:update"]);
    assert!(matches!(cmd, ScreenManagementCmd::PushScreen(ref s) if s.name == "c"));
    // the stack changes only when the command is applied
    assert_eq!(names(&state), vec!["a", "b"]);
    state.apply(cmd);
    assert_eq!(names(&state), vec!["a", "b", "c"]);
}

#[test]
fn update_without_screens_asks_for_nothing() {
    let mut state: AppState<Probe> = AppState::new();
    assert!(matches!(state.update(), ScreenManagementCmd::Stay));
    state.draw();
    assert_eq!(state.len(), 0);
}

#[test]
fn defaults_accept_scrolling_and_ask_for_nothing() {
    let mut plain = Plain { draws: 0 };
    assert!(plain.start_scroll(at(1, 2)));
    plain.scroll(Delta { dx: 1, dy: 1 });
    assert!(matches!(plain.press(at(1, 2)), ScreenManagementCmd::Stay));
    assert!(matches!(plain.back(), ScreenManagementCmd::Stay));
    assert!(matches!(plain.update(), ScreenManagementCmd::Stay));
    assert!(!plain.is_expanded());
    plain.draw();
    assert_eq!(plain.draws, 1);
}

#[test]
fn stack_of_default_screens_never_shrinks_on_draw() {
    let mut state = AppState::new();
    state.push_screen(Plain { draws: 0 });
    state.push_screen(Plain { draws: 0 });
    state.draw();
    state.draw();
    assert_eq!(state.len(), 2);
    assert_eq!(state.screen(0).unwrap().draws, 2);
    assert_eq!(state.screen(1).unwrap().draws, 2);
}

#[test]
fn touch_without_screen_is_dropped() {
    let mut app: App<Probe> = App::new();
    app.handle_touch(1, at(5, 5), TouchPhase::Started);
    assert_eq!(app.touch(1), None);
    app.handle_touch(1, at(5, 5), TouchPhase::Ended);
    app.handle_back_button();
    assert!(!app.handle_redraw_request());
    assert_eq!(app.screen_count(), 0);
    assert!(!app.is_exit_requested());
}

#[test]
fn tap_presses_the_top_screen_once() {
    let log = log();
    let mut app = App::new();
    app.push_screen(Probe::new("a", &log));
    app.push_screen(Probe::new("b", &log));
    app.handle_touch(1, at(10, 10), TouchPhase::Started);
    assert_eq!(app.touch(1), Some(TouchState::MovingStart(at(10, 10), 0, true)));
    app.handle_touch(1, at(20, 10), TouchPhase::Moved);
    app.handle_touch(1, at(20, 30), TouchPhase::Moved);
    app.handle_touch(1, at(20, 31), TouchPhase::Ended);
    assert_eq!(
        taken(&log),
        vec!["b:start_scroll(10,10)", "b:scroll(10,0)", "b:scroll(0,20)", "b:press(20,31)"]
    );
    assert_eq!(app.touch(1), None);
    assert_eq!(app_names(&app), vec!["a", "b"]);
}

#[test]
fn tap_without_forwarding_scrolls_nothing() {
    let log = log();
    let mut app = App::new();
    let mut a = Probe::new("a", &log);
    a.forward = false;
    app.push_screen(a);
    app.handle_touch(4, at(0, 0), TouchPhase::Started);
    app.handle_touch(4, at(10, 10), TouchPhase::Moved);
    app.handle_touch(4, at(20, 20), TouchPhase::Moved);
    app.handle_touch(4, at(20, 20), TouchPhase::Ended);
    assert_eq!(taken(&log), vec!["a:start_scroll(0,0)", "a:press(20,20)"]);
}

#[test]
fn drag_scrolls_and_never_presses() {
    let log = log();
    let mut app = App::new();
    app.push_screen(Probe::new("a", &log));
    app.handle_touch(1, at(0, 0), TouchPhase::Started);
    app.handle_touch(1, at(0, 40), TouchPhase::Moved);
    app.handle_touch(1, at(0, 80), TouchPhase::Moved);
    app.handle_touch(1, at(0, 0), TouchPhase::Moved);
    app.handle_touch(1, at(0, 0), TouchPhase::Ended);
    assert_eq!(
        taken(&log),
        vec!["a:start_scroll(0,0)", "a:scroll(0,40)", "a:scroll(0,40)", "a:scroll(0,-80)"]
    );
}

#[test]
fn cancelled_touch_presses_nothing() {
    let log = log();
    let mut app = App::new();
    app.push_screen(Probe::new("a", &log));
    app.handle_touch(1, at(0, 0), TouchPhase::Started);
    app.handle_touch(1, at(0, 0), TouchPhase::Cancelled);
    app.handle_touch(1, at(0, 0), TouchPhase::Ended);
    assert_eq!(taken(&log), vec!["a:start_scroll(0,0)"]);
    assert_eq!(app.touch(1), None);
}

#[test]
fn press_command_is_carried_out_after_the_screen_returned() {
    let log = log();
    let mut app = App::new();
    let mut a = Probe::new("a", &log);
    a.on_press = Some("b");
    app.push_screen(a);
    app.handle_touch(1, at(1, 1), TouchPhase::Started);
    app.handle_touch(1, at(1, 1), TouchPhase::Ended);
    assert_eq!(app_names(&app), vec!["a", "b"]);
    // the new screen is the target now
    app.handle_touch(2, at(3, 3), TouchPhase::Started);
    app.handle_touch(2, at(3, 3), TouchPhase::Ended);
    assert_eq!(
        taken(&log),
        vec!["a:start_scroll(1,1)", "a:press(1,1)", "b:start_scroll(3,3)", "b:press(3,3)"]
    );
}

#[test]
fn press_that_pops_the_last_screen_asks_for_exit() {
    let log = log();
    let mut app = App::new();
    let mut a = Probe::new("a", &log);
    a.on_press = Some("pop");
    app.push_screen(a);
    app.handle_touch(1, at(1, 1), TouchPhase::Started);
    assert!(!app.is_exit_requested());
    app.handle_touch(1, at(1, 1), TouchPhase::Ended);
    assert_eq!(app.screen_count(), 0);
    assert!(app.is_exit_requested());
}

#[test]
fn back_button_goes_to_the_top_screen() {
    let log = log();
    let mut app = App::new();
    app.push_screen(Probe::new("a", &log));
    let mut b = Probe::new("b", &log);
    b.on_back = Some("pop");
    app.push_screen(b);
    app.handle_back_button();
    assert_eq!(taken(&log), vec!["b:back"]);
    assert_eq!(app_names(&app), vec!["a"]);
    assert!(!app.is_exit_requested());
    app.handle_back_button();
    assert_eq!(taken(&log), vec!["a:back"]);
    assert_eq!(app_names(&app), vec!["a"]);
}

#[test]
fn frame_updates_applies_and_draws() {
    let log = log();
    let mut app = App::new();
    let mut a = Probe::new("a", &log);
    a.on_update = Some("b");
    app.push_screen(a);
    assert!(app.handle_redraw_request());
    assert_eq!(taken(&log), vec!["a:update", "a:draw", "b:draw"]);
    assert_eq!(app_names(&app), vec!["a", "b"]);
    app.get_input_screen().unwrap().expanded = true;
    assert!(app.handle_redraw_request());
    assert_eq!(taken(&log), vec!["b:update", "a:draw", "b:draw"]);
    assert_eq!(app_names(&app), vec!["b"]);
}

#[test]
fn frame_that_pops_the_last_screen_asks_for_exit() {
    let log = log();
    let mut app = App::new();
    let mut a = Probe::new("a", &log);
    a.on_update = Some("pop");
    app.push_screen(a);
    assert!(app.handle_redraw_request());
    assert_eq!(taken(&log), vec!["a:update"]);
    assert!(app.is_exit_requested());
    assert!(!app.handle_redraw_request());
}

#[test]
fn close_request_asks_for_exit_and_keeps_the_screens() {
    let log = log();
    let mut app = App::new();
    app.push_screen(Probe::new("a", &log));
    app.handle_close_request();
    assert!(app.is_exit_requested());
    assert_eq!(app_names(&app), vec!["a"]);
}

#[test]
fn first_screen_is_made_only_for_an_empty_stack() {
    let log = log();
    let mut state = AppState::new();
    state.ensure_renderer(|| Probe::new("main", &log));
    assert_eq!(names(&state), vec!["main"]);
    let mut called = false;
    state.ensure_renderer(|| {
        called = true;
        Probe::new("other", &log)
    });
    assert!(!called);
    assert_eq!(names(&state), vec!["main"]);
    let mut app = App::new();
    app.ensure_renderer(|| Probe::new("main", &log));
    app.ensure_renderer(|| Probe::new("other", &log));
    assert_eq!(app_names(&app), vec!["main"]);
    assert!(!app.is_exit_requested());
}
