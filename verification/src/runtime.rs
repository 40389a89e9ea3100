//! The application core: routes touches, the back button and frame
//! requests to the stack of screens, and carries out what the addressed
//! screen asks for once that screen has returned.
//!
//! Input that arrives while there is no screen is dropped.

use crate::gesture::{touch_step, GestureTracker, Position, TouchAction, TouchPhase, TouchState};
use crate::screens::{
    applied_exits, applied_screens, pass_leaves, scroll_started, was_pressed, was_scrolled,
    was_updated, went_back, AppState, ScreenManagementCmd, ScreenTrait,
};
use vstd::prelude::*;

verus! {

/// The back button, on the stack `before`, made `top` of the topmost screen,
/// which asked for `cmd`; carrying that out left the stack `after`.
pub open spec fn back_leaves<S: ScreenTrait>(
    before: Seq<S>,
    top: S,
    cmd: ScreenManagementCmd<S>,
    after: Seq<S>,
) -> bool {
    &&& before.len() > 0
    &&& went_back(before.last(), top, cmd)
    &&& after == applied_screens(before.update(before.len() - 1, top), cmd)
}

/// A frame on the stack `before`: preparing it made `top` of the topmost
/// screen, which asked for `cmd`; that was carried out, and then every
/// screen was drawn, which made `drawn` of them, with the reports
/// `reports`; this left the stack `after`.
pub open spec fn frame_leaves<S: ScreenTrait>(
    before: Seq<S>,
    top: S,
    cmd: ScreenManagementCmd<S>,
    drawn: Seq<S>,
    reports: Seq<bool>,
    after: Seq<S>,
) -> bool {
    &&& before.len() > 0
    &&& was_updated(before.last(), top, cmd)
    &&& pass_leaves(
        applied_screens(before.update(before.len() - 1, top), cmd),
        drawn,
        reports,
        after,
    )
}

/// What the topmost screen is told of a touch, and what comes of it.  At
/// touch-down the screen `asked` is asked whether movement scrolls, says
/// `forward` and becomes `top`; otherwise it is told of the scroll or the
/// press that the recognizer asks for, becomes `top` and, after a press,
/// asks for `cmd`.  Where the recognizer asks for nothing, the screen is
/// left alone.
pub open spec fn top_told<S: ScreenTrait>(
    asked: S,
    location: Position,
    phase: TouchPhase,
    forward: bool,
    action: TouchAction,
    top: S,
    cmd: ScreenManagementCmd<S>,
) -> bool {
    if phase == TouchPhase::Started {
        scroll_started(asked, location, top, forward) && cmd is Stay
    } else {
        match action {
            TouchAction::Idle => top == asked && cmd is Stay,
            TouchAction::Scroll(delta) => was_scrolled(asked, delta, top) && cmd is Stay,
            TouchAction::Press(position) => was_pressed(asked, position, top, cmd),
        }
    }
}

/// A touch on the stack `before` with the contacts `touches`: the
/// recognizer took the event, with the answer `forward` of the topmost
/// screen at touch-down; the topmost screen was told what the recognizer
/// asked for and became `top`; what it asked for, `cmd`, was carried out.
/// This left the stack `after` and the contacts `after_touches`.
pub open spec fn touch_leaves<S: ScreenTrait>(
    before: Seq<S>,
    touches: Map<u64, TouchState>,
    id: u64,
    location: Position,
    phase: TouchPhase,
    forward: bool,
    top: S,
    cmd: ScreenManagementCmd<S>,
    after: Seq<S>,
    after_touches: Map<u64, TouchState>,
) -> bool {
    &&& before.len() > 0
    &&& after_touches == touch_step(touches, id, location, phase, forward).0
    &&& top_told(
        before.last(),
        location,
        phase,
        forward,
        touch_step(touches, id, location, phase, forward).1,
        top,
        cmd,
    )
    &&& after == applied_screens(before.update(before.len() - 1, top), cmd)
}

/// The stack of screens together with the touches that are under way.
pub struct App<S> {
    app_state: AppState<S>,
    touch_state: GestureTracker,
}

impl<S: ScreenTrait> App<S> {
    /// The screens, lowest first.
    pub closed spec fn screens(&self) -> Seq<S> {
        self.app_state.screens()
    }

    /// Whether exit has been asked for.
    pub closed spec fn exit_requested(&self) -> bool {
        self.app_state.exit_requested()
    }

    /// The active contacts.
    pub closed spec fn touches(&self) -> Map<u64, TouchState> {
        self.touch_state@
    }

    /// What [`App::handle_touch`] and [`App::handle_back_button`] leave of
    /// the stack, whatever the topmost screen did: the screens below the
    /// topmost one are as they were, and at most one screen has come or gone.
    pub open spec fn routed(&self, before: &Self) -> bool {
        &&& before.screens().len() - 1 <= self.screens().len() <= before.screens().len() + 1
        &&& forall|i: int|
            0 <= i < before.screens().len() - 1 ==> self.screens()[i] == before.screens()[i]
        &&& self.exit_requested() == (before.exit_requested() || (before.screens().len() == 1
            && self.screens().len() == 0))
    }

    /// An application without screens and without touches.
    pub fn new() -> (app: Self)
        ensures
            app.screens().len() == 0,
            app.touches() == Map::<u64, TouchState>::empty(),
            !app.exit_requested(),
    {
        App { app_state: AppState::new(), touch_state: GestureTracker::new() }
    }

    /// Whether exit has been asked for.
    pub fn is_exit_requested(&self) -> (exit: bool)
        ensures
            exit == self.exit_requested(),
    {
        self.app_state.is_exit_requested()
    }

    /// How many screens there are.
    pub fn screen_count(&self) -> (n: usize)
        ensures
            n == self.screens().len(),
    {
        self.app_state.len()
    }

    /// The screen at index `i`, counted from the lowest.
    pub fn screen(&self, i: usize) -> (screen: Option<&S>)
        ensures
            screen == (if i < self.screens().len() {
                Some(&self.screens()[i as int])
            } else {
                None
            }),
    {
        self.app_state.screen(i)
    }

    /// What is remembered of contact `id`, if it is active.
    pub fn touch(&self, id: u64) -> (state: Option<TouchState>)
        ensures
            state == (if self.touches().contains_key(id) {
                Some(self.touches()[id])
            } else {
                None
            }),
    {
        self.touch_state.state(id)
    }

    /// Makes sure that there is a screen: where there is none, the screen
    /// that `first` makes becomes the lowest.  `first` is not called
    /// otherwise.
    pub fn ensure_renderer<F: FnOnce() -> S>(&mut self, first: F)
        requires
            first.requires(()),
        ensures
            final(self).exit_requested() == old(self).exit_requested(),
            final(self).touches() == old(self).touches(),
            old(self).screens().len() > 0 ==> final(self).screens() == old(self).screens(),
            old(self).screens().len() == 0 ==> final(self).screens().len() == 1 && first.ensures(
                (),
                final(self).screens()[0],
            ),
    {
        self.app_state.ensure_renderer(first);
    }

    /// Puts `screen` on top.
    pub fn push_screen(&mut self, screen: S)
        ensures
            final(self).screens() == old(self).screens().push(screen),
            final(self).exit_requested() == old(self).exit_requested(),
            final(self).touches() == old(self).touches(),
    {
        self.app_state.push_screen(screen);
    }

    /// The screen that receives input: the topmost one, if there is one.
    pub fn get_input_screen(&mut self) -> (top: Option<&mut S>)
        ensures
            final(self).exit_requested() == old(self).exit_requested(),
            final(self).touches() == old(self).touches(),
            match top {
                Some(screen) => {
                    &&& old(self).screens().len() > 0
                    &&& *screen == old(self).screens().last()
                    &&& final(self).screens() == old(self).screens().update(
                        old(self).screens().len() - 1,
                        *final(screen),
                    )
                },
                None => old(self).screens().len() == 0 && final(self).screens() == old(
                    self,
                ).screens(),
            },
    {
        self.app_state.get_input_screen()
    }

    /// Routes one raw pointer event.
    ///
    /// Without a screen the event is dropped.  Otherwise the topmost screen
    /// is asked at touch-down whether dragging scrolls, is told of every
    /// movement that scrolls, and is told of a press when a tap ends; what
    /// it asks for after a press is carried out.
    pub fn handle_touch(&mut self, id: u64, location: Position, phase: TouchPhase)
        ensures
            old(self).screens().len() == 0 ==> {
                &&& final(self).screens() == old(self).screens()
                &&& final(self).touches() == old(self).touches()
                &&& final(self).exit_requested() == old(self).exit_requested()
            },
            old(self).screens().len() > 0 ==> exists|
                forward: bool,
                top: S,
                cmd: ScreenManagementCmd<S>,
            |
                {
                    &&& #[trigger] touch_leaves(
                        old(self).screens(),
                        old(self).touches(),
                        id,
                        location,
                        phase,
                        forward,
                        top,
                        cmd,
                        final(self).screens(),
                        final(self).touches(),
                    )
                    &&& final(self).exit_requested() == (old(self).exit_requested()
                        || applied_exits(old(self).screens(), cmd))
                },
            old(self).screens().len() > 0 ==> {
                &&& final(self).touches() == touch_step(
                    old(self).touches(),
                    id,
                    location,
                    phase,
                    true,
                ).0 || final(self).touches() == touch_step(
                    old(self).touches(),
                    id,
                    location,
                    phase,
                    false,
                ).0
                &&& final(self).routed(old(self))
                &&& !(touch_step(old(self).touches(), id, location, phase, false).1 is Press) ==> {
                    &&& final(self).screens().len() == old(self).screens().len()
                    &&& final(self).exit_requested() == old(self).exit_requested()
                }
                &&& touch_step(old(self).touches(), id, location, phase, false).1 is Idle
                    && phase != TouchPhase::Started ==> final(self).screens() == old(
                    self,
                ).screens()
            },
    {
        if !self.app_state.renderer_ready() {
            return ;
        }
        let ghost before = self.screens();
        let ghost touches = self.touches();
        let forward = match phase {
            TouchPhase::Started => match self.app_state.get_input_screen() {
                Some(screen) => screen.start_scroll(location),
                None => false,
            },
            _ => false,
        };
        let ghost asked = self.screens();
        assert(asked == before.update(before.len() - 1, asked.last()));
        let action = self.touch_state.on_touch(id, location, phase, forward);
        match action {
            TouchAction::Idle => {
                proof {
                    assert(touch_leaves(
                        before,
                        touches,
                        id,
                        location,
                        phase,
                        forward,
                        asked.last(),
                        ScreenManagementCmd::Stay,
                        self.screens(),
                        self.touches(),
                    ));
                }
            },
            TouchAction::Scroll(delta) => {
                match self.app_state.get_input_screen() {
                    Some(screen) => {
                        screen.scroll(delta);
                    },
                    None => {},
                }
                proof {
                    let told = self.screens();
                    assert(told == before.update(before.len() - 1, told.last()));
                    assert(touch_leaves(
                        before,
                        touches,
                        id,
                        location,
                        phase,
                        forward,
                        told.last(),
                        ScreenManagementCmd::Stay,
                        self.screens(),
                        self.touches(),
                    ));
                }
            },
            TouchAction::Press(position) => {
                let cmd = match self.app_state.get_input_screen() {
                    Some(screen) => screen.press(position),
                    None => ScreenManagementCmd::Stay,
                };
                let ghost told = self.screens();
                let ghost wish = cmd;
                self.app_state.apply(cmd);
                proof {
                    assert(told == before.update(before.len() - 1, told.last()));
                    assert(touch_leaves(
                        before,
                        touches,
                        id,
                        location,
                        phase,
                        forward,
                        told.last(),
                        wish,
                        self.screens(),
                        self.touches(),
                    ));
                }
            },
        }
    }

    /// Routes a press of the back button to the topmost screen and carries
    /// out what it asks for: the screen it names is put on top, or the
    /// topmost screen is taken away, which asks for exit where it was the
    /// only one.  Without a screen the press is dropped.
    pub fn handle_back_button(&mut self)
        ensures
            final(self).touches() == old(self).touches(),
            final(self).routed(old(self)),
            old(self).screens().len() == 0 ==> final(self).screens() == old(self).screens(),
            old(self).screens().len() > 0 ==> exists|top: S, cmd: ScreenManagementCmd<S>|
                {
                    &&& #[trigger] back_leaves(old(self).screens(), top, cmd, final(self).screens())
                    &&& final(self).exit_requested() == (old(self).exit_requested()
                        || applied_exits(old(self).screens(), cmd))
                },
    {
        let ghost before = self.screens();
        let cmd = match self.app_state.get_input_screen() {
            Some(screen) => screen.back(),
            None => ScreenManagementCmd::Stay,
        };
        let ghost pressed = self.screens();
        let ghost asked = cmd;
        self.app_state.apply(cmd);
        proof {
            if before.len() > 0 {
                assert(pressed == before.update(before.len() - 1, pressed.last()));
                assert(back_leaves(before, pressed.last(), asked, self.screens()));
            }
        }
    }

    /// Prepares and draws one frame: the topmost screen is updated, what it
    /// asks for is carried out, and every screen is drawn.  Says whether
    /// there was a screen to begin with; without one nothing happens.
    pub fn handle_redraw_request(&mut self) -> (drawn: bool)
        ensures
            drawn == (old(self).screens().len() > 0),
            final(self).touches() == old(self).touches(),
            final(self).screens().len() <= old(self).screens().len() + 1,
            !drawn ==> final(self).screens() == old(self).screens(),
            !drawn ==> final(self).exit_requested() == old(self).exit_requested(),
            old(self).exit_requested() ==> final(self).exit_requested(),
            !old(self).exit_requested() && final(self).exit_requested() ==> final(self).screens().len()
                == 0,
            old(self).screens().len() > 0 ==> exists|
                top: S,
                cmd: ScreenManagementCmd<S>,
                drawn: Seq<S>,
                reports: Seq<bool>,
            |
                {
                    &&& #[trigger] frame_leaves(
                        old(self).screens(),
                        top,
                        cmd,
                        drawn,
                        reports,
                        final(self).screens(),
                    )
                    &&& final(self).exit_requested() == (old(self).exit_requested()
                        || applied_exits(old(self).screens(), cmd))
                },
    {
        if self.app_state.renderer_ready() {
            let ghost before = self.screens();
            let cmd = self.app_state.update();
            let ghost prepared = self.screens();
            let ghost asked = cmd;
            self.app_state.apply(cmd);
            let ghost applied = self.screens();
            self.app_state.draw();
            proof {
                assert forall|i: int| 0 <= i < before.len() - 1 implies prepared[i]
                    == before[i] by {
                    assert(prepared[i] == prepared.drop_last()[i]);
                    assert(before[i] == before.drop_last()[i]);
                }
                assert(prepared =~= before.update(before.len() - 1, prepared.last()));
                let (drawn, reports) = choose|drawn: Seq<S>, reports: Seq<bool>|
                    pass_leaves(applied, drawn, reports, self.screens());
                assert(frame_leaves(before, prepared.last(), asked, drawn, reports, self.screens()));
            }
            true
        } else {
            false
        }
    }

    /// The window is closing: asks the application to exit.
    pub fn handle_close_request(&mut self)
        ensures
            final(self).exit_requested(),
            final(self).screens() == old(self).screens(),
            final(self).touches() == old(self).touches(),
    {
        self.app_state.request_exit();
    }
}

} // verus!
