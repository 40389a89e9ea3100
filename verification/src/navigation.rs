//! What input means on each screen: which region of a screen a press has
//! hit, and what the application has to do about it.
//!
//! Screens lay themselves out in thousandths of the surface width, counted
//! from the left and from the bottom edge.  A press arrives in pixels from
//! the left and from the top edge; whether it lies inside a region is
//! decided without rounding, by comparing products.

use crate::compositor::SurfaceDims;
use crate::gesture::Position;
use crate::records::{push_new_record, record_of, Records, RecordsView};
use crate::screens::ScreenManagementCmd;
use crate::track::{GpsData, GpsView};
use vstd::prelude::*;

verus! {

/// The screens of the application.
#[derive(Clone, Copy, Debug, PartialEq, Eq, Structural)]
pub enum ScreenKind {
    Main,
    ActiveTraining,
    Paused,
    Records,
    Stats,
}

/// What the application has to do after a screen has handled input.
#[derive(Clone, Copy, Debug, PartialEq, Eq, Structural)]
pub enum Intent {
    /// Nothing.
    Stay,
    /// Put a new screen of this kind on top.
    Open(ScreenKind),
    /// Ask the platform for access to the GPS.
    RequestGps,
    /// Ask the application to exit.
    Exit,
    /// Pause the accumulator and put the pause screen on top.
    PauseTraining,
    /// Let the accumulator run again and take the pause screen away.
    ResumeTraining,
    /// Pause the accumulator, store the training as a record, stop the
    /// GPS, and put a new main screen on top.
    FinishTraining,
}

/// A rectangle of a screen, in thousandths of the surface width from the
/// left and from the bottom edge.  Its border is not part of it.
#[derive(Clone, Copy, Debug, PartialEq, Eq, Structural)]
pub struct Region {
    pub left: u16,
    pub right: u16,
    pub bottom: u16,
    pub top: u16,
}

/// The tab bar at the bottom of the main, records and stats screens ends here.
pub const TAB_BAR_TOP: u16 = 250;

/// The tab that leads home ends here, and the one that leads to the records begins.
pub const HOME_TAB_RIGHT: u16 = 330;

/// The tab that leads to the records ends here, and the one that leads to
/// the stats begins.
pub const RECORDS_TAB_RIGHT: u16 = 660;

/// A screen counts as expanded once it has been shown for longer than this,
/// in milliseconds.
pub const EXPAND_AFTER: u64 = 1_000;

/// The start animation is over once it has run for longer than this, in
/// milliseconds.
pub const START_ANIMATION: u64 = 8_000;

/// The start button of the main screen.
pub open spec fn start_button() -> Region {
    Region { left: 300, right: 700, bottom: 1050, top: 1300 }
}

/// The button of the training screen that pauses the training.
pub open spec fn pause_button() -> Region {
    Region { left: 150, right: 400, bottom: 1700, top: 1950 }
}

/// The button of the pause screen that goes on with the training.
pub open spec fn continue_button() -> Region {
    Region { left: 500, right: 900, bottom: 1100, top: 1280 }
}

/// The button of the pause screen that finishes the training.
pub open spec fn finish_button() -> Region {
    Region { left: 100, right: 500, bottom: 1100, top: 1280 }
}

/// How far `pos` is from the bottom edge of the surface, in pixels.
pub open spec fn from_bottom(pos: Position, surface: SurfaceDims) -> int {
    surface.height - pos.y
}

/// Whether `pixels` is less than `thousandths` of the surface width.
pub open spec fn less_than(pixels: int, thousandths: int, surface: SurfaceDims) -> bool {
    pixels * 1000 < thousandths * surface.width
}

/// Whether `pixels` is more than `thousandths` of the surface width.
pub open spec fn more_than(pixels: int, thousandths: int, surface: SurfaceDims) -> bool {
    pixels * 1000 > thousandths * surface.width
}

/// Whether `pos` lies inside `region`.
pub open spec fn inside(region: Region, pos: Position, surface: SurfaceDims) -> bool {
    &&& more_than(pos.x as int, region.left as int, surface)
    &&& less_than(pos.x as int, region.right as int, surface)
    &&& more_than(from_bottom(pos, surface), region.bottom as int, surface)
    &&& less_than(from_bottom(pos, surface), region.top as int, surface)
}

/// The tabs of the bar at the bottom.
#[derive(Clone, Copy, Debug, PartialEq, Eq, Structural)]
pub enum Tab {
    Home,
    Records,
    Stats,
}

/// The tab that `pos` lies on, if it lies in the tab bar.
pub open spec fn tab_at(pos: Position, surface: SurfaceDims) -> Option<Tab> {
    if !less_than(from_bottom(pos, surface), TAB_BAR_TOP as int, surface) {
        None
    } else if less_than(pos.x as int, HOME_TAB_RIGHT as int, surface) {
        Some(Tab::Home)
    } else if less_than(pos.x as int, RECORDS_TAB_RIGHT as int, surface) {
        Some(Tab::Records)
    } else {
        Some(Tab::Stats)
    }
}

/// The screen that a tab leads to.
pub open spec fn screen_of(tab: Tab) -> ScreenKind {
    match tab {
        Tab::Home => ScreenKind::Main,
        Tab::Records => ScreenKind::Records,
        Tab::Stats => ScreenKind::Stats,
    }
}

/// What a press on the tab bar of screen `on` means: the screen of the tab
/// is opened, unless it is the screen that shows the bar.
pub open spec fn tab_intent(on: ScreenKind, tab: Tab) -> Intent {
    if screen_of(tab) == on {
        Intent::Stay
    } else {
        Intent::Open(screen_of(tab))
    }
}

/// What a press at `pos` means on a screen that keeps no state of its own:
/// the training, pause, records and stats screens.  On the main screen it
/// means nothing here; see [`MainFlow::press`].
pub open spec fn press_intent(on: ScreenKind, pos: Position, surface: SurfaceDims) -> Intent {
    match on {
        ScreenKind::Main => Intent::Stay,
        ScreenKind::ActiveTraining => if inside(pause_button(), pos, surface) {
            Intent::PauseTraining
        } else {
            Intent::Stay
        },
        ScreenKind::Paused => if inside(continue_button(), pos, surface) {
            Intent::ResumeTraining
        } else if inside(finish_button(), pos, surface) {
            Intent::FinishTraining
        } else {
            Intent::Stay
        },
        ScreenKind::Records | ScreenKind::Stats => match tab_at(pos, surface) {
            Some(tab) => tab_intent(on, tab),
            None => Intent::Stay,
        },
    }
}

/// What the back button means on screen `on`.
pub open spec fn back_intent(on: ScreenKind) -> Intent {
    match on {
        ScreenKind::Main => Intent::Exit,
        ScreenKind::ActiveTraining => Intent::PauseTraining,
        ScreenKind::Paused => Intent::ResumeTraining,
        ScreenKind::Records | ScreenKind::Stats => Intent::Open(ScreenKind::Main),
    }
}

/// What `intent` asks of the stack of screens.
pub open spec fn stack_command(intent: Intent) -> ScreenManagementCmd<ScreenKind> {
    match intent {
        Intent::Open(kind) => ScreenManagementCmd::PushScreen(kind),
        Intent::PauseTraining => ScreenManagementCmd::PushScreen(ScreenKind::Paused),
        Intent::ResumeTraining => ScreenManagementCmd::PopScreen,
        Intent::FinishTraining => ScreenManagementCmd::PushScreen(ScreenKind::Main),
        Intent::Stay | Intent::RequestGps | Intent::Exit => ScreenManagementCmd::Stay,
    }
}

/// The accumulator after `intent` was carried out.
pub open spec fn gps_after(intent: Intent, gps: GpsView) -> GpsView {
    match intent {
        Intent::PauseTraining | Intent::FinishTraining => gps.pause(),
        Intent::ResumeTraining => gps.resume(),
        _ => gps,
    }
}

/// The record store after `intent` was carried out at `now`, in
/// milliseconds since the epoch: a finished training is stored, with the
/// totals that the accumulator has once it is paused.
pub open spec fn records_after(
    intent: Intent,
    gps: GpsView,
    records: RecordsView,
    now: u64,
) -> RecordsView {
    if intent is FinishTraining {
        records.with(record_of(gps.pause(), now))
    } else {
        records
    }
}

/// Whether a screen of kind `on` that has been shown since clock reading
/// `shown_at` has taken over the view at `now`.  The pause screen never
/// does: the training screen stays visible below it.
pub open spec fn expanded(on: ScreenKind, shown_at: u64, now: u64) -> bool {
    on != ScreenKind::Paused && now > shown_at && now - shown_at > EXPAND_AFTER
}

fn is_less(pixels: i64, thousandths: u16, surface: SurfaceDims) -> (less: bool)
    requires
        -0x1_0000_0000 <= pixels <= 0x2_0000_0000,
    ensures
        less == less_than(pixels as int, thousandths as int, surface),
{
    let share = thousandths as i64;
    let width = surface.width as i64;
    assert(0 <= share * width <= 0xffff * 0xffff_ffff) by (nonlinear_arith)
        requires
            0 <= share <= 0xffff,
            0 <= width <= 0xffff_ffff,
    ;
    pixels * 1000 < share * width
}

fn is_more(pixels: i64, thousandths: u16, surface: SurfaceDims) -> (more: bool)
    requires
        -0x1_0000_0000 <= pixels <= 0x2_0000_0000,
    ensures
        more == more_than(pixels as int, thousandths as int, surface),
{
    let share = thousandths as i64;
    let width = surface.width as i64;
    assert(0 <= share * width <= 0xffff * 0xffff_ffff) by (nonlinear_arith)
        requires
            0 <= share <= 0xffff,
            0 <= width <= 0xffff_ffff,
    ;
    pixels * 1000 > share * width
}

/// Whether `pos` lies inside `region`.
pub fn is_inside(region: Region, pos: Position, surface: SurfaceDims) -> (hit: bool)
    ensures
        hit == inside(region, pos, surface),
{
    let x = pos.x as i64;
    let y = surface.height as i64 - pos.y as i64;
    is_more(x, region.left, surface) && is_less(x, region.right, surface) && is_more(
        y,
        region.bottom,
        surface,
    ) && is_less(y, region.top, surface)
}

/// The tab that `pos` lies on, if it lies in the tab bar.
pub fn find_tab(pos: Position, surface: SurfaceDims) -> (tab: Option<Tab>)
    ensures
        tab == tab_at(pos, surface),
{
    let x = pos.x as i64;
    let y = surface.height as i64 - pos.y as i64;
    if !is_less(y, TAB_BAR_TOP, surface) {
        None
    } else if is_less(x, HOME_TAB_RIGHT, surface) {
        Some(Tab::Home)
    } else if is_less(x, RECORDS_TAB_RIGHT, surface) {
        Some(Tab::Records)
    } else {
        Some(Tab::Stats)
    }
}

fn of_tab(on: ScreenKind, tab: Tab) -> (intent: Intent)
    ensures
        intent == tab_intent(on, tab),
{
    let target = match tab {
        Tab::Home => ScreenKind::Main,
        Tab::Records => ScreenKind::Records,
        Tab::Stats => ScreenKind::Stats,
    };
    if target == on {
        Intent::Stay
    } else {
        Intent::Open(target)
    }
}

/// What a press at `pos` means on a screen that keeps no state of its own.
pub fn press(on: ScreenKind, pos: Position, surface: SurfaceDims) -> (intent: Intent)
    ensures
        intent == press_intent(on, pos, surface),
{
    match on {
        ScreenKind::Main => Intent::Stay,
        ScreenKind::ActiveTraining => {
            let button = Region { left: 150, right: 400, bottom: 1700, top: 1950 };
            if is_inside(button, pos, surface) {
                Intent::PauseTraining
            } else {
                Intent::Stay
            }
        },
        ScreenKind::Paused => {
            let go_on = Region { left: 500, right: 900, bottom: 1100, top: 1280 };
            let finish = Region { left: 100, right: 500, bottom: 1100, top: 1280 };
            if is_inside(go_on, pos, surface) {
                Intent::ResumeTraining
            } else if is_inside(finish, pos, surface) {
                Intent::FinishTraining
            } else {
                Intent::Stay
            }
        },
        ScreenKind::Records | ScreenKind::Stats => match find_tab(pos, surface) {
            Some(tab) => of_tab(on, tab),
            None => Intent::Stay,
        },
    }
}

/// What the back button means on screen `on`.
pub fn back(on: ScreenKind) -> (intent: Intent)
    ensures
        intent == back_intent(on),
{
    match on {
        ScreenKind::Main => Intent::Exit,
        ScreenKind::ActiveTraining => Intent::PauseTraining,
        ScreenKind::Paused => Intent::ResumeTraining,
        ScreenKind::Records | ScreenKind::Stats => Intent::Open(ScreenKind::Main),
    }
}

/// Whether a screen of kind `on` that has been shown since clock reading
/// `shown_at` has taken over the view at `now`.
pub fn is_expanded(on: ScreenKind, shown_at: u64, now: u64) -> (taken_over: bool)
    ensures
        taken_over == expanded(on, shown_at, now),
{
    match on {
        ScreenKind::Paused => false,
        _ => now > shown_at && now - shown_at > EXPAND_AFTER,
    }
}

/// Carries out the part of `intent` that concerns the accumulator and the
/// record store, at `now` in milliseconds since the epoch, and says what
/// is left to ask of the stack of screens.
pub fn carry_out(intent: Intent, gps: &mut GpsData, records: &mut Records, now: u64) -> (cmd:
    ScreenManagementCmd<ScreenKind>)
    ensures
        cmd == stack_command(intent),
        final(gps)@ == gps_after(intent, old(gps)@),
        final(records)@ == records_after(intent, old(gps)@, old(records)@, now),
{
    match intent {
        Intent::Open(kind) => ScreenManagementCmd::PushScreen(kind),
        Intent::PauseTraining => {
            gps.pause();
            ScreenManagementCmd::PushScreen(ScreenKind::Paused)
        },
        Intent::ResumeTraining => {
            gps.resume();
            ScreenManagementCmd::PopScreen
        },
        Intent::FinishTraining => {
            gps.pause();
            push_new_record(records, gps, now);
            ScreenManagementCmd::PushScreen(ScreenKind::Main)
        },
        Intent::Stay | Intent::RequestGps | Intent::Exit => ScreenManagementCmd::Stay,
    }
}

/// What the main screen remembers between events: how far the start of a
/// training has got.
#[derive(Clone, Copy, Debug, PartialEq, Eq, Structural)]
pub struct MainFlow {
    /// The start button was pressed, and the answer of the platform about
    /// the GPS is awaited.
    pub start_pressed: bool,
    /// The tab bar takes no input any more.
    pub inputs_blocked: bool,
    /// The clock reading at which the start animation was launched.
    pub launched: Option<u64>,
    /// The platform has denied access to the GPS.
    pub permission_denied: bool,
}

/// What the main screen has to do after an update.
#[derive(Clone, Copy, Debug, PartialEq, Eq, Structural)]
pub struct MainUpdate {
    /// The start animation has to be launched now.
    pub launch: bool,
    /// What the application has to do.
    pub intent: Intent,
}

impl MainFlow {
    /// A main screen on which nothing has happened.
    pub open spec fn fresh() -> MainFlow {
        MainFlow { start_pressed: false, inputs_blocked: false, launched: None, permission_denied: false }
    }

    /// Whether the start animation, once launched, is over at `now`.
    pub open spec fn finished(self, now: u64) -> bool {
        match self.launched {
            Some(t) => now > t && now - t > START_ANIMATION,
            None => false,
        }
    }

    /// The main screen after a press at `pos`.
    pub open spec fn pressed(self, pos: Position, surface: SurfaceDims) -> MainFlow {
        if tab_at(pos, surface) is None && inside(start_button(), pos, surface)
            && self.launched is None {
            MainFlow { start_pressed: true, ..self }
        } else {
            self
        }
    }

    /// What a press at `pos` means on the main screen.  The tab bar leads
    /// to the other screens until the start of a training blocks it; the
    /// start button asks for the GPS until the start animation is launched.
    pub open spec fn press_intent(self, pos: Position, surface: SurfaceDims) -> Intent {
        match tab_at(pos, surface) {
            Some(tab) => if self.inputs_blocked {
                Intent::Stay
            } else {
                tab_intent(ScreenKind::Main, tab)
            },
            None => if inside(start_button(), pos, surface) && self.launched is None {
                Intent::RequestGps
            } else {
                Intent::Stay
            },
        }
    }

    /// Whether an update launches the start animation: the start button
    /// was pressed, access to the GPS is granted, and the animation has not
    /// been launched before.
    pub open spec fn launches(self, granted: bool) -> bool {
        granted && self.start_pressed && !self.inputs_blocked
    }

    /// The main screen after an update at clock reading `now`, with the
    /// answers of the platform about the GPS.
    pub open spec fn updated(self, granted: bool, denied: bool, now: u64) -> MainFlow {
        MainFlow {
            start_pressed: self.start_pressed && !granted,
            inputs_blocked: self.inputs_blocked || self.launches(granted),
            launched: if self.launches(granted) {
                Some(now)
            } else {
                self.launched
            },
            permission_denied: self.permission_denied || denied,
        }
    }

    /// A main screen on which nothing has happened.
    pub fn new() -> (flow: MainFlow)
        ensures
            flow == MainFlow::fresh(),
    {
        MainFlow { start_pressed: false, inputs_blocked: false, launched: None, permission_denied: false }
    }

    /// Takes a press at `pos`, and says what it means.
    pub fn press(&mut self, pos: Position, surface: SurfaceDims) -> (intent: Intent)
        ensures
            *final(self) == old(self).pressed(pos, surface),
            intent == old(self).press_intent(pos, surface),
    {
        match find_tab(pos, surface) {
            Some(tab) => {
                if self.inputs_blocked {
                    Intent::Stay
                } else {
                    of_tab(ScreenKind::Main, tab)
                }
            },
            None => {
                let button = Region { left: 300, right: 700, bottom: 1050, top: 1300 };
                if is_inside(button, pos, surface) && self.launched.is_none() {
                    self.start_pressed = true;
                    Intent::RequestGps
                } else {
                    Intent::Stay
                }
            },
        }
    }

    /// Prepares a frame at clock reading `now`, with the answers of the
    /// platform about the GPS so far.  Once the start animation is over,
    /// the training screen is opened.
    pub fn update(&mut self, granted: bool, denied: bool, now: u64) -> (outcome: MainUpdate)
        ensures
            *final(self) == old(self).updated(granted, denied, now),
            outcome.launch == old(self).launches(granted),
            outcome.intent == (if final(self).finished(now) {
                Intent::Open(ScreenKind::ActiveTraining)
            } else {
                Intent::Stay
            }),
    {
        let mut launch = false;
        if granted && self.start_pressed {
            if !self.inputs_blocked {
                self.inputs_blocked = true;
                self.launched = Some(now);
                launch = true;
            }
            self.start_pressed = false;
        }
        if denied {
            self.permission_denied = true;
        }
        let finished = match self.launched {
            Some(t) => now > t && now - t > START_ANIMATION,
            None => false,
        };
        MainUpdate {
            launch,
            intent: if finished {
                Intent::Open(ScreenKind::ActiveTraining)
            } else {
                Intent::Stay
            },
        }
    }
}

/// Every press on the tab bar of the records or stats screen opens another
/// screen or does nothing; it never touches a training.
pub proof fn lemma_tab_bar_leads_elsewhere(on: ScreenKind, tab: Tab)
    ensures
        tab_intent(on, tab) is Stay || (tab_intent(on, tab) is Open && tab_intent(on, tab)->0 != on),
        stack_command(tab_intent(on, tab)) is Stay || stack_command(tab_intent(on, tab))
            is PushScreen,
{
}

/// The two buttons of the pause screen do not overlap: no press means both.
pub proof fn lemma_pause_buttons_apart(pos: Position, surface: SurfaceDims)
    ensures
        !(inside(continue_button(), pos, surface) && inside(finish_button(), pos, surface)),
{
}

/// The start button lies above the tab bar: a press on a tab is never a
/// press on the start button.
pub proof fn lemma_start_button_above_tabs(pos: Position, surface: SurfaceDims)
    ensures
        tab_at(pos, surface) is Some ==> !inside(start_button(), pos, surface),
{
}

/// Whatever happens on the pause screen, the totals of the training stay:
/// going on, finishing and the back button keep distance and time, and a
/// finished training is stored with exactly these totals.
pub proof fn lemma_pause_screen_keeps_totals(intent: Intent, gps: GpsView, records: RecordsView, now: u64)
    ensures
        gps_after(intent, gps).total_distance == gps.total_distance,
        gps_after(intent, gps).total_time == gps.total_time,
        intent is FinishTraining ==> records_after(intent, gps, records, now).records.last().distance
            == gps.total_distance && records_after(intent, gps, records, now).records.last().time
            == gps.total_time,
        !(intent is FinishTraining) ==> records_after(intent, gps, records, now) == records,
{
}

/// The start animation is launched at most once: once it has been, no
/// update launches it again, and the tab bar stays blocked.
pub proof fn lemma_start_launched_once(flow: MainFlow, granted: bool, denied: bool, now: u64)
    requires
        flow.launched is Some ==> flow.inputs_blocked,
    ensures
        flow.launched is Some ==> !flow.launches(granted) && flow.updated(granted, denied, now).launched
            == flow.launched,
        flow.updated(granted, denied, now).launched is Some ==> flow.updated(
            granted,
            denied,
            now,
        ).inputs_blocked,
        flow.inputs_blocked ==> flow.updated(granted, denied, now).inputs_blocked,
{
}

} // verus!
