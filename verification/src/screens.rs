//! The stack of screens: navigation, input routing and the per-frame pass
//! that draws every screen and lets a settled one discard what it covers.
//!
//! The lowest screen is at index 0.  Only the topmost screen receives input;
//! all of them are drawn, from the bottom up.

use crate::gesture::{Delta, Position};
use vstd::prelude::*;

verus! {

/// What a screen asks the stack to do after it has handled an event.
pub enum ScreenManagementCmd<S> {
    /// Stay as it is.
    Stay,
    /// Put this screen on top.
    PushScreen(S),
    /// Take the topmost screen away.
    PopScreen,
}

/// One full-view unit of the user interface.
///
/// Only drawing is mandatory.  A screen that does not say otherwise accepts
/// scrolling, ignores what is scrolled or pressed, and never reports that it
/// has taken over the view.
///
/// What input, preparing a frame and drawing do to a screen is the
/// screen's own business.  A kind of screen may say what they may do, in
/// [`ScreenTrait::starts_scroll`], [`ScreenTrait::scrolls`],
/// [`ScreenTrait::presses`], [`ScreenTrait::backs`],
/// [`ScreenTrait::updates`], [`ScreenTrait::draws`] and
/// [`ScreenTrait::may_expand`]; the stack then says of its own operations
/// which screen they reached, with what, and that nothing else happened.
/// Of a kind of screen that does not say, everything is allowed.
pub trait ScreenTrait: Sized {
    /// What a touch-down at `pos` may do to a screen of this kind, where it
    /// does anything: the screen `after` it, and whether its movement is to
    /// scroll.  A kind of screen that does not say allows everything.
    open spec fn starts_scroll(&self, pos: Position, after: &Self, forward: bool) -> bool {
        true
    }

    /// What scrolling by `delta` may do to a screen of this kind, where it
    /// does anything.  A kind of screen that does not say allows everything.
    open spec fn scrolls(&self, delta: Delta, after: &Self) -> bool {
        true
    }

    /// What a tap at `pos` may do to a screen of this kind, where it does
    /// anything: the screen `after` it, and what it asks for.  A kind of
    /// screen that does not say allows everything.
    open spec fn presses(&self, pos: Position, after: &Self, cmd: ScreenManagementCmd<Self>) -> bool {
        true
    }

    /// A contact went down at `pos`: should its movement scroll the screen?
    fn start_scroll(&mut self, pos: Position) -> (forward: bool)
        ensures
            (forward && *final(self) == *old(self)) || old(self).starts_scroll(
                pos,
                final(self),
                forward,
            ),
        default_ensures
            forward,
            *final(self) == *old(self),
    {
        true
    }

    /// A contact that scrolls has moved by `delta`.
    fn scroll(&mut self, delta: Delta)
        ensures
            *final(self) == *old(self) || old(self).scrolls(delta, final(self)),
        default_ensures
            *final(self) == *old(self),
    {
    }

    /// A tap ended at `pos`.
    fn press(&mut self, pos: Position) -> (cmd: ScreenManagementCmd<Self>)
        ensures
            (cmd is Stay && *final(self) == *old(self)) || old(self).presses(pos, final(self), cmd),
        default_ensures
            cmd is Stay,
            *final(self) == *old(self),
    {
        ScreenManagementCmd::Stay
    }

    /// What the back button may do to a screen of this kind, where it does
    /// anything: the screen `after` it, and what it asks for.  A kind of
    /// screen that does not say allows everything.
    open spec fn backs(&self, after: &Self, cmd: ScreenManagementCmd<Self>) -> bool {
        true
    }

    /// What preparing a frame may do to a screen of this kind, where it
    /// does anything: the screen `after` it, and what it asks for.  A kind
    /// of screen that does not say allows everything.
    open spec fn updates(&self, after: &Self, cmd: ScreenManagementCmd<Self>) -> bool {
        true
    }

    /// What drawing may do to a screen of this kind.  A kind of screen that
    /// does not say allows everything.
    open spec fn draws(&self, after: &Self) -> bool {
        true
    }

    /// Whether this screen may report that it has taken over the view.  A
    /// kind of screen that does not say always may.
    open spec fn may_expand(&self) -> bool {
        true
    }

    /// The back button was pressed.
    fn back(&mut self) -> (cmd: ScreenManagementCmd<Self>)
        ensures
            (cmd is Stay && *final(self) == *old(self)) || old(self).backs(final(self), cmd),
        default_ensures
            cmd is Stay,
            *final(self) == *old(self),
    {
        ScreenManagementCmd::Stay
    }

    /// A frame is about to be drawn.
    fn update(&mut self) -> (cmd: ScreenManagementCmd<Self>)
        ensures
            (cmd is Stay && *final(self) == *old(self)) || old(self).updates(final(self), cmd),
        default_ensures
            cmd is Stay,
            *final(self) == *old(self),
    {
        ScreenManagementCmd::Stay
    }

    /// Renders the screen into its own target.
    fn draw(&mut self)
        ensures
            old(self).draws(final(self)),
    ;

    /// Whether the screen has fully taken over the view, so that the
    /// screens below it can go.
    fn is_expanded(&self) -> (expanded: bool)
        ensures
            expanded ==> self.may_expand(),
        default_ensures
            !expanded,
    {
        false
    }
}

/// What a touch-down at `pos` does to a screen: the screen stays as it is
/// and lets the movement scroll, which is what this trait provides, or does
/// what its kind allows.
pub open spec fn scroll_started<S: ScreenTrait>(
    before: S,
    pos: Position,
    after: S,
    forward: bool,
) -> bool {
    (forward && after == before) || before.starts_scroll(pos, &after, forward)
}

/// What scrolling by `delta` does to a screen: nothing, which is what this
/// trait provides, or what its kind allows.
pub open spec fn was_scrolled<S: ScreenTrait>(before: S, delta: Delta, after: S) -> bool {
    after == before || before.scrolls(delta, &after)
}

/// What a tap at `pos` does to a screen: the screen rests, which is what
/// this trait provides, or does what its kind allows.
pub open spec fn was_pressed<S: ScreenTrait>(
    before: S,
    pos: Position,
    after: S,
    cmd: ScreenManagementCmd<S>,
) -> bool {
    (cmd is Stay && after == before) || before.presses(pos, &after, cmd)
}

/// What the back button does to a screen: the screen rests, which is what
/// this trait provides, or does what its kind allows.
pub open spec fn went_back<S: ScreenTrait>(
    before: S,
    after: S,
    cmd: ScreenManagementCmd<S>,
) -> bool {
    (cmd is Stay && after == before) || before.backs(&after, cmd)
}

/// What preparing a frame does to a screen: the screen rests, which is what
/// this trait provides, or does what its kind allows.
pub open spec fn was_updated<S: ScreenTrait>(
    before: S,
    after: S,
    cmd: ScreenManagementCmd<S>,
) -> bool {
    (cmd is Stay && after == before) || before.updates(&after, cmd)
}

/// Every screen of `before` was drawn once, which made `drawn` of them,
/// and then reported what `reports` holds, by position.
pub open spec fn drawn_once<S: ScreenTrait>(
    before: Seq<S>,
    drawn: Seq<S>,
    reports: Seq<bool>,
) -> bool {
    &&& drawn.len() == before.len()
    &&& reports.len() == before.len()
    &&& forall|k: int| 0 <= k < drawn.len() ==> #[trigger] before[k].draws(&drawn[k])
    &&& forall|k: int| 0 <= k < drawn.len() && reports[k] ==> (#[trigger] drawn[k]).may_expand()
}

/// A pass over `before`, in which the screens became `drawn` and reported
/// `reports`, leaves the stack `after`.
pub open spec fn pass_leaves<S: ScreenTrait>(
    before: Seq<S>,
    drawn: Seq<S>,
    reports: Seq<bool>,
    after: Seq<S>,
) -> bool {
    drawn_once(before, drawn, reports) && after == pass_outcome(drawn, reports)
}

/// The stack after the screen at index `i` was drawn and reported
/// `expanded`: a settled screen that is not the lowest becomes the lowest.
pub open spec fn settled_screens<S>(screens: Seq<S>, i: int, expanded: bool) -> Seq<S> {
    if expanded && i > 0 {
        screens.subrange(i, screens.len() as int)
    } else {
        screens
    }
}

/// The index at which the pass goes on after the screen at index `i` was
/// drawn and reported `expanded`.
pub open spec fn settled_next(i: int, expanded: bool) -> int {
    if expanded && i > 0 {
        1
    } else {
        i + 1
    }
}

/// The stack after `cmd` was carried out.
pub open spec fn applied_screens<S>(screens: Seq<S>, cmd: ScreenManagementCmd<S>) -> Seq<S> {
    match cmd {
        ScreenManagementCmd::Stay => screens,
        ScreenManagementCmd::PushScreen(s) => screens.push(s),
        ScreenManagementCmd::PopScreen => if screens.len() > 0 {
            screens.drop_last()
        } else {
            screens
        },
    }
}

/// Whether carrying out `cmd` takes the last screen away, which asks the
/// application to exit.
pub open spec fn applied_exits<S>(screens: Seq<S>, cmd: ScreenManagementCmd<S>) -> bool {
    cmd is PopScreen && screens.len() == 1
}

/// The stack of screens, and whether the application has been asked to exit.
pub struct AppState<S> {
    screens: Vec<S>,
    exit_request: bool,
}

impl<S: ScreenTrait> AppState<S> {
    /// The screens, lowest first.
    pub closed spec fn screens(&self) -> Seq<S> {
        self.screens@
    }

    /// Whether exit has been asked for.
    pub closed spec fn exit_requested(&self) -> bool {
        self.exit_request
    }

    /// A stack without screens.
    pub fn new() -> (state: Self)
        ensures
            state.screens().len() == 0,
            !state.exit_requested(),
    {
        AppState { screens: Vec::new(), exit_request: false }
    }

    /// Makes sure that there is a screen: where there is none, the screen
    /// that `first` makes becomes the lowest.  `first` is not called
    /// otherwise.
    pub fn ensure_renderer<F: FnOnce() -> S>(&mut self, first: F)
        requires
            first.requires(()),
        ensures
            final(self).exit_requested() == old(self).exit_requested(),
            old(self).screens().len() > 0 ==> final(self).screens() == old(self).screens(),
            old(self).screens().len() == 0 ==> final(self).screens().len() == 1 && first.ensures(
                (),
                final(self).screens()[0],
            ),
    {
        if self.screens.len() == 0 {
            let screen = first();
            self.screens.push(screen);
        }
    }

    /// Whether there is anything to draw.
    pub fn renderer_ready(&self) -> (ready: bool)
        ensures
            ready == (self.screens().len() > 0),
    {
        self.screens.len() > 0
    }

    /// How many screens there are.
    pub fn len(&self) -> (n: usize)
        ensures
            n == self.screens().len(),
    {
        self.screens.len()
    }

    /// The screen at index `i`, counted from the lowest.
    pub fn screen(&self, i: usize) -> (screen: Option<&S>)
        ensures
            screen == (if i < self.screens().len() {
                Some(&self.screens()[i as int])
            } else {
                None
            }),
    {
        if i < self.screens.len() {
            Some(&self.screens[i])
        } else {
            None
        }
    }

    /// Whether exit has been asked for.
    pub fn is_exit_requested(&self) -> (exit: bool)
        ensures
            exit == self.exit_requested(),
    {
        self.exit_request
    }

    /// Asks the application to exit, whatever is on the stack.
    pub fn request_exit(&mut self)
        ensures
            final(self).exit_requested(),
            final(self).screens() == old(self).screens(),
    {
        self.exit_request = true;
    }

    /// The screen that receives input: the topmost one, if there is one.
    pub fn get_input_screen(&mut self) -> (top: Option<&mut S>)
        ensures
            final(self).exit_requested() == old(self).exit_requested(),
            match top {
                Some(screen) => {
                    &&& old(self).screens().len() > 0
                    &&& *screen == old(self).screens().last()
                    &&& final(self).screens() == old(self).screens().update(
                        old(self).screens().len() - 1,
                        *final(screen),
                    )
                },
                None => old(self).screens().len() == 0 && final(self).screens() == old(
                    self,
                ).screens(),
            },
    {
        let n = self.screens.len();
        if n > 0 {
            Some(&mut self.screens[n - 1])
        } else {
            None
        }
    }

    /// Puts `screen` on top: it receives the input from now on and is drawn last.
    pub fn push_screen(&mut self, screen: S)
        ensures
            final(self).screens() == old(self).screens().push(screen),
            final(self).exit_requested() == old(self).exit_requested(),
    {
        self.screens.push(screen);
    }

    /// Takes the topmost screen away.  Says `true` when that was the last
    /// screen: the application is then asked to exit.  On a stack without
    /// screens nothing happens.
    pub fn pop_screen(&mut self) -> (exit: bool)
        ensures
            final(self).screens() == applied_screens(
                old(self).screens(),
                ScreenManagementCmd::PopScreen,
            ),
            exit == (old(self).screens().len() == 1),
            final(self).exit_requested() == (old(self).exit_requested() || exit),
    {
        let n = self.screens.len();
        self.screens.pop();
        if n == 1 {
            self.exit_request = true;
            true
        } else {
            false
        }
    }

    /// Carries out what a screen has asked for.  Says `true` when this took
    /// the last screen away.
    pub fn apply(&mut self, cmd: ScreenManagementCmd<S>) -> (exit: bool)
        ensures
            final(self).screens() == applied_screens(old(self).screens(), cmd),
            exit == applied_exits(old(self).screens(), cmd),
            final(self).exit_requested() == (old(self).exit_requested() || exit),
    {
        match cmd {
            ScreenManagementCmd::Stay => false,
            ScreenManagementCmd::PushScreen(screen) => {
                self.push_screen(screen);
                false
            },
            ScreenManagementCmd::PopScreen => self.pop_screen(),
        }
    }

    /// Takes note that the screen at index `i` has been drawn and has
    /// reported `expanded`.  A settled screen that is not the lowest becomes
    /// the lowest: everything below it leaves the stack.  Says where the
    /// pass goes on.
    pub fn settle(&mut self, i: usize, expanded: bool) -> (next: usize)
        requires
            i < old(self).screens().len(),
        ensures
            final(self).screens() == settled_screens(old(self).screens(), i as int, expanded),
            next == settled_next(i as int, expanded),
            next <= final(self).screens().len(),
            final(self).exit_requested() == old(self).exit_requested(),
    {
        let n = self.screens.len();
        if expanded && i > 0 {
            let kept = self.screens.split_off(i);
            self.screens = kept;
            1
        } else {
            assert(i < n);
            i + 1
        }
    }

    /// Lets the topmost screen prepare the next frame, and hands back what
    /// it asks for.  The screens below it are left alone.  Without screens,
    /// nothing is asked for.
    pub fn update(&mut self) -> (cmd: ScreenManagementCmd<S>)
        ensures
            final(self).exit_requested() == old(self).exit_requested(),
            final(self).screens().len() == old(self).screens().len(),
            old(self).screens().len() == 0 ==> cmd is Stay && final(self).screens() == old(
                self,
            ).screens(),
            old(self).screens().len() > 0 ==> was_updated(
                old(self).screens().last(),
                final(self).screens().last(),
                cmd,
            ),
            old(self).screens().len() > 0 ==> final(self).screens().drop_last() == old(
                self,
            ).screens().drop_last(),
    {
        let n = self.screens.len();
        if n > 0 {
            let cmd = self.screens[n - 1].update();
            assert(self.screens@.drop_last() =~= old(self).screens@.drop_last());
            cmd
        } else {
            ScreenManagementCmd::Stay
        }
    }

    /// Draws every screen once, from the lowest up, and after each asks
    /// whether it has taken over the view.  What lies below a screen that
    /// has is dropped at once, and the pass goes on above it: at the end
    /// the stack begins with the last screen above the lowest that
    /// reported so, or is as long as it was.
    pub fn draw(&mut self)
        ensures
            final(self).exit_requested() == old(self).exit_requested(),
            final(self).screens().len() <= old(self).screens().len(),
            old(self).screens().len() > 0 ==> final(self).screens().len() > 0,
            exists|drawn: Seq<S>, reports: Seq<bool>| #[trigger]
                pass_leaves(old(self).screens(), drawn, reports, final(self).screens()),
    {
        let ghost before = self.screens@;
        let ghost mut drawn: Seq<S> = Seq::empty();
        let ghost mut reports: Seq<bool> = Seq::empty();
        let ghost mut dropped: int = 0;
        let mut i: usize = 0;
        while i < self.screens.len()
            invariant
                before == old(self).screens@,
                self.exit_request == old(self).exit_request,
                0 <= dropped,
                dropped + i <= before.len(),
                dropped > 0 ==> i > 0,
                drawn.len() == dropped + i,
                reports.len() == dropped + i,
                dropped == lowest_kept(reports),
                self.screens@.len() == before.len() - dropped,
                forall|k: int| 0 <= k < i ==> self.screens@[k] == drawn[dropped + k],
                forall|k: int|
                    i <= k < self.screens@.len() ==> self.screens@[k] == before[dropped + k],
                forall|k: int| 0 <= k < drawn.len() ==> #[trigger] before[k].draws(&drawn[k]),
                forall|k: int|
                    0 <= k < drawn.len() && reports[k] ==> (#[trigger] drawn[k]).may_expand(),
            decreases self.screens@.len() - i,
        {
            let ghost held = self.screens@;
            let ghost seen = reports;
            let ghost at = dropped + i;
            self.screens[i].draw();
            let expanded = self.screens[i].is_expanded();
            proof {
                let shown = self.screens@[i as int];
                assert(held[i as int] == before[at]);
                assert(self.screens@ == held.update(i as int, shown));
                drawn = drawn.push(shown);
                reports = reports.push(expanded);
                assert(reports.drop_last() =~= seen);
                assert(reports.last() == expanded);
                if expanded && i > 0 {
                    dropped = at;
                } else if at > 0 && expanded {
                    assert(false);
                }
                assert(dropped == lowest_kept(reports));
            }
            i = self.settle(i, expanded);
        }
        proof {
            assert(drawn_once(before, drawn, reports));
            assert(self.screens@ =~= pass_outcome(drawn, reports));
            assert(pass_leaves(old(self).screens(), drawn, reports, self.screens()));
        }
    }
}

/// The index of the screen that is the lowest at the end of a pass, given
/// what each screen reported after it was drawn: the last screen above the
/// lowest that reported that it has taken over, or else the lowest.
pub open spec fn lowest_kept(reports: Seq<bool>) -> int
    decreases reports.len(),
{
    if reports.len() <= 1 {
        0
    } else if reports.last() {
        reports.len() - 1
    } else {
        lowest_kept(reports.drop_last())
    }
}

/// The stack at the end of a pass over `screens` in which the screen at
/// index `i` reported `reports[i]` after it was drawn.
pub open spec fn pass_outcome<S>(screens: Seq<S>, reports: Seq<bool>) -> Seq<S> {
    screens.subrange(lowest_kept(reports), screens.len() as int)
}

/// The stack at the end of a pass that has reached index `i` of `screens`,
/// where `reports` holds what the screens from there on report, one after
/// the other: the pass settles each screen in turn.
pub open spec fn pass_from<S>(screens: Seq<S>, i: int, reports: Seq<bool>) -> Seq<S>
    decreases reports.len(),
{
    if reports.len() == 0 {
        screens
    } else {
        pass_from(
            settled_screens(screens, i, reports.first()),
            settled_next(i, reports.first()),
            reports.drop_first(),
        )
    }
}

/// A pass that has reached index `i`, with `dropped` screens gone already,
/// ends with the stack that [`pass_outcome`] names.
proof fn lemma_pass_from<S>(all: Seq<S>, all_reports: Seq<bool>, dropped: int, i: int)
    requires
        all.len() == all_reports.len(),
        0 <= dropped <= dropped + i <= all.len(),
        dropped > 0 ==> i > 0,
        dropped == lowest_kept(all_reports.take(dropped + i)),
    ensures
        pass_from(
            all.subrange(dropped, all.len() as int),
            i,
            all_reports.subrange(dropped + i, all.len() as int),
        ) == pass_outcome(all, all_reports),
    decreases all.len() - dropped - i,
{
    let n = all.len() as int;
    let at = dropped + i;
    let screens = all.subrange(dropped, n);
    let rest = all_reports.subrange(at, n);
    if at == n {
        assert(all_reports.take(at) =~= all_reports);
    } else {
        let seen = all_reports.take(at + 1);
        assert(seen.drop_last() =~= all_reports.take(at));
        assert(seen.last() == all_reports[at]);
        assert(rest.first() == all_reports[at]);
        assert(rest.drop_first() =~= all_reports.subrange(at + 1, n));
        if all_reports[at] && i > 0 {
            assert(settled_screens(screens, i, true) =~= all.subrange(at, n));
            assert(lowest_kept(seen) == at);
            lemma_pass_from(all, all_reports, at, 1);
        } else {
            assert(lowest_kept(seen) == dropped) by {
                if at == 0 {
                } else if all_reports[at] {
                    assert(i == 0 && dropped == 0);
                }
            }
            if at == 0 {
                assert(seen.len() == 1);
                assert(lowest_kept(seen) == 0);
            }
            lemma_pass_from(all, all_reports, dropped, i + 1);
        }
    }
}

/// A whole pass, which settles the screens one after the other from the
/// lowest up, keeps the last screen above the lowest that reported that it
/// has taken over, and what is above it; where none did, it keeps all.
pub proof fn lemma_pass_keeps_from_last_settled<S>(screens: Seq<S>, reports: Seq<bool>)
    requires
        screens.len() == reports.len(),
    ensures
        pass_from(screens, 0, reports) == pass_outcome(screens, reports),
        0 <= lowest_kept(reports) <= screens.len(),
        screens.len() > 0 ==> lowest_kept(reports) < screens.len(),
        lowest_kept(reports) > 0 ==> reports[lowest_kept(reports)],
        forall|j: int| lowest_kept(reports) < j < reports.len() ==> !reports[j],
{
    assert(reports.take(0).len() == 0);
    assert(screens.subrange(0, screens.len() as int) =~= screens);
    assert(reports.subrange(0, screens.len() as int) =~= reports);
    lemma_pass_from(screens, reports, 0, 0);
    lemma_lowest_kept(reports);
}

proof fn lemma_lowest_kept(reports: Seq<bool>)
    ensures
        0 <= lowest_kept(reports) <= reports.len(),
        reports.len() > 0 ==> lowest_kept(reports) < reports.len(),
        lowest_kept(reports) > 0 ==> reports[lowest_kept(reports)],
        forall|j: int| lowest_kept(reports) < j < reports.len() ==> !reports[j],
    decreases reports.len(),
{
    if reports.len() > 1 && !reports.last() {
        lemma_lowest_kept(reports.drop_last());
        assert forall|j: int| lowest_kept(reports) < j < reports.len() implies !reports[j] by {
            if j < reports.len() - 1 {
                assert(reports.drop_last()[j] == reports[j]);
            }
        }
        if lowest_kept(reports) > 0 {
            assert(reports.drop_last()[lowest_kept(reports)] == reports[lowest_kept(reports)]);
        }
    }
}

/// A screen pushed onto a single screen, and reporting on the next pass
/// that it has taken over, is alone on the stack after that pass, whatever
/// the screen below it reported.
pub proof fn lemma_settled_top_stands_alone<S>(below: S, top: S, below_expanded: bool)
    ensures
        pass_from(
            applied_screens(seq![below], ScreenManagementCmd::PushScreen(top)),
            0,
            seq![below_expanded, true],
        ) == seq![top],
{
    let screens = applied_screens(seq![below], ScreenManagementCmd::PushScreen(top));
    let reports = seq![below_expanded, true];
    assert(screens =~= seq![below, top]);
    lemma_pass_keeps_from_last_settled(screens, reports);
    assert(lowest_kept(reports) == 1);
    assert(screens.subrange(1, 2) =~= seq![top]);
}

/// How often exit is asked for while the topmost screen is taken away `n`
/// times in a row.
pub open spec fn exits_while_popping<S>(screens: Seq<S>, n: nat) -> nat
    decreases n,
{
    if n == 0 {
        0
    } else {
        (if applied_exits(screens, ScreenManagementCmd::<S>::PopScreen) {
            1nat
        } else {
            0nat
        }) + exits_while_popping(
            applied_screens(screens, ScreenManagementCmd::<S>::PopScreen),
            (n - 1) as nat,
        )
    }
}

/// However often the topmost screen is taken away, exit is asked for once,
/// by the call that takes the last screen, and never again by the calls
/// that find no screen.
pub proof fn lemma_exit_asked_once<S>(screens: Seq<S>, n: nat)
    ensures
        exits_while_popping(screens, n) == (if 0 < screens.len() <= n {
            1nat
        } else {
            0nat
        }),
    decreases n,
{
    if n > 0 {
        lemma_exit_asked_once(
            applied_screens(screens, ScreenManagementCmd::<S>::PopScreen),
            (n - 1) as nat,
        );
    }
}

/// Taking a screen from a stack without screens changes nothing and asks
/// for nothing.
pub proof fn lemma_pop_without_screens<S>()
    ensures
        applied_screens(Seq::<S>::empty(), ScreenManagementCmd::<S>::PopScreen) == Seq::<S>::empty(),
        !applied_exits(Seq::<S>::empty(), ScreenManagementCmd::<S>::PopScreen),
{
}

/// What a pass leaves is the upper part of the stack, drawn: the screens
/// that are left are those from the last screen above the lowest that
/// reported that it has taken over, each as drawing has made it, in their
/// order.  Where screens were dropped, the lowest that is left may report
/// that it has taken over; and a stack that had a screen keeps one.
pub proof fn lemma_pass_leaves_drawn_screens<S: ScreenTrait>(
    before: Seq<S>,
    drawn: Seq<S>,
    reports: Seq<bool>,
    after: Seq<S>,
)
    requires
        pass_leaves(before, drawn, reports, after),
    ensures
        0 <= lowest_kept(reports) <= before.len(),
        after.len() == before.len() - lowest_kept(reports),
        before.len() > 0 ==> after.len() > 0,
        forall|j: int|
            0 <= j < after.len() ==> (#[trigger] before[lowest_kept(reports) + j]).draws(&after[j]),
        lowest_kept(reports) > 0 ==> after[0].may_expand(),
{
    lemma_lowest_kept(reports);
    let k = lowest_kept(reports);
    assert forall|j: int| 0 <= j < after.len() implies (#[trigger] before[k + j]).draws(
        &after[j],
    ) by {
        assert(after[j] == drawn[k + j]);
    }
    if k > 0 {
        assert(after[0] == drawn[k]);
    }
}

} // verus!
