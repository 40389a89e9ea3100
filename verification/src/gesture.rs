//! Gesture recognition: one small state machine per touch identifier that
//! tells a tap from a drag.
//!
//! Positions are whole numbers in the unit the caller reports them in
//! (physical pixels for a touch screen).  A contact that travels more than
//! [`TAP_DISTANCE`] units, measured as the sum of the absolute movement on
//! both axes, is a drag and never ends in a press.

use std::collections::BTreeMap;
use vstd::prelude::*;
use vstd::std_specs::btree::group_btree_axioms;

verus! {

/// A contact may travel this far and still end as a tap.
pub const TAP_DISTANCE: u64 = 50;

/// A point on the touch surface.
#[derive(Clone, Copy, Debug, PartialEq, Eq, Structural)]
pub struct Position {
    pub x: i32,
    pub y: i32,
}

/// A movement between two points, `to - from` on each axis.
#[derive(Clone, Copy, Debug, PartialEq, Eq, Structural)]
pub struct Delta {
    pub dx: i64,
    pub dy: i64,
}

/// The stage of a contact that a raw pointer event reports.
#[derive(Clone, Copy, Debug, PartialEq, Eq, Structural)]
pub enum TouchPhase {
    Started,
    Moved,
    Ended,
    Cancelled,
}

/// What is remembered of one active contact.
#[derive(Clone, Copy, Debug, PartialEq, Eq, Structural)]
pub enum TouchState {
    /// Last position, distance travelled since touch-down (at most
    /// [`TAP_DISTANCE`]), and whether movement is forwarded as scrolling.
    MovingStart(Position, u64, bool),
    /// Last position and the forwarding flag, once the contact has become a drag.
    Moving(Position, bool),
}

/// What the addressed screen has to be told after an event.
#[derive(Clone, Copy, Debug, PartialEq, Eq, Structural)]
pub enum TouchAction {
    /// Nothing to forward.
    Idle,
    /// Forward this movement to the screen's scroll handler.
    Scroll(Delta),
    /// The contact was a tap that ended here.
    Press(Position),
}

/// Movement from `from` to `to`.
pub open spec fn delta_between(from: Position, to: Position) -> Delta {
    Delta { dx: (to.x - from.x) as i64, dy: (to.y - from.y) as i64 }
}

/// Sum of the absolute movement on both axes.
pub open spec fn l1_length(d: Delta) -> nat {
    ((if d.dx < 0 {
        -d.dx
    } else {
        d.dx as int
    }) + (if d.dy < 0 {
        -d.dy
    } else {
        d.dy as int
    })) as nat
}

/// The action for a movement, given the flag fixed at touch-down.
pub open spec fn scroll_action(forward: bool, d: Delta) -> TouchAction {
    if forward {
        TouchAction::Scroll(d)
    } else {
        TouchAction::Idle
    }
}

/// The state of a contact after it moved to `position`.
pub open spec fn moved_state(state: TouchState, position: Position) -> TouchState {
    match state {
        TouchState::MovingStart(last, travelled, forward) => {
            let total = travelled + l1_length(delta_between(last, position));
            if total > TAP_DISTANCE {
                TouchState::Moving(position, forward)
            } else {
                TouchState::MovingStart(position, total as u64, forward)
            }
        },
        TouchState::Moving(_, forward) => TouchState::Moving(position, forward),
    }
}

/// The action for a contact in `state` that moved to `position`.
pub open spec fn moved_action(state: TouchState, position: Position) -> TouchAction {
    match state {
        TouchState::MovingStart(last, _, forward) => scroll_action(
            forward,
            delta_between(last, position),
        ),
        TouchState::Moving(last, forward) => scroll_action(forward, delta_between(last, position)),
    }
}

/// One step of the recognizer: the contacts after the event, and the action it asks for.
///
/// `forward_scroll` is the answer of the addressed screen to the question
/// whether dragging should scroll; it is read for `Started` only.
pub open spec fn touch_step(
    touches: Map<u64, TouchState>,
    id: u64,
    position: Position,
    phase: TouchPhase,
    forward_scroll: bool,
) -> (Map<u64, TouchState>, TouchAction) {
    match phase {
        TouchPhase::Started => (
            touches.insert(id, TouchState::MovingStart(position, 0, forward_scroll)),
            TouchAction::Idle,
        ),
        TouchPhase::Moved => if touches.contains_key(id) {
            (
                touches.insert(id, moved_state(touches[id], position)),
                moved_action(touches[id], position),
            )
        } else {
            (touches, TouchAction::Idle)
        },
        TouchPhase::Ended => if touches.contains_key(id) && touches[id] is MovingStart {
            (touches.remove(id), TouchAction::Press(position))
        } else {
            (touches.remove(id), TouchAction::Idle)
        },
        TouchPhase::Cancelled => (touches.remove(id), TouchAction::Idle),
    }
}

/// The recognizer: every active contact, keyed by its identifier.
pub struct GestureTracker {
    touches: BTreeMap<u64, TouchState>,
}

impl View for GestureTracker {
    type V = Map<u64, TouchState>;

    closed spec fn view(&self) -> Map<u64, TouchState> {
        self.touches@
    }
}

fn movement(from: Position, to: Position) -> (d: Delta)
    ensures
        d == delta_between(from, to),
{
    Delta { dx: to.x as i64 - from.x as i64, dy: to.y as i64 - from.y as i64 }
}

fn travelled(from: Position, to: Position) -> (len: u64)
    ensures
        len == l1_length(delta_between(from, to)),
{
    let d = movement(from, to);
    let ax: u64 = if d.dx < 0 {
        (-d.dx) as u64
    } else {
        d.dx as u64
    };
    let ay: u64 = if d.dy < 0 {
        (-d.dy) as u64
    } else {
        d.dy as u64
    };
    ax + ay
}

fn moved(state: TouchState, position: Position) -> (next: (TouchState, TouchAction))
    ensures
        next.0 == moved_state(state, position),
        next.1 == moved_action(state, position),
{
    match state {
        TouchState::MovingStart(last, so_far, forward) => {
            let d = movement(last, position);
            let step = travelled(last, position);
            let action = if forward {
                TouchAction::Scroll(d)
            } else {
                TouchAction::Idle
            };
            if so_far > TAP_DISTANCE || step > TAP_DISTANCE - so_far {
                (TouchState::Moving(position, forward), action)
            } else {
                (TouchState::MovingStart(position, so_far + step, forward), action)
            }
        },
        TouchState::Moving(last, forward) => {
            let d = movement(last, position);
            let action = if forward {
                TouchAction::Scroll(d)
            } else {
                TouchAction::Idle
            };
            (TouchState::Moving(position, forward), action)
        },
    }
}

impl GestureTracker {
    /// A recognizer with no active contact.
    pub fn new() -> (tracker: GestureTracker)
        ensures
            tracker@ == Map::<u64, TouchState>::empty(),
    {
        GestureTracker { touches: BTreeMap::new() }
    }

    /// Number of active contacts.
    pub fn active(&self) -> (n: usize)
        ensures
            n == self@.len(),
    {
        broadcast use group_btree_axioms;

        self.touches.len()
    }

    /// What is remembered of contact `id`, if it is active.
    pub fn state(&self, id: u64) -> (state: Option<TouchState>)
        ensures
            state == (if self@.contains_key(id) {
                Some(self@[id])
            } else {
                None
            }),
    {
        broadcast use group_btree_axioms;

        match self.touches.get(&id) {
            Some(s) => Some(*s),
            None => None,
        }
    }

    /// Feeds one raw pointer event to the recognizer and says what the
    /// addressed screen has to be told.
    ///
    /// `forward_scroll` is the screen's answer to a touch-down; for the other
    /// phases it is not read.
    pub fn on_touch(
        &mut self,
        id: u64,
        position: Position,
        phase: TouchPhase,
        forward_scroll: bool,
    ) -> (action: TouchAction)
        ensures
            final(self)@ == touch_step(old(self)@, id, position, phase, forward_scroll).0,
            action == touch_step(old(self)@, id, position, phase, forward_scroll).1,
    {
        broadcast use group_btree_axioms;

        match phase {
            TouchPhase::Started => {
                self.touches.insert(id, TouchState::MovingStart(position, 0, forward_scroll));
                TouchAction::Idle
            },
            TouchPhase::Moved => {
                match self.state(id) {
                    Some(current) => {
                        let next = moved(current, position);
                        self.touches.insert(id, next.0);
                        next.1
                    },
                    None => TouchAction::Idle,
                }
            },
            TouchPhase::Ended => {
                match self.touches.remove(&id) {
                    Some(TouchState::MovingStart(_, _, _)) => TouchAction::Press(position),
                    _ => TouchAction::Idle,
                }
            },
            TouchPhase::Cancelled => {
                self.touches.remove(&id);
                TouchAction::Idle
            },
        }
    }
}

/// Where a contact is after it went down at `start` and moved through `moves`.
pub open spec fn last_position(start: Position, moves: Seq<Position>) -> Position {
    if moves.len() == 0 {
        start
    } else {
        moves.last()
    }
}

/// Distance that a contact has travelled after it went down at `start` and
/// moved through `moves`, one after the other.
pub open spec fn path_length(start: Position, moves: Seq<Position>) -> nat
    decreases moves.len(),
{
    if moves.len() == 0 {
        0
    } else {
        let before = moves.drop_last();
        path_length(start, before) + l1_length(
            delta_between(last_position(start, before), moves.last()),
        )
    }
}

/// The contacts after `id` went down at `start` and moved through `moves`.
pub open spec fn touches_after_moves(
    touches: Map<u64, TouchState>,
    id: u64,
    start: Position,
    forward: bool,
    moves: Seq<Position>,
) -> Map<u64, TouchState>
    decreases moves.len(),
{
    if moves.len() == 0 {
        touch_step(touches, id, start, TouchPhase::Started, forward).0
    } else {
        touch_step(
            touches_after_moves(touches, id, start, forward, moves.drop_last()),
            id,
            moves.last(),
            TouchPhase::Moved,
            forward,
        ).0
    }
}

/// The actions asked for, in order, while `id` went down at `start` and
/// moved through `moves`.
pub open spec fn actions_after_moves(
    touches: Map<u64, TouchState>,
    id: u64,
    start: Position,
    forward: bool,
    moves: Seq<Position>,
) -> Seq<TouchAction>
    decreases moves.len(),
{
    if moves.len() == 0 {
        seq![touch_step(touches, id, start, TouchPhase::Started, forward).1]
    } else {
        actions_after_moves(touches, id, start, forward, moves.drop_last()).push(
            touch_step(
                touches_after_moves(touches, id, start, forward, moves.drop_last()),
                id,
                moves.last(),
                TouchPhase::Moved,
                forward,
            ).1,
        )
    }
}

/// The actions asked for by a whole contact: down at `start`, through
/// `moves`, up at `end`.
pub open spec fn gesture_actions(
    touches: Map<u64, TouchState>,
    id: u64,
    start: Position,
    forward: bool,
    moves: Seq<Position>,
    end: Position,
) -> Seq<TouchAction> {
    actions_after_moves(touches, id, start, forward, moves).push(
        touch_step(
            touches_after_moves(touches, id, start, forward, moves),
            id,
            end,
            TouchPhase::Ended,
            forward,
        ).1,
    )
}

/// How many of `actions` are a press.
pub open spec fn count_presses(actions: Seq<TouchAction>) -> nat
    decreases actions.len(),
{
    if actions.len() == 0 {
        0
    } else {
        count_presses(actions.drop_last()) + (if actions.last() is Press {
            1nat
        } else {
            0nat
        })
    }
}

/// How many of `actions` are a scroll.
pub open spec fn count_scrolls(actions: Seq<TouchAction>) -> nat
    decreases actions.len(),
{
    if actions.len() == 0 {
        0
    } else {
        count_scrolls(actions.drop_last()) + (if actions.last() is Scroll {
            1nat
        } else {
            0nat
        })
    }
}

/// What the recognizer remembers of a contact that went down at `start` and
/// moved through `moves`.
pub open spec fn contact_state(start: Position, forward: bool, moves: Seq<Position>) -> TouchState {
    if path_length(start, moves) > TAP_DISTANCE {
        TouchState::Moving(last_position(start, moves), forward)
    } else {
        TouchState::MovingStart(
            last_position(start, moves),
            path_length(start, moves) as u64,
            forward,
        )
    }
}

proof fn lemma_count_push(actions: Seq<TouchAction>, a: TouchAction)
    ensures
        count_presses(actions.push(a)) == count_presses(actions) + (if a is Press {
            1nat
        } else {
            0nat
        }),
        count_scrolls(actions.push(a)) == count_scrolls(actions) + (if a is Scroll {
            1nat
        } else {
            0nat
        }),
{
    assert(actions.push(a).drop_last() =~= actions);
}

/// Whatever contacts were active before, a contact that went down and moved
/// is remembered as [`contact_state`] says; until it lifts, no press is
/// asked for, and no scroll either unless the screen asked for scrolling at
/// touch-down.  The other contacts are as they were.
pub proof fn lemma_contact_while_down(
    touches: Map<u64, TouchState>,
    id: u64,
    start: Position,
    forward: bool,
    moves: Seq<Position>,
)
    ensures
        touches_after_moves(touches, id, start, forward, moves) == touches.insert(
            id,
            contact_state(start, forward, moves),
        ),
        count_presses(actions_after_moves(touches, id, start, forward, moves)) == 0,
        !forward ==> count_scrolls(actions_after_moves(touches, id, start, forward, moves)) == 0,
    decreases moves.len(),
{
    if moves.len() == 0 {
        let first = touch_step(touches, id, start, TouchPhase::Started, forward).1;
        assert(seq![first] =~= Seq::<TouchAction>::empty().push(first));
        lemma_count_push(Seq::empty(), first);
    } else {
        let before = moves.drop_last();
        lemma_contact_while_down(touches, id, start, forward, before);
        let held = touches_after_moves(touches, id, start, forward, before);
        let step = touch_step(held, id, moves.last(), TouchPhase::Moved, forward);
        lemma_count_push(actions_after_moves(touches, id, start, forward, before), step.1);
        assert(held.insert(id, moved_state(held[id], moves.last())) =~= touches.insert(
            id,
            contact_state(start, forward, moves),
        ));
    }
}

/// A contact whose travelled distance never exceeds [`TAP_DISTANCE`] asks
/// for exactly one press, when it lifts and where it lifts; and it asks for
/// no scroll if the screen declined scrolling at touch-down.
pub proof fn lemma_tap_presses_once(
    touches: Map<u64, TouchState>,
    id: u64,
    start: Position,
    forward: bool,
    moves: Seq<Position>,
    end: Position,
)
    requires
        path_length(start, moves) <= TAP_DISTANCE,
    ensures
        count_presses(gesture_actions(touches, id, start, forward, moves, end)) == 1,
        gesture_actions(touches, id, start, forward, moves, end).last() == TouchAction::Press(end),
        !forward ==> count_scrolls(gesture_actions(touches, id, start, forward, moves, end)) == 0,
{
    lemma_contact_while_down(touches, id, start, forward, moves);
    let held = touches_after_moves(touches, id, start, forward, moves);
    lemma_count_push(
        actions_after_moves(touches, id, start, forward, moves),
        touch_step(held, id, end, TouchPhase::Ended, forward).1,
    );
}

/// A contact that has travelled more than [`TAP_DISTANCE`] before it lifts
/// asks for no press at all.
pub proof fn lemma_drag_never_presses(
    touches: Map<u64, TouchState>,
    id: u64,
    start: Position,
    forward: bool,
    moves: Seq<Position>,
    end: Position,
)
    requires
        path_length(start, moves) > TAP_DISTANCE,
    ensures
        count_presses(gesture_actions(touches, id, start, forward, moves, end)) == 0,
{
    lemma_contact_while_down(touches, id, start, forward, moves);
    let held = touches_after_moves(touches, id, start, forward, moves);
    lemma_count_push(
        actions_after_moves(touches, id, start, forward, moves),
        touch_step(held, id, end, TouchPhase::Ended, forward).1,
    );
}

/// The travelled distance only grows: once a prefix of the moves has
/// exceeded [`TAP_DISTANCE`], the whole path has.
pub proof fn lemma_path_length_grows(start: Position, moves: Seq<Position>, n: int)
    requires
        0 <= n <= moves.len(),
    ensures
        path_length(start, moves.take(n)) <= path_length(start, moves),
    decreases moves.len(),
{
    if n == moves.len() {
        assert(moves.take(n) =~= moves);
    } else {
        lemma_path_length_grows(start, moves.drop_last(), n);
        assert(moves.drop_last().take(n) =~= moves.take(n));
    }
}

/// A contact that lifts or is cancelled is forgotten, whatever it did before.
pub proof fn lemma_contact_forgotten(
    touches: Map<u64, TouchState>,
    id: u64,
    position: Position,
    forward: bool,
)
    ensures
        !touch_step(touches, id, position, TouchPhase::Ended, forward).0.contains_key(id),
        !touch_step(touches, id, position, TouchPhase::Cancelled, forward).0.contains_key(id),
        touch_step(touches, id, position, TouchPhase::Cancelled, forward).1 == TouchAction::Idle,
{
}

} // verus!
