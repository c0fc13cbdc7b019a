//! The decisions of the window: how the keys held in a frame move the
//! avatar, when a pointer position counts, and when the start button starts
//! the OSC connection.
use vstd::prelude::*;
use crate::input::{Axis, InputHandler, InputState};

verus! {

/// The keys the window reads in one frame, each `true` while it is held.
#[derive(Clone, Copy, Debug, PartialEq, Eq, Structural)]
pub struct KeysDown {
    pub arrow_right: bool,
    pub arrow_left: bool,
    pub w: bool,
    pub a: bool,
    pub s: bool,
    pub d: bool,
}

/// The state after the keys of one frame: the arrows steer the looking
/// direction, W and S the vertical movement, A and D the horizontal
/// movement. Where both keys of a pair are held, the one read later (left
/// arrow, S, D) wins; an axis whose keys are all released keeps its value.
pub open spec fn after_keys(s: InputState, k: KeysDown) -> InputState {
    InputState {
        looking: if k.arrow_left {
            Axis::Negative
        } else if k.arrow_right {
            Axis::Positive
        } else {
            s.looking
        },
        vertical: if k.s {
            Axis::Negative
        } else if k.w {
            Axis::Positive
        } else {
            s.vertical
        },
        horizontal: if k.d {
            Axis::Positive
        } else if k.a {
            Axis::Negative
        } else {
            s.horizontal
        },
    }
}

/// Applies the keys held in one frame to the input handler, in the order
/// the window reads them: right arrow, left arrow, W, A, S, D.
pub fn apply_keys(handler: &mut InputHandler, keys: &KeysDown)
    ensures
        final(handler)@ == after_keys(old(handler)@, *keys),
        keys.d ==> final(handler)@.horizontal == Axis::Positive,
        keys.a && !keys.d ==> final(handler)@.horizontal == Axis::Negative,
        !keys.a && !keys.d ==> final(handler)@.horizontal == old(handler)@.horizontal,
        keys.s ==> final(handler)@.vertical == Axis::Negative,
        keys.w && !keys.s ==> final(handler)@.vertical == Axis::Positive,
        !keys.w && !keys.s ==> final(handler)@.vertical == old(handler)@.vertical,
        keys.arrow_left ==> final(handler)@.looking == Axis::Negative,
        keys.arrow_right && !keys.arrow_left ==> final(handler)@.looking == Axis::Positive,
        !keys.arrow_right && !keys.arrow_left ==> final(handler)@.looking == old(handler)@.looking,
{
    proof {
        lemma_keys_drive_axes(old(handler)@, *keys);
    }
    if keys.arrow_right {
        handler.look_right();
    }
    if keys.arrow_left {
        handler.look_left();
    }
    if keys.w {
        handler.mov_forward();
    }
    if keys.a {
        handler.mov_left();
    }
    if keys.s {
        handler.mov_backward();
    }
    if keys.d {
        handler.mov_right();
    }
}

/// Returns the position at which the pointer interacts, which counts only
/// while a pointer button is down.
pub fn get_interact_pos<T>(any_down: bool, interact_pos: Option<T>) -> (pos: Option<T>)
    ensures
        pos == (if any_down {
            interact_pos
        } else {
            None
        }),
{
    if !any_down {
        return None;
    }
    interact_pos
}

/// Whether a frame starts the OSC connection: the start button was clicked
/// and the connection has not been started yet.
pub fn start_requested(clicked: bool, osc_started: bool) -> (start: bool)
    ensures
        start == (clicked && !osc_started),
{
    clicked && !osc_started
}

/// Whether the OSC connection counts as started after a frame: it stays
/// started once started; otherwise it becomes started when the start button
/// was clicked and the start-up that the click began succeeded.
pub fn next_started(osc_started: bool, clicked: bool, start_ok: bool) -> (started: bool)
    ensures
        started == (osc_started || (clicked && !osc_started && start_ok)),
{
    if start_requested(clicked, osc_started) {
        start_ok
    } else {
        osc_started
    }
}

/// What each key does, whatever the state before: D moves right and A
/// left, W forward and S backward, the right arrow looks right and the left
/// arrow left; of two opposite keys held together D, S and the left arrow
/// win; an axis with neither of its keys held keeps its value.
pub proof fn lemma_keys_drive_axes(s: InputState, k: KeysDown)
    ensures
        k.d ==> after_keys(s, k).horizontal == Axis::Positive,
        k.a && !k.d ==> after_keys(s, k).horizontal == Axis::Negative,
        !k.a && !k.d ==> after_keys(s, k).horizontal == s.horizontal,
        k.s ==> after_keys(s, k).vertical == Axis::Negative,
        k.w && !k.s ==> after_keys(s, k).vertical == Axis::Positive,
        !k.w && !k.s ==> after_keys(s, k).vertical == s.vertical,
        k.arrow_left ==> after_keys(s, k).looking == Axis::Negative,
        k.arrow_right && !k.arrow_left ==> after_keys(s, k).looking == Axis::Positive,
        !k.arrow_right && !k.arrow_left ==> after_keys(s, k).looking == s.looking,
{
}

/// Holding no key leaves the input unchanged, and a frame's keys depend only
/// on which keys are held, not on how often they are applied: applying the
/// same keys twice gives the state of applying them once.
pub proof fn lemma_keys_idempotent(s: InputState, k: KeysDown)
    ensures
        after_keys(after_keys(s, k), k) == after_keys(s, k),
        after_keys(
            s,
            KeysDown { arrow_right: false, arrow_left: false, w: false, a: false, s: false, d: false },
        ) == s,
{
}

} // verus!
