//! The event loop's state machine.
//!
//! Each iteration of the render loop polls the windowing system and
//! hands every queued input event to `step`. The loop has two states:
//! it keeps running until an Escape key press is seen, after which it
//! is closing and stays closing. All other input is ignored.

use vstd::prelude::*;

verus! {

/// The state of the render loop.
#[derive(Clone, Copy, Debug, PartialEq, Eq, Structural)]
pub enum LoopState {
    /// The loop renders a frame each iteration and keeps polling.
    Running,
    /// A close was requested; the loop exits after this iteration.
    Closing,
}

/// The key of a key event, reduced to what the loop decides on.
#[derive(Clone, Copy, Debug, PartialEq, Eq, Structural)]
pub enum KeyCode {
    /// The Escape key, the one key that requests a close.
    Escape,
    /// Any other key.
    Other,
}

/// What happened to the key.
#[derive(Clone, Copy, Debug, PartialEq, Eq, Structural)]
pub enum KeyAction {
    Press,
    Release,
    Repeat,
}

/// One input event, as the loop sees it.
#[derive(Clone, Copy, Debug, PartialEq, Eq, Structural)]
pub enum InputEvent {
    /// A key event: which key and what happened to it.
    Key(KeyCode, KeyAction),
    /// Any event that is not a key event.
    Other,
}

/// Whether one event requests a close: a press of Escape.
pub open spec fn requests_close(e: InputEvent) -> bool {
    e == InputEvent::Key(KeyCode::Escape, KeyAction::Press)
}

/// The state after one event: a press of Escape closes, closing is
/// final, and every other event leaves the state unchanged.
pub open spec fn step_spec(s: LoopState, e: InputEvent) -> LoopState {
    if s is Closing || requests_close(e) {
        LoopState::Closing
    } else {
        LoopState::Running
    }
}

/// The state after a whole batch of events, in order.
pub open spec fn run_events(s: LoopState, evs: Seq<InputEvent>) -> LoopState
    decreases evs.len(),
{
    if evs.len() == 0 {
        s
    } else {
        run_events(step_spec(s, evs[0]), evs.skip(1))
    }
}

/// Feed one event to the loop: an Escape press requests a close, a
/// requested close is never withdrawn, and any other event leaves the
/// state as it was.
pub fn step(s: LoopState, e: &InputEvent) -> (r: LoopState)
    ensures
        r == step_spec(s, *e),
        r is Closing <==> (s is Closing || requests_close(*e)),
{
    match s {
        LoopState::Closing => LoopState::Closing,
        LoopState::Running => match e {
            InputEvent::Key(KeyCode::Escape, KeyAction::Press) => LoopState::Closing,
            _ => LoopState::Running,
        },
    }
}

/// Feed every event of one poll iteration to the loop, in order.
pub fn drain_events(s: LoopState, evs: &Vec<InputEvent>) -> (r: LoopState)
    ensures
        r == run_events(s, evs@),
{
    let mut st = s;
    let n = evs.len();
    proof {
        assert(evs@.skip(0) =~= evs@);
    }
    for i in 0..n
        invariant
            n == evs@.len(),
            run_events(st, evs@.skip(i as int)) == run_events(s, evs@),
    {
        proof {
            assert(evs@.skip(i as int)[0] == evs@[i as int]);
            assert(evs@.skip(i as int).skip(1) =~= evs@.skip(i + 1));
        }
        st = step(st, &evs[i]);
    }
    proof {
        assert(evs@.skip(n as int) =~= Seq::<InputEvent>::empty());
    }
    st
}

/// A batch of events ends in the closing state exactly when the loop
/// was already closing or some event in the batch is an Escape press;
/// otherwise the batch leaves the state unchanged.
pub proof fn lemma_run_events_close(s: LoopState, evs: Seq<InputEvent>)
    ensures
        run_events(s, evs) is Closing <==> (s is Closing || exists|i: int|
            0 <= i < evs.len() && requests_close(evs[i])),
    decreases evs.len(),
{
    if evs.len() == 0 {
    } else {
        lemma_run_events_close(step_spec(s, evs[0]), evs.skip(1));
        if step_spec(s, evs[0]) is Closing {
            assert(s is Closing || requests_close(evs[0]));
        }
        if exists|i: int| 0 <= i < evs.skip(1).len() && requests_close(evs.skip(1)[i]) {
            let i = choose|i: int| 0 <= i < evs.skip(1).len() && requests_close(evs.skip(1)[i]);
            assert(requests_close(evs[i + 1]));
        }
        if exists|i: int| 0 <= i < evs.len() && requests_close(evs[i]) {
            let i = choose|i: int| 0 <= i < evs.len() && requests_close(evs[i]);
            if i > 0 {
                assert(evs.skip(1)[i - 1] == evs[i]);
            }
        }
    }
}

} // verus!
