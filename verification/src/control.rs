use vstd::prelude::*;

verus! {

/// What the display loop does on its next turn.
#[derive(Debug, Clone, Copy, PartialEq, Eq, Structural)]
pub enum State {
    Running,
    Paused,
    FrameAdvance,
    InstructionAdvance,
}

/// The keys the display loop reacts to; every other key is `Other`.
#[derive(Debug, Clone, Copy, PartialEq, Eq, Structural)]
pub enum Key {
    Space,
    Right,
    Down,
    Other,
}

/// Space pauses a running loop and resumes a paused one.
pub open spec fn toggled(s: State) -> State {
    if s == State::Paused {
        State::Running
    } else {
        State::Paused
    }
}

/// The state after a key is pressed: space toggles the pause, right advances one frame,
/// down advances one instruction, and other keys change nothing.
pub open spec fn after_key(s: State, k: Key) -> State {
    match k {
        Key::Space => toggled(s),
        Key::Right => State::FrameAdvance,
        Key::Down => State::InstructionAdvance,
        Key::Other => s,
    }
}

/// The state after the loop has run a turn: a single advance pauses again.
pub open spec fn after_turn(s: State) -> State {
    match s {
        State::FrameAdvance | State::InstructionAdvance => State::Paused,
        _ => s,
    }
}

pub fn toggle_paused(state: &mut State)
    ensures
        *final(state) == toggled(*old(state)),
{
    match *state {
        State::Paused => *state = State::Running,
        _ => *state = State::Paused,
    }
}

pub fn handle_event(state: &mut State, key: Key)
    ensures
        *final(state) == after_key(*old(state), key),
{
    match key {
        Key::Space => toggle_paused(state),
        Key::Right => *state = State::FrameAdvance,
        Key::Down => *state = State::InstructionAdvance,
        Key::Other => {},
    }
}

pub fn finish_turn(state: &mut State)
    ensures
        *final(state) == after_turn(*old(state)),
{
    match *state {
        State::FrameAdvance | State::InstructionAdvance => *state = State::Paused,
        _ => {},
    }
}

/// Pressing space twice on a running or paused loop leaves it as it was.
pub proof fn lemma_toggle_twice(s: State)
    requires
        s == State::Running || s == State::Paused,
    ensures
        toggled(toggled(s)) == s,
{
}

/// After a turn the loop is never left advancing: one press of right or down runs exactly
/// one frame or one instruction.
pub proof fn lemma_single_advance(s: State, k: Key)
    ensures
        after_turn(after_key(s, k)) != State::FrameAdvance,
        after_turn(after_key(s, k)) != State::InstructionAdvance,
        (k == Key::Right || k == Key::Down) ==> after_turn(after_key(s, k)) == State::Paused,
{
}

}
