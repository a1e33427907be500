use vstd::prelude::*;
use crate::geometry::Direction;
use crate::game::{Game, GameView, clock_floor_spec, toggled, updated};
use crate::snake::turned;

verus! {

/// Milliseconds between two simulation ticks.
pub const FRAME_MS: u64 = 300;

/// A key press, as far as the game tells keys apart.
#[derive(Clone, Copy, Debug, PartialEq, Eq, Structural)]
pub enum Key {
    Up,
    Down,
    Left,
    Right,
    Pause,
    Escape,
    Retry,
    Enter,
    Other,
}

/// What the end screen does with a key.
#[derive(Clone, Copy, Debug, PartialEq, Eq, Structural)]
pub enum EndChoice {
    Retry,
    Exit,
    Wait,
}

/// What one pass of the play loop asks of its driver.
#[derive(Clone, Copy, Debug, PartialEq, Eq, Structural)]
pub struct PassOutcome {
    /// The game ticked: draw it and restart the tick clock.
    pub ticked: bool,
    /// Leave the play loop.
    pub quit: bool,
}

/// The heading that an arrow key asks for.
pub open spec fn key_direction_spec(k: Key) -> Option<Direction> {
    match k {
        Key::Up => Some(Direction::Up),
        Key::Down => Some(Direction::Down),
        Key::Left => Some(Direction::Left),
        Key::Right => Some(Direction::Right),
        _ => None,
    }
}

/// The game after a turn request, if any.
pub open spec fn steered(v: GameView, queued: Option<Direction>) -> GameView {
    match queued {
        Some(d) => GameView { heading: turned(v.heading, d), ..v },
        None => v,
    }
}

/// Whether a tick is due at `now` when the last one was at `last_tick`.
pub open spec fn tick_due_spec(last_tick: u64, now: u64) -> bool {
    now >= last_tick && now - last_tick >= FRAME_MS
}

/// The heading that an arrow key asks for; other keys ask for none.
pub fn key_direction(k: Key) -> (r: Option<Direction>)
    ensures
        r == key_direction_spec(k),
{
    match k {
        Key::Up => Some(Direction::Up),
        Key::Down => Some(Direction::Down),
        Key::Left => Some(Direction::Left),
        Key::Right => Some(Direction::Right),
        _ => None,
    }
}

/// The end screen starts a new game on the retry key, ends on Enter, and
/// waits on any other key.
pub fn end_choice(k: Key) -> (r: EndChoice)
    ensures
        k == Key::Retry ==> r == EndChoice::Retry,
        k == Key::Enter ==> r == EndChoice::Exit,
        k != Key::Retry && k != Key::Enter ==> r == EndChoice::Wait,
{
    match k {
        Key::Retry => EndChoice::Retry,
        Key::Enter => EndChoice::Exit,
        _ => EndChoice::Wait,
    }
}

/// Whether a tick is due at `now` when the last one was at `last_tick`.
pub fn tick_due(last_tick: u64, now: u64) -> (r: bool)
    ensures
        r == tick_due_spec(last_tick, now),
{
    now >= last_tick && now - last_tick >= FRAME_MS
}

/// Minutes and seconds of a span of `ms` milliseconds, whole seconds only.
pub fn clock_face(ms: u64) -> (r: (u64, u64))
    ensures
        r.0 == ms / 1000 / 60,
        r.1 == ms / 1000 % 60,
        r.1 < 60,
{
    let secs = ms / 1000;
    (secs / 60, secs % 60)
}

impl Game {
    /// One pass of the play loop at `now`. `polled` is the key read by the
    /// poll, if any; `queued` the turn taken from the input queue, if any.
    /// Escape leaves at once. Otherwise the pause key toggles the pause, the
    /// queued turn is applied, a due tick updates the game, and the loop is
    /// left once the game is won or lost.
    pub fn play_pass(
        &mut self,
        polled: Option<Key>,
        queued: Option<Direction>,
        now: u64,
        last_tick: u64,
    ) -> (r: PassOutcome)
        requires
            old(self).wf(),
            now >= clock_floor_spec(old(self)@),
        ensures
            final(self).wf(),
            polled == Some(Key::Escape) ==> final(self)@ == old(self)@ && r.quit && !r.ticked,
            polled != Some(Key::Escape) ==> {
                let paused = if polled == Some(Key::Pause) {
                    toggled(old(self)@, now)
                } else {
                    old(self)@
                };
                let turned_to = steered(paused, queued);
                &&& r.ticked == tick_due_spec(last_tick, now)
                &&& r.ticked ==> updated(turned_to, now, final(self)@)
                &&& !r.ticked ==> final(self)@ == turned_to
                &&& r.quit == (final(self)@.over || final(self)@.won)
            },
    {
        if polled == Some(Key::Escape) {
            return PassOutcome { ticked: false, quit: true };
        }
        if polled == Some(Key::Pause) {
            self.toggle_pause(now);
        }
        match queued {
            Some(d) => self.change_direction(d),
            None => {},
        }
        let ticked = tick_due(last_tick, now);
        if ticked {
            self.update(now);
        }
        PassOutcome { ticked, quit: self.is_finished() }
    }
}

} // verus!
