use crate::player::{opposite, Direction, Player, PlayerView};
use vstd::prelude::*;

verus! {

/// One discrete input event, already decoded from the platform's event
/// queue: a quit signal, one of the recognised key presses, or anything
/// else.
#[derive(Clone, Copy, Debug, PartialEq, Eq, Structural)]
pub enum GameInput {
    Quit,
    PressEscape,
    PressUp,
    PressDown,
    PressLeft,
    PressRight,
    PressGrow,
    Other,
}

/// The direction after a steering request: the request wins unless it is
/// the exact opposite of the current direction, which is ignored.
pub open spec fn steer(current: Direction, requested: Direction) -> Direction {
    if requested == opposite(current) {
        current
    } else {
        requested
    }
}

/// Whether an event asks the game loop to stop.
pub open spec fn quits(event: GameInput) -> bool {
    event == GameInput::Quit || event == GameInput::PressEscape
}

/// What one input event does to the player: arrow keys steer (under the
/// opposite-direction lock), the debug grow key lengthens the snake by one,
/// everything else leaves the player alone.
pub open spec fn handle_spec(v: PlayerView, event: GameInput) -> PlayerView {
    match event {
        GameInput::PressUp => PlayerView {
            current_direction: steer(v.current_direction, Direction::Up),
            ..v
        },
        GameInput::PressDown => PlayerView {
            current_direction: steer(v.current_direction, Direction::Down),
            ..v
        },
        GameInput::PressLeft => PlayerView {
            current_direction: steer(v.current_direction, Direction::Left),
            ..v
        },
        GameInput::PressRight => PlayerView {
            current_direction: steer(v.current_direction, Direction::Right),
            ..v
        },
        GameInput::PressGrow => PlayerView { length: v.length + 1, ..v },
        _ => v,
    }
}

/// Apply one input event to the player.  Returns true iff the event asks
/// the game loop to stop; a stopping event changes nothing.
pub fn event_handler(event: GameInput, player: &mut Player) -> (quit: bool)
    requires
        event == GameInput::PressGrow ==> old(player).length < u32::MAX,
    ensures
        quit == quits(event),
        final(player)@ == handle_spec(old(player)@, event),
{
    match event {
        GameInput::Quit | GameInput::PressEscape => true,
        GameInput::PressUp => {
            if player.current_direction != Direction::Down {
                player.current_direction = Direction::Up;
            }
            false
        },
        GameInput::PressDown => {
            if player.current_direction != Direction::Up {
                player.current_direction = Direction::Down;
            }
            false
        },
        GameInput::PressRight => {
            if player.current_direction != Direction::Left {
                player.current_direction = Direction::Right;
            }
            false
        },
        GameInput::PressLeft => {
            if player.current_direction != Direction::Right {
                player.current_direction = Direction::Left;
            }
            false
        },
        GameInput::PressGrow => {
            player.length = player.length + 1;
            false
        },
        GameInput::Other => false,
    }
}

/// Opposite-direction lock: whenever the requested direction is the exact
/// opposite of the current one, steering leaves the direction unchanged.
pub proof fn lemma_opposite_direction_lock(current: Direction, requested: Direction)
    requires
        requested == opposite(current),
    ensures
        steer(current, requested) == current,
{
}

} // verus!
