use crate::border::Border;
use crate::config::RECT_SIZE;
use crate::food::Food;
use crate::player::{advance_spec, can_step, eat_spec, Player, PlayerView};
use vstd::prelude::*;

verus! {

/// One frame of the simulation, after input has been applied: first the
/// border check (a hit ends the game with nothing else happening this
/// frame), then the food check (a reached food is marked unspawned and the
/// snake grows and speeds up), then the per-frame advance of head and tail.
pub open spec fn step_spec(p: PlayerView, food: Food, border: Border) -> (PlayerView, Food, bool) {
    if Player::hit_spec(p.position, border) {
        (p, food, true)
    } else {
        let ate = p.position.intersects_spec(food.pos, RECT_SIZE / 2);
        let p2 = if ate {
            eat_spec(p)
        } else {
            p
        };
        let f2 = Food { pos: food.pos, is_spawned: food.is_spawned && !ate };
        (advance_spec(p2), f2, false)
    }
}

/// Run one frame of the simulation on the live state.  Returns true iff the
/// snake died on the border this frame; the caller's loop then stops.
/// Respawning an eaten food happens separately, in [`Food::spawn`], as part
/// of the next render pass.
pub fn step_frame(player: &mut Player, food: &mut Food, border: &Border) -> (game_over: bool)
    requires
        old(player).wf(),
        can_step(old(player).position),
        old(player).length < u32::MAX,
        old(player).speed < u32::MAX,
    ensures
        (final(player)@, *final(food), game_over) == step_spec(old(player)@, *old(food), *border),
        final(player).wf(),
{
    if player.check_hit(border) {
        return true;
    }
    if player.check_food(food) {
        player.eat_food();
    }
    player.advance();
    false
}

} // verus!
