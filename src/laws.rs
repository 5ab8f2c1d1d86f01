use vstd::prelude::*;
use crate::controllers::{after_collisions, TimeController};
use crate::game_state::{advance_all, GameView};
use crate::models::{Actions, Obstacle};

verus! {

/// Moving a valid obstacle by no time leaves it where it is, inside the arena.
proof fn obstacles_still_at_zero(v: GameView)
    requires
        v.wf(),
    ensures
        advance_all(v.obstacles, 0) == v.obstacles,
    decreases v.obstacles.len(),
{
    if v.obstacles.len() > 0 {
        let rest = GameView { obstacles: v.obstacles.drop_last(), ..v };
        assert forall|i: int| 0 <= i < rest.obstacles.len() implies #[trigger] rest.obstacles[i].valid(rest.size) by {
            assert(rest.obstacles[i] == v.obstacles[i]);
        }
        obstacles_still_at_zero(rest);
        assert(v.obstacles.last().valid(v.size));
        assert(v.obstacles.last().moved(0) == v.obstacles.last());
        assert(v.obstacles.drop_last().push(v.obstacles.last()) == v.obstacles);
    }
}

/// Where no obstacle leaves the arena, moving them keeps their number.
proof fn none_leave_keeps_count(obstacles: Seq<Obstacle>, delta: int)
    requires
        forall|i: int| 0 <= i < obstacles.len() ==> !(#[trigger] obstacles[i]).moved(delta).has_exited(),
    ensures
        advance_all(obstacles, delta).len() == obstacles.len(),
    decreases obstacles.len(),
{
    if obstacles.len() > 0 {
        let rest = obstacles.drop_last();
        assert forall|i: int| 0 <= i < rest.len() implies !(#[trigger] rest[i]).moved(delta).has_exited() by {
            assert(rest[i] == obstacles[i]);
        }
        none_leave_keeps_count(rest, delta);
        assert(!obstacles[obstacles.len() - 1].moved(delta).has_exited());
    }
}

/// After a frame of any non-negative length, with or without a spawn and
/// after the collision pass, the player stands inside the arena.
pub proof fn player_stays_in_arena(v: GameView, delta: int, actions: Actions, y: int, speed: int)
    requires
        v.wf(),
        delta >= 0,
    ensures
        v.integrated(delta, actions).player.in_arena(v.size),
        after_collisions(v.integrated(delta, actions)).player.in_arena(v.size),
        after_collisions(v.integrated(delta, actions).with_obstacle(y, speed)).player.in_arena(v.size),
{
}

/// A frame of length zero moves nothing and spawns nothing.
pub proof fn zero_frame_changes_nothing(time_controller: TimeController, v: GameView, actions: Actions)
    requires
        time_controller.wf(),
        v.wf(),
    ensures
        v.integrated(0, actions) == v,
        !time_controller.spawn_due(0),
{
    obstacles_still_at_zero(v);
    assert(v.player.moved(v.size, 0, actions) == v.player);
}

/// Once a round has ended, the collision pass leaves the world unchanged; the
/// integrator does too (see `TimeController::update_seconds`), so only a
/// reset clears the message.
pub proof fn finished_round_is_frozen(v: GameView)
    requires
        v.message.is_some(),
    ensures
        after_collisions(v) == v,
        after_collisions(v).message == v.message,
{
}

/// A frame that reaches the spawn threshold adds exactly one obstacle where
/// none leaves the arena; one that does not reach it adds none.
pub proof fn spawn_adds_exactly_one(v: GameView, delta: int, actions: Actions, y: int, speed: int)
    requires
        forall|i: int| 0 <= i < v.obstacles.len() ==> !(#[trigger] v.obstacles[i]).moved(delta).has_exited(),
    ensures
        v.integrated(delta, actions).with_obstacle(y, speed).obstacles.len() == v.obstacles.len() + 1,
        v.integrated(delta, actions).obstacles.len() == v.obstacles.len(),
{
    none_leave_keeps_count(v.obstacles, delta);
}

} // verus!
