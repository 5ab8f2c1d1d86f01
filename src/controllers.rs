use vstd::prelude::*;
use rand::rngs::StdRng;
use crate::game_state::{GameState, GameView, GAME_OVER};
use crate::geometry::{circles_overlap, overlaps, Size};
use crate::models::{
    Actions, MAX_FRAME_MS, MAX_OBSTACLE_SPEED, MIN_OBSTACLE_SPEED, OBSTACLE_RADIUS, PLAYER_RADIUS,
};
use crate::random::random_between;

verus! {

/// Spawn threshold of a fresh round, in milliseconds.
pub const INITIAL_SPAWN_MS: u64 = 1000;

/// Shortest spawn threshold drawn after a spawn, in milliseconds.
pub const MIN_SPAWN_MS: u64 = 500;

/// Longest spawn threshold drawn after a spawn, in milliseconds.
pub const MAX_SPAWN_MS: u64 = 1500;

/// A notification from the simulation to the presentation layer.
#[derive(Clone, Copy, Debug, PartialEq, Eq, Structural)]
pub enum Event {
    /// A round began.
    GameStart,
    /// A new obstacle entered the arena.
    ObstacleSpawned,
    /// The player hit an obstacle and the round ended.
    Collision,
}

/// A key that the game reacts to.
#[derive(Clone, Copy, Debug, PartialEq, Eq, Structural)]
pub enum Key {
    Up,
    Down,
    Left,
    Right,
}

/// Which of the game's keys are held.
#[derive(Clone, Copy, Debug, PartialEq, Eq, Structural)]
pub struct InputController {
    pub up: bool,
    pub down: bool,
    pub left: bool,
    pub right: bool,
}

impl InputController {
    /// The same keys held, with `key` held or not as `held` says.
    pub open spec fn with_key(self, key: Key, held: bool) -> InputController {
        match key {
            Key::Up => InputController { up: held, ..self },
            Key::Down => InputController { down: held, ..self },
            Key::Left => InputController { left: held, ..self },
            Key::Right => InputController { right: held, ..self },
        }
    }

    /// The actions of the held keys: two opposite keys cancel each other.
    pub open spec fn spec_actions(self) -> Actions {
        Actions {
            move_up: self.up && !self.down,
            move_down: self.down && !self.up,
            move_left: self.left && !self.right,
            move_right: self.right && !self.left,
        }
    }

    /// No key held.
    pub open spec fn new_spec() -> InputController {
        InputController { up: false, down: false, left: false, right: false }
    }

    pub fn new() -> (r: InputController)
        ensures
            r == InputController::new_spec(),
    {
        InputController { up: false, down: false, left: false, right: false }
    }

    fn set(&mut self, key: Key, held: bool)
        ensures
            *final(self) == old(self).with_key(key, held),
    {
        match key {
            Key::Up => self.up = held,
            Key::Down => self.down = held,
            Key::Left => self.left = held,
            Key::Right => self.right = held,
        }
    }

    pub fn key_press(&mut self, key: Key)
        ensures
            *final(self) == old(self).with_key(key, true),
    {
        self.set(key, true);
    }

    pub fn key_release(&mut self, key: Key)
        ensures
            *final(self) == old(self).with_key(key, false),
    {
        self.set(key, false);
    }

    pub fn actions(&self) -> (r: Actions)
        ensures
            r == self.spec_actions(),
    {
        Actions {
            move_up: self.up && !self.down,
            move_down: self.down && !self.up,
            move_left: self.left && !self.right,
            move_right: self.right && !self.left,
        }
    }
}

/// The spawn timer: the time since the last spawn and the time at which the
/// next obstacle enters.
#[derive(Clone, Copy, Debug, PartialEq, Eq, Structural)]
pub struct TimeController {
    pub elapsed_ms: u64,
    pub threshold_ms: u64,
}

/// Draws that a spawn may use: a height inside the arena, an obstacle speed
/// and a next threshold inside their bands.
pub open spec fn valid_draw(size: Size, y: int, speed: int, next: int) -> bool {
    &&& 0 <= y <= size.bottom()
    &&& MIN_OBSTACLE_SPEED <= speed <= MAX_OBSTACLE_SPEED
    &&& MIN_SPAWN_MS <= next <= MAX_SPAWN_MS
}

impl TimeController {
    pub open spec fn wf(self) -> bool {
        &&& self.elapsed_ms < self.threshold_ms
        &&& MIN_SPAWN_MS <= self.threshold_ms <= MAX_SPAWN_MS
    }

    pub open spec fn initial() -> TimeController {
        TimeController { elapsed_ms: 0, threshold_ms: INITIAL_SPAWN_MS }
    }

    /// The timer started over, with `next` as the new threshold.
    pub open spec fn restarted(next: int) -> TimeController {
        TimeController { elapsed_ms: 0, threshold_ms: next as u64 }
    }

    /// The timer after `delta` more milliseconds without a spawn.
    pub open spec fn ticked(self, delta: int) -> TimeController {
        TimeController { elapsed_ms: (self.elapsed_ms + delta) as u64, ..self }
    }

    /// `delta` more milliseconds reach the threshold.
    pub open spec fn spawn_due(self, delta: int) -> bool {
        self.elapsed_ms + delta >= self.threshold_ms
    }

    pub fn new() -> (r: TimeController)
        ensures
            r == TimeController::initial(),
            r.wf(),
    {
        TimeController { elapsed_ms: 0, threshold_ms: INITIAL_SPAWN_MS }
    }

    pub fn reset(&mut self)
        ensures
            *final(self) == TimeController::initial(),
            final(self).wf(),
    {
        self.elapsed_ms = 0;
        self.threshold_ms = INITIAL_SPAWN_MS;
    }

    /// Spawns the obstacle that a due timer calls for, from the drawn height
    /// `y`, `speed` and `next` threshold, and starts the timer over.
    pub fn spawn(&mut self, game_state: &mut GameState, events: &mut Vec<Event>, y: u64, speed: u64, next: u64)
        requires
            old(game_state).wf(),
            valid_draw(old(game_state).size, y as int, speed as int, next as int),
        ensures
            final(game_state)@ == old(game_state)@.with_obstacle(y as int, speed as int),
            *final(self) == TimeController::restarted(next as int),
            final(events)@ == old(events)@.push(Event::ObstacleSpawned),
            final(game_state).wf(),
            final(self).wf(),
    {
        game_state.spawn_obstacle(y as i64, speed as i64);
        self.elapsed_ms = 0;
        self.threshold_ms = next;
        events.push(Event::ObstacleSpawned);
    }

    /// Advances the world by `delta` milliseconds of `actions`: the player
    /// and the obstacles move, and the spawn timer runs, spawning an obstacle
    /// drawn from `rng` when it reaches its threshold. A finished round is
    /// left as it is.
    pub fn update_seconds(
        &mut self,
        delta: u64,
        actions: Actions,
        game_state: &mut GameState,
        events: &mut Vec<Event>,
        rng: &mut StdRng,
    )
        requires
            old(self).wf(),
            old(game_state).wf(),
            delta <= MAX_FRAME_MS,
        ensures
            final(self).wf(),
            final(game_state).wf(),
            old(game_state)@.message.is_some() ==> {
                &&& final(game_state)@ == old(game_state)@
                &&& *final(self) == *old(self)
                &&& final(events)@ == old(events)@
            },
            old(game_state)@.message.is_none() && !old(self).spawn_due(delta as int) ==> {
                &&& final(game_state)@ == old(game_state)@.integrated(delta as int, actions)
                &&& *final(self) == old(self).ticked(delta as int)
                &&& final(events)@ == old(events)@
            },
            old(game_state)@.message.is_none() && old(self).spawn_due(delta as int) ==> exists|
                y: int,
                speed: int,
                next: int,
            |
                {
                    &&& valid_draw(old(game_state).size, y, speed, next)
                    &&& final(game_state)@ == old(game_state)@.integrated(delta as int, actions).with_obstacle(y, speed)
                    &&& *final(self) == TimeController::restarted(next)
                    &&& final(events)@ == old(events)@.push(Event::ObstacleSpawned)
                },
    {
        if game_state.is_finished() {
            return;
        }
        game_state.integrate(delta, actions);
        self.elapsed_ms = self.elapsed_ms + delta;
        if self.elapsed_ms >= self.threshold_ms {
            let y = random_between(rng, 0, game_state.size.bottom_edge() as u64);
            let speed = random_between(rng, MIN_OBSTACLE_SPEED as u64, MAX_OBSTACLE_SPEED as u64);
            let next = random_between(rng, MIN_SPAWN_MS, MAX_SPAWN_MS);
            self.spawn(game_state, events, y, speed, next);
            assert(valid_draw(game_state.size, y as int, speed as int, next as int));
        }
    }
}

/// The player's circle overlaps one of the obstacles' circles.
pub open spec fn player_hit(v: GameView) -> bool {
    exists|i: int|
        0 <= i < v.obstacles.len() && circles_overlap(
            v.player.position,
            PLAYER_RADIUS as int,
            #[trigger] v.obstacles[i].position,
            OBSTACLE_RADIUS as int,
        )
}

/// The state after the collision pass: a running round in which the player
/// hits an obstacle ends with the game-over prompt; any other is unchanged.
pub open spec fn after_collisions(v: GameView) -> GameView {
    if v.message.is_none() && player_hit(v) {
        GameView { message: Some(GAME_OVER@), ..v }
    } else {
        v
    }
}

/// The collision pass that runs after each integration step.
pub struct CollisionsController;

impl CollisionsController {
    /// Ends a running round in which the player overlaps an obstacle: the
    /// game-over prompt is set, a `Collision` event is appended and the spawn
    /// timer starts over. Otherwise nothing changes.
    pub fn handle_collisions(game_state: &mut GameState, time_controller: &mut TimeController, events: &mut Vec<Event>)
        requires
            old(game_state).wf(),
            old(time_controller).wf(),
        ensures
            final(game_state)@ == after_collisions(old(game_state)@),
            final(game_state).wf(),
            final(time_controller).wf(),
            old(game_state)@.message.is_none() && player_hit(old(game_state)@) ==> {
                &&& final(events)@ == old(events)@.push(Event::Collision)
                &&& *final(time_controller) == TimeController { elapsed_ms: 0, ..*old(time_controller) }
            },
            !(old(game_state)@.message.is_none() && player_hit(old(game_state)@)) ==> {
                &&& final(events)@ == old(events)@
                &&& *final(time_controller) == *old(time_controller)
            },
    {
        if game_state.is_finished() {
            return;
        }
        let mut hit = false;
        let mut i: usize = 0;
        while i < game_state.obstacles.len()
            invariant
                i <= game_state.obstacles@.len(),
                game_state.wf(),
                hit == exists|j: int|
                    0 <= j < i && circles_overlap(
                        game_state.player.position,
                        PLAYER_RADIUS as int,
                        #[trigger] game_state.obstacles@[j].position,
                        OBSTACLE_RADIUS as int,
                    ),
            decreases game_state.obstacles@.len() - i,
        {
            let o = game_state.obstacles[i];
            assert(game_state@.obstacles[i as int] == o);
            assert(o.valid(game_state.size));
            if overlaps(game_state.player.position, PLAYER_RADIUS, o.position, OBSTACLE_RADIUS) {
                hit = true;
            }
            i = i + 1;
        }
        if hit {
            game_state.finish();
            time_controller.elapsed_ms = 0;
            events.push(Event::Collision);
        }
    }
}

} // verus!
