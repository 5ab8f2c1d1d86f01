use vstd::prelude::*;
use crate::geometry::Size;
use crate::models::{Actions, Obstacle, Player, MAX_FRAME_MS, OBSTACLE_RADIUS};

verus! {

/// The prompt shown once a round has ended.
pub const GAME_OVER: &'static str = "Game over! Press any key to play again";

/// The game state as mathematical values.
pub struct GameView {
    pub size: Size,
    pub player: Player,
    pub obstacles: Seq<Obstacle>,
    pub message: Option<Seq<char>>,
}

/// Each obstacle moved by `delta` milliseconds, with those that have wholly
/// left the arena dropped; the order of the rest is kept.
pub open spec fn advance_all(obstacles: Seq<Obstacle>, delta: int) -> Seq<Obstacle>
    decreases obstacles.len(),
{
    if obstacles.len() == 0 {
        Seq::empty()
    } else {
        let rest = advance_all(obstacles.drop_last(), delta);
        let moved = obstacles.last().moved(delta);
        if moved.has_exited() {
            rest
        } else {
            rest.push(moved)
        }
    }
}

impl GameView {
    /// The player stands in the arena and every obstacle stands where one may.
    pub open spec fn wf(self) -> bool {
        &&& self.player.in_arena(self.size)
        &&& forall|i: int| 0 <= i < self.obstacles.len() ==> #[trigger] self.obstacles[i].valid(self.size)
    }

    /// The state that a round starts in: the player at the centre, no
    /// obstacles and no message.
    pub open spec fn initial(size: Size) -> GameView {
        GameView { size, player: Player::start(size), obstacles: Seq::empty(), message: None }
    }

    /// The player and the obstacles moved by `delta` milliseconds of `actions`.
    pub open spec fn integrated(self, delta: int, actions: Actions) -> GameView {
        GameView {
            size: self.size,
            player: self.player.moved(self.size, delta, actions),
            obstacles: advance_all(self.obstacles, delta),
            message: self.message,
        }
    }

    /// A new obstacle entering at height `y` with leftward `speed`, after the others.
    pub open spec fn with_obstacle(self, y: int, speed: int) -> GameView {
        GameView {
            obstacles: self.obstacles.push(Obstacle::entering(self.size, y, speed)),
            ..self
        }
    }
}

/// The world: arena bounds, the player, the obstacles in spawn order and the
/// message that stands while a finished round waits for a key.
pub struct GameState {
    pub size: Size,
    pub player: Player,
    pub obstacles: Vec<Obstacle>,
    pub message: Option<String>,
}

impl View for GameState {
    type V = GameView;

    open spec fn view(&self) -> GameView {
        GameView {
            size: self.size,
            player: self.player,
            obstacles: self.obstacles@,
            message: match self.message {
                Some(m) => Some(m@),
                None => None,
            },
        }
    }
}

impl GameState {
    pub open spec fn wf(&self) -> bool {
        self@.wf()
    }

    pub fn new(size: Size) -> (r: GameState)
        ensures
            r@ == GameView::initial(size),
            r.wf(),
    {
        GameState { size, player: Player::new_start(size), obstacles: Vec::new(), message: None }
    }

    /// Starts a new round in the same arena.
    pub fn reset(&mut self)
        ensures
            final(self)@ == GameView::initial(old(self).size),
            final(self).wf(),
    {
        self.player = Player::new_start(self.size);
        self.obstacles = Vec::new();
        self.message = None;
    }

    pub fn is_finished(&self) -> (r: bool)
        ensures
            r == self@.message.is_some(),
    {
        self.message.is_some()
    }

    /// Moves the player by `actions` and every obstacle by its speed over
    /// `delta` milliseconds, clamping the player to the arena and dropping
    /// the obstacles that have left it.
    pub fn integrate(&mut self, delta: u64, actions: Actions)
        requires
            old(self).wf(),
            delta <= MAX_FRAME_MS,
        ensures
            final(self)@ == old(self)@.integrated(delta as int, actions),
            final(self).wf(),
    {
        self.player = self.player.advance(self.size, delta, actions);
        assert forall|j: int| 0 <= j < self.obstacles@.len() implies #[trigger] self.obstacles@[j].valid(self.size) by {
            assert(self@.obstacles[j] == self.obstacles@[j]);
        }
        let mut kept: Vec<Obstacle> = Vec::new();
        let mut i: usize = 0;
        while i < self.obstacles.len()
            invariant
                i <= self.obstacles@.len(),
                delta <= MAX_FRAME_MS,
                self@.wf(),
                forall|j: int| 0 <= j < self.obstacles@.len() ==> #[trigger] self.obstacles@[j].valid(self.size),
                kept@ == advance_all(self.obstacles@.take(i as int), delta as int),
                forall|j: int| 0 <= j < kept@.len() ==> #[trigger] kept@[j].valid(self.size),
            decreases self.obstacles@.len() - i,
        {
            let o = self.obstacles[i];
            assert(o.valid(self.size));
            let m = o.advance(self.size, delta);
            proof {
                assert(self.obstacles@.take(i as int + 1).drop_last() == self.obstacles@.take(i as int));
                assert(self.obstacles@.take(i as int + 1).last() == o);
            }
            if !m.exited() {
                kept.push(m);
            }
            i = i + 1;
        }
        assert(self.obstacles@.take(self.obstacles@.len() as int) == self.obstacles@);
        self.obstacles = kept;
    }

    /// Adds an obstacle entering just past the right wall at height `y`
    /// (thousandths of a pixel) moving left at `speed` pixels per second.
    pub fn spawn_obstacle(&mut self, y: i64, speed: i64)
        requires
            old(self).wf(),
            0 <= y <= old(self).size.bottom(),
            crate::models::MIN_OBSTACLE_SPEED <= speed <= crate::models::MAX_OBSTACLE_SPEED,
        ensures
            final(self)@ == old(self)@.with_obstacle(y as int, speed as int),
            final(self).wf(),
    {
        let o = Obstacle::new_entering(self.size, y, speed);
        self.obstacles.push(o);
    }

    /// Ends the round with the game-over prompt.
    pub fn finish(&mut self)
        ensures
            final(self)@ == (GameView { message: Some(GAME_OVER@), ..old(self)@ }),
    {
        self.message = Some(GAME_OVER.to_owned());
    }
}

} // verus!
