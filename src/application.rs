use vstd::prelude::*;
use rand::rngs::StdRng;
use crate::controllers::{
    after_collisions, player_hit, valid_draw, CollisionsController, Event, InputController, Key,
    TimeController,
};
use crate::game_state::{GameState, GameView};
use crate::geometry::Size;
use crate::models::MAX_FRAME_MS;

verus! {

/// Events that the collision pass appends on a state that it sees.
pub open spec fn collision_events(v: GameView) -> Seq<Event> {
    if v.message.is_none() && player_hit(v) {
        seq![Event::Collision]
    } else {
        Seq::empty()
    }
}

/// A frame's length as the integrator takes it: at most `MAX_FRAME_MS`.
pub open spec fn frame_length(delta: int) -> int {
    if delta > MAX_FRAME_MS {
        MAX_FRAME_MS as int
    } else {
        delta
    }
}

/// The application's state: the world, the controllers that drive it, the
/// events waiting for the presentation layer and the source of randomness.
pub struct ApplicationState {
    /// The game runs only while its window has focus.
    pub has_focus: bool,
    pub game_state: GameState,
    pub time_controller: TimeController,
    pub input_controller: InputController,
    /// Events appended during a frame, drained once by the presentation layer.
    pub event_buffer: Vec<Event>,
    pub rng: StdRng,
}

impl ApplicationState {
    pub open spec fn wf(&self) -> bool {
        self.game_state.wf() && self.time_controller.wf()
    }

    pub fn new(game_size: Size, rng: StdRng) -> (r: ApplicationState)
        ensures
            r.wf(),
            r.has_focus,
            r.game_state@ == GameView::initial(game_size),
            r.time_controller == TimeController::initial(),
            r.input_controller == InputController::new_spec(),
            r.event_buffer@ == Seq::<Event>::empty(),
    {
        ApplicationState {
            has_focus: true,
            game_state: GameState::new(game_size),
            time_controller: TimeController::new(),
            input_controller: InputController::new(),
            event_buffer: Vec::new(),
            rng,
        }
    }

    /// Starts a new round in the same arena and announces it.
    pub fn reset(&mut self)
        requires
            old(self).wf(),
        ensures
            final(self).wf(),
            final(self).game_state@ == GameView::initial(old(self).game_state.size),
            final(self).time_controller == TimeController::initial(),
            final(self).event_buffer@ == old(self).event_buffer@.push(Event::GameStart),
            final(self).has_focus == old(self).has_focus,
            final(self).input_controller == old(self).input_controller,
    {
        self.time_controller.reset();
        self.game_state.reset();
        self.event_buffer.push(Event::GameStart);
    }

    /// Runs one frame of `delta` milliseconds: integration, then the collision
    /// pass. Nothing happens while the window lacks focus; a frame longer than
    /// `MAX_FRAME_MS` counts as `MAX_FRAME_MS`.
    pub fn update(&mut self, delta: u64)
        requires
            old(self).wf(),
        ensures
            final(self).wf(),
            final(self).has_focus == old(self).has_focus,
            final(self).input_controller == old(self).input_controller,
            !old(self).has_focus ==> {
                &&& final(self).game_state@ == old(self).game_state@
                &&& final(self).time_controller == old(self).time_controller
                &&& final(self).event_buffer@ == old(self).event_buffer@
            },
            old(self).has_focus && old(self).game_state@.message.is_some() ==> {
                &&& final(self).game_state@ == old(self).game_state@
                &&& final(self).time_controller == old(self).time_controller
                &&& final(self).event_buffer@ == old(self).event_buffer@
            },
            old(self).has_focus && old(self).game_state@.message.is_none()
                && !old(self).time_controller.spawn_due(frame_length(delta as int)) ==> {
                let moved = old(self).game_state@.integrated(
                    frame_length(delta as int),
                    old(self).input_controller.spec_actions(),
                );
                &&& final(self).game_state@ == after_collisions(moved)
                &&& final(self).event_buffer@ == old(self).event_buffer@ + collision_events(moved)
            },
            old(self).has_focus && old(self).game_state@.message.is_none()
                && old(self).time_controller.spawn_due(frame_length(delta as int)) ==> exists|
                y: int,
                speed: int,
                next: int,
            |
                {
                    let moved = old(self).game_state@.integrated(
                        frame_length(delta as int),
                        old(self).input_controller.spec_actions(),
                    ).with_obstacle(y, speed);
                    &&& #[trigger] valid_draw(old(self).game_state.size, y, speed, next)
                    &&& final(self).game_state@ == after_collisions(moved)
                    &&& final(self).event_buffer@ == old(self).event_buffer@.push(
                        Event::ObstacleSpawned,
                    ) + collision_events(moved)
                },
    {
        if !self.has_focus {
            return;
        }
        let frame: u64 = if delta > MAX_FRAME_MS { MAX_FRAME_MS } else { delta };
        let actions = self.input_controller.actions();
        self.time_controller.update_seconds(
            frame,
            actions,
            &mut self.game_state,
            &mut self.event_buffer,
            &mut self.rng,
        );
        CollisionsController::handle_collisions(
            &mut self.game_state,
            &mut self.time_controller,
            &mut self.event_buffer,
        );
    }

    /// A key went down. A finished round starts over first, whatever the
    /// key; then a key of the game is marked as held.
    pub fn key_down_event(&mut self, key: Option<Key>)
        requires
            old(self).wf(),
        ensures
            final(self).wf(),
            final(self).has_focus == old(self).has_focus,
            old(self).game_state@.message.is_some() ==> {
                &&& final(self).game_state@ == GameView::initial(old(self).game_state.size)
                &&& final(self).time_controller == TimeController::initial()
                &&& final(self).event_buffer@ == old(self).event_buffer@.push(Event::GameStart)
            },
            old(self).game_state@.message.is_none() ==> {
                &&& final(self).game_state@ == old(self).game_state@
                &&& final(self).time_controller == old(self).time_controller
                &&& final(self).event_buffer@ == old(self).event_buffer@
            },
            final(self).input_controller == match key {
                Some(k) => old(self).input_controller.with_key(k, true),
                None => old(self).input_controller,
            },
    {
        if self.game_state.is_finished() {
            self.reset();
        }
        if let Some(k) = key {
            self.input_controller.key_press(k);
        }
    }

    /// A key went up; a key of the game is no longer held.
    pub fn key_up_event(&mut self, key: Option<Key>)
        ensures
            final(self).input_controller == match key {
                Some(k) => old(self).input_controller.with_key(k, false),
                None => old(self).input_controller,
            },
            final(self).game_state@ == old(self).game_state@,
            final(self).time_controller == old(self).time_controller,
            final(self).event_buffer@ == old(self).event_buffer@,
            final(self).has_focus == old(self).has_focus,
    {
        if let Some(k) = key {
            self.input_controller.key_release(k);
        }
    }

    /// The window gained or lost focus.
    pub fn focus_event(&mut self, has_focus: bool)
        ensures
            final(self).has_focus == has_focus,
            final(self).game_state@ == old(self).game_state@,
            final(self).time_controller == old(self).time_controller,
            final(self).input_controller == old(self).input_controller,
            final(self).event_buffer@ == old(self).event_buffer@,
    {
        self.has_focus = has_focus;
    }

    /// Hands the frame's events to the presentation layer, oldest first, and
    /// leaves the buffer empty.
    pub fn drain_events(&mut self) -> (r: Vec<Event>)
        ensures
            r@ == old(self).event_buffer@,
            final(self).event_buffer@ == Seq::<Event>::empty(),
            final(self).game_state@ == old(self).game_state@,
            final(self).time_controller == old(self).time_controller,
            final(self).input_controller == old(self).input_controller,
            final(self).has_focus == old(self).has_focus,
    {
        let mut drained: Vec<Event> = Vec::new();
        drained.append(&mut self.event_buffer);
        drained
    }
}

} // verus!
