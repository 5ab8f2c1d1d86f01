use rand::rngs::StdRng;
use rand::SeedableRng;
use rocket::{
    overlaps, Actions, ApplicationState, CollisionsController, Event, GameState, InputController,
    Key, Point, Size, TimeController, GAME_OVER, INITIAL_SPAWN_MS, MAX_OBSTACLE_SPEED,
    MAX_SPAWN_MS, MIN_OBSTACLE_SPEED, MIN_SPAWN_MS, OBSTACLE_RADIUS, PLAYER_RADIUS,
};

fn seeded() -> StdRng {
    StdRng::seed_from_u64(42)
}

#[test]
fn new_state_has_player_at_centre() {
    let gs = GameState::new(Size::new(800, 600));
    assert_eq!(gs.player.position, Point::new(400_000, 300_000));
    assert!(gs.obstacles.is_empty());
    assert!(gs.message.is_none());
}

#[test]
fn scenario_idle_frames_only_spawn() {
    let mut gs = GameState::new(Size::new(800, 600));
    let mut tc = TimeController::new();
    let mut events = Vec::new();
    let mut rng = seeded();
    for _ in 0..100 {
        tc.update_seconds(16, Actions::none(), &mut gs, &mut events, &mut rng);
    }
    assert_eq!(gs.player.position, Point::new(400_000, 300_000));
    assert!(gs.message.is_none());
    assert!(!events.is_empty());
    assert!(events.iter().all(|e| *e == Event::ObstacleSpawned));
    assert_eq!(events.len(), gs.obstacles.len());
    for o in &gs.obstacles {
        assert!(o.speed >= MIN_OBSTACLE_SPEED && o.speed <= MAX_OBSTACLE_SPEED);
        assert!(o.position.y >= 0 && o.position.y <= 600_000);
    }
    assert!(tc.threshold_ms >= MIN_SPAWN_MS && tc.threshold_ms <= MAX_SPAWN_MS);
}

#[test]
fn first_spawn_comes_at_initial_threshold() {
    let mut gs = GameState::new(Size::new(800, 600));
    let mut tc = TimeController::new();
    let mut events = Vec::new();
    let mut rng = seeded();
    tc.update_seconds(INITIAL_SPAWN_MS - 1, Actions::none(), &mut gs, &mut events, &mut rng);
    assert_eq!(gs.obstacles.len(), 0);
    assert_eq!(tc.elapsed_ms, INITIAL_SPAWN_MS - 1);
    tc.update_seconds(1, Actions::none(), &mut gs, &mut events, &mut rng);
    assert_eq!(gs.obstacles.len(), 1);
    assert_eq!(events, vec![Event::ObstacleSpawned]);
    assert_eq!(tc.elapsed_ms, 0);
    assert_eq!(gs.obstacles[0].position.x, 800_000 + OBSTACLE_RADIUS);
}

#[test]
fn spawn_uses_drawn_values() {
    let mut gs = GameState::new(Size::new(800, 600));
    let mut tc = TimeController::new();
    let mut events = Vec::new();
    tc.spawn(&mut gs, &mut events, 123_000, 250, 700);
    assert_eq!(gs.obstacles.len(), 1);
    assert_eq!(gs.obstacles[0].position, Point::new(815_000, 123_000));
    assert_eq!(gs.obstacles[0].speed, 250);
    assert_eq!(tc.elapsed_ms, 0);
    assert_eq!(tc.threshold_ms, 700);
    assert_eq!(events, vec![Event::ObstacleSpawned]);
}

#[test]
fn scenario_collision_ends_round() {
    let mut gs = GameState::new(Size::new(10, 10));
    let mut tc = TimeController::new();
    let mut events = Vec::new();
    gs.spawn_obstacle(5_000, 100);
    CollisionsController::handle_collisions(&mut gs, &mut tc, &mut events);
    assert_eq!(gs.message.as_deref(), Some(GAME_OVER));
    assert_eq!(events, vec![Event::Collision]);
    let player = gs.player;
    let obstacles = gs.obstacles.clone();
    let mut rng = seeded();
    tc.update_seconds(16, Actions::none(), &mut gs, &mut events, &mut rng);
    assert_eq!(gs.player, player);
    assert_eq!(gs.obstacles, obstacles);
    assert_eq!(events, vec![Event::Collision]);
}

#[test]
fn finished_round_stays_frozen() {
    let mut gs = GameState::new(Size::new(10, 10));
    let mut tc = TimeController::new();
    let mut events = Vec::new();
    let mut rng = seeded();
    gs.spawn_obstacle(5_000, 100);
    CollisionsController::handle_collisions(&mut gs, &mut tc, &mut events);
    let player = gs.player;
    let obstacles = gs.obstacles.clone();
    for _ in 0..20 {
        let up = Actions { move_up: true, move_down: false, move_left: false, move_right: false };
        tc.update_seconds(500, up, &mut gs, &mut events, &mut rng);
        CollisionsController::handle_collisions(&mut gs, &mut tc, &mut events);
    }
    assert_eq!(gs.player, player);
    assert_eq!(gs.obstacles, obstacles);
    assert_eq!(gs.message.as_deref(), Some(GAME_OVER));
    assert_eq!(events, vec![Event::Collision]);
    gs.reset();
    assert!(gs.message.is_none());
}

#[test]
fn no_collision_is_a_no_op() {
    let mut gs = GameState::new(Size::new(800, 600));
    let mut tc = TimeController::new();
    let mut events = Vec::new();
    gs.spawn_obstacle(0, 100);
    tc.elapsed_ms = 300;
    CollisionsController::handle_collisions(&mut gs, &mut tc, &mut events);
    assert!(gs.message.is_none());
    assert!(events.is_empty());
    assert_eq!(tc.elapsed_ms, 300);
}

#[test]
fn scenario_move_up_for_one_second() {
    let mut input = InputController::new();
    input.key_press(Key::Up);
    let actions = input.actions();
    assert!(actions.move_up && !actions.move_down);
    let mut gs = GameState::new(Size::new(800, 600));
    let mut tc = TimeController::new();
    let mut events = Vec::new();
    let mut rng = seeded();
    tc.update_seconds(1000, actions, &mut gs, &mut events, &mut rng);
    assert_eq!(gs.player.position, Point::new(400_000, 100_000));
}

#[test]
fn player_stops_at_the_wall() {
    let mut gs = GameState::new(Size::new(800, 600));
    let mut tc = TimeController::new();
    let mut events = Vec::new();
    let mut rng = seeded();
    let down_right = Actions { move_up: false, move_down: true, move_left: false, move_right: true };
    tc.update_seconds(5000, down_right, &mut gs, &mut events, &mut rng);
    assert_eq!(gs.player.position, Point::new(800_000, 600_000));
    let up_left = Actions { move_up: true, move_down: false, move_left: true, move_right: false };
    tc.update_seconds(10_000, up_left, &mut gs, &mut events, &mut rng);
    assert_eq!(gs.player.position, Point::new(0, 0));
}

#[test]
fn opposite_keys_cancel() {
    let mut input = InputController::new();
    input.key_press(Key::Up);
    input.key_press(Key::Down);
    input.key_press(Key::Left);
    let a = input.actions();
    assert!(!a.move_up && !a.move_down && a.move_left && !a.move_right);
    input.key_release(Key::Down);
    let a = input.actions();
    assert!(a.move_up && !a.move_down);
}

#[test]
fn zero_frames_change_nothing() {
    let mut gs = GameState::new(Size::new(800, 600));
    let mut tc = TimeController::new();
    let mut events = Vec::new();
    gs.spawn_obstacle(100_000, 150);
    tc.elapsed_ms = 400;
    let player = gs.player;
    let obstacles = gs.obstacles.clone();
    let mut rng = seeded();
    let right = Actions { move_up: false, move_down: false, move_left: false, move_right: true };
    for _ in 0..10 {
        tc.update_seconds(0, right, &mut gs, &mut events, &mut rng);
    }
    assert_eq!(gs.player, player);
    assert_eq!(gs.obstacles, obstacles);
    assert!(gs.message.is_none());
    assert_eq!(tc, TimeController { elapsed_ms: 400, threshold_ms: INITIAL_SPAWN_MS });
    assert!(events.is_empty());
}

#[test]
fn reaching_threshold_adds_one_obstacle() {
    let mut gs = GameState::new(Size::new(800, 600));
    let mut tc = TimeController::new();
    let mut events = Vec::new();
    let mut rng = seeded();
    gs.spawn_obstacle(10_000, 100);
    gs.spawn_obstacle(20_000, 100);
    tc.elapsed_ms = 990;
    tc.update_seconds(10, Actions::none(), &mut gs, &mut events, &mut rng);
    assert_eq!(gs.obstacles.len(), 3);
    assert_eq!(gs.obstacles[0].position, Point::new(814_000, 10_000));
    assert_eq!(events, vec![Event::ObstacleSpawned]);
}

#[test]
fn obstacles_leave_on_the_left() {
    let mut gs = GameState::new(Size::new(100, 100));
    let mut tc = TimeController::new();
    let mut events = Vec::new();
    let mut rng = seeded();
    gs.spawn_obstacle(0, 100);
    tc.update_seconds(999, Actions::none(), &mut gs, &mut events, &mut rng);
    assert_eq!(gs.obstacles.len(), 1);
    assert_eq!(gs.obstacles[0].position.x, 115_000 - 99_900);
    let mut gs2 = GameState::new(Size::new(100, 100));
    gs2.spawn_obstacle(0, 100);
    let mut tc2 = TimeController::new();
    tc2.update_seconds(800, Actions::none(), &mut gs2, &mut events, &mut rng);
    tc2.update_seconds(150, Actions::none(), &mut gs2, &mut events, &mut rng);
    tc2.update_seconds(49, Actions::none(), &mut gs2, &mut events, &mut rng);
    assert_eq!(gs2.obstacles.len(), 1);
    assert_eq!(gs2.obstacles[0].position.x, 115_000 - 99_900);
    let mut gs3 = GameState::new(Size::new(100, 100));
    gs3.spawn_obstacle(0, 300);
    let mut tc3 = TimeController::new();
    tc3.update_seconds(500, Actions::none(), &mut gs3, &mut events, &mut rng);
    assert!(gs3.obstacles.is_empty());
}

#[test]
fn reset_matches_new() {
    let size = Size::new(640, 480);
    let mut gs = GameState::new(size);
    let mut tc = TimeController::new();
    let mut events = Vec::new();
    let mut rng = seeded();
    let left = Actions { move_up: false, move_down: false, move_left: true, move_right: false };
    for _ in 0..80 {
        tc.update_seconds(16, left, &mut gs, &mut events, &mut rng);
    }
    gs.finish();
    gs.reset();
    tc.reset();
    let fresh = GameState::new(size);
    assert_eq!(gs.size, fresh.size);
    assert_eq!(gs.player, fresh.player);
    assert_eq!(gs.obstacles, fresh.obstacles);
    assert_eq!(gs.message, fresh.message);
    assert_eq!(tc, TimeController::new());
}

#[test]
fn overlap_is_strict() {
    let a = Point::new(0, 0);
    assert!(!overlaps(a, PLAYER_RADIUS, Point::new(25_000, 0), OBSTACLE_RADIUS));
    assert!(overlaps(a, PLAYER_RADIUS, Point::new(24_999, 0), OBSTACLE_RADIUS));
    assert!(!overlaps(a, PLAYER_RADIUS, Point::new(15_000, 20_000), OBSTACLE_RADIUS));
    assert!(overlaps(a, PLAYER_RADIUS, Point::new(15_000, 19_999), OBSTACLE_RADIUS));
}

#[test]
fn application_pauses_without_focus() {
    let mut app = ApplicationState::new(Size::new(800, 600), seeded());
    app.focus_event(false);
    app.key_down_event(Some(Key::Right));
    app.update(2000);
    assert_eq!(app.game_state.player.position, Point::new(400_000, 300_000));
    assert!(app.drain_events().is_empty());
    app.focus_event(true);
    app.update(1000);
    assert_eq!(app.game_state.player.position, Point::new(600_000, 300_000));
    app.key_up_event(Some(Key::Right));
    app.update(10);
    assert_eq!(app.game_state.player.position, Point::new(600_000, 300_000));
}

#[test]
fn application_restarts_on_key_after_game_over() {
    let mut app = ApplicationState::new(Size::new(10, 10), seeded());
    app.game_state.spawn_obstacle(5_000, 100);
    app.update(0);
    assert_eq!(app.game_state.message.as_deref(), Some(GAME_OVER));
    assert_eq!(app.drain_events(), vec![Event::Collision]);
    assert!(app.drain_events().is_empty());
    app.key_down_event(None);
    assert!(app.game_state.message.is_none());
    assert!(app.game_state.obstacles.is_empty());
    assert_eq!(app.time_controller, TimeController::new());
    assert_eq!(app.drain_events(), vec![Event::GameStart]);
}

#[test]
fn application_events_keep_frame_order() {
    let mut app = ApplicationState::new(Size::new(10, 10), seeded());
    app.update(INITIAL_SPAWN_MS);
    let events = app.drain_events();
    assert_eq!(events[0], Event::ObstacleSpawned);
    assert!(events.len() <= 2);
    if events.len() == 2 {
        assert_eq!(events[1], Event::Collision);
    }
    assert!(MAX_SPAWN_MS >= app.time_controller.threshold_ms);
}
