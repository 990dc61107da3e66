use earth_escape::health::{CollisionEvent, ContactPhase, LayerTags};
use earth_escape::sim::{GameState, InputState, Sim, Viewport};

const SPAWN_MARGIN: i64 = 10_000;

fn viewport() -> Viewport {
    Viewport::new(120_000, 80_000)
}

fn idle() -> InputState {
    InputState::default()
}

fn player_enemy_begin() -> CollisionEvent {
    CollisionEvent {
        phase: ContactPhase::Begin,
        layers_a: LayerTags { player: true, enemies: false },
        layers_b: LayerTags { player: false, enemies: true },
    }
}

fn player_enemy_end() -> CollisionEvent {
    CollisionEvent {
        phase: ContactPhase::End,
        layers_a: LayerTags { player: true, enemies: false },
        layers_b: LayerTags { player: false, enemies: true },
    }
}

fn in_spawn_band(coord: i64, center: i64, extent: i64) -> bool {
    (center + extent <= coord && coord < center + extent + SPAWN_MARGIN)
        || (center - extent - SPAWN_MARGIN <= coord && coord < center - extent)
}

fn kill(s: &mut Sim) {
    let hits = vec![
        player_enemy_begin(),
        player_enemy_begin(),
        player_enemy_begin(),
        player_enemy_begin(),
        player_enemy_begin(),
    ];
    s.advance(0, viewport(), &hits, idle());
    assert_eq!(s.state, GameState::Dead);
}

#[test]
fn fresh_session_observables() {
    let s = Sim::new(11);
    assert_eq!(s.player.health, 5);
    assert_eq!(s.player.pos.x, 0);
    assert_eq!(s.player.pos.y, 0);
    assert_eq!(s.population.current, 0);
    assert_eq!(s.population.max, 1000);
    assert_eq!(s.difficulty, 0);
    assert_eq!(s.state, GameState::Running);
    assert_eq!(s.center_message(), "");
    assert_eq!(s.sub_message(), "");
    for slot in 0..5 {
        assert!(s.indicator_full(slot));
    }
}

#[test]
fn spawn_fires_on_interval_and_lands_in_ring() {
    let mut s = Sim::new(42);
    let no_events: Vec<CollisionEvent> = Vec::new();
    s.advance(499, viewport(), &no_events, idle());
    assert_eq!(s.population.current, 0);
    s.advance(1, viewport(), &no_events, idle());
    assert_eq!(s.population.current, 1);
    assert_eq!(s.hostiles.len(), 1);
    let h = s.hostiles[0];
    assert!(in_spawn_band(h.pos.x, 0, 120_000));
    assert!(in_spawn_band(h.pos.y, 0, 80_000));
    assert_eq!(h.vel.x, 0);
    assert_eq!(h.vel.y, 0);
    assert_eq!(h.speed, 250);
    assert!(75 <= h.size_scale && h.size_scale < 250);
}

#[test]
fn population_never_exceeds_cap() {
    let mut s = Sim::new(7);
    let no_events: Vec<CollisionEvent> = Vec::new();
    for _ in 0..1000 {
        s.advance(500, viewport(), &no_events, idle());
    }
    assert_eq!(s.population.current, 1000);
    assert_eq!(s.hostiles.len(), 1000);
    s.advance(500, viewport(), &no_events, idle());
    assert_eq!(s.population.current, 1000);
    assert_eq!(s.hostiles.len(), 1000);
}

#[test]
fn mismatched_contact_leaves_health_at_five() {
    let mut s = Sim::new(3);
    let hostile_tags = LayerTags { player: false, enemies: true };
    let events = vec![CollisionEvent {
        phase: ContactPhase::Begin,
        layers_a: hostile_tags,
        layers_b: hostile_tags,
    }];
    s.advance(0, viewport(), &events, idle());
    assert_eq!(s.player.health, 5);
    assert_eq!(s.state, GameState::Running);
}

#[test]
fn death_on_last_heart_within_the_frame() {
    let mut s = Sim::new(9);
    let wear_down = vec![
        player_enemy_begin(),
        player_enemy_begin(),
        player_enemy_begin(),
        player_enemy_begin(),
    ];
    s.advance(0, viewport(), &wear_down, idle());
    assert_eq!(s.player.health, 1);
    assert_eq!(s.state, GameState::Running);
    let last_hit = vec![player_enemy_begin()];
    s.advance(0, viewport(), &last_hit, idle());
    assert_eq!(s.player.health, 0);
    assert_eq!(s.state, GameState::Dead);
    assert!(s.spawn_timer.paused);
    for slot in 0..5 {
        assert!(!s.indicator_full(slot));
    }
    assert_eq!(s.center_message(), "You Died");
    assert_eq!(s.sub_message(), "Press R to restart");
}

#[test]
fn recovery_within_a_batch_keeps_the_session_alive() {
    let mut s = Sim::new(21);
    let wear_down = vec![
        player_enemy_begin(),
        player_enemy_begin(),
        player_enemy_begin(),
        player_enemy_begin(),
    ];
    s.advance(0, viewport(), &wear_down, idle());
    assert_eq!(s.player.health, 1);
    let dip_and_recover = vec![player_enemy_begin(), player_enemy_end()];
    s.advance(0, viewport(), &dip_and_recover, idle());
    assert_eq!(s.player.health, 1);
    assert_eq!(s.state, GameState::Running);
}

#[test]
fn no_spawning_while_dead() {
    let mut s = Sim::new(13);
    kill(&mut s);
    let no_events: Vec<CollisionEvent> = Vec::new();
    for _ in 0..5 {
        s.advance(500, viewport(), &no_events, idle());
    }
    assert_eq!(s.population.current, 0);
    assert_eq!(s.state, GameState::Dead);
}

#[test]
fn reset_is_a_no_op_while_alive() {
    let mut s = Sim::new(17);
    let no_events: Vec<CollisionEvent> = Vec::new();
    s.advance(500, viewport(), &no_events, idle());
    assert_eq!(s.population.current, 1);
    let reset_input = InputState { reset_pressed: true, ..idle() };
    s.advance(0, viewport(), &no_events, reset_input);
    assert_eq!(s.population.current, 1);
    assert_eq!(s.state, GameState::Running);
    s.reset();
    assert_eq!(s.population.current, 1);
    assert_eq!(s.state, GameState::Running);
}

#[test]
fn reset_restores_a_fresh_session() {
    let mut s = Sim::new(19);
    let no_events: Vec<CollisionEvent> = Vec::new();
    for _ in 0..6 {
        s.advance(500, viewport(), &no_events, idle());
    }
    assert!(s.population.current > 0);
    kill(&mut s);
    let reset_input = InputState { reset_pressed: true, ..idle() };
    s.advance(0, viewport(), &no_events, reset_input);
    assert_eq!(s.population.current, 0);
    assert_eq!(s.hostiles.len(), 0);
    assert_eq!(s.player.health, 5);
    assert_eq!(s.player.pos.x, 0);
    assert_eq!(s.player.pos.y, 0);
    assert_eq!(s.player.vel.x, 0);
    assert_eq!(s.player.vel.y, 0);
    assert_eq!(s.state, GameState::Running);
    assert_eq!(s.difficulty, 0);
    assert_eq!(s.spawn_timer.elapsed_ms, 0);
    assert_eq!(s.spawn_timer.interval_ms, 500);
    assert!(!s.spawn_timer.paused);
    assert_eq!(s.center_message(), "");
    assert_eq!(s.sub_message(), "");
}

#[test]
fn pause_freezes_spawn_and_pursuit() {
    let mut s = Sim::new(23);
    let no_events: Vec<CollisionEvent> = Vec::new();
    s.advance(500, viewport(), &no_events, idle());
    s.advance(500, viewport(), &no_events, idle());
    assert_eq!(s.population.current, 2);
    let pause_input = InputState { pause_pressed: true, ..idle() };
    s.advance(0, viewport(), &no_events, pause_input);
    assert_eq!(s.state, GameState::Paused);
    assert_eq!(s.center_message(), "Paused");
    assert!(s.spawn_timer.paused);
    let positions: Vec<(i64, i64)> = s.hostiles.iter().map(|h| (h.pos.x, h.pos.y)).collect();
    let velocities: Vec<(i64, i64)> = s.hostiles.iter().map(|h| (h.vel.x, h.vel.y)).collect();
    for _ in 0..4 {
        s.advance(500, viewport(), &no_events, idle());
    }
    assert_eq!(s.population.current, 2);
    for (i, h) in s.hostiles.iter().enumerate() {
        assert_eq!((h.pos.x, h.pos.y), positions[i]);
        assert_eq!((h.vel.x, h.vel.y), velocities[i]);
    }
    s.advance(0, viewport(), &no_events, pause_input);
    assert_eq!(s.state, GameState::Running);
    assert!(!s.spawn_timer.paused);
    s.advance(500, viewport(), &no_events, idle());
    assert_eq!(s.population.current, 3);
}

#[test]
fn pause_is_rejected_while_dead() {
    let mut s = Sim::new(29);
    kill(&mut s);
    let no_events: Vec<CollisionEvent> = Vec::new();
    let pause_input = InputState { pause_pressed: true, ..idle() };
    s.advance(0, viewport(), &no_events, pause_input);
    assert_eq!(s.state, GameState::Dead);
    assert_eq!(s.center_message(), "You Died");
}

#[test]
fn difficulty_climbs_only_while_running() {
    let mut s = Sim::new(31);
    let no_events: Vec<CollisionEvent> = Vec::new();
    s.advance(5000, viewport(), &no_events, idle());
    assert_eq!(s.difficulty, 1);
    let pause_input = InputState { pause_pressed: true, ..idle() };
    s.advance(0, viewport(), &no_events, pause_input);
    s.advance(5000, viewport(), &no_events, idle());
    assert_eq!(s.difficulty, 1);
    s.advance(0, viewport(), &no_events, pause_input);
    kill(&mut s);
    s.advance(5000, viewport(), &no_events, idle());
    assert_eq!(s.difficulty, 1);
}

#[test]
fn difficulty_saturates_at_one_hundred() {
    let mut s = Sim::new(37);
    let no_events: Vec<CollisionEvent> = Vec::new();
    for _ in 0..120 {
        s.advance(5000, viewport(), &no_events, idle());
    }
    assert_eq!(s.difficulty, 100);
}

#[test]
fn pursuit_steers_toward_the_player() {
    let mut s = Sim::new(41);
    let no_events: Vec<CollisionEvent> = Vec::new();
    s.advance(500, viewport(), &no_events, idle());
    assert_eq!(s.hostiles.len(), 1);
    let pos = s.hostiles[0].pos;
    s.advance(0, viewport(), &no_events, idle());
    let vel = s.hostiles[0].vel;
    if pos.x > 0 {
        assert_eq!(vel.x, -250);
    } else {
        assert_eq!(vel.x, 250);
    }
    if pos.y > 0 {
        assert_eq!(vel.y, -250);
    } else {
        assert_eq!(vel.y, 250);
    }
    assert_eq!(s.hostiles[0].pos, pos);
}

#[test]
fn movement_input_adds_speed_per_axis() {
    let mut s = Sim::new(43);
    let no_events: Vec<CollisionEvent> = Vec::new();
    let right = InputState { move_right: true, ..idle() };
    s.advance(0, viewport(), &no_events, right);
    assert_eq!(s.player.vel.x, 500);
    assert_eq!(s.player.vel.y, 0);
    let down = InputState { move_down: true, ..idle() };
    s.advance(0, viewport(), &no_events, down);
    assert_eq!(s.player.vel.x, 500);
    assert_eq!(s.player.vel.y, -500);
    let opposed = InputState { move_left: true, move_right: true, ..idle() };
    s.advance(0, viewport(), &no_events, opposed);
    assert_eq!(s.player.vel.x, 500);
}

#[test]
fn spawn_timer_keeps_progress_across_pause() {
    let mut s = Sim::new(53);
    let no_events: Vec<CollisionEvent> = Vec::new();
    s.advance(300, viewport(), &no_events, idle());
    assert_eq!(s.spawn_timer.elapsed_ms, 300);
    let pause_input = InputState { pause_pressed: true, ..idle() };
    s.advance(0, viewport(), &no_events, pause_input);
    s.advance(900, viewport(), &no_events, idle());
    assert_eq!(s.spawn_timer.elapsed_ms, 300);
    s.advance(0, viewport(), &no_events, pause_input);
    s.advance(200, viewport(), &no_events, idle());
    assert_eq!(s.population.current, 1);
}

#[test]
fn small_cap_holds_too() {
    let mut s = Sim::with_max_population(59, 2);
    let no_events: Vec<CollisionEvent> = Vec::new();
    for _ in 0..10 {
        s.advance(500, viewport(), &no_events, idle());
    }
    assert_eq!(s.population.current, 2);
    assert_eq!(s.hostiles.len(), 2);
}

#[test]
fn size_scale_stays_under_difficulty_widened_cap() {
    let mut s = Sim::new(61);
    let no_events: Vec<CollisionEvent> = Vec::new();
    for _ in 0..120 {
        s.advance(5000, viewport(), &no_events, idle());
    }
    assert_eq!(s.difficulty, 100);
    assert!(!s.hostiles.is_empty());
    for h in s.hostiles.iter() {
        assert!(75 <= h.size_scale && h.size_scale < 450);
    }
}

#[test]
fn position_sync_takes_effect_only_while_running() {
    let mut s = Sim::new(47);
    s.sync_player_position(100, 200);
    assert_eq!(s.player.pos.x, 100);
    assert_eq!(s.player.pos.y, 200);
    let no_events: Vec<CollisionEvent> = Vec::new();
    let pause_input = InputState { pause_pressed: true, ..idle() };
    s.advance(0, viewport(), &no_events, pause_input);
    s.sync_player_position(300, 400);
    assert_eq!(s.player.pos.x, 100);
    assert_eq!(s.player.pos.y, 200);
}
