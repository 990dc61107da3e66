use earth_escape::geom::{collision_radius, hostile_sprite_extent, player_sprite_extent};
use earth_escape::health::{apply_events, is_enemy, is_player, CollisionEvent, ContactPhase, LayerTags};
use earth_escape::population::ChaserCount;
use earth_escape::timer::PausableTimer;

fn player_tags() -> LayerTags {
    LayerTags { player: true, enemies: false }
}

fn enemy_tags() -> LayerTags {
    LayerTags { player: false, enemies: true }
}

fn begin_contact(a: LayerTags, b: LayerTags) -> CollisionEvent {
    CollisionEvent { phase: ContactPhase::Begin, layers_a: a, layers_b: b }
}

fn end_contact(a: LayerTags, b: LayerTags) -> CollisionEvent {
    CollisionEvent { phase: ContactPhase::End, layers_a: a, layers_b: b }
}

#[test]
fn timer_accumulates_and_fires_once_per_interval() {
    let mut t = PausableTimer::new(500);
    assert!(!t.tick(400));
    assert_eq!(t.elapsed_ms, 400);
    assert!(t.tick(100));
    assert_eq!(t.elapsed_ms, 0);
    assert!(!t.tick(499));
    assert!(t.tick(1));
}

#[test]
fn timer_wraps_accumulator_past_boundary() {
    let mut t = PausableTimer::new(500);
    assert!(t.tick(1250));
    assert_eq!(t.elapsed_ms, 250);
}

#[test]
fn timer_pause_keeps_progress() {
    let mut t = PausableTimer::new(500);
    assert!(!t.tick(300));
    t.pause();
    assert!(!t.tick(10_000));
    assert_eq!(t.elapsed_ms, 300);
    t.unpause();
    assert!(t.tick(200));
    assert_eq!(t.elapsed_ms, 0);
}

#[test]
fn layer_classification_checks_both_layers() {
    let p = player_tags();
    let e = enemy_tags();
    let both = LayerTags { player: true, enemies: true };
    let neither = LayerTags { player: false, enemies: false };
    assert!(is_player(p));
    assert!(!is_player(e));
    assert!(!is_player(both));
    assert!(!is_player(neither));
    assert!(is_enemy(e));
    assert!(!is_enemy(p));
    assert!(!is_enemy(both));
    assert!(!is_enemy(neither));
}

#[test]
fn contact_begin_costs_one_health() {
    let events = vec![begin_contact(player_tags(), enemy_tags())];
    assert_eq!(apply_events(5, &events), 4);
    let swapped = vec![begin_contact(enemy_tags(), player_tags())];
    assert_eq!(apply_events(5, &swapped), 4);
}

#[test]
fn contact_begin_floors_at_zero() {
    let events = vec![begin_contact(player_tags(), enemy_tags())];
    assert_eq!(apply_events(0, &events), 0);
}

#[test]
fn contact_end_restores_one_health() {
    let events = vec![end_contact(player_tags(), enemy_tags())];
    assert_eq!(apply_events(3, &events), 4);
}

#[test]
fn contact_end_caps_at_max() {
    let events = vec![end_contact(player_tags(), enemy_tags())];
    assert_eq!(apply_events(5, &events), 5);
}

#[test]
fn event_batch_applies_in_order() {
    let events = vec![
        begin_contact(player_tags(), enemy_tags()),
        end_contact(player_tags(), enemy_tags()),
        begin_contact(player_tags(), enemy_tags()),
        begin_contact(enemy_tags(), player_tags()),
    ];
    assert_eq!(apply_events(5, &events), 3);
}

#[test]
fn mismatched_layers_leave_health_unchanged() {
    let events = vec![
        begin_contact(enemy_tags(), enemy_tags()),
        begin_contact(player_tags(), player_tags()),
        begin_contact(LayerTags { player: true, enemies: true }, enemy_tags()),
        begin_contact(LayerTags { player: false, enemies: false }, player_tags()),
    ];
    assert_eq!(apply_events(5, &events), 5);
}

#[test]
fn sprite_extents_follow_viewport_width() {
    assert_eq!(player_sprite_extent(120_000), 6_000);
    assert_eq!(hostile_sprite_extent(120_000, 100), 3_000);
    assert_eq!(hostile_sprite_extent(120_000, 150), 4_500);
    assert_eq!(collision_radius(4_500), 2_250);
}

#[test]
fn chaser_count_gates_on_cap() {
    let under = ChaserCount::new(999, 1000);
    assert!(!under.at_max());
    let full = ChaserCount::new(1000, 1000);
    assert!(full.at_max());
}
