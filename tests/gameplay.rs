use ferris_catch::frame::{
    axis_step, game_logic, game_logic_at, is_player_collision, is_player_label,
    label_starts_with_player, resolve_collisions, CollisionEvent, CollisionState, FrameInput,
    Position, Spawn, MAX_DELTA_MICROS, MOVEMENT_SPEED,
};
use ferris_catch::random::{random_spawn_point, SPAWN_X_LIMIT, SPAWN_Y_LIMIT};
use ferris_catch::state::{GameState, SPAWN_PERIOD_MICROS};
use ferris_catch::timer::SpawnTimer;

fn quiet_frame(delta_micros: u64) -> FrameInput {
    FrameInput {
        quit_pressed: false,
        reset_pressed: false,
        up_held: false,
        down_held: false,
        left_held: false,
        right_held: false,
        click: None,
        delta_micros,
        collisions: Vec::new(),
    }
}

fn begin(a: &str, b: &str) -> CollisionEvent {
    CollisionEvent { state: CollisionState::Begin, first: a.to_string(), second: b.to_string() }
}

fn end(a: &str, b: &str) -> CollisionEvent {
    CollisionEvent { state: CollisionState::End, first: a.to_string(), second: b.to_string() }
}

const ORIGIN: Position = Position { x: 0, y: 0 };

#[test]
fn default_state_is_empty() {
    let s = GameState::default();
    assert_eq!(s.score, 0);
    assert_eq!(s.high_score, 0);
    assert_eq!(s.ferris_index, 0);
    assert_eq!(s.spawn_timer.duration_micros, SPAWN_PERIOD_MICROS);
    assert_eq!(s.spawn_timer.elapsed_micros, 0);
}

#[test]
fn two_clicks_then_two_hits() {
    let mut s = GameState::default();
    let mut f = quiet_frame(10_000);
    f.click = Some(Position { x: 100, y: -200 });
    let out1 = game_logic_at(&mut s, &f, ORIGIN);
    assert_eq!(out1.click_spawn, Some(Spawn { id: 0, position: Position { x: 100, y: -200 } }));
    let out2 = game_logic_at(&mut s, &f, ORIGIN);
    assert_eq!(out2.click_spawn, Some(Spawn { id: 1, position: Position { x: 100, y: -200 } }));

    let mut hit = quiet_frame(10_000);
    hit.collisions = vec![begin("player", "ferris0")];
    let out3 = game_logic_at(&mut s, &hit, ORIGIN);
    assert_eq!(out3.removed, vec!["ferris0".to_string()]);
    hit.collisions = vec![begin("ferris1", "player")];
    let out4 = game_logic_at(&mut s, &hit, ORIGIN);
    assert_eq!(out4.removed, vec!["ferris1".to_string()]);

    assert_eq!(s.score, 2);
    assert_eq!(s.high_score, 2);
    assert_eq!(out3.hits + out4.hits, 2);
    assert!(out4.score_changed && out4.high_score_changed);
}

#[test]
fn reset_after_five_keeps_high_score() {
    let mut s = GameState::default();
    let mut f = quiet_frame(1_000);
    for i in 0..5 {
        f.collisions = vec![begin("player", &format!("ferris{}", i))];
        game_logic_at(&mut s, &f, ORIGIN);
    }
    assert_eq!(s.score, 5);
    assert_eq!(s.high_score, 5);
    let mut r = quiet_frame(1_000);
    r.reset_pressed = true;
    let out = game_logic_at(&mut s, &r, ORIGIN);
    assert_eq!(s.score, 0);
    assert_eq!(s.high_score, 5);
    assert!(out.score_changed);
    assert!(!out.high_score_changed);
}

#[test]
fn timer_spawns_once_per_two_seconds() {
    let mut s = GameState::default();
    let deltas = [500_000u64, 700_000, 300_000, 499_999];
    for d in deltas {
        let out = game_logic_at(&mut s, &quiet_frame(d), ORIGIN);
        assert_eq!(out.timer_spawn, None);
    }
    let spot = Position { x: -7, y: 9 };
    let out = game_logic_at(&mut s, &quiet_frame(1), spot);
    assert_eq!(out.timer_spawn, Some(Spawn { id: 0, position: spot }));
    assert_eq!(s.spawn_timer.elapsed_micros, 0);
    assert_eq!(s.ferris_index, 1);
    let again = game_logic_at(&mut s, &quiet_frame(1_999_999), spot);
    assert_eq!(again.timer_spawn, None);
}

#[test]
fn score_counts_hits_across_frames() {
    let mut s = GameState::default();
    let mut f = quiet_frame(1_000);
    f.collisions = vec![begin("player", "a"), end("player", "a"), begin("b", "player")];
    game_logic_at(&mut s, &f, ORIGIN);
    f.collisions = vec![begin("c", "d"), begin("player", "e")];
    game_logic_at(&mut s, &f, ORIGIN);
    assert_eq!(s.score, 3);
    let mut r = quiet_frame(1_000);
    r.reset_pressed = true;
    r.collisions = vec![begin("player", "f")];
    game_logic_at(&mut s, &r, ORIGIN);
    assert_eq!(s.score, 0);
    assert_eq!(s.high_score, 4);
    f.collisions = vec![begin("player", "g")];
    game_logic_at(&mut s, &f, ORIGIN);
    assert_eq!(s.score, 1);
}

#[test]
fn several_hits_in_one_frame() {
    let mut s = GameState::default();
    let mut f = quiet_frame(1_000);
    f.collisions = vec![begin("player", "a"), begin("player", "b"), begin("c", "player")];
    let out = game_logic_at(&mut s, &f, ORIGIN);
    assert_eq!(out.hits, 3);
    assert_eq!(out.removed, vec!["a".to_string(), "b".to_string(), "c".to_string()]);
    assert_eq!(s.score, 3);
    assert_eq!(s.high_score, 3);
}

#[test]
fn high_score_never_decreases() {
    let mut s = GameState::default();
    let mut last_high = 0;
    for step in 0..20u32 {
        let mut f = quiet_frame(100_000);
        if step % 3 == 0 {
            f.collisions = vec![begin("player", "x")];
        }
        f.reset_pressed = step % 7 == 6;
        game_logic_at(&mut s, &f, ORIGIN);
        assert!(s.high_score >= last_high);
        assert!(s.high_score >= s.score);
        last_high = s.high_score;
    }
    assert_eq!(s.high_score, 3);
}

#[test]
fn ids_increase_across_click_and_timer() {
    let mut s = GameState::default();
    let mut ids = Vec::new();
    for step in 0..10u64 {
        let mut f = quiet_frame(900_000);
        if step % 2 == 0 {
            f.click = Some(Position { x: 1, y: 1 });
        }
        let out = game_logic_at(&mut s, &f, ORIGIN);
        if let Some(sp) = out.click_spawn {
            ids.push(sp.id);
        }
        if let Some(sp) = out.timer_spawn {
            ids.push(sp.id);
        }
    }
    assert_eq!(ids.len() as u64, s.ferris_index);
    for i in 0..ids.len() {
        assert_eq!(ids[i], i as u64);
    }
}

#[test]
fn click_and_timer_in_same_frame() {
    let mut s = GameState::default();
    let mut f = quiet_frame(2_000_000);
    f.click = Some(Position { x: 3, y: 4 });
    let spot = Position { x: 10, y: 20 };
    let out = game_logic_at(&mut s, &f, spot);
    assert_eq!(out.click_spawn, Some(Spawn { id: 0, position: Position { x: 3, y: 4 } }));
    assert_eq!(out.timer_spawn, Some(Spawn { id: 1, position: spot }));
    assert_eq!(s.ferris_index, 2);
}

#[test]
fn movement_is_frame_rate_independent() {
    let mut s = GameState::default();
    let mut total_fine: i64 = 0;
    for _ in 0..10 {
        let mut f = quiet_frame(16_000);
        f.up_held = true;
        total_fine += game_logic_at(&mut s, &f, ORIGIN).dy;
    }
    let mut coarse = quiet_frame(160_000);
    coarse.up_held = true;
    let total_coarse = game_logic_at(&mut s, &coarse, ORIGIN).dy;
    assert_eq!(total_fine, total_coarse);
    assert_eq!(total_coarse, (MOVEMENT_SPEED * 160_000) as i64);
}

#[test]
fn movement_directions_combine() {
    assert_eq!(axis_step(true, false, 1_000_000), 80_000_000);
    assert_eq!(axis_step(false, true, 1_000_000), -80_000_000);
    assert_eq!(axis_step(true, true, 1_000_000), 0);
    assert_eq!(axis_step(false, false, 1_000_000), 0);
    assert_eq!(axis_step(true, false, MAX_DELTA_MICROS), (MOVEMENT_SPEED * MAX_DELTA_MICROS) as i64);
    let mut s = GameState::default();
    let mut f = quiet_frame(500_000);
    f.up_held = true;
    f.left_held = true;
    let out = game_logic_at(&mut s, &f, ORIGIN);
    assert_eq!(out.dy, 40_000_000);
    assert_eq!(out.dx, -40_000_000);
}

#[test]
fn quit_key_sets_exit() {
    let mut s = GameState::default();
    let mut f = quiet_frame(1);
    f.quit_pressed = true;
    f.collisions = vec![begin("player", "a")];
    let out = game_logic_at(&mut s, &f, ORIGIN);
    assert!(out.exit);
    assert_eq!(s.score, 1);
    assert!(!game_logic_at(&mut s, &quiet_frame(1), ORIGIN).exit);
}

#[test]
fn collisions_without_player_or_ending_are_ignored() {
    let mut s = GameState::default();
    let events = vec![
        end("player", "a"),
        begin("a", "b"),
        begin("player", "player_two"),
    ];
    let (removed, hits) = resolve_collisions(&mut s, &events);
    assert!(removed.is_empty());
    assert_eq!(hits, 0);
    assert_eq!(s.score, 0);
}

#[test]
fn label_checks() {
    assert!(label_starts_with_player(&"player".to_string()));
    assert!(label_starts_with_player(&"players".to_string()));
    assert!(!label_starts_with_player(&"playe".to_string()));
    assert!(!label_starts_with_player(&"Player".to_string()));
    assert!(is_player_label(&"player".to_string()));
    assert!(!is_player_label(&"player1".to_string()));
    assert!(is_player_collision(&begin("ferris3", "player")));
    assert!(!is_player_collision(&end("ferris3", "player")));
}

#[test]
fn hit_with_player_prefixed_label_removes_it() {
    let mut s = GameState::default();
    let events = vec![begin("player1", "ferris")];
    let (removed, hits) = resolve_collisions(&mut s, &events);
    assert_eq!(hits, 1);
    assert_eq!(removed, vec!["player1".to_string(), "ferris".to_string()]);
}

#[test]
fn timer_reports_many_periods_as_one() {
    let mut t = SpawnTimer::new(2_000_000);
    assert!(!t.finishes_within(1_999_999));
    assert!(t.finishes_within(2_000_000));
    assert!(t.tick(4_500_000));
    assert_eq!(t.elapsed_micros, 500_000);
    assert!(!t.tick(1_000_000));
    assert_eq!(t.elapsed_micros, 1_500_000);
    assert!(t.tick(u64::MAX));
    assert!(t.elapsed_micros < 2_000_000);
}

#[test]
fn state_methods() {
    let mut s = GameState::default();
    assert!(s.record_hit());
    assert!(s.record_hit());
    s.reset();
    assert!(!s.record_hit());
    assert_eq!(s.score, 1);
    assert_eq!(s.high_score, 2);
    assert_eq!(s.take_spawn_id(), 0);
    assert_eq!(s.take_spawn_id(), 1);
    assert_eq!(s.ferris_index, 2);
}

#[test]
fn random_points_lie_in_spawn_area_and_vary() {
    let mut points = Vec::new();
    for _ in 0..20 {
        let p = random_spawn_point();
        assert!(-SPAWN_X_LIMIT <= p.x && p.x < SPAWN_X_LIMIT);
        assert!(-SPAWN_Y_LIMIT <= p.y && p.y < SPAWN_Y_LIMIT);
        points.push(p);
    }
    assert!(points.iter().any(|p| *p != points[0]));
    assert!(points.iter().any(|p| p.x != -SPAWN_X_LIMIT));
}

#[test]
fn timer_spawn_lands_in_spawn_area() {
    let mut s = GameState::default();
    let out = game_logic(&mut s, &quiet_frame(2_000_000));
    let sp = out.timer_spawn.expect("the timer fires after two seconds");
    assert_eq!(sp.id, 0);
    assert!(-SPAWN_X_LIMIT <= sp.position.x && sp.position.x < SPAWN_X_LIMIT);
    assert!(-SPAWN_Y_LIMIT <= sp.position.y && sp.position.y < SPAWN_Y_LIMIT);
    assert_eq!(game_logic(&mut s, &quiet_frame(1)).timer_spawn, None);
}
