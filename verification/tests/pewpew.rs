use pewpew::grid::{adjacent, lookup, Direction, Position, Vec2i, CELL_SPACING};
use pewpew::latch::FireLatch;
use pewpew::bullet::{
    advance_bullets, handle_bullet_event, spawn_bullet, sweep_bullets, update_bullets, Bullet,
    BulletEvent, Vec3i,
};
use pewpew::player::{
    player_input, select_direction, spawn_player, update_moveable, update_moveables, InputState,
    Moveable, Movement, MovementInfo, Transform2, MOVE_DURATION_MS,
};

const ALL_CELLS: [Position; 9] = [
    Position::TopLeft,
    Position::TopCenter,
    Position::TopRight,
    Position::Left,
    Position::Center,
    Position::Right,
    Position::BottomLeft,
    Position::BottomCenter,
    Position::BottomRight,
];

const ALL_DIRS: [Direction; 4] =
    [Direction::Up, Direction::Down, Direction::Left, Direction::Right];

fn no_input() -> InputState {
    InputState { fire: false, up: false, down: false, left: false, right: false }
}

fn moving_info(start: Vec2i, end: Vec2i, start_cell: Position, end_cell: Position) -> MovementInfo {
    MovementInfo {
        current_movement_time: 0,
        end_movement_time: MOVE_DURATION_MS,
        start_translation: start,
        end_translation: end,
        start_rotation: 0,
        end_rotation: 0,
        start_position: start_cell,
        end_position: end_cell,
    }
}

#[test]
fn grid_offsets_are_distinct() {
    for (i, a) in ALL_CELLS.iter().enumerate() {
        for b in ALL_CELLS.iter().skip(i + 1) {
            assert_ne!(lookup(*a), lookup(*b));
        }
    }
}

#[test]
fn adjacency_agrees_with_offsets() {
    for c in ALL_CELLS {
        for d in ALL_DIRS {
            if let Some(target) = adjacent(c, d) {
                let from = lookup(c);
                let to = lookup(target);
                let (dx, dy) = match d {
                    Direction::Up => (0, CELL_SPACING),
                    Direction::Down => (0, -CELL_SPACING),
                    Direction::Left => (-CELL_SPACING, 0),
                    Direction::Right => (CELL_SPACING, 0),
                };
                assert_eq!(to.x, from.x + dx);
                assert_eq!(to.y, from.y + dy);
                assert_ne!(target, c);
            }
        }
    }
}

#[test]
fn adjacency_spot_checks() {
    assert_eq!(adjacent(Position::Center, Direction::Up), Some(Position::TopCenter));
    assert_eq!(adjacent(Position::Center, Direction::Down), Some(Position::BottomCenter));
    assert_eq!(adjacent(Position::Center, Direction::Left), Some(Position::Left));
    assert_eq!(adjacent(Position::Center, Direction::Right), Some(Position::Right));
    assert_eq!(adjacent(Position::TopCenter, Direction::Up), None);
    assert_eq!(adjacent(Position::BottomLeft, Direction::Left), None);
    assert_eq!(adjacent(Position::TopRight, Direction::Left), Some(Position::TopCenter));
    assert_eq!(adjacent(Position::BottomRight, Direction::Up), Some(Position::Right));
}

#[test]
fn every_cell_reachable_from_center() {
    let paths: [&[Direction]; 9] = [
        &[],
        &[Direction::Up],
        &[Direction::Down],
        &[Direction::Left],
        &[Direction::Right],
        &[Direction::Up, Direction::Left],
        &[Direction::Up, Direction::Right],
        &[Direction::Down, Direction::Left],
        &[Direction::Down, Direction::Right],
    ];
    let mut reached = Vec::new();
    for path in paths {
        let mut cell = Position::Center;
        for d in path {
            cell = adjacent(cell, *d).expect("path step must be defined");
        }
        reached.push(cell);
    }
    for c in ALL_CELLS {
        assert!(reached.contains(&c));
    }
}

#[test]
fn queued_move_starts_interpolation() {
    let (mut m, mut t) = spawn_player();
    m.movement = Movement::Queued(Direction::Up);
    let before = t;
    update_moveable(&mut m, &mut t, 16);
    assert_eq!(t, before);
    assert_eq!(m.position, Position::Center);
    match m.movement {
        Movement::Moving(info) => {
            assert_eq!(info.current_movement_time, 0);
            assert_eq!(info.end_movement_time, MOVE_DURATION_MS);
            assert_eq!(info.start_position, Position::Center);
            assert_eq!(info.end_position, Position::TopCenter);
            assert_eq!(info.start_translation, before.translation);
            assert_eq!(info.end_translation, lookup(Position::TopCenter));
            assert_eq!(info.start_rotation, before.rotation);
            assert_eq!(info.end_rotation, before.rotation);
        }
        _ => panic!("expected an active interpolation"),
    }
}

#[test]
fn queued_move_with_no_neighbor_stops() {
    let (mut m, mut t) = spawn_player();
    m.position = Position::TopCenter;
    t.translation = lookup(Position::TopCenter);
    m.movement = Movement::Queued(Direction::Up);
    let before = t;
    update_moveable(&mut m, &mut t, 16);
    assert_eq!(m.movement, Movement::Stopped);
    assert_eq!(m.position, Position::TopCenter);
    assert_eq!(t, before);
}

#[test]
fn moving_interpolates_and_snaps_at_duration() {
    let (mut m, mut t) = spawn_player();
    let end = lookup(Position::Right);
    m.movement = Movement::Moving(moving_info(t.translation, end, Position::Center, Position::Right));
    update_moveable(&mut m, &mut t, 30);
    assert_eq!(t.translation, Vec2i { x: 900, y: 0 });
    assert_eq!(m.position, Position::Center);
    match m.movement {
        Movement::Moving(info) => assert_eq!(info.current_movement_time, 30),
        _ => panic!("expected the move to still be active"),
    }
    // 30 + 70 reaches the duration exactly: bit-for-bit snap, then stop
    update_moveable(&mut m, &mut t, 70);
    assert_eq!(m.movement, Movement::Stopped);
    assert_eq!(m.position, Position::Right);
    assert_eq!(t.translation, end);
    assert_eq!(t.rotation, 0);
}

#[test]
fn moving_interpolates_toward_negative_coordinates() {
    let (mut m, mut t) = spawn_player();
    let end = lookup(Position::Left);
    m.movement = Movement::Moving(moving_info(t.translation, end, Position::Center, Position::Left));
    update_moveable(&mut m, &mut t, 30);
    assert_eq!(t.translation, Vec2i { x: -900, y: 0 });
    update_moveable(&mut m, &mut t, 1000);
    assert_eq!(t.translation, end);
    assert_eq!(m.movement, Movement::Stopped);
    assert_eq!(m.position, Position::Left);
}

#[test]
fn overshoot_snaps_to_target_and_forces_timer() {
    let (mut m, mut t) = spawn_player();
    let end = lookup(Position::Right);
    m.movement = Movement::Moving(moving_info(t.translation, end, Position::Center, Position::Right));
    // the entity sits almost on the target already; a naive step would
    // place it far behind, so the correction must snap it to the target
    t.translation = Vec2i { x: 2900, y: 0 };
    update_moveable(&mut m, &mut t, 10);
    assert_eq!(t.translation, end);
    assert_eq!(m.position, Position::Right);
    match m.movement {
        Movement::Moving(info) => assert_eq!(info.current_movement_time, MOVE_DURATION_MS),
        _ => panic!("expected the move to still be active after the snap"),
    }
    // the next tick observes the expired timer and stops the entity
    update_moveable(&mut m, &mut t, 1);
    assert_eq!(m.movement, Movement::Stopped);
    assert_eq!(t.translation, end);
}

#[test]
fn cell_latch_rounds_toward_zero_on_negative_side() {
    let (mut m, mut t) = spawn_player();
    let end = lookup(Position::Left);
    let mut info = moving_info(t.translation, end, Position::Center, Position::Left);
    // almost done: the entity sits exactly on the interpolation path
    info.current_movement_time = 97;
    m.movement = Movement::Moving(info);
    t.translation = Vec2i { x: -2910, y: 0 };
    update_moveable(&mut m, &mut t, 2);
    assert_eq!(t.translation, Vec2i { x: -2970, y: 0 });
    // -2.970 rounds to -2 whole units, -3.000 to -3: not latched yet
    assert_eq!(m.position, Position::Center);
    match m.movement {
        Movement::Moving(info) => assert_eq!(info.current_movement_time, 99),
        _ => panic!("expected the move to still be active"),
    }
}

#[test]
fn stopped_entity_is_unchanged_by_any_tick() {
    let (mut m, mut t) = spawn_player();
    let (m0, t0) = (m, t);
    for dt in [0u32, 1, 16, 100, 100000, u32::MAX] {
        update_moveable(&mut m, &mut t, dt);
        assert_eq!(m, m0);
        assert_eq!(t, t0);
    }
}

#[test]
fn rotation_interpolates_with_snap_rule() {
    let (mut m, mut t) = spawn_player();
    let end = lookup(Position::Right);
    let mut info = moving_info(t.translation, end, Position::Center, Position::Right);
    info.end_rotation = 1000;
    m.movement = Movement::Moving(info);
    update_moveable(&mut m, &mut t, 30);
    assert_eq!(t.rotation, 300);
}

#[test]
fn update_moveables_advances_each_entity() {
    let (m1, t1) = spawn_player();
    let (mut m2, t2) = spawn_player();
    m2.movement = Movement::Queued(Direction::Down);
    let mut entities = vec![(m1, t1), (m2, t2)];
    update_moveables(&mut entities, 16);
    assert_eq!(entities.len(), 2);
    assert_eq!(entities[0].0, m1);
    assert_eq!(entities[0].1, t1);
    match entities[1].0.movement {
        Movement::Moving(info) => assert_eq!(info.end_position, Position::BottomCenter),
        _ => panic!("expected the queued entity to start moving"),
    }
}

#[test]
fn fire_latch_window() {
    let mut latch = FireLatch::new();
    assert!(latch.try_fire(0));
    assert!(!latch.try_fire(50));
    assert!(latch.try_fire(150));
    assert_eq!(latch.last_action_ms, Some(150));
}

#[test]
fn fire_latch_window_boundary_is_strict() {
    let mut latch = FireLatch::new();
    assert!(latch.try_fire(1000));
    assert!(!latch.try_fire(1100));
    assert!(latch.try_fire(1101));
}

#[test]
fn fire_latch_expires_without_attempt() {
    let mut latch = FireLatch::new();
    assert!(latch.try_fire(0));
    latch.tick(250);
    assert_eq!(latch.last_action_ms, None);
}

#[test]
fn direction_selection_priority() {
    let mut input = no_input();
    input.up = true;
    assert_eq!(select_direction(input), Some(Direction::Up));
    input.down = true;
    assert_eq!(select_direction(input), Some(Direction::Down));
    input.left = true;
    assert_eq!(select_direction(input), Some(Direction::Left));
    input.right = true;
    assert_eq!(select_direction(input), Some(Direction::Right));
    assert_eq!(select_direction(no_input()), None);
}

#[test]
fn player_input_queues_only_when_stopped() {
    let (mut m, t) = spawn_player();
    let mut latch = FireLatch::new();
    let mut input = no_input();
    input.left = true;
    let ev = player_input(&mut m, &t, &mut latch, input, 0);
    assert!(ev.is_none());
    assert_eq!(m.movement, Movement::Queued(Direction::Left));
    // a second press while a move is pending is ignored
    let mut input2 = no_input();
    input2.right = true;
    player_input(&mut m, &t, &mut latch, input2, 16);
    assert_eq!(m.movement, Movement::Queued(Direction::Left));
}

#[test]
fn player_input_emits_debounced_fire_events() {
    let (mut m, mut t) = spawn_player();
    t.translation = Vec2i { x: 700, y: -200 };
    let mut latch = FireLatch::new();
    let mut input = no_input();
    input.fire = true;
    let ev = player_input(&mut m, &t, &mut latch, input, 0).expect("first press fires");
    // the grid plane is x = 0: plane (x, y) sits at world (z, y)
    assert_eq!(ev.start, Vec3i { x: 0, y: -200, z: 700 });
    assert_eq!(ev.direction, Vec3i { x: 1000, y: 0, z: 0 });
    assert_eq!(latch.last_action_ms, Some(0));
    assert!(player_input(&mut m, &t, &mut latch, input, 50).is_none());
    assert!(player_input(&mut m, &t, &mut latch, input, 150).is_some());
}

#[test]
fn bullets_spawn_from_events_in_order() {
    let mut bullets = Vec::new();
    let e1 = BulletEvent {
        start: Vec3i { x: 0, y: 0, z: 0 },
        direction: Vec3i { x: 1000, y: 0, z: 0 },
    };
    let e2 = BulletEvent {
        start: Vec3i { x: 10, y: 20, z: 30 },
        direction: Vec3i { x: 0, y: 1000, z: 0 },
    };
    spawn_bullet(&mut bullets, &e1);
    handle_bullet_event(&mut bullets, &vec![e2, e1]);
    assert_eq!(bullets.len(), 3);
    assert_eq!(bullets[0].0, Bullet { direction: e1.direction });
    assert_eq!(bullets[0].1, e1.start);
    assert_eq!(bullets[1].1, e2.start);
    assert_eq!(bullets[2].1, e1.start);
}

#[test]
fn bullet_advances_at_fixed_speed() {
    let mut bullets = Vec::new();
    spawn_bullet(
        &mut bullets,
        &BulletEvent {
            start: Vec3i { x: 0, y: 0, z: 0 },
            direction: Vec3i { x: 1000, y: 0, z: 0 },
        },
    );
    // 90 units/s for 1 s: 90 units, held as 90000 thousandths
    advance_bullets(&mut bullets, 1000);
    assert_eq!(bullets[0].1, Vec3i { x: 90000, y: 0, z: 0 });
    sweep_bullets(&mut bullets);
    assert_eq!(bullets.len(), 1);
}

#[test]
fn bullet_lifecycle_crosses_boundary() {
    let mut bullets = Vec::new();
    spawn_bullet(
        &mut bullets,
        &BulletEvent {
            start: Vec3i { x: 0, y: 0, z: 0 },
            direction: Vec3i { x: 1000, y: 0, z: 0 },
        },
    );
    // at 90 units/s, 5.56 s puts the bullet at 500.4 units: past the
    // 500-unit boundary, so the sweep removes it
    update_bullets(&mut bullets, 5560);
    assert!(bullets.is_empty());
}

#[test]
fn bullet_short_of_boundary_survives_sweep() {
    let mut bullets = Vec::new();
    spawn_bullet(
        &mut bullets,
        &BulletEvent {
            start: Vec3i { x: 0, y: 0, z: 0 },
            direction: Vec3i { x: 1000, y: 0, z: 0 },
        },
    );
    update_bullets(&mut bullets, 5000);
    assert_eq!(bullets.len(), 1);
    assert_eq!(bullets[0].1, Vec3i { x: 450000, y: 0, z: 0 });
}

#[test]
fn sweep_keeps_order_of_survivors() {
    let dir = Vec3i { x: 1000, y: 0, z: 0 };
    let mut bullets = vec![
        (Bullet { direction: dir }, Vec3i { x: 600000, y: 0, z: 0 }),
        (Bullet { direction: dir }, Vec3i { x: 1, y: 0, z: 0 }),
        (Bullet { direction: dir }, Vec3i { x: 500001, y: 0, z: 0 }),
        (Bullet { direction: dir }, Vec3i { x: 2, y: 0, z: 0 }),
    ];
    sweep_bullets(&mut bullets);
    assert_eq!(bullets.len(), 2);
    assert_eq!(bullets[0].1.x, 1);
    assert_eq!(bullets[1].1.x, 2);
}

#[test]
fn full_tick_pipeline_moves_and_fires() {
    let (mut m, mut t) = spawn_player();
    let mut latch = FireLatch::new();
    let mut bullets = Vec::new();
    let mut input = no_input();
    input.fire = true;
    input.up = true;

    // tick 1: the press fires and queues a move
    let ev = player_input(&mut m, &t, &mut latch, input, 0);
    let mut entities = vec![(m, t)];
    update_moveables(&mut entities, 16);
    if let Some(ev) = ev {
        handle_bullet_event(&mut bullets, &vec![ev]);
    }
    update_bullets(&mut bullets, 16);
    (m, t) = entities[0];
    assert!(matches!(m.movement, Movement::Moving(_)));
    assert_eq!(bullets.len(), 1);
    assert_eq!(bullets[0].1, Vec3i { x: 1440, y: 0, z: 0 });

    // run the move to completion
    let mut entities = vec![(m, t)];
    update_moveables(&mut entities, 200);
    (m, t) = entities[0];
    assert_eq!(m.movement, Movement::Stopped);
    assert_eq!(m.position, Position::TopCenter);
    assert_eq!(t.translation, lookup(Position::TopCenter));
}
