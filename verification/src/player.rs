//! The movement state machine: per-entity state (`Stopped`, `Queued`,
//! `Moving`) advanced once per simulation tick, mutating the entity's
//! transform; plus the per-tick input handler that queues moves and
//! produces debounced fire events.

use vstd::prelude::*;

verus! {

use vstd::arithmetic::mul::{lemma_mul_upper_bound, lemma_mul_nonnegative};
use vstd::arithmetic::div_mod::{
    lemma_div_is_ordered,
    lemma_div_pos_is_pos,
    lemma_div_by_multiple,
    lemma_div_nonincreasing,
};
use crate::grid::{Direction, Position, Vec2i, MILLI, grid_offset, adjacency, lookup, adjacent};
use crate::latch::{FireLatch, ticked};
use crate::bullet::{BulletEvent, Vec3i};

/// How long one move between neighbouring cells animates, in milliseconds.
pub const MOVE_DURATION_MS: u64 = 100;

/// Bound on every coordinate and rotation the state machine works with, in
/// thousandths of a unit: keeps the fixed-point arithmetic exact.
pub const WORLD_BOUND: i64 = 1000000000;

/// An entity's spatial state: a 2-D position in the grid plane and a
/// scalar orientation, both in fixed-point units.
#[derive(Clone, Copy, PartialEq, Eq, Structural, Debug)]
pub struct Transform2 {
    pub translation: Vec2i,
    pub rotation: i64,
}

/// The parameters of an active interpolation between two cells.
#[derive(Clone, Copy, PartialEq, Eq, Structural, Debug)]
pub struct MovementInfo {
    pub current_movement_time: u64,
    pub end_movement_time: u64,
    pub start_translation: Vec2i,
    pub end_translation: Vec2i,
    pub start_rotation: i64,
    pub end_rotation: i64,
    pub start_position: Position,
    pub end_position: Position,
}

/// Per-entity movement state: idle, a move accepted but not yet started,
/// or an active interpolation.
#[derive(Clone, Copy, PartialEq, Eq, Structural, Debug)]
pub enum Movement {
    Stopped,
    Queued(Direction),
    Moving(MovementInfo),
}

/// A movable entity: the cell it logically occupies and its movement state.
#[derive(Clone, Copy, PartialEq, Eq, Structural, Debug)]
pub struct Moveable {
    pub position: Position,
    pub movement: Movement,
}

/// The pressed state of the abstract per-tick inputs, already mapped from
/// keys and buttons by the host.
#[derive(Clone, Copy, PartialEq, Eq, Structural, Debug)]
pub struct InputState {
    pub fire: bool,
    pub up: bool,
    pub down: bool,
    pub left: bool,
    pub right: bool,
}

pub open spec fn vec2_wf(v: Vec2i) -> bool {
    &&& -WORLD_BOUND <= v.x <= WORLD_BOUND
    &&& -WORLD_BOUND <= v.y <= WORLD_BOUND
}

pub open spec fn transform_wf(t: Transform2) -> bool {
    &&& vec2_wf(t.translation)
    &&& -WORLD_BOUND <= t.rotation <= WORLD_BOUND
}

/// Invariant of an active interpolation: the timer never passes the fixed
/// move duration, and every endpoint is in range.
pub open spec fn info_wf(info: MovementInfo) -> bool {
    &&& info.end_movement_time == MOVE_DURATION_MS
    &&& info.current_movement_time <= info.end_movement_time
    &&& vec2_wf(info.start_translation)
    &&& vec2_wf(info.end_translation)
    &&& -WORLD_BOUND <= info.start_rotation <= WORLD_BOUND
    &&& -WORLD_BOUND <= info.end_rotation <= WORLD_BOUND
}

pub open spec fn movement_wf(m: Movement) -> bool {
    m matches Movement::Moving(info) ==> info_wf(info)
}

pub open spec fn moveable_wf(m: Moveable) -> bool {
    movement_wf(m.movement)
}

/// Linear interpolation from `s` toward `e` at time `t` of `d`, rounded
/// toward zero displacement.
pub open spec fn lerp1(s: int, e: int, t: int, d: int) -> int
    recommends
        0 <= t,
        0 < d,
{
    if e >= s {
        s + (e - s) * t / d
    } else {
        s - (s - e) * t / d
    }
}

/// Squared Euclidean distance between two points in the grid plane.
pub open spec fn dist2(a: Vec2i, b: Vec2i) -> int {
    (a.x - b.x) * (a.x - b.x) + (a.y - b.y) * (a.y - b.y)
}

/// A coordinate rounded to whole grid units, toward zero.
pub open spec fn grid_round(v: int) -> int {
    if v >= 0 {
        v / (MILLI as int)
    } else {
        -((-v) / (MILLI as int))
    }
}

pub open spec fn iabs(v: int) -> int {
    if v >= 0 {
        v
    } else {
        -v
    }
}

/// Where naive linear interpolation would place the entity at time
/// `elapsed` of an active move.
pub open spec fn naive_translation(info: MovementInfo, elapsed: int) -> Vec2i {
    (Vec2i {
        x: lerp1(
            info.start_translation.x as int,
            info.end_translation.x as int,
            elapsed,
            info.end_movement_time as int,
        ) as i64,
        y: lerp1(
            info.start_translation.y as int,
            info.end_translation.y as int,
            elapsed,
            info.end_movement_time as int,
        ) as i64,
    })
}

/// The naively interpolated orientation at time `elapsed` of an active move.
pub open spec fn naive_rotation(info: MovementInfo, elapsed: int) -> int {
    lerp1(info.start_rotation as int, info.end_rotation as int, elapsed, info.end_movement_time as int)
}

/// One tick of an active move.  The timer advances by `dt_ms`; if it has
/// reached the duration, position, rotation and cell snap exactly to their
/// end values and the entity stops.  Otherwise the transform follows naive
/// interpolation with overshoot correction: if the entity is already
/// closer to the target than to the naively interpolated point, it snaps
/// to the target and the timer is forced to the duration.  The logical
/// cell latches to the end cell as soon as the position agrees with it in
/// whole grid units.  The same snap rule applies to orientation, measured
/// by angular distance.
pub open spec fn step_moving(position: Position, info: MovementInfo, t: Transform2, dt_ms: int) -> (
    Moveable,
    Transform2,
) {
    let elapsed = info.current_movement_time + dt_ms;
    let dur = info.end_movement_time as int;
    if elapsed >= dur {
        (
            (Moveable { position: info.end_position, movement: Movement::Stopped }),
            (Transform2 { translation: info.end_translation, rotation: info.end_rotation }),
        )
    } else {
        let naive = naive_translation(info, elapsed);
        let snap_pos = dist2(t.translation, info.end_translation) < dist2(t.translation, naive);
        let new_translation = if snap_pos {
            info.end_translation
        } else {
            naive
        };
        let new_time = if snap_pos {
            info.end_movement_time
        } else {
            elapsed as u64
        };
        let latched = position != info.end_position && grid_round(new_translation.x as int)
            == grid_round(info.end_translation.x as int) && grid_round(new_translation.y as int)
            == grid_round(info.end_translation.y as int);
        let new_position = if latched {
            info.end_position
        } else {
            position
        };
        let nrot = naive_rotation(info, elapsed);
        let new_rotation = if iabs(t.rotation - info.end_rotation) < iabs(t.rotation - nrot) {
            info.end_rotation
        } else {
            nrot as i64
        };
        (
            (Moveable {
                position: new_position,
                movement: Movement::Moving(
                    MovementInfo { current_movement_time: new_time, ..info },
                ),
            }),
            (Transform2 { translation: new_translation, rotation: new_rotation }),
        )
    }
}

/// Converting an accepted move request into an interpolation: the end cell
/// comes from the adjacency table and its offset from the position grid;
/// a direction undefined from the current cell stops the entity without
/// animating.  The transform is untouched either way.
pub open spec fn step_queued(position: Position, t: Transform2, d: Direction) -> Moveable {
    match adjacency(position, d) {
        Option::None => (Moveable { position, movement: Movement::Stopped }),
        Option::Some(end) => (Moveable {
            position,
            movement: Movement::Moving(
                MovementInfo {
                    current_movement_time: 0,
                    end_movement_time: MOVE_DURATION_MS,
                    start_translation: t.translation,
                    end_translation: grid_offset(end),
                    start_rotation: t.rotation,
                    end_rotation: t.rotation,
                    start_position: position,
                    end_position: end,
                },
            ),
        }),
    }
}

/// One tick of the full movement state machine for one entity.
pub open spec fn step_moveable(m: Moveable, t: Transform2, dt_ms: int) -> (Moveable, Transform2) {
    match m.movement {
        Movement::Stopped => (m, t),
        Movement::Queued(d) => (step_queued(m.position, t, d), t),
        Movement::Moving(info) => step_moving(m.position, info, t, dt_ms),
    }
}

proof fn lemma_grid_offset_wf(p: Position)
    ensures
        vec2_wf(grid_offset(p)),
{
}

/// Exact fixed-point linear interpolation along one axis.  The result
/// always lies between the two endpoints.
fn lerp_component(s: i64, e: i64, elapsed: u64, duration: u64) -> (r: i64)
    requires
        -WORLD_BOUND <= s <= WORLD_BOUND,
        -WORLD_BOUND <= e <= WORLD_BOUND,
        0 < duration <= MOVE_DURATION_MS,
        elapsed <= duration,
    ensures
        r as int == lerp1(s as int, e as int, elapsed as int, duration as int),
        s <= e ==> s <= r <= e,
        e <= s ==> e <= r <= s,
{
    if e >= s {
        let delta: u64 = (e - s) as u64;
        proof {
            lemma_mul_nonnegative(delta as int, elapsed as int);
            lemma_mul_upper_bound(
                delta as int,
                2 * (WORLD_BOUND as int),
                elapsed as int,
                MOVE_DURATION_MS as int,
            );
            lemma_mul_upper_bound(delta as int, delta as int, elapsed as int, duration as int);
        }
        let num: u64 = delta * elapsed;
        proof {
            lemma_div_pos_is_pos(num as int, duration as int);
            lemma_div_is_ordered(num as int, (delta as int) * (duration as int), duration as int);
            lemma_div_by_multiple(delta as int, duration as int);
        }
        let q: u64 = num / duration;
        s + (q as i64)
    } else {
        let delta: u64 = (s - e) as u64;
        proof {
            lemma_mul_nonnegative(delta as int, elapsed as int);
            lemma_mul_upper_bound(
                delta as int,
                2 * (WORLD_BOUND as int),
                elapsed as int,
                MOVE_DURATION_MS as int,
            );
            lemma_mul_upper_bound(delta as int, delta as int, elapsed as int, duration as int);
        }
        let num: u64 = delta * elapsed;
        proof {
            lemma_div_pos_is_pos(num as int, duration as int);
            lemma_div_is_ordered(num as int, (delta as int) * (duration as int), duration as int);
            lemma_div_by_multiple(delta as int, duration as int);
        }
        let q: u64 = num / duration;
        s - (q as i64)
    }
}

proof fn lemma_square_bound(v: int, b: int)
    by (nonlinear_arith)
    requires
        -b <= v <= b,
        0 <= b,
    ensures
        0 <= v * v <= b * b,
{
}

/// Squared distance, exact in fixed-point units.
fn dist2_exec(a: &Vec2i, b: &Vec2i) -> (r: i64)
    requires
        vec2_wf(*a),
        vec2_wf(*b),
    ensures
        r as int == dist2(*a, *b),
{
    let dx: i64 = a.x - b.x;
    let dy: i64 = a.y - b.y;
    proof {
        lemma_square_bound(dx as int, 2 * (WORLD_BOUND as int));
        lemma_square_bound(dy as int, 2 * (WORLD_BOUND as int));
    }
    dx * dx + dy * dy
}

/// A coordinate rounded to whole grid units, toward zero.
fn grid_round_exec(v: i64) -> (r: i64)
    requires
        -WORLD_BOUND <= v <= WORLD_BOUND,
    ensures
        r as int == grid_round(v as int),
{
    if v >= 0 {
        proof {
            lemma_div_pos_is_pos(v as int, MILLI as int);
            lemma_div_nonincreasing(v as int, MILLI as int);
        }
        ((v as u64) / (MILLI as u64)) as i64
    } else {
        proof {
            lemma_div_pos_is_pos(-(v as int), MILLI as int);
            lemma_div_nonincreasing(-(v as int), MILLI as int);
        }
        let q: u64 = ((-v) as u64) / (MILLI as u64);
        -(q as i64)
    }
}

/// Absolute difference, the angular distance between two orientations.
fn absdiff(a: i64, b: i64) -> (r: i64)
    requires
        -2 * WORLD_BOUND <= a <= 2 * WORLD_BOUND,
        -2 * WORLD_BOUND <= b <= 2 * WORLD_BOUND,
    ensures
        r as int == iabs(a - b),
{
    if a >= b {
        a - b
    } else {
        b - a
    }
}

/// A freshly spawned movable entity: stopped at the grid's center cell,
/// with its transform exactly on that cell.
pub fn spawn_player() -> (r: (Moveable, Transform2))
    ensures
        r.0 == (Moveable { position: Position::Center, movement: Movement::Stopped }),
        r.1 == (Transform2 { translation: grid_offset(Position::Center), rotation: 0 }),
        moveable_wf(r.0),
        transform_wf(r.1),
{
    let t = lookup(Position::Center);
    (
        Moveable { position: Position::Center, movement: Movement::Stopped },
        Transform2 { translation: t, rotation: 0 },
    )
}

/// One tick of the movement state machine for one entity: advances the
/// movement state by `dt_ms` milliseconds and mutates the transform
/// accordingly, exactly as `step_moveable` describes.
pub fn update_moveable(moveable: &mut Moveable, transform: &mut Transform2, dt_ms: u32)
    requires
        moveable_wf(*old(moveable)),
        transform_wf(*old(transform)),
    ensures
        (*final(moveable), *final(transform)) == step_moveable(
            *old(moveable),
            *old(transform),
            dt_ms as int,
        ),
        moveable_wf(*final(moveable)),
        transform_wf(*final(transform)),
{
    let mv = moveable.movement;
    match mv {
        Movement::Stopped => {},
        Movement::Queued(direction) => {
            match adjacent(moveable.position, direction) {
                None => {
                    moveable.movement = Movement::Stopped;
                },
                Some(end) => {
                    proof {
                        lemma_grid_offset_wf(end);
                    }
                    let end_translation = lookup(end);
                    moveable.movement = Movement::Moving(
                        MovementInfo {
                            current_movement_time: 0,
                            end_movement_time: MOVE_DURATION_MS,
                            start_translation: transform.translation,
                            end_translation,
                            start_rotation: transform.rotation,
                            end_rotation: transform.rotation,
                            start_position: moveable.position,
                            end_position: end,
                        },
                    );
                },
            }
        },
        Movement::Moving(info) => {
            let elapsed: u64 = info.current_movement_time + (dt_ms as u64);
            if elapsed >= info.end_movement_time {
                transform.translation = info.end_translation;
                transform.rotation = info.end_rotation;
                moveable.position = info.end_position;
                moveable.movement = Movement::Stopped;
            } else {
                let naive = Vec2i {
                    x: lerp_component(
                        info.start_translation.x,
                        info.end_translation.x,
                        elapsed,
                        info.end_movement_time,
                    ),
                    y: lerp_component(
                        info.start_translation.y,
                        info.end_translation.y,
                        elapsed,
                        info.end_movement_time,
                    ),
                };
                let mut new_time: u64 = elapsed;
                let d_end = dist2_exec(&transform.translation, &info.end_translation);
                let d_naive = dist2_exec(&transform.translation, &naive);
                if d_end < d_naive {
                    transform.translation = info.end_translation;
                    new_time = info.end_movement_time;
                } else {
                    transform.translation = naive;
                }
                if moveable.position != info.end_position && grid_round_exec(
                    transform.translation.x,
                ) == grid_round_exec(info.end_translation.x) && grid_round_exec(
                    transform.translation.y,
                ) == grid_round_exec(info.end_translation.y) {
                    moveable.position = info.end_position;
                }
                let nrot = lerp_component(
                    info.start_rotation,
                    info.end_rotation,
                    elapsed,
                    info.end_movement_time,
                );
                let a_end = absdiff(transform.rotation, info.end_rotation);
                let a_naive = absdiff(transform.rotation, nrot);
                if a_end < a_naive {
                    transform.rotation = info.end_rotation;
                } else {
                    transform.rotation = nrot;
                }
                moveable.movement = Movement::Moving(
                    MovementInfo { current_movement_time: new_time, ..info },
                );
            }
        },
    }
}

/// One tick of the movement state machine for every entity in an arena,
/// each advanced independently, in place and in order.
pub fn update_moveables(entities: &mut Vec<(Moveable, Transform2)>, dt_ms: u32)
    requires
        forall|i: int|
            0 <= i < old(entities)@.len() ==> moveable_wf((#[trigger] old(entities)@[i]).0)
                && transform_wf(old(entities)@[i].1),
    ensures
        final(entities)@.len() == old(entities)@.len(),
        forall|i: int|
            0 <= i < old(entities)@.len() ==> #[trigger] final(entities)@[i] == step_moveable(
                old(entities)@[i].0,
                old(entities)@[i].1,
                dt_ms as int,
            ),
        forall|i: int|
            0 <= i < old(entities)@.len() ==> moveable_wf((#[trigger] final(entities)@[i]).0)
                && transform_wf(final(entities)@[i].1),
{
    let mut out: Vec<(Moveable, Transform2)> = Vec::new();
    let mut i: usize = 0;
    while i < entities.len()
        invariant
            0 <= i <= entities@.len(),
            entities@ == old(entities)@,
            forall|j: int|
                0 <= j < old(entities)@.len() ==> moveable_wf((#[trigger] old(entities)@[j]).0)
                    && transform_wf(old(entities)@[j].1),
            out@.len() == i,
            forall|j: int|
                0 <= j < i ==> #[trigger] out@[j] == step_moveable(
                    old(entities)@[j].0,
                    old(entities)@[j].1,
                    dt_ms as int,
                ),
            forall|j: int|
                0 <= j < i ==> moveable_wf((#[trigger] out@[j]).0) && transform_wf(out@[j].1),
        decreases entities@.len() - i,
    {
        let (mut m, mut t) = entities[i];
        update_moveable(&mut m, &mut t, dt_ms);
        out.push((m, t));
        i += 1;
    }
    *entities = out;
}

/// The direction the pressed inputs select, the checks made in the fixed
/// order Up, Down, Left, Right with the last pressed check winning.
pub open spec fn selected_direction(input: InputState) -> Option<Direction> {
    if input.right {
        Some(Direction::Right)
    } else if input.left {
        Some(Direction::Left)
    } else if input.down {
        Some(Direction::Down)
    } else if input.up {
        Some(Direction::Up)
    } else {
        None
    }
}

/// What a tick of input does to the movement state: a selected direction
/// is queued only from `Stopped`; at most one move is in flight.
pub open spec fn queue_input(m: Movement, input: InputState) -> Movement {
    if m is Stopped {
        match selected_direction(input) {
            Option::Some(d) => Movement::Queued(d),
            Option::None => Movement::Stopped,
        }
    } else {
        m
    }
}

/// The spawn request an accepted fire action emits: the bullet starts at
/// the entity's transform (the grid plane is x = 0, so plane coordinates
/// (x, y) sit at world (z, y)) and travels along +x with a unit direction.
pub open spec fn spawn_event_for(t: Transform2) -> BulletEvent {
    (BulletEvent {
        start: (Vec3i { x: 0, y: t.translation.y, z: t.translation.x }),
        direction: (Vec3i { x: MILLI, y: 0, z: 0 }),
    })
}

/// The direction the pressed inputs select, if any.
pub fn select_direction(input: InputState) -> (r: Option<Direction>)
    ensures
        r == selected_direction(input),
{
    let mut move_dir: Option<Direction> = None;
    if input.up {
        move_dir = Some(Direction::Up);
    }
    if input.down {
        move_dir = Some(Direction::Down);
    }
    if input.left {
        move_dir = Some(Direction::Left);
    }
    if input.right {
        move_dir = Some(Direction::Right);
    }
    move_dir
}

/// One tick of input handling for the player entity.  Expires the fire
/// latch (time-driven, every tick), emits a debounced spawn request if
/// fire is pressed and no action is latched, and queues a directional
/// move if the entity is stopped.
pub fn player_input(
    moveable: &mut Moveable,
    transform: &Transform2,
    latch: &mut FireLatch,
    input: InputState,
    now_ms: u64,
) -> (fire_event: Option<BulletEvent>)
    ensures
        final(moveable).position == old(moveable).position,
        final(moveable).movement == queue_input(old(moveable).movement, input),
        ({
            let cleared = ticked(old(latch).last_action_ms, now_ms);
            if input.fire && cleared is None {
                &&& fire_event == Some(spawn_event_for(*transform))
                &&& final(latch).last_action_ms == Some(now_ms)
            } else {
                &&& fire_event is None
                &&& final(latch).last_action_ms == cleared
            }
        }),
{
    latch.tick(now_ms);
    let mut fire_event: Option<BulletEvent> = None;
    if input.fire && latch.last_action_ms.is_none() {
        latch.last_action_ms = Some(now_ms);
        fire_event = Some(
            BulletEvent {
                start: Vec3i { x: 0, y: transform.translation.y, z: transform.translation.x },
                direction: Vec3i { x: MILLI, y: 0, z: 0 },
            },
        );
    }
    let move_dir = select_direction(input);
    match moveable.movement {
        Movement::Stopped => {
            if let Some(d) = move_dir {
                moveable.movement = Movement::Queued(d);
            }
        },
        _ => {},
    }
    fire_event
}

/// Law: ticking a `Stopped` entity with any elapsed time leaves both its
/// state and its transform unchanged.
pub proof fn lemma_stopped_idempotent(m: Moveable, t: Transform2, dt_ms: int)
    requires
        m.movement is Stopped,
    ensures
        step_moveable(m, t, dt_ms) == (m, t),
{
}

/// Law: converting a queued move.  Where the adjacency table defines a
/// target, the tick yields `Moving` whose start cell is the current cell,
/// whose end cell is the table's target with its offset from the position
/// grid, and whose timer starts at zero; where it does not, the tick
/// yields `Stopped`.  The transform and the logical cell are unchanged
/// either way.
pub proof fn lemma_queued_transition(m: Moveable, t: Transform2, d: Direction, dt_ms: int)
    requires
        m.movement == Movement::Queued(d),
    ensures
        step_moveable(m, t, dt_ms).1 == t,
        step_moveable(m, t, dt_ms).0.position == m.position,
        adjacency(m.position, d) matches Some(end) ==> step_moveable(m, t, dt_ms).0.movement
            == Movement::Moving(
            MovementInfo {
                current_movement_time: 0,
                end_movement_time: MOVE_DURATION_MS,
                start_translation: t.translation,
                end_translation: grid_offset(end),
                start_rotation: t.rotation,
                end_rotation: t.rotation,
                start_position: m.position,
                end_position: end,
            },
        ),
        adjacency(m.position, d) is None ==> step_moveable(m, t, dt_ms).0.movement
            is Stopped,
{
}

/// Law: while a move is active its timer never decreases and never passes
/// the move duration; and on the tick where the timer reaches the
/// duration, the transform equals the end offset and end rotation exactly
/// and the entity stops on the end cell.
pub proof fn lemma_moving_timer(position: Position, info: MovementInfo, t: Transform2, dt_ms: int)
    requires
        info_wf(info),
        0 <= dt_ms,
    ensures
        step_moving(position, info, t, dt_ms).0.movement matches Movement::Moving(info2) ==> {
            &&& info.current_movement_time <= info2.current_movement_time
            &&& info2.current_movement_time <= info2.end_movement_time
            &&& info2.end_movement_time == info.end_movement_time
        },
        info.current_movement_time + dt_ms >= info.end_movement_time ==> {
            &&& step_moving(position, info, t, dt_ms).0.movement is Stopped
            &&& step_moving(position, info, t, dt_ms).0.position == info.end_position
            &&& step_moving(position, info, t, dt_ms).1.translation == info.end_translation
            &&& step_moving(position, info, t, dt_ms).1.rotation == info.end_rotation
        },
{
}

/// Law: overshoot correction.  If the tick leaves the timer short of the
/// duration but the entity is already strictly closer to the end offset
/// than to the naively interpolated point, the position snaps exactly to
/// the end offset and the timer is forced to the full duration.
pub proof fn lemma_overshoot_correction(
    position: Position,
    info: MovementInfo,
    t: Transform2,
    dt_ms: int,
)
    requires
        info_wf(info),
        0 <= dt_ms,
        info.current_movement_time + dt_ms < info.end_movement_time,
        dist2(t.translation, info.end_translation) < dist2(
            t.translation,
            naive_translation(info, info.current_movement_time + dt_ms),
        ),
    ensures
        step_moving(position, info, t, dt_ms).1.translation == info.end_translation,
        step_moving(position, info, t, dt_ms).0.movement matches Movement::Moving(info2)
            && info2.current_movement_time == info2.end_movement_time,
{
}

} // verus!
