//! Projectile kinematics: bullets spawn on a fire event, travel in a
//! straight line at a fixed speed, and are swept once their primary-axis
//! coordinate crosses a fixed despawn boundary.

use vstd::prelude::*;
use crate::grid::MILLI;

verus! {

use vstd::arithmetic::mul::{lemma_mul_upper_bound, lemma_mul_nonnegative};

/// Bullet speed in world units per second.
pub const SPEED: i64 = 90;

/// The despawn boundary on the primary (x) axis, in thousandths of a world
/// unit: 500 world units.
pub const BULLET_DESPAWN_POINT: i64 = 500000;

/// Bound on each component of a bullet direction, in thousandths of a world
/// unit: a direction is a unit vector, so no component exceeds one unit.
pub const DIR_LIMIT: i64 = 1000;

/// Bound on each coordinate a bullet may be advanced from, so that one
/// step of the kinematics cannot overflow the fixed-point arithmetic.
pub const POS_LIMIT: i64 = 1000000000000;

/// A 3-D point or direction, in thousandths of a world unit.  The grid
/// plane is x = 0; bullets travel along the +x axis.
#[derive(Clone, Copy, PartialEq, Eq, Structural, Debug)]
pub struct Vec3i {
    pub x: i64,
    pub y: i64,
    pub z: i64,
}

/// A live projectile: its constant unit-time direction.  Its position is
/// carried alongside it as a separate transform.
#[derive(Clone, Copy, PartialEq, Eq, Structural, Debug)]
pub struct Bullet {
    pub direction: Vec3i,
}

/// A spawn request: where the bullet starts and the unit direction it
/// travels in.
#[derive(Clone, Copy, PartialEq, Eq, Structural, Debug)]
pub struct BulletEvent {
    pub start: Vec3i,
    pub direction: Vec3i,
}

/// A well-formed direction: each component within one world unit.
pub open spec fn dir_wf(v: Vec3i) -> bool {
    &&& -DIR_LIMIT <= v.x <= DIR_LIMIT
    &&& -DIR_LIMIT <= v.y <= DIR_LIMIT
    &&& -DIR_LIMIT <= v.z <= DIR_LIMIT
}

/// A position the kinematics may advance from without overflowing.
pub open spec fn pos_wf(v: Vec3i) -> bool {
    &&& -POS_LIMIT <= v.x <= POS_LIMIT
    &&& -POS_LIMIT <= v.y <= POS_LIMIT
    &&& -POS_LIMIT <= v.z <= POS_LIMIT
}

/// The displacement along one axis over `dt_ms` milliseconds for a
/// direction component `dir_c`: `dir_c * SPEED * dt_ms / 1000`, rounded
/// toward zero.
pub open spec fn scaled_step(dir_c: int, dt_ms: int) -> int {
    if dir_c >= 0 {
        dir_c * SPEED * dt_ms / (MILLI as int)
    } else {
        -((-dir_c) * SPEED * dt_ms / (MILLI as int))
    }
}

/// A bullet's position after one tick of `dt_ms` milliseconds.
pub open spec fn step_translation(b: Bullet, t: Vec3i, dt_ms: int) -> Vec3i {
    (Vec3i {
        x: (t.x + scaled_step(b.direction.x as int, dt_ms)) as i64,
        y: (t.y + scaled_step(b.direction.y as int, dt_ms)) as i64,
        z: (t.z + scaled_step(b.direction.z as int, dt_ms)) as i64,
    })
}

/// All bullets advanced by one tick, directions unchanged, order kept.
pub open spec fn stepped(s: Seq<(Bullet, Vec3i)>, dt_ms: int) -> Seq<(Bullet, Vec3i)> {
    s.map_values(|p: (Bullet, Vec3i)| (p.0, step_translation(p.0, p.1, dt_ms)))
}

/// Whether the boundary sweep keeps a bullet: it has not yet crossed the
/// despawn boundary on the primary axis.
pub open spec fn keep_bullet(p: (Bullet, Vec3i)) -> bool {
    p.1.x <= BULLET_DESPAWN_POINT
}

/// The bullet list after a boundary sweep: exactly the bullets that have
/// not crossed the boundary, in their original order.
pub open spec fn swept(s: Seq<(Bullet, Vec3i)>) -> Seq<(Bullet, Vec3i)>
    decreases s.len(),
{
    if s.len() == 0 {
        Seq::<(Bullet, Vec3i)>::empty()
    } else if keep_bullet(s.last()) {
        swept(s.drop_last()).push(s.last())
    } else {
        swept(s.drop_last())
    }
}

proof fn lemma_scaled_step_bounds(dir_c: int, dt_ms: int)
    requires
        -DIR_LIMIT <= dir_c <= DIR_LIMIT,
        0 <= dt_ms <= u32::MAX,
    ensures
        -(DIR_LIMIT * SPEED * u32::MAX) <= scaled_step(dir_c, dt_ms) <= DIR_LIMIT * SPEED
            * u32::MAX,
{
    if dir_c >= 0 {
        lemma_mul_nonnegative(dir_c * SPEED, dt_ms);
        lemma_mul_upper_bound(dir_c * SPEED, DIR_LIMIT * SPEED, dt_ms, u32::MAX as int);
        vstd::arithmetic::div_mod::lemma_div_pos_is_pos(dir_c * SPEED * dt_ms, MILLI as int);
        vstd::arithmetic::div_mod::lemma_div_is_ordered(
            dir_c * SPEED * dt_ms,
            DIR_LIMIT * SPEED * (u32::MAX as int),
            MILLI as int,
        );
        vstd::arithmetic::div_mod::lemma_div_nonincreasing(
            DIR_LIMIT * SPEED * (u32::MAX as int),
            MILLI as int,
        );
    } else {
        lemma_mul_nonnegative((-dir_c) * SPEED, dt_ms);
        lemma_mul_upper_bound((-dir_c) * SPEED, DIR_LIMIT * SPEED, dt_ms, u32::MAX as int);
        vstd::arithmetic::div_mod::lemma_div_pos_is_pos((-dir_c) * SPEED * dt_ms, MILLI as int);
        vstd::arithmetic::div_mod::lemma_div_is_ordered(
            (-dir_c) * SPEED * dt_ms,
            DIR_LIMIT * SPEED * (u32::MAX as int),
            MILLI as int,
        );
        vstd::arithmetic::div_mod::lemma_div_nonincreasing(
            DIR_LIMIT * SPEED * (u32::MAX as int),
            MILLI as int,
        );
    }
}

/// One axis of the kinematics step, in exact fixed-point arithmetic.
fn scale_component(dir_c: i64, dt_ms: u32) -> (r: i64)
    requires
        -DIR_LIMIT <= dir_c <= DIR_LIMIT,
    ensures
        r as int == scaled_step(dir_c as int, dt_ms as int),
        -(DIR_LIMIT * SPEED * u32::MAX) <= r as int <= DIR_LIMIT * SPEED * u32::MAX,
{
    proof {
        lemma_scaled_step_bounds(dir_c as int, dt_ms as int);
    }
    if dir_c >= 0 {
        let m: u64 = (dir_c as u64) * (SPEED as u64);
        proof {
            lemma_mul_upper_bound(m as int, DIR_LIMIT * SPEED, dt_ms as int, u32::MAX as int);
            lemma_mul_nonnegative(m as int, dt_ms as int);
        }
        let num: u64 = m * (dt_ms as u64);
        let q: u64 = num / (MILLI as u64);
        proof {
            vstd::arithmetic::div_mod::lemma_div_pos_is_pos(num as int, MILLI as int);
            vstd::arithmetic::div_mod::lemma_div_is_ordered(
                num as int,
                DIR_LIMIT * SPEED * (u32::MAX as int),
                MILLI as int,
            );
            vstd::arithmetic::div_mod::lemma_div_nonincreasing(
                DIR_LIMIT * SPEED * (u32::MAX as int),
                MILLI as int,
            );
        }
        q as i64
    } else {
        let m: u64 = ((-dir_c) as u64) * (SPEED as u64);
        proof {
            lemma_mul_upper_bound(m as int, DIR_LIMIT * SPEED, dt_ms as int, u32::MAX as int);
            lemma_mul_nonnegative(m as int, dt_ms as int);
        }
        let num: u64 = m * (dt_ms as u64);
        let q: u64 = num / (MILLI as u64);
        proof {
            vstd::arithmetic::div_mod::lemma_div_pos_is_pos(num as int, MILLI as int);
            vstd::arithmetic::div_mod::lemma_div_is_ordered(
                num as int,
                DIR_LIMIT * SPEED * (u32::MAX as int),
                MILLI as int,
            );
            vstd::arithmetic::div_mod::lemma_div_nonincreasing(
                DIR_LIMIT * SPEED * (u32::MAX as int),
                MILLI as int,
            );
        }
        -(q as i64)
    }
}

/// One bullet advanced by one tick: `direction * SPEED * dt` is added to
/// its position, axis by axis.
fn advance_translation(b: &Bullet, t: &Vec3i, dt_ms: u32) -> (r: Vec3i)
    requires
        dir_wf(b.direction),
        pos_wf(*t),
    ensures
        r == step_translation(*b, *t, dt_ms as int),
{
    let sx = scale_component(b.direction.x, dt_ms);
    let sy = scale_component(b.direction.y, dt_ms);
    let sz = scale_component(b.direction.z, dt_ms);
    Vec3i { x: t.x + sx, y: t.y + sy, z: t.z + sz }
}

/// Append one bullet for a spawn request: it starts at the request's
/// origin and keeps the request's unit direction.
pub fn spawn_bullet(bullets: &mut Vec<(Bullet, Vec3i)>, event: &BulletEvent)
    requires
        dir_wf(event.direction),
        pos_wf(event.start),
    ensures
        final(bullets)@ == old(bullets)@.push(
            ((Bullet { direction: event.direction }), event.start),
        ),
{
    bullets.push((Bullet { direction: event.direction }, event.start));
}

/// The bullet a single spawn request gives rise to.
pub open spec fn spawn_entry(e: BulletEvent) -> (Bullet, Vec3i) {
    ((Bullet { direction: e.direction }), e.start)
}

/// The bullet list after appending one bullet per spawn request, in order.
pub open spec fn spawned(s: Seq<(Bullet, Vec3i)>, events: Seq<BulletEvent>) -> Seq<
    (Bullet, Vec3i),
> {
    s + events.map_values(|e: BulletEvent| spawn_entry(e))
}

/// Append one bullet for each spawn request, in order.
pub fn handle_bullet_event(bullets: &mut Vec<(Bullet, Vec3i)>, events: &Vec<BulletEvent>)
    requires
        forall|i: int|
            0 <= i < events@.len() ==> dir_wf((#[trigger] events@[i]).direction) && pos_wf(
                events@[i].start,
            ),
    ensures
        final(bullets)@ == spawned(old(bullets)@, events@),
{
    let mut i: usize = 0;
    while i < events.len()
        invariant
            0 <= i <= events@.len(),
            forall|j: int|
                0 <= j < events@.len() ==> dir_wf((#[trigger] events@[j]).direction) && pos_wf(
                    events@[j].start,
                ),
            bullets@ == spawned(old(bullets)@, events@.take(i as int)),
        decreases events@.len() - i,
    {
        let ev = events[i];
        spawn_bullet(bullets, &ev);
        proof {
            assert(events@.take(i + 1 as int).map_values(|e: BulletEvent| spawn_entry(e))
                =~= events@.take(i as int).map_values(|e: BulletEvent| spawn_entry(e)).push(
                spawn_entry(ev),
            ));
            assert(bullets@ =~= spawned(old(bullets)@, events@.take(i + 1 as int)));
        }
        i += 1;
    }
    proof {
        assert(events@.take(events@.len() as int) =~= events@);
    }
}

/// Advance every live bullet by one tick of `dt_ms` milliseconds.
pub fn advance_bullets(bullets: &mut Vec<(Bullet, Vec3i)>, dt_ms: u32)
    requires
        forall|i: int|
            0 <= i < old(bullets)@.len() ==> dir_wf((#[trigger] old(bullets)@[i]).0.direction)
                && pos_wf(old(bullets)@[i].1),
    ensures
        final(bullets)@ == stepped(old(bullets)@, dt_ms as int),
{
    let mut out: Vec<(Bullet, Vec3i)> = Vec::new();
    let mut i: usize = 0;
    while i < bullets.len()
        invariant
            0 <= i <= bullets@.len(),
            bullets@ == old(bullets)@,
            forall|j: int|
                0 <= j < old(bullets)@.len() ==> dir_wf((#[trigger] old(bullets)@[j]).0.direction)
                    && pos_wf(old(bullets)@[j].1),
            out@.len() == i,
            forall|j: int|
                0 <= j < i ==> #[trigger] out@[j] == (
                    old(bullets)@[j].0,
                    step_translation(old(bullets)@[j].0, old(bullets)@[j].1, dt_ms as int),
                ),
        decreases bullets@.len() - i,
    {
        let (b, t) = bullets[i];
        let nt = advance_translation(&b, &t, dt_ms);
        out.push((b, nt));
        i += 1;
    }
    *bullets = out;
    proof {
        assert(bullets@ =~= stepped(old(bullets)@, dt_ms as int));
    }
}

/// Boundary sweep: remove every bullet whose primary-axis coordinate has
/// crossed the despawn boundary, keeping the rest in order.  Performed as
/// a filter pass over the whole list.
pub fn sweep_bullets(bullets: &mut Vec<(Bullet, Vec3i)>)
    ensures
        final(bullets)@ == swept(old(bullets)@),
{
    let mut out: Vec<(Bullet, Vec3i)> = Vec::new();
    let mut i: usize = 0;
    while i < bullets.len()
        invariant
            0 <= i <= bullets@.len(),
            bullets@ == old(bullets)@,
            out@ == swept(old(bullets)@.take(i as int)),
        decreases bullets@.len() - i,
    {
        let (b, t) = bullets[i];
        proof {
            assert(old(bullets)@.take(i + 1 as int).drop_last() =~= old(bullets)@.take(i as int));
            assert(old(bullets)@.take(i + 1 as int).last() == old(bullets)@[i as int]);
        }
        if t.x <= BULLET_DESPAWN_POINT {
            out.push((b, t));
        }
        i += 1;
    }
    proof {
        assert(old(bullets)@.take(bullets@.len() as int) =~= old(bullets)@);
    }
    *bullets = out;
}

/// One full projectile tick, as the simulation runs it: advance every
/// bullet, then sweep the ones past the boundary.
pub fn update_bullets(bullets: &mut Vec<(Bullet, Vec3i)>, dt_ms: u32)
    requires
        forall|i: int|
            0 <= i < old(bullets)@.len() ==> dir_wf((#[trigger] old(bullets)@[i]).0.direction)
                && pos_wf(old(bullets)@[i].1),
    ensures
        final(bullets)@ == swept(stepped(old(bullets)@, dt_ms as int)),
{
    advance_bullets(bullets, dt_ms);
    sweep_bullets(bullets);
}

} // verus!
