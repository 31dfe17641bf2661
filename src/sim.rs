use vstd::prelude::*;
use crate::body::{dir_sign, Body, BodyModel, Direction, VEL_LIMIT};
use vstd::arithmetic::div_mod::{lemma_div_is_ordered, lemma_div_multiples_vanish, lemma_div_pos_is_pos};
use crate::world::{TileWorld, SCALE};

verus! {

/// Added to the vertical velocity every tick.
pub const GRAVITY: i64 = 10;

/// Added to the horizontal velocity every tick while walking.
pub const ACCEL: i64 = 15;

/// Largest horizontal speed.
pub const SPEED_X_MAX: i64 = 60;

/// Horizontal speeds below this snap to zero.
pub const DEAD_ZONE: i64 = 10;

/// Percentage of horizontal speed kept per tick on the ground without intent.
pub const GROUND_DAMPING: i64 = 85;

/// Percentage of horizontal speed kept per tick in the air without intent.
pub const AIR_DAMPING: i64 = 99;

pub open spec fn abs(v: int) -> int {
    if v < 0 { -v } else { v }
}

/// Length of the sweep: the larger velocity component.
pub open spec fn sweep_len(b: BodyModel) -> int {
    if abs(b.vx) >= abs(b.vy) { abs(b.vx) } else { abs(b.vy) }
}

/// Number of probe points: steps `0..=ceil(sweep_len / SCALE as int)`.
pub open spec fn probe_count(b: BodyModel) -> int {
    (sweep_len(b) + SCALE as int - 1) / SCALE as int + 1
}

/// Offset along an axis of velocity `v` after `k` probe steps: one tile per
/// step along the dominant axis, in proportion on the other, rounded toward
/// zero.
pub open spec fn probe_offset(v: int, k: int, m: int) -> int {
    if m == 0 {
        0
    } else if v >= 0 {
        (k * SCALE as int * v) / m
    } else {
        -((k * SCALE as int * (-v)) / m)
    }
}

pub open spec fn probe_x(b: BodyModel, k: int) -> int {
    b.x + probe_offset(b.vx, k, sweep_len(b))
}

pub open spec fn probe_y(b: BodyModel, k: int) -> int {
    b.y + probe_offset(b.vy, k, sweep_len(b))
}

/// Rising into a solid tile above probe `k`.
pub open spec fn hit_up(w: TileWorld, b: BodyModel, k: int) -> bool {
    b.vy < 0 && probe_y(b, k) >= SCALE as int && w.solid_at(probe_x(b, k), probe_y(b, k) - SCALE as int)
}

/// Falling onto a solid tile below probe `k`.
pub open spec fn hit_down(w: TileWorld, b: BodyModel, k: int) -> bool {
    b.vy > 0 && w.solid_at(probe_x(b, k), probe_y(b, k) + SCALE as int)
}

/// Moving left into a solid tile beside probe `k`.
pub open spec fn hit_left(w: TileWorld, b: BodyModel, k: int) -> bool {
    b.vx < 0 && probe_x(b, k) >= SCALE as int && w.solid_at(probe_x(b, k) - SCALE as int, probe_y(b, k))
}

/// Moving right into a solid tile beside probe `k`.
pub open spec fn hit_right(w: TileWorld, b: BodyModel, k: int) -> bool {
    b.vx > 0 && w.solid_at(probe_x(b, k) + SCALE as int, probe_y(b, k))
}

pub open spec fn hits(w: TileWorld, b: BodyModel, k: int) -> bool {
    hit_up(w, b, k) || hit_down(w, b, k) || hit_left(w, b, k) || hit_right(w, b, k)
}

/// The first probe step at or after `k` that collides, or `probe_count(b)`
/// when none does.
pub open spec fn first_hit_from(w: TileWorld, b: BodyModel, k: int) -> int
    decreases probe_count(b) - k,
{
    if k < 0 || k >= probe_count(b) {
        probe_count(b)
    } else if hits(w, b, k) {
        k
    } else {
        first_hit_from(w, b, k + 1)
    }
}

pub open spec fn first_hit(w: TileWorld, b: BodyModel) -> int {
    first_hit_from(w, b, 0)
}

/// The body after the swept collision check and the move: the first probe that
/// collides decides; a vertical hit snaps `y` to the probe, a horizontal one
/// keeps `x`, and the velocity on that axis becomes zero.
pub open spec fn swept(w: TileWorld, b: BodyModel) -> BodyModel {
    let k = first_hit(w, b);
    if k < probe_count(b) {
        let vertical = hit_up(w, b, k) || hit_down(w, b, k);
        let horizontal = hit_left(w, b, k) || hit_right(w, b, k);
        BodyModel {
            x: if horizontal { b.x } else { b.x + b.vx },
            y: if vertical { probe_y(b, k) } else { b.y + b.vy },
            vx: if horizontal { 0 } else { b.vx },
            vy: if vertical { 0 } else { b.vy },
            on_ground: hit_down(w, b, k),
            walk_intent: b.walk_intent,
        }
    } else {
        BodyModel { x: b.x + b.vx, y: b.y + b.vy, on_ground: false, ..b }
    }
}

/// `x` held between the world's side walls, one tile in from each edge.
pub open spec fn clamp_x(w: TileWorld, x: int) -> int {
    if x < SCALE as int {
        SCALE as int
    } else if x > (w.width - 1) * SCALE as int {
        (w.width - 1) * SCALE as int
    } else {
        x
    }
}

/// `pct` percent of `v`, rounded toward zero.
pub open spec fn damp(v: int, pct: int) -> int {
    if v >= 0 { (v * pct) / 100 } else { -(((-v) * pct) / 100) }
}

/// The horizontal velocity for the next tick: accelerate with intent, else
/// damp (more on the ground); clamp to the top speed, snap small speeds to 0.
pub open spec fn next_vx(vx: int, grounded: bool, intent: Option<Direction>) -> int {
    let v = match intent {
        Some(d) => vx + dir_sign(d) * ACCEL as int,
        None => damp(vx, if grounded { GROUND_DAMPING as int } else { AIR_DAMPING as int }),
    };
    if abs(v) > SPEED_X_MAX as int {
        match intent {
            Some(d) => dir_sign(d) * SPEED_X_MAX as int,
            None => if v < 0 { -SPEED_X_MAX as int } else { SPEED_X_MAX as int },
        }
    } else if abs(v) < DEAD_ZONE as int {
        0
    } else {
        v
    }
}

/// One tick of the simulation.
pub open spec fn step(w: TileWorld, b: BodyModel) -> BodyModel {
    let s = swept(w, b);
    BodyModel {
        x: clamp_x(w, s.x),
        y: s.y,
        vx: next_vx(s.vx, s.on_ground, b.walk_intent),
        vy: s.vy + GRAVITY as int,
        on_ground: s.on_ground,
        walk_intent: b.walk_intent,
    }
}


/// `k * SCALE * |v| / m` is at most `k * SCALE` when `|v| <= m`.
proof fn lemma_offset_bound(a: int, av: int, m: int)
    requires
        0 <= a,
        0 <= av <= m,
        0 < m,
    ensures
        0 <= (a * av) / m <= a,
{
    assert(a * av <= m * a) by (nonlinear_arith)
        requires 0 <= a, 0 <= av <= m;
    assert(0 <= a * av) by (nonlinear_arith)
        requires 0 <= a, 0 <= av;
    lemma_div_is_ordered(a * av, m * a, m);
    lemma_div_multiples_vanish(a, m);
    lemma_div_pos_is_pos(a * av, m);
}

fn abs_i64(v: i64) -> (r: i64)
    requires
        -VEL_LIMIT <= v <= VEL_LIMIT,
    ensures
        r == abs(v as int),
{
    if v < 0 { -v } else { v }
}

/// Offset along an axis of velocity `v` after `k` probe steps.
fn offset_at(v: i64, k: i64, m: i64) -> (r: i64)
    requires
        abs(v as int) <= m <= VEL_LIMIT,
        0 <= k <= m as int / SCALE as int + 1,
    ensures
        r == probe_offset(v as int, k as int, m as int),
        abs(r as int) <= k * SCALE,
{
    if m == 0 {
        return 0;
    }
    let av = abs_i64(v);
    let a = k * SCALE;
    proof {
        assert(a <= m + SCALE);
        assert(a * av <= (VEL_LIMIT + SCALE) * VEL_LIMIT) by (nonlinear_arith)
            requires 0 <= a <= VEL_LIMIT + SCALE, 0 <= av <= VEL_LIMIT;
        assert(0 <= a * av) by (nonlinear_arith)
            requires 0 <= a, 0 <= av;
        lemma_offset_bound(a as int, av as int, m as int);
        assert(k * SCALE * v == a * v);
        assert(k * SCALE * (-v) == a * (-v));
    }
    let q = (a * av) / m;
    if v >= 0 { q } else { -q }
}

/// Probe point `k` of the sweep.
fn probe_at(b: &Body, k: i64, m: i64) -> (r: (i64, i64))
    requires
        b@.within_limits(),
        m == sweep_len(b@),
        0 <= k < probe_count(b@),
    ensures
        r.0 == probe_x(b@, k as int),
        r.1 == probe_y(b@, k as int),
        abs(r.0 - b.x) <= VEL_LIMIT + SCALE,
        abs(r.1 - b.y) <= VEL_LIMIT + SCALE,
{
    let ox = offset_at(b.vx, k, m);
    let oy = offset_at(b.vy, k, m);
    (b.x + ox, b.y + oy)
}

/// The four collision tests at probe `k`: up, down, left, right.
fn probe_hits(w: &TileWorld, b: &Body, k: i64, m: i64) -> (r: (bool, bool, bool, bool))
    requires
        w.wf(),
        b@.within_limits(),
        m == sweep_len(b@),
        0 <= k < probe_count(b@),
    ensures
        r.0 == hit_up(*w, b@, k as int),
        r.1 == hit_down(*w, b@, k as int),
        r.2 == hit_left(*w, b@, k as int),
        r.3 == hit_right(*w, b@, k as int),
{
    let (px, py) = probe_at(b, k, m);
    let up = b.vy < 0 && py >= SCALE && w.is_solid_at(px, py - SCALE);
    let down = b.vy > 0 && w.is_solid_at(px, py + SCALE);
    let left = b.vx < 0 && px >= SCALE && w.is_solid_at(px - SCALE, py);
    let right = b.vx > 0 && w.is_solid_at(px + SCALE, py);
    (up, down, left, right)
}

/// The first probe step that collides, or the number of probes when none does.
fn first_collision(w: &TileWorld, b: &Body, m: i64, count: i64) -> (r: i64)
    requires
        w.wf(),
        b@.within_limits(),
        m == sweep_len(b@),
        count == probe_count(b@),
    ensures
        r == first_hit(*w, b@),
        0 <= r <= count,
{
    let mut k: i64 = 0;
    while k < count
        invariant
            0 <= k <= count,
            w.wf(),
            b@.within_limits(),
            m == sweep_len(b@),
            count == probe_count(b@),
            first_hit(*w, b@) == first_hit_from(*w, b@, k as int),
        decreases count - k,
    {
        let (up, down, left, right) = probe_hits(w, b, k, m);
        if up || down || left || right {
            return k;
        }
        k += 1;
    }
    k
}

/// Horizontal velocity for the next tick.
fn compute_next_vx(vx: i64, grounded: bool, intent: Option<Direction>) -> (r: i64)
    requires
        -VEL_LIMIT <= vx <= VEL_LIMIT,
    ensures
        r == next_vx(vx as int, grounded, intent),
        -SPEED_X_MAX <= r <= SPEED_X_MAX,
{
    let v: i64 = match intent {
        Some(Direction::Left) => vx - ACCEL,
        Some(Direction::Right) => vx + ACCEL,
        None => {
            let pct = if grounded { GROUND_DAMPING } else { AIR_DAMPING };
            if vx >= 0 { (vx * pct) / 100 } else { -(((-vx) * pct) / 100) }
        },
    };
    let av = if v < 0 { -v } else { v };
    if av > SPEED_X_MAX {
        match intent {
            Some(Direction::Left) => -SPEED_X_MAX,
            Some(Direction::Right) => SPEED_X_MAX,
            None => if v < 0 { -SPEED_X_MAX } else { SPEED_X_MAX },
        }
    } else if av < DEAD_ZONE {
        0
    } else {
        v
    }
}

/// Advances the body by one tick in the world: swept collision, move, side
/// walls, horizontal acceleration or damping, gravity.
pub fn simulate(world: &TileWorld, body: &mut Body)
    requires
        world.wf(),
        old(body)@.within_limits(),
    ensures
        final(body)@ == step(*world, old(body)@),
{
    let b = *body;
    let ax = abs_i64(b.vx);
    let ay = abs_i64(b.vy);
    let m = if ax >= ay { ax } else { ay };
    let count = (m + SCALE - 1) / SCALE + 1;
    let k = first_collision(world, &b, m, count);
    let mut x = b.x + b.vx;
    let mut y = b.y + b.vy;
    let mut vx = b.vx;
    let mut vy = b.vy;
    let mut on_ground = false;
    if k < count {
        let (up, down, left, right) = probe_hits(world, &b, k, m);
        if up || down {
            let (_px, py) = probe_at(&b, k, m);
            y = py;
            vy = 0;
        }
        if left || right {
            x = b.x;
            vx = 0;
        }
        on_ground = down;
    }
    let right_wall = (world.width as i64 - 1) * SCALE;
    if x < SCALE {
        x = SCALE;
    } else if x > right_wall {
        x = right_wall;
    }
    body.x = x;
    body.y = y;
    body.vx = compute_next_vx(vx, on_ground, b.walk_intent);
    body.vy = vy + GRAVITY;
    body.on_ground = on_ground;
}

} // verus!

