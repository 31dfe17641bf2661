use vstd::prelude::*;
use crate::body::BodyModel;
use crate::sim::{
    abs, first_hit, first_hit_from, hit_down, hit_left, hit_right, hits, probe_count,
    probe_offset, probe_x, probe_y, step, swept, sweep_len, GRAVITY, SPEED_X_MAX,
};
use crate::world::{TileWorld, SCALE};
use vstd::arithmetic::div_mod::{
    lemma_div_is_ordered, lemma_div_multiples_vanish, lemma_div_pos_is_pos,
    lemma_hoist_over_denominator,
};

verus! {

/// After any tick in a world at least two tiles wide, `x` lies between the
/// side walls: `SCALE <= x <= (width - 1) * SCALE`.
pub proof fn lemma_x_stays_between_walls(w: TileWorld, b: BodyModel)
    requires
        w.wf(),
        w.width >= 2,
    ensures
        SCALE as int <= step(w, b).x <= (w.width - 1) * SCALE as int,
{
}

/// A body standing still on a solid tile, with no intent and the vertical
/// speed that gravity gave it on the last tick, keeps its position and
/// velocity over a tick and is on the ground after it; a second tick changes
/// nothing.
pub proof fn lemma_rest_is_fixed_point(w: TileWorld, b: BodyModel)
    requires
        w.wf(),
        b.within_limits(),
        b.vx == 0,
        b.vy == GRAVITY as int,
        b.walk_intent.is_none(),
        SCALE as int <= b.x <= (w.width - 1) * SCALE as int,
        w.solid_at(b.x, b.y + SCALE as int),
    ensures
        step(w, b) == (BodyModel { on_ground: true, ..b }),
        step(w, step(w, b)) == step(w, b),
{
    lemma_rest_step(w, b);
    lemma_rest_step(w, step(w, b));
}

proof fn lemma_rest_step(w: TileWorld, b: BodyModel)
    requires
        w.wf(),
        b.within_limits(),
        b.vx == 0,
        b.vy == GRAVITY as int,
        b.walk_intent.is_none(),
        SCALE as int <= b.x <= (w.width - 1) * SCALE as int,
        w.solid_at(b.x, b.y + SCALE as int),
    ensures
        step(w, b) == (BodyModel { on_ground: true, ..b }),
{
    assert(probe_offset(0, 0, 10) == 0);
    assert(probe_offset(10, 0, 10) == 0);
    assert(probe_count(b) == 2);
    assert(hits(w, b, 0));
    assert(first_hit_from(w, b, 0) == 0);
}

/// A body standing still on a solid tile with no vertical speed keeps its
/// position over a tick and picks up one tick of gravity; the tick after that
/// puts it on the ground, and from there it no longer changes (see
/// `lemma_rest_is_fixed_point`).
pub proof fn lemma_rest_settles(w: TileWorld, b: BodyModel)
    requires
        w.wf(),
        b.within_limits(),
        b.vx == 0,
        b.vy == 0,
        b.walk_intent.is_none(),
        SCALE as int <= b.x <= (w.width - 1) * SCALE as int,
        w.solid_at(b.x, b.y + SCALE as int),
    ensures
        step(w, b) == (BodyModel { vy: GRAVITY as int, on_ground: false, ..b }),
        step(w, step(w, b)) == (BodyModel { vy: GRAVITY as int, on_ground: true, ..b }),
{
    assert(probe_count(b) == 1);
    assert(first_hit_from(w, b, 1) == 1);
    assert(!hits(w, b, 0));
    assert(first_hit_from(w, b, 0) == 1);
    lemma_rest_step(w, step(w, b));
}

/// On a straight fall, probe `k` lies `k` tiles below the start.
proof fn lemma_fall_probe(b: BodyModel, k: int)
    requires
        b.vx == 0,
        b.vy > 0,
        0 <= k,
    ensures
        sweep_len(b) == b.vy,
        probe_offset(b.vx, k, sweep_len(b)) == 0,
        probe_offset(b.vy, k, sweep_len(b)) == k * SCALE as int,
{
    assert(k * SCALE as int * b.vy == b.vy * (k * SCALE as int)) by (nonlinear_arith);
    lemma_div_multiples_vanish(k * SCALE as int, b.vy);
    assert(k * SCALE as int * 0 == 0);
}

/// The first collision of a sweep that meets nothing before step `kk` and
/// something at `kk`, if `kk` is a probe step.
proof fn lemma_first_hit_is(w: TileWorld, b: BodyModel, k: int, kk: int)
    requires
        0 <= k <= kk,
        forall|j: int| k <= j < kk ==> !#[trigger] hits(w, b, j),
        kk < probe_count(b) ==> hits(w, b, kk),
    ensures
        first_hit_from(w, b, k) == if kk < probe_count(b) { kk } else { probe_count(b) },
    decreases kk - k,
{
    if k < probe_count(b) && k < kk {
        lemma_first_hit_is(w, b, k + 1, kk);
    }
}

/// A body falling straight down onto a solid tile in row `r` of its column,
/// with nothing solid between, never ends a tick inside that tile: it stops
/// in row `r - 1`, or has not reached it yet. It is on the ground after the
/// tick exactly when the tick's sweep reaches the tile.
pub proof fn lemma_fall_stops_above_floor(w: TileWorld, b: BodyModel, r: int)
    requires
        w.wf(),
        b.within_limits(),
        b.vx == 0,
        b.vy > 0,
        b.x >= 0,
        b.y >= 0,
        (b.y / SCALE as int) < r,
        w.solid(b.x / SCALE as int, r),
        forall|j: int| (b.y / SCALE as int) < j < r ==> !#[trigger] w.solid(b.x / SCALE as int, j),
    ensures
        step(w, b).y < r * SCALE as int,
        step(w, b).on_ground <==> r - (b.y / SCALE as int) - 1 < probe_count(b),
        step(w, b).on_ground ==> step(w, b).y / SCALE as int == r - 1,
{
    let y0 = (b.y / SCALE as int);
    let kk = r - y0 - 1;
    assert forall|j: int| 0 <= j <= kk implies (#[trigger] hits(w, b, j) <==> j == kk) by {
        lemma_fall_probe(b, j);
        lemma_hoist_over_denominator(b.y, j + 1, SCALE as nat);
        assert((j + 1) * SCALE as int == b.y + j * SCALE as int + SCALE as int - b.y);
    }
    lemma_first_hit_is(w, b, 0, kk);
    lemma_fall_probe(b, kk);
    lemma_hoist_over_denominator(b.y, kk, SCALE as nat);
    if kk >= probe_count(b) {
        assert(swept(w, b).y == b.y + b.vy);
        assert(b.y + b.vy < r * SCALE as int);
    }
}

/// Consecutive probe offsets of a non-negative velocity component grow by at
/// most one tile.
proof fn lemma_offset_step(v: int, k: int, m: int)
    requires
        0 <= v <= m,
        0 < m,
        0 <= k,
    ensures
        0 <= probe_offset(v, k, m) <= probe_offset(v, k + 1, m) <= probe_offset(v, k, m) + SCALE as int,
{
    let s = SCALE as int;
    assert(0 <= k * s * v <= (k + 1) * s * v <= k * s * v + s * m) by (nonlinear_arith)
        requires 0 <= v <= m, 0 <= k, s == 100;
    lemma_div_is_ordered(k * s * v, (k + 1) * s * v, m);
    lemma_div_is_ordered((k + 1) * s * v, k * s * v + s * m, m);
    lemma_hoist_over_denominator(k * s * v, s, m as nat);
    lemma_div_pos_is_pos(k * s * v, m);
}

/// Within the move itself (`k` tiles no longer than the sweep), a probe is
/// offset by no more than the velocity component.
proof fn lemma_offset_within_move(v: int, k: int, m: int)
    requires
        abs(v) <= m,
        0 < m,
        0 <= k,
        k * SCALE <= m,
    ensures
        abs(probe_offset(v, k, m)) <= abs(v),
{
    let s = SCALE as int;
    let av = abs(v);
    let ks = k * s;
    assert(0 <= ks * av <= m * av) by (nonlinear_arith)
        requires 0 <= av, 0 <= ks <= m;
    assert(k * s * av == ks * av);
    lemma_div_is_ordered(k * s * av, m * av, m);
    lemma_div_multiples_vanish(av, m);
    lemma_div_pos_is_pos(k * s * av, m);
    assert(k * s * (-v) == k * s * av || v >= 0);
}

/// Past the end of the move, a probe's offset reaches the velocity component.
proof fn lemma_offset_past_move(v: int, k: int, m: int)
    requires
        0 <= v <= m,
        0 < m,
        m < k * SCALE,
    ensures
        v <= probe_offset(v, k, m),
{
    let s = SCALE as int;
    assert(m * v <= k * s * v) by (nonlinear_arith)
        requires 0 <= v, m < k * s;
    lemma_div_is_ordered(m * v, k * s * v, m);
    lemma_div_multiples_vanish(v, m);
}

/// What the search for the first collision returns.
proof fn lemma_first_hit_facts(w: TileWorld, b: BodyModel, k: int)
    requires
        0 <= k <= probe_count(b),
    ensures
        k <= first_hit_from(w, b, k) <= probe_count(b),
        first_hit_from(w, b, k) < probe_count(b) ==> hits(w, b, first_hit_from(w, b, k)),
        forall|i: int| k <= i < first_hit_from(w, b, k) ==> !#[trigger] hits(w, b, i),
    decreases probe_count(b) - k,
{
    if k < probe_count(b) && !hits(w, b, k) {
        lemma_first_hit_facts(w, b, k + 1);
    }
}

/// The setting of a fall onto a floor: row `r` solid across the world, the
/// rows from the body's down to the floor empty, falling, not faster sideways
/// than the top speed, between the side walls.
pub open spec fn falls_onto_floor(w: TileWorld, b: BodyModel, r: int) -> bool {
    &&& w.wf()
    &&& b.within_limits()
    &&& forall|c: int| 0 <= c < w.width ==> #[trigger] w.solid(c, r)
    &&& forall|c: int, j: int| b.y / SCALE as int <= j < r ==> !#[trigger] w.solid(c, j)
    &&& 0 <= b.y < r * SCALE
    &&& b.vy > 0
    &&& abs(b.vx) <= SPEED_X_MAX
    &&& SCALE <= b.x <= (w.width - 1) * SCALE
}

/// Probes within the move stay inside the world, below the start and, until
/// one of them collides, above the floor row.
proof fn lemma_probes_above_floor(w: TileWorld, b: BodyModel, r: int, k: int)
    requires
        falls_onto_floor(w, b, r),
        0 <= k,
        k * SCALE <= sweep_len(b),
        forall|i: int| 0 <= i < k ==> !#[trigger] hits(w, b, i),
    ensures
        b.y <= probe_y(b, k) < r * SCALE,
        0 <= probe_x(b, k) < w.width * SCALE,
    decreases k,
{
    let m = sweep_len(b);
    lemma_offset_within_move(b.vx, k, m);
    if k > 0 {
        lemma_probes_above_floor(w, b, r, k - 1);
        assert(!hits(w, b, k - 1));
        lemma_probe_not_hit_below(w, b, r, k - 1);
        lemma_offset_step(b.vy, k - 1, m);
    } else {
        lemma_offset_step(b.vy, 0, m);
    }
}

/// A probe inside the world and above the floor that does not collide lies at
/// least a row above the floor's neighbour row.
proof fn lemma_probe_not_hit_below(w: TileWorld, b: BodyModel, r: int, k: int)
    requires
        falls_onto_floor(w, b, r),
        0 <= probe_y(b, k) < r * SCALE,
        0 <= probe_x(b, k) < w.width * SCALE,
        !hits(w, b, k),
    ensures
        probe_y(b, k) < (r - 1) * SCALE,
{
    let px = probe_x(b, k);
    let py = probe_y(b, k);
    lemma_hoist_over_denominator(py, 1, SCALE as nat);
    assert(w.solid(px / SCALE as int, r));
}

/// A body falling onto a floor row, with any sideways speed up to the top
/// speed, never ends a tick inside or through the floor: its `y` stays above
/// row `r`.
pub proof fn lemma_fall_never_passes_floor(w: TileWorld, b: BodyModel, r: int)
    requires
        falls_onto_floor(w, b, r),
    ensures
        step(w, b).y < r * SCALE,
{
    let m = sweep_len(b);
    let kk = m / SCALE as int;
    let j = first_hit(w, b);
    lemma_first_hit_facts(w, b, 0);
    if j <= kk {
        lemma_probes_above_floor(w, b, r, j);
        let py = probe_y(b, j);
        assert((py / SCALE as int) >= b.y / SCALE as int) by {
            lemma_div_is_ordered(b.y, py, SCALE as int);
        }
        assert(!hit_left(w, b, j));
        assert(!hit_right(w, b, j));
        assert(hit_down(w, b, j));
    } else {
        lemma_probes_above_floor(w, b, r, kk);
        lemma_probe_not_hit_below(w, b, r, kk);
        lemma_offset_step(b.vy, kk, m);
        lemma_offset_past_move(b.vy, kk + 1, m);
    }
}

} // verus!
