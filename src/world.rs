use vstd::prelude::*;
use rand::rngs::StdRng;
use rand::{Rng, SeedableRng};
use crate::sprite::{render, ShapeKind, Sprite};
use crate::units::{
    round_pixels, round_px, MAX_RADIUS, MAX_SPEED, MAX_TICK, POSITION_LIMIT, REMOVAL_THRESHOLD,
    SHRINK_PER_MICROSECOND, UNITS_PER_PIXEL,
};

verus! {

/// At most this many shapes may be present for a spawn to go ahead; so the
/// population tops out one above it.
pub const POPULATION_CAP: usize = 50;

/// Spawned radii are at least this many units (3 pixels).
pub const MIN_SPAWN_RADIUS: i64 = 30_000_000;

/// Half the canvas extent stays within this many units along each axis.
pub const HALF_EXTENT_LIMIT: i64 = 1_000_000_000_000_000_000;

/// rand's seedable standard generator, carried as an opaque value.
#[verifier::external_type_specification]
#[verifier::external_body]
pub struct ExStdRng(StdRng);

/// A pair of coordinates in units, or of speeds in units per microsecond.
#[derive(PartialEq, Eq, Structural, Clone, Copy, Debug)]
pub struct Vec2 {
    pub x: i64,
    pub y: i64,
}

impl View for Vec2 {
    type V = (int, int);

    open spec fn view(&self) -> (int, int) {
        (self.x as int, self.y as int)
    }
}

/// What a shape is, leaving out the pixels of its sprite.
pub struct ShapeView {
    pub position: (int, int),
    pub velocity: (int, int),
    pub radius: int,
    pub kind: ShapeKind,
    /// The radius that the sprite was last drawn at.
    pub sprite_radius: int,
}

/// A live shape: where it is, how it moves, how big it is, and its sprite.
pub struct Shape {
    pub position: Vec2,
    pub velocity: Vec2,
    pub radius: i64,
    pub kind: ShapeKind,
    pub sprite_radius: i64,
    pub sprite: Sprite,
}

impl View for Shape {
    type V = ShapeView;

    open spec fn view(&self) -> ShapeView {
        ShapeView {
            position: self.position@,
            velocity: self.velocity@,
            radius: self.radius as int,
            kind: self.kind,
            sprite_radius: self.sprite_radius as int,
        }
    }
}

/// A coordinate past the far margin (`h + r`) of its axis reappears at the
/// opposite margin; the velocity is kept.
pub open spec fn wrap(p: int, h: int, r: int) -> int {
    if p < -h - r {
        h + r
    } else if p > h + r {
        -h - r
    } else {
        p
    }
}

/// One tick of `dt` microseconds: move, wrap with the radius before the tick,
/// shrink, and redraw the sprite when the rounded radius changes.
pub open spec fn step(s: ShapeView, dt: int, half: (int, int)) -> ShapeView {
    let radius = s.radius - SHRINK_PER_MICROSECOND * dt;
    ShapeView {
        position: (
            wrap(s.position.0 + s.velocity.0 * dt, half.0, s.radius),
            wrap(s.position.1 + s.velocity.1 * dt, half.1, s.radius),
        ),
        velocity: s.velocity,
        radius,
        kind: s.kind,
        sprite_radius: if round_px(radius) != round_px(s.radius) {
            radius
        } else {
            s.sprite_radius
        },
    }
}

/// A shape stays while its radius rounds to more than the removal threshold.
pub open spec fn survives(s: ShapeView) -> bool {
    round_px(s.radius) > REMOVAL_THRESHOLD
}

/// The shape after one tick, if it is not removed on it.
pub open spec fn tick(s: ShapeView, dt: int, half: (int, int)) -> Option<ShapeView> {
    let t = step(s, dt, half);
    if survives(t) {
        Some(t)
    } else {
        None
    }
}

/// The shapes after one update: each one ticked, the removed ones left out,
/// the order kept.
pub open spec fn after_update(shapes: Seq<ShapeView>, dt: int, half: (int, int)) -> Seq<ShapeView> {
    shapes.filter_map(|s: ShapeView| tick(s, dt, half))
}

/// `n` ticks of `dt` applied to one shape, leaving removal aside.
pub open spec fn steps(s: ShapeView, dt: int, half: (int, int), n: nat) -> ShapeView
    decreases n,
{
    if n == 0 {
        s
    } else {
        step(steps(s, dt, half, (n - 1) as nat), dt, half)
    }
}

/// After `n` ticks of `dt` microseconds a shape's radius is its first radius
/// less `dt / 10` pixels for every tick.
pub proof fn lemma_radius_after_ticks(s: ShapeView, dt: int, half: (int, int), n: nat)
    ensures
        steps(s, dt, half, n).radius == s.radius - n * (SHRINK_PER_MICROSECOND * dt),
    decreases n,
{
    if n > 0 {
        lemma_radius_after_ticks(s, dt, half, (n - 1) as nat);
        let k = SHRINK_PER_MICROSECOND * dt;
        assert((n - 1) * k + k == n * k) by (nonlinear_arith);
        assert(steps(s, dt, half, n).radius == steps(s, dt, half, (n - 1) as nat).radius - k);
    } else {
        assert(n * (SHRINK_PER_MICROSECOND * dt) == 0) by (nonlinear_arith) requires n == 0;
    }
}

/// A tick removes a shape exactly when its new radius rounds to the removal
/// threshold or below.
pub proof fn lemma_removed_iff_rounded_at_threshold(s: ShapeView, dt: int, half: (int, int))
    ensures
        tick(s, dt, half) is None <==> round_px(s.radius - SHRINK_PER_MICROSECOND * dt)
            <= REMOVAL_THRESHOLD,
{
}

/// Once the rounded radius has reached the removal threshold it stays there on
/// every later tick, so the removing tick is the first one on which it holds.
pub proof fn lemma_removal_persists(s: ShapeView, dt: int, half: (int, int), n: nat, m: nat)
    requires
        0 <= dt,
        n <= m,
        !survives(steps(s, dt, half, n)),
    ensures
        !survives(steps(s, dt, half, m)),
{
    lemma_radius_after_ticks(s, dt, half, n);
    lemma_radius_after_ticks(s, dt, half, m);
    assert(m * dt >= n * dt) by (nonlinear_arith)
        requires n <= m, 0 <= dt;
    crate::units::lemma_round_px_monotone(
        steps(s, dt, half, m).radius,
        steps(s, dt, half, n).radius,
    );
}

/// A tick redraws the sprite exactly when the rounded radius changes, and the
/// sprite then matches the rounded radius again.
pub proof fn lemma_redraw_iff_rounded_change(s: ShapeView, dt: int, half: (int, int))
    requires
        round_px(s.sprite_radius) == round_px(s.radius),
    ensures
        step(s, dt, half).sprite_radius != s.sprite_radius <==> round_px(step(s, dt, half).radius)
            != round_px(s.radius),
        round_px(step(s, dt, half).sprite_radius) == round_px(step(s, dt, half).radius),
{
}

/// Each shape after an update is some shape before it, ticked once, that
/// survived the tick; and each shape that survives its tick is among them.
pub proof fn lemma_update_members(shapes: Seq<ShapeView>, dt: int, half: (int, int))
    ensures
        forall|j: int|
            0 <= j < after_update(shapes, dt, half).len() ==> exists|i: int|
                0 <= i < shapes.len() && #[trigger] after_update(shapes, dt, half)[j] == step(
                    #[trigger] shapes[i],
                    dt,
                    half,
                ) && survives(after_update(shapes, dt, half)[j]),
        forall|i: int|
            0 <= i < shapes.len() && survives(step(#[trigger] shapes[i], dt, half))
                ==> after_update(shapes, dt, half).contains(step(shapes[i], dt, half)),
    decreases shapes.len(),
{
    if shapes.len() > 0 {
        let init = shapes.drop_last();
        lemma_update_members(init, dt, half);
        let rest = after_update(init, dt, half);
        let out = after_update(shapes, dt, half);
        let last = shapes.last();
        assert(out == match tick(last, dt, half) {
            Some(t) => rest + seq![t],
            None => rest,
        });
        assert forall|j: int| 0 <= j < out.len() implies exists|i: int|
            0 <= i < shapes.len() && #[trigger] out[j] == step(#[trigger] shapes[i], dt, half)
                && survives(out[j]) by {
            if j < rest.len() {
                assert(out[j] == rest[j]);
                let i = choose|i: int|
                    0 <= i < init.len() && #[trigger] rest[j] == step(#[trigger] init[i], dt, half)
                        && survives(rest[j]);
                assert(shapes[i] == init[i]);
            } else {
                assert(out[j] == step(shapes[shapes.len() - 1], dt, half));
            }
        };
        assert forall|i: int|
            0 <= i < shapes.len() && survives(step(#[trigger] shapes[i], dt, half)) implies out.contains(
            step(shapes[i], dt, half)) by {
            if i < init.len() {
                assert(init[i] == shapes[i]);
                let t = step(shapes[i], dt, half);
                assert(rest.contains(t));
                let k = choose|k: int| 0 <= k < rest.len() && rest[k] == t;
                assert(out[k] == t);
            } else {
                assert(out[out.len() - 1] == step(shapes[i], dt, half));
            }
        };
    }
}

pub open spec fn within(v: int, limit: int) -> bool {
    -limit <= v <= limit
}

/// The bounds that every live shape keeps.
pub open spec fn shape_ok(s: ShapeView) -> bool {
    &&& within(s.position.0, POSITION_LIMIT as int)
    &&& within(s.position.1, POSITION_LIMIT as int)
    &&& within(s.velocity.0, MAX_SPEED as int)
    &&& within(s.velocity.1, MAX_SPEED as int)
    &&& 0 < s.radius < MAX_RADIUS
    &&& survives(s)
    &&& 0 <= s.sprite_radius < MAX_RADIUS
    &&& round_px(s.sprite_radius) == round_px(s.radius)
}

impl Shape {
    /// The bounds hold and the sprite pictures the shape at its sprite radius.
    pub open spec fn wf(&self) -> bool {
        &&& shape_ok(self@)
        &&& self.sprite.pictures(self.kind, self.sprite_radius as int)
    }

    /// A shape with its sprite drawn at the given radius.
    pub fn new(position: Vec2, velocity: Vec2, radius: i64, kind: ShapeKind) -> (r: Shape)
        requires
            within(position.x as int, POSITION_LIMIT as int),
            within(position.y as int, POSITION_LIMIT as int),
            within(velocity.x as int, MAX_SPEED as int),
            within(velocity.y as int, MAX_SPEED as int),
            0 < radius < MAX_RADIUS,
            round_px(radius as int) > REMOVAL_THRESHOLD,
        ensures
            r.wf(),
            r@ == (ShapeView {
                position: position@,
                velocity: velocity@,
                radius: radius as int,
                kind,
                sprite_radius: radius as int,
            }),
    {
        let sprite = render(kind, radius);
        Shape { position, velocity, radius, kind, sprite_radius: radius, sprite }
    }
}

fn wrap_coord(p: i64, h: i64, r: i64) -> (out: i64)
    requires
        0 <= h <= HALF_EXTENT_LIMIT,
        0 <= r < MAX_RADIUS,
    ensures
        out == wrap(p as int, h as int, r as int),
{
    if p < -h - r {
        h + r
    } else if p > h + r {
        -h - r
    } else {
        p
    }
}

/// A length that rounds above the threshold is positive.
proof fn lemma_survivor_positive(v: int)
    requires
        round_px(v) > REMOVAL_THRESHOLD,
    ensures
        v > 0,
{
    if v <= 0 {
        crate::units::lemma_round_px_monotone(v, 0);
    }
}

/// Advances one shape by `dt` microseconds; `None` when it is removed on this tick.
pub fn advance(shape: Shape, dt: u64, half: Vec2) -> (r: Option<Shape>)
    requires
        shape.wf(),
        dt <= MAX_TICK,
        0 <= half.x <= HALF_EXTENT_LIMIT,
        0 <= half.y <= HALF_EXTENT_LIMIT,
    ensures
        match r {
            Some(t) => t.wf() && tick(shape@, dt as int, half@) == Some(t@),
            None => tick(shape@, dt as int, half@) is None,
        },
{
    let d: i64 = dt as i64;
    assert(MAX_SPEED * dt <= 2_250_000_000_000_000_000) by (nonlinear_arith)
        requires dt <= 1_000_000_000_000_000;
    assert(-2_250_000_000_000_000_000 <= shape.velocity.x * d <= 2_250_000_000_000_000_000) by (nonlinear_arith)
        requires -2250 <= shape.velocity.x <= 2250, 0 <= d <= 1_000_000_000_000_000;
    assert(-2_250_000_000_000_000_000 <= shape.velocity.y * d <= 2_250_000_000_000_000_000) by (nonlinear_arith)
        requires -2250 <= shape.velocity.y <= 2250, 0 <= d <= 1_000_000_000_000_000;
    let mx: i64 = shape.position.x + shape.velocity.x * d;
    let my: i64 = shape.position.y + shape.velocity.y * d;
    let x: i64 = wrap_coord(mx, half.x, shape.radius);
    let y: i64 = wrap_coord(my, half.y, shape.radius);
    let radius: i64 = shape.radius - SHRINK_PER_MICROSECOND * d;
    let rounded: i64 = round_pixels(radius);
    if rounded <= REMOVAL_THRESHOLD {
        return None;
    }
    proof {
        lemma_survivor_positive(radius as int);
    }
    let old_rounded: i64 = round_pixels(shape.radius);
    let (sprite_radius, sprite) = if rounded != old_rounded {
        (radius, render(shape.kind, radius))
    } else {
        (shape.sprite_radius, shape.sprite)
    };
    let t = Shape {
        position: Vec2 { x, y },
        velocity: shape.velocity,
        radius,
        kind: shape.kind,
        sprite_radius,
        sprite,
    };
    assert(t@ == step(shape@, dt as int, half@));
    Some(t)
}

/// The values drawn for one spawn: `x`, `y` are offsets into the canvas, in
/// units; `vx`, `vy` the velocity; `radius` in units; `kind` picks the kind.
#[derive(PartialEq, Eq, Structural, Clone, Copy, Debug)]
pub struct SpawnDraw {
    pub x: i64,
    pub y: i64,
    pub vx: i64,
    pub vy: i64,
    pub radius: i64,
    pub kind: u8,
}

/// An offset lies in `[0, extent)`, or is 0 on a canvas of no extent.
pub open spec fn offset_ok(v: int, extent: int) -> bool {
    if extent > 0 {
        0 <= v < extent
    } else {
        v == 0
    }
}

/// The ranges that spawn values are drawn from: the canvas size for the offsets,
/// [-225, 225] pixels per second per axis, [3, 20) pixels of radius, and one of
/// three kinds.
pub open spec fn draw_in_range(d: SpawnDraw, size: (int, int)) -> bool {
    &&& offset_ok(d.x as int, size.0)
    &&& offset_ok(d.y as int, size.1)
    &&& within(d.vx as int, MAX_SPEED as int)
    &&& within(d.vy as int, MAX_SPEED as int)
    &&& MIN_SPAWN_RADIUS <= d.radius < MAX_RADIUS
    &&& d.kind < 3
}

/// Circle, triangle and square are drawn with equal odds; hexagon never.
pub open spec fn kind_of(k: u8) -> ShapeKind {
    if k == 0 {
        ShapeKind::Circle
    } else if k == 1 {
        ShapeKind::Triangle
    } else {
        ShapeKind::Square
    }
}

/// The shape that a draw spawns. Both coordinates are taken as three quarters
/// of the offset less half the canvas height: the vertical half extent serves
/// the horizontal axis as well, so spawns lean away from the left edge of a
/// canvas wider than it is tall.
pub open spec fn spawned(d: SpawnDraw, half: (int, int)) -> ShapeView {
    ShapeView {
        position: ((3 * d.x) / 4 - (3 * half.1) / 4, (3 * d.y) / 4 - (3 * half.1) / 4),
        velocity: (d.vx as int, d.vy as int),
        radius: d.radius as int,
        kind: kind_of(d.kind),
        sprite_radius: d.radius as int,
    }
}

/// Relies on `rand::SeedableRng::seed_from_u64` to make a generator from a seed.
#[verifier::external_body]
fn seeded_rng(seed: u64) -> StdRng {
    StdRng::seed_from_u64(seed)
}

/// Relies on `rand::Rng::gen_range` over the half-open range `lo..hi` of `i64`:
/// the value lies in the range (an empty range panics).
#[verifier::external_body]
fn draw_between(rng: &mut StdRng, lo: i64, hi: i64) -> (r: i64)
    requires
        lo < hi,
    ensures
        lo <= r < hi,
{
    rng.gen_range(lo..hi)
}

/// The live shapes, in spawn order.
pub struct World {
    pub shapes: Vec<Shape>,
}

/// The simulation: the world of shapes, the canvas, and its own random generator.
pub struct App {
    pub world: World,
    /// Half the canvas width and height, in units; the origin is the centre.
    pub half_size: Vec2,
    /// The canvas width and height, in units.
    pub size: Vec2,
    /// The generator that spawns draw from.
    pub rng: StdRng,
}

impl App {
    pub open spec fn shapes_view(&self) -> Seq<ShapeView> {
        self.world.shapes@.map_values(|s: Shape| s@)
    }

    pub open spec fn wf(&self) -> bool {
        &&& 0 <= self.half_size.x <= HALF_EXTENT_LIMIT
        &&& 0 <= self.half_size.y <= HALF_EXTENT_LIMIT
        &&& self.size.x == 2 * self.half_size.x
        &&& self.size.y == 2 * self.half_size.y
        &&& forall|i: int| 0 <= i < self.world.shapes@.len() ==> (#[trigger] self.world.shapes@[i]).wf()
    }

    /// An empty world on a canvas of `width` by `height` pixels, with a
    /// generator seeded from `seed`.
    pub fn new(width: u32, height: u32, seed: u64) -> (r: App)
        ensures
            r.wf(),
            r.world.shapes@.len() == 0,
            r.size@ == (width * UNITS_PER_PIXEL, height * UNITS_PER_PIXEL),
            r.half_size@ == (width * (UNITS_PER_PIXEL / 2), height * (UNITS_PER_PIXEL / 2)),
    {
        let hx: i64 = width as i64 * (UNITS_PER_PIXEL / 2);
        let hy: i64 = height as i64 * (UNITS_PER_PIXEL / 2);
        App {
            world: World { shapes: Vec::new() },
            half_size: Vec2 { x: hx, y: hy },
            size: Vec2 { x: 2 * hx, y: 2 * hy },
            rng: seeded_rng(seed),
        }
    }

    /// Advances every shape by `dt` microseconds and drops those whose radius
    /// now rounds to the removal threshold or below; the rest keep their order.
    pub fn update(&mut self, dt: u64)
        requires
            old(self).wf(),
            dt <= MAX_TICK,
        ensures
            final(self).wf(),
            final(self).half_size == old(self).half_size,
            final(self).size == old(self).size,
            final(self).shapes_view() == after_update(
                old(self).shapes_view(),
                dt as int,
                old(self).half_size@,
            ),
    {
        let ghost before = self.shapes_view();
        let ghost half = self.half_size@;
        let mut rest: Vec<Shape> = Vec::new();
        std::mem::swap(&mut rest, &mut self.world.shapes);
        let n: usize = rest.len();
        let mut i: usize = 0;
        while i < n
            invariant
                0 <= i <= n,
                n == before.len(),
                dt <= MAX_TICK,
                0 <= self.half_size.x <= HALF_EXTENT_LIMIT,
                0 <= self.half_size.y <= HALF_EXTENT_LIMIT,
                self.size.x == 2 * self.half_size.x,
                self.size.y == 2 * self.half_size.y,
                self.half_size@ == half,
                rest@.len() == n - i,
                forall|k: int| 0 <= k < rest@.len() ==> (#[trigger] rest@[k]).wf(),
                forall|k: int| 0 <= k < rest@.len() ==> #[trigger] rest@[k]@ == before[i + k],
                forall|k: int| 0 <= k < self.world.shapes@.len() ==> (#[trigger] self.world.shapes@[k]).wf(),
                self.shapes_view() == after_update(before.take(i as int), dt as int, half),
            decreases n - i,
        {
            let ghost rest_before = rest@;
            let shape = rest.remove(0);
            let ghost prev = self.shapes_view();
            assert(shape@ == before[i as int]);
            assert(forall|k: int| 0 <= k < rest@.len() ==> #[trigger] rest@[k]@ == before[i + 1 + k]) by {
                assert forall|k: int| 0 <= k < rest@.len() implies #[trigger] rest@[k]@ == before[i + 1 + k] by {
                    assert(rest_before[k + 1]@ == before[i + k + 1]);
                };
            };
            assert(before.take(i + 1).drop_last() =~= before.take(i as int));
            assert(before.take(i + 1).last() == before[i as int]);
            match advance(shape, dt, self.half_size) {
                Some(t) => {
                    self.world.shapes.push(t);
                    assert(self.shapes_view() =~= prev + seq![t@]);
                },
                None => {},
            }
            i = i + 1;
        }
        assert(before.take(n as int) =~= before);
    }

    /// Adds the shape that `d` describes, as long as the population is at most
    /// [`POPULATION_CAP`]; otherwise nothing changes.
    pub fn spawn_with(&mut self, d: SpawnDraw)
        requires
            old(self).wf(),
            draw_in_range(d, old(self).size@),
        ensures
            final(self).wf(),
            final(self).half_size == old(self).half_size,
            final(self).size == old(self).size,
            final(self).shapes_view() == if old(self).world.shapes@.len() <= POPULATION_CAP {
                old(self).shapes_view().push(spawned(d, old(self).half_size@))
            } else {
                old(self).shapes_view()
            },
    {
        if self.world.shapes.len() > POPULATION_CAP {
            return;
        }
        let hy: i64 = self.half_size.y;
        let x: i64 = (3 * d.x) / 4 - (3 * hy) / 4;
        let y: i64 = (3 * d.y) / 4 - (3 * hy) / 4;
        let kind = if d.kind == 0 {
            ShapeKind::Circle
        } else if d.kind == 1 {
            ShapeKind::Triangle
        } else {
            ShapeKind::Square
        };
        assert(round_px(d.radius as int) > REMOVAL_THRESHOLD) by {
            assert((2 * 30_000_000int + 10_000_000int) / 20_000_000int == 3) by (nonlinear_arith);
            assert(round_px(MIN_SPAWN_RADIUS as int) == 3);
            crate::units::lemma_round_px_monotone(MIN_SPAWN_RADIUS as int, d.radius as int);
        };
        let shape = Shape::new(Vec2 { x, y }, Vec2 { x: d.vx, y: d.vy }, d.radius, kind);
        let ghost prev = self.shapes_view();
        self.world.shapes.push(shape);
        assert(self.shapes_view() =~= prev.push(spawned(d, self.half_size@)));
    }

    /// On any key press: draws a position, velocity, radius and kind from the
    /// world's generator and adds that shape, as long as the population is at
    /// most [`POPULATION_CAP`]. Whatever the draws, they lie in their ranges.
    pub fn keydown(&mut self)
        requires
            old(self).wf(),
        ensures
            final(self).wf(),
            final(self).half_size == old(self).half_size,
            final(self).size == old(self).size,
            old(self).world.shapes@.len() <= POPULATION_CAP ==> exists|d: SpawnDraw|
                draw_in_range(d, old(self).size@) && final(self).shapes_view()
                    == old(self).shapes_view().push(#[trigger] spawned(d, old(self).half_size@)),
            old(self).world.shapes@.len() > POPULATION_CAP ==> final(self).shapes_view()
                == old(self).shapes_view(),
    {
        if self.world.shapes.len() > POPULATION_CAP {
            return;
        }
        let x: i64 = if self.size.x > 0 { draw_between(&mut self.rng, 0, self.size.x) } else { 0 };
        let y: i64 = if self.size.y > 0 { draw_between(&mut self.rng, 0, self.size.y) } else { 0 };
        let vx: i64 = draw_between(&mut self.rng, -MAX_SPEED, MAX_SPEED + 1);
        let vy: i64 = draw_between(&mut self.rng, -MAX_SPEED, MAX_SPEED + 1);
        let radius: i64 = draw_between(&mut self.rng, MIN_SPAWN_RADIUS, MAX_RADIUS);
        let kind: u8 = draw_between(&mut self.rng, 0, 3) as u8;
        let d = SpawnDraw { x, y, vx, vy, radius, kind };
        self.spawn_with(d);
    }
}

} // verus!
