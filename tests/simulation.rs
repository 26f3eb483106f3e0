use spaceballs::{
    advance, render, round_pixels, triangle_vertices, App, PixelPoint, Shape, ShapeKind,
    SpawnDraw, Vec2, MAX_RADIUS, MIN_SPAWN_RADIUS, POPULATION_CAP, UNITS_PER_PIXEL,
};

const PX: i64 = UNITS_PER_PIXEL;

fn pixel(pixels: &[u8], side: u32, x: u32, y: u32) -> [u8; 4] {
    let i = 4 * (y as usize * side as usize + x as usize);
    [pixels[i], pixels[i + 1], pixels[i + 2], pixels[i + 3]]
}

fn still_shape(x: i64, y: i64, radius: i64, kind: ShapeKind) -> Shape {
    Shape::new(Vec2 { x, y }, Vec2 { x: 0, y: 0 }, radius, kind)
}

#[test]
fn rounds_halves_away_from_zero() {
    assert_eq!(round_pixels(15 * PX / 10), 2);
    assert_eq!(round_pixels(15 * PX / 10 - 1), 1);
    assert_eq!(round_pixels(-15 * PX / 10), -2);
    assert_eq!(round_pixels(-14 * PX / 10), -1);
    assert_eq!(round_pixels(0), 0);
}

#[test]
fn new_app_has_canvas_in_units() {
    let app = App::new(700, 500, 7);
    assert!(app.world.shapes.is_empty());
    assert_eq!(app.size, Vec2 { x: 700 * PX, y: 500 * PX });
    assert_eq!(app.half_size, Vec2 { x: 350 * PX, y: 250 * PX });
}

#[test]
fn wraps_past_the_left_margin() {
    let mut app = App::new(700, 500, 1);
    let shape = Shape::new(Vec2 { x: -360 * PX, y: 0 }, Vec2 { x: -100, y: 30 }, 5 * PX, ShapeKind::Circle);
    app.world.shapes.push(shape);
    app.update(1000);
    let s = &app.world.shapes[0];
    assert_eq!(s.position.x, 355 * PX);
    assert_eq!(s.position.y, 30_000);
    assert_eq!(s.velocity, Vec2 { x: -100, y: 30 });
}

#[test]
fn wraps_past_the_right_and_top_margins() {
    let mut app = App::new(700, 500, 1);
    app.world.shapes.push(still_shape(356 * PX, 256 * PX, 5 * PX, ShapeKind::Square));
    app.update(0);
    let s = &app.world.shapes[0];
    assert_eq!(s.position, Vec2 { x: -355 * PX, y: -255 * PX });
}

#[test]
fn moves_by_velocity_times_dt() {
    let mut app = App::new(700, 500, 1);
    app.world.shapes.push(Shape::new(Vec2 { x: 0, y: 0 }, Vec2 { x: 2250, y: -2250 }, 10 * PX, ShapeKind::Circle));
    app.update(100_000);
    assert_eq!(app.world.shapes[0].position, Vec2 { x: 225_000_000, y: -225_000_000 });
}

#[test]
fn radius_shrinks_linearly_over_ticks() {
    let mut app = App::new(700, 500, 1);
    app.world.shapes.push(still_shape(0, 0, 10 * PX, ShapeKind::Circle));
    for _ in 0..5 {
        app.update(100_000);
    }
    // 0.1 pixel per second for half a second
    assert_eq!(app.world.shapes[0].radius, 10 * PX - 500_000);
}

#[test]
fn removed_on_first_tick_at_threshold() {
    let mut app = App::new(700, 500, 1);
    app.world.shapes.push(still_shape(0, 0, 15_100_000, ShapeKind::Square));
    app.update(100_000);
    assert_eq!(app.world.shapes.len(), 1);
    assert_eq!(app.world.shapes[0].radius, 15_000_000);
    app.update(1);
    assert!(app.world.shapes.is_empty());
}

#[test]
fn removal_keeps_the_order_of_the_rest() {
    let mut app = App::new(700, 500, 1);
    app.world.shapes.push(still_shape(1, 0, 10 * PX, ShapeKind::Circle));
    app.world.shapes.push(still_shape(2, 0, 15_000_500, ShapeKind::Square));
    app.world.shapes.push(still_shape(3, 0, 12 * PX, ShapeKind::Triangle));
    app.update(1000);
    assert_eq!(app.world.shapes.len(), 2);
    assert_eq!(app.world.shapes[0].position.x, 1);
    assert_eq!(app.world.shapes[1].position.x, 3);
}

#[test]
fn redraws_once_per_rounded_radius_change() {
    let mut app = App::new(700, 500, 1);
    app.world.shapes.push(still_shape(0, 0, 104_000_000, ShapeKind::Circle));
    let mut redraws = 0;
    let mut last = app.world.shapes[0].sprite_radius;
    for dt in [3_000_000u64, 7_000_000] {
        app.update(dt);
        let s = &app.world.shapes[0];
        if s.sprite_radius != last {
            redraws += 1;
            last = s.sprite_radius;
        }
    }
    // 10.4 -> 10.1 keeps the sprite; 10.1 -> 9.4 redraws it
    assert_eq!(redraws, 1);
    let s = &app.world.shapes[0];
    assert_eq!(s.sprite_radius, 94_000_000);
    assert_eq!(s.sprite.side, 18);
    assert_eq!(s.sprite.pixels.len(), 4 * 18 * 18);
}

#[test]
fn no_redraw_within_one_rounded_value() {
    let mut app = App::new(700, 500, 1);
    app.world.shapes.push(still_shape(0, 0, 104_000_000, ShapeKind::Triangle));
    app.update(3_000_000);
    let s = &app.world.shapes[0];
    assert_eq!(s.radius, 101_000_000);
    assert_eq!(s.sprite_radius, 104_000_000);
    assert_eq!(s.sprite.side, 20);
}

#[test]
fn advance_reports_removal() {
    let shape = still_shape(0, 0, 16_000_000, ShapeKind::Circle);
    assert!(advance(shape, 1_000_001, Vec2 { x: 0, y: 0 }).is_none());
    let shape = still_shape(0, 0, 16_000_000, ShapeKind::Circle);
    let t = advance(shape, 1_000_000, Vec2 { x: 0, y: 0 }).unwrap();
    assert_eq!(t.radius, 15_000_000);
}

#[test]
fn spawn_cap_admits_a_fifty_first_shape() {
    let mut app = App::new(700, 500, 3);
    for _ in 0..POPULATION_CAP {
        app.keydown();
    }
    assert_eq!(app.world.shapes.len(), 50);
    app.keydown();
    assert_eq!(app.world.shapes.len(), 51);
    app.keydown();
    assert_eq!(app.world.shapes.len(), 51);
}

#[test]
fn spawn_with_places_the_drawn_shape() {
    let mut app = App::new(700, 500, 3);
    let d = SpawnDraw { x: 350 * PX, y: 250 * PX, vx: -2250, vy: 2250, radius: 5 * PX, kind: 1 };
    app.spawn_with(d);
    let s = &app.world.shapes[0];
    // both axes take three quarters of the offset less half the height
    assert_eq!(s.position, Vec2 { x: 750_000_000, y: 0 });
    assert_eq!(s.velocity, Vec2 { x: -2250, y: 2250 });
    assert_eq!(s.radius, 5 * PX);
    assert_eq!(s.kind, ShapeKind::Triangle);
    assert_eq!(s.sprite.side, 10);
    let d0 = SpawnDraw { kind: 0, ..d };
    let d2 = SpawnDraw { kind: 2, ..d };
    app.spawn_with(d0);
    app.spawn_with(d2);
    assert_eq!(app.world.shapes[1].kind, ShapeKind::Circle);
    assert_eq!(app.world.shapes[2].kind, ShapeKind::Square);
}

#[test]
fn spawn_with_is_refused_above_the_cap() {
    let mut app = App::new(700, 500, 3);
    let d = SpawnDraw { x: 0, y: 0, vx: 0, vy: 0, radius: 3 * PX, kind: 2 };
    for _ in 0..60 {
        app.spawn_with(d);
    }
    assert_eq!(app.world.shapes.len(), 51);
}

#[test]
fn spawned_values_lie_in_their_ranges() {
    let mut kinds = [0usize; 4];
    for seed in 0..40u64 {
        let mut app = App::new(700, 500, seed);
        for _ in 0..51 {
            app.keydown();
        }
        for s in &app.world.shapes {
            assert!(-2250 <= s.velocity.x && s.velocity.x <= 2250);
            assert!(-2250 <= s.velocity.y && s.velocity.y <= 2250);
            assert!(MIN_SPAWN_RADIUS <= s.radius && s.radius < MAX_RADIUS);
            let lo = -(3 * 250 * PX) / 4;
            assert!(lo <= s.position.x && s.position.x < (3 * 700 * PX) / 4 + lo);
            assert!(lo <= s.position.y && s.position.y < (3 * 500 * PX) / 4 + lo);
            assert_eq!(s.sprite_radius, s.radius);
            kinds[match s.kind {
                ShapeKind::Circle => 0,
                ShapeKind::Square => 1,
                ShapeKind::Triangle => 2,
                ShapeKind::Hexagon => 3,
            }] += 1;
        }
    }
    assert!(kinds[0] > 0 && kinds[1] > 0 && kinds[2] > 0);
    assert_eq!(kinds[3], 0);
}

#[test]
fn triangle_vertices_for_radius_ten() {
    let v = triangle_vertices(10 * PX);
    assert_eq!(
        v,
        vec![PixelPoint { x: 5, y: 5 }, PixelPoint { x: 15, y: 5 }, PixelPoint { x: 10, y: 14 }]
    );
}

#[test]
fn triangle_vertices_round_to_nearest() {
    let v = triangle_vertices(3 * PX);
    // (1.5, 1.5), (4.5, 1.5), (3, 4.098...)
    assert_eq!(
        v,
        vec![PixelPoint { x: 2, y: 2 }, PixelPoint { x: 5, y: 2 }, PixelPoint { x: 3, y: 4 }]
    );
}

#[test]
fn square_sprite_is_all_white() {
    let s = render(ShapeKind::Square, 104_000_000);
    assert_eq!(s.side, 20);
    assert_eq!(s.pixels.len(), 4 * 20 * 20);
    assert!(s.pixels.iter().all(|&b| b == 255));
}

#[test]
fn circle_sprite_fills_the_centre_only() {
    let s = render(ShapeKind::Circle, 10 * PX);
    assert_eq!(s.side, 20);
    assert_eq!(pixel(&s.pixels, 20, 10, 10), [255, 255, 255, 255]);
    assert_eq!(pixel(&s.pixels, 20, 10, 1), [255, 255, 255, 255]);
    assert_eq!(pixel(&s.pixels, 20, 0, 0), [0, 0, 0, 0]);
    assert_eq!(pixel(&s.pixels, 20, 19, 19), [0, 0, 0, 0]);
}

#[test]
fn triangle_sprite_fills_between_its_corners() {
    let s = render(ShapeKind::Triangle, 10 * PX);
    assert_eq!(s.side, 20);
    assert_eq!(pixel(&s.pixels, 20, 10, 8), [255, 255, 255, 255]);
    assert_eq!(pixel(&s.pixels, 20, 5, 5), [255, 255, 255, 255]);
    assert_eq!(pixel(&s.pixels, 20, 0, 0), [0, 0, 0, 0]);
    assert_eq!(pixel(&s.pixels, 20, 10, 18), [0, 0, 0, 0]);
}

#[test]
fn hexagon_sprite_is_blank() {
    let s = render(ShapeKind::Hexagon, 10 * PX);
    assert_eq!(s.side, 20);
    assert_eq!(s.pixels.len(), 1600);
    assert!(s.pixels.iter().all(|&b| b == 0));
}

#[test]
fn tiny_radius_gives_an_empty_sprite() {
    let s = render(ShapeKind::Circle, 4_000_000);
    assert_eq!(s.side, 0);
    assert!(s.pixels.is_empty());
}
