use vstd::prelude::*;
use image::{ImageBuffer, Rgba};
use imageproc::drawing::{draw_filled_circle_mut, draw_filled_rect_mut, draw_polygon_mut};
use imageproc::point::Point;
use imageproc::rect::Rect;
use crate::units::{round_div, round_px, round_pixels, MAX_RADIUS, UNITS_PER_PIXEL};

verus! {

/// The kinds of shape. Hexagon is declared but never spawned or drawn.
#[derive(PartialEq, Eq, Structural, Clone, Copy, Debug)]
pub enum ShapeKind {
    Circle,
    Square,
    Triangle,
    Hexagon,
}

/// A point of a sprite, in whole pixels from its top-left corner.
#[derive(PartialEq, Eq, Structural, Clone, Copy, Debug)]
pub struct PixelPoint {
    pub x: i32,
    pub y: i32,
}

/// A square RGBA picture of `side` by `side` pixels, row by row, four bytes a pixel.
pub struct Sprite {
    pub side: u32,
    pub pixels: Vec<u8>,
}

/// The opaque white that shapes are drawn in.
pub const WHITE: [u8; 4] = [255, 255, 255, 255];

/// The apex of the unit triangle lies `APEX_NUMERATOR / APEX_DENOMINATOR`
/// (0.36602540378443865, that is (√3 − 1) / 2) above its centre line, one unit
/// of height above its base.
pub const APEX_NUMERATOR: u128 = 36602540378443865;

pub const APEX_DENOMINATOR: u128 = 100_000_000_000_000_000;

/// The picture that `imageproc::drawing::draw_filled_circle_mut` leaves on an
/// RGBA canvas of `side` by `side` pixels.
pub uninterp spec fn circle_filled(
    canvas: Seq<u8>,
    side: int,
    cx: int,
    cy: int,
    radius: int,
    color: Seq<u8>,
) -> Seq<u8>;

/// The picture that `imageproc::drawing::draw_polygon_mut` leaves on an RGBA
/// canvas of `side` by `side` pixels.
pub uninterp spec fn polygon_filled(
    canvas: Seq<u8>,
    side: int,
    points: Seq<(int, int)>,
    color: Seq<u8>,
) -> Seq<u8>;

/// Whether byte `i` of a `side`-wide RGBA canvas belongs to a pixel of the
/// rectangle with top-left corner (`left`, `top`) and size `w` by `h`.
pub open spec fn byte_in_rect(i: int, side: int, left: int, top: int, w: int, h: int) -> bool {
    let p = i / 4;
    let x = p % side;
    let y = p / side;
    left <= x < left + w && top <= y < top + h
}

pub open spec fn rgba_len(side: int) -> int {
    4 * side * side
}

/// A fully transparent canvas.
pub open spec fn blank(side: int) -> Seq<u8> {
    Seq::new(rgba_len(side) as nat, |i: int| 0u8)
}

pub open spec fn white() -> Seq<u8> {
    seq![255u8, 255u8, 255u8, 255u8]
}

pub open spec fn points_view(points: Seq<PixelPoint>) -> Seq<(int, int)> {
    points.map_values(|p: PixelPoint| (p.x as int, p.y as int))
}

/// The side of the sprite of a shape: twice its radius rounded to pixels.
pub open spec fn side_of(radius: int) -> int {
    2 * round_px(radius)
}

/// The corners of the triangle drawn for `radius`: the unit triangle
/// {(-1/2, -1/2), (1/2, -1/2), (0, apex)} scaled by the radius, moved by
/// (radius, radius), each coordinate rounded to the nearest pixel.
pub open spec fn triangle_points(radius: int) -> Seq<(int, int)> {
    let u = UNITS_PER_PIXEL as int;
    let d = APEX_DENOMINATOR as int;
    let a = APEX_NUMERATOR as int;
    seq![
        (round_div(radius, 2 * u), round_div(radius, 2 * u)),
        (round_div(3 * radius, 2 * u), round_div(radius, 2 * u)),
        (round_div(radius, u), round_div(radius * (d + a), d * u)),
    ]
}

/// The pixels of the sprite of a shape of this kind and radius.
pub open spec fn sprite_pixels(kind: ShapeKind, radius: int) -> Seq<u8> {
    let side = side_of(radius);
    let r = round_px(radius);
    match kind {
        ShapeKind::Circle => circle_filled(blank(side), side, r, r, r, white()),
        ShapeKind::Square => Seq::new(rgba_len(side) as nat, |i: int| 255u8),
        ShapeKind::Triangle => polygon_filled(blank(side), side, triangle_points(radius), white()),
        ShapeKind::Hexagon => blank(side),
    }
}

impl Sprite {
    /// The sprite is the picture of a shape of this kind at this radius.
    pub open spec fn pictures(&self, kind: ShapeKind, radius: int) -> bool {
        &&& self.side == side_of(radius)
        &&& self.pixels@ == sprite_pixels(kind, radius)
    }
}

/// Relies on `imageproc::drawing::draw_filled_circle_mut` to fill a disc on an
/// RGBA canvas held as raw bytes; the canvas keeps its size.
#[verifier::external_body]
fn fill_circle(pixels: &mut Vec<u8>, side: u32, cx: i32, cy: i32, radius: i32, color: [u8; 4])
    requires
        old(pixels)@.len() == rgba_len(side as int),
        0 <= cx <= 1_000_000,
        0 <= cy <= 1_000_000,
        0 <= radius <= 1_000_000,
    ensures
        final(pixels)@ == circle_filled(old(pixels)@, side as int, cx as int, cy as int, radius as int, color@),
        final(pixels)@.len() == old(pixels)@.len(),
{
    let raw = std::mem::take(pixels);
    let mut img = ImageBuffer::<Rgba<u8>, Vec<u8>>::from_raw(side, side, raw).unwrap();
    draw_filled_circle_mut(&mut img, (cx, cy), radius, Rgba(color));
    *pixels = img.into_raw();
}

/// Relies on `imageproc::drawing::draw_polygon_mut` to fill a polygon on an
/// RGBA canvas held as raw bytes; the canvas keeps its size.
#[verifier::external_body]
fn fill_polygon(pixels: &mut Vec<u8>, side: u32, points: &Vec<PixelPoint>, color: [u8; 4])
    requires
        old(pixels)@.len() == rgba_len(side as int),
        points@.len() == 3,
        forall|k: int|
            0 <= k < 3 ==> 0 <= (#[trigger] points@[k]).x <= 2_000_000 && 0 <= points@[k].y
                <= 2_000_000,
    ensures
        final(pixels)@ == polygon_filled(old(pixels)@, side as int, points_view(points@), color@),
        final(pixels)@.len() == old(pixels)@.len(),
{
    let raw = std::mem::take(pixels);
    let mut img = ImageBuffer::<Rgba<u8>, Vec<u8>>::from_raw(side, side, raw).unwrap();
    let poly: Vec<Point<i32>> = points.iter().map(|p| Point::new(p.x, p.y)).collect();
    draw_polygon_mut(&mut img, &poly, Rgba(color));
    *pixels = img.into_raw();
}

/// Relies on `imageproc::drawing::draw_filled_rect_mut`: every pixel of the
/// rectangle that lies on the canvas takes the colour, every other pixel is kept.
#[verifier::external_body]
fn fill_rect(pixels: &mut Vec<u8>, side: u32, left: i32, top: i32, w: u32, h: u32, color: [u8; 4])
    requires
        old(pixels)@.len() == rgba_len(side as int),
        0 < w,
        0 < h,
        0 <= left,
        0 <= top,
        left + w <= i32::MAX,
        top + h <= i32::MAX,
    ensures
        final(pixels)@.len() == old(pixels)@.len(),
        forall|i: int|
            0 <= i < old(pixels)@.len() ==> #[trigger] final(pixels)@[i] == if byte_in_rect(
                i,
                side as int,
                left as int,
                top as int,
                w as int,
                h as int,
            ) {
                color@[i % 4]
            } else {
                old(pixels)@[i]
            },
{
    let raw = std::mem::take(pixels);
    let mut img = ImageBuffer::<Rgba<u8>, Vec<u8>>::from_raw(side, side, raw).unwrap();
    draw_filled_rect_mut(&mut img, Rect::at(left, top).of_size(w, h), Rgba(color));
    *pixels = img.into_raw();
}

/// A transparent canvas of `side` by `side` pixels.
fn blank_canvas(side: u32) -> (r: Vec<u8>)
    requires
        side <= 40,
    ensures
        r@ == blank(side as int),
{
    assert(4 * side * side <= 6400) by (nonlinear_arith) requires side <= 40;
    let n: usize = 4 * side as usize * side as usize;
    let mut v: Vec<u8> = Vec::with_capacity(n);
    let mut i: usize = 0;
    while i < n
        invariant
            i <= n,
            n == rgba_len(side as int),
            v@ == Seq::new(i as nat, |k: int| 0u8),
        decreases n - i,
    {
        v.push(0u8);
        i = i + 1;
        assert(v@ =~= Seq::new(i as nat, |k: int| 0u8));
    }
    assert(v@ =~= blank(side as int));
    v
}

/// `n / d` rounded to the nearest integer, halves up, for `n >= 0`.
fn round_ratio(n: u128, d: u128) -> (r: i32)
    requires
        0 < d,
        n <= 1_000_000_000_000_000_000_000_000_000,
        d <= 1_000_000_000_000_000_000_000_000_000,
        n <= 1_000_000 * d,
    ensures
        r == round_div(n as int, d as int),
        0 <= r <= 1_000_001,
{
    let q: u128 = (2 * n + d) / (2 * d);
    assert(q <= 1_000_001) by (nonlinear_arith)
        requires q == (2 * n + d) / (2 * d), n <= 1_000_000 * d, 0 < d;
    q as i32
}

/// The three corners of the triangle drawn for a radius in units.
pub fn triangle_vertices(radius: i64) -> (r: Vec<PixelPoint>)
    requires
        0 <= radius < MAX_RADIUS,
    ensures
        r@.len() == 3,
        points_view(r@) == triangle_points(radius as int),
        forall|k: int|
            0 <= k < 3 ==> 0 <= (#[trigger] r@[k]).x <= 2_000_000 && 0 <= r@[k].y <= 2_000_000,
{
    let n: u128 = radius as u128;
    let u: u128 = UNITS_PER_PIXEL as u128;
    let d: u128 = APEX_DENOMINATOR;
    let half: i32 = round_ratio(n, 2 * u);
    let right: i32 = round_ratio(3 * n, 2 * u);
    let mid: i32 = round_ratio(n, u);
    assert(n * (d + APEX_NUMERATOR) <= 1_000_000 * (d * u)) by (nonlinear_arith)
        requires n < 200_000_000, d == 100_000_000_000_000_000u128, u == 10_000_000u128,
            APEX_NUMERATOR == 36602540378443865u128;
    let apex: i32 = round_ratio(n * (d + APEX_NUMERATOR), d * u);
    let mut v: Vec<PixelPoint> = Vec::new();
    v.push(PixelPoint { x: half, y: half });
    v.push(PixelPoint { x: right, y: half });
    v.push(PixelPoint { x: mid, y: apex });
    assert(points_view(v@) =~= triangle_points(radius as int));
    v
}

/// Draws the sprite of a shape of `kind` with `radius` units: a square of side
/// twice the radius rounded to pixels, transparent but for the white shape:
/// a disc of the rounded radius at the centre, the whole square, or the triangle
/// of [`triangle_vertices`]. A hexagon is left blank.
pub fn render(kind: ShapeKind, radius: i64) -> (r: Sprite)
    requires
        0 <= radius < MAX_RADIUS,
    ensures
        r.pictures(kind, radius as int),
{
    let rp: i64 = round_pixels(radius);
    assert(0 <= rp <= 20) by (nonlinear_arith)
        requires rp == (2 * radius + 10_000_000int) / 20_000_000int, 0 <= radius < 200_000_000;
    let side: u32 = (2 * rp) as u32;
    let mut pixels = blank_canvas(side);
    match kind {
        ShapeKind::Circle => {
            fill_circle(&mut pixels, side, rp as i32, rp as i32, rp as i32, WHITE);
            assert(WHITE@ == white());
        },
        ShapeKind::Square => {
            if side > 0 {
                fill_rect(&mut pixels, side, 0, 0, side, side, WHITE);
                let ghost s = side as int;
                assert forall|i: int| 0 <= i < rgba_len(s) implies byte_in_rect(i, s, 0, 0, s, s) by {
                    let p = i / 4;
                    assert(0 <= p < s * s) by (nonlinear_arith) requires p == i / 4, 0 <= i < 4 * s * s;
                    assert(p % s < s) by (nonlinear_arith) requires 0 <= p, s > 0;
                    assert(0 <= p / s < s) by (nonlinear_arith) requires 0 <= p < s * s, s > 0;
                };
                assert forall|i: int| 0 <= i < rgba_len(s) implies pixels@[i] == 255u8 by {
                    assert(byte_in_rect(i, s, 0, 0, s, s));
                    assert(0 <= i % 4 < 4);
                };
            }
            assert(pixels@ =~= Seq::new(rgba_len(side as int) as nat, |i: int| 255u8));
        },
        ShapeKind::Triangle => {
            let points = triangle_vertices(radius);
            fill_polygon(&mut pixels, side, &points, WHITE);
            assert(WHITE@ == white());
        },
        ShapeKind::Hexagon => {},
    }
    Sprite { side, pixels }
}

} // verus!
