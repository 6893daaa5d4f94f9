//! The bouncing sprite: a donut at a fixed-point position with a fixed-point
//! velocity, a ring of evenly spaced sprinkles with random colors, and the
//! shape list that a renderer draws back to front.
//!
//! Coordinates and velocities are in units of `1 / FP_ONE` of a pixel, so all
//! motion arithmetic is exact. Color channels are fractions of `COLOR_ONE`.

use vstd::prelude::*;
use crate::trig::{FP_ONE, cosine, cosine_spec, lemma_cosine_range, lemma_sine_range, lemma_turn_units_range, sine, sine_spec, turn_units, turn_units_spec};
use crate::rng::{fresh_rng, rand_below};
use vstd::math::abs;

verus! {

/// A full color channel: a channel value `v` stands for `v / COLOR_ONE`,
/// so `COLOR_ONE` itself is 1.0 and smaller values lie in `[0, 1)`.
pub const COLOR_ONE: u32 = 10000;

/// An RGBA color with fixed-point channels scaled by `COLOR_ONE`.
#[derive(Clone, Copy, PartialEq, Eq, Structural, Debug)]
pub struct Color {
    pub red: u32,
    pub green: u32,
    pub blue: u32,
    pub alpha: u32,
}

/// One decorative sprinkle: a fixed slot on the decoration ring, a fixed
/// color, and the absolute position recomputed each frame.
#[derive(Clone, Copy, PartialEq, Eq, Structural, Debug)]
pub struct Sprinkle {
    /// Which slot of the ring this sprinkle sits in: its offset angle is
    /// exactly `angle_index * 2*pi / num_sprinkles`, fixed at construction.
    pub angle_index: usize,
    /// The color drawn for this sprinkle, fixed at construction.
    pub color: Color,
    /// Absolute x of the sprinkle for the current frame, in coordinate units.
    pub x: i64,
    /// Absolute y of the sprinkle for the current frame, in coordinate units.
    pub y: i64,
}

/// A filled ellipse for the renderer: a color and the bounding box
/// `[x, y, w, h]` in coordinate units.
#[derive(Clone, Copy, PartialEq, Eq, Structural, Debug)]
pub struct Shape {
    pub color: Color,
    pub x: i64,
    pub y: i64,
    pub w: i64,
    pub h: i64,
}

/// Starting x of the sprite's center, in coordinate units (400 pixels).
pub const START_X: i64 = 400 * FP_ONE;
/// Starting y of the sprite's center, in coordinate units (300 pixels).
pub const START_Y: i64 = 300 * FP_ONE;
/// Starting x velocity, in coordinate units per frame (2 pixels).
pub const START_VX: i64 = 2 * FP_ONE;
/// Starting y velocity, in coordinate units per frame (2 pixels).
pub const START_VY: i64 = 2 * FP_ONE;
/// Left playfield bound for the center, in coordinate units (30 pixels).
pub const MIN_X: i64 = 30 * FP_ONE;
/// Right playfield bound for the center, in coordinate units (770 pixels).
pub const MAX_X: i64 = 770 * FP_ONE;
/// Top playfield bound for the center, in coordinate units (30 pixels).
pub const MIN_Y: i64 = 30 * FP_ONE;
/// Bottom playfield bound for the center, in coordinate units (570 pixels).
pub const MAX_Y: i64 = 570 * FP_ONE;
/// Largest speed per axis the sprite may carry, in coordinate units.
pub const MAX_SPEED: i64 = 100 * FP_ONE;
/// Distance from the center at which sprinkles sit, in whole pixels.
pub const CREAM_RADIUS: i64 = 35;
/// How many sprinkles the ring carries.
pub const NUM_SPRINKLES: usize = 50;

/// A sprinkle's color: red, green and blue each lie in `[0, 1)` and the
/// alpha channel is exactly 1.0.
pub open spec fn sprinkle_color_wf(c: Color) -> bool {
    &&& c.red < COLOR_ONE
    &&& c.green < COLOR_ONE
    &&& c.blue < COLOR_ONE
    &&& c.alpha == COLOR_ONE
}

/// Where the position on one axis lands after one step: move by the
/// velocity, then clamp to the nearer bound if the move left `[lo, hi]`.
pub open spec fn step_pos(p: int, v: int, lo: int, hi: int) -> int {
    let q = p + v;
    if q < lo {
        lo
    } else if q > hi {
        hi
    } else {
        q
    }
}

/// Where the velocity on one axis lands after one step: its sign flips
/// exactly when the moved position left `[lo, hi]` and was clamped.
pub open spec fn step_vel(p: int, v: int, lo: int, hi: int) -> int {
    let q = p + v;
    if q < lo || q > hi {
        -v
    } else {
        v
    }
}

/// The bouncing sprite.
pub struct Donut {
    /// Center x, in coordinate units.
    pub x: i64,
    /// Center y, in coordinate units.
    pub y: i64,
    /// Per-frame x displacement, in coordinate units.
    pub vx: i64,
    /// Per-frame y displacement, in coordinate units.
    pub vy: i64,
    /// Distance from the center at which sprinkles sit, in whole pixels;
    /// constant over the sprite's lifetime.
    pub cream_radius: i64,
    /// How many sprinkles the ring carries; constant over the lifetime.
    pub num_sprinkles: usize,
    /// The sprinkles, in ring order: sprinkle `i` sits at offset angle
    /// `i * 2*pi / num_sprinkles`.
    pub sprinkles: Vec<Sprinkle>,
}

impl Donut {
    /// Absolute x of sprinkle `i` for the current position:
    /// `x + cream_radius * cos(i * 2*pi / num_sprinkles)`.
    pub open spec fn sprinkle_x(self, i: int) -> int {
        self.x + self.cream_radius * cosine_spec(turn_units_spec(i, self.num_sprinkles as int))
    }

    /// Absolute y of sprinkle `i` for the current position:
    /// `y + cream_radius * sin(i * 2*pi / num_sprinkles)`.
    pub open spec fn sprinkle_y(self, i: int) -> int {
        self.y + self.cream_radius * sine_spec(turn_units_spec(i, self.num_sprinkles as int))
    }

    /// Well-formedness, established at construction and preserved by every
    /// update: the center is inside the playfield, the speed is bounded,
    /// the ring is fully populated in slot order with well-formed colors,
    /// and every sprinkle sits exactly on its ring position.
    pub open spec fn wf(self) -> bool {
        &&& MIN_X <= self.x <= MAX_X
        &&& MIN_Y <= self.y <= MAX_Y
        &&& -MAX_SPEED <= self.vx <= MAX_SPEED
        &&& -MAX_SPEED <= self.vy <= MAX_SPEED
        &&& 0 <= self.cream_radius <= 1000
        &&& 0 < self.num_sprinkles <= 1000
        &&& self.sprinkles.len() == self.num_sprinkles
        &&& forall|i: int|
            0 <= i < self.sprinkles.len() ==> (#[trigger] self.sprinkles[i]).angle_index == i
        &&& forall|i: int|
            0 <= i < self.sprinkles.len() ==> sprinkle_color_wf((#[trigger] self.sprinkles[i]).color)
        &&& forall|i: int|
            0 <= i < self.sprinkles.len() ==> (#[trigger] self.sprinkles[i]).x == self.sprinkle_x(i)
        &&& forall|i: int|
            0 <= i < self.sprinkles.len() ==> (#[trigger] self.sprinkles[i]).y == self.sprinkle_y(i)
    }

    /// Builds the sprite at the fixed starting position and velocity, with
    /// `NUM_SPRINKLES` sprinkles in slot order: sprinkle `i` gets the offset
    /// angle `i * 2*pi / NUM_SPRINKLES`, a random color with every channel in
    /// `[0, 1)` and alpha exactly 1.0, and its absolute ring position.
    pub fn new() -> (d: Donut)
        ensures
            d.wf(),
            d.x == START_X,
            d.y == START_Y,
            d.vx == START_VX,
            d.vy == START_VY,
            d.cream_radius == CREAM_RADIUS,
            d.num_sprinkles == NUM_SPRINKLES,
            d.sprinkles.len() == NUM_SPRINKLES,
    {
        let mut rng = fresh_rng();
        let mut sprinkles: Vec<Sprinkle> = Vec::new();
        let mut i: usize = 0;
        while i < NUM_SPRINKLES
            invariant
                i <= NUM_SPRINKLES,
                sprinkles.len() == i,
                forall|j: int|
                    0 <= j < i ==> (#[trigger] sprinkles[j]).angle_index == j,
                forall|j: int|
                    0 <= j < i ==> sprinkle_color_wf((#[trigger] sprinkles[j]).color),
                forall|j: int|
                    0 <= j < i ==> (#[trigger] sprinkles[j]).x == START_X + CREAM_RADIUS
                        * cosine_spec(turn_units_spec(j, NUM_SPRINKLES as int)),
                forall|j: int|
                    0 <= j < i ==> (#[trigger] sprinkles[j]).y == START_Y + CREAM_RADIUS
                        * sine_spec(turn_units_spec(j, NUM_SPRINKLES as int)),
            decreases NUM_SPRINKLES - i,
        {
            let red = rand_below(&mut rng, COLOR_ONE);
            let green = rand_below(&mut rng, COLOR_ONE);
            let blue = rand_below(&mut rng, COLOR_ONE);
            let angle = turn_units(i, NUM_SPRINKLES);
            let cos_a = cosine(angle);
            let sin_a = sine(angle);
            sprinkles.push(
                Sprinkle {
                    angle_index: i,
                    color: Color { red, green, blue, alpha: COLOR_ONE },
                    x: START_X + CREAM_RADIUS * cos_a,
                    y: START_Y + CREAM_RADIUS * sin_a,
                },
            );
            i = i + 1;
        }
        Donut {
            x: START_X,
            y: START_Y,
            vx: START_VX,
            vy: START_VY,
            cream_radius: CREAM_RADIUS,
            num_sprinkles: NUM_SPRINKLES,
            sprinkles,
        }
    }

    /// One frame tick: move the center by the velocity, clamp and reflect
    /// against each playfield bound independently, then recompute every
    /// sprinkle's absolute position from its fixed angle. The position always
    /// lands inside the playfield, each velocity component keeps its
    /// magnitude, and the sprinkles' angles and colors never change.
    pub fn update(&mut self)
        requires
            old(self).wf(),
        ensures
            final(self).wf(),
            final(self).x == step_pos(old(self).x as int, old(self).vx as int, MIN_X as int, MAX_X as int),
            final(self).y == step_pos(old(self).y as int, old(self).vy as int, MIN_Y as int, MAX_Y as int),
            final(self).vx == step_vel(old(self).x as int, old(self).vx as int, MIN_X as int, MAX_X as int),
            final(self).vy == step_vel(old(self).y as int, old(self).vy as int, MIN_Y as int, MAX_Y as int),
            abs(final(self).vx as int) == abs(old(self).vx as int),
            abs(final(self).vy as int) == abs(old(self).vy as int),
            final(self).cream_radius == old(self).cream_radius,
            final(self).num_sprinkles == old(self).num_sprinkles,
            final(self).sprinkles.len() == old(self).sprinkles.len(),
            forall|i: int|
                0 <= i < old(self).sprinkles.len() ==> (#[trigger] final(self).sprinkles[i]).angle_index
                    == old(self).sprinkles[i].angle_index,
            forall|i: int|
                0 <= i < old(self).sprinkles.len() ==> (#[trigger] final(self).sprinkles[i]).color
                    == old(self).sprinkles[i].color,
            forall|i: int|
                0 <= i < old(self).sprinkles.len() ==> (#[trigger] final(self).sprinkles[i]).x
                    == final(self).sprinkle_x(i),
            forall|i: int|
                0 <= i < old(self).sprinkles.len() ==> (#[trigger] final(self).sprinkles[i]).y
                    == final(self).sprinkle_y(i),
    {
        self.x = self.x + self.vx;
        if self.x < MIN_X {
            self.x = MIN_X;
            self.vx = -self.vx;
        } else if self.x > MAX_X {
            self.x = MAX_X;
            self.vx = -self.vx;
        }
        self.y = self.y + self.vy;
        if self.y < MIN_Y {
            self.y = MIN_Y;
            self.vy = -self.vy;
        } else if self.y > MAX_Y {
            self.y = MAX_Y;
            self.vy = -self.vy;
        }
        let ghost moved = *self;
        let mut i: usize = 0;
        while i < self.sprinkles.len()
            invariant
                self.x == moved.x,
                self.y == moved.y,
                self.vx == moved.vx,
                self.vy == moved.vy,
                self.cream_radius == moved.cream_radius,
                self.num_sprinkles == moved.num_sprinkles,
                self.sprinkles.len() == moved.sprinkles.len(),
                i <= self.sprinkles.len(),
                MIN_X <= self.x <= MAX_X,
                MIN_Y <= self.y <= MAX_Y,
                0 <= self.cream_radius <= 1000,
                0 < self.num_sprinkles <= 1000,
                self.sprinkles.len() == self.num_sprinkles,
                forall|j: int|
                    0 <= j < self.sprinkles.len() ==> (#[trigger] self.sprinkles[j]).angle_index
                        == moved.sprinkles[j].angle_index,
                forall|j: int|
                    0 <= j < self.sprinkles.len() ==> (#[trigger] self.sprinkles[j]).color
                        == moved.sprinkles[j].color,
                forall|j: int|
                    0 <= j < self.sprinkles.len() ==> (#[trigger] self.sprinkles[j]).angle_index == j,
                forall|j: int|
                    0 <= j < i ==> (#[trigger] self.sprinkles[j]).x == self.sprinkle_x(j),
                forall|j: int|
                    0 <= j < i ==> (#[trigger] self.sprinkles[j]).y == self.sprinkle_y(j),
            decreases self.sprinkles.len() - i,
        {
            let s = self.sprinkles[i];
            let angle = turn_units(s.angle_index, self.num_sprinkles);
            let cos_a = cosine(angle);
            let sin_a = sine(angle);
            proof {
                lemma_radius_offset_bounded(self.cream_radius as int, cos_a as int);
                lemma_radius_offset_bounded(self.cream_radius as int, sin_a as int);
            }
            let nx: i64 = self.x + self.cream_radius * cos_a;
            let ny: i64 = self.y + self.cream_radius * sin_a;
            self.sprinkles.set(i, Sprinkle { x: nx, y: ny, ..s });
            i = i + 1;
        }
    }
}

/// The translucent white cream ring, the widest layer: an 80 by 80 pixel
/// ellipse centered on the sprite.
pub open spec fn cream_ring_shape(d: Donut) -> Shape {
    Shape {
        color: Color { red: COLOR_ONE, green: COLOR_ONE, blue: COLOR_ONE, alpha: 9000 },
        x: (d.x - 40 * FP_ONE) as i64,
        y: (d.y - 40 * FP_ONE) as i64,
        w: (80 * FP_ONE) as i64,
        h: (80 * FP_ONE) as i64,
    }
}

/// The gray hole punched in the cream: a 44 by 44 pixel ellipse centered on
/// the sprite.
pub open spec fn cream_hole_shape(d: Donut) -> Shape {
    Shape {
        color: Color { red: 5000, green: 5000, blue: 5000, alpha: COLOR_ONE },
        x: (d.x - 22 * FP_ONE) as i64,
        y: (d.y - 22 * FP_ONE) as i64,
        w: (44 * FP_ONE) as i64,
        h: (44 * FP_ONE) as i64,
    }
}

/// The brown donut body: a 70 by 70 pixel ellipse centered on the sprite.
pub open spec fn body_shape(d: Donut) -> Shape {
    Shape {
        color: Color { red: 8000, green: 5200, blue: 2500, alpha: COLOR_ONE },
        x: (d.x - 35 * FP_ONE) as i64,
        y: (d.y - 35 * FP_ONE) as i64,
        w: (70 * FP_ONE) as i64,
        h: (70 * FP_ONE) as i64,
    }
}

/// The gray hole in the donut body: a 30 by 30 pixel ellipse centered on
/// the sprite.
pub open spec fn body_hole_shape(d: Donut) -> Shape {
    Shape {
        color: Color { red: 5000, green: 5000, blue: 5000, alpha: COLOR_ONE },
        x: (d.x - 15 * FP_ONE) as i64,
        y: (d.y - 15 * FP_ONE) as i64,
        w: (30 * FP_ONE) as i64,
        h: (30 * FP_ONE) as i64,
    }
}

/// Sprinkle `i` as drawn: a 4 by 4 pixel ellipse in the sprinkle's color,
/// centered on its absolute position.
pub open spec fn sprinkle_shape(d: Donut, i: int) -> Shape {
    Shape {
        color: d.sprinkles[i].color,
        x: (d.sprinkles[i].x - 2 * FP_ONE) as i64,
        y: (d.sprinkles[i].y - 2 * FP_ONE) as i64,
        w: (4 * FP_ONE) as i64,
        h: (4 * FP_ONE) as i64,
    }
}

impl Donut {
    /// The frame's draw list, back to front: cream ring, cream hole, donut
    /// body, body hole, then one small disc per sprinkle at its current
    /// absolute position and stored color. Reads the sprite only.
    pub fn draw_shapes(&self) -> (shapes: Vec<Shape>)
        requires
            self.wf(),
        ensures
            shapes.len() == 4 + self.sprinkles.len(),
            shapes[0] == cream_ring_shape(*self),
            shapes[1] == cream_hole_shape(*self),
            shapes[2] == body_shape(*self),
            shapes[3] == body_hole_shape(*self),
            forall|i: int|
                0 <= i < self.sprinkles.len() ==> #[trigger] shapes[4 + i] == sprinkle_shape(*self, i),
    {
        let mut shapes: Vec<Shape> = Vec::new();
        let white = Color { red: COLOR_ONE, green: COLOR_ONE, blue: COLOR_ONE, alpha: 9000 };
        let gray = Color { red: 5000, green: 5000, blue: 5000, alpha: COLOR_ONE };
        let brown = Color { red: 8000, green: 5200, blue: 2500, alpha: COLOR_ONE };
        shapes.push(
            Shape {
                color: white,
                x: self.x - 40 * FP_ONE,
                y: self.y - 40 * FP_ONE,
                w: 80 * FP_ONE,
                h: 80 * FP_ONE,
            },
        );
        shapes.push(
            Shape {
                color: gray,
                x: self.x - 22 * FP_ONE,
                y: self.y - 22 * FP_ONE,
                w: 44 * FP_ONE,
                h: 44 * FP_ONE,
            },
        );
        shapes.push(
            Shape {
                color: brown,
                x: self.x - 35 * FP_ONE,
                y: self.y - 35 * FP_ONE,
                w: 70 * FP_ONE,
                h: 70 * FP_ONE,
            },
        );
        shapes.push(
            Shape {
                color: gray,
                x: self.x - 15 * FP_ONE,
                y: self.y - 15 * FP_ONE,
                w: 30 * FP_ONE,
                h: 30 * FP_ONE,
            },
        );
        let mut i: usize = 0;
        while i < self.sprinkles.len()
            invariant
                self.wf(),
                i <= self.sprinkles.len(),
                shapes.len() == 4 + i,
                shapes[0] == cream_ring_shape(*self),
                shapes[1] == cream_hole_shape(*self),
                shapes[2] == body_shape(*self),
                shapes[3] == body_hole_shape(*self),
                forall|j: int|
                    0 <= j < i ==> #[trigger] shapes[4 + j] == sprinkle_shape(*self, j),
            decreases self.sprinkles.len() - i,
        {
            let s = self.sprinkles[i];
            proof {
                lemma_sprinkle_pos_bounded(*self, i as int);
            }
            shapes.push(
                Shape {
                    color: s.color,
                    x: s.x - 2 * FP_ONE,
                    y: s.y - 2 * FP_ONE,
                    w: 4 * FP_ONE,
                    h: 4 * FP_ONE,
                },
            );
            i = i + 1;
        }
        shapes
    }
}

/// A well-formed sprite's sprinkles stay close to the playfield: their
/// coordinates are within 1000 pixels of the center's bounds.
proof fn lemma_sprinkle_pos_bounded(d: Donut, i: int)
    requires
        d.wf(),
        0 <= i < d.sprinkles.len(),
    ensures
        MIN_X - 1000 * FP_ONE <= d.sprinkles[i].x <= MAX_X + 1000 * FP_ONE,
        MIN_Y - 1000 * FP_ONE <= d.sprinkles[i].y <= MAX_Y + 1000 * FP_ONE,
{
    let n = d.num_sprinkles as int;
    let a = turn_units_spec(i, n);
    lemma_turn_units_range(i, n);
    lemma_cosine_range(a);
    lemma_sine_range(a);
    lemma_radius_offset_bounded(d.cream_radius as int, cosine_spec(a));
    lemma_radius_offset_bounded(d.cream_radius as int, sine_spec(a));
}

/// A sprinkle offset is small: a radius of at most 1000 pixels times a unit
/// cosine or sine stays within 1000 whole pixels in coordinate units.
proof fn lemma_radius_offset_bounded(r: int, c: int)
    requires
        0 <= r <= 1000,
        -FP_ONE <= c <= FP_ONE,
    ensures
        -1000 * FP_ONE <= r * c <= 1000 * FP_ONE,
{
    assert(-1000 * 65536 <= r * c <= 1000 * 65536) by (nonlinear_arith)
        requires
            0 <= r <= 1000,
            -65536 <= c <= 65536,
    ;
}

/// Law: one step on one axis always lands the position inside the bounds,
/// wherever the move started.
pub proof fn lemma_step_pos_in_bounds(p: int, v: int, lo: int, hi: int)
    requires
        lo <= hi,
    ensures
        lo <= step_pos(p, v, lo, hi) <= hi,
{
}

/// Law: a step never changes the speed on an axis; a bounce only flips
/// the sign of the velocity component.
pub proof fn lemma_step_vel_magnitude(p: int, v: int, lo: int, hi: int)
    ensures
        abs(step_vel(p, v, lo, hi)) == abs(v),
{
}

} // verus!

