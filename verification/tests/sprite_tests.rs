use donut::sprite::{
    Color, Donut, Shape, COLOR_ONE, CREAM_RADIUS, MAX_X, MAX_Y, MIN_X, MIN_Y, NUM_SPRINKLES,
    START_VX, START_VY, START_X, START_Y,
};
use donut::trig::{cosine, sine, turn_units, FP_ONE};

#[test]
fn construction_yields_fifty_sprinkles_with_unit_colors() {
    let d = Donut::new();
    assert_eq!(d.sprinkles.len(), NUM_SPRINKLES);
    assert_eq!(d.sprinkles.len(), 50);
    for (i, s) in d.sprinkles.iter().enumerate() {
        assert_eq!(s.angle_index, i);
        assert!(s.color.red < COLOR_ONE);
        assert!(s.color.green < COLOR_ONE);
        assert!(s.color.blue < COLOR_ONE);
        assert_eq!(s.color.alpha, COLOR_ONE);
    }
}

#[test]
fn construction_starts_at_the_fixed_state() {
    let d = Donut::new();
    assert_eq!(d.x, 400 * FP_ONE);
    assert_eq!(d.y, 300 * FP_ONE);
    assert_eq!(d.vx, 2 * FP_ONE);
    assert_eq!(d.vy, 2 * FP_ONE);
    assert_eq!(d.cream_radius, CREAM_RADIUS);
    assert_eq!(d.num_sprinkles, 50);
}

#[test]
fn construction_places_sprinkles_on_the_ring() {
    let d = Donut::new();
    // Slot 0 sits at angle 0: straight to the right of the center.
    assert_eq!(d.sprinkles[0].x, START_X + CREAM_RADIUS * FP_ONE);
    assert_eq!(d.sprinkles[0].y, START_Y);
    // Slot 25 sits half a turn away: straight to the left.
    assert_eq!(d.sprinkles[25].x, START_X - CREAM_RADIUS * FP_ONE);
    assert_eq!(d.sprinkles[25].y, START_Y);
    // Every slot matches the ring formula.
    for (i, s) in d.sprinkles.iter().enumerate() {
        let a: i64 = turn_units(i, 50);
        assert_eq!(s.x, START_X + CREAM_RADIUS * cosine(a));
        assert_eq!(s.y, START_Y + CREAM_RADIUS * sine(a));
    }
}

#[test]
fn one_update_moves_by_the_velocity() {
    let mut d = Donut::new();
    d.update();
    assert_eq!(d.x, 402 * FP_ONE);
    assert_eq!(d.y, 302 * FP_ONE);
    assert_eq!(d.vx, START_VX);
    assert_eq!(d.vy, START_VY);
}

#[test]
fn right_bound_clamps_then_reflects() {
    let mut d = Donut::new();
    // 185 steps of 2 pixels take x from 400 exactly to the 770 bound.
    for _ in 0..185 {
        d.update();
    }
    assert_eq!(d.x, 770 * FP_ONE);
    assert_eq!(d.vx, 2 * FP_ONE);
    // Touching the bound while still moving right: clamp and flip.
    d.update();
    assert_eq!(d.x, 770 * FP_ONE);
    assert_eq!(d.vx, -2 * FP_ONE);
    // The following update moves away from the wall.
    d.update();
    assert_eq!(d.x, 768 * FP_ONE);
    assert_eq!(d.vx, -2 * FP_ONE);
}

#[test]
fn thousand_updates_stay_in_bounds_and_keep_speed() {
    let mut d = Donut::new();
    for _ in 0..1000 {
        d.update();
        assert!(MIN_X <= d.x && d.x <= MAX_X);
        assert!(MIN_Y <= d.y && d.y <= MAX_Y);
        assert_eq!(d.vx.abs(), 2 * FP_ONE);
        assert_eq!(d.vy.abs(), 2 * FP_ONE);
    }
}

#[test]
fn trajectory_is_deterministic() {
    let mut a = Donut::new();
    let mut b = Donut::new();
    for _ in 0..500 {
        a.update();
        b.update();
        assert_eq!(a.x, b.x);
        assert_eq!(a.y, b.y);
        assert_eq!(a.vx, b.vx);
        assert_eq!(a.vy, b.vy);
    }
}

#[test]
fn updates_keep_angles_and_colors() {
    let mut d = Donut::new();
    let angles: Vec<usize> = d.sprinkles.iter().map(|s| s.angle_index).collect();
    let colors: Vec<Color> = d.sprinkles.iter().map(|s| s.color).collect();
    for _ in 0..10 {
        d.update();
        for (i, s) in d.sprinkles.iter().enumerate() {
            assert_eq!(s.angle_index, angles[i]);
            assert_eq!(s.color, colors[i]);
        }
    }
}

#[test]
fn sprinkles_follow_the_center_each_frame() {
    let mut d = Donut::new();
    for _ in 0..7 {
        d.update();
        for (i, s) in d.sprinkles.iter().enumerate() {
            let a: i64 = turn_units(i, 50);
            assert_eq!(s.x, d.x + CREAM_RADIUS * cosine(a));
            assert_eq!(s.y, d.y + CREAM_RADIUS * sine(a));
        }
    }
}

#[test]
fn draw_list_is_layered_back_to_front() {
    let d = Donut::new();
    let shapes = d.draw_shapes();
    assert_eq!(shapes.len(), 54);
    let white = Color { red: COLOR_ONE, green: COLOR_ONE, blue: COLOR_ONE, alpha: 9000 };
    let gray = Color { red: 5000, green: 5000, blue: 5000, alpha: COLOR_ONE };
    let brown = Color { red: 8000, green: 5200, blue: 2500, alpha: COLOR_ONE };
    let expected_ring = Shape {
        color: white,
        x: d.x - 40 * FP_ONE,
        y: d.y - 40 * FP_ONE,
        w: 80 * FP_ONE,
        h: 80 * FP_ONE,
    };
    assert_eq!(shapes[0], expected_ring);
    let expected_cream_hole = Shape {
        color: gray,
        x: d.x - 22 * FP_ONE,
        y: d.y - 22 * FP_ONE,
        w: 44 * FP_ONE,
        h: 44 * FP_ONE,
    };
    assert_eq!(shapes[1], expected_cream_hole);
    let expected_body = Shape {
        color: brown,
        x: d.x - 35 * FP_ONE,
        y: d.y - 35 * FP_ONE,
        w: 70 * FP_ONE,
        h: 70 * FP_ONE,
    };
    assert_eq!(shapes[2], expected_body);
    let expected_body_hole = Shape {
        color: gray,
        x: d.x - 15 * FP_ONE,
        y: d.y - 15 * FP_ONE,
        w: 30 * FP_ONE,
        h: 30 * FP_ONE,
    };
    assert_eq!(shapes[3], expected_body_hole);
    for (i, s) in d.sprinkles.iter().enumerate() {
        let shape = shapes[4 + i];
        assert_eq!(shape.color, s.color);
        assert_eq!(shape.x, s.x - 2 * FP_ONE);
        assert_eq!(shape.y, s.y - 2 * FP_ONE);
        assert_eq!(shape.w, 4 * FP_ONE);
        assert_eq!(shape.h, 4 * FP_ONE);
    }
}
