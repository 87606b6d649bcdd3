use starfield::units::{COUNT_MICROS_PER_TICK, TICKS_PER_UNIT};
use starfield::{
    calculate_velocity, move_stars, reset_stars, run_frame, setup, Position, Star, Velocity,
    MAX_SPEED, MIN_SPEED, NUM_STARS, SPACE_EXTENT,
};

const ZERO: Velocity = Velocity { x: 0, y: 0, z: 0 };

fn star_at(x: i64, y: i64, z: i64, base_speed: i64) -> Star {
    Star { position: Position { x, y, z }, velocity: ZERO, base_speed }
}

fn length(x: f64, y: f64) -> f64 {
    (x * x + y * y).sqrt()
}

#[test]
fn a_star_outside_is_put_back_then_moves_radially() {
    assert_eq!(SPACE_EXTENT, 1000 * TICKS_PER_UNIT);
    let half = 500 * TICKS_PER_UNIT;
    let mut stars = vec![star_at(1200 * TICKS_PER_UNIT, 0, 0, 50_000)];

    reset_stars(&mut stars);
    assert_eq!(stars.len(), 1);
    let placed = stars[0].position;
    assert!(-half <= placed.x && placed.x <= half);
    assert!(-half <= placed.y && placed.y <= half);
    assert!(-half <= placed.z && placed.z <= half);
    assert!(MIN_SPEED <= stars[0].base_speed && stars[0].base_speed <= MAX_SPEED);

    // dt = 0.016 s, base speed 50, multiplier 1: the rate is 0.8 per second.
    stars[0].base_speed = 50_000;
    calculate_velocity(16_000, &mut stars);
    let velocity = stars[0].velocity;
    assert_eq!(velocity.x, placed.x as i128 * 800_000_000_000);
    assert_eq!(velocity.y, placed.y as i128 * 800_000_000_000);
    assert_eq!(velocity.z, 0);
    assert_eq!(stars[0].position, placed);
    let distance = length(placed.x as f64, placed.y as f64) / 1e6;
    let speed = length(velocity.x as f64, velocity.y as f64) / 1e18;
    assert!((speed - distance * 1.0 * 0.016 * 50.0).abs() <= 1e-9 * (1.0 + speed));

    move_stars(16_000, &mut stars);
    let moved = stars[0].position;
    assert_eq!(moved.x as i128, placed.x as i128 + velocity.x * 16_000 / COUNT_MICROS_PER_TICK);
    assert_eq!(moved.y as i128, placed.y as i128 + velocity.y * 16_000 / COUNT_MICROS_PER_TICK);
    assert_eq!(moved.z, placed.z);
    assert_eq!(stars[0].velocity, velocity);
    let exact_x = placed.x as f64 / 1e6 + velocity.x as f64 / 1e18 * 0.016;
    let exact_y = placed.y as f64 / 1e6 + velocity.y as f64 / 1e18 * 0.016;
    assert!((moved.x as f64 / 1e6 - exact_x).abs() <= 2e-6);
    assert!((moved.y as f64 / 1e6 - exact_y).abs() <= 2e-6);
}

#[test]
fn reset_leaves_stars_inside_untouched() {
    let inside = vec![
        star_at(0, 0, 0, 10_000),
        star_at(SPACE_EXTENT, -SPACE_EXTENT, 0, 80_000),
        star_at(800 * TICKS_PER_UNIT, 3, i64::MAX, 33_333),
        star_at(-1, 999_999_999, i64::MIN, 12_345),
    ];
    let mut stars = inside.clone();
    stars[2].velocity = Velocity { x: 5, y: -6, z: 7 };
    let before = stars.clone();
    reset_stars(&mut stars);
    assert_eq!(stars, before);
}

#[test]
fn reset_puts_every_star_outside_into_the_middle_half() {
    let half = SPACE_EXTENT / 2;
    let kept = Velocity { x: 11, y: -22, z: 33 };
    let mut stars = vec![
        star_at(SPACE_EXTENT + 1, 0, 0, 10_000),
        star_at(-SPACE_EXTENT - 1, 0, 0, 10_000),
        star_at(0, SPACE_EXTENT + 1, 0, 10_000),
        star_at(0, -SPACE_EXTENT - 1, 0, 10_000),
        star_at(i64::MAX, i64::MIN, 7, 10_000),
    ];
    for star in stars.iter_mut() {
        star.velocity = kept;
    }
    reset_stars(&mut stars);
    assert_eq!(stars.len(), 5);
    for star in &stars {
        assert!(-half <= star.position.x && star.position.x <= half);
        assert!(-half <= star.position.y && star.position.y <= half);
        assert!(-half <= star.position.z && star.position.z <= half);
        assert!(MIN_SPEED <= star.base_speed && star.base_speed <= MAX_SPEED);
        assert_eq!(star.velocity, kept);
    }
}

#[test]
fn reset_draws_each_value_afresh() {
    let mut stars = vec![star_at(SPACE_EXTENT + 1, 0, 0, 10_000); 400];
    reset_stars(&mut stars);
    let first = stars[0];
    assert!(stars.iter().any(|s| s.position.x != first.position.x));
    assert!(stars.iter().any(|s| s.position.y != first.position.y));
    assert!(stars.iter().any(|s| s.position.z != first.position.z));
    assert!(stars.iter().any(|s| s.base_speed != first.base_speed));
    assert!(stars.iter().any(|s| s.position.x != s.position.y));
    assert!(stars.iter().any(|s| s.position.y != s.position.z));
}

#[test]
fn setup_spreads_the_whole_population_over_the_extent() {
    let stars = setup();
    assert_eq!(NUM_STARS, 1300);
    assert_eq!(stars.len(), 1300);
    let half = SPACE_EXTENT / 2;
    for star in &stars {
        assert!(-SPACE_EXTENT <= star.position.x && star.position.x <= SPACE_EXTENT);
        assert!(-SPACE_EXTENT <= star.position.y && star.position.y <= SPACE_EXTENT);
        assert!(-half <= star.position.z && star.position.z <= half);
        assert_eq!(star.velocity, ZERO);
        assert!(MIN_SPEED <= star.base_speed && star.base_speed <= MAX_SPEED);
    }
    // Not a cluster: some star lies beyond the middle half, and no two axes agree throughout.
    assert!(stars.iter().any(|s| s.position.x.abs() > half || s.position.y.abs() > half));
    assert!(stars.iter().any(|s| s.position.x != stars[0].position.x));
    assert!(stars.iter().any(|s| s.base_speed != stars[0].base_speed));
}

#[test]
fn calculate_velocity_sets_every_star_from_its_own_position() {
    let mut stars = vec![
        star_at(1_200_000_000, -7, 3, 50_000),
        star_at(0, 0, 123, 80_000),
        star_at(-250_000_000, 250_000_000, -9, 10_000),
    ];
    stars[0].velocity = Velocity { x: 9, y: 9, z: 9 };
    calculate_velocity(16_000, &mut stars);
    assert_eq!(
        stars[0].velocity,
        Velocity { x: 960_000_000_000_000_000_000, y: -5_600_000_000_000, z: 0 }
    );
    assert_eq!(stars[1].velocity, ZERO);
    assert_eq!(
        stars[2].velocity,
        Velocity { x: -40_000_000_000_000_000_000, y: 40_000_000_000_000_000_000, z: 0 }
    );
    assert_eq!(stars[0].position, Position { x: 1_200_000_000, y: -7, z: 3 });
    assert_eq!(stars[0].base_speed, 50_000);
    assert_eq!(stars[1].position, Position { x: 0, y: 0, z: 123 });
    assert_eq!(stars[2].base_speed, 10_000);
}

#[test]
fn calculate_velocity_with_no_time_elapsed_gives_rest() {
    let mut stars = vec![star_at(999, -999, 1, 80_000)];
    stars[0].velocity = Velocity { x: 1, y: 2, z: 3 };
    calculate_velocity(0, &mut stars);
    assert_eq!(stars[0].velocity, ZERO);
}

#[test]
fn calculate_velocity_holds_the_extremes() {
    let mut stars = vec![star_at(i64::MIN, i64::MAX, 0, 80_000)];
    calculate_velocity(u32::MAX, &mut stars);
    let rate: i128 = 1000 * 4_294_967_295 * 80_000;
    assert_eq!(stars[0].velocity.x, i64::MIN as i128 * rate);
    assert_eq!(stars[0].velocity.y, i64::MAX as i128 * rate);
    assert_eq!(stars[0].velocity.z, 0);
}

#[test]
fn move_stars_adds_velocity_times_elapsed_time() {
    let mut stars = vec![
        Star {
            position: Position { x: 1_200_000_000, y: -7, z: 3 },
            velocity: Velocity {
                x: 960_000_000_000_000_000_000,
                y: -1_500_000_000_000_000_000,
                z: 250_000_000_000_000,
            },
            base_speed: 50_000,
        },
        Star {
            position: Position { x: 5, y: 6, z: 7 },
            velocity: ZERO,
            base_speed: 10_000,
        },
    ];
    let velocity = stars[0].velocity;
    move_stars(16_000, &mut stars);
    // 960 units/s for 0.016 s is 15.36 units.
    assert_eq!(stars[0].position, Position { x: 1_215_360_000, y: -24_007, z: 7 });
    assert_eq!(stars[0].velocity, velocity);
    assert_eq!(stars[0].base_speed, 50_000);
    assert_eq!(stars[1], star_at(5, 6, 7, 10_000));
}

#[test]
fn move_stars_is_the_same_in_any_order() {
    let a = Star {
        position: Position { x: 10, y: 20, z: 30 },
        velocity: Velocity { x: 3_000_000_000_000_000_000, y: -4_000_000_000_000_000_000, z: 0 },
        base_speed: 20_000,
    };
    let b = Star {
        position: Position { x: -10, y: -20, z: -30 },
        velocity: Velocity { x: -7_000_000_000_000_000_000, y: 1, z: -1 },
        base_speed: 70_000,
    };
    let mut forward = vec![a, b];
    let mut backward = vec![b, a];
    let mut alone = vec![a];
    move_stars(1_000_000, &mut forward);
    move_stars(1_000_000, &mut backward);
    move_stars(1_000_000, &mut alone);
    assert_eq!(forward[0], backward[1]);
    assert_eq!(forward[1], backward[0]);
    assert_eq!(forward[0], alone[0]);
    assert_eq!(forward[0].position, Position { x: 3_000_010, y: -3_999_980, z: 30 });
    assert_eq!(forward[1].position, Position { x: -7_000_010, y: -20, z: -30 });
}

#[test]
fn the_stages_keep_the_number_of_stars() {
    let mut stars = setup();
    let n = stars.len();
    reset_stars(&mut stars);
    assert_eq!(stars.len(), n);
    calculate_velocity(16_667, &mut stars);
    assert_eq!(stars.len(), n);
    move_stars(16_667, &mut stars);
    assert_eq!(stars.len(), n);
    let mut none: Vec<Star> = Vec::new();
    reset_stars(&mut none);
    calculate_velocity(1, &mut none);
    move_stars(1, &mut none);
    run_frame(1, &mut none);
    assert!(none.is_empty());
}

#[test]
fn frames_keep_the_population_and_its_bounds() {
    let mut stars = setup();
    for frame in 0..200u32 {
        let dt = 16_000 + 1_000 * (frame % 50);
        run_frame(dt, &mut stars);
        assert_eq!(stars.len(), 1300);
        for star in &stars {
            assert!(MIN_SPEED <= star.base_speed && star.base_speed <= MAX_SPEED);
            // Inside when the frame's velocity was set, so at most one frame's way outside.
            let reach = SPACE_EXTENT as i128 * 6 + 1;
            assert!((star.position.x as i128).abs() <= reach);
            assert!((star.position.y as i128).abs() <= reach);
            assert!(star.position.z.abs() <= SPACE_EXTENT / 2);
            assert_eq!(star.velocity.z, 0);
        }
    }
}

#[test]
fn a_frame_moves_a_star_inside_by_its_new_velocity() {
    let mut stars = vec![star_at(400_000_000, -300_000_000, 77, 50_000)];
    stars[0].velocity = Velocity { x: -1, y: -1, z: -1 };
    run_frame(16_000, &mut stars);
    // The rate is 0.8 per second, so the star moves by 0.0128 of its position.
    assert_eq!(
        stars[0].velocity,
        Velocity { x: 320_000_000_000_000_000_000, y: -240_000_000_000_000_000_000, z: 0 }
    );
    assert_eq!(stars[0].position, Position { x: 405_120_000, y: -303_840_000, z: 77 });
    assert_eq!(stars[0].base_speed, 50_000);
}

#[test]
fn a_frame_gives_a_star_that_was_put_back_a_velocity_that_fits() {
    let mut stars = vec![star_at(SPACE_EXTENT + 1, 0, 0, 10_000); 50];
    for star in stars.iter_mut() {
        star.velocity = Velocity { x: 123, y: 456, z: 789 };
    }
    run_frame(20_000, &mut stars);
    let half = SPACE_EXTENT as i128 / 2;
    for star in &stars {
        let rate = 1000 * 20_000 * star.base_speed as i128;
        let v = star.velocity;
        assert_eq!(v.z, 0);
        assert_eq!(v.x % rate, 0);
        assert_eq!(v.y % rate, 0);
        let (x, y) = (v.x / rate, v.y / rate);
        assert!(-half <= x && x <= half);
        assert!(-half <= y && y <= half);
        assert_eq!(star.position.x as i128, x + v.x * 20_000 / COUNT_MICROS_PER_TICK);
        assert_eq!(star.position.y as i128, y + v.y * 20_000 / COUNT_MICROS_PER_TICK);
        assert!(-half <= star.position.z as i128 && star.position.z as i128 <= half);
    }
}
