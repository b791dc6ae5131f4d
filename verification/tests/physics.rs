use bevy_fighter::math::clamp_i64;
use bevy_fighter::math::directed;
use bevy_fighter::math::lerp;
use bevy_fighter::math::scale;
use bevy_fighter::math::Vec2;
use bevy_fighter::math::Vec3;
use bevy_fighter::physics::InterpolatedForce;

#[test]
fn clamp_keeps_what_fits() {
    assert_eq!(clamp_i64(0), 0);
    assert_eq!(clamp_i64(-7), -7);
    assert_eq!(clamp_i64(i32::MAX as i64), i32::MAX);
    assert_eq!(clamp_i64(i32::MAX as i64 + 1), i32::MAX);
    assert_eq!(clamp_i64(i32::MIN as i64 - 1), i32::MIN);
    assert_eq!(clamp_i64(i64::MAX), i32::MAX);
    assert_eq!(clamp_i64(i64::MIN), i32::MIN);
}

#[test]
fn scale_rounds_toward_zero() {
    assert_eq!(scale(1000, -7, 4), -1750);
    assert_eq!(scale(2500, -7, 4), -4375);
    assert_eq!(scale(3, 1, 2), 1);
    assert_eq!(scale(-3, 1, 2), -1);
    assert_eq!(scale(1001, 5, 4), 1251);
    assert_eq!(scale(15000, 5, 4), 18750);
    assert_eq!(scale(i32::MAX, 2, 1), i32::MAX);
    assert_eq!(scale(i32::MIN, 2, 1), i32::MIN);
    assert_eq!(scale(i32::MIN, -1, 1), i32::MAX);
}

#[test]
fn directed_turns_with_the_facing() {
    assert_eq!(directed(1, 4000), 4000);
    assert_eq!(directed(-1, 4000), -4000);
    assert_eq!(directed(-1, i32::MIN), i32::MAX);
    assert_eq!(directed(i32::MIN, i32::MIN), i32::MAX);
    assert_eq!(directed(0, 4000), 0);
}

#[test]
fn lerp_moves_by_the_fraction() {
    assert_eq!(lerp(10000, 0, 1, 20), 9500);
    assert_eq!(lerp(9500, 0, 2, 20), 8550);
    assert_eq!(lerp(0, 10, 1, 3), 3);
    assert_eq!(lerp(0, -10, 1, 3), -3);
    assert_eq!(lerp(-5, 5, 20, 20), 5);
    assert_eq!(lerp(i32::MIN, i32::MAX, 255, 255), i32::MAX);
    assert_eq!(lerp(i32::MAX, i32::MIN, 7, 7), i32::MIN);
    assert_eq!(lerp(0, i32::MAX, 2, 1), i32::MAX);
}

#[test]
fn custom_lerp_snaps_inside_the_dead_zone() {
    let rest = Vec2::zero();
    assert_eq!(Vec2::new(100, 0).custom_lerp(rest, 1, 2), Vec2::new(50, 0));
    assert_eq!(Vec2::new(21, 0).custom_lerp(rest, 1, 2), Vec2::new(11, 0));
    assert_eq!(Vec2::new(-21, 0).custom_lerp(rest, 1, 2), Vec2::new(-11, 0));
    assert_eq!(Vec2::new(20, 0).custom_lerp(rest, 1, 2), rest);
    assert_eq!(Vec2::new(10, 10).custom_lerp(rest, 1, 2), rest);
    assert_eq!(Vec2::new(15, 15).custom_lerp(rest, 1, 2), Vec2::new(8, 8));
    assert_eq!(Vec2::new(12, 16).custom_lerp(rest, 1, 2), rest);
    assert_eq!(Vec2::new(12, 17).custom_lerp(rest, 1, 2), Vec2::new(6, 9));
    let far = Vec2::new(i32::MIN, i32::MAX);
    assert!(far.far_from(Vec2::new(i32::MAX, i32::MIN)));
    assert!(!rest.far_from(rest));
}

#[test]
fn vectors_move_and_subtract_with_clamping() {
    assert_eq!(Vec2::new(1, 2).minus(Vec2::new(10, 20)), Vec2::new(-9, -18));
    assert_eq!(Vec3::new(i32::MAX, i32::MIN, 0).moved(Vec2::new(1, -1)), Vec3::new(i32::MAX, i32::MIN, 0));
    assert_eq!(Vec2::new(i32::MIN, 0).minus(Vec2::new(1, i32::MIN)), Vec2::new(i32::MIN, i32::MAX));
    assert_eq!(Vec3::new(1, 2, 3).moved(Vec2::new(-4, 5)), Vec3::new(-3, 7, 3));
}

#[test]
fn new_force_starts_at_its_start() {
    let force = InterpolatedForce::new(Vec2::new(10_000, 0), Vec2::zero(), 20);
    assert_eq!(force.current_velocity, Vec2::new(10_000, 0));
    assert_eq!(force.starting_velocity, Vec2::new(10_000, 0));
    assert_eq!(force.ending_velocity, Vec2::zero());
    assert_eq!(force.duration, 20);
    assert_eq!(force.frames_elapsed, 0);
    assert!(!force.is_finished());
    assert!(InterpolatedForce::new(Vec2::zero(), Vec2::zero(), 0).is_finished());
}

#[test]
fn force_eases_frame_by_frame() {
    let mut force = InterpolatedForce::new(Vec2::new(10_000, 0), Vec2::zero(), 20);
    assert_eq!(force.update(), Vec2::new(9_500, 0));
    assert_eq!(force.frames_elapsed, 1);
    assert_eq!(force.update(), Vec2::new(8_550, 0));
    assert_eq!(force.update(), Vec2::new(7_268, 0));
    assert_eq!(force.starting_velocity, Vec2::new(10_000, 0));
}

#[test]
fn force_converges_after_its_duration() {
    let mut force = InterpolatedForce::new(Vec2::new(10_000, 0), Vec2::zero(), 20);
    for frame in 1..=20u8 {
        assert!(!force.is_finished());
        let velocity = force.update();
        assert_eq!(velocity, force.current_velocity);
        assert_eq!(force.frames_elapsed, frame);
    }
    assert!(force.is_finished());
    assert_eq!(force.current_velocity, Vec2::zero());
    assert!(!force.current_velocity.far_from(Vec2::zero()));
}

#[test]
fn force_reaches_a_moving_end_too() {
    let mut force = InterpolatedForce::new(Vec2::new(-25_000, 0), Vec2::new(-2_000, 0), 3);
    assert_eq!(force.update(), Vec2::new(-17_334, 0));
    assert_eq!(force.update(), Vec2::new(-7_112, 0));
    assert_eq!(force.update(), Vec2::new(-2_000, 0));
    assert!(force.is_finished());
}

#[test]
fn tick_counts_a_frame() {
    let mut force = InterpolatedForce::new(Vec2::new(5, 5), Vec2::new(9, 9), 2);
    force.tick();
    assert_eq!(force.frames_elapsed, 1);
    assert_eq!(force.current_velocity, Vec2::new(5, 5));
    force.tick();
    assert!(force.is_finished());
}
