use egor::render_utils::{
    clamp_dimensions, pick_max_texture_size, query_max_texture_size, WEBGL1_MIN_MAX_TEXTURE_SIZE,
};

#[test]
fn clamp_within_limits_is_unchanged() {
    assert_eq!(clamp_dimensions(800, 600, None, None, 2048), (800, 600));
    assert_eq!(clamp_dimensions(2048, 2048, None, None, 2048), (2048, 2048));
    assert_eq!(clamp_dimensions(640, 480, Some(640), Some(480), 4096), (640, 480));
}

#[test]
fn clamp_width_limited_by_hardware() {
    assert_eq!(clamp_dimensions(4000, 2000, None, None, 2048), (2048, 1024));
}

#[test]
fn clamp_height_limited_by_config() {
    assert_eq!(clamp_dimensions(1000, 3000, None, Some(1500), 4096), (500, 1500));
}

#[test]
fn clamp_config_limit_capped_by_hardware() {
    // a configured limit above the hardware maximum does not raise it
    assert_eq!(clamp_dimensions(3000, 1000, Some(5000), None, 1024), (1024, 341));
}

#[test]
fn clamp_rounds_scaled_side_down() {
    // 333 * 500 / 1000 = 166.5
    assert_eq!(clamp_dimensions(1000, 333, Some(500), None, u32::MAX), (500, 166));
}

#[test]
fn clamp_equal_ratios_hit_both_limits() {
    assert_eq!(clamp_dimensions(1600, 1200, Some(800), Some(600), 4096), (800, 600));
}

#[test]
fn clamp_zero_limit_gives_zero_size() {
    assert_eq!(clamp_dimensions(100, 50, Some(0), None, 4096), (0, 0));
    assert_eq!(clamp_dimensions(100, 50, None, None, 0), (0, 0));
}

#[test]
fn clamp_large_values_do_not_overflow() {
    let r = clamp_dimensions(u32::MAX, u32::MAX - 1, Some(u32::MAX - 2), None, u32::MAX);
    assert_eq!(r.0, u32::MAX - 2);
    let expected_h = ((u32::MAX as u64 - 1) * (u32::MAX as u64 - 2) / u32::MAX as u64) as u32;
    assert_eq!(r.1, expected_h);
    assert!(r.1 <= u32::MAX - 1);
}

#[test]
fn clamp_is_idempotent_on_example() {
    let once = clamp_dimensions(4000, 2999, Some(1920), Some(1080), 2048);
    let twice = clamp_dimensions(once.0, once.1, Some(1920), Some(1080), 2048);
    assert_eq!(once, twice);
}

#[test]
fn clamp_keeps_aspect_ratio_on_example() {
    let (w, h) = (1920u64, 1080u64);
    let r = clamp_dimensions(1920, 1080, None, Some(700), 4096);
    assert_eq!(r.1, 700);
    let (rw, rh) = (r.0 as u64, r.1 as u64);
    // rw * h <= w * rh < (rw + 1) * h
    assert!(rw * h <= w * rh);
    assert!(w * rh < (rw + 1) * h);
    assert_eq!(r, (1244, 700));
}

#[test]
fn native_max_texture_size_is_unlimited() {
    assert_eq!(query_max_texture_size(), u32::MAX);
    let hw = query_max_texture_size();
    assert_eq!(clamp_dimensions(123456, 7890, None, None, hw), (123456, 7890));
}

#[test]
fn pick_prefers_webgl2_answer() {
    assert_eq!(pick_max_texture_size(Some(16384), Some(4096)), 16384);
    assert_eq!(pick_max_texture_size(Some(8192), None), 8192);
}

#[test]
fn pick_falls_back_to_webgl1_answer() {
    assert_eq!(pick_max_texture_size(None, Some(4096)), 4096);
}

#[test]
fn pick_falls_back_to_webgl1_minimum() {
    assert_eq!(pick_max_texture_size(None, None), 2048);
    assert_eq!(WEBGL1_MIN_MAX_TEXTURE_SIZE, 2048);
}
