use industrial_mage::camera::{updated_pitch, zoomed_distance, MIN_DISTANCE_MILLI};

#[test]
fn scrolling_in_shortens_the_distance() {
    assert_eq!(zoomed_distance(10_000, 500), 9_500);
}

#[test]
fn scrolling_out_lengthens_the_distance() {
    assert_eq!(zoomed_distance(10_000, -2_500), 12_500);
}

#[test]
fn distance_never_drops_below_one_unit() {
    assert_eq!(zoomed_distance(1_200, 500), MIN_DISTANCE_MILLI);
    assert_eq!(zoomed_distance(1_000, 1), MIN_DISTANCE_MILLI);
    assert_eq!(zoomed_distance(0, -500), MIN_DISTANCE_MILLI);
    assert_eq!(zoomed_distance(5_000, i32::MAX), MIN_DISTANCE_MILLI);
}

#[test]
fn no_scroll_keeps_a_legal_distance() {
    assert_eq!(zoomed_distance(10_000, 0), 10_000);
    assert_eq!(zoomed_distance(MIN_DISTANCE_MILLI, 0), MIN_DISTANCE_MILLI);
}

#[test]
fn distance_saturates_at_the_field_limit() {
    assert_eq!(zoomed_distance(u32::MAX, -1_000), u32::MAX);
}

#[test]
fn pitch_moves_freely_inside_the_limits() {
    assert_eq!(updated_pitch(0, 100, -1_560, 1_560), 100);
    assert_eq!(updated_pitch(-200, -300, -1_560, 1_560), -500);
}

#[test]
fn pitch_stops_at_the_limits() {
    assert_eq!(updated_pitch(1_500, 200, -1_560, 1_560), 1_560);
    assert_eq!(updated_pitch(-1_500, -200, -1_560, 1_560), -1_560);
    assert_eq!(updated_pitch(i32::MAX, i32::MAX, -1_560, 1_560), 1_560);
    assert_eq!(updated_pitch(i32::MIN, i32::MIN, -1_560, 1_560), -1_560);
}
