use hdd_core::convention::{inclination_from_pitch, pitch_from_inclination};

#[test]
fn level_pitch_is_horizontal_inclination() {
    assert_eq!(inclination_from_pitch(0), 90_000);
    assert_eq!(inclination_from_pitch(90_000), 0);
    assert_eq!(inclination_from_pitch(-12_500), 102_500);
}

#[test]
fn pitch_round_trip() {
    for pitch in [0i64, 1, 45_000, 89_999, 90_000] {
        assert_eq!(pitch_from_inclination(inclination_from_pitch(pitch)), pitch);
    }
}

#[test]
fn vertical_inclination_is_steep_pitch() {
    assert_eq!(pitch_from_inclination(0), 90_000);
    assert_eq!(pitch_from_inclination(30_000), 60_000);
}
