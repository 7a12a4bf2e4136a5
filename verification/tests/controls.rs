use daisy_pod_embassy::controls::{
    decode_encoder, decode_rotation, next_rgb_index, rgb_combination, rgb_led_step,
    EncoderInput, EncoderReport, RgbLevels, Rotation, RGB_COMBINATION_COUNT,
};

fn levels(r: bool, g: bool, b: bool) -> RgbLevels {
    RgbLevels { r, g, b }
}

#[test]
fn combinations_follow_the_documented_order() {
    let expected = [
        levels(false, false, false),
        levels(false, false, true),
        levels(false, true, false),
        levels(false, true, true),
        levels(true, false, false),
        levels(true, false, true),
        levels(true, true, false),
        levels(true, true, true),
    ];
    for (i, e) in expected.iter().enumerate() {
        assert_eq!(rgb_combination(i), *e);
    }
}

#[test]
fn index_wraps_after_the_last_combination() {
    assert_eq!(next_rgb_index(0), 1);
    assert_eq!(next_rgb_index(6), 7);
    assert_eq!(next_rgb_index(7), 0);
}

#[test]
fn step_shows_current_and_advances() {
    assert_eq!(rgb_led_step(3), (levels(false, true, true), 4));
    assert_eq!(rgb_led_step(7), (levels(true, true, true), 0));
}

#[test]
fn cycle_shows_every_combination_once_and_returns() {
    let mut idx = 5;
    let mut seen = Vec::new();
    for _ in 0..RGB_COMBINATION_COUNT {
        let (c, next) = rgb_led_step(idx);
        assert!(!seen.contains(&c));
        seen.push(c);
        idx = next;
    }
    assert_eq!(idx, 5);
    assert_eq!(seen.len(), 8);
}

#[test]
fn pins_that_differ_mean_clockwise() {
    assert_eq!(decode_rotation(true, false), Rotation::Clockwise);
    assert_eq!(decode_rotation(false, true), Rotation::Clockwise);
    assert_eq!(decode_rotation(true, true), Rotation::CounterClockwise);
    assert_eq!(decode_rotation(false, false), Rotation::CounterClockwise);
}

#[test]
fn flipping_a_pin_reverses_direction() {
    for a in [false, true] {
        for b in [false, true] {
            assert_ne!(decode_rotation(a, b), decode_rotation(!a, b));
            assert_ne!(decode_rotation(a, b), decode_rotation(a, !b));
        }
    }
}

#[test]
fn encoder_inputs_are_reported() {
    assert_eq!(
        decode_encoder(EncoderInput::Edge { a_high: true, b_high: false }),
        EncoderReport::Turned(Rotation::Clockwise)
    );
    assert_eq!(
        decode_encoder(EncoderInput::Edge { a_high: false, b_high: false }),
        EncoderReport::Turned(Rotation::CounterClockwise)
    );
    assert_eq!(decode_encoder(EncoderInput::Click), EncoderReport::Clicked);
}
