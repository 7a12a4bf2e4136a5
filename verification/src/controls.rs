//! The decisions behind the pod's peripheral demo: the colour sequence shown
//! on each RGB LED, and how an edge or press of the rotary encoder is read.
//! Driving the pins and waiting for edges and timers is left to the caller.
use vstd::prelude::*;

verus! {

/// How many on/off combinations an RGB LED cycles through.
pub const RGB_COMBINATION_COUNT: usize = 8;

/// Which of the red, green and blue channels of an RGB LED are lit.
#[derive(Clone, Copy, Debug, PartialEq, Eq, Structural)]
pub struct RgbLevels {
    pub r: bool,
    pub g: bool,
    pub b: bool,
}

/// Combination `index` of the cycle: the three binary digits of `index`,
/// most significant first, give red, green and blue
/// (0 = all off, 1 = blue, 2 = green, 3 = cyan, 4 = red, 5 = magenta,
/// 6 = yellow, 7 = white).
pub open spec fn rgb_combination_spec(index: int) -> RgbLevels {
    RgbLevels { r: (index / 4) % 2 == 1, g: (index / 2) % 2 == 1, b: index % 2 == 1 }
}

/// The levels to show at step `index` of the colour cycle.
pub fn rgb_combination(index: usize) -> (c: RgbLevels)
    requires
        index < RGB_COMBINATION_COUNT,
    ensures
        c == rgb_combination_spec(index as int),
{
    match index {
        0 => RgbLevels { r: false, g: false, b: false },
        1 => RgbLevels { r: false, g: false, b: true },
        2 => RgbLevels { r: false, g: true, b: false },
        3 => RgbLevels { r: false, g: true, b: true },
        4 => RgbLevels { r: true, g: false, b: false },
        5 => RgbLevels { r: true, g: false, b: true },
        6 => RgbLevels { r: true, g: true, b: false },
        _ => RgbLevels { r: true, g: true, b: true },
    }
}

/// The step that follows `index` in the colour cycle, wrapping after the
/// last combination.
pub fn next_rgb_index(index: usize) -> (n: usize)
    requires
        index < RGB_COMBINATION_COUNT,
    ensures
        n == (index + 1) % (RGB_COMBINATION_COUNT as int),
        n < RGB_COMBINATION_COUNT,
{
    (index + 1) % RGB_COMBINATION_COUNT
}

/// One step of an RGB LED's cycle: the levels to show now, and the step to
/// show after the interval.
pub fn rgb_led_step(index: usize) -> (out: (RgbLevels, usize))
    requires
        index < RGB_COMBINATION_COUNT,
    ensures
        out.0 == rgb_combination_spec(index as int),
        out.1 == (index + 1) % (RGB_COMBINATION_COUNT as int),
{
    (rgb_combination(index), next_rgb_index(index))
}

/// The step reached from `start` after `steps` steps of the cycle.
pub open spec fn rgb_index_after(start: int, steps: nat) -> int
    decreases steps,
{
    if steps == 0 {
        start
    } else {
        (rgb_index_after(start, (steps - 1) as nat) + 1) % (RGB_COMBINATION_COUNT as int)
    }
}

/// Stepping the cycle `steps` times from `start` lands on `(start + steps) % 8`.
pub proof fn lemma_rgb_index_after(start: int, steps: nat)
    requires
        0 <= start < RGB_COMBINATION_COUNT,
    ensures
        rgb_index_after(start, steps) == (start + steps) % (RGB_COMBINATION_COUNT as int),
    decreases steps,
{
    if steps > 0 {
        lemma_rgb_index_after(start, (steps - 1) as nat);
        assert(((start + steps - 1) % 8 + 1) % 8 == (start + steps) % 8) by (nonlinear_arith)
            requires
                0 <= start,
                steps >= 1,
        ;
    }
}

/// The colour cycle shows all eight combinations, each exactly once, and
/// comes back to where it started after eight steps and no fewer.
pub proof fn lemma_rgb_cycle(start: int)
    requires
        0 <= start < RGB_COMBINATION_COUNT,
    ensures
        rgb_index_after(start, RGB_COMBINATION_COUNT as nat) == start,
        forall|k: nat| 0 < k < RGB_COMBINATION_COUNT ==> #[trigger] rgb_index_after(start, k) != start,
        forall|i: int, j: int|
            0 <= i < j < RGB_COMBINATION_COUNT ==> #[trigger] rgb_combination_spec(i)
                != #[trigger] rgb_combination_spec(j),
{
    lemma_rgb_index_after(start, RGB_COMBINATION_COUNT as nat);
    assert forall|k: nat| 0 < k < RGB_COMBINATION_COUNT implies #[trigger] rgb_index_after(start, k)
        != start by {
        lemma_rgb_index_after(start, k);
    }
    assert forall|i: int, j: int| 0 <= i < j < RGB_COMBINATION_COUNT implies #[trigger] rgb_combination_spec(i)
        != #[trigger] rgb_combination_spec(j) by {
        assert(0 <= i < 8 && 0 <= j < 8);
    }
}

/// The direction the encoder was turned.
#[derive(Clone, Copy, Debug, PartialEq, Eq, Structural)]
pub enum Rotation {
    Clockwise,
    CounterClockwise,
}

/// What the encoder task woke up for.
#[derive(Clone, Copy, Debug, PartialEq, Eq, Structural)]
pub enum EncoderInput {
    /// An edge on pin A, with both pins sampled just after it.
    Edge { a_high: bool, b_high: bool },
    /// A falling edge on the push button.
    Click,
}

/// What the encoder task reports.
#[derive(Clone, Copy, Debug, PartialEq, Eq, Structural)]
pub enum EncoderReport {
    Turned(Rotation),
    Clicked,
}

/// The turn direction read from pins A and B sampled on an edge of A: the
/// encoder turned clockwise exactly when the two pins differ.
pub open spec fn rotation_spec(a_high: bool, b_high: bool) -> Rotation {
    if a_high != b_high {
        Rotation::Clockwise
    } else {
        Rotation::CounterClockwise
    }
}

/// Reads the turn direction from pins A and B sampled on an edge of A.
pub fn decode_rotation(a_high: bool, b_high: bool) -> (r: Rotation)
    ensures
        r == rotation_spec(a_high, b_high),
        (r == Rotation::Clockwise) <==> (a_high != b_high),
{
    if a_high != b_high {
        Rotation::Clockwise
    } else {
        Rotation::CounterClockwise
    }
}

/// What an edge on pin A or a press of the button means.
pub fn decode_encoder(input: EncoderInput) -> (r: EncoderReport)
    ensures
        match input {
            EncoderInput::Edge { a_high, b_high } => r == EncoderReport::Turned(
                rotation_spec(a_high, b_high),
            ),
            EncoderInput::Click => r == EncoderReport::Clicked,
        },
{
    match input {
        EncoderInput::Edge { a_high, b_high } => EncoderReport::Turned(decode_rotation(a_high, b_high)),
        EncoderInput::Click => EncoderReport::Clicked,
    }
}

/// Flipping the level of either encoder pin reverses the decoded direction.
pub proof fn lemma_rotation_flips(a_high: bool, b_high: bool)
    ensures
        rotation_spec(!a_high, b_high) != rotation_spec(a_high, b_high),
        rotation_spec(a_high, !b_high) != rotation_spec(a_high, b_high),
{
}

} // verus!
