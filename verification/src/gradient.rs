//! The colour of the thermometer: blue when cold, red when hot.

use vstd::prelude::*;

verus! {

/// A colour as three 8-bit channels.
#[derive(Debug, Clone, Copy, PartialEq, Eq, Structural)]
pub struct Rgb {
    pub red: u8,
    pub green: u8,
    pub blue: u8,
}

/// Lowest temperature, in Celsius, at which the red channel is saturated.
pub const RED_SATURATION: u32 = 84;

/// Lowest temperature, in Celsius, at which the blue channel has vanished.
pub const BLUE_EXTINCTION: u32 = 106;

/// `value` brought into the range of a colour channel.
pub open spec fn clamp_channel(value: int) -> int {
    if value < 0 {
        0
    } else if value > 255 {
        255
    } else {
        value
    }
}

/// The red channel at `temperature` degrees Celsius.
pub open spec fn red_of(temperature: int) -> int {
    clamp_channel(2 * temperature + 88)
}

/// The blue channel at `temperature` degrees Celsius.
pub open spec fn blue_of(temperature: int) -> int {
    clamp_channel(255 - (2 * temperature + 44))
}

/// The colour for `temperature` degrees Celsius: red rises and blue falls
/// linearly with the temperature, each clamped to a channel's range; there
/// is no green.
pub fn color_gradient(temperature: u32) -> (color: Rgb)
    ensures
        color.red == red_of(temperature as int),
        color.green == 0,
        color.blue == blue_of(temperature as int),
{
    let red: u8 = if temperature >= RED_SATURATION {
        255
    } else {
        (2 * temperature + 88) as u8
    };
    let blue: u8 = if temperature >= BLUE_EXTINCTION {
        0
    } else {
        (211 - 2 * temperature) as u8
    };
    Rgb { red, green: 0, blue }
}

/// Where the clamps take hold: red is saturated exactly from
/// `RED_SATURATION` on, blue has vanished exactly from `BLUE_EXTINCTION` on,
/// and below those the channels follow the linear formulas.
pub proof fn lemma_gradient_thresholds(temperature: int)
    requires
        0 <= temperature,
    ensures
        red_of(temperature) == 255 <==> temperature >= RED_SATURATION,
        blue_of(temperature) == 0 <==> temperature >= BLUE_EXTINCTION,
        temperature < RED_SATURATION ==> red_of(temperature) == 2 * temperature + 88,
        temperature < BLUE_EXTINCTION ==> blue_of(temperature) == 211 - 2 * temperature,
{
}

} // verus!
