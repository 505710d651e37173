use gpu_stats::gradient::{color_gradient, Rgb, BLUE_EXTINCTION, RED_SATURATION};

#[test]
fn gradient_at_zero_is_blue_dominant() {
    assert_eq!(color_gradient(0), Rgb { red: 88, green: 0, blue: 211 });
}

#[test]
fn gradient_at_hundred_has_saturated_red() {
    let color = color_gradient(100);
    assert_eq!(color.red, 255);
    assert_eq!(color.green, 0);
    assert_eq!(color.blue, 11);
}

#[test]
fn gradient_at_fifty_five_is_not_at_the_blue_boundary() {
    assert_eq!(color_gradient(55), Rgb { red: 198, green: 0, blue: 101 });
}

#[test]
fn red_saturates_from_eighty_four() {
    assert_eq!(RED_SATURATION, 84);
    assert_eq!(color_gradient(83).red, 254);
    assert_eq!(color_gradient(84).red, 255);
    assert_eq!(color_gradient(85).red, 255);
}

#[test]
fn blue_vanishes_from_hundred_and_six() {
    assert_eq!(BLUE_EXTINCTION, 106);
    assert_eq!(color_gradient(105).blue, 1);
    assert_eq!(color_gradient(106).blue, 0);
    assert_eq!(color_gradient(107).blue, 0);
}

#[test]
fn gradient_is_clamped_for_every_reading() {
    assert_eq!(color_gradient(127), Rgb { red: 255, green: 0, blue: 0 });
    assert_eq!(color_gradient(128), Rgb { red: 255, green: 0, blue: 0 });
    assert_eq!(color_gradient(2_147_483_648), Rgb { red: 255, green: 0, blue: 0 });
    assert_eq!(color_gradient(u32::MAX), Rgb { red: 255, green: 0, blue: 0 });
}

#[test]
fn green_is_always_zero() {
    for temperature in 0..300u32 {
        assert_eq!(color_gradient(temperature).green, 0);
    }
}

#[test]
fn gradient_follows_the_linear_formulas_below_the_clamps() {
    for temperature in 0..84u32 {
        let color = color_gradient(temperature);
        assert_eq!(color.red as u32, 2 * temperature + 88);
        assert_eq!(color.blue as u32, 255 - (2 * temperature + 44));
    }
}
