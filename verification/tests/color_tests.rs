use raytracer::color::Rgb;
use raytracer::color::get_rgb;
use raytracer::color::quantize_channel;
use raytracer::color::write_color;
use raytracer::fx::Fx;
use raytracer::vector3::Vector3;

#[test]
fn should_write_color() {
    let vec1 = Vector3 { x: Fx::zero(), y: Fx::from_bits(32768), z: Fx::one() };
    let output = write_color(&vec1);
    assert_eq!(output, String::from("0 127 255\n"));
}

#[test]
fn quantize_channel_clamps_and_truncates() {
    assert_eq!(quantize_channel(Fx::from_int(-1)), 0);
    assert_eq!(quantize_channel(Fx::zero()), 0);
    // a quarter scales to the floor of 63.99975
    assert_eq!(quantize_channel(Fx::from_bits(16384)), 63);
    assert_eq!(quantize_channel(Fx::one()), 255);
    assert_eq!(quantize_channel(Fx::from_int(2)), 255);
}

#[test]
fn get_rgb_applies_square_root_gamma() {
    // a quarter has the exact square root one half
    let color = Vector3 { x: Fx::from_bits(16384), y: Fx::zero(), z: Fx::one() };
    let rgb = get_rgb(&color);
    assert_eq!(rgb, Rgb { r: 127, g: 0, b: 255 });
}
