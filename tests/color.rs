use eruption::color::{
    color_to_pixel, color_to_rgb, color_to_rgba, linear_gradient, rgb_to_color, rgba_to_color, Rgba,
};

#[test]
fn unpack_rgb_channels() {
    assert_eq!(color_to_rgb(0x12345678), (0x34, 0x56, 0x78));
    assert_eq!(color_to_rgb(0x00ff0000), (255, 0, 0));
}

#[test]
fn unpack_rgba_channels() {
    assert_eq!(color_to_rgba(0x80ff0010), (255, 0, 0x10, 0x80));
    assert_eq!(color_to_rgba(0), (0, 0, 0, 0));
    assert_eq!(color_to_rgba(0xffffffff), (255, 255, 255, 255));
}

#[test]
fn pack_places_bytes_by_significance() {
    assert_eq!(rgba_to_color(1, 2, 3, 4), 0x04010203);
    assert_eq!(rgba_to_color(0xaa, 0xbb, 0xcc, 0xdd), 0xddaabbcc);
}

#[test]
fn pack_rgb_is_opaque() {
    assert_eq!(rgb_to_color(0x10, 0x20, 0x30), 0xff102030);
    assert_eq!(rgb_to_color(0, 0, 0), 0xff000000);
}

#[test]
fn rgba_round_trip() {
    for &(r, g, b, a) in &[(0u8, 0u8, 0u8, 0u8), (1, 2, 3, 4), (255, 128, 7, 200), (255, 255, 255, 255)] {
        assert_eq!(color_to_rgba(rgba_to_color(r, g, b, a)), (r, g, b, a));
    }
}

#[test]
fn pixel_of_color() {
    assert_eq!(color_to_pixel(0x80ff0010), Rgba { r: 255, g: 0, b: 0x10, a: 0x80 });
}

#[test]
fn gradient_endpoints() {
    let x = 0x11223344;
    let y = 0xaabbccdd;
    assert_eq!(linear_gradient(x, y, 0, 1), x);
    assert_eq!(linear_gradient(x, y, 1, 1), y);
    assert_eq!(linear_gradient(x, y, 0, 1000), x);
    assert_eq!(linear_gradient(x, y, 1000, 1000), y);
}

#[test]
fn gradient_midpoint_rounds_half_away() {
    // 255 / 2 = 127.5 rounds to 128
    assert_eq!(linear_gradient(0xff000000, 0xffffffff, 1, 2), 0xff808080);
    // 10 + (20 - 10) / 4 = 12.5 rounds to 13
    assert_eq!(linear_gradient(0x0000000a, 0x00000014, 1, 4), 0x0000000d);
}

#[test]
fn gradient_descending_channel() {
    // 200 + (100 - 200) * 3 / 10 = 170
    assert_eq!(linear_gradient(0x00c80000, 0x00640000, 3, 10), 0x00aa0000);
}

#[test]
fn gradient_outside_unit_range_saturates() {
    // 100 + (200 - 100) * 3 = 400, clipped to 255
    assert_eq!(linear_gradient(0x00000064, 0x000000c8, 3, 1), 0x000000ff);
    // 200 + (100 - 200) * 3 = -100, clipped to 0
    assert_eq!(linear_gradient(0x000000c8, 0x00000064, 3, 1), 0x00000000);
    assert_eq!(linear_gradient(0x000000c8, 0x00000064, -1, 1), 0x000000ff);
}
