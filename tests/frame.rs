use eruption::color::{rgba_to_color, Rgba};
use eruption::frame::{
    blend_into, clamp, get_color_map, get_key_color, remap_clamped, set_color_map, set_key_color,
    submit_color_map, Frame,
};
use eruption::{get_num_keys, NUM_KEYS};

fn map_with_first(c: u32, rest: u32) -> Vec<u32> {
    let mut map = vec![rest; NUM_KEYS];
    map[0] = c;
    map
}

#[test]
fn number_of_keys() {
    assert_eq!(get_num_keys(), NUM_KEYS);
}

#[test]
fn new_frame_is_black() {
    let f = Frame::new();
    assert_eq!(f.pixels.len(), NUM_KEYS);
    assert!(f.pixels.iter().all(|p| *p == Rgba { r: 0, g: 0, b: 0, a: 0 }));
}

#[test]
fn two_cooperating_layers() {
    let mut global = Frame::new();
    let mut a = Frame::new();
    let mut b = Frame::new();
    submit_color_map(&mut a, &map_with_first(rgba_to_color(255, 0, 0, 128), 0));
    submit_color_map(&mut b, &map_with_first(rgba_to_color(0, 0, 255, 128), 0));
    blend_into(&mut global, &a, 100);
    assert_eq!(global.pixel(0), Rgba { r: 128, g: 0, b: 0, a: 128 });
    blend_into(&mut global, &b, 100);
    assert_eq!(global.pixel(0), Rgba { r: 64, g: 0, b: 128, a: 128 });
    assert_eq!(get_color_map(&global)[0], 0x00400080);
}

#[test]
fn transparent_layer_scales_global() {
    let mut global = Frame::new();
    set_color_map(&mut global, &vec![rgba_to_color(200, 100, 50, 7); NUM_KEYS]);
    let mut local = Frame::new();
    submit_color_map(&mut local, &vec![rgba_to_color(1, 2, 3, 0); NUM_KEYS]);
    blend_into(&mut global, &local, 50);
    for i in 0..NUM_KEYS {
        assert_eq!(global.pixel(i), Rgba { r: 100, g: 50, b: 25, a: 0 });
    }
}

#[test]
fn transparent_layer_full_brightness_keeps_colors() {
    let mut global = Frame::new();
    set_color_map(&mut global, &vec![rgba_to_color(9, 99, 199, 255); NUM_KEYS]);
    let local = Frame::new();
    blend_into(&mut global, &local, 100);
    assert_eq!(global.pixel(5), Rgba { r: 9, g: 99, b: 199, a: 0 });
}

#[test]
fn opaque_layer_replaces_global() {
    let mut global = Frame::new();
    set_color_map(&mut global, &vec![rgba_to_color(17, 34, 51, 68); NUM_KEYS]);
    let mut local = Frame::new();
    submit_color_map(&mut local, &vec![rgba_to_color(5, 15, 200, 255); NUM_KEYS]);
    blend_into(&mut global, &local, 50);
    for i in 0..NUM_KEYS {
        // 2.5 rounds to 3, 7.5 to 8
        assert_eq!(global.pixel(i), Rgba { r: 3, g: 8, b: 100, a: 255 });
    }
}

#[test]
fn brightness_zero_gives_black() {
    let mut global = Frame::new();
    let mut local = Frame::new();
    submit_color_map(&mut local, &vec![0xffffffff; NUM_KEYS]);
    blend_into(&mut global, &local, 0);
    assert_eq!(global.pixel(3), Rgba { r: 0, g: 0, b: 0, a: 255 });
}

#[test]
fn brightness_above_hundred_clips() {
    let mut global = Frame::new();
    let mut local = Frame::new();
    submit_color_map(&mut local, &vec![0xffc86400; NUM_KEYS]);
    blend_into(&mut global, &local, 200);
    assert_eq!(global.pixel(0), Rgba { r: 255, g: 200, b: 0, a: 255 });
}

#[test]
fn color_map_drops_alpha() {
    let mut global = Frame::new();
    set_color_map(&mut global, &vec![0x80123456; NUM_KEYS]);
    let map = get_color_map(&global);
    assert_eq!(map.len(), NUM_KEYS);
    assert!(map.iter().all(|c| *c == 0x00123456));
}

#[test]
fn set_color_map_replaces_every_key() {
    let mut global = Frame::new();
    let map: Vec<u32> = (0..NUM_KEYS as u32).map(|i| 0xff000000 | i).collect();
    set_color_map(&mut global, &map);
    assert_eq!(global.pixel(NUM_KEYS - 1), Rgba { r: 0, g: 0, b: (NUM_KEYS - 1) as u8, a: 255 });
    assert_eq!(get_color_map(&global), (0..NUM_KEYS as u32).collect::<Vec<u32>>());
}

#[test]
fn key_color_reads_global() {
    let mut global = Frame::new();
    set_key_color(&mut global, 7, 0xff102030);
    assert_eq!(global.pixel(7), Rgba { r: 0x10, g: 0x20, b: 0x30, a: 0xff });
    assert_eq!(get_key_color(&global, 7), 0x00102030);
    assert_eq!(get_key_color(&global, 6), 0);
    assert_eq!(get_key_color(&global, NUM_KEYS), 0);
}

#[test]
fn submit_leaves_global_alone() {
    let global = Frame::new();
    let mut local = Frame::new();
    submit_color_map(&mut local, &vec![0xffffffff; NUM_KEYS]);
    assert_eq!(get_color_map(&global), vec![0; NUM_KEYS]);
    assert_eq!(local.pixel(0), Rgba { r: 255, g: 255, b: 255, a: 255 });
}

#[test]
fn clamp_to_range() {
    assert_eq!(clamp(-5, 0, 10), 0);
    assert_eq!(clamp(5, 0, 10), 5);
    assert_eq!(clamp(50, 0, 10), 10);
    assert_eq!(clamp(2, 3, 10), 3);
    assert_eq!(clamp(i64::MAX, 0, 131), 131);
}

#[test]
fn remap_clamps_targets() {
    let map: Vec<u32> = (1..=10).collect();
    let targets: Vec<i64> = vec![9, 8, 0, -3, 100, 4, 4, 1, 2, 3];
    assert_eq!(remap_clamped(&map, &targets), vec![10, 9, 1, 1, 10, 5, 5, 2, 3, 4]);
    assert_eq!(remap_clamped(&[], &[]), Vec::<u32>::new());
}
