use path_tracer::color::{pack_rgba, unpack_rgba};
use path_tracer::frame::{pack_frame, pixel_index};

#[test]
fn pack_places_channels_as_abgr() {
    assert_eq!(pack_rgba(0x12, 0x34, 0x56), 0xFF56_3412);
    assert_eq!(pack_rgba(0, 0, 0), 0xFF00_0000);
    assert_eq!(pack_rgba(255, 255, 255), 0xFFFF_FFFF);
}

#[test]
fn pack_then_unpack_recovers_channels() {
    for &(r, g, b) in &[(0u8, 0u8, 0u8), (1, 2, 3), (255, 0, 128), (17, 255, 254)] {
        assert_eq!(unpack_rgba(pack_rgba(r, g, b)), (r, g, b, 255));
    }
}

#[test]
fn quantized_clamped_color_round_trips_within_one() {
    let color = [1.7f32, 0.5, -0.2];
    let q: Vec<u8> = color
        .iter()
        .map(|c| (c.clamp(0.0, 1.0).powf(1.0 / 2.2) * 255.0) as u8)
        .collect();
    let (r, g, b, a) = unpack_rgba(pack_rgba(q[0], q[1], q[2]));
    let expected = [255.0f32, 0.5f32.powf(1.0 / 2.2) * 255.0, 0.0];
    for (got, want) in [r, g, b].iter().zip(expected.iter()) {
        assert!((*got as f32 - want).abs() <= 1.0);
    }
    assert_eq!(a, 255);
}

#[test]
fn unpack_reads_each_byte() {
    assert_eq!(unpack_rgba(0x8040_2010), (0x10, 0x20, 0x40, 0x80));
}

#[test]
fn frame_is_row_major_top_first() {
    assert_eq!(pixel_index(0, 0, 4, 3), 0);
    assert_eq!(pixel_index(3, 0, 4, 3), 3);
    assert_eq!(pixel_index(0, 1, 4, 3), 4);
    assert_eq!(pixel_index(3, 2, 4, 3), 11);
}

#[test]
fn pack_frame_keeps_order() {
    let frame = pack_frame(&vec![(1, 2, 3), (255, 255, 255), (0, 0, 0)]);
    assert_eq!(frame, vec![0xFF03_0201, 0xFFFF_FFFF, 0xFF00_0000]);
    assert!(pack_frame(&Vec::new()).is_empty());
}
