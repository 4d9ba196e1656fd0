use se_rs_ial::led::{header, hue_to_rgb, new_frame, set_pixel, HEADER_LEN, MAX_LEDS, PIXEL_LEN};

#[test]
fn header_for_32_leds() {
    assert_eq!(header(32), [0x41, 0x64, 0x61, 0x00, 0x1F, 0x4A]);
}

#[test]
fn header_counts_from_zero() {
    assert_eq!(header(1), [b'A', b'd', b'a', 0x00, 0x00, 0x55]);
    assert_eq!(header(256), [b'A', b'd', b'a', 0x00, 0xFF, 0xAA]);
    assert_eq!(header(257), [b'A', b'd', b'a', 0x01, 0x00, 0x54]);
    assert_eq!(header(MAX_LEDS), [b'A', b'd', b'a', 0xFF, 0xFF, 0x55]);
}

#[test]
fn header_checksum_joins_the_count_bytes() {
    for n in [1usize, 2, 31, 32, 255, 256, 300, 1000, 4660, 65535, 65536] {
        let h = header(n);
        assert_eq!(h[3] as usize * 256 + h[4] as usize, n - 1);
        assert_eq!(h[5], h[3] ^ h[4] ^ 0x55);
    }
}

#[test]
fn hue_zero_is_red_and_256_is_yellow() {
    assert_eq!(hue_to_rgb(0), (255, 0, 0));
    assert_eq!(hue_to_rgb(256), (255, 255, 0));
}

#[test]
fn hue_wheel_sectors() {
    assert_eq!(hue_to_rgb(1), (255, 1, 0));
    assert_eq!(hue_to_rgb(255), (255, 255, 0));
    assert_eq!(hue_to_rgb(257), (254, 255, 0));
    assert_eq!(hue_to_rgb(511), (0, 255, 0));
    assert_eq!(hue_to_rgb(512), (0, 255, 0));
    assert_eq!(hue_to_rgb(640), (0, 255, 128));
    assert_eq!(hue_to_rgb(768), (0, 255, 255));
    assert_eq!(hue_to_rgb(1023), (0, 0, 255));
    assert_eq!(hue_to_rgb(1024), (0, 0, 255));
    assert_eq!(hue_to_rgb(1100), (76, 0, 255));
    assert_eq!(hue_to_rgb(1280), (255, 0, 255));
    assert_eq!(hue_to_rgb(1535), (255, 0, 0));
}

#[test]
fn hue_wheel_wraps_after_six_sectors() {
    for hue in [0u16, 1, 255, 256, 700, 1535] {
        assert_eq!(hue_to_rgb(hue + 1536), hue_to_rgb(hue));
    }
    assert_eq!(hue_to_rgb(u16::MAX), (0, 0, 255));
}

#[test]
fn new_frame_is_header_and_dark_pixels() {
    let frame = new_frame(32);
    assert_eq!(frame.len(), 6 + 3 * 32);
    assert_eq!(frame.len(), HEADER_LEN + PIXEL_LEN * 32);
    assert_eq!(&frame[..6], &[0x41, 0x64, 0x61, 0x00, 0x1F, 0x4A]);
    assert!(frame[6..].iter().all(|&b| b == 0));
    assert_eq!(new_frame(1), vec![0x41, 0x64, 0x61, 0, 0, 0x55, 0, 0, 0]);
}

#[test]
fn set_pixel_changes_three_bytes() {
    let mut frame = new_frame(3);
    set_pixel(&mut frame, 1, (10, 20, 30));
    assert_eq!(frame, vec![0x41, 0x64, 0x61, 0, 2, 0x57, 0, 0, 0, 10, 20, 30, 0, 0, 0]);
    set_pixel(&mut frame, 0, hue_to_rgb(256));
    set_pixel(&mut frame, 2, (1, 2, 3));
    assert_eq!(frame, vec![0x41, 0x64, 0x61, 0, 2, 0x57, 255, 255, 0, 10, 20, 30, 1, 2, 3]);
}
