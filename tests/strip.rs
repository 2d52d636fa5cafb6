use rgb_strip::color::rgb_from_hsv;
use rgb_strip::hexfmt::{hex, word_hex_line};
use rgb_strip::reg::{get_field, set_field};
use rgb_strip::ws2812::{bit_val, frame, next_offset, nibble_val, reset, tx_rgb};

#[test]
fn bit_patterns() {
    assert_eq!(bit_val(true), 0b1110);
    assert_eq!(bit_val(false), 0b1000);
}

#[test]
fn nibble_example() {
    assert_eq!(nibble_val(0b1010), 0b1110_1000_1110_1000);
    assert_eq!(nibble_val(0b1010), 0xE8E8);
}

#[test]
fn nibble_extremes() {
    assert_eq!(nibble_val(0), 0x8888);
    assert_eq!(nibble_val(15), 0xEEEE);
    assert_eq!(nibble_val(0b0001), 0x888E);
    assert_eq!(nibble_val(0b1000), 0xE888);
}

#[test]
fn nibble_ignores_high_bits() {
    assert_eq!(nibble_val(0xFA), 0xE8E8);
    assert_eq!(nibble_val(0x30), 0x8888);
}

#[test]
fn every_nibble_lane_holds_its_bit() {
    for n in 0u8..16 {
        let w = nibble_val(n);
        for k in 0..4 {
            let lane = (w >> (4 * k)) & 0xf;
            let expected = if n & (1 << k) != 0 { 0b1110 } else { 0b1000 };
            assert_eq!(lane, expected, "nibble {} lane {}", n, k);
        }
    }
}

#[test]
fn reset_sends_four_zero_words() {
    let mut out: Vec<u16> = Vec::new();
    reset(&mut out);
    assert_eq!(out, vec![0u16, 0, 0, 0]);
}

#[test]
fn reset_appends() {
    let mut out: Vec<u16> = vec![7];
    reset(&mut out);
    assert_eq!(out, vec![7u16, 0, 0, 0, 0]);
}

#[test]
fn pixel_wire_order() {
    let mut out: Vec<u16> = Vec::new();
    tx_rgb(&mut out, 0x12, 0x34, 0x56);
    let expected = vec![
        nibble_val(3),
        nibble_val(4),
        nibble_val(1),
        nibble_val(2),
        nibble_val(5),
        nibble_val(6),
    ];
    assert_eq!(out, expected);
    assert_eq!(out.len(), 6);
}

#[test]
fn pixel_green_only() {
    let mut out: Vec<u16> = Vec::new();
    tx_rgb(&mut out, 0, 0xff, 0);
    assert_eq!(out, vec![0xEEEEu16, 0xEEEE, 0x8888, 0x8888, 0x8888, 0x8888]);
}

#[test]
fn hsv_red_at_zero_hue() {
    assert_eq!(rgb_from_hsv(0, 255, 255), (255, 0, 0));
}

#[test]
fn hsv_zero_value_is_black() {
    for h in 0..=255u8 {
        for s in 0..=255u8 {
            assert_eq!(rgb_from_hsv(h, s, 0), (0, 0, 0));
        }
    }
}

#[test]
fn hsv_sector_boundary() {
    assert_eq!(rgb_from_hsv(43, 255, 255), (253, 255, 0));
}

#[test]
fn hsv_each_sector() {
    assert_eq!(rgb_from_hsv(100, 255, 255), (0, 255, 83));
    assert_eq!(rgb_from_hsv(150, 255, 255), (0, 127, 255));
    assert_eq!(rgb_from_hsv(200, 255, 255), (167, 0, 255));
    assert_eq!(rgb_from_hsv(250, 255, 255), (255, 0, 43));
}

#[test]
fn hsv_no_value_offset() {
    assert_eq!(rgb_from_hsv(0, 0, 255), (0, 0, 0));
    assert_eq!(rgb_from_hsv(0, 128, 255), (128, 0, 0));
}

#[test]
fn frame_layout() {
    let words = frame(0, 2);
    assert_eq!(words.len(), 4 + 12);
    assert_eq!(&words[0..4], &[0u16, 0, 0, 0]);
    let mut expected: Vec<u16> = vec![0, 0, 0, 0];
    let (r, g, b) = rgb_from_hsv(0, 255, 255);
    tx_rgb(&mut expected, r, g, b);
    let (r, g, b) = rgb_from_hsv(8, 255, 255);
    tx_rgb(&mut expected, r, g, b);
    assert_eq!(words, expected);
}

#[test]
fn frame_hue_wraps() {
    let words = frame(252, 2);
    let mut expected: Vec<u16> = Vec::new();
    reset(&mut expected);
    let (r, g, b) = rgb_from_hsv(252, 255, 255);
    tx_rgb(&mut expected, r, g, b);
    let (r, g, b) = rgb_from_hsv(4, 255, 255);
    tx_rgb(&mut expected, r, g, b);
    assert_eq!(words, expected);
}

#[test]
fn frame_full_strip_length() {
    assert_eq!(frame(10, 300).len(), 4 + 300 * 6);
    assert_eq!(frame(0, 0), vec![0u16, 0, 0, 0]);
}

#[test]
fn offset_advances_and_wraps() {
    assert_eq!(next_offset(0), 10);
    assert_eq!(next_offset(250), 4);
}

#[test]
fn hex_digits() {
    assert_eq!(hex(0), '0');
    assert_eq!(hex(9), '9');
    assert_eq!(hex(10), 'a');
    assert_eq!(hex(15), 'f');
    assert_eq!(hex(16), 'X');
    assert_eq!(hex(255), 'X');
}

#[test]
fn hex_line_of_word() {
    let line: String = word_hex_line(0xDEAD_BEEF).into_iter().collect();
    assert_eq!(line, "0xdeadbeef\r\n");
    let line: String = word_hex_line(0x0000_00A5).into_iter().collect();
    assert_eq!(line, "0x000000a5\r\n");
}

#[test]
fn field_write_keeps_other_bits() {
    assert_eq!(set_field(0xFFFF_FFFF, 4, 2, 0), 0xFFFF_FFCF);
    assert_eq!(set_field(0, 8, 8, 14), 0x0000_0E00);
    assert_eq!(set_field(0xFFFF_FFFF, 0, 4, 15), 0xFFFF_FFFF);
    assert_eq!(set_field(0x1234_5678, 0, 4, 0), 0x1234_5670);
}

#[test]
fn field_read() {
    assert_eq!(get_field(0x0000_0E0F, 0, 4), 15);
    assert_eq!(get_field(0x0000_0E0F, 8, 8), 14);
    assert_eq!(get_field(0b10, 1, 1), 1);
    assert_eq!(get_field(0b01, 1, 1), 0);
}

#[test]
fn disjoint_field_writes_compose() {
    let r = set_field(set_field(0, 0, 4, 9), 4, 2, 2);
    assert_eq!(get_field(r, 0, 4), 9);
    assert_eq!(get_field(r, 4, 2), 2);
}
