use gba_image_data::color::{GbaColor, Rgba};

fn rgba(r: u8, g: u8, b: u8, a: u8) -> Rgba {
    Rgba { r, g, b, a }
}

fn hex(word: u16) -> String {
    let mut text = String::new();
    GbaColor(word).fmt(&mut text);
    text
}

#[test]
fn quantizes_primary_colors() {
    assert_eq!(GbaColor::from(rgba(255, 0, 0, 255)).0, 0x001F);
    assert_eq!(GbaColor::from(rgba(0, 255, 0, 255)).0, 0x03E0);
    assert_eq!(GbaColor::from(rgba(0, 0, 255, 255)).0, 0x7C00);
    assert_eq!(GbaColor::from(rgba(255, 255, 255, 255)).0, 0x7FFF);
    assert_eq!(GbaColor::from(rgba(0, 0, 0, 255)).0, 0x0000);
}

#[test]
fn quantizing_truncates_and_does_not_round() {
    assert_eq!(GbaColor::from(rgba(7, 7, 7, 0)).0, 0);
    assert_eq!(GbaColor::from(rgba(8, 8, 8, 0)).0, 0x0421);
    assert_eq!(GbaColor::from(rgba(15, 15, 15, 0)).0, 0x0421);
    assert_eq!(GbaColor::from(rgba(254, 0, 0, 0)).0, 31);
    assert_eq!(GbaColor::from(rgba(247, 0, 0, 0)).0, 30);
}

#[test]
fn packs_each_channel_at_its_place() {
    // r = 200 >> 3 = 25, g = 100 >> 3 = 12, b = 50 >> 3 = 6
    assert_eq!(GbaColor::from(rgba(200, 100, 50, 9)).0, 25 | (12 << 5) | (6 << 10));
    assert_eq!(GbaColor::from(rgba(200, 100, 50, 9)).0, 0x1999);
}

#[test]
fn every_channel_value_lands_in_its_field() {
    for v in 0..=255u8 {
        let red = GbaColor::from(rgba(v, 0, 0, 0)).0;
        let green = GbaColor::from(rgba(0, v, 0, 0)).0;
        let blue = GbaColor::from(rgba(0, 0, v, 0)).0;
        let all = GbaColor::from(rgba(v, v, v, v)).0;
        assert_eq!(red, (v >> 3) as u16);
        assert_eq!(green, ((v >> 3) as u16) << 5);
        assert_eq!(blue, ((v >> 3) as u16) << 10);
        assert_eq!(all & 0x1f, (v >> 3) as u16);
        assert_eq!((all >> 5) & 0x1f, (v >> 3) as u16);
        assert_eq!((all >> 10) & 0x1f, (v >> 3) as u16);
        assert!(all <= 0x7FFF);
        assert_eq!(all >> 15, 0);
    }
}

#[test]
fn alpha_is_ignored() {
    for a in [0u8, 1, 127, 128, 255] {
        assert_eq!(GbaColor::from(rgba(90, 160, 33, a)).0, GbaColor::from(rgba(90, 160, 33, 0)).0);
    }
}

#[test]
fn quantizing_twice_gives_the_same_word() {
    let color = rgba(12, 34, 56, 78);
    assert_eq!(GbaColor::from(color).0, GbaColor::from(color).0);
}

#[test]
fn aligned_channels_survive_the_round_trip() {
    for step in 0..32u16 {
        let v = (step * 8) as u8;
        let word = GbaColor::from(rgba(v, v, v, 255)).0;
        assert_eq!(((word & 0x1f) << 3) as u8, v);
        assert_eq!((((word >> 5) & 0x1f) << 3) as u8, v);
        assert_eq!((((word >> 10) & 0x1f) << 3) as u8, v);
    }
    let word = GbaColor::from(rgba(248, 0, 64, 1)).0;
    assert_eq!((word & 0x1f) << 3, 248);
    assert_eq!(((word >> 5) & 0x1f) << 3, 0);
    assert_eq!(((word >> 10) & 0x1f) << 3, 64);
}

#[test]
fn quantizing_the_expanded_word_changes_nothing() {
    let word = GbaColor::from(rgba(201, 99, 7, 0)).0;
    let back = rgba(
        ((word & 0x1f) << 3) as u8,
        (((word >> 5) & 0x1f) << 3) as u8,
        (((word >> 10) & 0x1f) << 3) as u8,
        0,
    );
    assert_eq!(GbaColor::from(back).0, word);
}

#[test]
fn color_words_are_written_as_four_upper_case_hex_digits() {
    assert_eq!(hex(0x001F), "0x001F");
    assert_eq!(hex(0x03E0), "0x03E0");
    assert_eq!(hex(0x7FFF), "0x7FFF");
    assert_eq!(hex(0x0000), "0x0000");
    assert_eq!(hex(0x0ABC), "0x0ABC");
    assert_eq!(hex(0x7C00), "0x7C00");
    assert_eq!(hex(0xFFFF), "0xFFFF");
    assert_eq!(hex(0x1234), "0x1234");
    assert_eq!(hex(0x5DE9), "0x5DE9");
}

#[test]
fn writing_a_color_word_appends() {
    let mut text = String::from("a = ");
    GbaColor(0x00FF).fmt(&mut text);
    GbaColor(0x0001).fmt(&mut text);
    assert_eq!(text, "a = 0x00FF0x0001");
}

#[test]
fn hex_text_agrees_with_the_standard_formatter() {
    for word in [0u16, 1, 9, 10, 15, 16, 255, 256, 4095, 4096, 0x7FFF, 0x8000, 0xFFFF, 0xBEEF] {
        assert_eq!(hex(word), format!("0x{:04X}", word));
    }
}
